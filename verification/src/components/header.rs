//! The header shown above a page: a title between an optional button on the
//! left and an optional button on the right.
use crate::color::Color;
use crate::length::Length;
use vstd::prelude::*;

verus! {

/// How the buttons of a header look.
#[derive(Debug, Clone, Copy, PartialEq, Eq, Structural)]
pub struct ButtonSettings {
    pub background_color: Option<Color>,
    pub height: Length,
    pub width: Length,
    pub icon_color: Option<Color>,
    pub icon_size: u32,
}

/// How the title of a header looks.
#[derive(Debug, Clone, Copy, PartialEq, Eq, Structural)]
pub struct TitleSettings {
    pub title_color: Option<Color>,
    pub title_size: u32,
}

/// How a header looks, and whether it is shown at all.
#[derive(Debug, Clone, Copy, PartialEq, Eq, Structural)]
pub struct HeaderSettings {
    pub show_header: bool,
    pub height: Length,
    pub background_color: Option<Color>,
    pub button_settings: ButtonSettings,
    pub title_settings: TitleSettings,
}

impl ButtonSettings {
    /// Buttons thirty pixels high and forty wide, with an icon of twenty,
    /// in the colours of the theme.
    pub open spec fn default_spec() -> ButtonSettings {
        ButtonSettings {
            background_color: None,
            height: Length::Fixed(30),
            width: Length::Fixed(40),
            icon_color: None,
            icon_size: 20,
        }
    }
}

impl TitleSettings {
    /// A title of eighteen pixels in the colour of the theme.
    pub open spec fn default_spec() -> TitleSettings {
        TitleSettings { title_color: None, title_size: 18 }
    }
}

impl HeaderSettings {
    /// A shown header fifty pixels high, in the colours of the theme.
    pub open spec fn default_spec() -> HeaderSettings {
        HeaderSettings {
            show_header: true,
            height: Length::Fixed(50),
            background_color: None,
            button_settings: ButtonSettings::default_spec(),
            title_settings: TitleSettings::default_spec(),
        }
    }
}

impl Default for ButtonSettings {
    fn default() -> (settings: Self)
        ensures
            settings == ButtonSettings::default_spec(),
    {
        ButtonSettings {
            background_color: None,
            height: Length::Fixed(30),
            width: Length::Fixed(40),
            icon_color: None,
            icon_size: 20,
        }
    }
}

impl Default for TitleSettings {
    fn default() -> (settings: Self)
        ensures
            settings == TitleSettings::default_spec(),
    {
        TitleSettings { title_color: None, title_size: 18 }
    }
}

impl Default for HeaderSettings {
    fn default() -> (settings: Self)
        ensures
            settings == HeaderSettings::default_spec(),
    {
        HeaderSettings {
            show_header: true,
            height: Length::Fixed(50),
            background_color: None,
            button_settings: ButtonSettings::default(),
            title_settings: TitleSettings::default(),
        }
    }
}

/// The title that a header shows unless a page brings its own.
#[derive(Debug, Clone, Copy, PartialEq, Eq, Structural)]
pub struct Title;

impl Title {
    pub fn new() -> (title: Self)
        ensures
            title == Title,
    {
        Title
    }
}

/// The button that a header shows on the left unless a page brings its own:
/// it asks the navigator to go back.
#[derive(Debug, Clone, Copy, PartialEq, Eq, Structural)]
pub struct BackButton;

impl BackButton {
    pub fn new() -> (button: Self)
        ensures
            button == BackButton,
    {
        BackButton
    }
}

/// Which button stands in a header.
#[derive(Debug, Clone, Copy, PartialEq, Eq, Structural)]
pub enum HeaderButton {
    /// The back button.
    Back,
    /// The button that slides the drawer in.
    Drawer,
    /// A button that the page brings.
    Custom,
}

/// Which title stands in a header.
#[derive(Debug, Clone, Copy, PartialEq, Eq, Structural)]
pub enum HeaderTitle {
    /// The plain title.
    Plain,
    /// A title that the page brings.
    Custom,
}

/// What is laid out for a header, from left to right.
#[derive(Debug, Clone, Copy, PartialEq, Eq, Structural)]
pub struct HeaderLayout {
    pub left: Option<HeaderButton>,
    pub title_widget: HeaderTitle,
    pub right: Option<HeaderButton>,
    pub settings: HeaderSettings,
}

/// The header of one page.
pub struct Header {
    title: String,
    title_widget: HeaderTitle,
    back_button: HeaderButton,
    right_button: Option<HeaderButton>,
    settings: HeaderSettings,
    show_left_button: bool,
}

/// What contracts say of a header.
pub struct HeaderView {
    pub title: Seq<char>,
    pub title_widget: HeaderTitle,
    pub back_button: HeaderButton,
    pub right_button: Option<HeaderButton>,
    pub settings: HeaderSettings,
    pub show_left_button: bool,
}

impl HeaderView {
    /// The header that a page gets before anything is set on it.
    pub open spec fn fresh(title: Seq<char>) -> HeaderView {
        HeaderView {
            title,
            title_widget: HeaderTitle::Plain,
            back_button: HeaderButton::Back,
            right_button: None,
            settings: HeaderSettings::default_spec(),
            show_left_button: true,
        }
    }

    /// The button on the left, where it is shown.
    pub open spec fn left(self) -> Option<HeaderButton> {
        if self.show_left_button {
            Some(self.back_button)
        } else {
            None
        }
    }

    /// What is laid out for this header where the caller decides whether
    /// the button on the left is hidden.
    pub open spec fn layout_with(self, hide_left: bool) -> HeaderLayout {
        HeaderLayout {
            left: if hide_left {
                None
            } else {
                Some(self.back_button)
            },
            title_widget: self.title_widget,
            right: self.right_button,
            settings: self.settings,
        }
    }

    /// What is laid out for this header.
    pub open spec fn layout(self) -> HeaderLayout {
        HeaderLayout {
            left: self.left(),
            title_widget: self.title_widget,
            right: self.right_button,
            settings: self.settings,
        }
    }
}

impl Header {
    /// What contracts say of this header.
    pub closed spec fn model(&self) -> HeaderView {
        HeaderView {
            title: self.title@,
            title_widget: self.title_widget,
            back_button: self.back_button,
            right_button: self.right_button,
            settings: self.settings,
            show_left_button: self.show_left_button,
        }
    }
}

impl Header {
    /// A header with the plain title, the back button, no button on the
    /// right and the default settings.
    pub fn new(title: String) -> (header: Self)
        ensures
            header.model() == HeaderView::fresh(title@),
    {
        Header {
            title,
            title_widget: HeaderTitle::Plain,
            back_button: HeaderButton::Back,
            right_button: None,
            settings: HeaderSettings::default(),
            show_left_button: true,
        }
    }

    /// Replaces the settings; without any, the default ones are taken.
    pub fn set_settings(&mut self, settings: Option<HeaderSettings>)
        ensures
            final(self).model() == (HeaderView {
                settings: match settings {
                    Some(given) => given,
                    None => HeaderSettings::default_spec(),
                },
                ..old(self).model()
            }),
    {
        self.settings = match settings {
            Some(given) => given,
            None => HeaderSettings::default(),
        };
    }

    /// Hides the button on the left, or shows it again.
    pub fn hide_left_button(&mut self, hidden: bool)
        ensures
            final(self).model() == (HeaderView { show_left_button: !hidden, ..old(self).model() }),
    {
        self.show_left_button = !hidden;
    }

    /// Replaces the button on the left.
    pub fn set_back_button(&mut self, button: HeaderButton)
        ensures
            final(self).model() == (HeaderView { back_button: button, ..old(self).model() }),
    {
        self.back_button = button;
    }

    /// Puts a button on the right.
    pub fn set_right_button(&mut self, button: HeaderButton)
        ensures
            final(self).model() == (HeaderView { right_button: Some(button), ..old(self).model() }),
    {
        self.right_button = Some(button);
    }

    /// Replaces the title.
    pub fn set_title_widget(&mut self, title: HeaderTitle)
        ensures
            final(self).model() == (HeaderView { title_widget: title, ..old(self).model() }),
    {
        self.title_widget = title;
    }

    /// The button on the left, where it is shown.
    pub fn render_back_button(&self) -> (button: Option<HeaderButton>)
        ensures
            button == self.model().left(),
    {
        if !self.show_left_button {
            return None;
        }
        Some(self.back_button)
    }

    /// The text of the title.
    pub fn title(&self) -> (title: &String)
        ensures
            title@ == self.model().title,
    {
        &self.title
    }

    /// Whether the settings ask for the header to be shown.
    pub fn is_shown(&self) -> (shown: bool)
        ensures
            shown == self.model().settings.show_header,
    {
        self.settings.show_header
    }

    /// What is laid out for this header where the caller decides whether
    /// the button on the left is hidden, whatever was set on the header.
    pub fn view_with(&self, hide_left: bool) -> (layout: HeaderLayout)
        ensures
            layout == self.model().layout_with(hide_left),
    {
        HeaderLayout {
            left: if hide_left {
                None
            } else {
                Some(self.back_button)
            },
            title_widget: self.title_widget,
            right: self.right_button,
            settings: self.settings,
        }
    }

    /// What is laid out for this header, from left to right.
    pub fn view(&self) -> (layout: HeaderLayout)
        ensures
            layout == self.model().layout(),
    {
        HeaderLayout {
            left: self.render_back_button(),
            title_widget: self.title_widget,
            right: self.right_button,
            settings: self.settings,
        }
    }
}

} // verus!
