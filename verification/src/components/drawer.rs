//! The drawer: a panel that lists the pages of a drawer navigator and marks
//! the page that is shown.
use crate::color::Color;
use crate::length::Length;
use crate::page::PageKey;
use crate::drawer_navigator::DrawerAction;
use crate::NavigationAction;
use vstd::prelude::*;

verus! {

/// Whether the drawer stands beside the pages or slides over them.
#[derive(Debug, Clone, Copy, PartialEq, Eq, Structural)]
pub enum DrawerMode {
    Fixed,
    Sliding,
}

/// Room kept free inside a component, in pixels.
#[derive(Debug, Clone, Copy, PartialEq, Eq, Structural)]
pub struct Padding {
    pub top: u32,
    pub right: u32,
    pub bottom: u32,
    pub left: u32,
}

/// How the entries of a drawer look.
#[derive(Debug, Clone, Copy, PartialEq, Eq, Structural)]
pub struct DrawerItemsSettings {
    pub active_tint_color: Option<Color>,
    pub inactive_tint_color: Option<Color>,
    pub background_color: Option<Color>,
    pub background_color_selected: Option<Color>,
}

/// How a drawer looks and behaves.
#[derive(Debug, Clone, Copy, PartialEq, Eq, Structural)]
pub struct DrawerSettings {
    pub width: Length,
    pub padding: Padding,
    pub background_color: Option<Color>,
    pub item_settings: DrawerItemsSettings,
    pub mode: DrawerMode,
}

impl DrawerItemsSettings {
    /// Entries in the colours of the theme.
    pub open spec fn default_spec() -> DrawerItemsSettings {
        DrawerItemsSettings {
            active_tint_color: None,
            inactive_tint_color: None,
            background_color: None,
            background_color_selected: None,
        }
    }
}

impl DrawerSettings {
    /// A fixed drawer three hundred pixels wide, padded by ten pixels and
    /// by sixty at the top, in the colours of the theme.
    pub open spec fn default_spec() -> DrawerSettings {
        DrawerSettings {
            width: Length::Fixed(300),
            padding: Padding { top: 60, right: 10, bottom: 10, left: 10 },
            background_color: None,
            item_settings: DrawerItemsSettings::default_spec(),
            mode: DrawerMode::Fixed,
        }
    }
}

impl Default for DrawerItemsSettings {
    fn default() -> (settings: Self)
        ensures
            settings == DrawerItemsSettings::default_spec(),
    {
        DrawerItemsSettings {
            active_tint_color: None,
            inactive_tint_color: None,
            background_color: None,
            background_color_selected: None,
        }
    }
}

impl Default for DrawerSettings {
    fn default() -> (settings: Self)
        ensures
            settings == DrawerSettings::default_spec(),
    {
        DrawerSettings {
            width: Length::Fixed(300),
            padding: Padding { top: 60, right: 10, bottom: 10, left: 10 },
            background_color: None,
            item_settings: DrawerItemsSettings::default(),
            mode: DrawerMode::Fixed,
        }
    }
}

/// The entry that a drawer shows for a page unless the page brings its own:
/// pressing it navigates to the page, unless the page is shown already.
#[derive(Debug, Clone, Copy, PartialEq, Eq, Structural)]
pub struct DrawerOption;

impl DrawerOption {
    /// What pressing the entry of `page` sends, if anything.
    pub open spec fn on_press_spec(page: PageKey, selected: bool) -> Option<
        NavigationAction<PageKey>,
    > {
        if selected {
            None
        } else {
            Some(NavigationAction::Navigate(page))
        }
    }

    /// What pressing the entry of `page` sends: nothing where the page is
    /// selected, and else the navigation to it.
    pub fn on_press(&self, page: PageKey, selected: bool) -> (action: Option<
        NavigationAction<PageKey>,
    >)
        ensures
            action == Self::on_press_spec(page, selected),
    {
        if selected {
            None
        } else {
            Some(NavigationAction::Navigate(page))
        }
    }
}

/// The button that slides the drawer in, shown in the header of a page
/// whose drawer slides.
#[derive(Debug, Clone, Copy, PartialEq, Eq, Structural)]
pub struct DrawerButton;

impl DrawerButton {
    /// What pressing the button sends.
    pub fn on_press(&self) -> (action: NavigationAction<PageKey>)
        ensures
            action == NavigationAction::<PageKey>::Drawer(DrawerAction::Expand),
    {
        NavigationAction::Drawer(DrawerAction::Expand)
    }
}

/// What pressing the scrim beside a drawer that has slid in sends: the
/// drawer slides out again.
pub fn overlay() -> (action: NavigationAction<PageKey>)
    ensures
        action == NavigationAction::<PageKey>::Drawer(DrawerAction::Hide),
{
    NavigationAction::Drawer(DrawerAction::Hide)
}

/// A page as it is listed in a drawer.
#[derive(Debug, Clone, Copy, PartialEq, Eq, Structural)]
pub struct DrawerEntry {
    pub page: PageKey,
    /// Whether the page brings an entry of its own.
    pub custom: bool,
}

/// One entry of a drawer as it is laid out.
#[derive(Debug, Clone, Copy, PartialEq, Eq, Structural)]
pub struct DrawerItem {
    pub page: PageKey,
    pub selected: bool,
    pub custom: bool,
}

/// What contracts say of a drawer.
pub struct DrawerView {
    pub options: Seq<DrawerEntry>,
    pub selected_page: PageKey,
    pub settings: DrawerSettings,
}

impl DrawerView {
    /// The entry laid out at position `index`: it is selected where its
    /// page is the selected page.
    pub open spec fn item(self, index: int) -> DrawerItem {
        DrawerItem {
            page: self.options[index].page,
            selected: self.options[index].page == self.selected_page,
            custom: self.options[index].custom,
        }
    }

    /// The entries as they are laid out, from the top.
    pub open spec fn items(self) -> Seq<DrawerItem> {
        Seq::new(self.options.len(), |i: int| self.item(i))
    }
}

/// The drawer of a drawer navigator.
pub struct Drawer {
    options: Vec<DrawerEntry>,
    selected_page: PageKey,
    settings: DrawerSettings,
}

impl Drawer {
    /// What contracts say of this drawer.
    pub closed spec fn model(&self) -> DrawerView {
        DrawerView {
            options: self.options@,
            selected_page: self.selected_page,
            settings: self.settings,
        }
    }

    /// A drawer that lists `options`, with `selected_page` selected and the
    /// default settings.
    pub fn new(selected_page: PageKey, options: Vec<DrawerEntry>) -> (drawer: Self)
        ensures
            drawer.model() == (DrawerView {
                options: options@,
                selected_page,
                settings: DrawerSettings::default_spec(),
            }),
    {
        Drawer { options, selected_page, settings: DrawerSettings::default() }
    }

    /// Replaces the settings; without any, the default ones are taken.
    pub fn set_settings(&mut self, settings: Option<DrawerSettings>)
        ensures
            final(self).model() == (DrawerView {
                settings: match settings {
                    Some(given) => given,
                    None => DrawerSettings::default_spec(),
                },
                ..old(self).model()
            }),
    {
        self.settings = match settings {
            Some(given) => given,
            None => DrawerSettings::default(),
        };
    }

    /// Selects a page.
    pub fn set_selected_page(&mut self, selected_page: PageKey)
        ensures
            final(self).model() == (DrawerView { selected_page, ..old(self).model() }),
    {
        self.selected_page = selected_page;
    }

    /// The settings in force.
    pub fn settings(&self) -> (settings: DrawerSettings)
        ensures
            settings == self.model().settings,
    {
        self.settings
    }

    /// The pages that are listed.
    pub fn options(&self) -> (options: &Vec<DrawerEntry>)
        ensures
            options@ == self.model().options,
    {
        &self.options
    }

    /// The entries to lay out, from the top.
    pub fn view(&self) -> (items: Vec<DrawerItem>)
        ensures
            items@ == self.model().items(),
    {
        let mut items: Vec<DrawerItem> = Vec::new();
        let mut index: usize = 0;
        while index < self.options.len()
            invariant
                index <= self.options.len(),
                items@ == Seq::new(index as nat, |i: int| self.model().item(i)),
            decreases self.options.len() - index,
        {
            let entry: DrawerEntry = self.options[index];
            items.push(
                DrawerItem {
                    page: entry.page,
                    selected: entry.page == self.selected_page,
                    custom: entry.custom,
                },
            );
            index = index + 1;
            proof {
                assert(items@ =~= Seq::new(index as nat, |i: int| self.model().item(i)));
            }
        }
        items
    }
}

} // verus!
