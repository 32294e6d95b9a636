//! The tab bar: one tab for each page of a tabs navigator, with the tab of
//! the page that is shown marked as active.
use crate::color::Color;
use crate::length::Length;
use crate::page::PageKey;
use crate::NavigationAction;
use vstd::prelude::*;

verus! {

/// Where content is placed along an axis.
#[derive(Debug, Clone, Copy, PartialEq, Eq, Structural)]
pub enum Alignment {
    Start,
    Center,
    End,
}

/// How one tab looks.
#[derive(Debug, Clone, Copy, PartialEq, Eq, Structural)]
pub struct TabItemSetting {
    pub icon_size: u32,
    pub text_size: u32,
    pub color: Option<Color>,
    pub tint_color: Option<Color>,
    /// Whether the title stands beside the icon rather than below it.
    pub horizontal: bool,
}

/// How a tab bar looks.
#[derive(Debug, Clone, Copy, PartialEq, Eq, Structural)]
pub struct TabsSettings {
    pub width: Length,
    pub background_color: Option<Color>,
    pub background_tint_color: Option<Color>,
    pub item_setting: TabItemSetting,
    pub alignment: Alignment,
}

impl TabItemSetting {
    /// An icon of fifteen pixels above a title of twelve, in the colours of
    /// the theme.
    pub open spec fn default_spec() -> TabItemSetting {
        TabItemSetting {
            icon_size: 15,
            text_size: 12,
            color: None,
            tint_color: None,
            horizontal: false,
        }
    }
}

impl TabsSettings {
    /// A bar that fills the width, with its tabs in the middle, in the
    /// colours of the theme.
    pub open spec fn default_spec() -> TabsSettings {
        TabsSettings {
            width: Length::Fill,
            background_color: None,
            background_tint_color: None,
            item_setting: TabItemSetting::default_spec(),
            alignment: Alignment::Center,
        }
    }
}

impl Default for TabItemSetting {
    fn default() -> (settings: Self)
        ensures
            settings == TabItemSetting::default_spec(),
    {
        TabItemSetting {
            icon_size: 15,
            text_size: 12,
            color: None,
            tint_color: None,
            horizontal: false,
        }
    }
}

impl Default for TabsSettings {
    fn default() -> (settings: Self)
        ensures
            settings == TabsSettings::default_spec(),
    {
        TabsSettings {
            width: Length::Fill,
            background_color: None,
            background_tint_color: None,
            item_setting: TabItemSetting::default(),
            alignment: Alignment::Center,
        }
    }
}

/// One tab as it is laid out.
#[derive(Debug, Clone, Copy, PartialEq, Eq, Structural)]
pub struct TabItem {
    pub page: PageKey,
    /// Whether this is the tab of the page that is shown.
    pub active: bool,
}

impl TabItem {
    /// What pressing the tab sends, if anything.
    pub open spec fn on_press_spec(self) -> Option<NavigationAction<PageKey>> {
        if self.active {
            None
        } else {
            Some(NavigationAction::Navigate(self.page))
        }
    }

    /// What pressing the tab sends: nothing on the active tab, and else
    /// the navigation to its page.
    pub fn on_press(&self) -> (action: Option<NavigationAction<PageKey>>)
        ensures
            action == self.on_press_spec(),
    {
        if self.active {
            None
        } else {
            Some(NavigationAction::Navigate(self.page))
        }
    }
}

/// What contracts say of a tab bar.
pub struct TabsView {
    pub pages: Seq<PageKey>,
    pub current_page: PageKey,
    pub settings: TabsSettings,
}

impl TabsView {
    /// The tab laid out at position `index`: it is active where its page is
    /// the current page.
    pub open spec fn item(self, index: int) -> TabItem {
        TabItem { page: self.pages[index], active: self.pages[index] == self.current_page }
    }

    /// The tabs as they are laid out, in order.
    pub open spec fn items(self) -> Seq<TabItem> {
        Seq::new(self.pages.len(), |i: int| self.item(i))
    }
}

/// The tab bar of a tabs navigator.
pub struct Tabs {
    pages: Vec<PageKey>,
    current_page: PageKey,
    settings: TabsSettings,
}

impl Tabs {
    /// What contracts say of this tab bar.
    pub closed spec fn model(&self) -> TabsView {
        TabsView {
            pages: self.pages@,
            current_page: self.current_page,
            settings: self.settings,
        }
    }

    /// A bar with a tab for each of `pages`, the tab of `initial_page`
    /// active, and the default settings.
    pub fn new(pages: Vec<PageKey>, initial_page: PageKey) -> (tabs: Self)
        ensures
            tabs.model() == (TabsView {
                pages: pages@,
                current_page: initial_page,
                settings: TabsSettings::default_spec(),
            }),
    {
        Tabs { pages, current_page: initial_page, settings: TabsSettings::default() }
    }

    /// Replaces the settings; without any, the default ones are taken.
    pub fn set_settings(&mut self, settings: Option<TabsSettings>)
        ensures
            final(self).model() == (TabsView {
                settings: match settings {
                    Some(given) => given,
                    None => TabsSettings::default_spec(),
                },
                ..old(self).model()
            }),
    {
        self.settings = match settings {
            Some(given) => given,
            None => TabsSettings::default(),
        };
    }

    /// Makes the tab of `page` the active one.
    pub fn update_current_page(&mut self, page: PageKey)
        ensures
            final(self).model() == (TabsView { current_page: page, ..old(self).model() }),
    {
        self.current_page = page;
    }

    /// The settings in force.
    pub fn settings(&self) -> (settings: TabsSettings)
        ensures
            settings == self.model().settings,
    {
        self.settings
    }

    /// The tabs to lay out, in order.
    pub fn view(&self) -> (items: Vec<TabItem>)
        ensures
            items@ == self.model().items(),
    {
        let mut items: Vec<TabItem> = Vec::new();
        let mut index: usize = 0;
        while index < self.pages.len()
            invariant
                index <= self.pages.len(),
                items@ == Seq::new(index as nat, |i: int| self.model().item(i)),
            decreases self.pages.len() - index,
        {
            let page: PageKey = self.pages[index];
            items.push(TabItem { page, active: page == self.current_page });
            index = index + 1;
            proof {
                assert(items@ =~= Seq::new(index as nat, |i: int| self.model().item(i)));
            }
        }
        items
    }
}

} // verus!
