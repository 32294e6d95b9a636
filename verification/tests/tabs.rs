use iced_navigation::animation::Frame;
use iced_navigation::components::tabs::{
    Alignment, TabItem, TabItemSetting, Tabs, TabsSettings,
};
use iced_navigation::drawer_navigator::DrawerAction;
use iced_navigation::length::Length;
use iced_navigation::page::PageKey;
use iced_navigation::tabs_navigator::{Position, TabsNavigator, TabsPage};
use iced_navigation::{NavigationAction, Navigator};

const FEED: PageKey = PageKey(1);
const SEARCH: PageKey = PageKey(2);
const PROFILE: PageKey = PageKey(3);

fn page(key: PageKey) -> TabsPage {
    TabsPage { key, settings: None }
}

fn all() -> Vec<TabsPage> {
    vec![page(FEED), page(SEARCH), page(PROFILE)]
}

#[test]
fn tabs_settings_default() {
    let settings = TabsSettings::default();
    assert_eq!(settings.width, Length::Fill);
    assert_eq!(settings.alignment, Alignment::Center);
    assert_eq!(settings.background_color, None);
    assert_eq!(settings.background_tint_color, None);
    assert_eq!(
        settings.item_setting,
        TabItemSetting { icon_size: 15, text_size: 12, color: None, tint_color: None, horizontal: false }
    );
}

#[test]
fn tab_bar_marks_the_current_page() {
    let mut tabs = Tabs::new(vec![FEED, SEARCH], FEED);
    assert_eq!(
        tabs.view(),
        vec![TabItem { page: FEED, active: true }, TabItem { page: SEARCH, active: false }]
    );
    tabs.update_current_page(SEARCH);
    assert_eq!(
        tabs.view(),
        vec![TabItem { page: FEED, active: false }, TabItem { page: SEARCH, active: true }]
    );
    let given = TabsSettings { alignment: Alignment::End, ..TabsSettings::default() };
    tabs.set_settings(Some(given));
    assert_eq!(tabs.settings(), given);
    tabs.set_settings(None);
    assert_eq!(tabs.settings(), TabsSettings::default());
}

#[test]
fn pressing_a_tab_navigates_unless_it_is_active() {
    let active = TabItem { page: FEED, active: true };
    assert!(active.on_press().is_none());
    let other = TabItem { page: SEARCH, active: false };
    assert!(matches!(other.on_press(), Some(NavigationAction::Navigate(SEARCH))));
}

#[test]
fn starts_at_the_bottom_on_the_initial_page() {
    let (navigator, outcome) = TabsNavigator::new(all(), page(FEED));
    assert_eq!(outcome.load, Some(FEED));
    assert!(outcome.follow_up.is_none());
    assert_eq!(navigator.current_page(), FEED);
    assert_eq!(navigator.position(), Position::Bottom);
    assert!(navigator.history().is_empty());
    assert_eq!(navigator.tabs().view().len(), 3);
    assert!(navigator.tabs().view()[0].active);
}

#[test]
fn navigation_swaps_the_page_at_once() {
    let (mut navigator, _) = TabsNavigator::new(all(), page(FEED));
    let given = TabsSettings { alignment: Alignment::Start, ..TabsSettings::default() };
    let outcome = navigator
        .handle_actions(NavigationAction::Navigate(TabsPage { key: SEARCH, settings: Some(given) }));
    assert_eq!(outcome.load, Some(SEARCH));
    assert!(outcome.follow_up.is_none());
    assert_eq!(navigator.current_page(), SEARCH);
    assert_eq!(navigator.history(), &vec![FEED]);
    assert!(navigator.tabs().view()[1].active);
    assert_eq!(navigator.tabs().settings(), given);

    let outcome = navigator.handle_actions(NavigationAction::Navigate(page(FEED)));
    assert_eq!(outcome.load, None);
    assert_eq!(navigator.history(), &vec![FEED, SEARCH]);
    assert_eq!(navigator.tabs().settings(), TabsSettings::default());
}

#[test]
fn going_back_pops_at_once_and_leaves_the_bar() {
    let (mut navigator, _) = TabsNavigator::new(all(), page(FEED));
    navigator.navigate(page(SEARCH));
    navigator.navigate(page(PROFILE));
    let outcome = navigator.handle_actions(NavigationAction::GoBack);
    assert!(outcome.follow_up.is_none() && outcome.load.is_none());
    assert_eq!(navigator.current_page(), SEARCH);
    assert_eq!(navigator.history(), &vec![FEED]);
    assert!(navigator.tabs().view()[2].active);
    navigator.go_back();
    navigator.go_back();
    assert_eq!(navigator.current_page(), FEED);
    assert!(navigator.history().is_empty());
    assert!(navigator.has_page(PROFILE));
}

#[test]
fn ticks_and_drawer_actions_mean_nothing_to_tabs() {
    let (mut navigator, _) = TabsNavigator::new(all(), page(FEED));
    navigator.navigate(page(SEARCH));
    let outcome = navigator.handle_actions(NavigationAction::Tick(Frame::new()));
    assert!(outcome.follow_up.is_none() && outcome.load.is_none());
    let outcome = navigator.handle_actions(NavigationAction::Drawer(DrawerAction::Hide));
    assert!(outcome.follow_up.is_none() && outcome.load.is_none());
    assert_eq!(navigator.current_page(), SEARCH);
    assert_eq!(navigator.history(), &vec![FEED]);
}

#[test]
fn history_of_tabs() {
    let (mut navigator, _) = TabsNavigator::new(all(), page(FEED));
    navigator.navigate(page(SEARCH));
    assert_eq!(navigator.pop_history(), None);
    assert_eq!(navigator.history(), &vec![FEED]);
    navigator.clear_history();
    assert!(navigator.history().is_empty());
    assert!(navigator.is_on_page(SEARCH));
    assert!(navigator.is_on_page_and(SEARCH, || true));
    assert!(!navigator.is_on_page_and(SEARCH, || false));
}

#[test]
fn scene_of_tabs() {
    let (mut navigator, _) = TabsNavigator::new(all(), page(FEED));
    navigator.navigate(page(SEARCH));
    navigator.set_tabs_position(Position::Top);
    let scene = navigator.view();
    assert_eq!(scene.position, Position::Top);
    let container = &scene.container;
    assert!(container.is_persistent());
    assert!(!container.is_relative());
    assert_eq!(container.state(), vec![FEED.0, SEARCH.0]);
    assert!(container.params_at(0).hidden && container.params_at(0).disabled);
    assert!(!container.params_at(1).hidden && !container.params_at(1).disabled);
    assert_eq!(container.children()[0].page, FEED);
    assert!(container.children()[0].header.is_none());
    assert_eq!(container.draw_plan().len(), 1);
    assert_eq!(container.input_order(), vec![1]);
}

#[test]
fn revisited_tab_keeps_its_retained_state() {
    let (mut navigator, _) = TabsNavigator::new(all(), page(FEED));
    navigator.navigate(page(SEARCH));
    let before = navigator.view().container.state();
    let mut slots = vec!["feed scrolled", "search typed"];
    navigator.navigate(page(FEED));
    let scene = navigator.view();
    let ids = scene.container.diff(&mut slots, Some(&before), "blank");
    assert_eq!(ids, vec![FEED.0, SEARCH.0, FEED.0]);
    assert_eq!(slots, vec!["blank", "search typed", "feed scrolled"]);

    navigator.navigate(page(PROFILE));
    let scene = navigator.view();
    let ids = scene.container.diff(&mut slots, Some(&ids), "blank");
    assert_eq!(ids.len(), 4);
    assert_eq!(slots, vec!["blank", "search typed", "feed scrolled"]);
}
