use iced_navigation::animation::{Curve, Frame, COMPLETE};
use iced_navigation::components::drawer::{
    overlay, Drawer, DrawerButton, DrawerEntry, DrawerItem, DrawerItemsSettings, DrawerMode,
    DrawerOption, DrawerSettings, Padding,
};
use iced_navigation::components::header::HeaderButton;
use iced_navigation::drawer_navigator::{
    DrawerAction, DrawerLayer, DrawerNavigator, DrawerPage, SLIDE_DURATION,
};
use iced_navigation::length::Length;
use iced_navigation::page::PageKey;
use iced_navigation::{NavigationAction, Navigator, Outcome};

const HOME: PageKey = PageKey(1);
const SETTINGS: PageKey = PageKey(2);
const ABOUT: PageKey = PageKey(3);

fn fixed(key: PageKey) -> DrawerPage {
    DrawerPage {
        key,
        title: "Page".to_string(),
        header_settings: None,
        settings: Some(DrawerSettings::default()),
        back_button: None,
        right_button: None,
        title_widget: None,
        drawer_option: false,
    }
}

fn sliding(key: PageKey) -> DrawerPage {
    DrawerPage {
        settings: Some(DrawerSettings { mode: DrawerMode::Sliding, ..DrawerSettings::default() }),
        ..fixed(key)
    }
}

fn plain(key: PageKey) -> DrawerPage {
    DrawerPage { settings: None, ..fixed(key) }
}

fn tick_of(outcome: Outcome<DrawerPage>) -> Frame {
    match outcome.follow_up {
        Some(NavigationAction::Tick(frame)) => frame,
        _ => panic!("a tick was expected"),
    }
}

fn finish(navigator: &mut DrawerNavigator, frame: Frame) {
    let mut frame = frame;
    frame.advance(SLIDE_DURATION as u128);
    let outcome = navigator.tick(frame);
    assert!(outcome.follow_up.is_none());
}

#[test]
fn drawer_settings_default() {
    let settings = DrawerSettings::default();
    assert_eq!(settings.width, Length::Fixed(300));
    assert_eq!(settings.padding, Padding { top: 60, right: 10, bottom: 10, left: 10 });
    assert_eq!(settings.background_color, None);
    assert_eq!(settings.mode, DrawerMode::Fixed);
    assert_eq!(
        settings.item_settings,
        DrawerItemsSettings {
            active_tint_color: None,
            inactive_tint_color: None,
            background_color: None,
            background_color_selected: None,
        }
    );
}

#[test]
fn drawer_marks_the_selected_page() {
    let entries = vec![
        DrawerEntry { page: HOME, custom: false },
        DrawerEntry { page: SETTINGS, custom: true },
    ];
    let mut drawer = Drawer::new(HOME, entries);
    assert_eq!(
        drawer.view(),
        vec![
            DrawerItem { page: HOME, selected: true, custom: false },
            DrawerItem { page: SETTINGS, selected: false, custom: true },
        ]
    );
    drawer.set_selected_page(SETTINGS);
    let items = drawer.view();
    assert!(!items[0].selected && items[1].selected);
    drawer.set_selected_page(ABOUT);
    assert!(drawer.view().iter().all(|item| !item.selected));

    let given = DrawerSettings { width: Length::Fixed(100), ..DrawerSettings::default() };
    drawer.set_settings(Some(given));
    assert_eq!(drawer.settings(), given);
    drawer.set_settings(None);
    assert_eq!(drawer.settings(), DrawerSettings::default());
    assert_eq!(drawer.options().len(), 2);
}

#[test]
fn pressing_sends_the_right_action() {
    assert!(matches!(
        DrawerOption.on_press(SETTINGS, false),
        Some(NavigationAction::Navigate(SETTINGS))
    ));
    assert!(DrawerOption.on_press(SETTINGS, true).is_none());
    assert!(matches!(
        DrawerButton.on_press(),
        NavigationAction::Drawer(DrawerAction::Expand)
    ));
    assert!(matches!(overlay(), NavigationAction::Drawer(DrawerAction::Hide)));
}

#[test]
fn starts_with_the_drawer_of_the_initial_page() {
    let (navigator, outcome) = DrawerNavigator::new(vec![sliding(HOME), fixed(SETTINGS)], sliding(HOME));
    assert_eq!(outcome.load, Some(HOME));
    assert!(outcome.follow_up.is_none());
    assert_eq!(navigator.current_page(), HOME);
    assert!(navigator.history().is_empty());
    assert!(!navigator.shows_drawer());
    assert!(!navigator.is_animating());
    assert_eq!(navigator.drawer().settings().mode, DrawerMode::Sliding);
    assert_eq!(navigator.drawer().options().len(), 2);
    assert_eq!(navigator.mode(), DrawerMode::Sliding);
    assert_eq!(navigator.header(HOME).view().left, Some(HeaderButton::Drawer));
}

#[test]
fn navigation_is_immediate_and_selects_the_page() {
    let (mut navigator, _) = DrawerNavigator::new(vec![fixed(HOME), fixed(SETTINGS)], fixed(HOME));
    let outcome = navigator.handle_actions(NavigationAction::Navigate(fixed(SETTINGS)));
    assert_eq!(outcome.load, Some(SETTINGS));
    assert!(outcome.follow_up.is_none());
    assert_eq!(navigator.current_page(), SETTINGS);
    assert_eq!(navigator.history(), &vec![HOME]);
    assert!(!navigator.is_animating());
    assert!(navigator.drawer().view()[1].selected);

    let outcome = navigator.handle_actions(NavigationAction::GoBack);
    assert!(outcome.follow_up.is_none() && outcome.load.is_none());
    assert_eq!(navigator.current_page(), HOME);
    assert!(navigator.history().is_empty());
    assert!(navigator.drawer().view()[0].selected);
    assert!(navigator.has_page(SETTINGS));

    navigator.handle_actions(NavigationAction::GoBack);
    assert_eq!(navigator.current_page(), HOME);
}

#[test]
fn navigation_to_a_sliding_page_asks_the_drawer_out() {
    let (mut navigator, _) = DrawerNavigator::new(vec![sliding(HOME)], sliding(HOME));
    let outcome = navigator.navigate(sliding(SETTINGS));
    assert!(matches!(
        outcome.follow_up,
        Some(NavigationAction::Drawer(DrawerAction::Hide))
    ));
    assert_eq!(outcome.load, Some(SETTINGS));
    let outcome = navigator.navigate(plain(ABOUT));
    assert!(outcome.follow_up.is_none());
}

#[test]
fn expand_slides_the_drawer_in() {
    let (mut navigator, _) = DrawerNavigator::new(vec![sliding(HOME)], sliding(HOME));
    let outcome = navigator.handle_actions(NavigationAction::Drawer(DrawerAction::Expand));
    assert!(navigator.is_animating());
    assert_eq!(navigator.anim_value(), -COMPLETE);
    let frame = tick_of(outcome);
    let mut half = frame;
    half.advance(100_000);
    let outcome = navigator.tick(half);
    assert_eq!(navigator.anim_value(), -50_000);
    assert!(navigator.is_animating());
    assert!(!navigator.shows_drawer());
    finish(&mut navigator, tick_of(outcome));
    assert_eq!(navigator.anim_value(), 0);
    assert!(navigator.shows_drawer());
    assert!(!navigator.is_animating());
}

#[test]
fn hide_slides_the_drawer_out() {
    let (mut navigator, _) = DrawerNavigator::new(vec![sliding(HOME)], sliding(HOME));
    let outcome = navigator.slide(DrawerAction::Expand);
    finish(&mut navigator, tick_of(outcome));
    assert!(navigator.shows_drawer());
    let outcome = navigator.slide(DrawerAction::Hide);
    assert_eq!(navigator.anim_value(), 0);
    assert!(navigator.shows_drawer());
    let mut quarter = tick_of(outcome);
    quarter.advance(50_000);
    navigator.tick(quarter);
    assert_eq!(navigator.anim_value(), -25_000);
    finish(&mut navigator, quarter);
    assert_eq!(navigator.anim_value(), -COMPLETE);
    assert!(!navigator.shows_drawer());
}

#[test]
fn hide_supersedes_an_unfinished_expand() {
    let (mut navigator, _) = DrawerNavigator::new(vec![sliding(HOME)], sliding(HOME));
    let expand = tick_of(navigator.slide(DrawerAction::Expand));
    let mut early = expand;
    early.advance(40_000);
    navigator.tick(early);
    let hide = tick_of(navigator.slide(DrawerAction::Hide));

    // The older chain still runs and ends first.
    finish(&mut navigator, early);
    assert!(navigator.shows_drawer());
    let mut late = hide;
    late.advance(120_000);
    let outcome = navigator.tick(late);
    assert!(outcome.follow_up.is_some());
    finish(&mut navigator, late);
    assert!(!navigator.shows_drawer());
    assert!(!navigator.is_animating());
}

#[test]
fn clear_history_during_a_slide_waits_for_its_end() {
    let (mut navigator, _) = DrawerNavigator::new(vec![sliding(HOME)], sliding(HOME));
    navigator.navigate(sliding(SETTINGS));
    let frame = tick_of(navigator.slide(DrawerAction::Expand));
    assert!(navigator.is_animating());

    navigator.clear_history();
    assert!(navigator.is_resetting());
    assert_eq!(navigator.history(), &vec![HOME]);
    assert_eq!(navigator.current_page(), SETTINGS);

    let mut running = frame;
    running.advance(100_000);
    let outcome = navigator.tick(running);
    assert!(outcome.follow_up.is_some());
    assert_eq!(navigator.history(), &vec![HOME]);
    assert!(navigator.is_resetting());

    finish(&mut navigator, running);
    assert!(navigator.history().is_empty());
    assert!(!navigator.is_resetting());
    assert_eq!(navigator.current_page(), SETTINGS);
    assert!(navigator.shows_drawer());
}

#[test]
fn clear_history_during_a_slide_is_kept_by_the_slide_that_supersedes_it() {
    let (mut navigator, _) = DrawerNavigator::new(vec![sliding(HOME)], sliding(HOME));
    navigator.navigate(sliding(SETTINGS));
    navigator.slide(DrawerAction::Expand);
    navigator.clear_history();
    let hide = tick_of(navigator.slide(DrawerAction::Hide));
    assert!(navigator.is_resetting());
    assert_eq!(navigator.history(), &vec![HOME]);
    finish(&mut navigator, hide);
    assert!(navigator.history().is_empty());
    assert!(!navigator.is_resetting());
    assert!(!navigator.shows_drawer());
}

#[test]
fn ticks_leave_the_history_unless_a_clear_is_pending() {
    let (mut navigator, _) = DrawerNavigator::new(vec![sliding(HOME)], sliding(HOME));
    navigator.navigate(sliding(SETTINGS));
    let frame = tick_of(navigator.slide(DrawerAction::Expand));
    finish(&mut navigator, frame);
    assert_eq!(navigator.history(), &vec![HOME]);
    assert!(!navigator.is_resetting());
}

#[test]
fn clear_and_pop_history_are_immediate() {
    let (mut navigator, _) = DrawerNavigator::new(vec![fixed(HOME)], fixed(HOME));
    navigator.navigate(fixed(SETTINGS));
    navigator.navigate(fixed(ABOUT));
    assert_eq!(navigator.pop_history(), Some(SETTINGS));
    assert_eq!(navigator.history(), &vec![HOME]);
    assert!(!navigator.is_animating());
    navigator.clear_history();
    assert!(navigator.history().is_empty());
    assert!(!navigator.is_resetting());
    assert_eq!(navigator.pop_history(), None);
    assert!(navigator.is_on_page(ABOUT));
    assert!(navigator.is_on_page_and(ABOUT, || true));
    assert!(!navigator.is_on_page_and(HOME, || true));
}

#[test]
fn fixed_drawer_stands_beside_the_pages() {
    let (mut navigator, _) = DrawerNavigator::new(vec![fixed(HOME)], fixed(HOME));
    navigator.navigate(fixed(SETTINGS));
    let scene = navigator.view();
    assert!(scene.beside);
    let container = &scene.container;
    assert_eq!(container.len(), 2);
    assert!(container.is_persistent());
    assert!(container.is_relative());
    assert_eq!(container.state(), vec![HOME.0, SETTINGS.0]);
    assert!(container.params_at(0).hidden && container.params_at(0).disabled);
    assert!(!container.params_at(1).hidden && !container.params_at(1).disabled);
    match container.children()[0] {
        DrawerLayer::Page(layer) => {
            assert_eq!(layer.page, HOME);
            assert_eq!(layer.header.unwrap().left, None);
        }
        _ => panic!("a page was expected"),
    }
    match container.children()[1] {
        DrawerLayer::Page(layer) => {
            assert_eq!(layer.page, SETTINGS);
            assert_eq!(layer.header.unwrap().left, Some(HeaderButton::Back));
        }
        _ => panic!("a page was expected"),
    }
}

#[test]
fn page_without_settings_keeps_its_left_button() {
    let (navigator, _) = DrawerNavigator::new(vec![plain(HOME)], plain(HOME));
    let scene = navigator.view();
    assert!(scene.beside);
    match scene.container.children()[0] {
        DrawerLayer::Page(layer) => {
            assert_eq!(layer.header.unwrap().left, Some(HeaderButton::Back));
        }
        _ => panic!("a page was expected"),
    }
}

#[test]
fn sliding_drawer_in_flight_adds_scrim_and_drawer() {
    let (mut navigator, _) = DrawerNavigator::new(vec![sliding(HOME)], sliding(HOME));
    let mut frame = tick_of(navigator.slide(DrawerAction::Expand));
    frame.advance(50_000);
    navigator.tick(frame);
    let scene = navigator.view();
    assert!(!scene.beside);
    let container = &scene.container;
    assert_eq!(container.len(), 3);
    assert_eq!(container.visible_count(), 3);
    assert_eq!(container.system_count(), 2);
    assert_eq!(container.no_background_count(), 2);
    assert_eq!(container.state(), vec![HOME.0]);
    assert_eq!(container.children()[1], DrawerLayer::Overlay);
    assert_eq!(container.children()[2], DrawerLayer::Drawer);
    assert!(container.params_at(1).disabled);
    assert_eq!(container.params_at(2).offset, Some(-75_000));
    assert!(!container.params_at(2).disabled);
    let plan = container.draw_plan();
    assert_eq!(plan.len(), 3);
    assert!(plan[0].with_background);
    assert!(!plan[1].with_background && !plan[2].with_background);
    assert_eq!(container.input_order(), vec![2, 0]);
}

#[test]
fn sliding_drawer_that_is_in_blocks_the_page() {
    let (mut navigator, _) = DrawerNavigator::new(vec![sliding(HOME)], sliding(HOME));
    let frame = tick_of(navigator.slide(DrawerAction::Expand));
    finish(&mut navigator, frame);
    let scene = navigator.view();
    assert!(!scene.beside);
    let container = &scene.container;
    assert_eq!(container.len(), 2);
    assert_eq!(container.system_count(), 1);
    assert_eq!(container.no_background_count(), 1);
    assert_eq!(container.visible_count(), 2);
    assert_eq!(container.children()[1], DrawerLayer::DrawerAndOverlay);
    assert!(container.params_at(0).disabled);
    assert!(!container.params_at(0).hidden);
    assert_eq!(container.input_order(), vec![1]);
}

#[test]
fn sliding_drawer_that_is_out_adds_nothing() {
    let (navigator, _) = DrawerNavigator::new(vec![sliding(HOME)], sliding(HOME));
    let scene = navigator.view();
    assert!(!scene.beside);
    assert_eq!(scene.container.len(), 1);
    assert_eq!(scene.container.system_count(), 0);
}

#[test]
fn curves_of_the_slides() {
    let mut approach = Frame::new().duration(SLIDE_DURATION).map(Curve::Approach);
    assert_eq!(approach.get_value(), -COMPLETE);
    approach.advance(150_000);
    assert_eq!(approach.get_value(), -25_000);
    let mut retreat = Frame::new().duration(SLIDE_DURATION).map(Curve::Retreat);
    assert_eq!(retreat.get_value(), 0);
    retreat.advance(150_000);
    assert_eq!(retreat.get_value(), -75_000);
    assert_eq!(Curve::Reverse.apply(30_000), 70_000);
    assert_eq!(Curve::Approach.apply(COMPLETE), 0);
    assert_eq!(Curve::Retreat.apply(COMPLETE), -(COMPLETE as i64));
    assert_eq!(Curve::Reverse.apply(150_000), 50_000);
    assert_eq!(Curve::Reverse.apply(i32::MIN), 2_147_583_648);
    assert_eq!(Curve::Retreat.apply(i32::MIN), 2_147_483_648);
}
