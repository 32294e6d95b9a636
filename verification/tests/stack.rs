use iced_navigation::animation::{Curve, Frame, COMPLETE, DEFAULT_DURATION};
use iced_navigation::components::header::{HeaderButton, HeaderSettings, HeaderTitle};
use iced_navigation::page::PageKey;
use iced_navigation::stack_navigator::{StackNavigator, StackPage};
use iced_navigation::{NavigationAction, Navigator, Outcome};

const HOME: PageKey = PageKey(1);

fn details(id: u64) -> PageKey {
    PageKey(1000 + id)
}

fn page(key: PageKey, title: &str) -> StackPage {
    StackPage {
        key,
        title: title.to_string(),
        settings: None,
        back_button: None,
        right_button: None,
        title_widget: None,
    }
}

/// Delivers the follow-up of `outcome` with frames advanced to the given
/// times, and returns the values that the animation took.
fn drive(navigator: &mut StackNavigator, outcome: Outcome<StackPage>, times: &[u128]) -> Vec<i32> {
    let mut values = Vec::new();
    let mut next = outcome.follow_up;
    for elapsed in times {
        let frame = match next {
            Some(NavigationAction::Tick(frame)) => frame,
            _ => panic!("a tick was expected"),
        };
        let mut frame = frame;
        frame.advance(*elapsed);
        next = navigator.tick(frame).follow_up;
        values.push(navigator.anim_value());
    }
    assert!(next.is_none());
    values
}

#[test]
fn starts_on_the_initial_page() {
    let (navigator, outcome) = StackNavigator::new(page(HOME, "Home"));
    assert_eq!(navigator.current_page(), HOME);
    assert!(navigator.history().is_empty());
    assert_eq!(outcome.load, Some(HOME));
    assert!(outcome.follow_up.is_none());
    assert!(!navigator.is_animating());
    assert!(navigator.has_page(HOME));
    assert_eq!(navigator.anim_value(), 0);
}

#[test]
fn navigate_then_go_back_scenario() {
    let (mut navigator, _) = StackNavigator::new(page(HOME, "Home"));
    let outcome = navigator.handle_actions(NavigationAction::Navigate(page(details(1), "Details")));
    assert_eq!(navigator.history(), &vec![HOME]);
    assert_eq!(navigator.current_page(), details(1));
    assert_eq!(outcome.load, Some(details(1)));
    assert!(navigator.is_animating());
    assert_eq!(navigator.anim_value(), 0);

    let values = drive(&mut navigator, outcome, &[75_000, 150_000, 300_000]);
    assert_eq!(values, vec![25_000, 50_000, COMPLETE]);
    assert!(!navigator.is_animating());
    assert_eq!(navigator.history(), &vec![HOME]);

    let outcome = navigator.handle_actions(NavigationAction::GoBack);
    assert!(navigator.is_going_back());
    assert_eq!(navigator.anim_value(), COMPLETE);
    assert_eq!(navigator.current_page(), details(1));
    let values = drive(&mut navigator, outcome, &[150_000, 400_000]);
    assert_eq!(values, vec![50_000, 0]);
    assert!(navigator.history().is_empty());
    assert_eq!(navigator.current_page(), HOME);
    assert!(!navigator.is_going_back());
    assert!(!navigator.is_animating());
}

#[test]
fn go_back_on_empty_history_keeps_the_page() {
    let (mut navigator, _) = StackNavigator::new(page(HOME, "Home"));
    let outcome = navigator.handle_actions(NavigationAction::GoBack);
    assert!(outcome.load.is_none());
    assert!(navigator.is_animating());
    assert_eq!(navigator.current_page(), HOME);
    let values = drive(&mut navigator, outcome, &[DEFAULT_DURATION as u128]);
    assert_eq!(values, vec![0]);
    assert_eq!(navigator.current_page(), HOME);
    assert!(navigator.history().is_empty());
    assert!(!navigator.is_animating());
    assert!(!navigator.is_going_back());
}

#[test]
fn history_counts_navigations_less_completed_ways_back() {
    let (mut navigator, _) = StackNavigator::new(page(HOME, "Home"));
    for id in 0..4 {
        let outcome = navigator.navigate(page(details(id), "Details"));
        drive(&mut navigator, outcome, &[300_000]);
    }
    assert_eq!(navigator.history().len(), 4);
    for left in [3usize, 2, 1, 0, 0, 0] {
        let outcome = navigator.go_back();
        drive(&mut navigator, outcome, &[300_000]);
        assert_eq!(navigator.history().len(), left);
    }
    assert_eq!(navigator.current_page(), HOME);
}

#[test]
fn way_back_on_empty_history_is_not_owed_later() {
    let (mut navigator, _) = StackNavigator::new(page(HOME, "Home"));
    let outcome = navigator.go_back();
    drive(&mut navigator, outcome, &[300_000]);
    let outcome = navigator.navigate(page(details(1), "Details"));
    drive(&mut navigator, outcome, &[300_000]);
    assert_eq!(navigator.history(), &vec![HOME]);
}

#[test]
fn round_trip_keeps_the_visited_page_opened() {
    let (mut navigator, _) = StackNavigator::new(page(HOME, "Home"));
    let outcome = navigator.navigate(page(details(7), "Details"));
    drive(&mut navigator, outcome, &[300_000]);
    let outcome = navigator.go_back();
    drive(&mut navigator, outcome, &[300_000]);
    assert_eq!(navigator.current_page(), HOME);
    assert!(navigator.history().is_empty());
    assert!(navigator.has_page(details(7)));

    let outcome = navigator.navigate(page(details(7), "Details"));
    assert!(outcome.load.is_none());
}

#[test]
fn clear_history_waits_for_the_transition_to_end() {
    let (mut navigator, _) = StackNavigator::new(page(HOME, "Home"));
    let outcome = navigator.navigate(page(details(1), "Details"));
    navigator.clear_history();
    assert!(navigator.is_resetting());
    assert_eq!(navigator.history(), &vec![HOME]);

    let frame = match outcome.follow_up {
        Some(NavigationAction::Tick(frame)) => frame,
        _ => panic!("a tick was expected"),
    };
    let mut running = frame;
    running.advance(100_000);
    let outcome = navigator.tick(running);
    assert_eq!(navigator.history(), &vec![HOME]);
    assert!(navigator.is_resetting());
    assert!(outcome.follow_up.is_some());

    let mut done = frame;
    done.advance(300_000);
    let outcome = navigator.tick(done);
    assert!(outcome.follow_up.is_none());
    assert!(navigator.history().is_empty());
    assert!(!navigator.is_resetting());
    assert_eq!(navigator.current_page(), details(1));
}

#[test]
fn clear_history_without_transition_changes_nothing_yet() {
    let (mut navigator, _) = StackNavigator::new(page(HOME, "Home"));
    let outcome = navigator.navigate(page(details(1), "Details"));
    drive(&mut navigator, outcome, &[300_000]);
    navigator.clear_history();
    assert_eq!(navigator.history(), &vec![HOME]);
    assert_eq!(navigator.current_page(), details(1));
}

#[test]
fn tick_through_the_clock_ends_a_frame_without_duration() {
    let (mut navigator, _) = StackNavigator::new(page(HOME, "Home"));
    navigator.navigate(page(details(1), "Details"));
    let frame = Frame::new().duration(0);
    let outcome = navigator.handle_actions(NavigationAction::Tick(frame));
    assert!(outcome.follow_up.is_none());
    assert!(!navigator.is_animating());
    assert_eq!(navigator.anim_value(), COMPLETE);
}

#[test]
fn tick_through_the_clock_hands_an_unfinished_frame_back() {
    let (mut navigator, _) = StackNavigator::new(page(HOME, "Home"));
    navigator.navigate(page(details(1), "Details"));
    let frame = Frame::new().duration(u64::MAX);
    let outcome = navigator.handle_actions(NavigationAction::Tick(frame));
    assert!(matches!(outcome.follow_up, Some(NavigationAction::Tick(_))));
    assert!(navigator.is_animating());
}

#[test]
fn new_navigation_supersedes_the_transition_in_flight() {
    let (mut navigator, _) = StackNavigator::new(page(HOME, "Home"));
    let first = navigator.navigate(page(details(1), "One"));
    let frame = match first.follow_up {
        Some(NavigationAction::Tick(frame)) => frame,
        _ => panic!("a tick was expected"),
    };
    let mut half = frame;
    half.advance(150_000);
    navigator.tick(half);
    assert_eq!(navigator.anim_value(), 50_000);
    navigator.navigate(page(details(2), "Two"));
    assert_eq!(navigator.anim_value(), 0);
    assert!(navigator.is_animating());
    assert_eq!(navigator.history(), &vec![HOME, details(1)]);
}

#[test]
fn drawer_actions_mean_nothing_to_a_stack() {
    let (mut navigator, _) = StackNavigator::new(page(HOME, "Home"));
    let outcome = navigator.handle_actions(NavigationAction::Drawer(
        iced_navigation::drawer_navigator::DrawerAction::Expand,
    ));
    assert!(outcome.follow_up.is_none());
    assert!(outcome.load.is_none());
    assert!(!navigator.is_animating());
}

#[test]
fn navigator_trait_on_stack() {
    let (mut navigator, _) = StackNavigator::new(page(HOME, "Home"));
    assert!(navigator.is_on_page(HOME));
    assert!(!navigator.is_on_page(details(1)));
    assert!(navigator.is_on_page_and(HOME, || true));
    assert!(!navigator.is_on_page_and(HOME, || false));
    assert!(!navigator.is_on_page_and(details(1), || true));
    let outcome = navigator.navigate(page(details(1), "Details"));
    drive(&mut navigator, outcome, &[300_000]);
    assert_eq!(navigator.pop_history(), Some(HOME));
    assert_eq!(navigator.pop_history(), None);
    assert_eq!(navigator.current_page(), details(1));
}

#[test]
fn header_follows_the_page() {
    let settings = HeaderSettings { show_header: false, ..HeaderSettings::default() };
    let custom = StackPage {
        key: details(3),
        title: "Custom".to_string(),
        settings: Some(settings),
        back_button: Some(HeaderButton::Custom),
        right_button: Some(HeaderButton::Custom),
        title_widget: Some(HeaderTitle::Custom),
    };
    let (mut navigator, _) = StackNavigator::new(page(HOME, "Home"));
    navigator.navigate(custom);
    let header = navigator.header(details(3));
    assert_eq!(header.title(), "Custom");
    assert!(!header.is_shown());
    let layout = header.view();
    assert_eq!(layout.left, Some(HeaderButton::Custom));
    assert_eq!(layout.right, Some(HeaderButton::Custom));
    assert_eq!(layout.title_widget, HeaderTitle::Custom);

    let plain = navigator.header(HOME);
    assert_eq!(plain.title(), "Home");
    assert!(plain.is_shown());
    assert_eq!(plain.view().left, Some(HeaderButton::Back));
    assert_eq!(plain.view().right, None);
    assert_eq!(plain.view().title_widget, HeaderTitle::Plain);
}

#[test]
fn scene_at_rest_paints_the_current_page_only() {
    let (mut navigator, _) = StackNavigator::new(page(HOME, "Home"));
    let outcome = navigator.navigate(page(details(1), "Details"));
    drive(&mut navigator, outcome, &[300_000]);
    let scene = navigator.view();
    assert_eq!(scene.len(), 2);
    assert_eq!(scene.id_at(0), HOME.0);
    assert_eq!(scene.id_at(1), details(1).0);
    let below = scene.params_at(0);
    assert!(below.hidden && below.disabled);
    assert_eq!(below.offset, None);
    let top = scene.params_at(1);
    assert!(!top.hidden && !top.disabled);
    assert_eq!(top.offset, None);
    let plan = scene.draw_plan();
    assert_eq!(plan.len(), 1);
    assert_eq!(plan[0].index, 1);
    assert_eq!(scene.input_order(), vec![1]);

    let layers = scene.children();
    assert_eq!(layers[0].page, HOME);
    assert_eq!(layers[0].header.unwrap().left, None);
    assert_eq!(layers[1].page, details(1));
    assert_eq!(layers[1].header.unwrap().left, Some(HeaderButton::Back));
}

#[test]
fn scene_in_transition_slides_both_pages() {
    let (mut navigator, _) = StackNavigator::new(page(HOME, "Home"));
    let outcome = navigator.navigate(page(details(1), "Details"));
    let frame = match outcome.follow_up {
        Some(NavigationAction::Tick(frame)) => frame,
        _ => panic!("a tick was expected"),
    };
    let mut quarter = frame;
    quarter.advance(75_000);
    navigator.tick(quarter);
    let scene = navigator.view();
    let below = scene.params_at(0);
    assert!(!below.hidden && below.disabled);
    assert_eq!(below.offset, Some(-10_000));
    let top = scene.params_at(1);
    assert!(!top.hidden && top.disabled);
    assert_eq!(top.offset, Some(75_000));
    assert_eq!(scene.draw_plan().len(), 2);
    assert!(scene.input_order().is_empty());
}

#[test]
fn reverse_curve_runs_the_way_back() {
    let mut frame = Frame::new().map(Curve::Reverse);
    frame.advance(0);
    assert_eq!(frame.get_value(), COMPLETE);
    frame.advance(300_000);
    assert_eq!(frame.get_value(), 0);
}

#[test]
fn wrapped_scene_carries_the_parameters_of_each_page() {
    let (mut navigator, _) = StackNavigator::new(page(HOME, "Home"));
    let outcome = navigator.navigate(page(details(1), "Details"));
    let frame = match outcome.follow_up {
        Some(NavigationAction::Tick(frame)) => frame,
        _ => panic!("a tick was expected"),
    };
    let mut quarter = frame;
    quarter.advance(75_000);
    navigator.tick(quarter);

    let pages = navigator.view_wrapped();
    assert_eq!(pages.len(), 2);
    assert_eq!(pages[0].child().page, HOME);
    assert!(pages[0].is_painted() && !pages[0].is_active());
    assert_eq!(pages[0].offset(), -10_000);
    assert_eq!(pages[1].child().page, details(1));
    assert!(pages[1].is_painted() && !pages[1].is_active());
    assert_eq!(pages[1].offset(), 75_000);

    let mut done = frame;
    done.advance(300_000);
    navigator.tick(done);
    let mut pages = navigator.view_wrapped();
    assert!(!pages[0].is_painted() && !pages[0].is_active());
    assert_eq!(pages[0].offset(), 0);
    assert!(pages[1].is_painted() && pages[1].is_active());
    assert_eq!(pages[1].offset(), 0);
    let top = pages.pop().unwrap().with_content(5u8);
    assert_eq!(*top.child(), 5);
    assert!(top.is_painted() && top.is_active());
}
