//! Navigation runtime for layered, animated page stacks.
//!
//! The crate holds the navigation state machines (stack, drawer, tabs), the
//! animation clock that drives their transitions, and the layered page
//! container that decides what is painted and what receives input. Pages are
//! known by their keys; what a page looks like is left to the caller.
use crate::animation::Frame;
use crate::drawer_navigator::DrawerAction;
use crate::page::PageKey;
use vstd::prelude::*;

pub mod animation;
pub mod color;
pub mod components;
pub mod drawer_navigator;
pub mod length;
pub mod page;
pub mod stack_navigator;
pub mod tabs_navigator;
pub mod travel;

verus! {

/// An action delivered to a navigator.
#[derive(Debug)]
pub enum NavigationAction<PageMapper> {
    /// Go to a page, remembering the page that is left.
    Navigate(PageMapper),
    /// Advance the animation that the frame belongs to.
    Tick(Frame),
    /// Return to the page that was left last.
    GoBack,
    /// Slide the drawer in or out.
    Drawer(DrawerAction),
}

impl<PageMapper: Clone> Clone for NavigationAction<PageMapper> {
    fn clone(&self) -> (copy: Self)
        ensures
            match *self {
                NavigationAction::Navigate(_) => copy is Navigate,
                NavigationAction::Tick(frame) => copy == NavigationAction::<PageMapper>::Tick(frame),
                NavigationAction::GoBack => copy is GoBack,
                NavigationAction::Drawer(action) => copy == NavigationAction::<PageMapper>::Drawer(
                    action,
                ),
            },
    {
        match self {
            NavigationAction::Navigate(page) => NavigationAction::Navigate(page.clone()),
            NavigationAction::Tick(frame) => NavigationAction::Tick(*frame),
            NavigationAction::GoBack => NavigationAction::GoBack,
            NavigationAction::Drawer(action) => NavigationAction::Drawer(*action),
        }
    }
}

/// What a navigator asks of its caller after an action: an action to deliver
/// on the next pass, and a page to bring to life.
pub struct Outcome<PageMapper> {
    /// The action to deliver next, if any.
    pub follow_up: Option<NavigationAction<PageMapper>>,
    /// The page that was opened for the first time, if any.
    pub load: Option<PageKey>,
}

/// A message type that can carry navigation actions.
pub trait NavigationConvertible: Sized {
    type PageMapper;

    /// Wraps an action into a message.
    fn from_action(action: NavigationAction<Self::PageMapper>) -> Self;
}

/// What every navigator offers besides handling actions. Each navigator
/// says in its own contracts what these do to its state.
pub trait Navigator<PageMapper> {
    /// Whether `page` is the page that is shown.
    fn is_on_page(&self, page: PageMapper) -> bool;

    /// Whether `page` is shown and `f` agrees.
    fn is_on_page_and<F: Fn() -> bool>(&self, page: PageMapper, f: F) -> (both: bool)
        requires
            f.requires(()),
        ensures
            both ==> f.ensures((), true),
    ;

    /// Forgets the pages that were left, now or when the transition in
    /// flight ends.
    fn clear_history(&mut self);

    /// Takes the page that was left last out of the history, if the
    /// navigator gives it up.
    fn pop_history(&mut self) -> Option<PageMapper>;
}

} // verus!
