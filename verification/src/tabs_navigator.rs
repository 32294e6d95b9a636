//! The tabs navigator: pages are chosen from a tab bar above or below them,
//! and change without animation.
use crate::components::header::Header;
use crate::components::pages_container::{ContainerView, LayerParams, PagesContainer};
use crate::components::tabs::{Tabs, TabsSettings, TabsView};
use crate::length::{Length, Size};
use crate::page::{PageEntry, PageKey, PageLayer, PageRegistry};
use crate::travel::{backs, clamped_length, history_length, Travel};
use crate::{NavigationAction, Navigator, Outcome};
use vstd::prelude::*;

verus! {

/// Where the tab bar stands.
#[derive(Debug, Clone, Copy, PartialEq, Eq, Structural)]
pub enum Position {
    Top,
    Bottom,
}

/// A page as the tabs navigator is told of it: its key, and what its page
/// says of the tab bar.
#[derive(Debug, Clone, Copy, PartialEq, Eq, Structural)]
pub struct TabsPage {
    pub key: PageKey,
    pub settings: Option<TabsSettings>,
}

/// The settings that a tab bar takes from a page.
pub open spec fn settings_of(page: TabsPage) -> TabsSettings {
    match page.settings {
        Some(settings) => settings,
        None => TabsSettings::default_spec(),
    }
}

/// The state of a tabs navigator.
pub struct TabsState {
    /// Where the tab bar stands.
    pub position: Position,
    /// The page that is shown.
    pub current_page: PageKey,
    /// The pages that have been opened.
    pub pages: Set<PageKey>,
    /// The pages that were left, the oldest first.
    pub history: Seq<PageKey>,
    /// The tab bar.
    pub tabs: TabsView,
}

impl TabsState {
    /// Every page that is shown or remembered has been opened.
    pub open spec fn wf(self) -> bool {
        &&& self.pages.contains(self.current_page)
        &&& forall|i: int|
            0 <= i < self.history.len() ==> self.pages.contains(#[trigger] self.history[i])
    }

    /// The state of a navigator with a tab for each of `pages` that starts
    /// on `page`. The bar stands at the bottom and takes the settings of
    /// that page.
    pub open spec fn initial(pages: Seq<TabsPage>, page: TabsPage) -> TabsState {
        TabsState {
            position: Position::Bottom,
            current_page: page.key,
            pages: Set::empty().insert(page.key),
            history: Seq::empty(),
            tabs: TabsView {
                pages: Seq::new(pages.len(), |i: int| pages[i].key),
                current_page: page.key,
                settings: settings_of(page),
            },
        }
    }

    /// The state after navigating to `page`: the change is immediate, the
    /// page that is left goes onto the history, and the bar marks the new
    /// page and takes its settings.
    pub open spec fn navigate(self, page: TabsPage) -> TabsState {
        TabsState {
            current_page: page.key,
            pages: self.pages.insert(page.key),
            history: self.history.push(self.current_page),
            tabs: TabsView { current_page: page.key, settings: settings_of(page), ..self.tabs },
            ..self
        }
    }

    /// The state after going back: the page left last is shown again, if
    /// there is one. The bar stays as it is.
    pub open spec fn go_back(self) -> TabsState {
        if self.history.len() > 0 {
            TabsState {
                current_page: self.history.last(),
                history: self.history.drop_last(),
                ..self
            }
        } else {
            self
        }
    }

    /// The state after the history has been forgotten.
    pub open spec fn clear_history(self) -> TabsState {
        TabsState { history: Seq::empty(), ..self }
    }

    /// The page in layer `index`: the pages that were left lie below the
    /// page that is shown, the oldest lowest.
    pub open spec fn page_at(self, index: int) -> PageKey {
        if index < self.history.len() {
            self.history[index]
        } else {
            self.current_page
        }
    }

    /// The parameters of layer `index`: only the page that is shown is
    /// painted and takes input.
    pub open spec fn params_at(self, index: int) -> LayerParams {
        LayerParams {
            offset: None,
            hidden: index < self.history.len(),
            disabled: index < self.history.len(),
        }
    }

    /// The lowest `count` layers of the scene, before retained state is
    /// made to follow identities.
    pub open spec fn scene_prefix(self, count: int) -> ContainerView {
        ContainerView {
            width: Length::Fill,
            height: Length::Fill,
            ids: Seq::new(count as nat, |i: int| self.page_at(i).0),
            params: Seq::new(count as nat, |i: int| self.params_at(i)),
            system_layers: 0,
            visible_layers: 2,
            no_background_layers: 0,
            persistent: false,
            relative: false,
        }
    }

    /// What the lowest `count` layers render: pages without headers.
    pub open spec fn layers_prefix(self, count: int) -> Seq<PageLayer> {
        Seq::new(count as nat, |i: int| PageLayer { page: self.page_at(i), header: None })
    }

    /// The scene: one layer for each page that was left, and on top of them
    /// the page that is shown. Retained state follows identities.
    pub open spec fn scene(self) -> ContainerView {
        ContainerView { persistent: true, ..self.scene_prefix(self.history.len() as int + 1) }
    }

    /// What the layers of the scene render.
    pub open spec fn layers(self) -> Seq<PageLayer> {
        self.layers_prefix(self.history.len() as int + 1)
    }
}

/// What a tabs navigator renders.
pub struct TabsScene {
    /// The layers.
    pub container: PagesContainer<PageLayer>,
    /// Where the tab bar stands relative to the layers.
    pub position: Position,
}

/// A navigator whose pages are chosen from a tab bar.
pub struct TabsNavigator {
    position: Position,
    current_page: PageKey,
    pages: PageRegistry<Header>,
    history: Vec<PageKey>,
    tabs: Tabs,
}

impl TabsNavigator {
    /// The state of this navigator.
    pub closed spec fn model(&self) -> TabsState {
        TabsState {
            position: self.position,
            current_page: self.current_page,
            pages: self.pages@.dom(),
            history: self.history@,
            tabs: self.tabs.model(),
        }
    }

    /// Holds of every navigator: its state is well formed, and each page
    /// that has been opened has the identity of its key.
    pub closed spec fn wf(&self) -> bool {
        &&& self.model().wf()
        &&& forall|key: PageKey| #[trigger]
            self.pages@.contains_key(key) ==> self.pages@[key].id == key.0
    }

    /// The keys of `pages`, in order.
    fn keys(pages: &Vec<TabsPage>) -> (keys: Vec<PageKey>)
        ensures
            keys@ == Seq::new(pages@.len(), |i: int| pages@[i].key),
    {
        let mut keys: Vec<PageKey> = Vec::new();
        let mut index: usize = 0;
        while index < pages.len()
            invariant
                index <= pages.len(),
                keys@ == Seq::new(index as nat, |i: int| pages@[i].key),
            decreases pages.len() - index,
        {
            let page: TabsPage = pages[index];
            keys.push(page.key);
            index = index + 1;
            proof {
                assert(keys@ =~= Seq::new(index as nat, |i: int| pages@[i].key));
            }
        }
        keys
    }

    /// A navigator with a tab for each of `pages` that shows `initial_page`,
    /// which is to be brought to life.
    pub fn new(pages: Vec<TabsPage>, initial_page: TabsPage) -> (started: (
        Self,
        Outcome<TabsPage>,
    ))
        ensures
            started.0.wf(),
            started.0.model() == TabsState::initial(pages@, initial_page),
            started.1.follow_up is None,
            started.1.load == Some(initial_page.key),
    {
        let key = initial_page.key;
        let mut tabs = Tabs::new(Self::keys(&pages), key);
        let mut registry: PageRegistry<Header> = PageRegistry::new();
        registry.get_or_create(key, PageEntry { id: key.0, chrome: None });
        tabs.set_settings(initial_page.settings);
        let navigator = TabsNavigator {
            tabs,
            position: Position::Bottom,
            current_page: key,
            pages: registry,
            history: Vec::new(),
        };
        proof {
            assert(navigator.model().pages =~= TabsState::initial(pages@, initial_page).pages);
            assert(navigator.model().history =~= Seq::<PageKey>::empty());
        }
        (navigator, Outcome { follow_up: None, load: Some(key) })
    }

    /// Moves the tab bar.
    pub fn set_tabs_position(&mut self, position: Position)
        ensures
            final(self).model() == (TabsState { position, ..old(self).model() }),
            old(self).wf() ==> final(self).wf(),
    {
        self.position = position;
        proof {
            if old(self).wf() {
                assert forall|i: int| 0 <= i < self.model().history.len() implies self.model().pages.contains(
                     #[trigger] self.model().history[i]) by {
                    assert(old(self).model().pages.contains(old(self).model().history[i]));
                }
            }
        }
    }

    /// Goes to `page`, opening it where it has not been opened before. The
    /// change is immediate.
    pub fn navigate(&mut self, page: TabsPage) -> (outcome: Outcome<TabsPage>)
        requires
            old(self).wf(),
        ensures
            final(self).wf(),
            final(self).model() == old(self).model().navigate(page),
            outcome.load == if old(self).model().pages.contains(page.key) {
                None
            } else {
                Some(page.key)
            },
            outcome.follow_up is None,
    {
        let key = page.key;
        let mut load: Option<PageKey> = None;
        if !self.pages.contains(key) {
            self.pages.get_or_create(key, PageEntry { id: key.0, chrome: None });
            load = Some(key);
        }
        self.tabs.update_current_page(key);
        let old_page = self.current_page;
        self.current_page = key;
        self.tabs.set_settings(page.settings);
        self.history.push(old_page);
        proof {
            assert(self.model().pages =~= old(self).model().navigate(page).pages);
            assert(self.model().history =~= old(self).model().navigate(page).history);
            assert forall|i: int| 0 <= i < self.model().history.len() implies self.model().pages.contains(
                 #[trigger] self.model().history[i]) by {
                if i < old(self).model().history.len() {
                    assert(old(self).model().pages.contains(old(self).model().history[i]));
                }
            }
        }
        Outcome { follow_up: None, load }
    }

    /// Goes back to the page left last, if there is one.
    pub fn go_back(&mut self) -> (outcome: Outcome<TabsPage>)
        requires
            old(self).wf(),
        ensures
            final(self).wf(),
            final(self).model() == old(self).model().go_back(),
            outcome.load is None,
            outcome.follow_up is None,
    {
        proof {
            if old(self).model().history.len() > 0 {
                assert(old(self).model().pages.contains(
                    old(self).model().history[old(self).model().history.len() - 1],
                ));
            }
        }
        if let Some(page) = self.history.pop() {
            self.current_page = page;
        }
        proof {
            assert(self.model().history =~= old(self).model().go_back().history);
            assert forall|i: int| 0 <= i < self.model().history.len() implies self.model().pages.contains(
                 #[trigger] self.model().history[i]) by {
                assert(old(self).model().pages.contains(old(self).model().history[i]));
            }
        }
        Outcome { follow_up: None, load: None }
    }

    /// Handles one action. Tabs change without animation, so ticks and the
    /// drawer's actions mean nothing to them.
    pub fn handle_actions(&mut self, message: NavigationAction<TabsPage>) -> (outcome: Outcome<
        TabsPage,
    >)
        requires
            old(self).wf(),
        ensures
            final(self).wf(),
            outcome.follow_up is None,
            final(self).model() == match message {
                NavigationAction::Navigate(page) => old(self).model().navigate(page),
                NavigationAction::GoBack => old(self).model().go_back(),
                NavigationAction::Tick(_) => old(self).model(),
                NavigationAction::Drawer(_) => old(self).model(),
            },
            outcome.load == match message {
                NavigationAction::Navigate(page) => if old(self).model().pages.contains(page.key) {
                    None
                } else {
                    Some(page.key)
                },
                _ => None,
            },
    {
        match message {
            NavigationAction::Navigate(page) => self.navigate(page),
            NavigationAction::GoBack => self.go_back(),
            NavigationAction::Tick(_) => Outcome { follow_up: None, load: None },
            NavigationAction::Drawer(_) => Outcome { follow_up: None, load: None },
        }
    }

    /// The page that is shown.
    pub fn current_page(&self) -> (page: PageKey)
        ensures
            page == self.model().current_page,
    {
        self.current_page
    }

    /// The pages that were left, the oldest first.
    pub fn history(&self) -> (history: &Vec<PageKey>)
        ensures
            history@ == self.model().history,
    {
        &self.history
    }

    /// Whether `page` has been opened.
    pub fn has_page(&self, page: PageKey) -> (opened: bool)
        ensures
            opened == self.model().pages.contains(page),
    {
        self.pages.contains(page)
    }

    /// Where the tab bar stands.
    pub fn position(&self) -> (position: Position)
        ensures
            position == self.model().position,
    {
        self.position
    }

    /// The tab bar.
    pub fn tabs(&self) -> (tabs: &Tabs)
        ensures
            tabs.model() == self.model().tabs,
    {
        &self.tabs
    }

    /// The scene to render: the layers with their parameters, and where the
    /// tab bar stands.
    pub fn view(&self) -> (scene: TabsScene)
        ensures
            scene.container@ == self.model().scene(),
            scene.container.contents() == self.model().layers(),
            scene.position == self.model().position,
    {
        let fill = Size { width: Length::Fill, height: Length::Fill };
        let mut container: PagesContainer<PageLayer> = PagesContainer::new();
        let count: usize = self.history.len();
        let mut index: usize = 0;
        proof {
            assert(container@.ids =~= self.model().scene_prefix(0).ids);
            assert(container@.params =~= self.model().scene_prefix(0).params);
            assert(container.contents() =~= self.model().layers_prefix(0));
        }
        while index < count
            invariant
                index <= count,
                count == self.model().history.len(),
                fill == (Size { width: Length::Fill, height: Length::Fill }),
                container@ == self.model().scene_prefix(index as int),
                container.contents() == self.model().layers_prefix(index as int),
            decreases count - index,
        {
            let page = self.history[index];
            container = container.push(page.0, PageLayer { page, header: None }, fill).disable_last(
                true,
            ).hide_last(true);
            index = index + 1;
            proof {
                assert(container@.ids =~= self.model().scene_prefix(index as int).ids);
                assert(container@.params =~= self.model().scene_prefix(index as int).params);
                assert(container.contents() =~= self.model().layers_prefix(index as int));
            }
        }
        container = container.push(
            self.current_page.0,
            PageLayer { page: self.current_page, header: None },
            fill,
        ).disable_last(false).persist(true);
        proof {
            assert(container@.ids =~= self.model().scene().ids);
            assert(container@.params =~= self.model().scene().params);
            assert(container.contents() =~= self.model().layers());
        }
        TabsScene { container, position: self.position }
    }
}

impl Navigator<PageKey> for TabsNavigator {
    fn is_on_page(&self, page: PageKey) -> (on_page: bool)
        ensures
            on_page == (self.model().current_page == page),
    {
        self.current_page == page
    }

    fn is_on_page_and<F: Fn() -> bool>(&self, page: PageKey, f: F) -> (both: bool)
        ensures
            both ==> self.model().current_page == page,
            self.model().current_page == page ==> f.ensures((), both),
    {
        self.current_page == page && f()
    }

    /// Forgets the pages that were left, at once.
    fn clear_history(&mut self)
        ensures
            final(self).model() == old(self).model().clear_history(),
            old(self).wf() ==> final(self).wf(),
    {
        self.history.clear();
        proof {
            assert(self.model().history =~= Seq::<PageKey>::empty());
        }
    }

    /// Tabs give no page up: the history stays as it is.
    fn pop_history(&mut self) -> (page: Option<PageKey>)
        ensures
            final(self).model() == old(self).model(),
            page is None,
            old(self).wf() ==> final(self).wf(),
    {
        None
    }
}

impl TabsState {
    /// The state after one completed change of page.
    pub open spec fn travel(self, step: Travel<TabsPage>) -> TabsState {
        match step {
            Travel::Forward(page) => self.navigate(page),
            Travel::Back => self.go_back(),
        }
    }

    /// The state after the changes of page in `steps`, in order.
    pub open spec fn travel_all(self, steps: Seq<Travel<TabsPage>>) -> TabsState
        decreases steps.len(),
    {
        if steps.len() == 0 {
            self
        } else {
            self.travel_all(steps.drop_last()).travel(steps.last())
        }
    }

    /// How many of `steps`, taken from this state, are ways back that find
    /// nothing to return to.
    pub open spec fn idle_backs(self, steps: Seq<Travel<TabsPage>>) -> nat
        decreases steps.len(),
    {
        if steps.len() == 0 {
            0
        } else {
            let before = self.travel_all(steps.drop_last());
            let idle: nat = if steps.last() is Back && before.history.len() == 0 {
                1
            } else {
                0
            };
            self.idle_backs(steps.drop_last()) + idle
        }
    }
}

/// Navigating to a page and going back shows the page that was shown
/// before and leaves the history as it was; the page that was visited
/// stays opened.
pub proof fn lemma_round_trip(state: TabsState, page: TabsPage)
    ensures
        state.navigate(page).go_back().current_page == state.current_page,
        state.navigate(page).go_back().history == state.history,
        state.navigate(page).go_back().pages.contains(page.key),
        forall|key: PageKey|
            state.pages.contains(key) ==> state.navigate(page).go_back().pages.contains(key),
{
    assert(state.navigate(page).go_back().history =~= state.history);
}

/// After any run of navigations and ways back, the history holds one page
/// for each navigation, less one for each way back that had a page to
/// return to. So where no way back found the history empty, or where the
/// history ends empty, its length is the number of navigations less the
/// number of ways back, and never less than none.
pub proof fn lemma_history_length(state: TabsState, steps: Seq<Travel<TabsPage>>)
    ensures
        state.idle_backs(steps) <= backs(steps),
        state.travel_all(steps).history.len() == history_length(
            state.history.len(),
            steps,
            state.idle_backs(steps),
        ),
        state.history.len() == 0 && (state.idle_backs(steps) == 0 || state.travel_all(
            steps,
        ).history.len() == 0) ==> state.travel_all(steps).history.len() == clamped_length(steps),
    decreases steps.len(),
{
    if steps.len() > 0 {
        lemma_history_length(state, steps.drop_last());
    }
}

} // verus!
