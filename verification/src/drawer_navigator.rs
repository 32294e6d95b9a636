//! The drawer navigator: pages are chosen from a drawer that stands beside
//! them or slides over them.
use crate::animation::{Curve, Frame, FrameView, COMPLETE};
use crate::components::drawer::{
    Drawer, DrawerEntry, DrawerMode, DrawerSettings, DrawerView,
};
use crate::components::header::{
    Header, HeaderButton, HeaderSettings, HeaderTitle, HeaderView,
};
use crate::components::pages_container::{ContainerView, LayerParams, PagesContainer};
use crate::length::{Length, Size};
use crate::page::{PageEntry, PageKey, PageLayer, PageRegistry};
use crate::travel::{backs, clamped_length, history_length, Travel};
use crate::{NavigationAction, Navigator, Outcome};
use vstd::prelude::*;

verus! {

/// What the drawer is asked to do.
#[derive(Debug, Clone, Copy, PartialEq, Eq, Structural)]
pub enum DrawerAction {
    /// Slide out.
    Hide,
    /// Slide in.
    Expand,
}

/// Duration of the drawer's slide, in microseconds.
pub const SLIDE_DURATION: u64 = 200_000;

/// A page as the drawer navigator is told of it: its key, and what its page
/// says of its header and of the drawer.
pub struct DrawerPage {
    pub key: PageKey,
    pub title: String,
    pub header_settings: Option<HeaderSettings>,
    pub settings: Option<DrawerSettings>,
    pub back_button: Option<HeaderButton>,
    pub right_button: Option<HeaderButton>,
    pub title_widget: Option<HeaderTitle>,
    /// Whether the page brings its own entry for the drawer.
    pub drawer_option: bool,
}

/// The drawer mode that settings ask for, where there are settings.
pub open spec fn mode_of(settings: Option<DrawerSettings>) -> Option<DrawerMode> {
    match settings {
        Some(given) => Some(given.mode),
        None => None,
    }
}

impl DrawerPage {
    /// The header that this page gets when it is opened. Where the drawer
    /// slides, the button on the left slides it in, unless the page brings
    /// a button of its own.
    pub open spec fn header(self) -> HeaderView {
        HeaderView {
            title: self.title@,
            title_widget: match self.title_widget {
                Some(title) => title,
                None => HeaderTitle::Plain,
            },
            back_button: match self.back_button {
                Some(button) => button,
                None => if mode_of(self.settings) == Some(DrawerMode::Sliding) {
                    HeaderButton::Drawer
                } else {
                    HeaderButton::Back
                },
            },
            right_button: self.right_button,
            settings: match self.header_settings {
                Some(settings) => settings,
                None => HeaderSettings::default_spec(),
            },
            show_left_button: true,
        }
    }

    /// What is kept of this page once it is opened.
    pub open spec fn chrome(self) -> DrawerChromeView {
        DrawerChromeView { header: self.header(), settings: self.settings }
    }

    /// This page as the drawer lists it.
    pub open spec fn entry(self) -> DrawerEntry {
        DrawerEntry { page: self.key, custom: self.drawer_option }
    }
}

/// The chrome of a page of a drawer navigator.
pub struct DrawerChrome {
    pub header: Header,
    pub settings: Option<DrawerSettings>,
}

/// What contracts say of the chrome of a page.
pub struct DrawerChromeView {
    pub header: HeaderView,
    pub settings: Option<DrawerSettings>,
}

/// The state of a drawer navigator.
pub struct DrawerState {
    /// The page that is shown.
    pub current_page: PageKey,
    /// The chrome of every page that has been opened.
    pub pages: Map<PageKey, DrawerChromeView>,
    /// The pages that were left, the oldest first.
    pub history: Seq<PageKey>,
    /// The drawer.
    pub drawer: DrawerView,
    /// The value of the slide in flight.
    pub anim_value: int,
    /// Whether a slide is in flight.
    pub transition: bool,
    /// Whether the drawer has slid in.
    pub show_drawer: bool,
    /// Whether the history is to be forgotten when the slide ends.
    pub reset_mode: bool,
}

impl DrawerState {
    /// Every page that is shown or remembered has been opened, and the
    /// animation value is within its range.
    pub open spec fn wf(self) -> bool {
        &&& self.pages.contains_key(self.current_page)
        &&& forall|i: int|
            0 <= i < self.history.len() ==> self.pages.contains_key(#[trigger] self.history[i])
        &&& -COMPLETE <= self.anim_value <= COMPLETE
    }

    /// The state of a navigator whose drawer lists `pages` and that starts
    /// on `page`. The drawer takes the settings of that page.
    pub open spec fn initial(pages: Seq<DrawerPage>, page: DrawerPage) -> DrawerState {
        DrawerState {
            current_page: page.key,
            pages: Map::empty().insert(page.key, page.chrome()),
            history: Seq::empty(),
            drawer: DrawerView {
                options: Seq::new(pages.len(), |i: int| pages[i].entry()),
                selected_page: page.key,
                settings: match page.settings {
                    Some(settings) => settings,
                    None => DrawerSettings::default_spec(),
                },
            },
            anim_value: 0,
            transition: false,
            show_drawer: false,
            reset_mode: false,
        }
    }

    /// The pages after `page` has been navigated to: it is opened unless it
    /// has been before.
    pub open spec fn opened(self, page: DrawerPage) -> Map<PageKey, DrawerChromeView> {
        if self.pages.contains_key(page.key) {
            self.pages
        } else {
            self.pages.insert(page.key, page.chrome())
        }
    }

    /// The state after navigating to `page`: the change is immediate, the
    /// page that is left goes onto the history, and the drawer selects the
    /// new page.
    pub open spec fn navigate(self, page: DrawerPage) -> DrawerState {
        DrawerState {
            current_page: page.key,
            pages: self.opened(page),
            history: self.history.push(self.current_page),
            drawer: DrawerView { selected_page: page.key, ..self.drawer },
            ..self
        }
    }

    /// The state after going back: the page left last is shown and
    /// selected again, if there is one.
    pub open spec fn go_back(self) -> DrawerState {
        if self.history.len() > 0 {
            DrawerState {
                current_page: self.history.last(),
                history: self.history.drop_last(),
                drawer: DrawerView { selected_page: self.history.last(), ..self.drawer },
                ..self
            }
        } else {
            self
        }
    }

    /// The state after the drawer was asked to slide in.
    pub open spec fn expand(self) -> DrawerState {
        DrawerState { anim_value: -COMPLETE, transition: true, ..self }
    }

    /// The state after the drawer was asked to slide out.
    pub open spec fn slide_out(self) -> DrawerState {
        DrawerState { anim_value: 0, transition: true, ..self }
    }

    /// The state after a tick whose frame, once advanced, is `frame`. The
    /// tick that ends a slide leaves the drawer in exactly where the value
    /// has come to rest at zero, and forgets the history where that was
    /// asked for during the slide.
    pub open spec fn tick(self, frame: FrameView) -> DrawerState {
        if frame.complete() {
            DrawerState {
                anim_value: frame.value(),
                transition: false,
                show_drawer: frame.value() == 0,
                history: if self.reset_mode {
                    Seq::empty()
                } else {
                    self.history
                },
                reset_mode: false,
                ..self
            }
        } else {
            DrawerState { anim_value: frame.value(), ..self }
        }
    }

    /// The state after asking for the history to be forgotten. While a
    /// slide is in flight nothing is forgotten before the slide ends; at
    /// rest the history is forgotten at once.
    pub open spec fn clear_history(self) -> DrawerState {
        if self.transition {
            DrawerState { reset_mode: true, ..self }
        } else {
            DrawerState { history: Seq::empty(), ..self }
        }
    }

    /// The state after the page left last has been taken out of the history.
    pub open spec fn pop_history(self) -> DrawerState {
        if self.history.len() > 0 {
            DrawerState { history: self.history.drop_last(), ..self }
        } else {
            self
        }
    }
}

/// What one layer of a drawer navigator renders.
#[derive(Debug, Clone, Copy, PartialEq, Eq, Structural)]
pub enum DrawerLayer {
    /// A page below its header.
    Page(PageLayer),
    /// The scrim that covers the page while the drawer slides.
    Overlay,
    /// The drawer.
    Drawer,
    /// The drawer with the scrim beside it.
    DrawerAndOverlay,
}

/// What a drawer navigator renders.
pub struct DrawerScene {
    /// The layers.
    pub container: PagesContainer<DrawerLayer>,
    /// Whether the drawer stands beside the layers rather than among them.
    pub beside: bool,
}

impl DrawerState {
    /// The drawer mode of the page that is shown; fixed unless its settings
    /// say otherwise.
    pub open spec fn mode(self) -> DrawerMode {
        match self.pages[self.current_page].settings {
            Some(settings) => settings.mode,
            None => DrawerMode::Fixed,
        }
    }

    /// The page in layer `index`: the pages that were left lie below the
    /// page that is shown, the oldest lowest.
    pub open spec fn page_at(self, index: int) -> PageKey {
        if index < self.history.len() {
            self.history[index]
        } else {
            self.current_page
        }
    }

    /// What is rendered in page layer `index`. Only the page that is shown
    /// can go without its header. The button on the left is hidden only on
    /// a page whose settings ask for a fixed drawer, where no page lies
    /// below it.
    pub open spec fn layer_at(self, index: int) -> DrawerLayer {
        let chrome = self.pages[self.page_at(index)];
        let hide_left = mode_of(chrome.settings) == Some(DrawerMode::Fixed) && index == 0;
        DrawerLayer::Page(
            PageLayer {
                page: self.page_at(index),
                header: if index < self.history.len() || chrome.header.settings.show_header {
                    Some(chrome.header.layout_with(hide_left))
                } else {
                    None
                },
            },
        )
    }

    /// The parameters of page layer `index` before the drawer joins: only
    /// the page that is shown is painted and takes input.
    pub open spec fn params_at(self, index: int) -> LayerParams {
        LayerParams {
            offset: None,
            hidden: index < self.history.len(),
            disabled: index < self.history.len(),
        }
    }

    /// The lowest `count` page layers.
    pub open spec fn pages_prefix(self, count: int) -> ContainerView {
        ContainerView {
            width: Length::Fill,
            height: Length::Fill,
            ids: Seq::new(count as nat, |i: int| self.page_at(i).0),
            params: Seq::new(count as nat, |i: int| self.params_at(i)),
            system_layers: 0,
            visible_layers: 2,
            no_background_layers: 0,
            persistent: true,
            relative: true,
        }
    }

    /// What the lowest `count` page layers render.
    pub open spec fn layers_prefix(self, count: int) -> Seq<DrawerLayer> {
        Seq::new(count as nat, |i: int| self.layer_at(i))
    }

    /// Whether the drawer stands beside the layers.
    pub open spec fn beside(self) -> bool {
        self.mode() == DrawerMode::Fixed
    }

    /// The layers of the scene. A fixed drawer, or one that is out, adds
    /// nothing to the page layers. A sliding drawer in flight adds the scrim
    /// and, above it, the drawer at the offset of the slide. A sliding
    /// drawer that is in adds the drawer with the scrim, and keeps input
    /// from the page.
    pub open spec fn scene(self) -> ContainerView {
        let pages = self.pages_prefix(self.history.len() as int + 1);
        let top = self.history.len() as int;
        let fill = Size { width: Length::Fill, height: Length::Fill };
        if self.mode() == DrawerMode::Fixed {
            pages
        } else if self.transition {
            let covered = pages.pushed(0, fill).with_params(
                top + 1,
                LayerParams { offset: None, hidden: false, disabled: true },
            );
            let sliding = covered.pushed(0, fill).with_params(
                top + 2,
                LayerParams { offset: Some(self.anim_value as i64), hidden: false, disabled: false },
            );
            ContainerView {
                visible_layers: 3,
                system_layers: 2,
                no_background_layers: 2,
                ..sliding
            }
        } else if self.show_drawer {
            let blocked = pages.with_params(
                top,
                LayerParams { offset: None, hidden: false, disabled: true },
            );
            ContainerView { system_layers: 1, no_background_layers: 1, ..blocked.pushed(0, fill) }
        } else {
            pages
        }
    }

    /// What the layers of the scene render.
    pub open spec fn layers(self) -> Seq<DrawerLayer> {
        let pages = self.layers_prefix(self.history.len() as int + 1);
        if self.mode() == DrawerMode::Fixed {
            pages
        } else if self.transition {
            pages.push(DrawerLayer::Overlay).push(DrawerLayer::Drawer)
        } else if self.show_drawer {
            pages.push(DrawerLayer::DrawerAndOverlay)
        } else {
            pages
        }
    }
}

/// The frame with which the drawer starts to slide in.
pub open spec fn expand_frame() -> FrameView {
    FrameView { percent: 0, duration: SLIDE_DURATION as int, curve: Some(Curve::Approach) }
}

/// The frame with which the drawer starts to slide out.
pub open spec fn slide_out_frame() -> FrameView {
    FrameView { percent: 0, duration: SLIDE_DURATION as int, curve: Some(Curve::Retreat) }
}

/// Asking for the history to be forgotten while a slide is in flight
/// changes nothing in it while the slide goes on: ticks that do not end the
/// slide leave it as it was, and the tick that ends the slide empties it.
/// Nothing else of the state waits: the page that is shown stays.
pub proof fn lemma_clear_history_is_deferred(state: DrawerState, frame: FrameView)
    requires
        state.transition,
    ensures
        state.clear_history().history == state.history,
        state.clear_history().current_page == state.current_page,
        state.clear_history().reset_mode,
        !frame.complete() ==> state.clear_history().tick(frame).history == state.history
            && state.clear_history().tick(frame).reset_mode,
        frame.complete() ==> state.clear_history().tick(frame).history == Seq::<PageKey>::empty()
            && !state.clear_history().tick(frame).reset_mode,
{
}

/// Without a request to forget the history, no tick changes it.
pub proof fn lemma_tick_keeps_history(state: DrawerState, frame: FrameView)
    requires
        !state.reset_mode,
    ensures
        state.tick(frame).history == state.history,
        !state.tick(frame).reset_mode,
{
}

/// However a slide out is interleaved with what went before, the tick that
/// ends it leaves the drawer out; the tick that ends a slide in leaves it in.
pub proof fn lemma_last_tick_decides(state: DrawerState, elapsed: int)
    requires
        elapsed >= SLIDE_DURATION,
    ensures
        !state.tick(slide_out_frame().at(elapsed)).show_drawer,
        !state.tick(slide_out_frame().at(elapsed)).transition,
        state.tick(expand_frame().at(elapsed)).show_drawer,
        !state.tick(expand_frame().at(elapsed)).transition,
{
}

/// A navigator whose pages are chosen from a drawer.
pub struct DrawerNavigator {
    current_page: PageKey,
    drawer: Drawer,
    pages: PageRegistry<DrawerChrome>,
    history: Vec<PageKey>,
    anim_value: i32,
    transition: bool,
    show_drawer: bool,
    reset_mode: bool,
}

impl DrawerNavigator {
    /// The state of this navigator.
    pub closed spec fn model(&self) -> DrawerState {
        DrawerState {
            current_page: self.current_page,
            pages: Map::new(
                |key: PageKey| self.pages@.contains_key(key),
                |key: PageKey|
                    DrawerChromeView {
                        header: self.pages@[key].chrome->0.header.model(),
                        settings: self.pages@[key].chrome->0.settings,
                    },
            ),
            history: self.history@,
            drawer: self.drawer.model(),
            anim_value: self.anim_value as int,
            transition: self.transition,
            show_drawer: self.show_drawer,
            reset_mode: self.reset_mode,
        }
    }

    /// Holds of every navigator: its state is well formed, and each page
    /// that has been opened has its chrome and the identity of its key.
    pub closed spec fn wf(&self) -> bool {
        &&& self.model().wf()
        &&& forall|key: PageKey| #[trigger]
            self.pages@.contains_key(key) ==> self.pages@[key].chrome is Some
                && self.pages@[key].id == key.0
    }

    /// The entry under which `page` is opened.
    fn get_page(page: DrawerPage) -> (entry: PageEntry<DrawerChrome>)
        ensures
            entry.id == page.key.0,
            entry.chrome is Some,
            entry.chrome->0.header.model() == page.header(),
            entry.chrome->0.settings == page.settings,
    {
        let sliding = match page.settings {
            Some(settings) => match settings.mode {
                DrawerMode::Sliding => true,
                DrawerMode::Fixed => false,
            },
            None => false,
        };
        let mut header = Header::new(page.title);
        if sliding {
            header.set_back_button(HeaderButton::Drawer);
        }
        header.set_settings(page.header_settings);
        if let Some(button) = page.back_button {
            header.set_back_button(button);
        }
        if let Some(button) = page.right_button {
            header.set_right_button(button);
        }
        if let Some(title) = page.title_widget {
            header.set_title_widget(title);
        }
        PageEntry { id: page.key.0, chrome: Some(DrawerChrome { header, settings: page.settings }) }
    }

    /// The pages as the drawer lists them.
    fn entries(pages: &Vec<DrawerPage>) -> (entries: Vec<DrawerEntry>)
        ensures
            entries@ == Seq::new(pages@.len(), |i: int| pages@[i].entry()),
    {
        let mut entries: Vec<DrawerEntry> = Vec::new();
        let mut index: usize = 0;
        while index < pages.len()
            invariant
                index <= pages.len(),
                entries@ == Seq::new(index as nat, |i: int| pages@[i].entry()),
            decreases pages.len() - index,
        {
            let page = &pages[index];
            entries.push(DrawerEntry { page: page.key, custom: page.drawer_option });
            index = index + 1;
            proof {
                assert(entries@ =~= Seq::new(index as nat, |i: int| pages@[i].entry()));
            }
        }
        entries
    }

    /// A navigator whose drawer lists `pages` and that shows `initial_page`,
    /// which is to be brought to life.
    pub fn new(pages: Vec<DrawerPage>, initial_page: DrawerPage) -> (started: (
        Self,
        Outcome<DrawerPage>,
    ))
        ensures
            started.0.wf(),
            started.0.model() == DrawerState::initial(pages@, initial_page),
            started.1.follow_up is None,
            started.1.load == Some(initial_page.key),
    {
        let key = initial_page.key;
        let settings = initial_page.settings;
        let mut drawer = Drawer::new(key, Self::entries(&pages));
        let mut registry: PageRegistry<DrawerChrome> = PageRegistry::new();
        let entry = Self::get_page(initial_page);
        registry.get_or_create(key, entry);
        drawer.set_settings(settings);
        let navigator = DrawerNavigator {
            current_page: key,
            history: Vec::with_capacity(pages.len()),
            pages: registry,
            drawer,
            anim_value: 0,
            transition: false,
            show_drawer: false,
            reset_mode: false,
        };
        proof {
            assert(navigator.model().pages =~= DrawerState::initial(pages@, initial_page).pages);
            assert(navigator.model().history =~= Seq::<PageKey>::empty());
        }
        (navigator, Outcome { follow_up: None, load: Some(key) })
    }

    /// Starts the slide that brings the drawer in.
    fn start_drawer_open_animation(&mut self) -> (tick: NavigationAction<DrawerPage>)
        ensures
            final(self).model() == old(self).model().expand(),
            final(self).pages == old(self).pages,
            tick matches NavigationAction::Tick(frame) && frame@ == expand_frame(),
    {
        self.anim_value = -COMPLETE;
        self.transition = true;
        NavigationAction::Tick(Frame::new().duration(SLIDE_DURATION).map(Curve::Approach))
    }

    /// Starts the slide that takes the drawer out.
    fn start_drawer_hide_animation(&mut self) -> (tick: NavigationAction<DrawerPage>)
        ensures
            final(self).model() == old(self).model().slide_out(),
            final(self).pages == old(self).pages,
            tick matches NavigationAction::Tick(frame) && frame@ == slide_out_frame(),
    {
        self.anim_value = 0;
        self.transition = true;
        NavigationAction::Tick(Frame::new().duration(SLIDE_DURATION).map(Curve::Retreat))
    }

    /// Goes to `page`, opening it where it has not been opened before. The
    /// change is immediate. Where the drawer of the page slides, the drawer
    /// is asked to slide out.
    pub fn navigate(&mut self, page: DrawerPage) -> (outcome: Outcome<DrawerPage>)
        requires
            old(self).wf(),
        ensures
            final(self).wf(),
            final(self).model() == old(self).model().navigate(page),
            outcome.load == if old(self).model().pages.contains_key(page.key) {
                None
            } else {
                Some(page.key)
            },
            outcome.follow_up == if mode_of(page.settings) == Some(DrawerMode::Sliding) {
                Some(NavigationAction::<DrawerPage>::Drawer(DrawerAction::Hide))
            } else {
                None
            },
    {
        let key = page.key;
        let sliding = match page.settings {
            Some(settings) => match settings.mode {
                DrawerMode::Sliding => true,
                DrawerMode::Fixed => false,
            },
            None => false,
        };
        let mut load: Option<PageKey> = None;
        if !self.pages.contains(key) {
            let entry = Self::get_page(page);
            self.pages.get_or_create(key, entry);
            load = Some(key);
        }
        self.drawer.set_selected_page(key);
        let old_page = self.current_page;
        self.current_page = key;
        self.history.push(old_page);
        proof {
            assert(self.model().pages =~= old(self).model().navigate(page).pages);
            assert(self.model().history =~= old(self).model().navigate(page).history);
            assert forall|i: int| 0 <= i < self.model().history.len() implies self.model().pages.contains_key(
                 #[trigger] self.model().history[i]) by {
                if i < old(self).model().history.len() {
                    assert(old(self).model().pages.contains_key(old(self).model().history[i]));
                }
            }
        }
        if sliding {
            return Outcome {
                follow_up: Some(NavigationAction::Drawer(DrawerAction::Hide)),
                load,
            };
        }
        Outcome { follow_up: None, load }
    }

    /// Goes back to the page left last, if there is one. The change is
    /// immediate.
    pub fn go_back(&mut self) -> (outcome: Outcome<DrawerPage>)
        requires
            old(self).wf(),
        ensures
            final(self).wf(),
            final(self).model() == old(self).model().go_back(),
            outcome.load is None,
            outcome.follow_up is None,
    {
        proof {
            if old(self).model().history.len() > 0 {
                assert(old(self).model().pages.contains_key(
                    old(self).model().history[old(self).model().history.len() - 1],
                ));
            }
        }
        if let Some(page) = self.history.pop() {
            self.drawer.set_selected_page(page);
            self.current_page = page;
        }
        proof {
            assert(self.model().pages =~= old(self).model().pages);
            assert(self.model().history =~= old(self).model().go_back().history);
            assert forall|i: int| 0 <= i < self.model().history.len() implies self.model().pages.contains_key(
                 #[trigger] self.model().history[i]) by {
                assert(old(self).model().pages.contains_key(old(self).model().history[i]));
            }
        }
        Outcome { follow_up: None, load: None }
    }

    /// Takes over the value of a frame that has just been advanced. A
    /// complete frame ends the slide, decides whether the drawer is in, and
    /// forgets the history where that was asked for during the slide; any
    /// other is handed back to be delivered again.
    pub fn tick(&mut self, frame: Frame) -> (outcome: Outcome<DrawerPage>)
        requires
            old(self).wf(),
        ensures
            final(self).wf(),
            final(self).model() == old(self).model().tick(frame@),
            outcome.load is None,
            outcome.follow_up == if frame@.complete() {
                None::<NavigationAction<DrawerPage>>
            } else {
                Some(NavigationAction::Tick(frame))
            },
    {
        self.anim_value = frame.get_value();
        proof {
            assert(self.model().pages =~= old(self).model().pages);
            assert forall|i: int| 0 <= i < self.model().history.len() implies self.model().pages.contains_key(
                 #[trigger] self.model().history[i]) by {
                assert(old(self).model().pages.contains_key(old(self).model().history[i]));
            }
        }
        if frame.is_complete() {
            self.transition = false;
            self.show_drawer = self.anim_value == 0;
            if self.reset_mode {
                self.reset_mode = false;
                self.history.clear();
            }
            proof {
                assert(self.model().pages =~= old(self).model().pages);
                assert(self.model().history =~= old(self).model().tick(frame@).history);
                assert forall|i: int| 0 <= i < self.model().history.len() implies self.model().pages.contains_key(
                     #[trigger] self.model().history[i]) by {
                    assert(old(self).model().pages.contains_key(old(self).model().history[i]));
                }
            }
            return Outcome { follow_up: None, load: None };
        }
        Outcome { follow_up: Some(NavigationAction::Tick(frame)), load: None }
    }

    /// Asks the drawer to slide in or out. The slide starts with the tick
    /// that is handed back.
    pub fn slide(&mut self, action: DrawerAction) -> (outcome: Outcome<DrawerPage>)
        requires
            old(self).wf(),
        ensures
            final(self).wf(),
            final(self).model() == match action {
                DrawerAction::Expand => old(self).model().expand(),
                DrawerAction::Hide => old(self).model().slide_out(),
            },
            outcome.load is None,
            outcome.follow_up matches Some(NavigationAction::Tick(frame)) && frame@ == match action {
                DrawerAction::Expand => expand_frame(),
                DrawerAction::Hide => slide_out_frame(),
            },
    {
        let tick = match action {
            DrawerAction::Expand => self.start_drawer_open_animation(),
            DrawerAction::Hide => self.start_drawer_hide_animation(),
        };
        proof {
            assert forall|i: int| 0 <= i < self.model().history.len() implies self.model().pages.contains_key(
                 #[trigger] self.model().history[i]) by {
                assert(old(self).model().pages.contains_key(old(self).model().history[i]));
            }
        }
        Outcome { follow_up: Some(tick), load: None }
    }

    /// Handles one action. A tick first advances its frame by the clock, so
    /// what it does holds for the time that the clock showed, whatever that
    /// was.
    pub fn handle_actions(&mut self, message: NavigationAction<DrawerPage>) -> (outcome: Outcome<
        DrawerPage,
    >)
        requires
            old(self).wf(),
        ensures
            final(self).wf(),
            match message {
                NavigationAction::Navigate(page) => {
                    &&& final(self).model() == old(self).model().navigate(page)
                    &&& outcome.load == if old(self).model().pages.contains_key(page.key) {
                        None
                    } else {
                        Some(page.key)
                    }
                    &&& outcome.follow_up == if mode_of(page.settings) == Some(
                        DrawerMode::Sliding,
                    ) {
                        Some(NavigationAction::<DrawerPage>::Drawer(DrawerAction::Hide))
                    } else {
                        None
                    }
                },
                NavigationAction::GoBack => {
                    &&& final(self).model() == old(self).model().go_back()
                    &&& outcome.load is None
                    &&& outcome.follow_up is None
                },
                NavigationAction::Tick(frame) => exists|elapsed: int|
                    {
                        &&& 0 <= elapsed
                        &&& final(self).model() == old(self).model().tick(
                            #[trigger] frame@.at(elapsed),
                        )
                        &&& outcome.load is None
                        &&& match outcome.follow_up {
                            Some(NavigationAction::Tick(next)) => !frame@.at(elapsed).complete()
                                && next@ == frame@.at(elapsed) && next.start() == frame.start(),
                            Some(_) => false,
                            None => frame@.at(elapsed).complete(),
                        }
                    },
                NavigationAction::Drawer(action) => {
                    &&& final(self).model() == match action {
                        DrawerAction::Expand => old(self).model().expand(),
                        DrawerAction::Hide => old(self).model().slide_out(),
                    }
                    &&& outcome.load is None
                    &&& outcome.follow_up matches Some(NavigationAction::Tick(frame)) && frame@
                        == match action {
                        DrawerAction::Expand => expand_frame(),
                        DrawerAction::Hide => slide_out_frame(),
                    }
                },
            },
    {
        match message {
            NavigationAction::Navigate(page) => self.navigate(page),
            NavigationAction::GoBack => self.go_back(),
            NavigationAction::Tick(frame) => {
                let mut frame = frame;
                frame.update();
                self.tick(frame)
            },
            NavigationAction::Drawer(action) => self.slide(action),
        }
    }
}

impl DrawerNavigator {
    /// The page that is shown.
    pub fn current_page(&self) -> (page: PageKey)
        ensures
            page == self.model().current_page,
    {
        self.current_page
    }

    /// The pages that were left, the oldest first.
    pub fn history(&self) -> (history: &Vec<PageKey>)
        ensures
            history@ == self.model().history,
    {
        &self.history
    }

    /// The value of the slide in flight.
    pub fn anim_value(&self) -> (value: i32)
        ensures
            value == self.model().anim_value,
    {
        self.anim_value
    }

    /// Whether a slide is in flight.
    pub fn is_animating(&self) -> (animating: bool)
        ensures
            animating == self.model().transition,
    {
        self.transition
    }

    /// Whether the drawer has slid in.
    pub fn shows_drawer(&self) -> (shown: bool)
        ensures
            shown == self.model().show_drawer,
    {
        self.show_drawer
    }

    /// Whether the history is to be forgotten when the slide ends.
    pub fn is_resetting(&self) -> (resetting: bool)
        ensures
            resetting == self.model().reset_mode,
    {
        self.reset_mode
    }

    /// Whether `page` has been opened.
    pub fn has_page(&self, page: PageKey) -> (opened: bool)
        ensures
            opened == self.model().pages.contains_key(page),
    {
        self.pages.contains(page)
    }

    /// The header of a page that has been opened.
    pub fn header(&self, page: PageKey) -> (header: &Header)
        requires
            self.wf(),
            self.model().pages.contains_key(page),
        ensures
            header.model() == self.model().pages[page].header,
    {
        match &self.pages.lookup(page).chrome {
            Some(chrome) => &chrome.header,
            None => vstd::pervasive::unreached(),
        }
    }

    /// The drawer.
    pub fn drawer(&self) -> (drawer: &Drawer)
        ensures
            drawer.model() == self.model().drawer,
    {
        &self.drawer
    }

    /// What is rendered for `page` when `below` pages lie under it.
    fn layer(&self, page: PageKey, below: usize, is_current: bool) -> (layer: DrawerLayer)
        requires
            self.wf(),
            self.model().pages.contains_key(page),
        ensures
            layer == DrawerLayer::Page(
                PageLayer {
                    page,
                    header: if !is_current
                        || self.model().pages[page].header.settings.show_header {
                        Some(
                            self.model().pages[page].header.layout_with(
                                mode_of(self.model().pages[page].settings) == Some(
                                    DrawerMode::Fixed,
                                ) && below == 0,
                            ),
                        )
                    } else {
                        None
                    },
                },
            ),
    {
        let entry = self.pages.lookup(page);
        let header = match &entry.chrome {
            Some(chrome) => {
                let fixed = match chrome.settings {
                    Some(settings) => match settings.mode {
                        DrawerMode::Fixed => true,
                        DrawerMode::Sliding => false,
                    },
                    None => false,
                };
                if !is_current || chrome.header.is_shown() {
                    Some(chrome.header.view_with(fixed && below == 0))
                } else {
                    None
                }
            },
            None => None,
        };
        DrawerLayer::Page(PageLayer { page, header })
    }

    /// The drawer mode of the page that is shown.
    pub fn mode(&self) -> (mode: DrawerMode)
        requires
            self.wf(),
        ensures
            mode == self.model().mode(),
    {
        let entry = self.pages.lookup(self.current_page);
        match &entry.chrome {
            Some(chrome) => match chrome.settings {
                Some(settings) => settings.mode,
                None => DrawerMode::Fixed,
            },
            None => DrawerMode::Fixed,
        }
    }

    /// The scene to render: the layers with their parameters, what each
    /// layer shows, and whether the drawer stands beside them.
    pub fn view(&self) -> (scene: DrawerScene)
        requires
            self.wf(),
        ensures
            scene.container@ == self.model().scene(),
            scene.container.contents() == self.model().layers(),
            scene.beside == self.model().beside(),
    {
        let fill = Size { width: Length::Fill, height: Length::Fill };
        let mode = self.mode();
        let mut container: PagesContainer<DrawerLayer> = PagesContainer::new().persist(
            true,
        ).relative_anim(true);
        let count: usize = self.history.len();
        let mut index: usize = 0;
        proof {
            assert(container@.ids =~= self.model().pages_prefix(0).ids);
            assert(container@.params =~= self.model().pages_prefix(0).params);
            assert(container.contents() =~= self.model().layers_prefix(0));
        }
        while index < count
            invariant
                self.wf(),
                index <= count,
                count == self.model().history.len(),
                fill == (Size { width: Length::Fill, height: Length::Fill }),
                container@ == self.model().pages_prefix(index as int),
                container.contents() == self.model().layers_prefix(index as int),
            decreases count - index,
        {
            let page = self.history[index];
            let layer = self.layer(page, index, false);
            container = container.push(page.0, layer, fill).hide_last(true).disable_last(true);
            index = index + 1;
            proof {
                assert(container@.ids =~= self.model().pages_prefix(index as int).ids);
                assert(container@.params =~= self.model().pages_prefix(index as int).params);
                assert(container.contents() =~= self.model().layers_prefix(index as int));
            }
        }
        let layer = self.layer(self.current_page, count, true);
        container = container.push(self.current_page.0, layer, fill).disable_last(false);
        proof {
            assert(container@.ids =~= self.model().pages_prefix(count + 1).ids);
            assert(container@.params =~= self.model().pages_prefix(count + 1).params);
            assert(container.contents() =~= self.model().layers_prefix(count + 1));
        }
        match mode {
            DrawerMode::Fixed => DrawerScene { container, beside: true },
            DrawerMode::Sliding => {
                if self.transition {
                    let container = container.hide_last(false).push(
                        0,
                        DrawerLayer::Overlay,
                        fill,
                    ).disable_last(true).push(0, DrawerLayer::Drawer, fill).n_progress_last(
                        Some(self.anim_value),
                    ).visible_layers(3).system_layers(2).no_background_layers(2);
                    proof {
                        assert(container@.ids =~= self.model().scene().ids);
                        assert(container@.params =~= self.model().scene().params);
                    }
                    return DrawerScene { container, beside: false };
                }
                if self.show_drawer {
                    let container = container.hide_last(false).disable_last(true).push(
                        0,
                        DrawerLayer::DrawerAndOverlay,
                        fill,
                    ).system_layers(1).no_background_layers(1);
                    proof {
                        assert(container@.ids =~= self.model().scene().ids);
                        assert(container@.params =~= self.model().scene().params);
                    }
                    return DrawerScene { container, beside: false };
                }
                DrawerScene { container, beside: false }
            },
        }
    }
}

impl Navigator<PageKey> for DrawerNavigator {
    fn is_on_page(&self, page: PageKey) -> (on_page: bool)
        ensures
            on_page == (self.model().current_page == page),
    {
        self.current_page == page
    }

    fn is_on_page_and<F: Fn() -> bool>(&self, page: PageKey, f: F) -> (both: bool)
        ensures
            both ==> self.model().current_page == page,
            self.model().current_page == page ==> f.ensures((), both),
    {
        self.current_page == page && f()
    }

    /// Forgets the pages that were left: when the slide in flight ends, or
    /// at once where none is in flight.
    fn clear_history(&mut self)
        ensures
            final(self).model() == old(self).model().clear_history(),
            old(self).model().transition ==> final(self).model().history == old(
                self,
            ).model().history && final(self).model().reset_mode,
            final(self).model().current_page == old(self).model().current_page,
            old(self).wf() ==> final(self).wf(),
    {
        if self.transition {
            self.reset_mode = true;
        } else {
            self.history.clear();
        }
        proof {
            assert(self.model().pages =~= old(self).model().pages);
            if old(self).model().transition {
                assert(self.model().history =~= old(self).model().history);
            } else {
                assert(self.model().history =~= Seq::<PageKey>::empty());
            }
            if old(self).wf() {
                assert forall|i: int| 0 <= i < self.model().history.len() implies self.model().pages.contains_key(
                     #[trigger] self.model().history[i]) by {
                    assert(old(self).model().pages.contains_key(old(self).model().history[i]));
                }
            }
        }
    }

    /// Takes the page left last out of the history and hands it back.
    fn pop_history(&mut self) -> (page: Option<PageKey>)
        ensures
            final(self).model() == old(self).model().pop_history(),
            page == if old(self).model().history.len() > 0 {
                Some(old(self).model().history.last())
            } else {
                None
            },
            old(self).wf() ==> final(self).wf(),
    {
        let page = self.history.pop();
        proof {
            assert(self.model().pages =~= old(self).model().pages);
            assert(self.model().history =~= old(self).model().pop_history().history);
            if old(self).wf() {
                assert forall|i: int| 0 <= i < self.model().history.len() implies self.model().pages.contains_key(
                     #[trigger] self.model().history[i]) by {
                    assert(old(self).model().pages.contains_key(old(self).model().history[i]));
                }
            }
        }
        page
    }
}

impl DrawerState {
    /// The state after one completed change of page.
    pub open spec fn travel(self, step: Travel<DrawerPage>) -> DrawerState {
        match step {
            Travel::Forward(page) => self.navigate(page),
            Travel::Back => self.go_back(),
        }
    }

    /// The state after the changes of page in `steps`, in order.
    pub open spec fn travel_all(self, steps: Seq<Travel<DrawerPage>>) -> DrawerState
        decreases steps.len(),
    {
        if steps.len() == 0 {
            self
        } else {
            self.travel_all(steps.drop_last()).travel(steps.last())
        }
    }

    /// How many of `steps`, taken from this state, are ways back that find
    /// nothing to return to.
    pub open spec fn idle_backs(self, steps: Seq<Travel<DrawerPage>>) -> nat
        decreases steps.len(),
    {
        if steps.len() == 0 {
            0
        } else {
            let before = self.travel_all(steps.drop_last());
            let idle: nat = if steps.last() is Back && before.history.len() == 0 {
                1
            } else {
                0
            };
            self.idle_backs(steps.drop_last()) + idle
        }
    }
}

/// Navigating to a page and going back shows the page that was shown
/// before and leaves the history as it was; the page that was visited
/// stays opened.
pub proof fn lemma_round_trip(state: DrawerState, page: DrawerPage)
    ensures
        state.navigate(page).go_back().current_page == state.current_page,
        state.navigate(page).go_back().history == state.history,
        state.navigate(page).go_back().pages.contains_key(page.key),
        forall|key: PageKey|
            state.pages.contains_key(key) ==> state.navigate(page).go_back().pages.contains_key(key),
{
    assert(state.navigate(page).go_back().history =~= state.history);
}

/// After any run of navigations and ways back, the history holds one page
/// for each navigation, less one for each way back that had a page to
/// return to. So where no way back found the history empty, or where the
/// history ends empty, its length is the number of navigations less the
/// number of ways back, and never less than none.
pub proof fn lemma_history_length(state: DrawerState, steps: Seq<Travel<DrawerPage>>)
    ensures
        state.idle_backs(steps) <= backs(steps),
        state.travel_all(steps).history.len() == history_length(
            state.history.len(),
            steps,
            state.idle_backs(steps),
        ),
        state.history.len() == 0 && (state.idle_backs(steps) == 0 || state.travel_all(
            steps,
        ).history.len() == 0) ==> state.travel_all(steps).history.len() == clamped_length(steps),
    decreases steps.len(),
{
    if steps.len() > 0 {
        lemma_history_length(state, steps.drop_last());
    }
}

} // verus!
