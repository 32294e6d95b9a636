//! The stack navigator: pages are pushed on navigation and popped on the way
//! back, and each change of page is animated.
use crate::animation::{Curve, Frame, FrameView, COMPLETE, DEFAULT_DURATION};
use crate::components::header::{
    Header, HeaderButton, HeaderSettings, HeaderTitle, HeaderView,
};
use crate::components::pages_container::{
    remaining_offset, ContainerView, LayerParams, PagesContainer,
};
use crate::components::stack_page_wrapper::{stack_page_wrapper, StackPageWrapper, WrapperView};
use crate::length::{Length, Size};
use crate::page::{PageEntry, PageKey, PageLayer, PageRegistry};
use crate::travel::{backs, clamped_length, history_length, Travel};
use crate::{NavigationAction, Navigator, Outcome};
use vstd::prelude::*;

verus! {

/// A page as the stack navigator is told of it: its key, and what its page
/// says of its header.
pub struct StackPage {
    pub key: PageKey,
    pub title: String,
    pub settings: Option<HeaderSettings>,
    pub back_button: Option<HeaderButton>,
    pub right_button: Option<HeaderButton>,
    pub title_widget: Option<HeaderTitle>,
}

impl StackPage {
    /// The header that this page gets when it is opened.
    pub open spec fn header(self) -> HeaderView {
        HeaderView {
            title: self.title@,
            title_widget: match self.title_widget {
                Some(title) => title,
                None => HeaderTitle::Plain,
            },
            back_button: match self.back_button {
                Some(button) => button,
                None => HeaderButton::Back,
            },
            right_button: self.right_button,
            settings: match self.settings {
                Some(settings) => settings,
                None => HeaderSettings::default_spec(),
            },
            show_left_button: true,
        }
    }
}

/// Offset of the pages below during a transition with value `anim_value`:
/// two fifths of it, the other way.
pub open spec fn history_offset(anim_value: int) -> int {
    if anim_value >= 0 {
        -(anim_value * 2 / 5)
    } else {
        (-anim_value) * 2 / 5
    }
}

/// The state of a stack navigator.
pub struct StackState {
    /// The page that is shown.
    pub current_page: PageKey,
    /// The header of every page that has been opened.
    pub pages: Map<PageKey, HeaderView>,
    /// The pages that were left, the oldest first.
    pub history: Seq<PageKey>,
    /// The value of the animation in flight.
    pub anim_value: int,
    /// Whether an animation is in flight.
    pub transition: bool,
    /// Whether the animation in flight leads back to the page left last.
    pub going_back: bool,
    /// Whether the history is to be forgotten when the animation ends.
    pub reset_mode: bool,
}

impl StackState {
    /// Every page that is shown or remembered has been opened, and the
    /// animation value is within its range.
    pub open spec fn wf(self) -> bool {
        &&& self.pages.contains_key(self.current_page)
        &&& forall|i: int|
            0 <= i < self.history.len() ==> self.pages.contains_key(#[trigger] self.history[i])
        &&& -COMPLETE <= self.anim_value <= COMPLETE
    }

    /// The state of a navigator that starts on `page`.
    pub open spec fn initial(page: StackPage) -> StackState {
        StackState {
            current_page: page.key,
            pages: Map::empty().insert(page.key, page.header()),
            history: Seq::empty(),
            anim_value: 0,
            transition: false,
            going_back: false,
            reset_mode: false,
        }
    }

    /// The pages after `page` has been navigated to: it is opened unless it
    /// has been before.
    pub open spec fn opened(self, page: StackPage) -> Map<PageKey, HeaderView> {
        if self.pages.contains_key(page.key) {
            self.pages
        } else {
            self.pages.insert(page.key, page.header())
        }
    }

    /// The state after navigating to `page`: the page that is left goes onto
    /// the history, and a forward transition starts.
    pub open spec fn navigate(self, page: StackPage) -> StackState {
        StackState {
            current_page: page.key,
            pages: self.opened(page),
            history: self.history.push(self.current_page),
            anim_value: 0,
            transition: true,
            ..self
        }
    }

    /// The state after asking to go back: a reverse transition starts, and
    /// the page changes only when it ends.
    pub open spec fn go_back(self) -> StackState {
        StackState { going_back: true, anim_value: COMPLETE as int, transition: true, ..self }
    }

    /// The state after asking for the history to be forgotten: nothing is
    /// forgotten before the next transition ends.
    pub open spec fn clear_history(self) -> StackState {
        StackState { reset_mode: true, ..self }
    }

    /// The state once a transition has ended: on the way back the page left
    /// last is shown again, if there is one, and the history is forgotten
    /// where that was asked for.
    pub open spec fn settled(self) -> StackState {
        let comes_back = self.going_back && self.history.len() > 0;
        StackState {
            current_page: if comes_back {
                self.history.last()
            } else {
                self.current_page
            },
            history: if self.reset_mode {
                Seq::empty()
            } else if comes_back {
                self.history.drop_last()
            } else {
                self.history
            },
            transition: false,
            going_back: false,
            reset_mode: false,
            ..self
        }
    }

    /// The state after a tick whose frame, once advanced, is `frame`.
    pub open spec fn tick(self, frame: FrameView) -> StackState {
        let moved = StackState { anim_value: frame.value(), ..self };
        if frame.complete() {
            moved.settled()
        } else {
            moved
        }
    }

    /// The page in layer `index`: the pages that were left lie below the
    /// page that is shown, the oldest lowest.
    pub open spec fn page_at(self, index: int) -> PageKey {
        if index < self.history.len() {
            self.history[index]
        } else {
            self.current_page
        }
    }

    /// What is rendered in layer `index`. A page shows its header unless its
    /// settings say otherwise, and in it the button on the left unless there
    /// is no page below or the history is about to be forgotten.
    pub open spec fn layer_at(self, index: int) -> PageLayer {
        let header = self.pages[self.page_at(index)];
        PageLayer {
            page: self.page_at(index),
            header: if header.settings.show_header {
                Some(header.layout_with(self.reset_mode || index == 0))
            } else {
                None
            },
        }
    }

    /// The parameters of layer `index`. At rest only the page that is shown
    /// is painted and takes input. During a transition no page takes input,
    /// the page that is shown slides over the distance its animation has
    /// left, and the pages below drift against it by two fifths as much.
    pub open spec fn params_at(self, index: int) -> LayerParams {
        if index < self.history.len() {
            LayerParams {
                offset: if self.transition {
                    Some(history_offset(self.anim_value) as i64)
                } else {
                    None
                },
                hidden: !self.transition,
                disabled: true,
            }
        } else {
            LayerParams {
                offset: if self.transition {
                    Some(remaining_offset(self.anim_value) as i64)
                } else {
                    None
                },
                hidden: false,
                disabled: self.transition,
            }
        }
    }

    /// The lowest `count` layers of the scene.
    pub open spec fn scene_prefix(self, count: int) -> ContainerView {
        ContainerView {
            width: Length::Fill,
            height: Length::Fill,
            ids: Seq::new(count as nat, |i: int| self.page_at(i).0),
            params: Seq::new(count as nat, |i: int| self.params_at(i)),
            system_layers: 0,
            visible_layers: 2,
            no_background_layers: 0,
            persistent: false,
            relative: false,
        }
    }

    /// What the lowest `count` layers render.
    pub open spec fn layers_prefix(self, count: int) -> Seq<PageLayer> {
        Seq::new(count as nat, |i: int| self.layer_at(i))
    }

    /// The scene: one layer for each page that was left, and on top of them
    /// the page that is shown.
    pub open spec fn scene(self) -> ContainerView {
        self.scene_prefix(self.history.len() as int + 1)
    }

    /// What the layers of the scene render.
    pub open spec fn layers(self) -> Seq<PageLayer> {
        self.layers_prefix(self.history.len() as int + 1)
    }

    /// Layer `index` as a page that carries its own parameters, for a scene
    /// that is laid out as a plain stack. At rest every page lies at offset
    /// zero, and only the page that is shown is painted and takes input.
    /// During a transition every page is painted and none takes input.
    pub open spec fn wrapper_at(self, index: int) -> WrapperView {
        if index < self.history.len() {
            WrapperView {
                progress: if self.transition {
                    history_offset(self.anim_value)
                } else {
                    0
                },
                active: false,
                animated: self.transition,
                hidden: !self.transition,
            }
        } else {
            WrapperView {
                progress: if self.transition {
                    remaining_offset(self.anim_value)
                } else {
                    0
                },
                active: !self.transition,
                animated: self.transition,
                hidden: false,
            }
        }
    }

    /// The state after the page left last has been taken out of the history.
    pub open spec fn pop_history(self) -> StackState {
        if self.history.len() > 0 {
            StackState { history: self.history.drop_last(), ..self }
        } else {
            self
        }
    }
}

/// A navigator over a stack of pages.
pub struct StackNavigator {
    current_page: PageKey,
    pages: PageRegistry<Header>,
    history: Vec<PageKey>,
    anim_value: i32,
    transition: bool,
    going_back: bool,
    reset_mode: bool,
}

impl StackNavigator {
    /// The state of this navigator.
    pub closed spec fn model(&self) -> StackState {
        StackState {
            current_page: self.current_page,
            pages: Map::new(
                |key: PageKey| self.pages@.contains_key(key),
                |key: PageKey| self.pages@[key].chrome->0.model(),
            ),
            history: self.history@,
            anim_value: self.anim_value as int,
            transition: self.transition,
            going_back: self.going_back,
            reset_mode: self.reset_mode,
        }
    }

    /// Holds of every navigator: its state is well formed, and each page
    /// that has been opened has its header and the identity of its key.
    pub closed spec fn wf(&self) -> bool {
        &&& self.model().wf()
        &&& forall|key: PageKey| #[trigger]
            self.pages@.contains_key(key) ==> self.pages@[key].chrome is Some
                && self.pages@[key].id == key.0
    }

    /// The entry under which `page` is opened.
    fn get_page(page: StackPage) -> (entry: PageEntry<Header>)
        ensures
            entry.id == page.key.0,
            entry.chrome is Some,
            entry.chrome->0.model() == page.header(),
    {
        let mut header = Header::new(page.title);
        header.set_settings(page.settings);
        if let Some(button) = page.back_button {
            header.set_back_button(button);
        }
        if let Some(button) = page.right_button {
            header.set_right_button(button);
        }
        if let Some(title) = page.title_widget {
            header.set_title_widget(title);
        }
        PageEntry { id: page.key.0, chrome: Some(header) }
    }

    /// A navigator that shows `initial_page`, which is to be brought to life.
    pub fn new(initial_page: StackPage) -> (started: (Self, Outcome<StackPage>))
        ensures
            started.0.wf(),
            started.0.model() == StackState::initial(initial_page),
            started.1.follow_up is None,
            started.1.load == Some(initial_page.key),
    {
        let key = initial_page.key;
        let mut pages: PageRegistry<Header> = PageRegistry::new();
        let entry = Self::get_page(initial_page);
        pages.get_or_create(key, entry);
        let navigator = StackNavigator {
            history: Vec::with_capacity(5),
            current_page: key,
            pages,
            anim_value: 0,
            going_back: false,
            transition: false,
            reset_mode: false,
        };
        proof {
            assert(navigator.model().pages =~= StackState::initial(initial_page).pages);
            assert(navigator.model().history =~= Seq::<PageKey>::empty());
        }
        (navigator, Outcome { follow_up: None, load: Some(key) })
    }

    /// Starts the transition that brings a new page in.
    fn start_new_page_animation(&mut self) -> (tick: NavigationAction<StackPage>)
        ensures
            final(self).model() == (StackState {
                anim_value: 0,
                transition: true,
                ..old(self).model()
            }),
            final(self).pages == old(self).pages,
            tick matches NavigationAction::Tick(frame) && frame@ == (FrameView {
                percent: 0,
                duration: DEFAULT_DURATION as int,
                curve: None,
            }),
    {
        self.anim_value = 0;
        self.transition = true;
        NavigationAction::Tick(Frame::new())
    }

    /// Starts the transition that leads back to the page left last.
    fn start_go_back_animation(&mut self) -> (tick: NavigationAction<StackPage>)
        ensures
            final(self).model() == (StackState {
                anim_value: COMPLETE as int,
                transition: true,
                ..old(self).model()
            }),
            final(self).pages == old(self).pages,
            tick matches NavigationAction::Tick(frame) && frame@ == (FrameView {
                percent: 0,
                duration: DEFAULT_DURATION as int,
                curve: Some(Curve::Reverse),
            }),
    {
        self.anim_value = COMPLETE;
        self.transition = true;
        NavigationAction::Tick(Frame::new().map(Curve::Reverse))
    }

    /// Goes to `page`, opening it where it has not been opened before. The
    /// page that is left goes onto the history, and the forward transition
    /// starts with the tick that is handed back.
    pub fn navigate(&mut self, page: StackPage) -> (outcome: Outcome<StackPage>)
        requires
            old(self).wf(),
        ensures
            final(self).wf(),
            final(self).model() == old(self).model().navigate(page),
            outcome.load == if old(self).model().pages.contains_key(page.key) {
                None
            } else {
                Some(page.key)
            },
            outcome.follow_up matches Some(NavigationAction::Tick(frame)) && frame@ == (FrameView {
                percent: 0,
                duration: DEFAULT_DURATION as int,
                curve: None,
            }),
    {
        let key = page.key;
        let mut load: Option<PageKey> = None;
        if !self.pages.contains(key) {
            let entry = Self::get_page(page);
            self.pages.get_or_create(key, entry);
            load = Some(key);
        }
        let old_page = self.current_page;
        self.current_page = key;
        self.history.push(old_page);
        let tick = self.start_new_page_animation();
        proof {
            assert(self.model().pages =~= old(self).model().navigate(page).pages);
            assert(self.model().history =~= old(self).model().navigate(page).history);
        }
        Outcome { follow_up: Some(tick), load }
    }

    /// Asks to go back. The reverse transition starts with the tick that is
    /// handed back; the page changes when that transition ends.
    pub fn go_back(&mut self) -> (outcome: Outcome<StackPage>)
        requires
            old(self).wf(),
        ensures
            final(self).wf(),
            final(self).model() == old(self).model().go_back(),
            outcome.load is None,
            outcome.follow_up matches Some(NavigationAction::Tick(frame)) && frame@ == (FrameView {
                percent: 0,
                duration: DEFAULT_DURATION as int,
                curve: Some(Curve::Reverse),
            }),
    {
        self.going_back = true;
        let tick = self.start_go_back_animation();
        proof {
            assert forall|i: int| 0 <= i < self.model().history.len() implies self.model().pages.contains_key(
                #[trigger] self.model().history[i],
            ) by {
                assert(old(self).model().pages.contains_key(old(self).model().history[i]));
            }
        }
        Outcome { follow_up: Some(tick), load: None }
    }

    /// Takes over the value of a frame that has just been advanced. A
    /// complete frame ends the transition; any other is handed back to be
    /// delivered again.
    pub fn tick(&mut self, frame: Frame) -> (outcome: Outcome<StackPage>)
        requires
            old(self).wf(),
        ensures
            final(self).wf(),
            final(self).model() == old(self).model().tick(frame@),
            outcome.load is None,
            outcome.follow_up == if frame@.complete() {
                None::<NavigationAction<StackPage>>
            } else {
                Some(NavigationAction::Tick(frame))
            },
    {
        self.anim_value = frame.get_value();
        let completed = frame.is_complete();
        if completed && self.going_back {
            self.going_back = false;
            if let Some(page) = self.history.pop() {
                self.current_page = page;
            }
        }
        if completed && self.reset_mode {
            self.reset_mode = false;
            self.history.clear();
        }
        proof {
            assert(self.model().pages =~= old(self).model().pages);
            assert forall|i: int| 0 <= i < self.model().history.len() implies self.model().pages.contains_key(
                #[trigger] self.model().history[i],
            ) by {
                assert(old(self).model().pages.contains_key(old(self).model().history[i]));
            }
            if old(self).model().history.len() > 0 {
                assert(old(self).model().pages.contains_key(
                    old(self).model().history[old(self).model().history.len() - 1],
                ));
            }
        }
        if completed {
            self.transition = false;
            proof {
                assert(self.model().history =~= old(self).model().tick(frame@).history);
            }
            return Outcome { follow_up: None, load: None };
        }
        Outcome { follow_up: Some(NavigationAction::Tick(frame)), load: None }
    }

    /// Handles one action. A tick first advances its frame by the clock, so
    /// what it does holds for the time that the clock showed, whatever that
    /// was; the drawer's actions mean nothing to a stack.
    pub fn handle_actions(&mut self, message: NavigationAction<StackPage>) -> (outcome: Outcome<
        StackPage,
    >)
        requires
            old(self).wf(),
        ensures
            final(self).wf(),
            match message {
                NavigationAction::Navigate(page) => {
                    &&& final(self).model() == old(self).model().navigate(page)
                    &&& outcome.load == if old(self).model().pages.contains_key(page.key) {
                        None
                    } else {
                        Some(page.key)
                    }
                    &&& outcome.follow_up matches Some(NavigationAction::Tick(frame)) && frame@
                        == (FrameView {
                        percent: 0,
                        duration: DEFAULT_DURATION as int,
                        curve: None,
                    })
                },
                NavigationAction::GoBack => {
                    &&& final(self).model() == old(self).model().go_back()
                    &&& outcome.load is None
                    &&& outcome.follow_up matches Some(NavigationAction::Tick(frame)) && frame@
                        == (FrameView {
                        percent: 0,
                        duration: DEFAULT_DURATION as int,
                        curve: Some(Curve::Reverse),
                    })
                },
                NavigationAction::Tick(frame) => exists|elapsed: int|
                    {
                        &&& 0 <= elapsed
                        &&& final(self).model() == old(self).model().tick(
                            #[trigger] frame@.at(elapsed),
                        )
                        &&& outcome.load is None
                        &&& match outcome.follow_up {
                            Some(NavigationAction::Tick(next)) => !frame@.at(elapsed).complete()
                                && next@ == frame@.at(elapsed) && next.start() == frame.start(),
                            Some(_) => false,
                            None => frame@.at(elapsed).complete(),
                        }
                    },
                NavigationAction::Drawer(_) => {
                    &&& final(self).model() == old(self).model()
                    &&& outcome.load is None
                    &&& outcome.follow_up is None
                },
            },
    {
        match message {
            NavigationAction::Navigate(page) => self.navigate(page),
            NavigationAction::GoBack => self.go_back(),
            NavigationAction::Tick(frame) => {
                let mut frame = frame;
                frame.update();
                self.tick(frame)
            },
            NavigationAction::Drawer(_) => Outcome { follow_up: None, load: None },
        }
    }
}

impl StackNavigator {
    /// The page that is shown.
    pub fn current_page(&self) -> (page: PageKey)
        ensures
            page == self.model().current_page,
    {
        self.current_page
    }

    /// The pages that were left, the oldest first.
    pub fn history(&self) -> (history: &Vec<PageKey>)
        ensures
            history@ == self.model().history,
    {
        &self.history
    }

    /// The value of the animation in flight.
    pub fn anim_value(&self) -> (value: i32)
        ensures
            value == self.model().anim_value,
    {
        self.anim_value
    }

    /// Whether an animation is in flight.
    pub fn is_animating(&self) -> (animating: bool)
        ensures
            animating == self.model().transition,
    {
        self.transition
    }

    /// Whether the animation in flight leads back to the page left last.
    pub fn is_going_back(&self) -> (going_back: bool)
        ensures
            going_back == self.model().going_back,
    {
        self.going_back
    }

    /// Whether the history is to be forgotten when the animation ends.
    pub fn is_resetting(&self) -> (resetting: bool)
        ensures
            resetting == self.model().reset_mode,
    {
        self.reset_mode
    }

    /// The header of a page that has been opened.
    pub fn header(&self, page: PageKey) -> (header: &Header)
        requires
            self.wf(),
            self.model().pages.contains_key(page),
        ensures
            header.model() == self.model().pages[page],
    {
        match &self.pages.lookup(page).chrome {
            Some(header) => header,
            None => vstd::pervasive::unreached(),
        }
    }

    /// Whether `page` has been opened.
    pub fn has_page(&self, page: PageKey) -> (opened: bool)
        ensures
            opened == self.model().pages.contains_key(page),
    {
        self.pages.contains(page)
    }
}

impl StackNavigator {
    /// What is rendered for `page` when `below` pages lie under it.
    fn layer(&self, page: PageKey, below: usize) -> (layer: PageLayer)
        requires
            self.wf(),
            self.model().pages.contains_key(page),
        ensures
            layer.page == page,
            layer.header == if self.model().pages[page].settings.show_header {
                Some(self.model().pages[page].layout_with(self.model().reset_mode || below == 0))
            } else {
                None
            },
    {
        let entry = self.pages.lookup(page);
        let header = match &entry.chrome {
            Some(header) => {
                if header.is_shown() {
                    Some(header.view_with(self.reset_mode || below == 0))
                } else {
                    None
                }
            },
            None => None,
        };
        PageLayer { page, header }
    }

    /// The scene to render: the layers with their parameters, and what each
    /// layer shows.
    pub fn view(&self) -> (container: PagesContainer<PageLayer>)
        requires
            self.wf(),
        ensures
            container@ == self.model().scene(),
            container.contents() == self.model().layers(),
    {
        let fill = Size { width: Length::Fill, height: Length::Fill };
        let drift: Option<i32> = if self.transition {
            let value: i32 = self.anim_value;
            if value >= 0 {
                Some(-(value * 2 / 5))
            } else {
                Some((-value) * 2 / 5)
            }
        } else {
            None
        };
        let mut container: PagesContainer<PageLayer> = PagesContainer::new();
        let count: usize = self.history.len();
        let mut index: usize = 0;
        proof {
            assert(container@.ids =~= self.model().scene_prefix(0).ids);
            assert(container@.params =~= self.model().scene_prefix(0).params);
            assert(container.contents() =~= self.model().layers_prefix(0));
        }
        while index < count
            invariant
                self.wf(),
                index <= count,
                count == self.model().history.len(),
                fill == (Size { width: Length::Fill, height: Length::Fill }),
                drift == if self.model().transition {
                    Some(history_offset(self.model().anim_value) as i32)
                } else {
                    None
                },
                container@ == self.model().scene_prefix(index as int),
                container.contents() == self.model().layers_prefix(index as int),
            decreases count - index,
        {
            let page = self.history[index];
            let layer = self.layer(page, index);
            container = container.push(page.0, layer, fill).disable_last(true).hide_last(
                !self.transition,
            ).n_progress_last(drift);
            index = index + 1;
            proof {
                assert(container@.ids =~= self.model().scene_prefix(index as int).ids);
                assert(container@.params =~= self.model().scene_prefix(index as int).params);
                assert(container.contents() =~= self.model().layers_prefix(index as int));
            }
        }
        let layer = self.layer(self.current_page, count);
        let slide: Option<i32> = if self.transition {
            Some(self.anim_value)
        } else {
            None
        };
        container = container.push(self.current_page.0, layer, fill).disable_last(
            self.transition,
        ).progress_last(slide);
        proof {
            assert(container@.ids =~= self.model().scene().ids);
            assert(container@.params =~= self.model().scene().params);
            assert(container.contents() =~= self.model().layers());
        }
        container
    }
}

impl StackNavigator {
    /// The scene as a plain stack of pages, each carrying its own
    /// parameters: one for each page that was left, and on top of them the
    /// page that is shown.
    pub fn view_wrapped(&self) -> (pages: Vec<StackPageWrapper<PageLayer>>)
        requires
            self.wf(),
        ensures
            pages@.len() == self.model().history.len() + 1,
            forall|i: int|
                0 <= i < pages@.len() ==> (#[trigger] pages@[i])@ == self.model().wrapper_at(i)
                    && pages@[i].content() == self.model().layer_at(i),
    {
        let value: i32 = self.anim_value;
        let drift: i32 = if value >= 0 {
            -(value * 2 / 5)
        } else {
            (-value) * 2 / 5
        };
        let mut pages: Vec<StackPageWrapper<PageLayer>> = Vec::new();
        let count: usize = self.history.len();
        let mut index: usize = 0;
        while index < count
            invariant
                self.wf(),
                index <= count,
                count == self.model().history.len(),
                drift == history_offset(self.model().anim_value),
                pages@.len() == index,
                forall|i: int|
                    0 <= i < pages@.len() ==> (#[trigger] pages@[i])@ == self.model().wrapper_at(i)
                        && pages@[i].content() == self.model().layer_at(i),
            decreases count - index,
        {
            let page = self.history[index];
            let layer = self.layer(page, index);
            pages.push(
                stack_page_wrapper(layer).active(false).hidden(!self.transition).animated(
                    self.transition,
                ).n_progress(drift),
            );
            index = index + 1;
        }
        let layer = self.layer(self.current_page, count);
        pages.push(
            stack_page_wrapper(layer).active(!self.transition).animated(self.transition).progress(
                value,
            ),
        );
        pages
    }
}

impl Navigator<PageKey> for StackNavigator {
    fn is_on_page(&self, page: PageKey) -> (on_page: bool)
        ensures
            on_page == (self.model().current_page == page),
    {
        self.current_page == page
    }

    fn is_on_page_and<F: Fn() -> bool>(&self, page: PageKey, f: F) -> (both: bool)
        ensures
            both ==> self.model().current_page == page,
            self.model().current_page == page ==> f.ensures((), both),
    {
        self.current_page == page && f()
    }

    /// Asks for the history to be forgotten when the next transition ends.
    fn clear_history(&mut self)
        ensures
            final(self).model() == old(self).model().clear_history(),
            old(self).wf() ==> final(self).wf(),
    {
        self.reset_mode = true;
        proof {
            assert(self.model().pages =~= old(self).model().pages);
            if old(self).wf() {
                assert forall|i: int| 0 <= i < self.model().history.len() implies self.model().pages.contains_key(
                    #[trigger] self.model().history[i],
                ) by {
                    assert(old(self).model().pages.contains_key(old(self).model().history[i]));
                }
            }
        }
    }

    /// Takes the page left last out of the history and hands it back.
    fn pop_history(&mut self) -> (page: Option<PageKey>)
        ensures
            final(self).model() == old(self).model().pop_history(),
            page == if old(self).model().history.len() > 0 {
                Some(old(self).model().history.last())
            } else {
                None
            },
            old(self).wf() ==> final(self).wf(),
    {
        let page = self.history.pop();
        proof {
            assert(self.model().pages =~= old(self).model().pages);
            assert(self.model().history =~= old(self).model().pop_history().history);
            if old(self).wf() {
                assert forall|i: int| 0 <= i < self.model().history.len() implies self.model().pages.contains_key(
                    #[trigger] self.model().history[i],
                ) by {
                    assert(old(self).model().pages.contains_key(old(self).model().history[i]));
                }
            }
        }
        page
    }
}

/// Navigating to a page and going back, once the way back has ended, shows
/// the page that was shown before and leaves the history as it was, unless
/// it was to be forgotten; the page that was visited stays opened.
pub proof fn lemma_round_trip(state: StackState, page: StackPage, frame: FrameView)
    requires
        frame.complete(),
    ensures
        ({
            let back = state.navigate(page).go_back().tick(frame);
            &&& back.current_page == state.current_page
            &&& back.history == if state.reset_mode {
                Seq::empty()
            } else {
                state.history
            }
            &&& back.pages.contains_key(page.key)
            &&& forall|key: PageKey| state.pages.contains_key(key) ==> back.pages.contains_key(key)
            &&& !back.transition && !back.going_back && !back.reset_mode
        }),
{
    let back = state.navigate(page).go_back().tick(frame);
    if !state.reset_mode {
        assert(back.history =~= state.history);
    }
}

/// Asking for the history to be forgotten changes nothing in it while the
/// transition in flight goes on: ticks that do not end the transition leave
/// it as it was, and the tick that ends the transition empties it.
pub proof fn lemma_clear_history_is_deferred(state: StackState, frame: FrameView)
    ensures
        state.clear_history().history == state.history,
        !frame.complete() ==> state.clear_history().tick(frame).history == state.history
            && state.clear_history().tick(frame).reset_mode,
        frame.complete() ==> state.clear_history().tick(frame).history == Seq::<PageKey>::empty()
            && !state.clear_history().tick(frame).reset_mode,
{
}

/// Every step keeps a well-formed state well formed and forgets no page
/// that has been opened.
pub proof fn lemma_steps_preserve(state: StackState, page: StackPage, frame: FrameView)
    requires
        state.wf(),
        frame.wf(),
    ensures
        state.navigate(page).wf(),
        state.go_back().wf(),
        state.clear_history().wf(),
        state.pop_history().wf(),
        state.tick(frame).wf(),
        forall|key: PageKey| #[trigger]
            state.pages.contains_key(key) ==> state.navigate(page).pages.contains_key(key),
        state.go_back().pages == state.pages,
        state.clear_history().pages == state.pages,
        state.pop_history().pages == state.pages,
        state.tick(frame).pages == state.pages,
{
    frame.lemma_value_bounds();
    assert forall|i: int| 0 <= i < state.navigate(page).history.len() implies state.navigate(
        page,
    ).pages.contains_key(#[trigger] state.navigate(page).history[i]) by {
        if i < state.history.len() {
            assert(state.pages.contains_key(state.history[i]));
        }
    }
    if state.history.len() > 0 {
        assert(state.pages.contains_key(state.history[state.history.len() - 1]));
    }
    assert forall|i: int| 0 <= i < state.tick(frame).history.len() implies state.tick(
        frame,
    ).pages.contains_key(#[trigger] state.tick(frame).history[i]) by {
        assert(state.pages.contains_key(state.history[i]));
    }
    assert forall|i: int| 0 <= i < state.pop_history().history.len() implies state.pop_history().pages.contains_key(
         #[trigger] state.pop_history().history[i]) by {
        assert(state.pages.contains_key(state.history[i]));
    }
}

impl StackState {
    /// The state after one completed change of page. A way back is
    /// complete once the tick that ends its transition has settled it.
    pub open spec fn travel(self, step: Travel<StackPage>) -> StackState {
        match step {
            Travel::Forward(page) => self.navigate(page),
            Travel::Back => self.go_back().settled(),
        }
    }

    /// The state after the changes of page in `steps`, in order.
    pub open spec fn travel_all(self, steps: Seq<Travel<StackPage>>) -> StackState
        decreases steps.len(),
    {
        if steps.len() == 0 {
            self
        } else {
            self.travel_all(steps.drop_last()).travel(steps.last())
        }
    }

    /// How many of `steps`, taken from this state, are ways back that find
    /// nothing to return to.
    pub open spec fn idle_backs(self, steps: Seq<Travel<StackPage>>) -> nat
        decreases steps.len(),
    {
        if steps.len() == 0 {
            0
        } else {
            let before = self.travel_all(steps.drop_last());
            let idle: nat = if steps.last() is Back && before.history.len() == 0 {
                1
            } else {
                0
            };
            self.idle_backs(steps.drop_last()) + idle
        }
    }
}

/// The tick that ends a transition settles the state, whatever the value
/// of its frame.
pub proof fn lemma_last_tick_settles(state: StackState, frame: FrameView)
    requires
        frame.complete(),
    ensures
        state.tick(frame) == (StackState { anim_value: frame.value(), ..state.settled() }),
{
}

/// After any run of navigations and completed ways back, the history holds
/// one page for each navigation, less one for each way back that had a page
/// to return to. So where no way back found the history empty, or where the
/// history ends empty, its length is the number of navigations less the
/// number of ways back, and never less than none.
pub proof fn lemma_history_length(state: StackState, steps: Seq<Travel<StackPage>>)
    requires
        !state.reset_mode,
    ensures
        !state.travel_all(steps).reset_mode,
        state.idle_backs(steps) <= backs(steps),
        state.travel_all(steps).history.len() == history_length(
            state.history.len(),
            steps,
            state.idle_backs(steps),
        ),
        state.history.len() == 0 && (state.idle_backs(steps) == 0 || state.travel_all(
            steps,
        ).history.len() == 0) ==> state.travel_all(steps).history.len() == clamped_length(steps),
    decreases steps.len(),
{
    if steps.len() > 0 {
        lemma_history_length(state, steps.drop_last());
    }
}

} // verus!
