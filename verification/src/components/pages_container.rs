//! The layered page container: an ordered list of page layers, each with an
//! identity, a visibility flag, an interaction flag and an animation offset.
//! Later layers are painted on top of earlier ones.
use crate::animation::COMPLETE;
use crate::length::{Length, Size};
use vstd::prelude::*;

verus! {

/// Per-layer parameters of one render pass.
#[derive(Clone, Copy, Debug, PartialEq, Eq, Structural)]
pub struct LayerParams {
    /// Horizontal offset of the layer as a share of the animated width, where
    /// `COMPLETE` is the whole width; `None` for a layer at rest.
    pub offset: Option<i64>,
    /// A hidden layer is not painted.
    pub hidden: bool,
    /// A disabled layer receives no input.
    pub disabled: bool,
}

/// One step of painting: which layer to paint, and how.
#[derive(Clone, Copy, Debug, PartialEq, Eq, Structural)]
pub struct DrawOp {
    /// Position of the layer in the container.
    pub index: usize,
    /// Horizontal translation as a share of the animated width, where
    /// `COMPLETE` is the whole width; `None` paints the layer in place.
    pub offset: Option<i64>,
    /// Whether the background is painted under the layer.
    pub with_background: bool,
    /// Whether the layer is painted in a paint layer of its own, so that what
    /// lies under it is not disturbed.
    pub isolated: bool,
    /// Whether the animated width is the layer's own rather than the
    /// container's.
    pub relative: bool,
}

/// What contracts say of a container: everything but the renderables.
pub struct ContainerView {
    pub width: Length,
    pub height: Length,
    pub ids: Seq<u64>,
    pub params: Seq<LayerParams>,
    pub system_layers: nat,
    pub visible_layers: nat,
    pub no_background_layers: nat,
    pub persistent: bool,
    pub relative: bool,
}

/// Offset of a layer that has travelled `progress` of its way in from the
/// edge: the distance still to go.
pub open spec fn remaining_offset(progress: int) -> int {
    if progress >= COMPLETE {
        progress - COMPLETE
    } else {
        COMPLETE - progress
    }
}

/// Parameters of a layer that was just pushed: at rest, painted, interactive.
pub open spec fn fresh_params() -> LayerParams {
    LayerParams { offset: None, hidden: false, disabled: false }
}

/// The renderables among the items handed to `extend`, in order.
pub open spec fn renderables<T>(items: Seq<(u64, T, Size)>) -> Seq<T> {
    Seq::new(items.len(), |i: int| items[i].1)
}

/// The last position at which `id` occurs in `ids`, if it occurs at all.
pub open spec fn last_position(ids: Seq<u64>, id: u64) -> Option<int>
    decreases ids.len(),
{
    if ids.len() == 0 {
        None
    } else if ids.last() == id {
        Some(ids.len() - 1)
    } else {
        last_position(ids.drop_last(), id)
    }
}

/// `last_position` finds an occurrence after which there is no other, and
/// finds nothing only where there is none.
pub proof fn lemma_last_position(ids: Seq<u64>, id: u64)
    ensures
        match last_position(ids, id) {
            Some(index) => {
                &&& 0 <= index < ids.len()
                &&& ids[index] == id
                &&& forall|j: int| index < j < ids.len() ==> ids[j] != id
            },
            None => forall|j: int| 0 <= j < ids.len() ==> ids[j] != id,
        },
    decreases ids.len(),
{
    if ids.len() > 0 && ids.last() != id {
        lemma_last_position(ids.drop_last(), id);
        assert forall|j: int| 0 <= j < ids.len() - 1 implies ids[j] == ids.drop_last()[j] by {}
    }
}

/// Finds the last position at which `id` occurs in `ids`.
pub fn find_last(ids: &Vec<u64>, id: u64) -> (found: Option<usize>)
    ensures
        match found {
            Some(index) => last_position(ids@, id) == Some(index as int),
            None => last_position(ids@, id) is None,
        },
{
    let mut rest: usize = ids.len();
    proof {
        assert(ids@.subrange(0, rest as int) =~= ids@);
    }
    while rest > 0
        invariant
            rest <= ids.len(),
            last_position(ids@, id) == last_position(ids@.subrange(0, rest as int), id),
        decreases rest,
    {
        let ghost prefix = ids@.subrange(0, rest as int);
        rest = rest - 1;
        proof {
            assert(prefix.drop_last() =~= ids@.subrange(0, rest as int));
            assert(prefix.last() == ids@[rest as int]);
        }
        if ids[rest] == id {
            return Some(rest);
        }
    }
    proof {
        assert(ids@.subrange(0, 0).len() == 0);
    }
    None
}

/// Where retained state moves when the page layers change from `previous`
/// to `ids`, given that state follows identities: the slot that moves, and
/// the position it moves to.
pub enum Elevation {
    /// Layers were taken off, and the layer that was on top is still there:
    /// its slot moves down to where that layer now lies.
    Lower { to: int },
    /// Layers were put on, and the layer now on top was there before: its
    /// slot moves up to the top, leaving a blank slot behind.
    Raise { from: int },
    /// Every slot stays where it is.
    Keep,
}

/// Decides what moves when the page layers change from `previous` to `ids`.
pub open spec fn elevation(ids: Seq<u64>, previous: Seq<u64>) -> Elevation {
    if previous.len() > ids.len() {
        match last_position(ids, previous.last()) {
            Some(index) => Elevation::Lower { to: index },
            None => Elevation::Keep,
        }
    } else if previous.len() < ids.len() {
        match last_position(previous, ids.last()) {
            Some(index) => Elevation::Raise { from: index },
            None => Elevation::Keep,
        }
    } else {
        Elevation::Keep
    }
}

impl ContainerView {
    /// A container without layers: it fills the room it is given, paints
    /// its two topmost layers and matches retained state by position.
    pub open spec fn empty() -> ContainerView {
        ContainerView {
            width: Length::Fill,
            height: Length::Fill,
            ids: Seq::empty(),
            params: Seq::empty(),
            system_layers: 0,
            visible_layers: 2,
            no_background_layers: 0,
            persistent: false,
            relative: false,
        }
    }

    /// Number of layers.
    pub open spec fn len(self) -> nat {
        self.ids.len()
    }

    /// A container always holds as many parameter sets as layers.
    pub open spec fn wf(self) -> bool {
        self.params.len() == self.ids.len()
    }

    /// This container with the parameters of layer `index` replaced.
    pub open spec fn with_params(self, index: int, params: LayerParams) -> ContainerView {
        ContainerView { params: self.params.update(index, params), ..self }
    }

    /// This container with one more layer on top. The first layer lends the
    /// container its fluidity where the container would shrink.
    pub open spec fn pushed(self, id: u64, size_hint: Size) -> ContainerView {
        ContainerView {
            width: if self.ids.len() == 0 {
                self.width.enclose_spec(size_hint.width)
            } else {
                self.width
            },
            height: if self.ids.len() == 0 {
                self.height.enclose_spec(size_hint.height)
            } else {
                self.height
            },
            ids: self.ids.push(id),
            params: self.params.push(fresh_params()),
            ..self
        }
    }

    /// This container with a layer put on top for each of `items`, in order.
    pub open spec fn pushed_all<T>(self, items: Seq<(u64, T, Size)>) -> ContainerView
        decreases items.len(),
    {
        if items.len() == 0 {
            self
        } else {
            self.pushed(items[0].0, items[0].2).pushed_all(items.drop_first())
        }
    }

    /// Position of the lowest layer that may be painted: only the topmost
    /// `visible_layers` layers are.
    pub open spec fn first_painted(self) -> int {
        if self.ids.len() >= self.visible_layers {
            self.ids.len() - self.visible_layers
        } else {
            0
        }
    }

    /// Whether layer `index` is painted.
    pub open spec fn paints(self, index: int) -> bool {
        self.first_painted() <= index < self.ids.len() && !self.params[index].hidden
    }

    /// How layer `index` is painted. The lowest layer is painted straight
    /// onto the surface, and the topmost `no_background_layers` layers go
    /// without a background.
    pub open spec fn draw_op(self, index: int) -> DrawOp {
        DrawOp {
            index: index as usize,
            offset: self.params[index].offset,
            with_background: index < self.ids.len() - self.no_background_layers,
            isolated: index > 0,
            relative: self.relative,
        }
    }

    /// Whether `plan` paints exactly the painted layers, each once and as
    /// `draw_op` says, from the bottom up.
    pub open spec fn is_draw_plan(self, plan: Seq<DrawOp>) -> bool {
        &&& forall|k: int|
            0 <= k < plan.len() ==> self.paints(#[trigger] plan[k].index as int) && plan[k]
                == self.draw_op(plan[k].index as int)
        &&& forall|j: int, k: int|
            0 <= j < k < plan.len() ==> (#[trigger] plan[j]).index < (#[trigger] plan[k]).index
        &&& forall|index: int| #[trigger]
            self.paints(index) ==> exists|k: int|
                0 <= k < plan.len() && (#[trigger] plan[k]).index == index
    }

    /// Whether layer `index` takes part in input handling.
    pub open spec fn interactive(self, index: int) -> bool {
        0 <= index < self.ids.len() && !self.params[index].disabled
    }

    /// Whether `order` lists exactly the interactive layers, each once, from
    /// the top down.
    pub open spec fn is_input_order(self, order: Seq<usize>) -> bool {
        &&& forall|k: int| 0 <= k < order.len() ==> self.interactive(#[trigger] order[k] as int)
        &&& forall|j: int, k: int|
            0 <= j < k < order.len() ==> #[trigger] order[j] > #[trigger] order[k]
        &&& forall|index: int| #[trigger]
            self.interactive(index) ==> exists|k: int|
                0 <= k < order.len() && #[trigger] order[k] == index
    }

    /// The identities of the page layers: those of all layers but the
    /// topmost `system_layers`.
    pub open spec fn page_ids(self) -> Seq<u64> {
        self.ids.subrange(0, self.ids.len() - self.system_layers)
    }

    /// Whether retained state is matched by identity against `previous`.
    /// Fewer than two page layers, or a first pass, leave nothing to match.
    pub open spec fn matches_by_id(self, previous: Option<Seq<u64>>) -> bool {
        self.persistent && self.page_ids().len() >= 2 && previous is Some
    }

    /// What moves among the retained slots in a pass after `previous`.
    pub open spec fn elevates(self, previous: Option<Seq<u64>>) -> Elevation {
        if self.matches_by_id(previous) {
            elevation(self.page_ids(), previous->0)
        } else {
            Elevation::Keep
        }
    }

    /// Whether `slots` retained slots are enough for the move that a pass
    /// after `previous` makes.
    pub open spec fn can_reconcile(self, previous: Option<Seq<u64>>, slots: nat) -> bool {
        &&& self.system_layers <= self.ids.len()
        &&& match self.elevates(previous) {
            Elevation::Lower { to } => previous->0.len() <= slots,
            Elevation::Raise { from } => from < slots && self.page_ids().len() <= slots + 1,
            Elevation::Keep => true,
        }
    }

    /// The retained slots after a pass that follows `previous`. A blank slot
    /// is a copy of `filler`.
    pub open spec fn reconciled<S>(
        self,
        previous: Option<Seq<u64>>,
        slots: Seq<S>,
        filler: S,
    ) -> Seq<S> {
        match self.elevates(previous) {
            Elevation::Lower { to } => {
                let top = previous->0.len() - 1;
                slots.remove(top).update(to, slots[top])
            },
            Elevation::Raise { from } => slots.update(from, filler).insert(
                self.page_ids().len() - 1,
                slots[from],
            ),
            Elevation::Keep => slots,
        }
    }
}

/// A stack of page layers over renderables of type `T`.
pub struct PagesContainer<T> {
    width: Length,
    height: Length,
    ids: Vec<u64>,
    children: Vec<T>,
    params: Vec<LayerParams>,
    system_layers: usize,
    visible_layers: usize,
    no_background_layers: usize,
    persistent_mode: bool,
    relative_mode: bool,
}

impl<T> View for PagesContainer<T> {
    type V = ContainerView;

    closed spec fn view(&self) -> ContainerView {
        ContainerView {
            width: self.width,
            height: self.height,
            ids: self.ids@,
            params: self.params@,
            system_layers: self.system_layers as nat,
            visible_layers: self.visible_layers as nat,
            no_background_layers: self.no_background_layers as nat,
            persistent: self.persistent_mode,
            relative: self.relative_mode,
        }
    }
}

impl<T> PagesContainer<T> {
    #[verifier::type_invariant]
    spec fn aligned(self) -> bool {
        self.ids.len() == self.children.len() && self.params.len() == self.children.len()
    }

    /// The renderables of the layers, bottom first.
    pub closed spec fn contents(&self) -> Seq<T> {
        self.children@
    }

    /// A container without layers.
    pub fn new() -> (container: Self)
        ensures
            container@ == ContainerView::empty(),
            container.contents() == Seq::<T>::empty(),
            container@.wf(),
    {
        PagesContainer {
            width: Length::Fill,
            height: Length::Fill,
            ids: Vec::new(),
            children: Vec::new(),
            params: Vec::new(),
            system_layers: 0,
            visible_layers: 2,
            no_background_layers: 0,
            persistent_mode: false,
            relative_mode: false,
        }
    }

    /// Number of layers.
    pub fn len(&self) -> (n: usize)
        ensures
            n == self@.len(),
            self@.wf(),
            self.contents().len() == n,
    {
        proof {
            use_type_invariant(self);
        }
        self.ids.len()
    }

    /// The sizing strategy of the container.
    pub fn size(&self) -> (size: Size)
        ensures
            size == (Size { width: self@.width, height: self@.height }),
    {
        Size { width: self.width, height: self.height }
    }

    /// How many of the topmost layers are painted.
    pub fn visible_count(&self) -> (count: usize)
        ensures
            count == self@.visible_layers,
    {
        self.visible_layers
    }

    /// How many of the topmost layers belong to the navigator itself.
    pub fn system_count(&self) -> (count: usize)
        ensures
            count == self@.system_layers,
    {
        self.system_layers
    }

    /// How many of the topmost layers are painted without a background.
    pub fn no_background_count(&self) -> (count: usize)
        ensures
            count == self@.no_background_layers,
    {
        self.no_background_layers
    }

    /// Whether retained state follows layer identities.
    pub fn is_persistent(&self) -> (persistent: bool)
        ensures
            persistent == self@.persistent,
    {
        self.persistent_mode
    }

    /// Whether each layer is animated across its own width.
    pub fn is_relative(&self) -> (relative: bool)
        ensures
            relative == self@.relative,
    {
        self.relative_mode
    }

    /// The identity of layer `index`.
    pub fn id_at(&self, index: usize) -> (id: u64)
        requires
            index < self@.len(),
        ensures
            id == self@.ids[index as int],
    {
        self.ids[index]
    }

    /// The renderables of the layers, bottom first.
    pub fn children(&self) -> (children: &Vec<T>)
        ensures
            children@ == self.contents(),
    {
        &self.children
    }

    /// The renderable of layer `index`, to be changed in place.
    pub fn child_mut(&mut self, index: usize) -> (child: &mut T)
        requires
            index < old(self)@.len(),
        ensures
            *child == old(self).contents()[index as int],
            final(self)@ == old(self)@,
            final(self).contents() == old(self).contents().update(index as int, *final(child)),
    {
        proof {
            use_type_invariant(&*self);
        }
        &mut self.children[index]
    }

    /// The parameters of layer `index`.
    pub fn params_at(&self, index: usize) -> (params: LayerParams)
        requires
            index < self@.len(),
        ensures
            params == self@.params[index as int],
    {
        proof {
            use_type_invariant(self);
        }
        self.params[index]
    }

    /// Replaces the parameters of layer `index`.
    fn with_layer(self, index: usize, params: LayerParams) -> (container: Self)
        requires
            index < self@.len(),
        ensures
            container@ == self@.with_params(index as int, params),
            container.contents() == self.contents(),
    {
        proof {
            use_type_invariant(&self);
        }
        let PagesContainer {
            width,
            height,
            ids,
            children,
            params: all,
            system_layers,
            visible_layers,
            no_background_layers,
            persistent_mode,
            relative_mode,
        } = self;
        let mut all = all;
        all.set(index, params);
        PagesContainer {
            width,
            height,
            ids,
            children,
            params: all,
            system_layers,
            visible_layers,
            no_background_layers,
            persistent_mode,
            relative_mode,
        }
    }

    /// Replaces the width.
    pub fn width(self, width: Length) -> (container: Self)
        ensures
            container@ == (ContainerView { width, ..self@ }),
            container.contents() == self.contents(),
    {
        proof {
            use_type_invariant(&self);
        }
        let mut container = self;
        container.width = width;
        container
    }

    /// Replaces the height.
    pub fn height(self, height: Length) -> (container: Self)
        ensures
            container@ == (ContainerView { height, ..self@ }),
            container.contents() == self.contents(),
    {
        proof {
            use_type_invariant(&self);
        }
        let mut container = self;
        container.height = height;
        container
    }

    /// Hides layer `index`, or shows it again; its other parameters stay.
    pub fn hide_at(self, index: usize, hidden: bool) -> (container: Self)
        requires
            index < self@.len(),
        ensures
            container@ == self@.with_params(
                index as int,
                LayerParams { hidden, ..self@.params[index as int] },
            ),
            container.contents() == self.contents(),
    {
        let current: LayerParams = self.params_at(index);
        self.with_layer(index, LayerParams { hidden, ..current })
    }

    /// Hides or shows the topmost layer.
    pub fn hide_last(self, hidden: bool) -> (container: Self)
        requires
            self@.len() > 0,
        ensures
            container@ == self@.with_params(
                self@.len() - 1,
                LayerParams { hidden, ..self@.params[self@.len() - 1] },
            ),
            container.contents() == self.contents(),
    {
        let index: usize = self.len() - 1;
        self.hide_at(index, hidden)
    }

    /// Keeps input away from layer `index`, or lets it through again.
    pub fn disable(self, index: usize, disabled: bool) -> (container: Self)
        requires
            index < self@.len(),
        ensures
            container@ == self@.with_params(
                index as int,
                LayerParams { disabled, ..self@.params[index as int] },
            ),
            container.contents() == self.contents(),
    {
        let current: LayerParams = self.params_at(index);
        self.with_layer(index, LayerParams { disabled, ..current })
    }

    /// Keeps input away from the topmost layer, or lets it through again.
    pub fn disable_last(self, disabled: bool) -> (container: Self)
        requires
            self@.len() > 0,
        ensures
            container@ == self@.with_params(
                self@.len() - 1,
                LayerParams { disabled, ..self@.params[self@.len() - 1] },
            ),
            container.contents() == self.contents(),
    {
        let index: usize = self.len() - 1;
        self.disable(index, disabled)
    }

    /// Sets the offset of layer `index` from how far it has travelled in from
    /// the edge: the offset is the distance still to go.
    pub fn progress(self, index: usize, progress: Option<i32>) -> (container: Self)
        requires
            index < self@.len(),
        ensures
            container@ == self@.with_params(
                index as int,
                LayerParams {
                    offset: match progress {
                        Some(value) => Some(remaining_offset(value as int) as i64),
                        None => None,
                    },
                    ..self@.params[index as int]
                },
            ),
            container.contents() == self.contents(),
    {
        let current: LayerParams = self.params_at(index);
        let offset: Option<i64> = match progress {
            Some(value) => {
                let wide: i64 = value as i64;
                let full: i64 = COMPLETE as i64;
                if wide >= full {
                    Some(wide - full)
                } else {
                    Some(full - wide)
                }
            },
            None => None,
        };
        self.with_layer(index, LayerParams { offset, ..current })
    }

    /// Sets the offset of the topmost layer from how far it has travelled.
    pub fn progress_last(self, progress: Option<i32>) -> (container: Self)
        requires
            self@.len() > 0,
        ensures
            container@ == self@.with_params(
                self@.len() - 1,
                LayerParams {
                    offset: match progress {
                        Some(value) => Some(remaining_offset(value as int) as i64),
                        None => None,
                    },
                    ..self@.params[self@.len() - 1]
                },
            ),
            container.contents() == self.contents(),
    {
        let index: usize = self.len() - 1;
        self.progress(index, progress)
    }

    /// Sets the offset of layer `index` directly.
    pub fn n_progress(self, index: usize, progress: Option<i32>) -> (container: Self)
        requires
            index < self@.len(),
        ensures
            container@ == self@.with_params(
                index as int,
                LayerParams {
                    offset: match progress {
                        Some(value) => Some(value as i64),
                        None => None,
                    },
                    ..self@.params[index as int]
                },
            ),
            container.contents() == self.contents(),
    {
        let current: LayerParams = self.params_at(index);
        let offset: Option<i64> = match progress {
            Some(value) => Some(value as i64),
            None => None,
        };
        self.with_layer(index, LayerParams { offset, ..current })
    }

    /// Sets the offset of the topmost layer directly.
    pub fn n_progress_last(self, progress: Option<i32>) -> (container: Self)
        requires
            self@.len() > 0,
        ensures
            container@ == self@.with_params(
                self@.len() - 1,
                LayerParams {
                    offset: match progress {
                        Some(value) => Some(value as i64),
                        None => None,
                    },
                    ..self@.params[self@.len() - 1]
                },
            ),
            container.contents() == self.contents(),
    {
        let index: usize = self.len() - 1;
        self.n_progress(index, progress)
    }

    /// Chooses whether retained state follows layer identities rather than
    /// positions.
    pub fn persist(self, persist: bool) -> (container: Self)
        ensures
            container@ == (ContainerView { persistent: persist, ..self@ }),
            container.contents() == self.contents(),
    {
        proof {
            use_type_invariant(&self);
        }
        let mut container = self;
        container.persistent_mode = persist;
        container
    }

    /// Chooses whether each layer is animated across its own width rather
    /// than across the container's.
    pub fn relative_anim(self, relative: bool) -> (container: Self)
        ensures
            container@ == (ContainerView { relative, ..self@ }),
            container.contents() == self.contents(),
    {
        proof {
            use_type_invariant(&self);
        }
        let mut container = self;
        container.relative_mode = relative;
        container
    }

    /// Sets how many of the topmost layers are painted.
    pub fn visible_layers(self, number: usize) -> (container: Self)
        ensures
            container@ == (ContainerView { visible_layers: number as nat, ..self@ }),
            container.contents() == self.contents(),
    {
        proof {
            use_type_invariant(&self);
        }
        let mut container = self;
        container.visible_layers = number;
        container
    }

    /// Sets how many of the topmost layers belong to the navigator itself
    /// rather than to pages.
    pub fn system_layers(self, number: usize) -> (container: Self)
        ensures
            container@ == (ContainerView { system_layers: number as nat, ..self@ }),
            container.contents() == self.contents(),
    {
        proof {
            use_type_invariant(&self);
        }
        let mut container = self;
        container.system_layers = number;
        container
    }

    /// Sets how many of the topmost layers are painted without a background.
    pub fn no_background_layers(self, number: usize) -> (container: Self)
        ensures
            container@ == (ContainerView { no_background_layers: number as nat, ..self@ }),
            container.contents() == self.contents(),
    {
        proof {
            use_type_invariant(&self);
        }
        let mut container = self;
        container.no_background_layers = number;
        container
    }

    /// Puts a layer on top. `size_hint` is the sizing strategy of `child`.
    pub fn push(self, id: u64, child: T, size_hint: Size) -> (container: Self)
        ensures
            container@ == self@.pushed(id, size_hint),
            container.contents() == self.contents().push(child),
    {
        proof {
            use_type_invariant(&self);
        }
        let PagesContainer {
            width,
            height,
            ids,
            children,
            params,
            system_layers,
            visible_layers,
            no_background_layers,
            persistent_mode,
            relative_mode,
        } = self;
        let mut ids = ids;
        let mut children = children;
        let mut params = params;
        let mut width = width;
        let mut height = height;
        if children.len() == 0 {
            width = width.enclose(size_hint.width);
            height = height.enclose(size_hint.height);
        }
        ids.push(id);
        children.push(child);
        params.push(LayerParams { offset: None, hidden: false, disabled: false });
        PagesContainer {
            width,
            height,
            ids,
            children,
            params,
            system_layers,
            visible_layers,
            no_background_layers,
            persistent_mode,
            relative_mode,
        }
    }

    /// Puts a layer on top for each of `items`, in order. Each item is an
    /// identity, a renderable and the renderable's sizing strategy.
    pub fn extend(self, items: Vec<(u64, T, Size)>) -> (container: Self)
        ensures
            container@ == self@.pushed_all(items@),
            container.contents() == self.contents() + renderables(items@),
    {
        let mut container = self;
        let mut rest = items;
        while rest.len() > 0
            invariant
                container@.pushed_all(rest@) == self@.pushed_all(items@),
                container.contents() + renderables(rest@) == self.contents() + renderables(
                    items@,
                ),
            decreases rest.len(),
        {
            let ghost before = rest@;
            let ghost held = container.contents();
            let (id, child, size_hint) = rest.remove(0);
            container = container.push(id, child, size_hint);
            proof {
                assert(rest@ =~= before.drop_first());
                assert(container.contents() + renderables(rest@) =~= held + renderables(before));
            }
        }
        proof {
            assert(container.contents() + renderables(rest@) =~= container.contents());
        }
        container
    }

    /// The painting of one render pass: the steps to take, in order.
    pub fn draw_plan(&self) -> (plan: Vec<DrawOp>)
        requires
            self@.len() == 0 || self@.no_background_layers <= self@.len(),
        ensures
            self@.is_draw_plan(plan@),
    {
        proof {
            use_type_invariant(self);
        }
        let count: usize = self.ids.len();
        let first: usize = if count >= self.visible_layers {
            count - self.visible_layers
        } else {
            0
        };
        let mut plan: Vec<DrawOp> = Vec::new();
        let mut index: usize = first;
        while index < count
            invariant
                first <= index <= count,
                count == self@.len(),
                self@.wf(),
                first == self@.first_painted(),
                self@.len() == 0 || self@.no_background_layers <= self@.len(),
                forall|k: int|
                    0 <= k < plan.len() ==> self@.paints(#[trigger] plan[k].index as int)
                        && plan[k] == self@.draw_op(plan[k].index as int),
                forall|k: int| 0 <= k < plan.len() ==> (#[trigger] plan[k]).index < index,
                forall|j: int, k: int|
                    0 <= j < k < plan.len() ==> (#[trigger] plan[j]).index < (
                    #[trigger] plan[k]).index,
                forall|i: int|
                    i < index && #[trigger] self@.paints(i) ==> exists|k: int|
                        0 <= k < plan.len() && (#[trigger] plan[k]).index == i,
            decreases count - index,
        {
            let layer: LayerParams = self.params[index];
            if !layer.hidden {
                let op = DrawOp {
                    index,
                    offset: layer.offset,
                    with_background: index < count - self.no_background_layers,
                    isolated: index > 0,
                    relative: self.relative_mode,
                };
                let ghost before = plan@;
                plan.push(op);
                proof {
                    assert(plan@[before.len() as int] == op);
                    assert forall|i: int| i < index + 1 && #[trigger] self@.paints(i) implies exists|
                        k: int,
                    | 0 <= k < plan.len() && (#[trigger] plan[k]).index == i by {
                        if i < index {
                            let k = choose|k: int|
                                0 <= k < before.len() && (#[trigger] before[k]).index == i;
                            assert(plan@[k] == before[k]);
                        } else {
                            assert(plan@[before.len() as int].index == i);
                        }
                    }
                }
            }
            index = index + 1;
        }
        plan
    }

    /// The layers that are offered an event or asked for the mouse
    /// interaction, in the order in which they are: the topmost first,
    /// disabled layers left out.
    pub fn input_order(&self) -> (order: Vec<usize>)
        ensures
            self@.is_input_order(order@),
    {
        proof {
            use_type_invariant(self);
        }
        let count: usize = self.ids.len();
        let mut order: Vec<usize> = Vec::new();
        let mut rest: usize = count;
        while rest > 0
            invariant
                rest <= count,
                count == self@.len(),
                self@.wf(),
                forall|k: int| 0 <= k < order.len() ==> self@.interactive(#[trigger] order[k] as int),
                forall|k: int| 0 <= k < order.len() ==> #[trigger] order[k] >= rest,
                forall|j: int, k: int|
                    0 <= j < k < order.len() ==> #[trigger] order[j] > #[trigger] order[k],
                forall|i: int|
                    i >= rest && #[trigger] self@.interactive(i) ==> exists|k: int|
                        0 <= k < order.len() && #[trigger] order[k] == i,
            decreases rest,
        {
            rest = rest - 1;
            let layer: LayerParams = self.params[rest];
            if !layer.disabled {
                let ghost before = order@;
                order.push(rest);
                proof {
                    assert(order@[before.len() as int] == rest);
                    assert forall|i: int| i >= rest && #[trigger] self@.interactive(i) implies exists|
                        k: int,
                    | 0 <= k < order.len() && #[trigger] order[k] == i by {
                        if i > rest {
                            let k = choose|k: int| 0 <= k < before.len() && #[trigger] before[k] == i;
                            assert(order@[k] == before[k]);
                        } else {
                            assert(order@[before.len() as int] == i);
                        }
                    }
                }
            }
        }
        order
    }

    /// The identities of the page layers, to be kept until the next pass.
    pub fn state(&self) -> (ids: Vec<u64>)
        requires
            self@.system_layers <= self@.len(),
        ensures
            ids@ == self@.page_ids(),
    {
        proof {
            use_type_invariant(self);
        }
        let count: usize = self.ids.len() - self.system_layers;
        let mut ids: Vec<u64> = Vec::new();
        let mut index: usize = 0;
        while index < count
            invariant
                index <= count,
                count == self@.len() - self@.system_layers,
                ids@ == self@.ids.subrange(0, index as int),
            decreases count - index,
        {
            ids.push(self.ids[index]);
            index = index + 1;
            proof {
                assert(ids@ =~= self@.ids.subrange(0, index as int));
            }
        }
        ids
    }

    /// Whether `slots` retained slots are enough for `diff` after a pass
    /// with the page identities `previous`.
    pub fn can_diff(&self, previous: Option<&Vec<u64>>, slots: usize) -> (fits: bool)
        ensures
            fits == self@.can_reconcile(
                match previous {
                    Some(before) => Some(before@),
                    None => None,
                },
                slots as nat,
            ),
    {
        proof {
            use_type_invariant(self);
        }
        if self.system_layers > self.ids.len() {
            return false;
        }
        let ids: Vec<u64> = self.state();
        let count: usize = ids.len();
        if count < 2 || !self.persistent_mode {
            return true;
        }
        let before: &Vec<u64> = match previous {
            Some(before) => before,
            None => {
                return true;
            },
        };
        if before.len() > count {
            match find_last(&ids, before[before.len() - 1]) {
                Some(_) => before.len() <= slots,
                None => true,
            }
        } else if before.len() != count {
            match find_last(before, ids[count - 1]) {
                Some(index) => index < slots && count - 1 <= slots,
                None => true,
            }
        } else {
            true
        }
    }

    /// Prepares the retained slots for this pass, given the page identities
    /// of the pass before, and returns those of this pass. Where state
    /// follows identities, the slot of a layer that came to the top, or that
    /// was uncovered, moves with its layer instead of being made anew.
    pub fn diff<S>(&self, slots: &mut Vec<S>, previous: Option<&Vec<u64>>, filler: S) -> (ids: Vec<
        u64,
    >)
        requires
            self@.can_reconcile(
                match previous {
                    Some(before) => Some(before@),
                    None => None,
                },
                old(slots)@.len(),
            ),
        ensures
            ids@ == self@.page_ids(),
            final(slots)@ == self@.reconciled(
                match previous {
                    Some(before) => Some(before@),
                    None => None,
                },
                old(slots)@,
                filler,
            ),
    {
        let ids: Vec<u64> = self.state();
        let count: usize = ids.len();
        if count < 2 || !self.persistent_mode {
            return ids;
        }
        let before: &Vec<u64> = match previous {
            Some(before) => before,
            None => {
                return ids;
            },
        };
        if before.len() > count {
            let top: usize = before.len() - 1;
            match find_last(&ids, before[top]) {
                Some(index) => {
                    proof {
                        lemma_last_position(ids@, before@[top as int]);
                    }
                    let element = slots.remove(top);
                    slots.set(index, element);
                },
                None => {},
            }
        } else if before.len() != count {
            match find_last(before, ids[count - 1]) {
                Some(index) => {
                    proof {
                        lemma_last_position(before@, ids@[count - 1]);
                    }
                    slots.push(filler);
                    let element = slots.swap_remove(index);
                    slots.insert(count - 1, element);
                    proof {
                        assert(slots@ =~= old(slots)@.update(index as int, filler).insert(
                            count - 1,
                            old(slots)@[index as int],
                        ));
                    }
                },
                None => {},
            }
        }
        ids
    }
}

/// Two strictly increasing sequences with the same members are equal.
proof fn lemma_increasing_unique(a: Seq<int>, b: Seq<int>)
    requires
        forall|i: int, j: int| 0 <= i < j < a.len() ==> a[i] < a[j],
        forall|i: int, j: int| 0 <= i < j < b.len() ==> b[i] < b[j],
        forall|x: int| a.contains(x) <==> b.contains(x),
    ensures
        a == b,
    decreases a.len(),
{
    if a.len() == 0 {
        if b.len() > 0 {
            assert(b.contains(b[0]));
            assert(a.contains(b[0]));
        }
        assert(a =~= b);
    } else if b.len() == 0 {
        assert(a.contains(a[0]));
        assert(b.contains(a[0]));
    } else {
        let top_a = a.last();
        let top_b = b.last();
        assert(a.contains(top_a));
        assert(b.contains(top_a));
        assert(b.contains(top_b));
        assert(a.contains(top_b));
        let ka = choose|k: int| 0 <= k < a.len() && a[k] == top_b;
        let kb = choose|k: int| 0 <= k < b.len() && b[k] == top_a;
        assert(top_a == top_b);
        let shorter_a = a.drop_last();
        let shorter_b = b.drop_last();
        assert forall|x: int| shorter_a.contains(x) <==> shorter_b.contains(x) by {
            if shorter_a.contains(x) {
                let i = choose|i: int| 0 <= i < shorter_a.len() && shorter_a[i] == x;
                assert(a[i] == x);
                assert(a.contains(x));
                let j = choose|j: int| 0 <= j < b.len() && b[j] == x;
                assert(x < top_a);
                assert(shorter_b[j] == x);
            }
            if shorter_b.contains(x) {
                let i = choose|i: int| 0 <= i < shorter_b.len() && shorter_b[i] == x;
                assert(b[i] == x);
                assert(b.contains(x));
                let j = choose|j: int| 0 <= j < a.len() && a[j] == x;
                assert(x < top_b);
                assert(shorter_a[j] == x);
            }
        }
        lemma_increasing_unique(shorter_a, shorter_b);
        assert(a =~= shorter_a.push(top_a));
        assert(b =~= shorter_b.push(top_b));
    }
}

/// A container has one draw plan only: what `draw_plan` promises leaves no
/// choice.
pub proof fn lemma_draw_plan_unique(container: ContainerView, first: Seq<DrawOp>, second: Seq<DrawOp>)
    requires
        container.is_draw_plan(first),
        container.is_draw_plan(second),
    ensures
        first == second,
{
    let a = Seq::new(first.len(), |k: int| first[k].index as int);
    let b = Seq::new(second.len(), |k: int| second[k].index as int);
    assert forall|x: int| a.contains(x) <==> b.contains(x) by {
        if a.contains(x) {
            let i = choose|i: int| 0 <= i < a.len() && a[i] == x;
            assert(container.paints(first[i].index as int));
            let k = choose|k: int| 0 <= k < second.len() && (#[trigger] second[k]).index == x;
            assert(b[k] == x);
        }
        if b.contains(x) {
            let i = choose|i: int| 0 <= i < b.len() && b[i] == x;
            assert(container.paints(second[i].index as int));
            let k = choose|k: int| 0 <= k < first.len() && (#[trigger] first[k]).index == x;
            assert(a[k] == x);
        }
    }
    lemma_increasing_unique(a, b);
    assert forall|k: int| 0 <= k < first.len() implies first[k] == second[k] by {
        assert(a[k] == b[k]);
    }
    assert(first =~= second);
}

/// A container has one input order only: what `input_order` promises
/// leaves no choice.
pub proof fn lemma_input_order_unique(
    container: ContainerView,
    first: Seq<usize>,
    second: Seq<usize>,
)
    requires
        container.is_input_order(first),
        container.is_input_order(second),
    ensures
        first == second,
{
    let n = first.len() as int;
    let m = second.len() as int;
    let a = Seq::new(first.len(), |k: int| first[n - 1 - k] as int);
    let b = Seq::new(second.len(), |k: int| second[m - 1 - k] as int);
    assert forall|x: int| a.contains(x) <==> b.contains(x) by {
        if a.contains(x) {
            let i = choose|i: int| 0 <= i < a.len() && a[i] == x;
            assert(container.interactive(first[n - 1 - i] as int));
            let k = choose|k: int| 0 <= k < second.len() && #[trigger] second[k] == x;
            assert(b[m - 1 - k] == x);
        }
        if b.contains(x) {
            let i = choose|i: int| 0 <= i < b.len() && b[i] == x;
            assert(container.interactive(second[m - 1 - i] as int));
            let k = choose|k: int| 0 <= k < first.len() && #[trigger] first[k] == x;
            assert(a[n - 1 - k] == x);
        }
    }
    lemma_increasing_unique(a, b);
    assert forall|k: int| 0 <= k < first.len() implies first[k] == second[k] by {
        assert(a[n - 1 - k] == b[m - 1 - k]);
    }
    assert(first =~= second);
}

/// Putting a layer with a new identity on top of the page layers of the
/// pass before leaves every retained slot where it was, so each layer below
/// keeps the state it had, whether or not state follows identities.
pub proof fn lemma_new_layer_keeps_slots<S>(
    container: ContainerView,
    previous: Seq<u64>,
    id: u64,
    slots: Seq<S>,
    filler: S,
)
    requires
        container.page_ids() == previous.push(id),
        !previous.contains(id),
    ensures
        container.reconciled(Some(previous), slots, filler) == slots,
{
    lemma_last_position(previous, id);
    assert(previous.push(id).last() == id);
}

/// Where a layer that was there before comes to the top, the topmost page
/// slot after the pass is the slot that layer had, and the slots below its
/// old position stay where they were.
pub proof fn lemma_raised_layer_keeps_state<S>(
    container: ContainerView,
    previous: Seq<u64>,
    slots: Seq<S>,
    filler: S,
)
    requires
        container.can_reconcile(Some(previous), slots.len()),
        container.elevates(Some(previous)) is Raise,
    ensures
        ({
            let from = container.elevates(Some(previous))->from;
            let after = container.reconciled(Some(previous), slots, filler);
            let top = container.page_ids().len() - 1;
            &&& 0 <= from < previous.len()
            &&& previous[from] == container.page_ids()[top]
            &&& after.len() == slots.len() + 1
            &&& after[top] == slots[from]
            &&& forall|i: int| 0 <= i < from ==> after[i] == slots[i]
        }),
{
    lemma_last_position(previous, container.page_ids().last());
}

/// An empty container.
pub fn pages_container<T>() -> (container: PagesContainer<T>)
    ensures
        container@ == ContainerView::empty(),
        container.contents() == Seq::<T>::empty(),
{
    PagesContainer::new()
}

/// How far an event has come on its way down the layers.
#[derive(Debug, Clone, Copy, PartialEq, Eq, Structural)]
pub struct EventPass {
    /// Whether the event is a scroll with the cursor over the container.
    pub over_scroll: bool,
    /// Whether the layers still to come may see the cursor.
    pub cursor_available: bool,
    /// Whether a layer has captured the event.
    pub captured: bool,
}

impl EventPass {
    /// The pass of an event before any layer has seen it.
    pub fn new(is_scroll: bool, cursor_over: bool, cursor_available: bool) -> (pass: Self)
        ensures
            pass == (EventPass {
                over_scroll: is_scroll && cursor_over,
                cursor_available,
                captured: false,
            }),
    {
        EventPass { over_scroll: is_scroll && cursor_over, cursor_available, captured: false }
    }

    /// Whether the next layer is offered the event: none is once a layer
    /// has captured it.
    pub fn goes_on(&self) -> (more: bool)
        ensures
            more == !self.captured,
    {
        !self.captured
    }

    /// Whether a layer that has just been offered the event is asked for
    /// its mouse interaction: only for a scroll over the container, and only
    /// while the cursor is still to be seen.
    pub fn asks_interaction(&self) -> (asks: bool)
        ensures
            asks == (self.over_scroll && self.cursor_available),
    {
        self.over_scroll && self.cursor_available
    }

    /// The pass after a layer has been offered the event. `captured` says
    /// whether the layer captured it. `interacts` says whether the layer
    /// shows a mouse interaction, and counts only where it was asked: such
    /// a layer keeps the cursor from the layers below.
    pub open spec fn after(self, captured: bool, interacts: bool) -> EventPass {
        EventPass {
            over_scroll: self.over_scroll,
            cursor_available: self.cursor_available && !(self.over_scroll && interacts),
            captured,
        }
    }

    /// Records what a layer did with the event.
    pub fn record(&mut self, captured: bool, interacts: bool)
        requires
            !old(self).captured,
        ensures
            *final(self) == old(self).after(captured, interacts),
    {
        if self.over_scroll && self.cursor_available && interacts {
            self.cursor_available = false;
        }
        self.captured = captured;
    }
}

} // verus!
