//! A wrapper around one page of a stack that carries the page's own
//! visibility, interaction and animation offset.
use crate::animation::COMPLETE;
use crate::components::pages_container::remaining_offset;
use vstd::prelude::*;

verus! {

/// What contracts say of a wrapper: everything but the renderable.
pub struct WrapperView {
    /// Horizontal offset as a share of the width, where `COMPLETE` is the
    /// whole width.
    pub progress: int,
    /// Whether the page takes input.
    pub active: bool,
    /// Whether the page takes part in an animation.
    pub animated: bool,
    /// Whether the page is left unpainted.
    pub hidden: bool,
}

impl WrapperView {
    /// This wrapper after an offset was offered: a page that is not
    /// animated keeps the offset it has.
    pub open spec fn moved(self, offset: int) -> WrapperView {
        if self.animated {
            WrapperView { progress: offset, ..self }
        } else {
            self
        }
    }
}

/// One page of a stack, wrapped.
pub struct StackPageWrapper<T> {
    content: T,
    progress: i64,
    active: bool,
    animated: bool,
    hidden: bool,
}

impl<T> View for StackPageWrapper<T> {
    type V = WrapperView;

    closed spec fn view(&self) -> WrapperView {
        WrapperView {
            progress: self.progress as int,
            active: self.active,
            animated: self.animated,
            hidden: self.hidden,
        }
    }
}

impl<T> StackPageWrapper<T> {
    /// The renderable.
    pub closed spec fn content(&self) -> T {
        self.content
    }

    /// A page at rest: painted, interactive, not animated.
    pub fn new(content: T) -> (wrapper: Self)
        ensures
            wrapper@ == (WrapperView { progress: 0, active: true, animated: false, hidden: false }),
            wrapper.content() == content,
    {
        StackPageWrapper { active: true, hidden: false, animated: false, progress: 0, content }
    }

    /// Lets input through to the page, or keeps it away.
    pub fn active(self, active: bool) -> (wrapper: Self)
        ensures
            wrapper@ == (WrapperView { active, ..self@ }),
            wrapper.content() == self.content(),
    {
        let mut wrapper = self;
        wrapper.active = active;
        wrapper
    }

    /// Leaves the page unpainted, or paints it again.
    pub fn hidden(self, hidden: bool) -> (wrapper: Self)
        ensures
            wrapper@ == (WrapperView { hidden, ..self@ }),
            wrapper.content() == self.content(),
    {
        let mut wrapper = self;
        wrapper.hidden = hidden;
        wrapper
    }

    /// Lets the page take part in an animation, or not.
    pub fn animated(self, animated: bool) -> (wrapper: Self)
        ensures
            wrapper@ == (WrapperView { animated, ..self@ }),
            wrapper.content() == self.content(),
    {
        let mut wrapper = self;
        wrapper.animated = animated;
        wrapper
    }

    /// Sets the offset from how far the page has travelled in from the
    /// edge: the offset is the distance still to go. A page that is not
    /// animated stays where it is.
    pub fn progress(self, progress: i32) -> (wrapper: Self)
        ensures
            wrapper@ == self@.moved(remaining_offset(progress as int)),
            wrapper.content() == self.content(),
    {
        if !self.animated {
            return self;
        }
        let wide: i64 = progress as i64;
        let full: i64 = COMPLETE as i64;
        let mut wrapper = self;
        wrapper.progress = if wide >= full {
            wide - full
        } else {
            full - wide
        };
        wrapper
    }

    /// Sets the offset directly. A page that is not animated stays where
    /// it is.
    pub fn n_progress(self, progress: i32) -> (wrapper: Self)
        ensures
            wrapper@ == self@.moved(progress as int),
            wrapper.content() == self.content(),
    {
        if !self.animated {
            return self;
        }
        let mut wrapper = self;
        wrapper.progress = progress as i64;
        wrapper
    }

    /// Whether the page is painted.
    pub fn is_painted(&self) -> (painted: bool)
        ensures
            painted == !self@.hidden,
    {
        !self.hidden
    }

    /// Whether the page takes input.
    pub fn is_active(&self) -> (active: bool)
        ensures
            active == self@.active,
    {
        self.active
    }

    /// The horizontal offset at which the page is painted.
    pub fn offset(&self) -> (offset: i64)
        ensures
            offset == self@.progress,
    {
        self.progress
    }

    /// The renderable.
    pub fn child(&self) -> (child: &T)
        ensures
            *child == self.content(),
    {
        &self.content
    }

    /// This wrapper around another renderable.
    pub fn with_content<U>(self, content: U) -> (wrapper: StackPageWrapper<U>)
        ensures
            wrapper@ == self@,
            wrapper.content() == content,
    {
        StackPageWrapper {
            content,
            progress: self.progress,
            active: self.active,
            animated: self.animated,
            hidden: self.hidden,
        }
    }

    /// The renderable, to be changed in place.
    pub fn child_mut(&mut self) -> (child: &mut T)
        ensures
            *child == old(self).content(),
            final(self)@ == old(self)@,
            final(self).content() == *final(child),
    {
        &mut self.content
    }
}

/// Wraps a page at rest.
pub fn stack_page_wrapper<T>(content: T) -> (wrapper: StackPageWrapper<T>)
    ensures
        wrapper@ == (WrapperView { progress: 0, active: true, animated: false, hidden: false }),
        wrapper.content() == content,
{
    StackPageWrapper::new(content)
}

} // verus!
