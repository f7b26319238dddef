//! Drawing an element with a chosen texture upscale filter.
//!
//! The filter is scoped to one draw: it is switched right before the inner
//! element draws and switched back afterwards, also when the draw fails. The
//! renderer keeps no readable record of its upscale filter, so the filter in
//! effect is tracked next to it; a renderer starts out linear and only these
//! scoped draws change it.

use vstd::prelude::*;

verus! {

/// A texture upscale filter.
#[derive(Clone, Copy, Debug, PartialEq, Eq, Structural)]
pub enum UpscaleFilter {
    Linear,
    Nearest,
}

/// A render element drawn with a specific texture upscale filter.
///
/// With `nearest` the element is drawn with [`UpscaleFilter::Nearest`] and
/// reports no underlying storage, which prevents direct scanout that would
/// bypass the filter. Otherwise it is drawn with [`UpscaleFilter::Linear`].
#[derive(Debug)]
pub struct SamplingRenderElement<E> {
    element: E,
    nearest: bool,
}

impl<E> SamplingRenderElement<E> {
    /// The wrapped element.
    pub closed spec fn inner(&self) -> E {
        self.element
    }

    /// Whether the element is drawn with nearest-neighbour upscaling.
    pub closed spec fn is_nearest(&self) -> bool {
        self.nearest
    }

    /// Wraps `element`, drawn with nearest-neighbour upscaling if `nearest`.
    pub fn new(element: E, nearest: bool) -> (r: Self)
        ensures
            r.inner() == element,
            r.is_nearest() == nearest,
    {
        Self { element, nearest }
    }

    /// The wrapped element.
    pub fn element(&self) -> (r: &E)
        ensures
            *r == self.inner(),
    {
        &self.element
    }

    /// The filter the element is drawn with.
    pub fn draw_filter(&self) -> (f: UpscaleFilter)
        ensures
            f == if self.is_nearest() {
                UpscaleFilter::Nearest
            } else {
                UpscaleFilter::Linear
            },
    {
        if self.nearest {
            UpscaleFilter::Nearest
        } else {
            UpscaleFilter::Linear
        }
    }

    /// Whether the inner element's underlying storage is reported; a nearest
    /// element reports none, so it is never scanned out directly.
    pub fn forwards_underlying_storage(&self) -> (b: bool)
        ensures
            b == !self.is_nearest(),
    {
        !self.nearest
    }
}

/// The upscale filter in effect on one renderer.
#[derive(Clone, Copy, Debug, PartialEq, Eq, Structural)]
pub struct FilterTracker {
    pub current: UpscaleFilter,
}

/// The tracked filter and the reported previous filter after a scoped
/// switch to `filter`; `call_ok` is the outcome of the renderer call, which
/// is only made when the filter changes. `None` reports a failed call.
pub open spec fn switched(
    current: UpscaleFilter,
    filter: UpscaleFilter,
    call_ok: bool,
) -> (UpscaleFilter, Option<UpscaleFilter>) {
    if current == filter {
        (current, Some(current))
    } else if call_ok {
        (filter, Some(current))
    } else {
        (current, None)
    }
}

impl FilterTracker {
    /// A renderer starts with linear upscaling.
    pub fn new() -> (t: FilterTracker)
        ensures
            t.current == UpscaleFilter::Linear,
    {
        FilterTracker { current: UpscaleFilter::Linear }
    }

    /// Whether switching to `filter` needs a renderer call; switching to the
    /// filter already in effect does nothing.
    pub fn needs_switch(&self, filter: UpscaleFilter) -> (b: bool)
        ensures
            b == (self.current != filter),
    {
        match (self.current, filter) {
            (UpscaleFilter::Linear, UpscaleFilter::Linear) => false,
            (UpscaleFilter::Nearest, UpscaleFilter::Nearest) => false,
            _ => true,
        }
    }

    /// Switches the tracked filter to `filter` and returns the filter to
    /// restore afterwards. `call_ok` is the outcome of the renderer call made
    /// when [`needs_switch`](Self::needs_switch) asked for one; on a failed
    /// call nothing changes and `None` is returned.
    pub fn switch_to(&mut self, filter: UpscaleFilter, call_ok: bool) -> (prev: Option<
        UpscaleFilter,
    >)
        ensures
            (final(self).current, prev) == switched(old(self).current, filter, call_ok),
    {
        let prev = self.current;
        if !self.needs_switch(filter) {
            return Some(prev);
        }
        if !call_ok {
            return None;
        }
        self.current = filter;
        Some(prev)
    }
}

/// The upscale filter in effect for a renderer: the tracked one, or linear
/// when no scoped draw has tracked one yet.
pub fn current_upscale_filter(tracker: Option<&FilterTracker>) -> (f: UpscaleFilter)
    ensures
        f == match tracker {
            Some(t) => t.current,
            None => UpscaleFilter::Linear,
        },
{
    match tracker {
        Some(t) => t.current,
        None => UpscaleFilter::Linear,
    }
}

/// How a scoped draw ends: the draw's own error wins over a failed restore.
#[derive(Clone, Copy, Debug, PartialEq, Eq, Structural)]
pub enum DrawOutcome {
    Drawn,
    DrawFailed,
    RestoreFailed,
}

/// The outcome of a scoped draw from the draw's and the restore's results.
pub fn draw_outcome(draw_ok: bool, restore_ok: bool) -> (o: DrawOutcome)
    ensures
        o == if !draw_ok {
            DrawOutcome::DrawFailed
        } else if !restore_ok {
            DrawOutcome::RestoreFailed
        } else {
            DrawOutcome::Drawn
        },
{
    if !draw_ok {
        DrawOutcome::DrawFailed
    } else if !restore_ok {
        DrawOutcome::RestoreFailed
    } else {
        DrawOutcome::Drawn
    }
}

/// A scoped draw leaves the renderer's filter as it found it whenever the
/// renderer accepts the filter switches, whether the draw itself failed or
/// not: the switch reports the filter in effect before it, and switching
/// back to that filter restores it. When a needed switch fails nothing
/// changes and nothing is drawn.
pub proof fn lemma_scoped_draw_restores(
    start: UpscaleFilter,
    filter: UpscaleFilter,
    set_ok: bool,
    restore_ok: bool,
)
    ensures
        switched(start, filter, set_ok).1 is Some ==> switched(start, filter, set_ok).1 == Some(
            start,
        ),
        (start == filter || set_ok) && (start == filter || restore_ok) ==> switched(
            switched(start, filter, set_ok).0,
            start,
            restore_ok,
        ).0 == start,
        start != filter && !set_ok ==> switched(start, filter, set_ok) == (start, None::<
            UpscaleFilter,
        >),
{
}

} // verus!
