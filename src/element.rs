//! The blur render element: identity, change tracking and commit counting.
use vstd::prelude::*;
use crate::float_bits::{f32_eq, f32_is_nan, f64_eq, f64_is_nan, F32_ONE};
use crate::state::{state_eq, initial_state, ElementState, LogicalPoint, LogicalSize};

verus! {

/// The counter value after one more commit; the counter wraps around at
/// `usize::MAX`, as the render loop's commit counters do.
pub open spec fn next_commit(c: usize) -> usize {
    if c == usize::MAX {
        0
    } else {
        (c + 1) as usize
    }
}

/// `state` with its size and scale replaced.
pub open spec fn resized(state: ElementState, size: LogicalSize, scale: u64) -> ElementState {
    ElementState { size, scale, ..state }
}

/// `state` with its placement, noise, output and context replaced.
pub open spec fn bound(
    state: ElementState,
    context: u64,
    location: LogicalPoint,
    noise: u32,
    output: u64,
) -> ElementState {
    ElementState { loc: location, noise, output: Some(output), context: Some(context), ..state }
}

/// `state` with its corner radius replaced.
pub open spec fn rounded(state: ElementState, radius: u32) -> ElementState {
    ElementState { corner_radius: radius, ..state }
}

/// `after` is what `update(size, scale)` makes of `before`.
pub open spec fn is_update<I>(
    before: BlurRenderElement<I>,
    after: BlurRenderElement<I>,
    size: LogicalSize,
    scale: u64,
) -> bool {
    &&& after.spec_id() == before.spec_id()
    &&& after.spec_state() == resized(before.spec_state(), size, scale)
    &&& after.spec_dirty() == !state_eq(after.spec_state(), before.spec_state())
    &&& after.spec_commit() == next_commit(before.spec_commit())
}

/// `after` is what `with_deps(context, location, noise, output)` makes of
/// `before`.
pub open spec fn is_bind<I>(
    before: BlurRenderElement<I>,
    after: BlurRenderElement<I>,
    context: u64,
    location: LogicalPoint,
    noise: u32,
    output: u64,
) -> bool {
    &&& after.spec_id() == before.spec_id()
    &&& after.spec_state() == bound(before.spec_state(), context, location, noise, output)
    &&& after.spec_dirty() == (before.spec_dirty() || !state_eq(
        after.spec_state(),
        before.spec_state(),
    ))
    &&& after.spec_commit() == before.spec_commit()
}

/// A render element that draws the blurred framebuffer of its output over
/// a region, optionally with rounded corners and dithering noise.
///
/// `I` is the identity token the render loop knows the element by; it is
/// fixed when the element is made and never changes.
pub struct BlurRenderElement<I> {
    id: I,
    state: ElementState,
    dirty: bool,
    commit: usize,
}

impl<I> BlurRenderElement<I> {
    /// The identity token of the element.
    pub closed spec fn spec_id(&self) -> I {
        self.id
    }

    /// What the element currently draws.
    pub closed spec fn spec_state(&self) -> ElementState {
        self.state
    }

    /// Whether the last change left the state different from before.
    pub closed spec fn spec_dirty(&self) -> bool {
        self.dirty
    }

    /// The commit counter.
    pub closed spec fn spec_commit(&self) -> usize {
        self.commit
    }

    /// A fresh element known by `id`, in the initial state, counted as
    /// changed and at commit zero.
    pub fn new(id: I) -> (r: Self)
        ensures
            r.spec_id() == id,
            r.spec_state() == initial_state(),
            r.spec_dirty(),
            r.spec_commit() == 0,
    {
        BlurRenderElement { id, state: ElementState::initial(), dirty: true, commit: 0 }
    }

    /// Replaces size and scale. The commit counter always advances by one;
    /// the element is dirty exactly when the new state differs from the old.
    pub fn update(&mut self, size: LogicalSize, scale: u64)
        ensures
            is_update(*old(self), *final(self), size, scale),
    {
        let next = ElementState { size, scale, ..self.state };
        self.dirty = !next.same_as(&self.state);
        self.state = next;
        self.commit = if self.commit == usize::MAX {
            0
        } else {
            self.commit + 1
        };
    }

    /// Binds the element to an output and a GPU context and places it. The
    /// commit counter is left alone; the element becomes dirty if the new
    /// state differs from the old, and otherwise keeps its dirty flag.
    pub fn with_deps(self, context: u64, location: LogicalPoint, noise: u32, output: u64) -> (r:
        Self)
        ensures
            is_bind(self, r, context, location, noise, output),
    {
        let mut this = self;
        let next = ElementState {
            loc: location,
            noise,
            output: Some(output),
            context: Some(context),
            ..this.state
        };
        if !next.same_as(&this.state) {
            this.dirty = true;
        }
        this.state = next;
        this
    }

    /// Sets the corner radius, in physical pixels, under the same change
    /// rule as `with_deps`.
    pub fn with_corner_radius(self, radius: u32) -> (r: Self)
        ensures
            r.spec_id() == self.spec_id(),
            r.spec_state() == rounded(self.spec_state(), radius),
            r.spec_dirty() == (self.spec_dirty() || !state_eq(r.spec_state(), self.spec_state())),
            r.spec_commit() == self.spec_commit(),
    {
        let mut this = self;
        let next = ElementState { corner_radius: radius, ..this.state };
        if !next.same_as(&this.state) {
            this.dirty = true;
        }
        this.state = next;
        this
    }

    /// The identity token of the element.
    pub fn id(&self) -> (r: &I)
        ensures
            *r == self.spec_id(),
    {
        &self.id
    }

    /// The commit counter, which the render loop compares between frames.
    pub fn current_commit(&self) -> (r: usize)
        ensures
            r == self.spec_commit(),
    {
        self.commit
    }

    /// Whether the last change left the state different from before.
    pub fn is_dirty(&self) -> (r: bool)
        ensures
            r == self.spec_dirty(),
    {
        self.dirty
    }

    /// What the element currently draws.
    pub fn state(&self) -> (r: &ElementState)
        ensures
            *r == self.spec_state(),
    {
        &self.state
    }

    /// The element's opacity, as the bits of an `f32`: always fully opaque.
    pub fn alpha(&self) -> (r: u32)
        ensures
            r == F32_ONE,
    {
        F32_ONE
    }
}

/// Over any run of `update` calls, the commit counter advances by exactly
/// the number of calls, whether or not any call changed the state (as long
/// as the counter does not pass `usize::MAX`, where it wraps).
pub proof fn lemma_update_run_counts_commits<I>(
    trace: Seq<BlurRenderElement<I>>,
    sizes: Seq<LogicalSize>,
    scales: Seq<u64>,
)
    requires
        trace.len() == sizes.len() + 1,
        scales.len() == sizes.len(),
        forall|i: int|
            0 <= i < sizes.len() ==> #[trigger] is_update(trace[i], trace[i + 1], sizes[i], scales[i]),
        trace[0].spec_commit() + sizes.len() <= usize::MAX,
    ensures
        trace.last().spec_commit() == trace[0].spec_commit() + sizes.len(),
    decreases sizes.len(),
{
    if sizes.len() > 0 {
        let n = sizes.len() - 1;
        assert(is_update(trace[n], trace[n + 1], sizes[n], scales[n]));
        lemma_update_run_counts_commits(trace.drop_last(), sizes.drop_last(), scales.drop_last());
        assert(trace.drop_last().last() == trace[n]);
    }
}

/// After `update(size, scale)` the element is dirty exactly when `size` or
/// `scale` differs (as IEEE values) from the size and scale it had, provided
/// no other floating-point field of the old state is a NaN.
pub proof fn lemma_update_dirty_iff_changed<I>(
    before: BlurRenderElement<I>,
    after: BlurRenderElement<I>,
    size: LogicalSize,
    scale: u64,
)
    requires
        is_update(before, after, size, scale),
        !f64_is_nan(before.spec_state().loc.x),
        !f64_is_nan(before.spec_state().loc.y),
        !f32_is_nan(before.spec_state().noise),
        !f32_is_nan(before.spec_state().corner_radius),
    ensures
        after.spec_dirty() <==> !(f64_eq(size.w, before.spec_state().size.w) && f64_eq(
            size.h,
            before.spec_state().size.h,
        ) && f64_eq(scale, before.spec_state().scale)),
{
    let s = before.spec_state();
    assert(f64_eq(s.loc.x, s.loc.x) && f64_eq(s.loc.y, s.loc.y));
    assert(f32_eq(s.noise, s.noise) && f32_eq(s.corner_radius, s.corner_radius));
}

/// `with_deps` never moves the commit counter; on an element that was not
/// dirty, it leaves it dirty exactly when the location, noise, output or
/// context differs from what it had, provided no other floating-point field
/// of the old state is a NaN.
pub proof fn lemma_bind_dirty_iff_changed<I>(
    before: BlurRenderElement<I>,
    after: BlurRenderElement<I>,
    context: u64,
    location: LogicalPoint,
    noise: u32,
    output: u64,
)
    requires
        is_bind(before, after, context, location, noise, output),
        !before.spec_dirty(),
        !f64_is_nan(before.spec_state().size.w),
        !f64_is_nan(before.spec_state().size.h),
        !f64_is_nan(before.spec_state().scale),
        !f32_is_nan(before.spec_state().corner_radius),
    ensures
        after.spec_commit() == before.spec_commit(),
        after.spec_dirty() <==> !(f64_eq(location.x, before.spec_state().loc.x) && f64_eq(
            location.y,
            before.spec_state().loc.y,
        ) && f32_eq(noise, before.spec_state().noise) && before.spec_state().output == Some(
            output,
        ) && before.spec_state().context == Some(context)),
{
    let s = before.spec_state();
    assert(f64_eq(s.size.w, s.size.w) && f64_eq(s.size.h, s.size.h) && f64_eq(s.scale, s.scale));
    assert(f32_eq(s.corner_radius, s.corner_radius));
}

/// Calling `update` a second time with the same size and scale leaves the
/// element clean, provided no floating-point field of the state is a NaN.
pub proof fn lemma_repeated_update_is_clean<I>(
    first: BlurRenderElement<I>,
    second: BlurRenderElement<I>,
    third: BlurRenderElement<I>,
    size: LogicalSize,
    scale: u64,
)
    requires
        is_update(first, second, size, scale),
        is_update(second, third, size, scale),
        !f64_is_nan(first.spec_state().loc.x),
        !f64_is_nan(first.spec_state().loc.y),
        !f64_is_nan(size.w),
        !f64_is_nan(size.h),
        !f64_is_nan(scale),
        !f32_is_nan(first.spec_state().noise),
        !f32_is_nan(first.spec_state().corner_radius),
    ensures
        !third.spec_dirty(),
{
    let s = second.spec_state();
    assert(f64_eq(s.loc.x, s.loc.x) && f64_eq(s.loc.y, s.loc.y) && f64_eq(s.size.w, s.size.w));
    assert(f64_eq(s.size.h, s.size.h) && f64_eq(s.scale, s.scale));
    assert(f32_eq(s.noise, s.noise) && f32_eq(s.corner_radius, s.corner_radius));
}

} // verus!
