use vstd::prelude::*;

use crate::action::Action;
use crate::components::tab::{in_front_after, FocusedTab};

verus! {

/// Points of each signal that the sampler shows at once.
pub const HISTORY: usize = 200;

/// Points of the first signal that each tick brings in.
pub const FIRST_STEP: usize = 5;

/// Points of the second signal that each tick brings in.
pub const SECOND_STEP: usize = 10;

/// Width of the horizontal axis, in units of the signals' abscissa.
pub const WINDOW_WIDTH: u64 = 20;

/// The abstract state of the sampler: whether it is in front, the points of
/// each signal it shows, oldest first, and where its horizontal axis starts.
pub struct SamplerView<P> {
    pub active: bool,
    pub data1: Seq<P>,
    pub data2: Seq<P>,
    pub window_start: u64,
}

impl<P> SamplerView<P> {
    /// Each signal shows as many points as the history holds.
    pub open spec fn wf(self) -> bool {
        &&& self.data1.len() == HISTORY
        &&& self.data2.len() == HISTORY
    }
}

/// A window of points after `fresh` came in: the oldest points leave, as
/// many as came in, and the fresh ones join at the end.
pub open spec fn slide<P>(window: Seq<P>, fresh: Seq<P>) -> Seq<P> {
    window.skip(fresh.len() as int) + fresh
}

/// How many points of each signal an action brings in: a tick brings in a
/// step of each, every other action none.
pub open spec fn spec_points_needed(action: Action) -> (usize, usize) {
    match action {
        Action::Tick => (FIRST_STEP, SECOND_STEP),
        _ => (0, 0),
    }
}

/// The point after `n` when the axis moves on by one, stopping at the end of
/// the range.
pub open spec fn next_window_start(n: u64) -> u64 {
    if n < u64::MAX {
        (n + 1) as u64
    } else {
        n
    }
}

/// The sampler tab: two signals drawn as a chart whose window scrolls on
/// every tick. `P` is the type of a point.
pub struct SamplerWidgit<P> {
    active: bool,
    data1: Vec<P>,
    data2: Vec<P>,
    window_start: u64,
}

impl<P> View for SamplerWidgit<P> {
    type V = SamplerView<P>;

    closed spec fn view(&self) -> SamplerView<P> {
        SamplerView {
            active: self.active,
            data1: self.data1@,
            data2: self.data2@,
            window_start: self.window_start,
        }
    }
}

impl<P> SamplerWidgit<P> {
    /// A tick always finds enough points to drop: each window holds at least
    /// one step of points.
    #[verifier::type_invariant]
    spec fn holds_a_step(&self) -> bool {
        &&& self.data1@.len() >= FIRST_STEP
        &&& self.data2@.len() >= SECOND_STEP
    }

    /// A sampler that is not in front, showing the first points of the two
    /// signals, with its axis starting at zero.
    pub fn new(data1: Vec<P>, data2: Vec<P>) -> (s: SamplerWidgit<P>)
        requires
            data1@.len() == HISTORY,
            data2@.len() == HISTORY,
        ensures
            s@.wf(),
            !s@.active,
            s@.data1 == data1@,
            s@.data2 == data2@,
            s@.window_start == 0,
    {
        SamplerWidgit { active: false, data1, data2, window_start: 0 }
    }

    /// How many fresh points of each signal `update` needs for this action.
    pub fn points_needed(action: &Action) -> (n: (usize, usize))
        ensures
            n == spec_points_needed(*action),
    {
        match action {
            Action::Tick => (FIRST_STEP, SECOND_STEP),
            _ => (0, 0),
        }
    }

    /// On a tick, the oldest points of each signal give way to the fresh
    /// ones and the axis moves on by one; a tab focus brings the sampler to
    /// the front when it names the sampler tab and sends it back otherwise;
    /// other actions change nothing.
    pub fn update(&mut self, action: &Action, fresh1: Vec<P>, fresh2: Vec<P>) -> (reply: Option<
        Action,
    >)
        requires
            fresh1@.len() == spec_points_needed(*action).0,
            fresh2@.len() == spec_points_needed(*action).1,
        ensures
            reply.is_none(),
            final(self)@.data1.len() == old(self)@.data1.len(),
            final(self)@.data2.len() == old(self)@.data2.len(),
            old(self)@.wf() ==> final(self)@.wf(),
            final(self)@ == (match *action {
                Action::Tick => SamplerView {
                    data1: slide(old(self)@.data1, fresh1@),
                    data2: slide(old(self)@.data2, fresh2@),
                    window_start: next_window_start(old(self)@.window_start),
                    ..old(self)@
                },
                Action::TabFocus(_) => SamplerView {
                    active: in_front_after(FocusedTab::Sampler, *action, old(self)@.active),
                    ..old(self)@
                },
                _ => old(self)@,
            }),
    {
        proof {
            use_type_invariant(&*self);
        }
        match action {
            Action::Tick => {
                let ghost in1 = fresh1@;
                let ghost in2 = fresh2@;
                // Each window is cut outside the widget: the fresh points hold
                // its place while the oldest points are split off, then the
                // oldest points hold it while the fresh ones join the rest.
                let mut window1 = fresh1;
                std::mem::swap(&mut self.data1, &mut window1);
                let mut kept1 = window1.split_off(FIRST_STEP);
                std::mem::swap(&mut self.data1, &mut window1);
                kept1.append(&mut window1);
                self.data1 = kept1;
                let mut window2 = fresh2;
                std::mem::swap(&mut self.data2, &mut window2);
                let mut kept2 = window2.split_off(SECOND_STEP);
                std::mem::swap(&mut self.data2, &mut window2);
                kept2.append(&mut window2);
                self.data2 = kept2;
                if self.window_start < u64::MAX {
                    self.window_start = self.window_start + 1;
                }
                proof {
                    assert(self.data1@ =~= slide(old(self)@.data1, in1));
                    assert(self.data2@ =~= slide(old(self)@.data2, in2));
                }
            },
            Action::Render => {},
            Action::TabFocus(focus) => {
                self.active = *focus == FocusedTab::Sampler;
            },
            _ => {},
        }
        None
    }

    /// Whether the sampler is in front.
    pub fn is_active(&self) -> (b: bool)
        ensures
            b == self@.active,
    {
        self.active
    }

    /// The points of the first signal on show, oldest first.
    pub fn data1(&self) -> (d: &Vec<P>)
        ensures
            d@ == self@.data1,
    {
        &self.data1
    }

    /// The points of the second signal on show, oldest first.
    pub fn data2(&self) -> (d: &Vec<P>)
        ensures
            d@ == self@.data2,
    {
        &self.data2
    }

    /// Where the horizontal axis starts; it ends `WINDOW_WIDTH` further on.
    pub fn window_start(&self) -> (n: u64)
        ensures
            n == self@.window_start,
    {
        self.window_start
    }
}

/// The window always shows the latest points of everything that came in:
/// after two batches, it holds the end of the initial window followed by
/// both batches, as many points as it held before.
pub proof fn lemma_slides_compose<P>(window: Seq<P>, first: Seq<P>, second: Seq<P>)
    requires
        first.len() <= window.len(),
        second.len() <= window.len(),
    ensures
        slide(slide(window, first), second) == (window + first + second).skip(
            (first.len() + second.len()) as int,
        ),
        slide(slide(window, first), second).len() == window.len(),
{
    let once = slide(window, first);
    let whole = window + first + second;
    assert(once =~= (window + first).skip(first.len() as int));
    assert(slide(once, second) =~= whole.skip((first.len() + second.len()) as int));
}

/// Every tick moves the horizontal axis on by exactly one, for as long as the
/// range of the counter lasts; at its end the axis stays put.
pub proof fn lemma_axis_moves_by_one(n: u64)
    ensures
        n < u64::MAX ==> next_window_start(n) == n + 1,
        next_window_start(u64::MAX) == u64::MAX,
        next_window_start(n) >= n,
{
}

/// A tick asks for five points of the first signal and ten of the second;
/// no other action asks for any.
pub proof fn lemma_only_ticks_need_points(action: Action)
    ensures
        spec_points_needed(Action::Tick) == (FIRST_STEP, SECOND_STEP),
        FIRST_STEP == 5 && SECOND_STEP == 10,
        !(action is Tick) ==> spec_points_needed(action) == (0usize, 0usize),
{
}

/// A window that takes in fresh points keeps its length, ends with the fresh
/// points in the order they came, and begins with what was there before,
/// minus as many of its oldest points as came in.
pub proof fn lemma_slide_keeps_newest<P>(window: Seq<P>, fresh: Seq<P>)
    requires
        fresh.len() <= window.len(),
    ensures
        slide(window, fresh).len() == window.len(),
        forall|i: int|
            0 <= i < fresh.len() ==> #[trigger] slide(window, fresh)[window.len() - fresh.len() + i]
                == fresh[i],
        forall|i: int|
            0 <= i < window.len() - fresh.len() ==> #[trigger] slide(window, fresh)[i] == window[i
                + fresh.len()],
{
}

} // verus!
