//! A tick of the loop seen as a whole: what can happen between its start and
//! its end, and when the loop stops.

use vstd::prelude::*;
use crate::dimen::{scaled_down, ScaleFactor, UVec2};
use crate::window::ModifiersState;
use crate::window_internal_quad::{LoopPhase, StageModel, WindowStateModel};

verus! {

/// One thing that happens to the loop within a tick.
pub enum TickStep {
    /// The backend reports a new physical size.
    Resized(UVec2),
    /// The backend reports a new scale factor.
    Rescaled(ScaleFactor),
    /// The backend reports other modifiers.
    ModifiersSeen(ModifiersState),
    /// The draw step.
    Drawn,
    /// A callback of the handler has had the control handle and left the
    /// window's state as given.
    Callback(WindowStateModel),
}

/// The loop after one step. A stopped loop takes no report of the backend
/// and draws nothing. A callback is lent the control handle, which puts a
/// request for termination on record, and then changes the window's state
/// and nothing else.
pub open spec fn step(s: StageModel, t: TickStep) -> StageModel {
    match t {
        TickStep::Callback(window) => StageModel { window, ..s.lent() },
        TickStep::Resized(size) => if s.stopped {
            s
        } else {
            s.resized(size)
        },
        TickStep::Rescaled(scale) => if s.stopped {
            s
        } else {
            s.rescaled(scale)
        },
        TickStep::ModifiersSeen(modifiers) => if s.stopped {
            s
        } else {
            StageModel { modifiers, ..s }
        },
        TickStep::Drawn => if !s.stopped && s.window.redraw_requested {
            s.drawn()
        } else {
            s
        },
    }
}

/// The loop after the steps, taken in order.
pub open spec fn steps(s: StageModel, ts: Seq<TickStep>) -> StageModel
    decreases ts.len(),
{
    if ts.len() == 0 {
        s
    } else {
        step(steps(s, ts.drop_last()), ts.last())
    }
}

/// The loop never stops in the middle of a tick: whatever happens within
/// the tick, the loop is stopped after it exactly if it was before.
pub proof fn lemma_never_stops_mid_tick(s: StageModel, ts: Seq<TickStep>)
    ensures
        steps(s, ts).stopped == s.stopped,
    decreases ts.len(),
{
    if ts.len() > 0 {
        lemma_never_stops_mid_tick(s, ts.drop_last());
    }
}

/// Termination takes effect at the end of the tick, and nothing takes it
/// back. Where the loop runs and termination stands requested after `k`
/// steps of a tick, then whatever the steps after that are, and whatever
/// state a later callback leaves in the control handle, the loop is still
/// not stopped after all the steps, and it is stopped once the tick has
/// ended.
///
/// A stopped loop stays stopped, through any steps and any ends of ticks
/// that follow: see [`lemma_stopped_for_good`].
pub proof fn lemma_stops_at_tick_end(s: StageModel, ts: Seq<TickStep>, k: int)
    requires
        !s.stopped,
        0 <= k < ts.len(),
        steps(s, ts.take(k)).termination_requested(),
    ensures
        !steps(s, ts).stopped,
        steps(s, ts).phase() == LoopPhase::TerminationRequested,
        steps(s, ts).tick_ended().stopped,
        steps(s, ts).tick_ended().phase() == LoopPhase::Stopped,
{
    lemma_never_stops_mid_tick(s, ts);
    lemma_request_stays(s, ts, k, ts.len() as int);
    assert(ts.take(ts.len() as int) =~= ts);
}

/// The same where the request is made by the last thing that happens in
/// the tick: the state that the last callback leaves asks for termination.
pub proof fn lemma_stops_after_last_callback(s: StageModel, ts: Seq<TickStep>)
    requires
        !s.stopped,
        steps(s, ts).termination_requested(),
    ensures
        !steps(s, ts).stopped,
        steps(s, ts).tick_ended().stopped,
{
    lemma_never_stops_mid_tick(s, ts);
}

/// A request for termination that stands after `k` steps stands after any
/// number of further steps.
proof fn lemma_request_stays(s: StageModel, ts: Seq<TickStep>, k: int, j: int)
    requires
        0 <= k <= j <= ts.len(),
        k < ts.len(),
        steps(s, ts.take(k)).termination_requested(),
    ensures
        steps(s, ts.take(j)).termination_requested(),
        k < j ==> steps(s, ts.take(j)).termination_seen || !(ts[j - 1] is Callback),
    decreases j - k,
{
    if k < j {
        lemma_request_stays(s, ts, k, j - 1);
        assert(ts.take(j).drop_last() =~= ts.take(j - 1));
        assert(ts.take(j).last() == ts[j - 1]);
    }
}

/// There is no resume. A stopped loop is stopped after any steps and after
/// the end of the tick.
pub proof fn lemma_stopped_for_good(s: StageModel, ts: Seq<TickStep>)
    requires
        s.stopped,
    ensures
        steps(s, ts).stopped,
        steps(s, ts).tick_ended().stopped,
        steps(s, ts).phase() == LoopPhase::Stopped,
{
    lemma_never_stops_mid_tick(s, ts);
}

/// Without a request for termination the loop goes on: the end of the tick
/// leaves it as it is.
pub proof fn lemma_goes_on_without_request(s: StageModel, ts: Seq<TickStep>)
    requires
        !steps(s, ts).termination_requested(),
    ensures
        steps(s, ts).tick_ended() == steps(s, ts),
        steps(s, ts).tick_ended().stopped == s.stopped,
{
    lemma_never_stops_mid_tick(s, ts);
}

/// What a resize reports. After the backend has reported the physical size
/// `physical` at the scale `numerator / denominator`, a redraw is pending
/// and each side of the logical size is the physical side divided by the
/// scale and rounded down (or `u32::MAX`, where that is less): it is the one
/// whole number `q` with `q * numerator <= side * denominator < (q + 1) *
/// numerator`. At a whole scale it is plainly `side / numerator`.
pub proof fn lemma_resize_reports_logical_size(s: StageModel, physical: UVec2)
    requires
        s.window.scale_factor.spec_numerator() > 0,
        s.window.scale_factor.spec_denominator() > 0,
    ensures
        ({
            let after = s.resized(physical);
            let n = s.window.scale_factor.spec_numerator();
            let d = s.window.scale_factor.spec_denominator();
            let logical = after.window.logical_size();
            &&& after.window.redraw_requested
            &&& after.window.physical_size == physical
            &&& after.window.scale_factor == s.window.scale_factor
            &&& is_quotient(logical.x as int, physical.x as int, n, d)
            &&& is_quotient(logical.y as int, physical.y as int, n, d)
            &&& d == 1 ==> logical.x == (physical.x as int) / n && logical.y == (physical.y as int)
                / n
        }),
{
    let n = s.window.scale_factor.spec_numerator();
    let d = s.window.scale_factor.spec_denominator();
    lemma_scaled_down_is_quotient(physical.x as int, n, d);
    lemma_scaled_down_is_quotient(physical.y as int, n, d);
    let (px, py) = (physical.x as int, physical.y as int);
    assert(d == 1 ==> px * d == px && py * d == py) by (nonlinear_arith);
    assert forall|p: int| 0 <= p <= u32::MAX implies #[trigger] (p / n) <= u32::MAX by {
        vstd::arithmetic::div_mod::lemma_div_is_ordered_by_denominator(p, 1, n);
        vstd::arithmetic::div_mod::lemma_div_basics(p);
        vstd::arithmetic::div_mod::lemma_div_pos_is_pos(p, n);
    }
    assert(physical.x as int / n <= u32::MAX);
    assert(physical.y as int / n <= u32::MAX);
}

/// `q` is `side * denominator / numerator` rounded down, or `u32::MAX`
/// where that is less.
pub open spec fn is_quotient(q: int, side: int, numerator: int, denominator: int) -> bool {
    &&& 0 <= q <= u32::MAX
    &&& q * numerator <= side * denominator
    &&& q < u32::MAX ==> side * denominator < (q + 1) * numerator
}

proof fn lemma_scaled_down_is_quotient(side: int, n: int, d: int)
    requires
        0 <= side,
        n > 0,
        d > 0,
    ensures
        is_quotient(scaled_down(side, n, d), side, n, d),
        0 <= scaled_down(side, n, d) <= u32::MAX,
{
    let product = side * d;
    assert(product >= 0) by (nonlinear_arith)
        requires
            side >= 0,
            d > 0,
            product == side * d,
    ;
    let q = product / n;
    vstd::arithmetic::div_mod::lemma_fundamental_div_mod(product, n);
    vstd::arithmetic::div_mod::lemma_mod_bound(product, n);
    vstd::arithmetic::div_mod::lemma_div_pos_is_pos(product, n);
    assert(q * n == n * q) by (nonlinear_arith);
    assert((q + 1) * n == n * q + n) by (nonlinear_arith);
    if q > u32::MAX {
        assert(u32::MAX * n <= q * n) by (nonlinear_arith)
            requires
                u32::MAX <= q,
                n > 0,
        ;
    }
}

} // verus!
