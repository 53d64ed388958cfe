//! A frame seen as a whole: the operations made while it was open, and what
//! the renderer issues for them.

use vstd::prelude::*;
use crate::color::Color;
use crate::dimen::Viewport;
use crate::image::ImageHandle;
use crate::renderer::{BatchModel, DrawPrimitive, GpuCommandModel, RenderState, RendererModel};

verus! {

/// One operation on the renderer while a frame is open.
pub enum FrameOp<T> {
    /// A triangle submitted with a render state.
    Submit(DrawPrimitive<T>, RenderState),
    /// A clear of the viewport.
    Clear(Color<T>),
    /// The making of a texture from pixels.
    CreateTexture(ImageHandle, Seq<u8>),
}

/// The renderer after the operations, made in order.
pub open spec fn apply_all<T>(m: RendererModel<T>, ops: Seq<FrameOp<T>>) -> RendererModel<T>
    decreases ops.len(),
{
    if ops.len() == 0 {
        m
    } else {
        let before = apply_all(m, ops.drop_last());
        match ops.last() {
            FrameOp::Submit(p, s) => before.submit(p, s),
            FrameOp::Clear(c) => before.clear(c),
            FrameOp::CreateTexture(h, pixels) => before.create_texture(h, pixels),
        }
    }
}

/// The renderer after a whole frame: opened, the operations made in order,
/// closed for the given viewport.
pub open spec fn whole_frame<T>(
    m: RendererModel<T>,
    ops: Seq<FrameOp<T>>,
    viewport: Viewport,
) -> RendererModel<T> {
    apply_all(m.begin_frame(), ops).end_frame(viewport)
}

/// The triangles submitted by the operations, each with its state, in order.
pub open spec fn submissions<T>(ops: Seq<FrameOp<T>>) -> Seq<(DrawPrimitive<T>, RenderState)>
    decreases ops.len(),
{
    if ops.len() == 0 {
        Seq::empty()
    } else {
        let before = submissions(ops.drop_last());
        match ops.last() {
            FrameOp::Submit(p, s) => before.push((p, s)),
            _ => before,
        }
    }
}

/// The batches drawn by a list of commands, in order.
pub open spec fn draws<T>(commands: Seq<GpuCommandModel<T>>) -> Seq<BatchModel<T>>
    decreases commands.len(),
{
    if commands.len() == 0 {
        Seq::empty()
    } else {
        let before = draws(commands.drop_last());
        match commands.last() {
            GpuCommandModel::Draw(b) => before.push(b),
            _ => before,
        }
    }
}

/// The triangles of one batch, each with the state of the batch.
pub open spec fn tagged<T>(b: BatchModel<T>) -> Seq<(DrawPrimitive<T>, RenderState)> {
    Seq::new(b.primitives.len(), |i: int| (b.primitives[i], b.state))
}

/// The triangles of a list of batches, each with the state of its batch, in
/// order.
pub open spec fn flatten<T>(batches: Seq<BatchModel<T>>) -> Seq<(DrawPrimitive<T>, RenderState)>
    decreases batches.len(),
{
    if batches.len() == 0 {
        Seq::empty()
    } else {
        flatten(batches.drop_last()) + tagged(batches.last())
    }
}

/// The submissions cut into runs: a submission joins the run before it where
/// the state is the same, and starts a new run where it is not.
pub open spec fn runs<T>(subs: Seq<(DrawPrimitive<T>, RenderState)>) -> Seq<BatchModel<T>>
    decreases subs.len(),
{
    if subs.len() == 0 {
        Seq::empty()
    } else {
        let before = runs(subs.drop_last());
        let (p, s) = subs.last();
        if before.len() > 0 && before.last().state == s {
            before.drop_last().push(
                BatchModel { state: s, primitives: before.last().primitives.push(p) },
            )
        } else {
            before.push(BatchModel { state: s, primitives: seq![p] })
        }
    }
}

/// `batches` are the maximal runs of `subs`: laid end to end they are `subs`,
/// none is empty, and two neighbours never share a state.
pub open spec fn is_maximal_runs<T>(
    batches: Seq<BatchModel<T>>,
    subs: Seq<(DrawPrimitive<T>, RenderState)>,
) -> bool {
    &&& flatten(batches) == subs
    &&& forall|i: int| 0 <= i < batches.len() ==> (#[trigger] batches[i]).primitives.len() > 0
    &&& forall|i: int|
        0 <= i < batches.len() - 1 ==> (#[trigger] batches[i]).state != batches[i + 1].state
}

proof fn lemma_flatten_push<T>(batches: Seq<BatchModel<T>>, b: BatchModel<T>)
    ensures
        flatten(batches.push(b)) == flatten(batches) + tagged(b),
{
    assert(batches.push(b).drop_last() =~= batches);
}

proof fn lemma_tagged_push<T>(b: BatchModel<T>, p: DrawPrimitive<T>)
    ensures
        tagged(BatchModel { state: b.state, primitives: b.primitives.push(p) }) == tagged(b).push(
            (p, b.state),
        ),
{
    let grown = BatchModel { state: b.state, primitives: b.primitives.push(p) };
    assert(tagged(grown) =~= tagged(b).push((p, b.state)));
}

/// The step of [`runs`] where the submission joins the last run.
proof fn lemma_runs_join<T>(
    before: Seq<BatchModel<T>>,
    head: Seq<(DrawPrimitive<T>, RenderState)>,
    p: DrawPrimitive<T>,
    s: RenderState,
)
    requires
        is_maximal_runs(before, head),
        before.len() > 0,
        before.last().state == s,
    ensures
        is_maximal_runs(
            before.drop_last().push(
                BatchModel { state: s, primitives: before.last().primitives.push(p) },
            ),
            head.push((p, s)),
        ),
{
    let last = before.last();
    let grown = BatchModel { state: s, primitives: last.primitives.push(p) };
    let rest = before.drop_last();
    let after = rest.push(grown);
    lemma_flatten_push(rest, grown);
    lemma_tagged_push(last, p);
    assert(flatten(before) == flatten(rest) + tagged(last));
    assert(flatten(after) =~= flatten(before).push((p, s)));
    assert forall|i: int| 0 <= i < after.len() implies (#[trigger] after[i]).primitives.len()
        > 0 by {
        if i < rest.len() {
            assert(after[i] == before[i]);
        }
    }
    assert forall|i: int| 0 <= i < after.len() - 1 implies (#[trigger] after[i]).state
        != after[i + 1].state by {
        assert(after[i] == before[i]);
        assert(after[i + 1].state == before[i + 1].state);
    }
}

/// The step of [`runs`] where the submission starts a new run.
proof fn lemma_runs_start<T>(
    before: Seq<BatchModel<T>>,
    head: Seq<(DrawPrimitive<T>, RenderState)>,
    p: DrawPrimitive<T>,
    s: RenderState,
)
    requires
        is_maximal_runs(before, head),
        before.len() > 0 ==> before.last().state != s,
    ensures
        is_maximal_runs(
            before.push(BatchModel { state: s, primitives: seq![p] }),
            head.push((p, s)),
        ),
{
    let fresh = BatchModel { state: s, primitives: seq![p] };
    let after = before.push(fresh);
    lemma_flatten_push(before, fresh);
    assert(tagged(fresh) =~= seq![(p, s)]);
    assert(flatten(after) =~= flatten(before).push((p, s)));
    assert forall|i: int| 0 <= i < after.len() implies (#[trigger] after[i]).primitives.len()
        > 0 by {
        if i < before.len() {
            assert(after[i] == before[i]);
        }
    }
    assert forall|i: int| 0 <= i < after.len() - 1 implies (#[trigger] after[i]).state
        != after[i + 1].state by {
        assert(after[i] == before[i]);
        if i < before.len() - 1 {
            assert(after[i + 1] == before[i + 1]);
        } else {
            assert(after[i] == before.last());
            assert(after[i + 1] == fresh);
        }
    }
}

/// What [`runs`] gives are the maximal runs of the submissions, and the
/// last run has the state of the last submission.
pub proof fn lemma_runs_are_maximal<T>(subs: Seq<(DrawPrimitive<T>, RenderState)>)
    ensures
        is_maximal_runs(runs(subs), subs),
        subs.len() > 0 ==> runs(subs).len() > 0 && runs(subs).last().state == subs.last().1,
        subs.len() == 0 ==> runs(subs).len() == 0,
    decreases subs.len(),
{
    if subs.len() > 0 {
        let head = subs.drop_last();
        lemma_runs_are_maximal(head);
        let before = runs(head);
        let (p, s) = subs.last();
        assert(head.push((p, s)) =~= subs);
        if before.len() > 0 && before.last().state == s {
            lemma_runs_join(before, head, p, s);
        } else {
            lemma_runs_start(before, head, p, s);
        }
    } else {
        assert(flatten(runs(subs)) =~= subs);
    }
}

proof fn lemma_draws_push<T>(commands: Seq<GpuCommandModel<T>>, c: GpuCommandModel<T>)
    ensures
        draws(commands.push(c)) == match c {
            GpuCommandModel::Draw(b) => draws(commands).push(b),
            _ => draws(commands),
        },
{
    assert(commands.push(c).drop_last() =~= commands);
}

/// What holds while a frame is open, of the renderer `now` that started the
/// frame with `issued_before` and has taken the submissions `subs` since: the
/// open batch is the last run, and the runs before it have been drawn.
spec fn frame_invariant<T>(
    issued_before: Seq<GpuCommandModel<T>>,
    now: RendererModel<T>,
    subs: Seq<(DrawPrimitive<T>, RenderState)>,
) -> bool {
    &&& now.frame_open
    &&& now.issued.len() >= issued_before.len()
    &&& match now.open {
        Some(b) => {
            &&& runs(subs).len() > 0
            &&& runs(subs).last() == b
            &&& draws(now.issued) == draws(issued_before) + runs(subs).drop_last()
        },
        None => subs.len() == 0 && draws(now.issued) == draws(issued_before),
    }
}

proof fn lemma_step_submit<T>(
    issued_before: Seq<GpuCommandModel<T>>,
    before: RendererModel<T>,
    head: Seq<(DrawPrimitive<T>, RenderState)>,
    p: DrawPrimitive<T>,
    s: RenderState,
)
    requires
        frame_invariant(issued_before, before, head),
    ensures
        frame_invariant(issued_before, before.submit(p, s), head.push((p, s))),
{
    let subs = head.push((p, s));
    assert(subs.drop_last() =~= head);
    assert(subs.last() == (p, s));
    let old_runs = runs(head);
    let new_runs = runs(subs);
    let now = before.submit(p, s);
    lemma_runs_are_maximal(head);
    match before.open {
        Some(b) => {
            if b.state == s {
                let grown = BatchModel { state: s, primitives: b.primitives.push(p) };
                assert(new_runs == old_runs.drop_last().push(grown));
                assert(new_runs.drop_last() =~= old_runs.drop_last());
            } else {
                let fresh = BatchModel { state: s, primitives: seq![p] };
                lemma_draws_push(before.issued, GpuCommandModel::Draw(b));
                assert(new_runs == old_runs.push(fresh));
                assert(new_runs.drop_last() =~= old_runs);
                assert(old_runs =~= old_runs.drop_last().push(b));
                assert(draws(now.issued) =~= draws(issued_before) + new_runs.drop_last());
            }
        },
        None => {
            let fresh = BatchModel { state: s, primitives: seq![p] };
            assert(old_runs.len() == 0);
            assert(new_runs == old_runs.push(fresh));
            assert(new_runs.drop_last() =~= old_runs);
            assert(draws(now.issued) =~= draws(issued_before) + new_runs.drop_last());
        },
    }
}

/// The invariant holds all through an open frame.
proof fn lemma_open_frame<T>(m: RendererModel<T>, ops: Seq<FrameOp<T>>)
    ensures
        frame_invariant(m.issued, apply_all(m.begin_frame(), ops), submissions(ops)),
    decreases ops.len(),
{
    let start = m.begin_frame();
    if ops.len() > 0 {
        let head = ops.drop_last();
        lemma_open_frame(m, head);
        let before = apply_all(start, head);
        match ops.last() {
            FrameOp::Clear(c) => {
                lemma_draws_push(before.issued, GpuCommandModel::Clear(c));
            },
            FrameOp::CreateTexture(h, pixels) => {
                lemma_draws_push(before.issued, GpuCommandModel::CreateTexture(h, pixels));
            },
            FrameOp::Submit(p, s) => {
                lemma_step_submit(m.issued, before, submissions(head), p, s);
            },
        }
    }
}

/// Batch merging. Over a whole frame the renderer issues one draw for each
/// maximal run of submissions that share their state, in the order of
/// submission, whatever was issued before the frame and wherever clears
/// and the making of textures fall between the submissions.
pub proof fn lemma_one_draw_per_run<T>(
    m: RendererModel<T>,
    ops: Seq<FrameOp<T>>,
    viewport: Viewport,
)
    ensures
        draws(whole_frame(m, ops, viewport).issued) == draws(m.issued) + runs(submissions(ops)),
        is_maximal_runs(runs(submissions(ops)), submissions(ops)),
{
    lemma_open_frame(m, ops);
    let subs = submissions(ops);
    lemma_runs_are_maximal(subs);
    let now = apply_all(m.begin_frame(), ops);
    let flushed = now.flush();
    match now.open {
        Some(b) => {
            lemma_draws_push(now.issued, GpuCommandModel::Draw(b));
            assert(runs(subs) =~= runs(subs).drop_last().push(b));
            assert(draws(flushed.issued) =~= draws(m.issued) + runs(subs));
        },
        None => {
            assert(draws(flushed.issued) =~= draws(m.issued) + runs(subs));
        },
    }
    lemma_draws_push(flushed.issued, GpuCommandModel::SetProjection(viewport));
    lemma_draws_push(
        flushed.issued.push(GpuCommandModel::SetProjection(viewport)),
        GpuCommandModel::Present,
    );
}

/// The batches of `all` that come after the first `skip` batches.
pub open spec fn draws_since<T>(all: Seq<BatchModel<T>>, skip: nat) -> Seq<BatchModel<T>> {
    all.subrange(skip as int, all.len() as int)
}

/// No loss. Closing a frame issues the present last, right after the
/// projection, and every triangle submitted in the frame has by then been
/// drawn, once, in the order of submission and with the state it was
/// submitted with.
pub proof fn lemma_nothing_dropped<T>(
    m: RendererModel<T>,
    ops: Seq<FrameOp<T>>,
    viewport: Viewport,
)
    ensures
        ({
            let done = whole_frame(m, ops, viewport);
            let n = done.issued.len();
            &&& !done.frame_open
            &&& done.open.is_none()
            &&& n >= m.issued.len() + 2
            &&& done.issued[n - 1] == GpuCommandModel::<T>::Present
            &&& done.issued[n - 2] == GpuCommandModel::<T>::SetProjection(viewport)
            &&& draws(done.issued).len() >= draws(m.issued).len()
            &&& flatten(draws_since(draws(done.issued), draws(m.issued).len())) == submissions(ops)
        }),
{
    lemma_one_draw_per_run(m, ops, viewport);
    lemma_open_frame(m, ops);
    let done = whole_frame(m, ops, viewport);
    assert(draws_since(draws(done.issued), draws(m.issued).len()) =~= runs(submissions(ops)));
}

} // verus!
