use vstd::prelude::*;
use crate::frame_loop::{
    consistent, initial, step, AcquireOutcome, LoopAction, LoopEvent, LoopModel, LoopState, Phase,
    PresentOutcome, PresentationChain,
};
use crate::resources::{commands_for, frames_for, Pipeline};
use crate::surface::Extent;

verus! {

/// The model after `events`, one `step` at a time, and the actions taken.
pub open spec fn run(m: LoopModel, events: Seq<LoopEvent>) -> (LoopModel, Seq<LoopAction>)
    decreases events.len(),
{
    if events.len() == 0 {
        (m, Seq::empty())
    } else {
        let (next, action) = step(m, events[0]);
        let (last, actions) = run(next, events.drop_first());
        (last, seq![action] + actions)
    }
}

/// A resize event for each extent, in order.
pub open spec fn resize_events(sizes: Seq<Extent>) -> Seq<LoopEvent> {
    sizes.map_values(|e: Extent| LoopEvent::Resized(e))
}

/// The events of one tick that rebuilds everything after a resize: the tick,
/// a chain of `image_count` images, the recorded resources.
pub open spec fn rebuild_tick(image_count: usize) -> Seq<LoopEvent> {
    seq![LoopEvent::Tick, LoopEvent::ChainRebuilt(image_count), LoopEvent::Recorded]
}

pub open spec fn needs_rebuild(s: LoopState) -> bool {
    s is NeedsResize || s is NeedsChainRebuild
}

/// Along `events` from `m`, an `Acquire` is asked for before any
/// `RebuildChain`.
pub open spec fn acquires_before_rebuild(m: LoopModel, events: Seq<LoopEvent>) -> bool
    decreases events.len(),
{
    if events.len() == 0 {
        false
    } else {
        let (next, action) = step(m, events[0]);
        if action is Acquire {
            true
        } else if action is RebuildChain {
            false
        } else {
            acquires_before_rebuild(next, events.drop_first())
        }
    }
}

/// The first full construction leaves the loop consistent.
pub proof fn lemma_initial_consistent(window: Extent, image_count: usize, vertex_count: u32)
    ensures
        consistent(initial(window, image_count, vertex_count)),
{
}

/// Every transition keeps the loop consistent: in particular the command
/// sequence has one entry per image of the chain after every rebuild, each
/// drawing into its own frame resource with the current pipeline.
pub proof fn lemma_step_consistent(m: LoopModel, e: LoopEvent)
    requires
        consistent(m),
    ensures
        consistent(step(m, e).0),
        step(m, e).0.commands.len() == step(m, e).0.chain.image_count,
{
}

/// Consistency holds after any sequence of events.
pub proof fn lemma_run_consistent(m: LoopModel, events: Seq<LoopEvent>)
    requires
        consistent(m),
    ensures
        consistent(run(m, events).0),
        run(m, events).0.commands.len() == run(m, events).0.chain.image_count,
    decreases events.len(),
{
    if events.len() > 0 {
        lemma_step_consistent(m, events[0]);
        lemma_run_consistent(step(m, events[0]).0, events.drop_first());
    }
}

/// After any sequence of events, a `Running` loop draws with a pipeline
/// whose viewport is the latest reported window size.
pub proof fn lemma_running_viewport_is_window(m: LoopModel, events: Seq<LoopEvent>)
    requires
        consistent(m),
    ensures
        run(m, events).0.state is Running ==> run(m, events).0.pipeline.viewport == run(m, events).0.window,
{
    lemma_run_consistent(m, events);
}

proof fn lemma_run_append(m: LoopModel, a: Seq<LoopEvent>, b: Seq<LoopEvent>)
    ensures
        run(m, a + b).0 == run(run(m, a).0, b).0,
        run(m, a + b).1 == run(m, a).1 + run(run(m, a).0, b).1,
    decreases a.len(),
{
    if a.len() == 0 {
        assert(a + b =~= b);
        assert(run(m, a).1 + run(m, b).1 =~= run(m, b).1);
    } else {
        let next = step(m, a[0]).0;
        assert((a + b).drop_first() =~= a.drop_first() + b);
        lemma_run_append(next, a.drop_first(), b);
        assert(run(m, a + b).1 =~= run(m, a).1 + run(run(m, a).0, b).1);
    }
}

proof fn lemma_resizes(m: LoopModel, sizes: Seq<Extent>)
    requires
        !(m.state is Exiting),
        sizes.len() > 0,
    ensures
        run(m, resize_events(sizes)).0 == (LoopModel {
            state: LoopState::NeedsResize,
            phase: Phase::Idle,
            window: sizes.last(),
            ..m
        }),
    decreases sizes.len(),
{
    let evs = resize_events(sizes);
    assert(evs[0] == LoopEvent::Resized(sizes[0]));
    let next = step(m, evs[0]).0;
    assert(evs.drop_first() =~= resize_events(sizes.drop_first()));
    assert(next == (LoopModel { state: LoopState::NeedsResize, phase: Phase::Idle, window: sizes[0], ..m }));
    assert(run(m, evs).0 == run(next, evs.drop_first()).0);
    if sizes.len() > 1 {
        lemma_resizes(next, sizes.drop_first());
        assert(sizes.drop_first().last() == sizes.last());
    } else {
        assert(evs.drop_first() =~= Seq::<LoopEvent>::empty());
    }
}

/// Whatever sequence of resizes arrives, the tick that rebuilds after them
/// leaves the loop `Running` with a pipeline and a chain of the latest
/// reported window size.
pub proof fn lemma_resizes_settle_on_latest(m: LoopModel, sizes: Seq<Extent>, image_count: usize)
    requires
        !(m.state is Exiting),
        sizes.len() > 0,
    ensures
        run(m, resize_events(sizes) + rebuild_tick(image_count)).0.state is Running,
        run(m, resize_events(sizes) + rebuild_tick(image_count)).0.pipeline.viewport == sizes.last(),
        run(m, resize_events(sizes) + rebuild_tick(image_count)).0.chain.extent == sizes.last(),
        run(m, resize_events(sizes) + rebuild_tick(image_count)).0.chain.image_count == image_count,
{
    lemma_resizes(m, sizes);
    lemma_run_append(m, resize_events(sizes), rebuild_tick(image_count));
    let mid = run(m, resize_events(sizes)).0;
    reveal_with_fuel(run, 4);
    let t = rebuild_tick(image_count);
    assert(t.drop_first() =~= seq![LoopEvent::ChainRebuilt(image_count), LoopEvent::Recorded]);
    assert(t.drop_first().drop_first() =~= seq![LoopEvent::Recorded]);
    assert(t.drop_first().drop_first().drop_first() =~= Seq::<LoopEvent>::empty());
}

/// One resize to `size` followed by the tick that rebuilds after it.
pub open spec fn resize_cycle(size: Extent, image_count: usize) -> Seq<LoopEvent> {
    seq![LoopEvent::Resized(size)] + rebuild_tick(image_count)
}

/// What a resize cycle leaves: everything rebuilt for `size`, whatever came
/// before.
pub open spec fn after_resize_cycle(size: Extent, image_count: usize, vertex_count: u32) -> LoopModel {
    let frames = frames_for(image_count as nat);
    let pipeline = Pipeline { viewport: size };
    LoopModel {
        state: LoopState::Running,
        phase: Phase::Acquiring,
        window: size,
        chain: PresentationChain { extent: size, image_count },
        frames,
        pipeline,
        commands: commands_for(frames, pipeline, vertex_count),
        vertex_count,
    }
}

proof fn lemma_resize_cycle(m: LoopModel, size: Extent, image_count: usize)
    requires
        !(m.state is Exiting),
    ensures
        run(m, resize_cycle(size, image_count)).0 == after_resize_cycle(size, image_count, m.vertex_count),
{
    let c = resize_cycle(size, image_count);
    reveal_with_fuel(run, 5);
    assert(c[0] == LoopEvent::Resized(size));
    assert(c.drop_first() =~= rebuild_tick(image_count));
    let t = rebuild_tick(image_count);
    assert(t.drop_first() =~= seq![LoopEvent::ChainRebuilt(image_count), LoopEvent::Recorded]);
    assert(t.drop_first().drop_first() =~= seq![LoopEvent::Recorded]);
    assert(t.drop_first().drop_first().drop_first() =~= Seq::<LoopEvent>::empty());
}

/// Rebuilding twice for the same window size gives the same state as
/// rebuilding once.
pub proof fn lemma_resize_rebuild_idempotent(m: LoopModel, size: Extent, image_count: usize)
    requires
        !(m.state is Exiting),
    ensures
        run(run(m, resize_cycle(size, image_count)).0, resize_cycle(size, image_count)).0
            == run(m, resize_cycle(size, image_count)).0,
{
    lemma_resize_cycle(m, size, image_count);
    lemma_resize_cycle(run(m, resize_cycle(size, image_count)).0, size, image_count);
}

proof fn lemma_exiting_stays(m: LoopModel, events: Seq<LoopEvent>)
    requires
        m.state is Exiting,
    ensures
        run(m, events).0 == m,
        run(m, events).1.len() == events.len(),
        forall|k: int| 0 <= k < events.len() ==> #[trigger] run(m, events).1[k] == LoopAction::Exit,
    decreases events.len(),
{
    if events.len() > 0 {
        lemma_exiting_stays(m, events.drop_first());
    }
}

/// Once a close is requested the loop is `Exiting` and every action from
/// then on is `Exit`, whatever rebuild was pending.
pub proof fn lemma_close_ends_loop(m: LoopModel, events: Seq<LoopEvent>)
    ensures
        run(m, seq![LoopEvent::CloseRequested] + events).0.state is Exiting,
        run(m, seq![LoopEvent::CloseRequested] + events).1.len() == events.len() + 1,
        forall|k: int| 0 <= k <= events.len()
            ==> #[trigger] run(m, seq![LoopEvent::CloseRequested] + events).1[k] == LoopAction::Exit,
{
    let all = seq![LoopEvent::CloseRequested] + events;
    assert(all[0] == LoopEvent::CloseRequested);
    assert(all.drop_first() =~= events);
    let next = step(m, all[0]).0;
    assert(next.state is Exiting);
    lemma_exiting_stays(next, events);
    assert forall|k: int| 0 <= k <= events.len() implies #[trigger] run(m, all).1[k] == LoopAction::Exit by {
        if k > 0 {
            assert(run(m, all).1[k] == run(next, events).1[k - 1]);
        }
    }
}

proof fn lemma_idle_until_tick(m: LoopModel, events: Seq<LoopEvent>)
    requires
        m.phase is Idle,
        forall|k: int| 0 <= k < events.len() ==> !(#[trigger] events[k] is Tick),
    ensures
        run(m, events).1.len() == events.len(),
        forall|k: int| 0 <= k < events.len() ==> !(#[trigger] run(m, events).1[k] is Submit),
    decreases events.len(),
{
    if events.len() > 0 {
        let next = step(m, events[0]).0;
        assert(!(events[0] is Tick));
        assert forall|k: int| 0 <= k < events.drop_first().len() implies !(#[trigger] events.drop_first()[k] is Tick) by {
            assert(events.drop_first()[k] == events[k + 1]);
        }
        lemma_idle_until_tick(next, events.drop_first());
        assert forall|k: int| 0 <= k < events.len() implies !(#[trigger] run(m, events).1[k] is Submit) by {
            if k > 0 {
                assert(run(m, events).1[k] == run(next, events.drop_first()).1[k - 1]);
            }
        }
    }
}

/// An acquisition that finds the chain out of date schedules a chain rebuild
/// and submits nothing: no `Submit` follows until the next tick.
pub proof fn lemma_stale_acquire_submits_nothing(m: LoopModel, events: Seq<LoopEvent>)
    requires
        !(m.state is Exiting),
        m.phase is Acquiring,
        forall|k: int| 0 <= k < events.len() ==> !(#[trigger] events[k] is Tick),
    ensures
        step(m, LoopEvent::Acquired(AcquireOutcome::OutOfDate)).0.state is NeedsChainRebuild,
        forall|k: int| 0 <= k <= events.len()
            ==> !(#[trigger] run(m, seq![LoopEvent::Acquired(AcquireOutcome::OutOfDate)] + events).1[k] is Submit),
{
    let all = seq![LoopEvent::Acquired(AcquireOutcome::OutOfDate)] + events;
    assert(all[0] == LoopEvent::Acquired(AcquireOutcome::OutOfDate));
    assert(all.drop_first() =~= events);
    let next = step(m, all[0]).0;
    lemma_idle_until_tick(next, events);
    assert forall|k: int| 0 <= k <= events.len() implies !(#[trigger] run(m, all).1[k] is Submit) by {
        if k > 0 {
            assert(run(m, all).1[k] == run(next, events).1[k - 1]);
        }
    }
}

proof fn lemma_pending_rebuild_blocks_acquire(m: LoopModel, events: Seq<LoopEvent>)
    requires
        m.state is Exiting || (needs_rebuild(m.state) && !(m.phase is Rebuilding || m.phase is Recording)),
    ensures
        !acquires_before_rebuild(m, events),
    decreases events.len(),
{
    if events.len() > 0 {
        let (next, action) = step(m, events[0]);
        assert(!(action is Acquire));
        if !(action is RebuildChain) {
            lemma_pending_rebuild_blocks_acquire(next, events.drop_first());
        }
    }
}

/// A suboptimal acquisition still submits and presents the acquired image,
/// and then no image is acquired again before the chain is rebuilt.
pub proof fn lemma_suboptimal_presents_then_rebuilds(m: LoopModel, index: u32, events: Seq<LoopEvent>)
    requires
        !(m.state is Exiting),
        m.phase is Acquiring,
        index < m.commands.len(),
    ensures
        step(m, LoopEvent::Acquired(AcquireOutcome::Suboptimal(index))).1 == LoopAction::Submit(index),
        step(m, LoopEvent::Acquired(AcquireOutcome::Suboptimal(index))).0.state is NeedsChainRebuild,
        !acquires_before_rebuild(step(m, LoopEvent::Acquired(AcquireOutcome::Suboptimal(index))).0, events),
{
    lemma_pending_rebuild_blocks_acquire(step(m, LoopEvent::Acquired(AcquireOutcome::Suboptimal(index))).0, events);
}

} // verus!
