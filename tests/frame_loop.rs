use thorus::frame_loop::{
    AcquireOutcome, FatalError, FrameLoop, LoopAction, LoopEvent, LoopState, Phase, PresentOutcome,
};
use thorus::resources::{DrawCommand, FrameResource, Pipeline};
use thorus::surface::Extent;

fn ext(width: u32, height: u32) -> Extent {
    Extent { width, height }
}

fn assert_aligned(l: &FrameLoop) {
    let n = l.chain().image_count;
    assert_eq!(l.frame_resources().len(), n);
    assert_eq!(l.commands().len(), n);
    for (i, c) in l.commands().iter().enumerate() {
        assert_eq!(l.frame_resources()[i], FrameResource { image: i });
        assert_eq!(c.framebuffer, l.frame_resources()[i]);
        assert_eq!(c.pipeline, l.pipeline());
        assert_eq!(c.vertex_count, l.vertex_count());
        assert_eq!(c.instance_count, 1);
        assert_eq!(c.first_vertex, 0);
        assert_eq!(c.first_instance, 0);
    }
}

/// Drives one tick that rebuilds after a resize; returns the actions.
fn rebuild_tick(l: &mut FrameLoop, images: usize) -> Vec<LoopAction> {
    vec![
        l.handle(LoopEvent::Tick),
        l.handle(LoopEvent::ChainRebuilt(images)),
        l.handle(LoopEvent::Recorded),
    ]
}

#[test]
fn initial_build_is_running_and_aligned() {
    let l = FrameLoop::new(ext(800, 600), 3, 3);
    assert_eq!(l.state(), LoopState::Running);
    assert_eq!(l.phase(), Phase::Idle);
    assert_eq!(l.window(), ext(800, 600));
    assert_eq!(l.chain().extent, ext(800, 600));
    assert_eq!(l.pipeline(), Pipeline { viewport: ext(800, 600) });
    assert_aligned(&l);
}

#[test]
fn resize_triangle_end_to_end() {
    let mut l = FrameLoop::new(ext(800, 600), 3, 3);
    assert_eq!(l.handle(LoopEvent::Resized(ext(400, 300))), LoopAction::Wait);
    assert_eq!(l.state(), LoopState::NeedsResize);
    let actions = rebuild_tick(&mut l, 3);
    assert_eq!(
        actions,
        vec![
            LoopAction::RebuildChain(ext(400, 300)),
            LoopAction::Record { pipeline: true },
            LoopAction::Acquire,
        ]
    );
    let pipeline_rebuilds = actions
        .iter()
        .filter(|a| **a == LoopAction::Record { pipeline: true })
        .count();
    assert_eq!(pipeline_rebuilds, 1);
    assert_eq!(l.state(), LoopState::Running);
    assert_eq!(l.pipeline().viewport, ext(400, 300));
    assert_eq!(l.commands().len(), 3);
    for c in l.commands().iter() {
        assert_eq!(c.vertex_count, 3);
        assert_eq!(c.pipeline.viewport, ext(400, 300));
    }
    assert_aligned(&l);
}

#[test]
fn many_resizes_settle_on_latest() {
    let mut l = FrameLoop::new(ext(800, 600), 2, 3);
    l.handle(LoopEvent::Resized(ext(640, 480)));
    l.handle(LoopEvent::Resized(ext(1024, 768)));
    l.handle(LoopEvent::Resized(ext(300, 200)));
    let actions = rebuild_tick(&mut l, 4);
    assert_eq!(actions[0], LoopAction::RebuildChain(ext(300, 200)));
    assert_eq!(l.state(), LoopState::Running);
    assert_eq!(l.pipeline().viewport, ext(300, 200));
    assert_eq!(l.chain().extent, ext(300, 200));
    assert_eq!(l.chain().image_count, 4);
    assert_aligned(&l);
}

#[test]
fn resize_rebuild_twice_same_as_once() {
    let mut once = FrameLoop::new(ext(800, 600), 3, 3);
    once.handle(LoopEvent::Resized(ext(500, 500)));
    rebuild_tick(&mut once, 3);
    let mut twice = FrameLoop::new(ext(800, 600), 3, 3);
    for _ in 0..2 {
        twice.handle(LoopEvent::Resized(ext(500, 500)));
        rebuild_tick(&mut twice, 3);
    }
    assert_eq!(once.state(), twice.state());
    assert_eq!(once.phase(), twice.phase());
    assert_eq!(once.window(), twice.window());
    assert_eq!(once.chain(), twice.chain());
    assert_eq!(once.pipeline(), twice.pipeline());
    assert_eq!(once.frame_resources(), twice.frame_resources());
    assert_eq!(once.commands(), twice.commands());
}

#[test]
fn out_of_date_rebuild_keeps_commands_aligned() {
    let mut l = FrameLoop::new(ext(800, 600), 3, 3);
    assert_eq!(l.handle(LoopEvent::Tick), LoopAction::Acquire);
    assert_eq!(l.handle(LoopEvent::Acquired(AcquireOutcome::OutOfDate)), LoopAction::Wait);
    assert_eq!(l.state(), LoopState::NeedsChainRebuild);
    let actions = rebuild_tick(&mut l, 5);
    assert_eq!(
        actions,
        vec![
            LoopAction::RebuildChain(ext(800, 600)),
            LoopAction::Record { pipeline: false },
            LoopAction::Acquire,
        ]
    );
    assert_eq!(l.chain().image_count, 5);
    assert_eq!(l.pipeline().viewport, ext(800, 600));
    assert_aligned(&l);
}

#[test]
fn stale_acquire_submits_nothing_this_tick() {
    let mut l = FrameLoop::new(ext(800, 600), 3, 3);
    l.handle(LoopEvent::Tick);
    assert_eq!(l.handle(LoopEvent::Acquired(AcquireOutcome::OutOfDate)), LoopAction::Wait);
    assert_eq!(l.phase(), Phase::Idle);
    // Late reports for this tick are ignored and ask for nothing.
    assert_eq!(l.handle(LoopEvent::Acquired(AcquireOutcome::Ready(0))), LoopAction::Wait);
    assert_eq!(l.handle(LoopEvent::Presented(PresentOutcome::Done)), LoopAction::Wait);
    assert_eq!(l.handle(LoopEvent::Tick), LoopAction::RebuildChain(ext(800, 600)));
}

#[test]
fn suboptimal_submits_then_rebuilds_before_next_acquire() {
    let mut l = FrameLoop::new(ext(800, 600), 3, 3);
    l.handle(LoopEvent::Tick);
    assert_eq!(
        l.handle(LoopEvent::Acquired(AcquireOutcome::Suboptimal(2))),
        LoopAction::Submit(2)
    );
    assert_eq!(l.phase(), Phase::Presenting(2));
    assert_eq!(l.handle(LoopEvent::Presented(PresentOutcome::Done)), LoopAction::Wait);
    assert_eq!(l.state(), LoopState::NeedsChainRebuild);
    assert_eq!(l.handle(LoopEvent::Tick), LoopAction::RebuildChain(ext(800, 600)));
}

#[test]
fn ready_image_is_submitted_and_presented() {
    let mut l = FrameLoop::new(ext(800, 600), 3, 3);
    assert_eq!(l.handle(LoopEvent::Tick), LoopAction::Acquire);
    assert_eq!(l.handle(LoopEvent::Acquired(AcquireOutcome::Ready(1))), LoopAction::Submit(1));
    assert_eq!(l.handle(LoopEvent::Presented(PresentOutcome::Done)), LoopAction::Wait);
    assert_eq!(l.state(), LoopState::Running);
    assert_eq!(l.phase(), Phase::Idle);
    assert_eq!(l.handle(LoopEvent::Tick), LoopAction::Acquire);
}

#[test]
fn acquired_index_beyond_commands_rebuilds() {
    let mut l = FrameLoop::new(ext(800, 600), 2, 3);
    l.handle(LoopEvent::Tick);
    assert_eq!(l.handle(LoopEvent::Acquired(AcquireOutcome::Ready(2))), LoopAction::Wait);
    assert_eq!(l.state(), LoopState::NeedsChainRebuild);
}

#[test]
fn present_out_of_date_schedules_rebuild() {
    let mut l = FrameLoop::new(ext(800, 600), 3, 3);
    l.handle(LoopEvent::Tick);
    l.handle(LoopEvent::Acquired(AcquireOutcome::Ready(0)));
    assert_eq!(l.handle(LoopEvent::Presented(PresentOutcome::OutOfDate)), LoopAction::Wait);
    assert_eq!(l.state(), LoopState::NeedsChainRebuild);
}

#[test]
fn failures_drop_the_frame_and_continue() {
    let mut l = FrameLoop::new(ext(800, 600), 3, 3);
    l.handle(LoopEvent::Tick);
    assert_eq!(l.handle(LoopEvent::Acquired(AcquireOutcome::Failed)), LoopAction::Wait);
    assert_eq!(l.state(), LoopState::Running);
    l.handle(LoopEvent::Tick);
    l.handle(LoopEvent::Acquired(AcquireOutcome::Ready(0)));
    assert_eq!(l.handle(LoopEvent::Presented(PresentOutcome::Failed)), LoopAction::Wait);
    assert_eq!(l.state(), LoopState::Running);
    assert_eq!(l.handle(LoopEvent::Tick), LoopAction::Acquire);
}

#[test]
fn close_ends_loop_despite_pending_rebuild() {
    let mut l = FrameLoop::new(ext(800, 600), 3, 3);
    l.handle(LoopEvent::Resized(ext(10, 10)));
    assert_eq!(l.handle(LoopEvent::CloseRequested), LoopAction::Exit);
    assert_eq!(l.state(), LoopState::Exiting);
    assert_eq!(l.handle(LoopEvent::Tick), LoopAction::Exit);
    assert_eq!(l.handle(LoopEvent::Resized(ext(20, 20))), LoopAction::Exit);
    assert_eq!(l.handle(LoopEvent::ChainRebuilt(3)), LoopAction::Exit);
    assert_eq!(l.state(), LoopState::Exiting);
    assert_eq!(l.window(), ext(10, 10));
}

#[test]
fn fatal_error_aborts() {
    let mut l = FrameLoop::new(ext(800, 600), 3, 3);
    l.handle(LoopEvent::Resized(ext(10, 10)));
    l.handle(LoopEvent::Tick);
    l.handle(LoopEvent::ChainRebuilt(3));
    assert_eq!(
        l.handle(LoopEvent::Fatal(FatalError::PipelineCreation)),
        LoopAction::Abort(FatalError::PipelineCreation)
    );
    assert_eq!(l.state(), LoopState::Exiting);
    assert_eq!(l.handle(LoopEvent::Tick), LoopAction::Exit);
}

#[test]
fn stale_chain_is_retried_next_tick() {
    let mut l = FrameLoop::new(ext(800, 600), 3, 3);
    l.handle(LoopEvent::Resized(ext(0, 0)));
    assert_eq!(l.handle(LoopEvent::Tick), LoopAction::RebuildChain(ext(0, 0)));
    assert_eq!(l.handle(LoopEvent::ChainStale), LoopAction::Wait);
    assert_eq!(l.state(), LoopState::NeedsResize);
    assert_eq!(l.chain().extent, ext(800, 600));
    l.handle(LoopEvent::Resized(ext(300, 300)));
    assert_eq!(l.handle(LoopEvent::Tick), LoopAction::RebuildChain(ext(300, 300)));
}

#[test]
fn resize_during_rebuild_restarts_it() {
    let mut l = FrameLoop::new(ext(800, 600), 3, 3);
    l.handle(LoopEvent::Tick);
    l.handle(LoopEvent::Acquired(AcquireOutcome::OutOfDate));
    assert_eq!(l.handle(LoopEvent::Tick), LoopAction::RebuildChain(ext(800, 600)));
    l.handle(LoopEvent::Resized(ext(100, 100)));
    // The report of the abandoned rebuild changes nothing.
    assert_eq!(l.handle(LoopEvent::ChainRebuilt(3)), LoopAction::Wait);
    assert_eq!(l.chain().extent, ext(800, 600));
    let actions = rebuild_tick(&mut l, 3);
    assert_eq!(actions[1], LoopAction::Record { pipeline: true });
    assert_eq!(l.pipeline().viewport, ext(100, 100));
}

#[test]
fn record_report_out_of_phase_is_ignored() {
    let mut l = FrameLoop::new(ext(800, 600), 3, 3);
    assert_eq!(l.handle(LoopEvent::Recorded), LoopAction::Wait);
    assert_eq!(l.handle(LoopEvent::ChainStale), LoopAction::Wait);
    assert_eq!(l.handle(LoopEvent::ChainRebuilt(7)), LoopAction::Wait);
    assert_eq!(l.chain().image_count, 3);
    assert_eq!(l.state(), LoopState::Running);
    assert_eq!(l.phase(), Phase::Idle);
}

#[test]
fn draw_commands_draw_whole_buffer() {
    let l = FrameLoop::new(ext(64, 32), 2, 7);
    let p = Pipeline { viewport: ext(64, 32) };
    assert_eq!(
        l.commands()[1],
        DrawCommand {
            framebuffer: FrameResource { image: 1 },
            pipeline: p,
            vertex_count: 7,
            instance_count: 1,
            first_vertex: 0,
            first_instance: 0,
        }
    );
}
