use vstd::prelude::*;
use crate::resources::{
    build_command_sequence, build_frame_resources, build_pipeline, commands_for, frames_for,
    DrawCommand, FrameResource, Pipeline,
};
use crate::surface::Extent;

verus! {

/// Where the loop stands between ticks.
#[derive(Clone, Copy, Debug, PartialEq, Eq, Structural)]
pub enum LoopState {
    Running,
    /// The window changed size: the chain, the frame resources, the pipeline
    /// and the commands are rebuilt on the next tick.
    NeedsResize,
    /// The chain is stale or suboptimal: the chain, the frame resources and
    /// the commands are rebuilt on the next tick.
    NeedsChainRebuild,
    /// A close was requested or a fatal error occurred; terminal.
    Exiting,
}

/// Which outside step of the current tick the loop waits on.
#[derive(Clone, Copy, Debug, PartialEq, Eq, Structural)]
pub enum Phase {
    Idle,
    /// The presentation chain is being recreated.
    Rebuilding,
    /// Frame resources, pipeline and commands are being recorded.
    Recording,
    /// The next presentable image is being acquired.
    Acquiring,
    /// The commands of this image were submitted and the image presented.
    Presenting(u32),
}

/// A presentation chain: its extent and how many images it holds.
#[derive(Clone, Copy, Debug, PartialEq, Eq, Structural)]
pub struct PresentationChain {
    pub extent: Extent,
    pub image_count: usize,
}

/// The fatal errors: a driver or programming defect.
#[derive(Clone, Copy, Debug, PartialEq, Eq, Structural)]
pub enum FatalError {
    ResourceCreation,
    PipelineCreation,
}

/// What acquiring the next presentable image gave.
#[derive(Clone, Copy, Debug, PartialEq, Eq, Structural)]
pub enum AcquireOutcome {
    Ready(u32),
    /// Usable, but the chain no longer matches the surface well.
    Suboptimal(u32),
    OutOfDate,
    Failed,
}

/// What submitting and presenting an image gave.
#[derive(Clone, Copy, Debug, PartialEq, Eq, Structural)]
pub enum PresentOutcome {
    Done,
    OutOfDate,
    Failed,
}

/// What the loop is told.
#[derive(Clone, Copy, Debug, PartialEq, Eq, Structural)]
pub enum LoopEvent {
    CloseRequested,
    Resized(Extent),
    /// The window system is idle: time for one frame.
    Tick,
    /// The chain was recreated with this many images.
    ChainRebuilt(usize),
    /// The surface could not take the extent; retried on the next tick.
    ChainStale,
    /// The resources that the last `Record` named were built.
    Recorded,
    Acquired(AcquireOutcome),
    Presented(PresentOutcome),
    Fatal(FatalError),
}

/// What the loop asks its driver to do next.
#[derive(Clone, Copy, Debug, PartialEq, Eq, Structural)]
pub enum LoopAction {
    /// Stop the loop.
    Exit,
    /// Stop the loop after reporting the error.
    Abort(FatalError),
    /// Nothing until the next event.
    Wait,
    /// Recreate the presentation chain at this extent, then report
    /// `ChainRebuilt` or `ChainStale`.
    RebuildChain(Extent),
    /// Build the frame resources, then the pipeline when `pipeline` holds,
    /// then the command buffers, as the loop describes them; then report
    /// `Recorded`.
    Record { pipeline: bool },
    /// Acquire the next image, then report `Acquired`.
    Acquire,
    /// Submit the command buffer of this image after the acquisition, present
    /// the image after the submission, then report `Presented`.
    Submit(u32),
}

/// The loop's state as a mathematical value.
pub struct LoopModel {
    pub state: LoopState,
    pub phase: Phase,
    /// The latest reported window size.
    pub window: Extent,
    pub chain: PresentationChain,
    pub frames: Seq<FrameResource>,
    pub pipeline: Pipeline,
    pub commands: Seq<DrawCommand>,
    pub vertex_count: u32,
}

/// The resources are derived from one another as a rebuild leaves them, and
/// the pipeline covers the whole window unless a resize (or the exit) came
/// after the last rebuild and no rebuild has got past the chain since.
pub open spec fn consistent(m: LoopModel) -> bool {
    &&& m.frames == frames_for(m.chain.image_count as nat)
    &&& m.commands == commands_for(m.frames, m.pipeline, m.vertex_count)
    &&& (m.state is Running || m.state is NeedsChainRebuild || !(m.phase is Idle || m.phase is Rebuilding))
        ==> m.pipeline.viewport == m.window
}

/// The loop as first entered, after the first full construction.
pub open spec fn initial(window: Extent, image_count: usize, vertex_count: u32) -> LoopModel {
    let frames = frames_for(image_count as nat);
    let pipeline = Pipeline { viewport: window };
    LoopModel {
        state: LoopState::Running,
        phase: Phase::Idle,
        window,
        chain: PresentationChain { extent: window, image_count },
        frames,
        pipeline,
        commands: commands_for(frames, pipeline, vertex_count),
        vertex_count,
    }
}

/// The model after the chain was recreated with `image_count` images: the
/// frame resources follow the chain, the pipeline follows the window when a
/// resize is pending, and the commands follow both.
pub open spec fn rebuilt(m: LoopModel, image_count: usize) -> LoopModel {
    let frames = frames_for(image_count as nat);
    let pipeline = if m.state is NeedsResize { Pipeline { viewport: m.window } } else { m.pipeline };
    LoopModel {
        phase: Phase::Recording,
        chain: PresentationChain { extent: m.window, image_count },
        frames,
        pipeline,
        commands: commands_for(frames, pipeline, m.vertex_count),
        ..m
    }
}

/// An acquired image whose index has a command buffer is submitted (a
/// suboptimal one too, with a chain rebuild scheduled); an out-of-date chain,
/// or an index beyond the commands, schedules a chain rebuild and submits
/// nothing; a failure drops the frame.
pub open spec fn on_acquire(m: LoopModel, o: AcquireOutcome) -> (LoopModel, LoopAction) {
    match o {
        AcquireOutcome::Ready(i) => if i < m.commands.len() {
            (LoopModel { phase: Phase::Presenting(i), ..m }, LoopAction::Submit(i))
        } else {
            (LoopModel { state: LoopState::NeedsChainRebuild, phase: Phase::Idle, ..m }, LoopAction::Wait)
        },
        AcquireOutcome::Suboptimal(i) => if i < m.commands.len() {
            (
                LoopModel { state: LoopState::NeedsChainRebuild, phase: Phase::Presenting(i), ..m },
                LoopAction::Submit(i),
            )
        } else {
            (LoopModel { state: LoopState::NeedsChainRebuild, phase: Phase::Idle, ..m }, LoopAction::Wait)
        },
        AcquireOutcome::OutOfDate => (
            LoopModel { state: LoopState::NeedsChainRebuild, phase: Phase::Idle, ..m },
            LoopAction::Wait,
        ),
        AcquireOutcome::Failed => (LoopModel { phase: Phase::Idle, ..m }, LoopAction::Wait),
    }
}

/// An out-of-date chain at presentation schedules a chain rebuild; any other
/// outcome ends the tick.
pub open spec fn on_present(m: LoopModel, o: PresentOutcome) -> (LoopModel, LoopAction) {
    match o {
        PresentOutcome::OutOfDate => (
            LoopModel { state: LoopState::NeedsChainRebuild, phase: Phase::Idle, ..m },
            LoopAction::Wait,
        ),
        _ => (LoopModel { phase: Phase::Idle, ..m }, LoopAction::Wait),
    }
}

/// One transition of the frame loop. `Exiting` is terminal; a close request,
/// a fatal error or a resize abandons whatever step of the tick was pending,
/// and a tick starts a new one. A report that does not answer the outside
/// step the loop waits on changes nothing.
pub open spec fn step(m: LoopModel, e: LoopEvent) -> (LoopModel, LoopAction) {
    if m.state is Exiting {
        (m, LoopAction::Exit)
    } else {
        match e {
            LoopEvent::CloseRequested => (
                LoopModel { state: LoopState::Exiting, phase: Phase::Idle, ..m },
                LoopAction::Exit,
            ),
            LoopEvent::Fatal(err) => (
                LoopModel { state: LoopState::Exiting, phase: Phase::Idle, ..m },
                LoopAction::Abort(err),
            ),
            LoopEvent::Resized(size) => (
                LoopModel { state: LoopState::NeedsResize, phase: Phase::Idle, window: size, ..m },
                LoopAction::Wait,
            ),
            LoopEvent::Tick => if m.state is Running {
                (LoopModel { phase: Phase::Acquiring, ..m }, LoopAction::Acquire)
            } else {
                (LoopModel { phase: Phase::Rebuilding, ..m }, LoopAction::RebuildChain(m.window))
            },
            LoopEvent::ChainRebuilt(n) => if m.phase is Rebuilding {
                (rebuilt(m, n), LoopAction::Record { pipeline: m.state is NeedsResize })
            } else {
                (m, LoopAction::Wait)
            },
            LoopEvent::ChainStale => if m.phase is Rebuilding {
                (LoopModel { phase: Phase::Idle, ..m }, LoopAction::Wait)
            } else {
                (m, LoopAction::Wait)
            },
            LoopEvent::Recorded => if m.phase is Recording {
                (LoopModel { state: LoopState::Running, phase: Phase::Acquiring, ..m }, LoopAction::Acquire)
            } else {
                (m, LoopAction::Wait)
            },
            LoopEvent::Acquired(o) => if m.phase is Acquiring {
                on_acquire(m, o)
            } else {
                (m, LoopAction::Wait)
            },
            LoopEvent::Presented(o) => if m.phase matches Phase::Presenting(_) {
                on_present(m, o)
            } else {
                (m, LoopAction::Wait)
            },
        }
    }
}

/// The descriptions that a rebuild replaces together.
struct Resources {
    chain: PresentationChain,
    frames: Vec<FrameResource>,
    pipeline: Pipeline,
    commands: Vec<DrawCommand>,
}

/// The frame loop: it owns the descriptions of the presentation chain, the
/// frame resources, the pipeline and the command sequence, and decides, one
/// event at a time, what its driver does next.
pub struct FrameLoop {
    state: LoopState,
    phase: Phase,
    window: Extent,
    res: Resources,
    vertex_count: u32,
}

impl View for FrameLoop {
    type V = LoopModel;

    closed spec fn view(&self) -> LoopModel {
        LoopModel {
            state: self.state,
            phase: self.phase,
            window: self.window,
            chain: self.res.chain,
            frames: self.res.frames@,
            pipeline: self.res.pipeline,
            commands: self.res.commands@,
            vertex_count: self.vertex_count,
        }
    }
}

impl FrameLoop {
    #[verifier::type_invariant]
    spec fn well_formed(self) -> bool {
        consistent(self@)
    }

    /// The loop after the first full construction for a window of size
    /// `window`, a chain of `image_count` images and a vertex buffer of
    /// `vertex_count` vertices: `Running`.
    pub fn new(window: Extent, image_count: usize, vertex_count: u32) -> (l: FrameLoop)
        ensures
            l@ == initial(window, image_count, vertex_count),
            consistent(l@),
    {
        let frames = build_frame_resources(image_count);
        let pipeline = build_pipeline(window);
        let commands = build_command_sequence(pipeline, vertex_count, &frames);
        FrameLoop {
            state: LoopState::Running,
            phase: Phase::Idle,
            window,
            res: Resources {
                chain: PresentationChain { extent: window, image_count },
                frames,
                pipeline,
                commands,
            },
            vertex_count,
        }
    }

    /// Takes one event and returns what to do next, as `step` says.
    pub fn handle(&mut self, event: LoopEvent) -> (action: LoopAction)
        ensures
            (final(self)@, action) == step(old(self)@, event),
            consistent(final(self)@),
    {
        proof {
            use_type_invariant(&*self);
        }
        if self.state == LoopState::Exiting {
            return LoopAction::Exit;
        }
        match event {
            LoopEvent::CloseRequested => {
                self.state = LoopState::Exiting;
                self.phase = Phase::Idle;
                LoopAction::Exit
            },
            LoopEvent::Fatal(err) => {
                self.state = LoopState::Exiting;
                self.phase = Phase::Idle;
                LoopAction::Abort(err)
            },
            LoopEvent::Resized(size) => {
                self.state = LoopState::NeedsResize;
                self.phase = Phase::Idle;
                self.window = size;
                LoopAction::Wait
            },
            LoopEvent::Tick => {
                if self.state == LoopState::Running {
                    self.phase = Phase::Acquiring;
                    LoopAction::Acquire
                } else {
                    self.phase = Phase::Rebuilding;
                    LoopAction::RebuildChain(self.window)
                }
            },
            LoopEvent::ChainRebuilt(n) => {
                if self.phase == Phase::Rebuilding {
                    self.rebuild(n)
                } else {
                    LoopAction::Wait
                }
            },
            LoopEvent::ChainStale => {
                if self.phase == Phase::Rebuilding {
                    self.phase = Phase::Idle;
                }
                LoopAction::Wait
            },
            LoopEvent::Recorded => {
                if self.phase == Phase::Recording {
                    self.state = LoopState::Running;
                    self.phase = Phase::Acquiring;
                    LoopAction::Acquire
                } else {
                    LoopAction::Wait
                }
            },
            LoopEvent::Acquired(o) => {
                if self.phase == Phase::Acquiring {
                    self.acquired(o)
                } else {
                    LoopAction::Wait
                }
            },
            LoopEvent::Presented(o) => {
                match self.phase {
                    Phase::Presenting(_) => {
                        if o == PresentOutcome::OutOfDate {
                            self.state = LoopState::NeedsChainRebuild;
                        }
                        self.phase = Phase::Idle;
                    },
                    _ => {},
                }
                LoopAction::Wait
            },
        }
    }

    /// The chain was recreated: rebuild what depends on it, in order.
    fn rebuild(&mut self, image_count: usize) -> (action: LoopAction)
        requires
            !(old(self)@.state is Exiting),
            old(self)@.phase is Rebuilding,
        ensures
            final(self)@ == rebuilt(old(self)@, image_count),
            action == (LoopAction::Record { pipeline: old(self)@.state is NeedsResize }),
    {
        proof {
            use_type_invariant(&*self);
        }
        let resize = self.state == LoopState::NeedsResize;
        let chain = PresentationChain { extent: self.window, image_count };
        let frames = build_frame_resources(image_count);
        let pipeline = if resize {
            build_pipeline(self.window)
        } else {
            self.res.pipeline
        };
        let commands = build_command_sequence(pipeline, self.vertex_count, &frames);
        self.res = Resources { chain, frames, pipeline, commands };
        self.phase = Phase::Recording;
        LoopAction::Record { pipeline: resize }
    }

    fn acquired(&mut self, o: AcquireOutcome) -> (action: LoopAction)
        requires
            !(old(self)@.state is Exiting),
            old(self)@.phase is Acquiring,
        ensures
            (final(self)@, action) == on_acquire(old(self)@, o),
    {
        proof {
            use_type_invariant(&*self);
        }
        match o {
            AcquireOutcome::Ready(i) => {
                if (i as usize) < self.res.commands.len() {
                    self.phase = Phase::Presenting(i);
                    LoopAction::Submit(i)
                } else {
                    self.state = LoopState::NeedsChainRebuild;
                    self.phase = Phase::Idle;
                    LoopAction::Wait
                }
            },
            AcquireOutcome::Suboptimal(i) => {
                self.state = LoopState::NeedsChainRebuild;
                if (i as usize) < self.res.commands.len() {
                    self.phase = Phase::Presenting(i);
                    LoopAction::Submit(i)
                } else {
                    self.phase = Phase::Idle;
                    LoopAction::Wait
                }
            },
            AcquireOutcome::OutOfDate => {
                self.state = LoopState::NeedsChainRebuild;
                self.phase = Phase::Idle;
                LoopAction::Wait
            },
            AcquireOutcome::Failed => {
                self.phase = Phase::Idle;
                LoopAction::Wait
            },
        }
    }

    pub fn state(&self) -> (r: LoopState)
        ensures
            r == self@.state,
    {
        self.state
    }

    pub fn phase(&self) -> (r: Phase)
        ensures
            r == self@.phase,
    {
        self.phase
    }

    /// The latest reported window size.
    pub fn window(&self) -> (r: Extent)
        ensures
            r == self@.window,
    {
        self.window
    }

    pub fn chain(&self) -> (r: PresentationChain)
        ensures
            r == self@.chain,
    {
        self.res.chain
    }

    pub fn frame_resources(&self) -> (r: &Vec<FrameResource>)
        ensures
            r@ == self@.frames,
    {
        &self.res.frames
    }

    pub fn pipeline(&self) -> (r: Pipeline)
        ensures
            r == self@.pipeline,
    {
        self.res.pipeline
    }

    pub fn commands(&self) -> (r: &Vec<DrawCommand>)
        ensures
            r@ == self@.commands,
    {
        &self.res.commands
    }

    pub fn vertex_count(&self) -> (r: u32)
        ensures
            r == self@.vertex_count,
    {
        self.vertex_count
    }
}

} // verus!
