use vstd::prelude::*;
use crate::surface::Extent;

verus! {

/// The per-image objects (view and framebuffer) that rendering into one
/// presentable image needs, identified by the position of that image in the
/// presentation chain.
#[derive(Clone, Copy, Debug, PartialEq, Eq, Structural)]
pub struct FrameResource {
    pub image: usize,
}

/// A graphics pipeline, described by what varies between rebuilds: the
/// viewport it draws into. Shaders and fixed-function state are the same for
/// every pipeline of a run.
#[derive(Clone, Copy, Debug, PartialEq, Eq, Structural)]
pub struct Pipeline {
    pub viewport: Extent,
}

/// One pre-recorded command buffer: begin the render pass on `framebuffer`,
/// bind `pipeline` and the vertex buffer, draw, end the pass. It holds no
/// per-frame data and can be submitted any number of times.
#[derive(Clone, Copy, Debug, PartialEq, Eq, Structural)]
pub struct DrawCommand {
    pub framebuffer: FrameResource,
    pub pipeline: Pipeline,
    pub vertex_count: u32,
    pub instance_count: u32,
    pub first_vertex: u32,
    pub first_instance: u32,
}

/// One frame resource per image, in the chain's order.
pub open spec fn frames_for(image_count: nat) -> Seq<FrameResource> {
    Seq::new(image_count, |i: int| FrameResource { image: i as usize })
}

/// The single draw of the whole vertex buffer into `frame` with `pipeline`.
pub open spec fn draw_for(frame: FrameResource, pipeline: Pipeline, vertex_count: u32) -> DrawCommand {
    DrawCommand {
        framebuffer: frame,
        pipeline,
        vertex_count,
        instance_count: 1,
        first_vertex: 0,
        first_instance: 0,
    }
}

/// One command per frame resource, index-aligned with them.
pub open spec fn commands_for(frames: Seq<FrameResource>, pipeline: Pipeline, vertex_count: u32) -> Seq<DrawCommand> {
    frames.map_values(|f: FrameResource| draw_for(f, pipeline, vertex_count))
}

/// Describes the frame resources of a presentation chain with
/// `image_count` images.
pub fn build_frame_resources(image_count: usize) -> (frames: Vec<FrameResource>)
    ensures
        frames@ == frames_for(image_count as nat),
{
    let mut frames: Vec<FrameResource> = Vec::new();
    let mut i: usize = 0;
    while i < image_count
        invariant
            i <= image_count,
            frames@.len() == i,
            forall|k: int| 0 <= k < i ==> (#[trigger] frames@[k]).image == k,
        decreases image_count - i,
    {
        frames.push(FrameResource { image: i });
        i = i + 1;
    }
    assert(frames@ =~= frames_for(image_count as nat));
    frames
}

/// Describes the pipeline for a window of the given size: its viewport
/// covers the whole window.
pub fn build_pipeline(viewport: Extent) -> (pipeline: Pipeline)
    ensures
        pipeline.viewport == viewport,
{
    Pipeline { viewport }
}

/// Describes the command sequence: for each frame resource, in order, one
/// draw of `vertex_count` vertices, one instance, from the first vertex and
/// instance, with `pipeline`.
pub fn build_command_sequence(pipeline: Pipeline, vertex_count: u32, frames: &Vec<FrameResource>) -> (commands: Vec<DrawCommand>)
    ensures
        commands@ == commands_for(frames@, pipeline, vertex_count),
{
    let mut commands: Vec<DrawCommand> = Vec::new();
    let mut i: usize = 0;
    while i < frames.len()
        invariant
            i <= frames@.len(),
            commands@.len() == i,
            forall|k: int| 0 <= k < i ==> #[trigger] commands@[k] == draw_for(frames@[k], pipeline, vertex_count),
        decreases frames@.len() - i,
    {
        commands.push(DrawCommand {
            framebuffer: frames[i],
            pipeline,
            vertex_count,
            instance_count: 1,
            first_vertex: 0,
            first_instance: 0,
        });
        i = i + 1;
    }
    assert(commands@ =~= commands_for(frames@, pipeline, vertex_count));
    commands
}

} // verus!
