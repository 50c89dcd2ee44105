use vstd::prelude::*;
use crate::plan::Extent;

verus! {

/// What the images are drawn with: built once by the host, fixed for the
/// life of a swapchain.
#[derive(Clone, Copy, Debug, PartialEq, Eq)]
pub struct RenderTarget {
    pub render_pass: ash::vk::RenderPass,
    pub pipeline: ash::vk::Pipeline,
}

/// A color in eight bits per channel.
#[derive(Clone, Copy, Debug, PartialEq, Eq, Structural)]
pub struct ClearColor {
    pub red: u8,
    pub green: u8,
    pub blue: u8,
    pub alpha: u8,
}

/// The number of vertices of the scene: one triangle.
pub const VERTEX_COUNT: u32 = 3;

/// The number of instances of the scene.
pub const INSTANCE_COUNT: u32 = 1;

/// A position in an image, in pixels.
#[derive(Clone, Copy, Debug, PartialEq, Eq, Structural)]
pub struct Offset {
    pub x: i32,
    pub y: i32,
}

/// Where the commands of a subpass are recorded.
#[derive(Clone, Copy, Debug, PartialEq, Eq, Structural)]
pub enum SubpassContents {
    /// In the buffer that begins the render pass.
    Inline,
}

/// What a pipeline is bound for.
#[derive(Clone, Copy, Debug, PartialEq, Eq, Structural)]
pub enum BindPoint {
    Graphics,
}

/// One command of a command buffer.
#[derive(Clone, Copy, Debug, PartialEq, Eq)]
pub enum Command {
    /// Opens the buffer for recording.
    Begin,
    /// Begins the render pass on one framebuffer, over the area of
    /// `extent` at `offset`, clearing to `clear`.
    BeginRenderPass {
        render_pass: ash::vk::RenderPass,
        framebuffer: ash::vk::Framebuffer,
        offset: Offset,
        extent: Extent,
        clear: ClearColor,
        contents: SubpassContents,
    },
    /// Binds the pipeline at `bind_point`.
    BindPipeline { bind_point: BindPoint, pipeline: ash::vk::Pipeline },
    Draw { vertex_count: u32, instance_count: u32, first_vertex: u32, first_instance: u32 },
    EndRenderPass,
    /// Closes the buffer.
    End,
}

/// What to record into one command buffer.
#[derive(Debug, PartialEq, Eq)]
pub struct Recording {
    pub buffer: ash::vk::CommandBuffer,
    pub commands: Vec<Command>,
}

/// A recording as contracts see it.
pub struct RecordingModel {
    pub buffer: ash::vk::CommandBuffer,
    pub commands: Seq<Command>,
}

impl View for Recording {
    type V = RecordingModel;

    open spec fn view(&self) -> RecordingModel {
        RecordingModel { buffer: self.buffer, commands: self.commands@ }
    }
}

/// The recordings of a sequence, each as contracts see it.
pub open spec fn recordings_view(recordings: Seq<Recording>) -> Seq<RecordingModel> {
    Seq::new(recordings.len(), |i: int| recordings[i]@)
}

/// Opaque black.
pub open spec fn clear_color() -> ClearColor {
    ClearColor { red: 0, green: 0, blue: 0, alpha: 255 }
}

/// The fixed workload, drawn into `framebuffer`: the render pass over the
/// whole of the extent, cleared to opaque black and recorded inline; the
/// pipeline bound for graphics; one draw of the scene from its first
/// vertex and its first instance.
pub open spec fn commands_for(
    target: RenderTarget,
    framebuffer: ash::vk::Framebuffer,
    extent: Extent,
) -> Seq<Command> {
    seq![
        Command::Begin,
        Command::BeginRenderPass {
            render_pass: target.render_pass,
            framebuffer,
            offset: Offset { x: 0, y: 0 },
            extent,
            clear: clear_color(),
            contents: SubpassContents::Inline,
        },
        Command::BindPipeline { bind_point: BindPoint::Graphics, pipeline: target.pipeline },
        Command::Draw {
            vertex_count: VERTEX_COUNT,
            instance_count: INSTANCE_COUNT,
            first_vertex: 0,
            first_instance: 0,
        },
        Command::EndRenderPass,
        Command::End,
    ]
}

/// One recording for each buffer: buffer `i` draws into framebuffer `i`.
pub open spec fn recordings_for(
    target: RenderTarget,
    buffers: Seq<ash::vk::CommandBuffer>,
    framebuffers: Seq<ash::vk::Framebuffer>,
    extent: Extent,
) -> Seq<RecordingModel> {
    Seq::new(
        buffers.len(),
        |i: int|
            RecordingModel {
                buffer: buffers[i],
                commands: commands_for(target, framebuffers[i], extent),
            },
    )
}

/// The recording that draws the fixed workload into `framebuffer`.
pub fn record(
    target: &RenderTarget,
    buffer: ash::vk::CommandBuffer,
    framebuffer: ash::vk::Framebuffer,
    extent: Extent,
) -> (recording: Recording)
    ensures
        recording@ == (RecordingModel {
            buffer,
            commands: commands_for(*target, framebuffer, extent),
        }),
{
    let mut commands: Vec<Command> = Vec::new();
    commands.push(Command::Begin);
    commands.push(
        Command::BeginRenderPass {
            render_pass: target.render_pass,
            framebuffer,
            offset: Offset { x: 0, y: 0 },
            extent,
            clear: ClearColor { red: 0, green: 0, blue: 0, alpha: 255 },
            contents: SubpassContents::Inline,
        },
    );
    commands.push(
        Command::BindPipeline { bind_point: BindPoint::Graphics, pipeline: target.pipeline },
    );
    commands.push(
        Command::Draw {
            vertex_count: VERTEX_COUNT,
            instance_count: INSTANCE_COUNT,
            first_vertex: 0,
            first_instance: 0,
        },
    );
    commands.push(Command::EndRenderPass);
    commands.push(Command::End);
    assert(commands@ =~= commands_for(*target, framebuffer, extent));
    Recording { buffer, commands }
}

/// One recording for each buffer, buffer `i` for framebuffer `i`.
pub(crate) fn record_each(
    target: &RenderTarget,
    buffers: &Vec<ash::vk::CommandBuffer>,
    framebuffers: &Vec<ash::vk::Framebuffer>,
    extent: Extent,
) -> (recordings: Vec<Recording>)
    requires
        buffers.len() == framebuffers.len(),
    ensures
        recordings_view(recordings@) == recordings_for(*target, buffers@, framebuffers@, extent),
{
    let mut recordings: Vec<Recording> = Vec::new();
    let mut i: usize = 0;
    while i < buffers.len()
        invariant
            buffers.len() == framebuffers.len(),
            0 <= i <= buffers.len(),
            recordings.len() == i,
            forall|j: int|
                0 <= j < i ==> (#[trigger] recordings[j])@ == (RecordingModel {
                    buffer: buffers[j],
                    commands: commands_for(*target, framebuffers[j], extent),
                }),
        decreases buffers.len() - i,
    {
        recordings.push(record(target, buffers[i], framebuffers[i], extent));
        i += 1;
    }
    assert(recordings_view(recordings@) =~= recordings_for(
        *target,
        buffers@,
        framebuffers@,
        extent,
    ));
    recordings
}

/// Plans the static command buffers of a swapchain: for every image one
/// buffer that draws the fixed workload into that image's framebuffer.
/// Nothing depends on the frame, so the buffers are recorded once and
/// recorded anew only with new framebuffers. Refuses buffers and
/// framebuffers of different number.
pub fn record_all(
    target: &RenderTarget,
    buffers: &Vec<ash::vk::CommandBuffer>,
    framebuffers: &Vec<ash::vk::Framebuffer>,
    extent: Extent,
) -> (recordings: Option<Vec<Recording>>)
    ensures
        recordings is Some <==> buffers.len() == framebuffers.len(),
        recordings matches Some(r) ==> recordings_view(r@) == recordings_for(
            *target,
            buffers@,
            framebuffers@,
            extent,
        ),
{
    if buffers.len() != framebuffers.len() {
        None
    } else {
        Some(record_each(target, buffers, framebuffers, extent))
    }
}

} // verus!
