use vstd::prelude::*;
use crate::codes::Fault;
use crate::plan::{Extent, SwapchainPlan};
use crate::recorder::{
    record_each, recordings_for, recordings_view, Recording, RecordingModel, RenderTarget,
};
use crate::resource::{
    command_buffer_resources, fence_resources, framebuffer_resources, image_view_resources,
    lemma_reverse_concat, release_command_buffers, release_fences, release_framebuffers,
    release_image_views, release_semaphores, semaphore_resources, Resource,
};
use crate::swapchain::{Swapchain, SwapchainModel};
use crate::sync::{lemma_fresh_set_is_signaled, FrameSyncSet, SyncModel};

verus! {

/// How far a build has come: what it is creating now.
#[derive(Clone, Copy, Debug, PartialEq, Eq, Structural)]
pub enum BuildPhase {
    Chain,
    ImageViews,
    Framebuffers,
    CommandBuffers,
    Recording,
    ImageAvailable,
    RenderFinished,
    Fences,
    /// Everything is created: the swapchain can be taken.
    Complete,
    /// The build gave up and handed back what it had created.
    Aborted,
}

/// The shape of an image as a view shows it.
#[derive(Clone, Copy, Debug, PartialEq, Eq, Structural)]
pub enum ViewType {
    /// One two-dimensional image.
    TwoDimensional,
}

/// The part of an image's data that a view shows.
#[derive(Clone, Copy, Debug, PartialEq, Eq, Structural)]
pub enum ImageAspect {
    Color,
}

/// The mip levels and array layers that a view shows.
#[derive(Clone, Copy, Debug, PartialEq, Eq, Structural)]
pub struct SubresourceRange {
    pub aspect: ImageAspect,
    pub base_mip_level: u32,
    pub level_count: u32,
    pub base_array_layer: u32,
    pub layer_count: u32,
}

/// The level of a command buffer.
#[derive(Clone, Copy, Debug, PartialEq, Eq, Structural)]
pub enum BufferLevel {
    /// Submitted to a queue by itself.
    Primary,
}

/// The color of the one level and the one layer of a presentable image.
pub open spec fn whole_color_image() -> SubresourceRange {
    SubresourceRange {
        aspect: ImageAspect::Color,
        base_mip_level: 0,
        level_count: 1,
        base_array_layer: 0,
        layer_count: 1,
    }
}

/// What the host is asked to do next for a build.
#[derive(Debug, PartialEq, Eq)]
pub enum BuildStep {
    /// Create the chain as planned, and reply with it and its images.
    CreateChain(SwapchainPlan),
    /// Create a view of `image`: of this type, reading the image in the
    /// pixel format of this number, showing this range.
    CreateImageView {
        image: ash::vk::Image,
        view_type: ViewType,
        format: i32,
        range: SubresourceRange,
    },
    /// Create a framebuffer of `extent` and `layers` layers that binds
    /// `view`, and nothing else, to `render_pass`.
    CreateFramebuffer {
        view: ash::vk::ImageView,
        extent: Extent,
        layers: u32,
        render_pass: ash::vk::RenderPass,
    },
    /// Allocate `count` command buffers of this level.
    AllocateCommandBuffers { count: usize, level: BufferLevel },
    /// Record each buffer as given.
    Record(Vec<Recording>),
    /// Create a semaphore, unsignaled.
    CreateSemaphore,
    /// Create a fence, signaled where `signaled` is set.
    CreateFence { signaled: bool },
    /// Nothing: the build is complete.
    Done,
    /// Destroy `releases` from first to last; the build has failed with
    /// `fault`.
    Abort { fault: Fault, releases: Vec<Resource> },
}

/// A build step as contracts see it.
pub enum StepModel {
    CreateChain(SwapchainPlan),
    CreateImageView {
        image: ash::vk::Image,
        view_type: ViewType,
        format: i32,
        range: SubresourceRange,
    },
    CreateFramebuffer {
        view: ash::vk::ImageView,
        extent: Extent,
        layers: u32,
        render_pass: ash::vk::RenderPass,
    },
    AllocateCommandBuffers { count: usize, level: BufferLevel },
    Record(Seq<RecordingModel>),
    CreateSemaphore,
    CreateFence { signaled: bool },
    Done,
    Abort { fault: Fault, releases: Seq<Resource> },
}

impl View for BuildStep {
    type V = StepModel;

    open spec fn view(&self) -> StepModel {
        match *self {
            BuildStep::CreateChain(plan) => StepModel::CreateChain(plan),
            BuildStep::CreateImageView { image, view_type, format, range } => {
                StepModel::CreateImageView { image, view_type, format, range }
            },
            BuildStep::CreateFramebuffer { view, extent, layers, render_pass } => {
                StepModel::CreateFramebuffer { view, extent, layers, render_pass }
            },
            BuildStep::AllocateCommandBuffers { count, level } => {
                StepModel::AllocateCommandBuffers { count, level }
            },
            BuildStep::Record(recordings) => StepModel::Record(recordings_view(recordings@)),
            BuildStep::CreateSemaphore => StepModel::CreateSemaphore,
            BuildStep::CreateFence { signaled } => StepModel::CreateFence { signaled },
            BuildStep::Done => StepModel::Done,
            BuildStep::Abort { fault, releases } => StepModel::Abort { fault, releases: releases@ },
        }
    }
}

/// What the host answers to a build step.
#[derive(Debug, PartialEq, Eq)]
pub enum BuildReply {
    /// The chain, and its images in the order of their indices.
    Chain { chain: ash::vk::SwapchainKHR, images: Vec<ash::vk::Image> },
    ImageView(ash::vk::ImageView),
    Framebuffer(ash::vk::Framebuffer),
    CommandBuffers(Vec<ash::vk::CommandBuffer>),
    /// Every buffer was recorded.
    Recorded,
    Semaphore(ash::vk::Semaphore),
    Fence(ash::vk::Fence),
    /// The step failed with this result code, and created nothing.
    Failed(i32),
}

/// A reply as contracts see it.
pub enum ReplyModel {
    Chain { chain: ash::vk::SwapchainKHR, images: Seq<ash::vk::Image> },
    ImageView(ash::vk::ImageView),
    Framebuffer(ash::vk::Framebuffer),
    CommandBuffers(Seq<ash::vk::CommandBuffer>),
    Recorded,
    Semaphore(ash::vk::Semaphore),
    Fence(ash::vk::Fence),
    Failed(i32),
}

impl View for BuildReply {
    type V = ReplyModel;

    open spec fn view(&self) -> ReplyModel {
        match *self {
            BuildReply::Chain { chain, images } => ReplyModel::Chain { chain, images: images@ },
            BuildReply::ImageView(view) => ReplyModel::ImageView(view),
            BuildReply::Framebuffer(framebuffer) => ReplyModel::Framebuffer(framebuffer),
            BuildReply::CommandBuffers(buffers) => ReplyModel::CommandBuffers(buffers@),
            BuildReply::Recorded => ReplyModel::Recorded,
            BuildReply::Semaphore(semaphore) => ReplyModel::Semaphore(semaphore),
            BuildReply::Fence(fence) => ReplyModel::Fence(fence),
            BuildReply::Failed(code) => ReplyModel::Failed(code),
        }
    }
}

impl ReplyModel {
    /// What the reply brings that the host has created.
    pub open spec fn resources(self) -> Seq<Resource> {
        match self {
            ReplyModel::Chain { chain, images } => seq![Resource::Swapchain(chain)],
            ReplyModel::ImageView(view) => seq![Resource::ImageView(view)],
            ReplyModel::Framebuffer(framebuffer) => seq![Resource::Framebuffer(framebuffer)],
            ReplyModel::CommandBuffers(buffers) => command_buffer_resources(buffers),
            ReplyModel::Recorded => Seq::empty(),
            ReplyModel::Semaphore(semaphore) => seq![Resource::Semaphore(semaphore)],
            ReplyModel::Fence(fence) => seq![Resource::Fence(fence)],
            ReplyModel::Failed(code) => Seq::empty(),
        }
    }
}

/// A build as contracts see it.
pub struct BuilderModel {
    pub plan: SwapchainPlan,
    pub target: RenderTarget,
    pub phase: BuildPhase,
    pub chain: Option<ash::vk::SwapchainKHR>,
    /// The images of the chain. They belong to the presentation engine.
    pub images: Seq<ash::vk::Image>,
    pub image_views: Seq<ash::vk::ImageView>,
    pub framebuffers: Seq<ash::vk::Framebuffer>,
    pub command_buffers: Seq<ash::vk::CommandBuffer>,
    pub image_available: Seq<ash::vk::Semaphore>,
    pub render_finished: Seq<ash::vk::Semaphore>,
    pub fences: Seq<ash::vk::Fence>,
}

impl BuilderModel {
    /// A build that has created nothing yet.
    pub open spec fn start(plan: SwapchainPlan, target: RenderTarget) -> BuilderModel {
        BuilderModel {
            plan,
            target,
            phase: BuildPhase::Chain,
            chain: None,
            images: Seq::empty(),
            image_views: Seq::empty(),
            framebuffers: Seq::empty(),
            command_buffers: Seq::empty(),
            image_available: Seq::empty(),
            render_finished: Seq::empty(),
            fences: Seq::empty(),
        }
    }

    /// A build that has its chain has at least as many images as were
    /// planned, and holds of each kind what its phase asks for.
    pub open spec fn wf(self) -> bool {
        let n = self.images.len();
        let views = self.image_views.len();
        &&& (self.chain is Some ==> n >= self.plan.image_count)
        &&& self.counts_fit()
    }

    /// Whether the build holds, of each kind in the order of creation,
    /// what its phase asks for: all of the kinds before the one it is
    /// creating, none of those after it.
    pub open spec fn counts_fit(self) -> bool {
        let n = self.images.len();
        let views = self.image_views.len();
        let frames = self.framebuffers.len();
        let buffers = self.command_buffers.len();
        let available = self.image_available.len();
        let finished = self.render_finished.len();
        let fences = self.fences.len();
        match self.phase {
            BuildPhase::Chain | BuildPhase::Aborted => {
                &&& self.chain is None
                &&& n == 0 && views == 0 && frames == 0 && buffers == 0
                &&& available == 0 && finished == 0 && fences == 0
            },
            BuildPhase::ImageViews => {
                &&& self.chain is Some
                &&& views < n && frames == 0 && buffers == 0
                &&& available == 0 && finished == 0 && fences == 0
            },
            BuildPhase::Framebuffers => {
                &&& self.chain is Some
                &&& 0 < n && views == n && frames < n && buffers == 0
                &&& available == 0 && finished == 0 && fences == 0
            },
            BuildPhase::CommandBuffers => {
                &&& self.chain is Some
                &&& 0 < n && views == n && frames == n && buffers == 0
                &&& available == 0 && finished == 0 && fences == 0
            },
            BuildPhase::Recording => {
                &&& self.chain is Some
                &&& 0 < n && views == n && frames == n && buffers == n
                &&& available == 0 && finished == 0 && fences == 0
            },
            BuildPhase::ImageAvailable => {
                &&& self.chain is Some
                &&& 0 < n && views == n && frames == n && buffers == n
                &&& available < n && finished == 0 && fences == 0
            },
            BuildPhase::RenderFinished => {
                &&& self.chain is Some
                &&& 0 < n && views == n && frames == n && buffers == n
                &&& available == n && finished < n && fences == 0
            },
            BuildPhase::Fences => {
                &&& self.chain is Some
                &&& 0 < n && views == n && frames == n && buffers == n
                &&& available == n && finished == n && fences < n
            },
            BuildPhase::Complete => {
                &&& self.chain is Some
                &&& 0 < n && views == n && frames == n && buffers == n
                &&& available == n && finished == n && fences == n
            },
        }
    }

    /// Everything the build has created so far, in the order of creation.
    pub open spec fn created(self) -> Seq<Resource> {
        (match self.chain {
            Some(chain) => seq![Resource::Swapchain(chain)],
            None => Seq::empty(),
        }) + image_view_resources(self.image_views) + framebuffer_resources(self.framebuffers)
            + command_buffer_resources(self.command_buffers) + semaphore_resources(
            self.image_available,
        ) + semaphore_resources(self.render_finished) + fence_resources(self.fences)
    }

    /// What the build asks for in the phase it is in.
    pub open spec fn request(self) -> StepModel {
        match self.phase {
            BuildPhase::Chain => StepModel::CreateChain(self.plan),
            BuildPhase::ImageViews => StepModel::CreateImageView {
                image: self.images[self.image_views.len() as int],
                view_type: ViewType::TwoDimensional,
                format: self.plan.format.format,
                range: whole_color_image(),
            },
            BuildPhase::Framebuffers => StepModel::CreateFramebuffer {
                view: self.image_views[self.framebuffers.len() as int],
                extent: self.plan.extent,
                layers: 1,
                render_pass: self.target.render_pass,
            },
            BuildPhase::CommandBuffers => StepModel::AllocateCommandBuffers {
                count: self.images.len() as usize,
                level: BufferLevel::Primary,
            },
            BuildPhase::Recording => StepModel::Record(
                recordings_for(
                    self.target,
                    self.command_buffers,
                    self.framebuffers,
                    self.plan.extent,
                ),
            ),
            BuildPhase::ImageAvailable | BuildPhase::RenderFinished => StepModel::CreateSemaphore,
            BuildPhase::Fences => StepModel::CreateFence { signaled: true },
            BuildPhase::Complete => StepModel::Done,
            BuildPhase::Aborted => StepModel::Abort {
                fault: Fault::Protocol,
                releases: Seq::empty(),
            },
        }
    }

    /// The build with nothing left in it.
    pub open spec fn emptied(self) -> BuilderModel {
        BuilderModel { phase: BuildPhase::Aborted, ..BuilderModel::start(self.plan, self.target) }
    }

    /// Giving up on `reply`: everything created so far and whatever the
    /// reply brought goes back, the latest first.
    pub open spec fn aborted(self, fault: Fault, reply: ReplyModel) -> (BuilderModel, StepModel) {
        (
            self.emptied(),
            StepModel::Abort { fault, releases: (self.created() + reply.resources()).reverse() },
        )
    }

    /// The phase after `phase`.
    pub open spec fn following(phase: BuildPhase) -> BuildPhase {
        match phase {
            BuildPhase::Chain => BuildPhase::ImageViews,
            BuildPhase::ImageViews => BuildPhase::Framebuffers,
            BuildPhase::Framebuffers => BuildPhase::CommandBuffers,
            BuildPhase::CommandBuffers => BuildPhase::Recording,
            BuildPhase::Recording => BuildPhase::ImageAvailable,
            BuildPhase::ImageAvailable => BuildPhase::RenderFinished,
            BuildPhase::RenderFinished => BuildPhase::Fences,
            BuildPhase::Fences => BuildPhase::Complete,
            BuildPhase::Complete => BuildPhase::Complete,
            BuildPhase::Aborted => BuildPhase::Aborted,
        }
    }

    /// The phase once `have` things of the current kind exist.
    pub open spec fn phase_with(self, have: nat) -> BuildPhase {
        if have == self.images.len() {
            Self::following(self.phase)
        } else {
            self.phase
        }
    }

    /// The build after `reply`, and what it asks for next. A reply that
    /// answers the pending request with what was asked for moves the build
    /// on; a failure, or a reply that does not answer the request, ends it.
    /// The presentation engine may make more images than were asked for,
    /// and the build goes by the images it made; a chain of fewer images,
    /// or of none, ends the build.
    pub open spec fn after(self, reply: ReplyModel) -> (BuilderModel, StepModel) {
        match (self.phase, reply) {
            (BuildPhase::Chain, ReplyModel::Chain { chain, images }) => {
                if images.len() == 0 {
                    self.aborted(Fault::NoImages, reply)
                } else if images.len() < self.plan.image_count {
                    self.aborted(Fault::TooFewImages, reply)
                } else {
                    let next = BuilderModel {
                        phase: BuildPhase::ImageViews,
                        chain: Some(chain),
                        images,
                        ..self
                    };
                    (next, next.request())
                }
            },
            (BuildPhase::ImageViews, ReplyModel::ImageView(view)) => {
                let image_views = self.image_views.push(view);
                let next = BuilderModel {
                    phase: self.phase_with(image_views.len()),
                    image_views,
                    ..self
                };
                (next, next.request())
            },
            (BuildPhase::Framebuffers, ReplyModel::Framebuffer(framebuffer)) => {
                let framebuffers = self.framebuffers.push(framebuffer);
                let next = BuilderModel {
                    phase: self.phase_with(framebuffers.len()),
                    framebuffers,
                    ..self
                };
                (next, next.request())
            },
            (BuildPhase::CommandBuffers, ReplyModel::CommandBuffers(buffers)) => {
                if buffers.len() == self.images.len() {
                    let next = BuilderModel {
                        phase: BuildPhase::Recording,
                        command_buffers: buffers,
                        ..self
                    };
                    (next, next.request())
                } else {
                    self.aborted(Fault::BufferCount, reply)
                }
            },
            (BuildPhase::Recording, ReplyModel::Recorded) => {
                let next = BuilderModel { phase: BuildPhase::ImageAvailable, ..self };
                (next, next.request())
            },
            (BuildPhase::ImageAvailable, ReplyModel::Semaphore(semaphore)) => {
                let image_available = self.image_available.push(semaphore);
                let next = BuilderModel {
                    phase: self.phase_with(image_available.len()),
                    image_available,
                    ..self
                };
                (next, next.request())
            },
            (BuildPhase::RenderFinished, ReplyModel::Semaphore(semaphore)) => {
                let render_finished = self.render_finished.push(semaphore);
                let next = BuilderModel {
                    phase: self.phase_with(render_finished.len()),
                    render_finished,
                    ..self
                };
                (next, next.request())
            },
            (BuildPhase::Fences, ReplyModel::Fence(fence)) => {
                let fences = self.fences.push(fence);
                let next = BuilderModel { phase: self.phase_with(fences.len()), fences, ..self };
                (next, next.request())
            },
            (_, ReplyModel::Failed(code)) => self.aborted(Fault::Device(code), reply),
            _ => self.aborted(Fault::Protocol, reply),
        }
    }

    /// The swapchain a complete build hands over: every fence signaled, the
    /// slot cursor on the first slot.
    pub open spec fn product(self) -> SwapchainModel {
        SwapchainModel {
            chain: self.chain->0,
            extent: self.plan.extent,
            format: self.plan.format,
            image_views: self.image_views,
            framebuffers: self.framebuffers,
            command_buffers: self.command_buffers,
            sync: SyncModel::fresh(self.image_available, self.render_finished, self.fences),
        }
    }
}

/// Builds a swapchain step by step: it says what to create next, the host
/// creates it and replies with the handle. Whatever goes wrong, the build
/// hands back all it had created so far, for the host to destroy.
pub struct Builder {
    plan: SwapchainPlan,
    target: RenderTarget,
    phase: BuildPhase,
    chain: Option<ash::vk::SwapchainKHR>,
    images: Vec<ash::vk::Image>,
    image_views: Vec<ash::vk::ImageView>,
    framebuffers: Vec<ash::vk::Framebuffer>,
    command_buffers: Vec<ash::vk::CommandBuffer>,
    image_available: Vec<ash::vk::Semaphore>,
    render_finished: Vec<ash::vk::Semaphore>,
    fences: Vec<ash::vk::Fence>,
}

impl View for Builder {
    type V = BuilderModel;

    closed spec fn view(&self) -> BuilderModel {
        BuilderModel {
            plan: self.plan,
            target: self.target,
            phase: self.phase,
            chain: self.chain,
            images: self.images@,
            image_views: self.image_views@,
            framebuffers: self.framebuffers@,
            command_buffers: self.command_buffers@,
            image_available: self.image_available@,
            render_finished: self.render_finished@,
            fences: self.fences@,
        }
    }
}

/// Appending the reverses of seven parts, the last part first, appends the
/// reverse of the parts put together.
proof fn lemma_unwind<A>(
    s: Seq<A>,
    a: Seq<A>,
    b: Seq<A>,
    c: Seq<A>,
    d: Seq<A>,
    e: Seq<A>,
    f: Seq<A>,
    g: Seq<A>,
)
    ensures
        s + g.reverse() + f.reverse() + e.reverse() + d.reverse() + c.reverse() + b.reverse()
            + a.reverse() == s + (a + b + c + d + e + f + g).reverse(),
{
    lemma_reverse_concat(a, b);
    lemma_reverse_concat(a + b, c);
    lemma_reverse_concat(a + b + c, d);
    lemma_reverse_concat(a + b + c + d, e);
    lemma_reverse_concat(a + b + c + d + e, f);
    lemma_reverse_concat(a + b + c + d + e + f, g);
    let r2 = b.reverse() + a.reverse();
    let r3 = c.reverse() + r2;
    let r4 = d.reverse() + r3;
    let r5 = e.reverse() + r4;
    let r6 = f.reverse() + r5;
    let x5 = s + g.reverse() + f.reverse() + e.reverse() + d.reverse() + c.reverse();
    let x4 = s + g.reverse() + f.reverse() + e.reverse() + d.reverse();
    let x3 = s + g.reverse() + f.reverse() + e.reverse();
    let x2 = s + g.reverse() + f.reverse();
    let x1 = s + g.reverse();
    assert(x5 + b.reverse() + a.reverse() =~= x5 + r2);
    assert(x4 + c.reverse() + r2 =~= x4 + r3);
    assert(x3 + d.reverse() + r3 =~= x3 + r4);
    assert(x2 + e.reverse() + r4 =~= x2 + r5);
    assert(x1 + f.reverse() + r5 =~= x1 + r6);
    assert(s + g.reverse() + r6 =~= s + (g.reverse() + r6));
}

/// What `reply` brought that the host has created, the latest first.
pub fn stray_releases(reply: BuildReply) -> (releases: Vec<Resource>)
    ensures
        releases@ == reply@.resources().reverse(),
{
    let mut releases: Vec<Resource> = Vec::new();
    match reply {
        BuildReply::Chain { chain, images: _ } => {
            releases.push(Resource::Swapchain(chain));
        },
        BuildReply::ImageView(view) => {
            releases.push(Resource::ImageView(view));
        },
        BuildReply::Framebuffer(framebuffer) => {
            releases.push(Resource::Framebuffer(framebuffer));
        },
        BuildReply::CommandBuffers(buffers) => {
            release_command_buffers(&mut releases, &buffers);
        },
        BuildReply::Semaphore(semaphore) => {
            releases.push(Resource::Semaphore(semaphore));
        },
        BuildReply::Fence(fence) => {
            releases.push(Resource::Fence(fence));
        },
        BuildReply::Recorded => {},
        BuildReply::Failed(_) => {},
    }
    assert(releases@ =~= reply@.resources().reverse());
    releases
}

impl Builder {
    pub open spec fn wf(&self) -> bool {
        self@.wf()
    }

    /// A build of a swapchain as planned, drawn with `target`.
    pub fn new(plan: SwapchainPlan, target: RenderTarget) -> (builder: Builder)
        ensures
            builder.wf(),
            builder@ == BuilderModel::start(plan, target),
    {
        Builder {
            plan,
            target,
            phase: BuildPhase::Chain,
            chain: None,
            images: Vec::new(),
            image_views: Vec::new(),
            framebuffers: Vec::new(),
            command_buffers: Vec::new(),
            image_available: Vec::new(),
            render_finished: Vec::new(),
            fences: Vec::new(),
        }
    }

    pub fn phase(&self) -> (phase: BuildPhase)
        ensures
            phase == self@.phase,
    {
        self.phase
    }

    /// What the build asks for in the phase it is in. A fresh build asks
    /// for the chain.
    pub fn request(&self) -> (step: BuildStep)
        requires
            self.wf(),
        ensures
            step@ == self@.request(),
    {
        match self.phase {
            BuildPhase::Chain => BuildStep::CreateChain(self.plan),
            BuildPhase::ImageViews => BuildStep::CreateImageView {
                image: self.images[self.image_views.len()],
                view_type: ViewType::TwoDimensional,
                format: self.plan.format.format,
                range: SubresourceRange {
                    aspect: ImageAspect::Color,
                    base_mip_level: 0,
                    level_count: 1,
                    base_array_layer: 0,
                    layer_count: 1,
                },
            },
            BuildPhase::Framebuffers => BuildStep::CreateFramebuffer {
                view: self.image_views[self.framebuffers.len()],
                extent: self.plan.extent,
                layers: 1,
                render_pass: self.target.render_pass,
            },
            BuildPhase::CommandBuffers => BuildStep::AllocateCommandBuffers {
                count: self.images.len(),
                level: BufferLevel::Primary,
            },
            BuildPhase::Recording => BuildStep::Record(
                record_each(
                    &self.target,
                    &self.command_buffers,
                    &self.framebuffers,
                    self.plan.extent,
                ),
            ),
            BuildPhase::ImageAvailable => BuildStep::CreateSemaphore,
            BuildPhase::RenderFinished => BuildStep::CreateSemaphore,
            BuildPhase::Fences => BuildStep::CreateFence { signaled: true },
            BuildPhase::Complete => BuildStep::Done,
            BuildPhase::Aborted => BuildStep::Abort {
                fault: Fault::Protocol,
                releases: Vec::new(),
            },
        }
    }

    /// Ends the build: appends everything created so far to `stray`, the
    /// latest first, and keeps nothing.
    fn unwind(&mut self, stray: Vec<Resource>) -> (releases: Vec<Resource>)
        ensures
            final(self)@ == old(self)@.emptied(),
            releases@ == stray@ + old(self)@.created().reverse(),
    {
        let ghost model = self@;
        let mut releases = stray;
        release_fences(&mut releases, &self.fences);
        release_semaphores(&mut releases, &self.render_finished);
        release_semaphores(&mut releases, &self.image_available);
        release_command_buffers(&mut releases, &self.command_buffers);
        release_framebuffers(&mut releases, &self.framebuffers);
        release_image_views(&mut releases, &self.image_views);
        let ghost before_chain = releases@;
        match self.chain {
            Some(chain) => {
                releases.push(Resource::Swapchain(chain));
            },
            None => {},
        }
        proof {
            let head = match model.chain {
                Some(chain) => seq![Resource::Swapchain(chain)],
                None => Seq::empty(),
            };
            assert(head.reverse() =~= head);
            assert(releases@ =~= before_chain + head.reverse());
            lemma_unwind(
                stray@,
                head,
                image_view_resources(model.image_views),
                framebuffer_resources(model.framebuffers),
                command_buffer_resources(model.command_buffers),
                semaphore_resources(model.image_available),
                semaphore_resources(model.render_finished),
                fence_resources(model.fences),
            );
        }
        self.phase = BuildPhase::Aborted;
        self.chain = None;
        self.images = Vec::new();
        self.image_views = Vec::new();
        self.framebuffers = Vec::new();
        self.command_buffers = Vec::new();
        self.image_available = Vec::new();
        self.render_finished = Vec::new();
        self.fences = Vec::new();
        releases
    }

    /// Gives up the build: everything created so far goes back to the
    /// host, the latest first, and the build keeps nothing.
    pub fn cancel(&mut self) -> (releases: Vec<Resource>)
        ensures
            final(self).wf(),
            final(self)@ == old(self)@.emptied(),
            releases@ == old(self)@.created().reverse(),
    {
        let releases = self.unwind(Vec::new());
        assert(releases@ =~= old(self)@.created().reverse());
        releases
    }

    /// Gives up on `reply`.
    fn give_up(&mut self, fault: Fault, reply: BuildReply) -> (step: BuildStep)
        ensures
            (final(self)@, step@) == old(self)@.aborted(fault, reply@),
    {
        proof {
            lemma_reverse_concat(self@.created(), reply@.resources());
        }
        let stray = stray_releases(reply);
        let releases = self.unwind(stray);
        BuildStep::Abort { fault, releases }
    }

    /// The phase once `have` things of the current kind exist.
    fn phase_with(&self, have: usize) -> (phase: BuildPhase)
        ensures
            phase == self@.phase_with(have as nat),
    {
        if have == self.images.len() {
            match self.phase {
                BuildPhase::Chain => BuildPhase::ImageViews,
                BuildPhase::ImageViews => BuildPhase::Framebuffers,
                BuildPhase::Framebuffers => BuildPhase::CommandBuffers,
                BuildPhase::CommandBuffers => BuildPhase::Recording,
                BuildPhase::Recording => BuildPhase::ImageAvailable,
                BuildPhase::ImageAvailable => BuildPhase::RenderFinished,
                BuildPhase::RenderFinished => BuildPhase::Fences,
                BuildPhase::Fences => BuildPhase::Complete,
                BuildPhase::Complete => BuildPhase::Complete,
                BuildPhase::Aborted => BuildPhase::Aborted,
            }
        } else {
            self.phase
        }
    }

    /// Takes the host's reply to the pending request and says what to do
    /// next.
    pub fn step(&mut self, reply: BuildReply) -> (step: BuildStep)
        requires
            old(self).wf(),
        ensures
            final(self).wf(),
            (final(self)@, step@) == old(self)@.after(reply@),
    {
        match (self.phase, reply) {
            (BuildPhase::Chain, BuildReply::Chain { chain, images }) => {
                if images.len() == 0 {
                    self.give_up(Fault::NoImages, BuildReply::Chain { chain, images })
                } else if images.len() < self.plan.image_count as usize {
                    self.give_up(Fault::TooFewImages, BuildReply::Chain { chain, images })
                } else {
                    self.chain = Some(chain);
                    self.images = images;
                    self.phase = BuildPhase::ImageViews;
                    self.request()
                }
            },
            (BuildPhase::ImageViews, BuildReply::ImageView(view)) => {
                self.image_views.push(view);
                self.phase = self.phase_with(self.image_views.len());
                self.request()
            },
            (BuildPhase::Framebuffers, BuildReply::Framebuffer(framebuffer)) => {
                self.framebuffers.push(framebuffer);
                self.phase = self.phase_with(self.framebuffers.len());
                self.request()
            },
            (BuildPhase::CommandBuffers, BuildReply::CommandBuffers(buffers)) => {
                if buffers.len() == self.images.len() {
                    self.command_buffers = buffers;
                    self.phase = BuildPhase::Recording;
                    self.request()
                } else {
                    self.give_up(Fault::BufferCount, BuildReply::CommandBuffers(buffers))
                }
            },
            (BuildPhase::Recording, BuildReply::Recorded) => {
                self.phase = BuildPhase::ImageAvailable;
                self.request()
            },
            (BuildPhase::ImageAvailable, BuildReply::Semaphore(semaphore)) => {
                self.image_available.push(semaphore);
                self.phase = self.phase_with(self.image_available.len());
                self.request()
            },
            (BuildPhase::RenderFinished, BuildReply::Semaphore(semaphore)) => {
                self.render_finished.push(semaphore);
                self.phase = self.phase_with(self.render_finished.len());
                self.request()
            },
            (BuildPhase::Fences, BuildReply::Fence(fence)) => {
                self.fences.push(fence);
                self.phase = self.phase_with(self.fences.len());
                self.request()
            },
            (_, BuildReply::Failed(code)) => self.give_up(
                Fault::Device(code),
                BuildReply::Failed(code),
            ),
            (_, other) => self.give_up(Fault::Protocol, other),
        }
    }

    /// Hands over the swapchain of a complete build; nothing of any other.
    pub fn finish(self) -> (swapchain: Option<Swapchain>)
        requires
            self.wf(),
        ensures
            swapchain is Some <==> self@.phase is Complete,
            swapchain matches Some(s) ==> s.wf() && s@ == self@.product(),
    {
        let Builder {
            plan,
            target: _,
            phase,
            chain,
            images: _,
            image_views,
            framebuffers,
            command_buffers,
            image_available,
            render_finished,
            fences,
        } = self;
        match (phase, chain) {
            (BuildPhase::Complete, Some(handle)) => {
                proof {
                    lemma_fresh_set_is_signaled(image_available@, render_finished@, fences@);
                }
                let sync = FrameSyncSet::new(image_available, render_finished, fences).unwrap();
                Swapchain::new(
                    handle,
                    plan.extent,
                    plan.format,
                    image_views,
                    framebuffers,
                    command_buffers,
                    sync,
                )
            },
            _ => None,
        }
    }
}

/// A step leaves a well-formed build well formed. It says that the build
/// is complete exactly when it is, and ends the build exactly when it
/// says so.
pub proof fn lemma_after_keeps_wf(builder: BuilderModel, reply: ReplyModel)
    requires
        builder.wf(),
    ensures
        builder.after(reply).0.wf(),
        builder.after(reply).1 is Done <==> builder.after(reply).0.phase is Complete,
        builder.after(reply).1 is Abort <==> builder.after(reply).0.phase is Aborted,
        builder.after(reply).0.plan == builder.plan,
        builder.after(reply).0.target == builder.target,
{
}

/// A build that ends without a swapchain hands back exactly what had been
/// created for it, the reply that ended it included, each thing once and
/// the latest first; and it keeps nothing.
pub proof fn lemma_abort_releases_everything(
    builder: BuilderModel,
    fault: Fault,
    reply: ReplyModel,
)
    ensures
        builder.aborted(fault, reply).1 matches StepModel::Abort { releases, .. }
            && releases.to_multiset() == (builder.created() + reply.resources()).to_multiset()
            && releases == reply.resources().reverse() + builder.created().reverse(),
        builder.aborted(fault, reply).0.created() == Seq::<Resource>::empty(),
{
    (builder.created() + reply.resources()).lemma_reverse_to_multiset();
    lemma_reverse_concat(builder.created(), reply.resources());
    assert(builder.aborted(fault, reply).0.created() =~= Seq::<Resource>::empty());
}

/// What a complete build hands over is what it created: the swapchain owns
/// every resource of the build, in the same order, and nothing else.
pub proof fn lemma_product_owns_what_was_created(builder: BuilderModel)
    requires
        builder.wf(),
        builder.phase is Complete,
    ensures
        builder.product().wf(),
        builder.product().creation_order() == builder.created(),
        builder.product().image_count() == builder.images.len(),
        builder.product().image_count() >= builder.plan.image_count,
{
    lemma_fresh_set_is_signaled(builder.image_available, builder.render_finished, builder.fences);
    let sync = builder.product().sync;
    assert(sync.image_available() =~= builder.image_available);
    assert(sync.render_finished() =~= builder.render_finished);
    assert(sync.fences() =~= builder.fences);
    assert(builder.product().creation_order() =~= builder.created());
}

} // verus!
