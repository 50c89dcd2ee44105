use vstd::prelude::*;
use crate::builder::{
    lemma_after_keeps_wf, lemma_product_owns_what_was_created, stray_releases, BuildReply,
    BuildStep, Builder, BuilderModel, ReplyModel, StepModel,
};
use crate::codes::{classify, failure_of, Failure, Fault, SurfaceStatus};
use crate::index::{ImageIndex, SlotIndex};
use crate::plan::{Extent, SurfaceCapabilities, SwapchainPlan};
use crate::recorder::RenderTarget;
use crate::resource::{lemma_reverse_concat, Resource, Teardown, TeardownModel};
use crate::swapchain::{acquired_for, presented_for, Acquired, Swapchain, SwapchainModel};
use crate::sync::{
    lemma_armed_keeps_wf, lemma_no_wait_without_rearm, lemma_waited_keeps_wf, SyncOp,
};

verus! {

/// How long the host may block, in nanoseconds.
#[derive(Clone, Copy, Debug, PartialEq, Eq, Structural)]
pub struct Deadlines {
    /// On acquiring the next image.
    pub acquire_ns: u64,
    /// On waiting for the fence of a slot.
    pub fence_ns: u64,
}

/// How an iteration ended.
#[derive(Clone, Copy, Debug, PartialEq, Eq, Structural)]
pub enum FrameStatus {
    /// The frame was submitted and presented.
    Presented,
    /// The swapchain no longer matches the surface. It is rebuilt at the
    /// start of the next iteration.
    NeedsRebuild,
    /// A deadline passed. Nothing is lost: the next iteration goes on from
    /// where this one stopped.
    TimedOut,
    /// Terminal.
    FatalError(Fault),
}

/// The pipeline stage at which a submission waits for its image.
#[derive(Clone, Copy, Debug, PartialEq, Eq, Structural)]
pub enum WaitStage {
    /// Only color writes wait; the stages before them may run ahead.
    ColorAttachmentOutput,
}

/// Where the renderer stands.
#[derive(Clone, Copy, Debug, PartialEq, Eq, Structural)]
pub enum Phase {
    /// A swapchain is being built.
    Building,
    /// Between iterations.
    Idle,
    /// Waiting for the presentation engine to hand out an image.
    Acquiring { slot: SlotIndex },
    /// Waiting for the device to retire what last used the slot.
    FenceWait { slot: SlotIndex, image: ImageIndex },
    /// Waiting for the queue to take the frame's commands.
    Submitting { slot: SlotIndex, image: ImageIndex },
    /// Waiting for the queue to take the present request.
    Presenting { slot: SlotIndex, image: ImageIndex },
    /// The old swapchain is handed back; waiting to hear what the surface
    /// supports now.
    Recreate,
    /// Terminal: the renderer owns nothing.
    ShutDown,
}

/// What the surface supports now, and what to draw with.
#[derive(Clone, Copy, Debug, PartialEq, Eq)]
pub struct SurfaceInfo {
    pub capabilities: SurfaceCapabilities,
    /// The extent to use where the surface reports none.
    pub desired_extent: Extent,
    pub target: RenderTarget,
}

/// What the host is asked to do next.
#[derive(Debug, PartialEq, Eq)]
pub enum Action {
    /// Do this build step and answer with `Event::Build`.
    Build(BuildStep),
    /// Acquire the next image of `chain`, to signal `semaphore` and no
    /// fence, and answer with `Event::Acquired`.
    Acquire { chain: ash::vk::SwapchainKHR, semaphore: ash::vk::Semaphore, timeout_ns: u64 },
    /// Wait for `fence`, reset it once it is signaled, and answer with
    /// `Event::FenceWaited`.
    WaitAndReset { fence: ash::vk::Fence, timeout_ns: u64 },
    /// Submit `command_buffer`, to wait for `wait` at `wait_stage`, to
    /// signal `signal` and `fence`, and answer with `Event::Submitted`.
    Submit {
        command_buffer: ash::vk::CommandBuffer,
        wait: ash::vk::Semaphore,
        wait_stage: WaitStage,
        signal: ash::vk::Semaphore,
        fence: ash::vk::Fence,
    },
    /// Present image `image_index` of `chain`, to wait for `wait`, and
    /// answer with `Event::Presented`.
    Present { chain: ash::vk::SwapchainKHR, image_index: u32, wait: ash::vk::Semaphore },
    /// Tear the old swapchain down as given, ask the surface what it
    /// supports, and answer with `Event::Surface`.
    Recreate { teardown: Teardown },
    /// Nothing: the iteration is over.
    Done(FrameStatus),
    /// Tear down as given; the renderer has failed with `fault` and is shut
    /// down.
    Abort { fault: Fault, teardown: Teardown },
}

/// An action as contracts see it.
pub enum ActionModel {
    Build(StepModel),
    Acquire { chain: ash::vk::SwapchainKHR, semaphore: ash::vk::Semaphore, timeout_ns: u64 },
    WaitAndReset { fence: ash::vk::Fence, timeout_ns: u64 },
    Submit {
        command_buffer: ash::vk::CommandBuffer,
        wait: ash::vk::Semaphore,
        wait_stage: WaitStage,
        signal: ash::vk::Semaphore,
        fence: ash::vk::Fence,
    },
    Present { chain: ash::vk::SwapchainKHR, image_index: u32, wait: ash::vk::Semaphore },
    Recreate { teardown: TeardownModel },
    Done(FrameStatus),
    Abort { fault: Fault, teardown: TeardownModel },
}

impl View for Action {
    type V = ActionModel;

    open spec fn view(&self) -> ActionModel {
        match *self {
            Action::Build(step) => ActionModel::Build(step@),
            Action::Acquire { chain, semaphore, timeout_ns } => ActionModel::Acquire {
                chain,
                semaphore,
                timeout_ns,
            },
            Action::WaitAndReset { fence, timeout_ns } => ActionModel::WaitAndReset {
                fence,
                timeout_ns,
            },
            Action::Submit { command_buffer, wait, wait_stage, signal, fence } => {
                ActionModel::Submit { command_buffer, wait, wait_stage, signal, fence }
            },
            Action::Present { chain, image_index, wait } => ActionModel::Present {
                chain,
                image_index,
                wait,
            },
            Action::Recreate { teardown } => ActionModel::Recreate { teardown: teardown@ },
            Action::Done(status) => ActionModel::Done(status),
            Action::Abort { fault, teardown } => ActionModel::Abort { fault, teardown: teardown@ },
        }
    }
}

impl ActionModel {
    /// How the iteration ended, where the action ends one.
    pub open spec fn status(self) -> Option<FrameStatus> {
        match self {
            ActionModel::Done(status) => Some(status),
            ActionModel::Abort { fault, .. } => Some(FrameStatus::FatalError(fault)),
            _ => None,
        }
    }
}

impl Action {
    /// How the iteration ended, where the action ends one.
    pub fn status(&self) -> (status: Option<FrameStatus>)
        ensures
            status == self@.status(),
    {
        match self {
            Action::Done(status) => Some(*status),
            Action::Abort { fault, teardown: _ } => Some(FrameStatus::FatalError(*fault)),
            _ => None,
        }
    }
}

/// What the host answers to an action.
#[derive(Debug, PartialEq, Eq)]
pub enum Event {
    Build(BuildReply),
    /// The image index with the suboptimal flag, or the result code of the
    /// failure.
    Acquired(Result<(u32, bool), i32>),
    /// Nothing once the fence was signaled and reset, or the result code of
    /// the failure.
    FenceWaited(Result<(), i32>),
    Submitted(Result<(), i32>),
    /// The suboptimal flag, or the result code of the failure.
    Presented(Result<bool, i32>),
    /// What the surface supports now, or the result code of the failure to
    /// drain the device for the teardown or to find out.
    Surface(Result<SurfaceInfo, i32>),
}

/// An event as contracts see it.
pub enum EventModel {
    Build(ReplyModel),
    Acquired(Result<(u32, bool), i32>),
    FenceWaited(Result<(), i32>),
    Submitted(Result<(), i32>),
    Presented(Result<bool, i32>),
    Surface(Result<SurfaceInfo, i32>),
}

impl View for Event {
    type V = EventModel;

    open spec fn view(&self) -> EventModel {
        match *self {
            Event::Build(reply) => EventModel::Build(reply@),
            Event::Acquired(reply) => EventModel::Acquired(reply),
            Event::FenceWaited(reply) => EventModel::FenceWaited(reply),
            Event::Submitted(reply) => EventModel::Submitted(reply),
            Event::Presented(reply) => EventModel::Presented(reply),
            Event::Surface(reply) => EventModel::Surface(reply),
        }
    }
}

impl EventModel {
    /// What the event brings that the host has created.
    pub open spec fn resources(self) -> Seq<Resource> {
        match self {
            EventModel::Build(reply) => reply.resources(),
            _ => Seq::empty(),
        }
    }
}

/// A renderer as contracts see it.
pub struct RendererModel {
    pub phase: Phase,
    /// The build under way; there is one exactly while building.
    pub builder: Option<BuilderModel>,
    /// The swapchain; there is one from the end of a build until it is
    /// handed back.
    pub swapchain: Option<SwapchainModel>,
    pub target: RenderTarget,
    /// The queue family that owns the images and takes the frames.
    pub queue_family_index: u32,
    pub deadlines: Deadlines,
    /// Whether a frame waits for the build to end.
    pub resume_frame: bool,
    /// Whether the frame has had its one rebuild.
    pub rebuilt: bool,
    /// Whether the swapchain is known not to match the surface any more.
    pub stale: bool,
}

impl RendererModel {
    /// A renderer that has yet to build its first swapchain.
    pub open spec fn start(
        capabilities: SurfaceCapabilities,
        queue_family_index: u32,
        desired: Extent,
        target: RenderTarget,
        deadlines: Deadlines,
    ) -> RendererModel {
        RendererModel {
            phase: Phase::Building,
            builder: Some(
                BuilderModel::start(capabilities.plan_for(queue_family_index, desired), target),
            ),
            swapchain: None,
            target,
            queue_family_index,
            deadlines,
            resume_frame: false,
            rebuilt: false,
            stale: false,
        }
    }

    /// Whether every fence but that of `except` is signaled or about to
    /// be, and that of `except` is reset.
    pub open spec fn paced(swapchain: SwapchainModel, except: Option<int>) -> bool {
        forall|s: int|
            0 <= s < swapchain.sync.count() ==> ((#[trigger] swapchain.sync.states[s])
                is Unsignaled <==> except == Some(s))
    }

    pub open spec fn wf(self) -> bool {
        &&& self.builder is Some <==> self.phase is Building
        &&& self.builder matches Some(b) ==> {
            &&& b.wf()
            &&& !(b.phase is Complete)
            &&& !(b.phase is Aborted)
        }
        &&& self.swapchain is None <==> (self.phase is Building || self.phase is Recreate
            || self.phase is ShutDown)
        &&& self.swapchain matches Some(s) ==> {
            &&& s.wf()
            &&& match self.phase {
                Phase::Acquiring { slot } => slot.0 < s.image_count() && Self::paced(s, None),
                Phase::FenceWait { slot, image } => {
                    &&& slot.0 < s.image_count()
                    &&& image.0 < s.image_count()
                    &&& image.0 <= u32::MAX
                    &&& Self::paced(s, None)
                },
                Phase::Submitting { slot, image } => {
                    &&& slot.0 < s.image_count()
                    &&& image.0 < s.image_count()
                    &&& image.0 <= u32::MAX
                    &&& Self::paced(s, Some(slot.0 as int))
                },
                Phase::Presenting { slot, image } => {
                    &&& slot.0 < s.image_count()
                    &&& image.0 < s.image_count()
                    &&& image.0 <= u32::MAX
                    &&& Self::paced(s, None)
                },
                _ => Self::paced(s, None),
            }
        }
        &&& self.phase is ShutDown ==> !self.resume_frame
        &&& self.phase is Building && !self.resume_frame ==> self.builder->0.phase is Chain
    }

    /// Everything the renderer owns, in the order it was created.
    pub open spec fn owned(self) -> Seq<Resource> {
        match self.swapchain {
            Some(s) => s.creation_order(),
            None => match self.builder {
                Some(b) => b.created(),
                None => Seq::empty(),
            },
        }
    }

    /// What gives back everything the renderer owns, and `stray` with it:
    /// the latest first, after a drain where anything may be in flight.
    pub open spec fn teardown(self, stray: Seq<Resource>) -> TeardownModel {
        TeardownModel {
            drain: self.swapchain is Some,
            releases: (self.owned() + stray).reverse(),
        }
    }

    /// The renderer shut down.
    pub open spec fn halted(self) -> RendererModel {
        RendererModel {
            phase: Phase::ShutDown,
            builder: None,
            swapchain: None,
            resume_frame: false,
            ..self
        }
    }

    /// Giving up: everything owned goes back, and `stray` with it.
    pub open spec fn failed(self, fault: Fault, stray: Seq<Resource>) -> (
        RendererModel,
        ActionModel,
    ) {
        (self.halted(), ActionModel::Abort { fault, teardown: self.teardown(stray) })
    }

    /// What a request that is out of turn is answered with.
    pub open spec fn refusal(self) -> Fault {
        if self.phase is ShutDown {
            Fault::ShutDown
        } else {
            Fault::Protocol
        }
    }

    /// Handing the swapchain back to build a new one. This is the frame's
    /// one rebuild.
    pub open spec fn recreating(self) -> (RendererModel, ActionModel) {
        (
            RendererModel {
                phase: Phase::Recreate,
                swapchain: None,
                resume_frame: true,
                rebuilt: true,
                stale: false,
                ..self
            },
            ActionModel::Recreate { teardown: self.teardown(Seq::empty()) },
        )
    }

    /// Taking the next slot and asking for an image with its semaphore.
    pub open spec fn acquiring(self) -> (RendererModel, ActionModel) {
        let s = self.swapchain->0;
        let slot = s.sync.current;
        (
            RendererModel {
                phase: Phase::Acquiring { slot: SlotIndex(slot as usize) },
                swapchain: Some(SwapchainModel { sync: s.sync.advanced(), ..s }),
                resume_frame: false,
                ..self
            },
            ActionModel::Acquire {
                chain: s.chain,
                semaphore: s.sync.slots[slot].image_available,
                timeout_ns: self.deadlines.acquire_ns,
            },
        )
    }

    /// The wait for the fence of `slot`.
    pub open spec fn fence_wait(self, slot: SlotIndex) -> ActionModel {
        ActionModel::WaitAndReset {
            fence: self.swapchain->0.sync.slots[slot.0 as int].in_flight,
            timeout_ns: self.deadlines.fence_ns,
        }
    }

    /// The renderer after the host asked for a frame, and what it asks of
    /// the host. Between iterations a frame begins, with a rebuild first
    /// where the swapchain is stale. While a first swapchain is yet to be
    /// built and while a wait is yet to end, the frame goes on from there.
    /// Once shut down the renderer refuses; in the middle of a step the
    /// request is out of turn and ends the renderer.
    pub open spec fn begin(self) -> (RendererModel, ActionModel) {
        match self.phase {
            Phase::Idle => if self.stale {
                self.recreating()
            } else {
                (RendererModel { rebuilt: false, ..self }).acquiring()
            },
            Phase::Building => (
                RendererModel { resume_frame: true, ..self },
                ActionModel::Build(self.builder->0.request()),
            ),
            Phase::FenceWait { slot, image } => (self, self.fence_wait(slot)),
            _ => self.failed(self.refusal(), Seq::empty()),
        }
    }

    /// After a build step's reply. A build runs for a frame: a reply that
    /// comes while no frame has asked for the build is out of turn. Once
    /// the build is complete the frame goes on and asks for its image.
    pub open spec fn on_build(self, reply: ReplyModel) -> (RendererModel, ActionModel) {
        let (builder, step) = self.builder->0.after(reply);
        if !self.resume_frame {
            self.failed(self.refusal(), reply.resources())
        } else {
            match step {
                StepModel::Abort { fault, releases } => (
                    self.halted(),
                    ActionModel::Abort {
                        fault,
                        teardown: TeardownModel { drain: false, releases },
                    },
                ),
                StepModel::Done => (RendererModel {
                    phase: Phase::Idle,
                    builder: None,
                    swapchain: Some(builder.product()),
                    ..self
                }).acquiring(),
                _ => (RendererModel { builder: Some(builder), ..self }, ActionModel::Build(step)),
            }
        }
    }

    /// After the reply to an acquire for `slot`.
    pub open spec fn on_acquired(self, slot: SlotIndex, reply: Result<(u32, bool), i32>) -> (
        RendererModel,
        ActionModel,
    ) {
        match acquired_for(self.swapchain->0.image_count(), reply) {
            Acquired::Image { index, status } => {
                let next = RendererModel {
                    phase: Phase::FenceWait { slot, image: index },
                    stale: self.stale || status is SuboptimalButUsable,
                    ..self
                };
                (next, next.fence_wait(slot))
            },
            Acquired::OutOfDate => if self.rebuilt {
                (
                    RendererModel { phase: Phase::Idle, stale: true, ..self },
                    ActionModel::Done(FrameStatus::NeedsRebuild),
                )
            } else {
                self.recreating()
            },
            Acquired::TimedOut => (
                RendererModel { phase: Phase::Idle, ..self },
                ActionModel::Done(FrameStatus::TimedOut),
            ),
            Acquired::Failed(fault) => self.failed(fault, Seq::empty()),
        }
    }

    /// After the reply to the wait for the fence of `slot`.
    pub open spec fn on_fence_waited(self, slot: SlotIndex, image: ImageIndex, reply: Result<(), i32>)
        -> (RendererModel, ActionModel) {
        let s = self.swapchain->0;
        match reply {
            Ok(_) => (
                RendererModel {
                    phase: Phase::Submitting { slot, image },
                    swapchain: Some(SwapchainModel { sync: s.sync.waited(slot.0 as int), ..s }),
                    ..self
                },
                ActionModel::Submit {
                    command_buffer: s.command_buffers[image.0 as int],
                    wait: s.sync.slots[slot.0 as int].image_available,
                    wait_stage: WaitStage::ColorAttachmentOutput,
                    signal: s.sync.slots[slot.0 as int].render_finished,
                    fence: s.sync.slots[slot.0 as int].in_flight,
                },
            ),
            Err(code) => if failure_of(code) is TimedOut {
                (self, ActionModel::Done(FrameStatus::TimedOut))
            } else {
                self.failed(Fault::Device(code), Seq::empty())
            },
        }
    }

    /// After the reply to the submission for `slot`.
    pub open spec fn on_submitted(self, slot: SlotIndex, image: ImageIndex, reply: Result<(), i32>)
        -> (RendererModel, ActionModel) {
        let s = self.swapchain->0;
        match reply {
            Ok(_) => (
                RendererModel {
                    phase: Phase::Presenting { slot, image },
                    swapchain: Some(SwapchainModel { sync: s.sync.armed(slot.0 as int), ..s }),
                    ..self
                },
                ActionModel::Present {
                    chain: s.chain,
                    image_index: image.0 as u32,
                    wait: s.sync.slots[slot.0 as int].render_finished,
                },
            ),
            Err(code) => self.failed(Fault::Device(code), Seq::empty()),
        }
    }

    /// After the reply to the present. A frame that could not be shown
    /// because the swapchain is out of date is drawn again on a new one,
    /// where the frame has not had its rebuild yet.
    pub open spec fn on_presented(self, reply: Result<bool, i32>) -> (RendererModel, ActionModel) {
        match presented_for(reply) {
            Ok(SurfaceStatus::OutOfDate) => if self.rebuilt {
                (
                    RendererModel { phase: Phase::Idle, stale: true, ..self },
                    ActionModel::Done(FrameStatus::NeedsRebuild),
                )
            } else {
                self.recreating()
            },
            Ok(status) => {
                let stale = self.stale || status is SuboptimalButUsable;
                (
                    RendererModel { phase: Phase::Idle, stale, ..self },
                    ActionModel::Done(
                        if stale {
                            FrameStatus::NeedsRebuild
                        } else {
                            FrameStatus::Presented
                        },
                    ),
                )
            },
            Err(fault) => self.failed(fault, Seq::empty()),
        }
    }

    /// After the surface said what it supports.
    pub open spec fn on_surface(self, reply: Result<SurfaceInfo, i32>) -> (
        RendererModel,
        ActionModel,
    ) {
        match reply {
            Ok(info) => {
                let builder = BuilderModel::start(
                    info.capabilities.plan_for(self.queue_family_index, info.desired_extent),
                    info.target,
                );
                (
                    RendererModel {
                        phase: Phase::Building,
                        builder: Some(builder),
                        target: info.target,
                        ..self
                    },
                    ActionModel::Build(builder.request()),
                )
            },
            Err(code) => self.failed(Fault::Device(code), Seq::empty()),
        }
    }

    /// The renderer after `event`, and what it asks of the host next. An
    /// event that answers what was asked moves the iteration on; any other
    /// ends the renderer, which hands back what it owns and what the event
    /// brought.
    pub open spec fn on(self, event: EventModel) -> (RendererModel, ActionModel) {
        match (self.phase, event) {
            (Phase::Building, EventModel::Build(reply)) => self.on_build(reply),
            (Phase::Acquiring { slot }, EventModel::Acquired(reply)) => self.on_acquired(
                slot,
                reply,
            ),
            (Phase::FenceWait { slot, image }, EventModel::FenceWaited(reply)) => {
                self.on_fence_waited(slot, image, reply)
            },
            (Phase::Submitting { slot, image }, EventModel::Submitted(reply)) => {
                self.on_submitted(slot, image, reply)
            },
            (Phase::Presenting { slot, image }, EventModel::Presented(reply)) => {
                self.on_presented(reply)
            },
            (Phase::Recreate, EventModel::Surface(reply)) => self.on_surface(reply),
            _ => self.failed(self.refusal(), event.resources()),
        }
    }

    /// The renderer shut down, and what gives back all it owned.
    pub open spec fn stop(self) -> (RendererModel, TeardownModel) {
        (self.halted(), self.teardown(Seq::empty()))
    }

    /// The renderer told that the surface has changed size.
    pub open spec fn resized(self) -> RendererModel {
        RendererModel { stale: true, ..self }
    }
}

/// The presentation driver: one iteration per redraw, each a fixed walk
/// through acquire, fence wait, submit and present, with a rebuild of the
/// swapchain where the surface asks for one.
pub struct Renderer {
    phase: Phase,
    builder: Option<Builder>,
    swapchain: Option<Swapchain>,
    target: RenderTarget,
    queue_family_index: u32,
    deadlines: Deadlines,
    resume_frame: bool,
    rebuilt: bool,
    stale: bool,
}

impl View for Renderer {
    type V = RendererModel;

    closed spec fn view(&self) -> RendererModel {
        RendererModel {
            phase: self.phase,
            builder: match self.builder {
                Some(b) => Some(b@),
                None => None,
            },
            swapchain: match self.swapchain {
                Some(s) => Some(s@),
                None => None,
            },
            target: self.target,
            queue_family_index: self.queue_family_index,
            deadlines: self.deadlines,
            resume_frame: self.resume_frame,
            rebuilt: self.rebuilt,
            stale: self.stale,
        }
    }
}

impl Renderer {
    pub open spec fn wf(&self) -> bool {
        self@.wf()
    }

    /// A renderer for a surface with these capabilities, on the graphics
    /// queue family of this index. It owns nothing yet: the first frame
    /// builds the swapchain.
    pub fn new(
        capabilities: &SurfaceCapabilities,
        queue_family_index: u32,
        desired_extent: Extent,
        target: RenderTarget,
        deadlines: Deadlines,
    ) -> (renderer: Renderer)
        ensures
            renderer.wf(),
            renderer@ == RendererModel::start(
                *capabilities,
                queue_family_index,
                desired_extent,
                target,
                deadlines,
            ),
    {
        let plan = SwapchainPlan::for_surface(capabilities, queue_family_index, desired_extent);
        Renderer {
            phase: Phase::Building,
            builder: Some(Builder::new(plan, target)),
            swapchain: None,
            target,
            queue_family_index,
            deadlines,
            resume_frame: false,
            rebuilt: false,
            stale: false,
        }
    }

    pub fn phase(&self) -> (phase: Phase)
        ensures
            phase == self@.phase,
    {
        self.phase
    }

    /// Whether the next frame starts with a rebuild.
    pub fn is_stale(&self) -> (stale: bool)
        ensures
            stale == self@.stale,
    {
        self.stale
    }

    /// The swapchain, while there is one.
    pub fn swapchain(&self) -> (swapchain: Option<&Swapchain>)
        ensures
            swapchain is Some <==> self@.swapchain is Some,
            swapchain matches Some(s) ==> self@.swapchain == Some(s@),
    {
        self.swapchain.as_ref()
    }

    /// Notes that the surface has changed size: the next frame starts with
    /// a rebuild.
    pub fn notify_resize(&mut self)
        requires
            old(self).wf(),
        ensures
            final(self).wf(),
            final(self)@ == old(self)@.resized(),
    {
        self.stale = true;
    }

    /// Takes everything the renderer owns out of it: `stray` and then what
    /// was owned, the latest first.
    fn release_owned(&mut self, stray: Vec<Resource>) -> (teardown: Teardown)
        requires
            old(self).wf(),
        ensures
            final(self)@ == (RendererModel { builder: None, swapchain: None, ..old(self)@ }),
            teardown@ == (TeardownModel {
                drain: old(self)@.swapchain is Some,
                releases: stray@ + old(self)@.owned().reverse(),
            }),
    {
        let mut releases = stray;
        let mut drain = false;
        match self.swapchain.take() {
            Some(mut swapchain) => {
                swapchain.mark_idle();
                let mut owned = swapchain.cleanup();
                releases.append(&mut owned);
                drain = true;
                self.builder = None;
            },
            None => {
                match self.builder.take() {
                    Some(mut builder) => {
                        let mut owned = builder.cancel();
                        releases.append(&mut owned);
                    },
                    None => {
                        assert(releases@ =~= stray@ + old(self)@.owned().reverse());
                    },
                }
            },
        }
        Teardown { drain, releases }
    }

    /// Gives up: hands back `stray` and all that is owned, and shuts down.
    fn fail(&mut self, fault: Fault, stray: Vec<Resource>, Ghost(brought): Ghost<Seq<Resource>>) -> (action: Action)
        requires
            old(self).wf(),
            stray@ == brought.reverse(),
        ensures
            final(self).wf(),
            (final(self)@, action@) == old(self)@.failed(fault, brought),
    {
        proof {
            lemma_reverse_concat(self@.owned(), brought);
        }
        let teardown = self.release_owned(stray);
        self.phase = Phase::ShutDown;
        self.resume_frame = false;
        Action::Abort { fault, teardown }
    }

    /// Hands the swapchain back to build a new one.
    fn recreate(&mut self) -> (action: Action)
        requires
            old(self).wf(),
            old(self)@.swapchain is Some,
        ensures
            final(self).wf(),
            (final(self)@, action@) == old(self)@.recreating(),
    {
        let teardown = self.release_owned(Vec::new());
        proof {
            assert(teardown@.releases =~= old(self)@.teardown(Seq::empty()).releases);
        }
        self.phase = Phase::Recreate;
        self.resume_frame = true;
        self.rebuilt = true;
        self.stale = false;
        Action::Recreate { teardown }
    }

    /// Takes the next slot and asks for an image with its semaphore.
    fn start_acquire(&mut self) -> (action: Action)
        requires
            old(self).wf(),
            old(self)@.phase is Idle,
        ensures
            final(self).wf(),
            (final(self)@, action@) == old(self)@.acquiring(),
    {
        let mut swapchain = self.swapchain.take().unwrap();
        let chain = swapchain.chain();
        let before = swapchain.slot(swapchain.sync().current()).unwrap();
        let slot = swapchain.advance();
        self.swapchain = Some(swapchain);
        self.phase = Phase::Acquiring { slot };
        self.resume_frame = false;
        Action::Acquire {
            chain,
            semaphore: before.image_available,
            timeout_ns: self.deadlines.acquire_ns,
        }
    }

    /// The wait for the fence of `slot`.
    fn fence_wait(&self, slot: SlotIndex) -> (action: Action)
        requires
            self.wf(),
            self@.swapchain is Some,
            slot.0 < self@.swapchain->0.image_count(),
        ensures
            action@ == self@.fence_wait(slot),
    {
        let primitives = self.swapchain.as_ref().unwrap().slot(slot).unwrap();
        Action::WaitAndReset { fence: primitives.in_flight, timeout_ns: self.deadlines.fence_ns }
    }

    /// Begins an iteration, or goes on with the one that a deadline cut
    /// short. Call it on every redraw and do what it says; hand each
    /// answer to `resume` until that says the iteration is over.
    pub fn render_frame(&mut self) -> (action: Action)
        requires
            old(self).wf(),
        ensures
            final(self).wf(),
            (final(self)@, action@) == old(self)@.begin(),
    {
        match self.phase {
            Phase::Idle => {
                if self.stale {
                    self.recreate()
                } else {
                    self.rebuilt = false;
                    self.start_acquire()
                }
            },
            Phase::Building => {
                self.resume_frame = true;
                Action::Build(self.builder.as_ref().unwrap().request())
            },
            Phase::FenceWait { slot, image: _ } => self.fence_wait(slot),
            Phase::ShutDown => self.fail(Fault::ShutDown, Vec::new(), Ghost(Seq::empty())),
            _ => self.fail(Fault::Protocol, Vec::new(), Ghost(Seq::empty())),
        }
    }

    fn on_build(&mut self, reply: BuildReply) -> (action: Action)
        requires
            old(self).wf(),
            old(self)@.phase is Building,
        ensures
            final(self).wf(),
            (final(self)@, action@) == old(self)@.on_build(reply@),
    {
        proof {
            lemma_after_keeps_wf(self@.builder->0, reply@);
            if self@.builder->0.after(reply@).0.phase is Complete {
                lemma_product_owns_what_was_created(self@.builder->0.after(reply@).0);
            }
        }
        if !self.resume_frame {
            let ghost brought = reply@.resources();
            let stray = stray_releases(reply);
            return self.fail(Fault::Protocol, stray, Ghost(brought));
        }
        let mut builder = self.builder.take().unwrap();
        let step = builder.step(reply);
        match step {
            BuildStep::Abort { fault, releases } => {
                self.phase = Phase::ShutDown;
                self.resume_frame = false;
                Action::Abort { fault, teardown: Teardown { drain: false, releases } }
            },
            BuildStep::Done => {
                self.swapchain = builder.finish();
                self.phase = Phase::Idle;
                self.start_acquire()
            },
            other => {
                self.builder = Some(builder);
                Action::Build(other)
            },
        }
    }

    fn on_acquired(&mut self, slot: SlotIndex, reply: Result<(u32, bool), i32>) -> (action: Action)
        requires
            old(self).wf(),
            old(self)@.phase == (Phase::Acquiring { slot }),
        ensures
            final(self).wf(),
            (final(self)@, action@) == old(self)@.on_acquired(slot, reply),
    {
        let acquired = self.swapchain.as_ref().unwrap().acquire(reply);
        match acquired {
            Acquired::Image { index, status } => {
                self.phase = Phase::FenceWait { slot, image: index };
                match status {
                    SurfaceStatus::SuboptimalButUsable => {
                        self.stale = true;
                    },
                    _ => {},
                }
                self.fence_wait(slot)
            },
            Acquired::OutOfDate => {
                if self.rebuilt {
                    self.phase = Phase::Idle;
                    self.stale = true;
                    Action::Done(FrameStatus::NeedsRebuild)
                } else {
                    self.recreate()
                }
            },
            Acquired::TimedOut => {
                self.phase = Phase::Idle;
                Action::Done(FrameStatus::TimedOut)
            },
            Acquired::Failed(fault) => self.fail(fault, Vec::new(), Ghost(Seq::empty())),
        }
    }

    fn on_fence_waited(&mut self, slot: SlotIndex, image: ImageIndex, reply: Result<(), i32>) -> (action: Action)
        requires
            old(self).wf(),
            old(self)@.phase == (Phase::FenceWait { slot, image }),
        ensures
            final(self).wf(),
            (final(self)@, action@) == old(self)@.on_fence_waited(slot, image, reply),
    {
        match reply {
            Ok(_) => {
                let mut swapchain = self.swapchain.take().unwrap();
                let primitives = swapchain.slot(slot).unwrap();
                let command_buffer = swapchain.command_buffer(image).unwrap();
                swapchain.wait_and_reset(slot).unwrap();
                self.swapchain = Some(swapchain);
                self.phase = Phase::Submitting { slot, image };
                Action::Submit {
                    command_buffer,
                    wait: primitives.image_available,
                    wait_stage: WaitStage::ColorAttachmentOutput,
                    signal: primitives.render_finished,
                    fence: primitives.in_flight,
                }
            },
            Err(code) => {
                match classify(code) {
                    Failure::TimedOut => Action::Done(FrameStatus::TimedOut),
                    _ => self.fail(Fault::Device(code), Vec::new(), Ghost(Seq::empty())),
                }
            },
        }
    }

    fn on_submitted(&mut self, slot: SlotIndex, image: ImageIndex, reply: Result<(), i32>) -> (action: Action)
        requires
            old(self).wf(),
            old(self)@.phase == (Phase::Submitting { slot, image }),
        ensures
            final(self).wf(),
            (final(self)@, action@) == old(self)@.on_submitted(slot, image, reply),
    {
        match reply {
            Ok(_) => {
                let mut swapchain = self.swapchain.take().unwrap();
                let primitives = swapchain.slot(slot).unwrap();
                let chain = swapchain.chain();
                swapchain.arm(slot).unwrap();
                self.swapchain = Some(swapchain);
                self.phase = Phase::Presenting { slot, image };
                Action::Present {
                    chain,
                    image_index: image.0 as u32,
                    wait: primitives.render_finished,
                }
            },
            Err(code) => self.fail(Fault::Device(code), Vec::new(), Ghost(Seq::empty())),
        }
    }

    fn on_presented(&mut self, reply: Result<bool, i32>) -> (action: Action)
        requires
            old(self).wf(),
            old(self)@.phase is Presenting,
        ensures
            final(self).wf(),
            (final(self)@, action@) == old(self)@.on_presented(reply),
    {
        match Swapchain::present(reply) {
            Ok(SurfaceStatus::OutOfDate) => {
                if self.rebuilt {
                    self.phase = Phase::Idle;
                    self.stale = true;
                    Action::Done(FrameStatus::NeedsRebuild)
                } else {
                    self.recreate()
                }
            },
            Ok(status) => {
                match status {
                    SurfaceStatus::SuboptimalButUsable => {
                        self.stale = true;
                    },
                    _ => {},
                }
                self.phase = Phase::Idle;
                if self.stale {
                    Action::Done(FrameStatus::NeedsRebuild)
                } else {
                    Action::Done(FrameStatus::Presented)
                }
            },
            Err(fault) => self.fail(fault, Vec::new(), Ghost(Seq::empty())),
        }
    }

    fn on_surface(&mut self, reply: Result<SurfaceInfo, i32>) -> (action: Action)
        requires
            old(self).wf(),
            old(self)@.phase is Recreate,
        ensures
            final(self).wf(),
            (final(self)@, action@) == old(self)@.on_surface(reply),
    {
        match reply {
            Ok(info) => {
                let plan = SwapchainPlan::for_surface(
                    &info.capabilities,
                    self.queue_family_index,
                    info.desired_extent,
                );
                let builder = Builder::new(plan, info.target);
                let step = builder.request();
                self.builder = Some(builder);
                self.target = info.target;
                self.phase = Phase::Building;
                Action::Build(step)
            },
            Err(code) => self.fail(Fault::Device(code), Vec::new(), Ghost(Seq::empty())),
        }
    }

    /// Takes the host's answer to the last action and says what to do
    /// next.
    pub fn resume(&mut self, event: Event) -> (action: Action)
        requires
            old(self).wf(),
        ensures
            final(self).wf(),
            (final(self)@, action@) == old(self)@.on(event@),
    {
        match (self.phase, event) {
            (Phase::Building, Event::Build(reply)) => self.on_build(reply),
            (Phase::Acquiring { slot }, Event::Acquired(reply)) => self.on_acquired(slot, reply),
            (Phase::FenceWait { slot, image }, Event::FenceWaited(reply)) => {
                self.on_fence_waited(slot, image, reply)
            },
            (Phase::Submitting { slot, image }, Event::Submitted(reply)) => {
                self.on_submitted(slot, image, reply)
            },
            (Phase::Presenting { slot: _, image: _ }, Event::Presented(reply)) => {
                self.on_presented(reply)
            },
            (Phase::Recreate, Event::Surface(reply)) => self.on_surface(reply),
            (phase, other) => {
                let ghost brought = other@.resources();
                let stray = match other {
                    Event::Build(reply) => stray_releases(reply),
                    _ => Vec::new(),
                };
                assert(stray@ =~= brought.reverse());
                let fault = match phase {
                    Phase::ShutDown => Fault::ShutDown,
                    _ => Fault::Protocol,
                };
                self.fail(fault, stray, Ghost(brought))
            },
        }
    }

    /// Shuts the renderer down: what the host has to do to give back all
    /// that the renderer owns (drain the device, then destroy in order).
    /// A renderer that is shut down owns nothing, so shutting it down again
    /// asks for nothing.
    pub fn shutdown(&mut self) -> (teardown: Teardown)
        requires
            old(self).wf(),
        ensures
            final(self).wf(),
            (final(self)@, teardown@) == old(self)@.stop(),
    {
        let teardown = self.release_owned(Vec::new());
        proof {
            assert(teardown@.releases =~= old(self)@.teardown(Seq::empty()).releases);
        }
        self.phase = Phase::ShutDown;
        self.resume_frame = false;
        teardown
    }
}

/// Every step leaves a well-formed renderer well formed: whatever the host
/// answers, the renderer keeps one framebuffer, one command buffer and one
/// slot for each image, keeps the slot and the image of the frame in
/// range, and has every fence signaled or armed, but the one it has just
/// reset and is about to arm.
pub proof fn lemma_steps_keep_wf(renderer: RendererModel, event: EventModel)
    requires
        renderer.wf(),
    ensures
        renderer.begin().0.wf(),
        renderer.on(event).0.wf(),
        renderer.stop().0.wf(),
        renderer.resized().wf(),
{
    assert(renderer.begin().0.wf());
    match (renderer.phase, event) {
        (Phase::Building, EventModel::Build(reply)) => {
            let builder = renderer.builder->0;
            lemma_after_keeps_wf(builder, reply);
            if builder.after(reply).0.phase is Complete {
                lemma_product_owns_what_was_created(builder.after(reply).0);
            }
        },
        (Phase::FenceWait { slot, image }, EventModel::FenceWaited(reply)) => {
            lemma_waited_keeps_wf(renderer.swapchain->0.sync, slot.0 as int);
        },
        (Phase::Submitting { slot, image }, EventModel::Submitted(reply)) => {
            lemma_armed_keeps_wf(renderer.swapchain->0.sync, slot.0 as int);
        },
        _ => {},
    }
}

/// Whatever the renderer has done so far, no slot's fence was waited on
/// twice without a submission in between that armed it again: the host is
/// never sent to wait for a fence that nothing will signal, and never
/// reuses what the device may still read.
pub proof fn lemma_no_fence_is_waited_on_twice(renderer: RendererModel, slot: int, i: int, j: int)
    requires
        renderer.wf(),
        renderer.swapchain is Some,
        0 <= i < j < renderer.swapchain->0.sync.history.len(),
        renderer.swapchain->0.sync.history[i] == SyncOp::WaitedAndReset(slot),
        renderer.swapchain->0.sync.history[j] == SyncOp::WaitedAndReset(slot),
    ensures
        exists|k: int|
            i < k < j && #[trigger] renderer.swapchain->0.sync.history[k] == SyncOp::Armed(slot),
{
    lemma_no_wait_without_rearm(renderer.swapchain->0.sync.history, slot, i, j);
}

/// The renderer asks the host to wait only for a fence that is signaled or
/// armed, and records a wait only when the host reports that it ended; it
/// records an arming only when the host reports the submission taken.
pub proof fn lemma_waits_and_armings_are_recorded(
    renderer: RendererModel,
    slot: SlotIndex,
    image: ImageIndex,
)
    requires
        renderer.wf(),
    ensures
        renderer.phase == (Phase::FenceWait { slot, image }) ==> {
            &&& renderer.swapchain->0.sync.can_wait(slot.0 as int)
            &&& renderer.on(EventModel::FenceWaited(Ok(()))).0.swapchain->0.sync.history
                == renderer.swapchain->0.sync.history.push(SyncOp::WaitedAndReset(slot.0 as int))
        },
        renderer.phase == (Phase::Submitting { slot, image }) ==> {
            &&& renderer.swapchain->0.sync.can_arm(slot.0 as int)
            &&& renderer.on(EventModel::Submitted(Ok(()))).0.swapchain->0.sync.history
                == renderer.swapchain->0.sync.history.push(SyncOp::Armed(slot.0 as int))
        },
{
}

/// The frame is drawn by the command buffer of the image that was
/// acquired, and paced by the primitives of the slot that was taken: the
/// submission waits for the slot's image-available semaphore at the color
/// output, signals the slot's render-finished semaphore and arms the
/// slot's fence; the present waits for that render-finished semaphore and
/// shows the acquired image. The two indices are never exchanged.
pub proof fn lemma_submit_binds_acquired_image(
    renderer: RendererModel,
    slot: SlotIndex,
    image: ImageIndex,
)
    requires
        renderer.wf(),
    ensures
        renderer.phase == (Phase::FenceWait { slot, image }) ==> renderer.on(
            EventModel::FenceWaited(Ok(())),
        ).1 == (ActionModel::Submit {
            command_buffer: renderer.swapchain->0.command_buffers[image.0 as int],
            wait: renderer.swapchain->0.sync.slots[slot.0 as int].image_available,
            wait_stage: WaitStage::ColorAttachmentOutput,
            signal: renderer.swapchain->0.sync.slots[slot.0 as int].render_finished,
            fence: renderer.swapchain->0.sync.slots[slot.0 as int].in_flight,
        }),
        renderer.phase == (Phase::Submitting { slot, image }) ==> renderer.on(
            EventModel::Submitted(Ok(())),
        ).1 == (ActionModel::Present {
            chain: renderer.swapchain->0.chain,
            image_index: image.0 as u32,
            wait: renderer.swapchain->0.sync.slots[slot.0 as int].render_finished,
        }) && image.0 as u32 == image.0,
{
}

/// A swapchain that is out of date on acquire or on present is rebuilt,
/// once for the frame, and the frame goes on: the old swapchain goes back
/// whole, the new one is planned from what the surface supports now, and
/// the first thing asked of it is the frame's image. A second out-of-date
/// in the same frame ends the frame with a status and leaves the rebuild
/// to the next.
pub proof fn lemma_out_of_date_rebuilds_once(
    renderer: RendererModel,
    slot: SlotIndex,
    image: ImageIndex,
    code: i32,
    info: SurfaceInfo,
    reply: ReplyModel,
)
    requires
        renderer.wf(),
        failure_of(code) is OutOfDate,
    ensures
        renderer.phase == (Phase::Acquiring { slot }) && !renderer.rebuilt ==> {
            let (next, action) = renderer.on(EventModel::Acquired(Err(code)));
            &&& next.phase is Recreate
            &&& next.rebuilt
            &&& next.resume_frame
            &&& action == (ActionModel::Recreate {
                teardown: TeardownModel {
                    drain: true,
                    releases: renderer.swapchain->0.release_order(),
                },
            })
        },
        renderer.phase == (Phase::Acquiring { slot }) && renderer.rebuilt ==> {
            let (next, action) = renderer.on(EventModel::Acquired(Err(code)));
            &&& next.phase is Idle
            &&& next.stale
            &&& next.swapchain == renderer.swapchain
            &&& action == ActionModel::Done(FrameStatus::NeedsRebuild)
        },
        renderer.phase == (Phase::Presenting { slot, image }) ==> {
            let (next, action) = renderer.on(EventModel::Presented(Err(code)));
            if renderer.rebuilt {
                &&& next.phase is Idle
                &&& next.stale
                &&& next.swapchain == renderer.swapchain
                &&& action == ActionModel::Done(FrameStatus::NeedsRebuild)
            } else {
                &&& next.phase is Recreate
                &&& next.rebuilt
                &&& next.resume_frame
                &&& action == (ActionModel::Recreate {
                    teardown: TeardownModel {
                        drain: true,
                        releases: renderer.swapchain->0.release_order(),
                    },
                })
            }
        },
        renderer.phase is Recreate ==> {
            let (next, action) = renderer.on(EventModel::Surface(Ok(info)));
            &&& next.phase is Building
            &&& next.resume_frame == renderer.resume_frame
            &&& action == ActionModel::Build(
                StepModel::CreateChain(
                    info.capabilities.plan_for(renderer.queue_family_index, info.desired_extent),
                ),
            )
        },
        renderer.phase is Building && renderer.resume_frame && renderer.on(
            EventModel::Build(reply),
        ).0.swapchain is Some ==> {
            let (next, action) = renderer.on(EventModel::Build(reply));
            &&& next.phase == (Phase::Acquiring { slot: SlotIndex(0) })
            &&& action is Acquire
        },
{
    assert(renderer.owned() + Seq::<Resource>::empty() =~= renderer.owned());
    if renderer.phase is Building {
        let builder = renderer.builder->0;
        lemma_after_keeps_wf(builder, reply);
        if builder.after(reply).0.phase is Complete {
            lemma_product_owns_what_was_created(builder.after(reply).0);
        }
    }
}

/// A frame is reported as presented only when a present has just been
/// taken with nothing to say against the swapchain. Asking for a frame
/// never ends one, and a build reply that no frame has asked for ends the
/// renderer instead of passing for a frame.
pub proof fn lemma_presented_only_after_present(renderer: RendererModel, event: EventModel)
    requires
        renderer.wf(),
    ensures
        renderer.on(event).1 == ActionModel::Done(FrameStatus::Presented) ==> {
            &&& renderer.phase is Presenting
            &&& event == EventModel::Presented(Ok(false))
            &&& !renderer.stale
        },
        !(renderer.begin().1 is Done),
        renderer.phase is Building && !renderer.resume_frame && event is Build ==> renderer.on(
            event,
        ).1 == (ActionModel::Abort {
            fault: Fault::Protocol,
            teardown: TeardownModel { drain: false, releases: event.resources().reverse() },
        }),
{
    if renderer.phase is Building && event is Build {
        lemma_after_keeps_wf(renderer.builder->0, event->Build_0);
        if !renderer.resume_frame {
            assert(renderer.owned() + event.resources() =~= event.resources());
        }
    }
}

/// Shutting down gives back everything the renderer owns, each thing as
/// often as it was created and the latest first, after a drain where a
/// swapchain was in use; and a renderer that is shut down owns nothing, so
/// that shutting it down again, or asking it for a frame, gives back
/// nothing and changes nothing.
pub proof fn lemma_shutdown_releases_once(renderer: RendererModel)
    requires
        renderer.wf(),
    ensures
        renderer.stop().1.releases == renderer.owned().reverse(),
        renderer.stop().1.releases.to_multiset() == renderer.owned().to_multiset(),
        renderer.stop().1.drain == (renderer.swapchain is Some),
        renderer.stop().0.phase is ShutDown,
        renderer.stop().0.owned() == Seq::<Resource>::empty(),
        renderer.stop().0.stop() == (
            renderer.stop().0,
            TeardownModel { drain: false, releases: Seq::empty() },
        ),
        renderer.stop().0.begin() == (
            renderer.stop().0,
            ActionModel::Abort {
                fault: Fault::ShutDown,
                teardown: TeardownModel { drain: false, releases: Seq::empty() },
            },
        ),
{
    let owned = renderer.owned();
    assert(owned + Seq::<Resource>::empty() =~= owned);
    owned.lemma_reverse_to_multiset();
    let halted = renderer.stop().0;
    assert(halted.owned() =~= Seq::<Resource>::empty());
    assert((halted.owned() + Seq::<Resource>::empty()).reverse() =~= Seq::<Resource>::empty());
}

/// A failure gives back everything too: whatever ends the renderer, the
/// teardown it hands out holds all it owned and all the event brought,
/// each once, and the renderer is left owning nothing.
pub proof fn lemma_failure_releases_everything(
    renderer: RendererModel,
    fault: Fault,
    stray: Seq<Resource>,
)
    ensures
        renderer.failed(fault, stray).1 matches ActionModel::Abort { teardown, .. }
            && teardown.releases.to_multiset() == (renderer.owned() + stray).to_multiset(),
        renderer.failed(fault, stray).0.owned() == Seq::<Resource>::empty(),
        renderer.failed(fault, stray).0.phase is ShutDown,
{
    (renderer.owned() + stray).lemma_reverse_to_multiset();
    assert(renderer.failed(fault, stray).0.owned() =~= Seq::<Resource>::empty());
}

} // verus!
