use ash::vk::{self, Handle};
use swapchain_sync::builder::{BuildReply, BuildStep};
use swapchain_sync::codes::Fault;
use swapchain_sync::index::{ImageIndex, SlotIndex};
use swapchain_sync::plan::{
    CompositeAlpha, Extent, ImageUsage, PresentMode, SharingMode, SurfaceCapabilities,
    SurfaceFormat, SwapchainPlan,
};
use swapchain_sync::recorder::RenderTarget;
use swapchain_sync::renderer::{
    Action, Deadlines, Event, FrameStatus, Phase, Renderer, SurfaceInfo, WaitStage,
};
use swapchain_sync::resource::{Resource, Teardown};
use swapchain_sync::sync::FenceState;

const OUT_OF_DATE: i32 = -1000001004;
const TIMEOUT: i32 = 2;
const DEVICE_LOST: i32 = -4;

fn capabilities() -> SurfaceCapabilities {
    SurfaceCapabilities {
        min_image_count: 2,
        max_image_count: 4,
        current_extent: Extent { width: 800, height: 600 },
        format: SurfaceFormat { format: 44, color_space: 0 },
        current_transform: 1,
    }
}

fn target() -> RenderTarget {
    RenderTarget {
        render_pass: vk::RenderPass::from_raw(11),
        pipeline: vk::Pipeline::from_raw(12),
    }
}

fn deadlines() -> Deadlines {
    Deadlines { acquire_ns: 5_000_000, fence_ns: 7_000_000 }
}

/// A surface that supports exactly `images` images.
fn capabilities_for(images: u64) -> SurfaceCapabilities {
    let mut capabilities = capabilities();
    capabilities.min_image_count = images as u32;
    capabilities.max_image_count = images as u32;
    capabilities
}

fn info_for(images: u64) -> SurfaceInfo {
    SurfaceInfo {
        capabilities: capabilities_for(images),
        desired_extent: Extent { width: 1, height: 1 },
        target: target(),
    }
}

const FAMILY: u32 = 5;

fn fresh_for(images: u64) -> Renderer {
    Renderer::new(
        &capabilities_for(images),
        FAMILY,
        Extent { width: 1, height: 1 },
        target(),
        deadlines(),
    )
}

fn fresh() -> Renderer {
    Renderer::new(&capabilities(), FAMILY, Extent { width: 1, height: 1 }, target(), deadlines())
}

fn plan_of(image_count: u32, extent: Extent) -> SwapchainPlan {
    SwapchainPlan {
        image_count,
        extent,
        format: SurfaceFormat { format: 44, color_space: 0 },
        array_layers: 1,
        usage: ImageUsage::ColorAttachment,
        sharing: SharingMode::Exclusive,
        queue_family_index: FAMILY,
        pre_transform: 1,
        composite_alpha: CompositeAlpha::Opaque,
        present_mode: PresentMode::Fifo,
    }
}

/// A host that creates what a build asks for and hands out handles that
/// tell their kind and their position: chain `base + 100`, images from
/// `base + 200`, views from `300`, framebuffers from `400`, command
/// buffers from `500`, semaphores from `600` and `700`, fences from `800`.
struct Host {
    base: u64,
    images: u64,
    views: u64,
    framebuffers: u64,
    semaphores: u64,
    fences: u64,
}

impl Host {
    fn new(base: u64, images: u64) -> Host {
        Host { base, images, views: 0, framebuffers: 0, semaphores: 0, fences: 0 }
    }

    fn answer(&mut self, step: &BuildStep) -> BuildReply {
        let base = self.base;
        match step {
            BuildStep::CreateChain(_) => BuildReply::Chain {
                chain: vk::SwapchainKHR::from_raw(base + 100),
                images: (0..self.images).map(|i| vk::Image::from_raw(base + 200 + i)).collect(),
            },
            BuildStep::CreateImageView { .. } => {
                self.views += 1;
                BuildReply::ImageView(vk::ImageView::from_raw(base + 299 + self.views))
            },
            BuildStep::CreateFramebuffer { .. } => {
                self.framebuffers += 1;
                BuildReply::Framebuffer(vk::Framebuffer::from_raw(base + 399 + self.framebuffers))
            },
            BuildStep::AllocateCommandBuffers { count, .. } => BuildReply::CommandBuffers(
                (0..*count as u64).map(|i| vk::CommandBuffer::from_raw(base + 500 + i)).collect(),
            ),
            BuildStep::Record(_) => BuildReply::Recorded,
            BuildStep::CreateSemaphore => {
                let i = self.semaphores;
                self.semaphores += 1;
                let raw = if i < self.images { 600 + i } else { 700 + i - self.images };
                BuildReply::Semaphore(vk::Semaphore::from_raw(base + raw))
            },
            BuildStep::CreateFence { signaled } => {
                assert!(*signaled);
                self.fences += 1;
                BuildReply::Fence(vk::Fence::from_raw(base + 799 + self.fences))
            },
            BuildStep::Done | BuildStep::Abort { .. } => panic!("nothing to answer"),
        }
    }
}

/// Answers build steps until the renderer asks for something else.
fn build(renderer: &mut Renderer, host: &mut Host, first: Action) -> Action {
    let mut action = first;
    loop {
        match action {
            Action::Build(step) => {
                action = renderer.resume(Event::Build(host.answer(&step)));
            },
            other => return other,
        }
    }
}

/// A renderer on `images` images that has built its swapchain and asked
/// for the first image of its first frame.
fn started(images: u64) -> (Renderer, Action) {
    let mut renderer = fresh_for(images);
    let first = renderer.render_frame();
    let action = build(&mut renderer, &mut Host::new(0, images), first);
    (renderer, action)
}

fn acquire(slot: u64) -> Action {
    Action::Acquire {
        chain: vk::SwapchainKHR::from_raw(100),
        semaphore: vk::Semaphore::from_raw(600 + slot),
        timeout_ns: 5_000_000,
    }
}

fn wait(slot: u64) -> Action {
    Action::WaitAndReset { fence: vk::Fence::from_raw(800 + slot), timeout_ns: 7_000_000 }
}

fn submit(slot: u64, image: u64) -> Action {
    Action::Submit {
        command_buffer: vk::CommandBuffer::from_raw(500 + image),
        wait: vk::Semaphore::from_raw(600 + slot),
        wait_stage: WaitStage::ColorAttachmentOutput,
        signal: vk::Semaphore::from_raw(700 + slot),
        fence: vk::Fence::from_raw(800 + slot),
    }
}

fn present(slot: u64, image: u32) -> Action {
    Action::Present {
        chain: vk::SwapchainKHR::from_raw(100),
        image_index: image,
        wait: vk::Semaphore::from_raw(700 + slot),
    }
}

/// Walks one frame from the acquire that `action` is to its end.
fn frame(renderer: &mut Renderer, action: Action, slot: u64, image: u32) -> Action {
    assert_eq!(action, acquire(slot));
    assert_eq!(renderer.resume(Event::Acquired(Ok((image, false)))), wait(slot));
    assert_eq!(renderer.resume(Event::FenceWaited(Ok(()))), submit(slot, image as u64));
    assert_eq!(renderer.resume(Event::Submitted(Ok(()))), present(slot, image));
    renderer.resume(Event::Presented(Ok(false)))
}

fn all_of(base: u64, images: u64) -> Vec<Resource> {
    let mut releases = Vec::new();
    for i in (0..images).rev() {
        releases.push(Resource::Fence(vk::Fence::from_raw(base + 800 + i)));
    }
    for i in (0..images).rev() {
        releases.push(Resource::Semaphore(vk::Semaphore::from_raw(base + 700 + i)));
    }
    for i in (0..images).rev() {
        releases.push(Resource::Semaphore(vk::Semaphore::from_raw(base + 600 + i)));
    }
    for i in (0..images).rev() {
        releases.push(Resource::CommandBuffer(vk::CommandBuffer::from_raw(base + 500 + i)));
    }
    for i in (0..images).rev() {
        releases.push(Resource::Framebuffer(vk::Framebuffer::from_raw(base + 400 + i)));
    }
    for i in (0..images).rev() {
        releases.push(Resource::ImageView(vk::ImageView::from_raw(base + 300 + i)));
    }
    releases.push(Resource::Swapchain(vk::SwapchainKHR::from_raw(base + 100)));
    releases
}

fn nothing() -> Teardown {
    Teardown { drain: false, releases: vec![] }
}

#[test]
fn a_new_renderer_owns_nothing_and_is_building() {
    let renderer = fresh();
    assert_eq!(renderer.phase(), Phase::Building);
    assert!(renderer.swapchain().is_none());
    assert!(!renderer.is_stale());
}

#[test]
fn the_first_frame_builds_the_swapchain_as_planned() {
    let mut renderer = fresh();
    assert_eq!(
        renderer.render_frame(),
        Action::Build(BuildStep::CreateChain(plan_of(3, Extent { width: 800, height: 600 })))
    );
}

#[test]
fn the_first_frame_goes_on_once_the_swapchain_is_built() {
    let (mut renderer, action) = started(3);
    assert_eq!(renderer.phase(), Phase::Acquiring { slot: SlotIndex(0) });
    assert_eq!(renderer.swapchain().map(|s| s.image_count()), Some(3));
    assert_eq!(frame(&mut renderer, action, 0, 0), Action::Done(FrameStatus::Presented));
    assert_eq!(renderer.phase(), Phase::Idle);
}

#[test]
fn a_frame_walks_acquire_wait_submit_present() {
    let (mut renderer, action) = started(3);
    assert_eq!(action, acquire(0));
    assert_eq!(renderer.resume(Event::Acquired(Ok((2, false)))), wait(0));
    assert_eq!(
        renderer.phase(),
        Phase::FenceWait { slot: SlotIndex(0), image: ImageIndex(2) }
    );
    assert_eq!(renderer.resume(Event::FenceWaited(Ok(()))), submit(0, 2));
    assert_eq!(
        renderer.phase(),
        Phase::Submitting { slot: SlotIndex(0), image: ImageIndex(2) }
    );
    assert_eq!(
        renderer.swapchain().unwrap().sync().fence_state(SlotIndex(0)),
        Some(FenceState::Unsignaled)
    );
    assert_eq!(renderer.resume(Event::Submitted(Ok(()))), present(0, 2));
    assert_eq!(
        renderer.phase(),
        Phase::Presenting { slot: SlotIndex(0), image: ImageIndex(2) }
    );
    assert_eq!(
        renderer.swapchain().unwrap().sync().fence_state(SlotIndex(0)),
        Some(FenceState::InFlight)
    );
    assert_eq!(
        renderer.resume(Event::Presented(Ok(false))),
        Action::Done(FrameStatus::Presented)
    );
    assert_eq!(renderer.phase(), Phase::Idle);
}

#[test]
fn frames_take_the_slots_in_rotation() {
    let (mut renderer, mut action) = started(3);
    for k in 0..10u64 {
        assert_eq!(frame(&mut renderer, action, k % 3, 0), Action::Done(FrameStatus::Presented));
        action = renderer.render_frame();
    }
    assert_eq!(action, acquire(10 % 3));
}

#[test]
fn a_slot_is_waited_on_only_after_its_last_frame_was_submitted() {
    let (mut renderer, mut action) = started(3);
    let mut submitted = [false; 3];
    for k in 0..12usize {
        let slot = k % 3;
        assert_eq!(action, acquire(slot as u64));
        let image = ((k * 2) % 3) as u32;
        assert_eq!(renderer.resume(Event::Acquired(Ok((image, false)))), wait(slot as u64));
        let expected = if submitted[slot] { FenceState::InFlight } else { FenceState::Signaled };
        for other in 0..3 {
            let state = renderer.swapchain().unwrap().sync().fence_state(SlotIndex(other));
            assert_ne!(state, Some(FenceState::Unsignaled));
            if other == slot {
                assert_eq!(state, Some(expected));
            }
        }
        assert!(matches!(renderer.resume(Event::FenceWaited(Ok(()))), Action::Submit { .. }));
        assert_eq!(
            renderer.swapchain().unwrap().sync().fence_state(SlotIndex(slot)),
            Some(FenceState::Unsignaled)
        );
        assert!(matches!(renderer.resume(Event::Submitted(Ok(()))), Action::Present { .. }));
        submitted[slot] = true;
        assert_eq!(
            renderer.resume(Event::Presented(Ok(false))),
            Action::Done(FrameStatus::Presented)
        );
        action = renderer.render_frame();
    }
}

#[test]
fn images_acquired_out_of_order_select_their_own_command_buffers() {
    let (mut renderer, mut action) = started(3);
    let images = [1u32, 0, 2, 1, 0, 2];
    for (k, image) in images.iter().enumerate() {
        let slot = (k % 3) as u64;
        assert_eq!(action, acquire(slot));
        assert_eq!(renderer.resume(Event::Acquired(Ok((*image, false)))), wait(slot));
        match renderer.resume(Event::FenceWaited(Ok(()))) {
            Action::Submit { command_buffer, wait, signal, fence, wait_stage } => {
                assert_eq!(command_buffer, vk::CommandBuffer::from_raw(500 + *image as u64));
                assert_eq!(wait, vk::Semaphore::from_raw(600 + slot));
                assert_eq!(signal, vk::Semaphore::from_raw(700 + slot));
                assert_eq!(fence, vk::Fence::from_raw(800 + slot));
                assert_eq!(wait_stage, WaitStage::ColorAttachmentOutput);
                if *image as u64 != slot {
                    assert_ne!(command_buffer, vk::CommandBuffer::from_raw(500 + slot));
                }
            },
            other => panic!("expected a submission, got {other:?}"),
        }
        assert_eq!(renderer.resume(Event::Submitted(Ok(()))), present(slot, *image));
        assert_eq!(
            renderer.resume(Event::Presented(Ok(false))),
            Action::Done(FrameStatus::Presented)
        );
        action = renderer.render_frame();
    }
}

#[test]
fn out_of_date_on_acquire_rebuilds_once_and_retries_the_frame() {
    let (mut renderer, action) = started(3);
    assert_eq!(action, acquire(0));
    assert_eq!(
        renderer.resume(Event::Acquired(Err(OUT_OF_DATE))),
        Action::Recreate { teardown: Teardown { drain: true, releases: all_of(0, 3) } }
    );
    assert_eq!(renderer.phase(), Phase::Recreate);
    assert!(renderer.swapchain().is_none());

    let mut info = info_for(2);
    info.capabilities.current_extent = Extent { width: 1024, height: 768 };
    let first = renderer.resume(Event::Surface(Ok(info)));
    assert_eq!(
        first,
        Action::Build(BuildStep::CreateChain(plan_of(2, Extent { width: 1024, height: 768 })))
    );
    let retried = build(&mut renderer, &mut Host::new(1000, 2), first);
    assert_eq!(
        retried,
        Action::Acquire {
            chain: vk::SwapchainKHR::from_raw(1100),
            semaphore: vk::Semaphore::from_raw(1600),
            timeout_ns: 5_000_000,
        }
    );
    assert_eq!(renderer.swapchain().map(|s| s.image_count()), Some(2));
    assert_eq!(
        renderer.swapchain().map(|s| s.extent()),
        Some(Extent { width: 1024, height: 768 })
    );

    assert_eq!(
        renderer.resume(Event::Acquired(Ok((1, false)))),
        Action::WaitAndReset { fence: vk::Fence::from_raw(1800), timeout_ns: 7_000_000 }
    );
    assert!(matches!(renderer.resume(Event::FenceWaited(Ok(()))), Action::Submit { .. }));
    assert!(matches!(renderer.resume(Event::Submitted(Ok(()))), Action::Present { .. }));
    assert_eq!(
        renderer.resume(Event::Presented(Ok(false))),
        Action::Done(FrameStatus::Presented)
    );
}

#[test]
fn a_second_out_of_date_in_one_frame_ends_the_frame() {
    let (mut renderer, _) = started(3);
    assert!(matches!(
        renderer.resume(Event::Acquired(Err(OUT_OF_DATE))),
        Action::Recreate { .. }
    ));
    let info = info_for(3);
    let first = renderer.resume(Event::Surface(Ok(info)));
    let retried = build(&mut renderer, &mut Host::new(1000, 3), first);
    assert!(matches!(retried, Action::Acquire { .. }));
    assert_eq!(
        renderer.resume(Event::Acquired(Err(OUT_OF_DATE))),
        Action::Done(FrameStatus::NeedsRebuild)
    );
    assert_eq!(renderer.phase(), Phase::Idle);
    assert!(renderer.is_stale());
    assert!(renderer.swapchain().is_some());
    match renderer.render_frame() {
        Action::Recreate { teardown } => {
            assert_eq!(teardown, Teardown { drain: true, releases: all_of(1000, 3) });
        },
        other => panic!("expected a rebuild, got {other:?}"),
    }
}

#[test]
fn a_failed_rebuild_is_fatal() {
    let (mut renderer, _) = started(2);
    assert!(matches!(
        renderer.resume(Event::Acquired(Err(OUT_OF_DATE))),
        Action::Recreate { .. }
    ));
    assert_eq!(
        renderer.resume(Event::Surface(Err(-1000000000))),
        Action::Abort { fault: Fault::Device(-1000000000), teardown: nothing() }
    );
    assert_eq!(renderer.phase(), Phase::ShutDown);
}

#[test]
fn a_rebuild_that_fails_midway_gives_back_the_new_parts() {
    let (mut renderer, _) = started(2);
    renderer.resume(Event::Acquired(Err(OUT_OF_DATE)));
    let info = info_for(2);
    let mut host = Host::new(1000, 2);
    let step = match renderer.resume(Event::Surface(Ok(info))) {
        Action::Build(step) => step,
        other => panic!("expected a build step, got {other:?}"),
    };
    let step = match renderer.resume(Event::Build(host.answer(&step))) {
        Action::Build(step) => step,
        other => panic!("expected a build step, got {other:?}"),
    };
    assert!(matches!(renderer.resume(Event::Build(host.answer(&step))), Action::Build(_)));
    assert_eq!(
        renderer.resume(Event::Build(BuildReply::Failed(-2))),
        Action::Abort {
            fault: Fault::Device(-2),
            teardown: Teardown {
                drain: false,
                releases: vec![
                    Resource::ImageView(vk::ImageView::from_raw(1300)),
                    Resource::Swapchain(vk::SwapchainKHR::from_raw(1100)),
                ],
            },
        }
    );
    assert_eq!(renderer.phase(), Phase::ShutDown);
}

#[test]
fn a_suboptimal_acquire_is_used_and_reported() {
    let (mut renderer, _) = started(3);
    assert_eq!(renderer.resume(Event::Acquired(Ok((1, true)))), wait(0));
    assert!(renderer.is_stale());
    assert_eq!(renderer.resume(Event::FenceWaited(Ok(()))), submit(0, 1));
    assert_eq!(renderer.resume(Event::Submitted(Ok(()))), present(0, 1));
    assert_eq!(
        renderer.resume(Event::Presented(Ok(false))),
        Action::Done(FrameStatus::NeedsRebuild)
    );
    assert!(matches!(renderer.render_frame(), Action::Recreate { .. }));
}

#[test]
fn a_suboptimal_present_is_reported() {
    let (mut renderer, _) = started(3);
    renderer.resume(Event::Acquired(Ok((0, false))));
    renderer.resume(Event::FenceWaited(Ok(())));
    renderer.resume(Event::Submitted(Ok(())));
    assert_eq!(
        renderer.resume(Event::Presented(Ok(true))),
        Action::Done(FrameStatus::NeedsRebuild)
    );
    assert_eq!(renderer.phase(), Phase::Idle);
    assert!(renderer.is_stale());
}

#[test]
fn out_of_date_on_present_rebuilds_once_and_draws_the_frame_again() {
    let (mut renderer, _) = started(2);
    renderer.resume(Event::Acquired(Ok((0, false))));
    renderer.resume(Event::FenceWaited(Ok(())));
    renderer.resume(Event::Submitted(Ok(())));
    assert_eq!(
        renderer.resume(Event::Presented(Err(OUT_OF_DATE))),
        Action::Recreate { teardown: Teardown { drain: true, releases: all_of(0, 2) } }
    );
    let info = info_for(2);
    let first = renderer.resume(Event::Surface(Ok(info)));
    let again = build(&mut renderer, &mut Host::new(1000, 2), first);
    assert!(matches!(again, Action::Acquire { .. }));
    renderer.resume(Event::Acquired(Ok((0, false))));
    renderer.resume(Event::FenceWaited(Ok(())));
    renderer.resume(Event::Submitted(Ok(())));
    assert_eq!(
        renderer.resume(Event::Presented(Err(OUT_OF_DATE))),
        Action::Done(FrameStatus::NeedsRebuild)
    );
    assert_eq!(renderer.phase(), Phase::Idle);
    assert!(renderer.is_stale());
}

#[test]
fn a_resize_rebuilds_before_the_next_acquire() {
    let (mut renderer, action) = started(3);
    assert_eq!(frame(&mut renderer, action, 0, 0), Action::Done(FrameStatus::Presented));
    renderer.notify_resize();
    assert!(renderer.is_stale());
    assert_eq!(
        renderer.render_frame(),
        Action::Recreate { teardown: Teardown { drain: true, releases: all_of(0, 3) } }
    );
    let info = info_for(3);
    let first = renderer.resume(Event::Surface(Ok(info)));
    let next = build(&mut renderer, &mut Host::new(2000, 3), first);
    assert!(matches!(next, Action::Acquire { .. }));
    assert!(!renderer.is_stale());
}

#[test]
fn a_timeout_on_acquire_skips_the_frame() {
    let (mut renderer, _) = started(3);
    assert_eq!(
        renderer.resume(Event::Acquired(Err(TIMEOUT))),
        Action::Done(FrameStatus::TimedOut)
    );
    assert_eq!(renderer.phase(), Phase::Idle);
    assert_eq!(renderer.render_frame(), acquire(1));
}

#[test]
fn a_timeout_on_the_fence_is_taken_up_by_the_next_call() {
    let (mut renderer, _) = started(3);
    assert_eq!(renderer.resume(Event::Acquired(Ok((2, false)))), wait(0));
    assert_eq!(
        renderer.resume(Event::FenceWaited(Err(TIMEOUT))),
        Action::Done(FrameStatus::TimedOut)
    );
    assert_eq!(
        renderer.phase(),
        Phase::FenceWait { slot: SlotIndex(0), image: ImageIndex(2) }
    );
    assert_eq!(
        renderer.swapchain().unwrap().sync().fence_state(SlotIndex(0)),
        Some(FenceState::Signaled)
    );
    assert_eq!(renderer.render_frame(), wait(0));
    assert_eq!(renderer.resume(Event::FenceWaited(Ok(()))), submit(0, 2));
}

#[test]
fn a_lost_device_is_fatal_wherever_it_shows() {
    let abort = Action::Abort {
        fault: Fault::Device(DEVICE_LOST),
        teardown: Teardown { drain: true, releases: all_of(0, 2) },
    };

    let (mut renderer, _) = started(2);
    assert_eq!(renderer.resume(Event::Acquired(Err(DEVICE_LOST))), abort);
    assert_eq!(renderer.phase(), Phase::ShutDown);

    let (mut renderer, _) = started(2);
    renderer.resume(Event::Acquired(Ok((0, false))));
    assert_eq!(renderer.resume(Event::FenceWaited(Err(DEVICE_LOST))), abort);

    let (mut renderer, _) = started(2);
    renderer.resume(Event::Acquired(Ok((0, false))));
    renderer.resume(Event::FenceWaited(Ok(())));
    assert_eq!(renderer.resume(Event::Submitted(Err(DEVICE_LOST))), abort);

    let (mut renderer, _) = started(2);
    renderer.resume(Event::Acquired(Ok((0, false))));
    renderer.resume(Event::FenceWaited(Ok(())));
    renderer.resume(Event::Submitted(Ok(())));
    assert_eq!(renderer.resume(Event::Presented(Err(DEVICE_LOST))), abort);
    assert_eq!(renderer.phase(), Phase::ShutDown);
    assert!(renderer.swapchain().is_none());
}

#[test]
fn an_image_the_chain_does_not_have_is_fatal() {
    let (mut renderer, _) = started(3);
    assert_eq!(
        renderer.resume(Event::Acquired(Ok((3, false)))),
        Action::Abort {
            fault: Fault::ImageOutOfRange(3),
            teardown: Teardown { drain: true, releases: all_of(0, 3) },
        }
    );
}

#[test]
fn a_failed_first_build_is_fatal_and_cleans_up() {
    let mut renderer = fresh_for(2);
    let mut host = Host::new(0, 2);
    let mut action = renderer.render_frame();
    for _ in 0..3 {
        action = match action {
            Action::Build(step) => renderer.resume(Event::Build(host.answer(&step))),
            other => panic!("expected a build step, got {other:?}"),
        };
    }
    assert!(matches!(action, Action::Build(BuildStep::CreateFramebuffer { .. })));
    let abort = renderer.resume(Event::Build(BuildReply::Failed(-1)));
    assert_eq!(abort.status(), Some(FrameStatus::FatalError(Fault::Device(-1))));
    assert_eq!(
        abort,
        Action::Abort {
            fault: Fault::Device(-1),
            teardown: Teardown {
                drain: false,
                releases: vec![
                    Resource::ImageView(vk::ImageView::from_raw(301)),
                    Resource::ImageView(vk::ImageView::from_raw(300)),
                    Resource::Swapchain(vk::SwapchainKHR::from_raw(100)),
                ],
            },
        }
    );
    assert_eq!(renderer.phase(), Phase::ShutDown);
}

#[test]
fn a_chain_of_fewer_images_than_planned_is_fatal() {
    let mut renderer = fresh();
    let first = renderer.render_frame();
    assert_eq!(
        build(&mut renderer, &mut Host::new(0, 2), first),
        Action::Abort {
            fault: Fault::TooFewImages,
            teardown: Teardown {
                drain: false,
                releases: vec![Resource::Swapchain(vk::SwapchainKHR::from_raw(100))],
            },
        }
    );
    assert_eq!(renderer.phase(), Phase::ShutDown);
}

#[test]
fn the_swapchain_has_at_least_the_planned_images() {
    for images in [3u64, 4, 6] {
        let mut renderer = fresh();
        let first = renderer.render_frame();
        let action = build(&mut renderer, &mut Host::new(0, images), first);
        assert_eq!(action, acquire(0));
        assert_eq!(renderer.swapchain().map(|s| s.image_count() as u64), Some(images));
    }
}

#[test]
fn a_build_reply_that_no_frame_asked_for_is_fatal() {
    let mut renderer = fresh();
    let reply = BuildReply::Chain {
        chain: vk::SwapchainKHR::from_raw(100),
        images: vec![vk::Image::from_raw(200); 3],
    };
    assert_eq!(
        renderer.resume(Event::Build(reply)),
        Action::Abort {
            fault: Fault::Protocol,
            teardown: Teardown {
                drain: false,
                releases: vec![Resource::Swapchain(vk::SwapchainKHR::from_raw(100))],
            },
        }
    );
    assert_eq!(renderer.phase(), Phase::ShutDown);
    assert!(renderer.swapchain().is_none());
}

#[test]
fn a_build_never_passes_for_a_presented_frame() {
    let mut renderer = fresh_for(1);
    let mut host = Host::new(0, 1);
    let mut action = renderer.render_frame();
    loop {
        assert_eq!(action.status(), None);
        match action {
            Action::Build(step) => action = renderer.resume(Event::Build(host.answer(&step))),
            other => {
                assert_eq!(other, acquire(0));
                break;
            },
        }
    }
}

#[test]
fn an_answer_out_of_turn_is_fatal() {
    let (mut renderer, _) = started(2);
    assert_eq!(
        renderer.resume(Event::Presented(Ok(false))),
        Action::Abort {
            fault: Fault::Protocol,
            teardown: Teardown { drain: true, releases: all_of(0, 2) },
        }
    );
    assert_eq!(renderer.phase(), Phase::ShutDown);
}

#[test]
fn an_answer_out_of_turn_gives_back_what_it_brought() {
    let (mut renderer, _) = started(1);
    let mut releases = vec![Resource::Fence(vk::Fence::from_raw(99))];
    releases.extend(all_of(0, 1));
    assert_eq!(
        renderer.resume(Event::Build(BuildReply::Fence(vk::Fence::from_raw(99)))),
        Action::Abort { fault: Fault::Protocol, teardown: Teardown { drain: true, releases } }
    );
}

#[test]
fn a_frame_asked_for_in_the_middle_of_a_step_is_fatal() {
    let (mut renderer, _) = started(2);
    assert_eq!(
        renderer.render_frame(),
        Action::Abort {
            fault: Fault::Protocol,
            teardown: Teardown { drain: true, releases: all_of(0, 2) },
        }
    );
}

#[test]
fn shutdown_releases_everything_once_in_the_fixed_order() {
    let (mut renderer, action) = started(3);
    assert_eq!(frame(&mut renderer, action, 0, 1), Action::Done(FrameStatus::Presented));
    let teardown = renderer.shutdown();
    assert!(teardown.drain);
    assert_eq!(teardown.releases, all_of(0, 3));
    assert_eq!(teardown.releases.len(), 19);
    for (i, a) in teardown.releases.iter().enumerate() {
        for b in teardown.releases.iter().skip(i + 1) {
            assert_ne!(a, b);
        }
    }
    assert_eq!(renderer.phase(), Phase::ShutDown);
    assert!(renderer.swapchain().is_none());
}

#[test]
fn a_second_shutdown_is_a_no_op() {
    let (mut renderer, _) = started(3);
    assert_eq!(renderer.shutdown().releases.len(), 19);
    assert_eq!(renderer.shutdown(), nothing());
    assert_eq!(renderer.shutdown(), nothing());
    assert_eq!(renderer.phase(), Phase::ShutDown);
}

#[test]
fn shutdown_in_the_middle_of_a_frame_drains_and_releases() {
    let (mut renderer, _) = started(2);
    renderer.resume(Event::Acquired(Ok((1, false))));
    renderer.resume(Event::FenceWaited(Ok(())));
    assert_eq!(renderer.shutdown(), Teardown { drain: true, releases: all_of(0, 2) });
}

#[test]
fn shutdown_in_the_middle_of_a_build_releases_what_exists() {
    let mut renderer = fresh_for(2);
    let mut host = Host::new(0, 2);
    let step = match renderer.render_frame() {
        Action::Build(step) => step,
        other => panic!("expected a build step, got {other:?}"),
    };
    renderer.resume(Event::Build(host.answer(&step)));
    assert_eq!(
        renderer.shutdown(),
        Teardown {
            drain: false,
            releases: vec![Resource::Swapchain(vk::SwapchainKHR::from_raw(100))],
        }
    );
    assert_eq!(renderer.shutdown(), nothing());
}

#[test]
fn shutdown_before_anything_was_built_releases_nothing() {
    let mut renderer = fresh();
    assert_eq!(renderer.shutdown(), nothing());
    assert_eq!(renderer.phase(), Phase::ShutDown);
}

#[test]
fn a_renderer_that_is_shut_down_refuses() {
    let (mut renderer, _) = started(2);
    renderer.shutdown();
    let refusal = Action::Abort { fault: Fault::ShutDown, teardown: nothing() };
    assert_eq!(renderer.render_frame(), refusal);
    assert_eq!(renderer.resume(Event::Acquired(Ok((0, false)))), refusal);
    assert_eq!(renderer.resume(Event::Presented(Ok(false))), refusal);
    assert_eq!(renderer.phase(), Phase::ShutDown);
    assert_eq!(
        renderer.resume(Event::Build(BuildReply::Semaphore(vk::Semaphore::from_raw(7)))),
        Action::Abort {
            fault: Fault::ShutDown,
            teardown: Teardown {
                drain: false,
                releases: vec![Resource::Semaphore(vk::Semaphore::from_raw(7))],
            },
        }
    );
}

#[test]
fn only_the_end_of_an_iteration_has_a_status() {
    assert_eq!(Action::Done(FrameStatus::Presented).status(), Some(FrameStatus::Presented));
    assert_eq!(Action::Done(FrameStatus::TimedOut).status(), Some(FrameStatus::TimedOut));
    assert_eq!(
        Action::Abort { fault: Fault::NoImages, teardown: nothing() }.status(),
        Some(FrameStatus::FatalError(Fault::NoImages))
    );
    assert_eq!(acquire(0).status(), None);
    assert_eq!(Action::Build(BuildStep::CreateSemaphore).status(), None);
}
