use ash::vk::{self, Handle};
use swapchain_sync::codes::{Fault, SurfaceStatus};
use swapchain_sync::index::{ImageIndex, SlotIndex};
use swapchain_sync::plan::{Extent, SurfaceFormat};
use swapchain_sync::resource::{FrameSlot, Resource, SwapchainImage};
use swapchain_sync::swapchain::{Acquired, Swapchain};
use swapchain_sync::sync::{FenceState, FrameSyncSet};

fn sync_of(count: u64) -> FrameSyncSet {
    FrameSyncSet::new(
        (0..count).map(|i| vk::Semaphore::from_raw(600 + i)).collect(),
        (0..count).map(|i| vk::Semaphore::from_raw(700 + i)).collect(),
        (0..count).map(|i| vk::Fence::from_raw(800 + i)).collect(),
    )
    .expect("a set of equal parts")
}

fn parts(views: u64, framebuffers: u64, buffers: u64, slots: u64) -> Option<Swapchain> {
    Swapchain::new(
        vk::SwapchainKHR::from_raw(100),
        Extent { width: 800, height: 600 },
        SurfaceFormat { format: 44, color_space: 0 },
        (0..views).map(|i| vk::ImageView::from_raw(300 + i)).collect(),
        (0..framebuffers).map(|i| vk::Framebuffer::from_raw(400 + i)).collect(),
        (0..buffers).map(|i| vk::CommandBuffer::from_raw(500 + i)).collect(),
        sync_of(slots),
    )
}

fn swapchain_of(count: u64) -> Swapchain {
    parts(count, count, count, count).expect("a swapchain of equal parts")
}

#[test]
fn swapchain_holds_what_it_was_made_of() {
    let swapchain = swapchain_of(3);
    assert_eq!(swapchain.image_count(), 3);
    assert_eq!(swapchain.sync().len(), 3);
    assert_eq!(swapchain.extent(), Extent { width: 800, height: 600 });
    assert_eq!(swapchain.format(), SurfaceFormat { format: 44, color_space: 0 });
    assert_eq!(swapchain.chain(), vk::SwapchainKHR::from_raw(100));
    assert_eq!(
        swapchain.image(ImageIndex(2)),
        Some(SwapchainImage {
            view: vk::ImageView::from_raw(302),
            framebuffer: vk::Framebuffer::from_raw(402),
        })
    );
    assert_eq!(swapchain.image(ImageIndex(3)), None);
    assert_eq!(swapchain.command_buffer(ImageIndex(1)), Some(vk::CommandBuffer::from_raw(501)));
    assert_eq!(swapchain.command_buffer(ImageIndex(3)), None);
    assert_eq!(
        swapchain.slot(SlotIndex(0)),
        Some(FrameSlot {
            image_available: vk::Semaphore::from_raw(600),
            render_finished: vk::Semaphore::from_raw(700),
            in_flight: vk::Fence::from_raw(800),
        })
    );
    assert_eq!(swapchain.slot(SlotIndex(3)), None);
}

#[test]
fn swapchain_refuses_parts_that_do_not_match() {
    assert!(parts(3, 2, 3, 3).is_none());
    assert!(parts(3, 3, 4, 3).is_none());
    assert!(parts(3, 3, 3, 2).is_none());
    assert!(parts(2, 3, 3, 3).is_none());
    assert!(parts(0, 0, 0, 1).is_none());
    assert!(parts(1, 1, 1, 1).is_some());
}

#[test]
fn acquire_reports_the_image_and_its_status() {
    let swapchain = swapchain_of(3);
    assert_eq!(
        swapchain.acquire(Ok((2, false))),
        Acquired::Image { index: ImageIndex(2), status: SurfaceStatus::Ready }
    );
    assert_eq!(
        swapchain.acquire(Ok((0, true))),
        Acquired::Image { index: ImageIndex(0), status: SurfaceStatus::SuboptimalButUsable }
    );
}

#[test]
fn acquire_refuses_an_image_the_chain_does_not_have() {
    let swapchain = swapchain_of(3);
    assert_eq!(swapchain.acquire(Ok((3, false))), Acquired::Failed(Fault::ImageOutOfRange(3)));
    assert_eq!(
        swapchain.acquire(Ok((u32::MAX, true))),
        Acquired::Failed(Fault::ImageOutOfRange(u32::MAX))
    );
}

#[test]
fn acquire_sorts_failures() {
    let swapchain = swapchain_of(3);
    assert_eq!(swapchain.acquire(Err(-1000001004)), Acquired::OutOfDate);
    assert_eq!(swapchain.acquire(Err(2)), Acquired::TimedOut);
    assert_eq!(swapchain.acquire(Err(1)), Acquired::TimedOut);
    assert_eq!(swapchain.acquire(Err(-4)), Acquired::Failed(Fault::Device(-4)));
    assert_eq!(
        swapchain.acquire(Err(-1000000000)),
        Acquired::Failed(Fault::Device(-1000000000))
    );
}

#[test]
fn present_mirrors_the_outcomes_of_acquire() {
    assert_eq!(Swapchain::present(Ok(false)), Ok(SurfaceStatus::Ready));
    assert_eq!(Swapchain::present(Ok(true)), Ok(SurfaceStatus::SuboptimalButUsable));
    assert_eq!(Swapchain::present(Err(-1000001004)), Ok(SurfaceStatus::OutOfDate));
    assert_eq!(Swapchain::present(Err(-4)), Err(Fault::Device(-4)));
    assert_eq!(Swapchain::present(Err(2)), Err(Fault::Device(2)));
}

#[test]
fn swapchain_paces_through_its_slots() {
    let mut swapchain = swapchain_of(2);
    assert_eq!(swapchain.advance(), SlotIndex(0));
    assert_eq!(swapchain.advance(), SlotIndex(1));
    assert_eq!(swapchain.advance(), SlotIndex(0));
    assert!(swapchain.wait_and_reset(SlotIndex(0)).is_ok());
    assert!(swapchain.wait_and_reset(SlotIndex(0)).is_err());
    assert!(swapchain.arm(SlotIndex(1)).is_err());
    assert!(swapchain.arm(SlotIndex(0)).is_ok());
    assert_eq!(swapchain.sync().fence_state(SlotIndex(0)), Some(FenceState::InFlight));
    swapchain.mark_idle();
    assert_eq!(swapchain.sync().fence_state(SlotIndex(0)), Some(FenceState::Signaled));
    assert_eq!(swapchain.image_count(), 2);
}

#[test]
fn cleanup_releases_in_the_fixed_order() {
    let swapchain = swapchain_of(2);
    assert_eq!(
        swapchain.cleanup(),
        vec![
            Resource::Fence(vk::Fence::from_raw(801)),
            Resource::Fence(vk::Fence::from_raw(800)),
            Resource::Semaphore(vk::Semaphore::from_raw(701)),
            Resource::Semaphore(vk::Semaphore::from_raw(700)),
            Resource::Semaphore(vk::Semaphore::from_raw(601)),
            Resource::Semaphore(vk::Semaphore::from_raw(600)),
            Resource::CommandBuffer(vk::CommandBuffer::from_raw(501)),
            Resource::CommandBuffer(vk::CommandBuffer::from_raw(500)),
            Resource::Framebuffer(vk::Framebuffer::from_raw(401)),
            Resource::Framebuffer(vk::Framebuffer::from_raw(400)),
            Resource::ImageView(vk::ImageView::from_raw(301)),
            Resource::ImageView(vk::ImageView::from_raw(300)),
            Resource::Swapchain(vk::SwapchainKHR::from_raw(100)),
        ]
    );
}

#[test]
fn cleanup_releases_every_resource_once() {
    let releases = swapchain_of(4).cleanup();
    assert_eq!(releases.len(), 1 + 6 * 4);
    for (i, a) in releases.iter().enumerate() {
        for b in releases.iter().skip(i + 1) {
            assert_ne!(a, b);
        }
    }
}
