use vstd::prelude::*;
use crate::codes::{
    classify, failure_of, status_of, Failure, Fault, SurfaceStatus, ERROR_OUT_OF_DATE,
};
use crate::index::{ImageIndex, SlotIndex};
use crate::plan::{Extent, SurfaceFormat};
use crate::resource::{
    command_buffer_resources, framebuffer_resources, image_view_resources, lemma_reverse_concat,
    release_command_buffers, release_framebuffers, release_image_views, FrameSlot, Resource,
    SwapchainImage,
};
use crate::sync::{FrameSyncSet, SyncError, SyncModel};

verus! {

/// What an acquire came to.
#[derive(Clone, Copy, Debug, PartialEq, Eq, Structural)]
pub enum Acquired {
    /// An image was acquired; `status` is `Ready` or `SuboptimalButUsable`.
    Image { index: ImageIndex, status: SurfaceStatus },
    /// Nothing was acquired: the swapchain has to be rebuilt first.
    OutOfDate,
    /// Nothing was acquired before the deadline.
    TimedOut,
    Failed(Fault),
}

/// What the reply to an acquire means on a chain of `image_count` images.
/// A reply is either the index of the image with the suboptimal flag, or
/// the result code of the failure.
pub open spec fn acquired_for(image_count: int, reply: Result<(u32, bool), i32>) -> Acquired {
    match reply {
        Ok((index, suboptimal)) => if index < image_count {
            Acquired::Image { index: ImageIndex(index as usize), status: status_of(suboptimal) }
        } else {
            Acquired::Failed(Fault::ImageOutOfRange(index))
        },
        Err(code) => match failure_of(code) {
            Failure::OutOfDate => Acquired::OutOfDate,
            Failure::TimedOut => Acquired::TimedOut,
            Failure::Fatal(c) => Acquired::Failed(Fault::Device(c)),
        },
    }
}

/// What the reply to a present means. A reply is either the suboptimal
/// flag or the result code of the failure. A present has no deadline, so
/// every failure but out-of-date is a fault.
pub open spec fn presented_for(reply: Result<bool, i32>) -> Result<SurfaceStatus, Fault> {
    match reply {
        Ok(suboptimal) => Ok(status_of(suboptimal)),
        Err(code) => if code == ERROR_OUT_OF_DATE {
            Ok(SurfaceStatus::OutOfDate)
        } else {
            Err(Fault::Device(code))
        },
    }
}

/// A swapchain as contracts see it.
pub struct SwapchainModel {
    pub chain: ash::vk::SwapchainKHR,
    pub extent: Extent,
    pub format: SurfaceFormat,
    pub image_views: Seq<ash::vk::ImageView>,
    pub framebuffers: Seq<ash::vk::Framebuffer>,
    pub command_buffers: Seq<ash::vk::CommandBuffer>,
    pub sync: SyncModel,
}

impl SwapchainModel {
    pub open spec fn image_count(self) -> int {
        self.image_views.len() as int
    }

    /// There is at least one image, and one framebuffer, one command
    /// buffer and one frame slot for each.
    pub open spec fn wf(self) -> bool {
        &&& self.image_views.len() > 0
        &&& self.framebuffers.len() == self.image_views.len()
        &&& self.command_buffers.len() == self.image_views.len()
        &&& self.sync.wf()
        &&& self.sync.count() == self.image_views.len()
    }

    /// Everything the swapchain owns, in the order it was created: the
    /// chain, the image views, the framebuffers, the command buffers, the
    /// synchronization primitives.
    pub open spec fn creation_order(self) -> Seq<Resource> {
        seq![Resource::Swapchain(self.chain)] + image_view_resources(self.image_views)
            + framebuffer_resources(self.framebuffers) + command_buffer_resources(
            self.command_buffers,
        ) + self.sync.creation_order()
    }

    /// The order of destruction: the reverse of the order of creation.
    pub open spec fn release_order(self) -> Seq<Resource> {
        self.creation_order().reverse()
    }
}

/// The chain of presentable images with everything that is made per image:
/// views, framebuffers, pre-recorded command buffers, and the frame slots
/// that pace the frames.
pub struct Swapchain {
    chain: ash::vk::SwapchainKHR,
    extent: Extent,
    format: SurfaceFormat,
    image_views: Vec<ash::vk::ImageView>,
    framebuffers: Vec<ash::vk::Framebuffer>,
    command_buffers: Vec<ash::vk::CommandBuffer>,
    sync: FrameSyncSet,
}

impl View for Swapchain {
    type V = SwapchainModel;

    closed spec fn view(&self) -> SwapchainModel {
        SwapchainModel {
            chain: self.chain,
            extent: self.extent,
            format: self.format,
            image_views: self.image_views@,
            framebuffers: self.framebuffers@,
            command_buffers: self.command_buffers@,
            sync: self.sync@,
        }
    }
}

impl Swapchain {
    pub open spec fn wf(&self) -> bool {
        self@.wf()
    }

    /// Puts a swapchain together from its parts. Refuses parts that do not
    /// have one entry for each image, and a chain without images.
    pub fn new(
        chain: ash::vk::SwapchainKHR,
        extent: Extent,
        format: SurfaceFormat,
        image_views: Vec<ash::vk::ImageView>,
        framebuffers: Vec<ash::vk::Framebuffer>,
        command_buffers: Vec<ash::vk::CommandBuffer>,
        sync: FrameSyncSet,
    ) -> (swapchain: Option<Swapchain>)
        requires
            sync.wf(),
        ensures
            swapchain is Some <==> 0 < image_views.len() == framebuffers.len()
                == command_buffers.len() == sync@.count(),
            swapchain matches Some(s) ==> s.wf() && s@ == (SwapchainModel {
                chain,
                extent,
                format,
                image_views: image_views@,
                framebuffers: framebuffers@,
                command_buffers: command_buffers@,
                sync: sync@,
            }),
    {
        let count: usize = image_views.len();
        if count == 0 || framebuffers.len() != count || command_buffers.len() != count
            || sync.len() != count {
            return None;
        }
        Some(Swapchain { chain, extent, format, image_views, framebuffers, command_buffers, sync })
    }

    /// The number of presentable images.
    pub fn image_count(&self) -> (count: usize)
        ensures
            count == self@.image_count(),
    {
        self.image_views.len()
    }

    pub fn extent(&self) -> (extent: Extent)
        ensures
            extent == self@.extent,
    {
        self.extent
    }

    pub fn format(&self) -> (format: SurfaceFormat)
        ensures
            format == self@.format,
    {
        self.format
    }

    pub fn chain(&self) -> (chain: ash::vk::SwapchainKHR)
        ensures
            chain == self@.chain,
    {
        self.chain
    }

    /// The view and the framebuffer of image `index`.
    pub fn image(&self, index: ImageIndex) -> (image: Option<SwapchainImage>)
        requires
            self.wf(),
        ensures
            image == if index.0 < self@.image_count() {
                Some(
                    SwapchainImage {
                        view: self@.image_views[index.0 as int],
                        framebuffer: self@.framebuffers[index.0 as int],
                    },
                )
            } else {
                None
            },
    {
        if index.0 < self.image_views.len() {
            Some(
                SwapchainImage {
                    view: self.image_views[index.0],
                    framebuffer: self.framebuffers[index.0],
                },
            )
        } else {
            None
        }
    }

    /// The command buffer recorded for image `index`.
    pub fn command_buffer(&self, index: ImageIndex) -> (buffer: Option<ash::vk::CommandBuffer>)
        requires
            self.wf(),
        ensures
            buffer == if index.0 < self@.image_count() {
                Some(self@.command_buffers[index.0 as int])
            } else {
                None
            },
    {
        if index.0 < self.command_buffers.len() {
            Some(self.command_buffers[index.0])
        } else {
            None
        }
    }

    /// The frame slots.
    pub fn sync(&self) -> (sync: &FrameSyncSet)
        ensures
            sync@ == self@.sync,
    {
        &self.sync
    }

    /// The primitives of `slot`.
    pub fn slot(&self, slot: SlotIndex) -> (primitives: Option<FrameSlot>)
        ensures
            primitives == if slot.0 < self@.sync.count() {
                Some(self@.sync.slots[slot.0 as int])
            } else {
                None
            },
    {
        self.sync.slot(slot)
    }

    /// Hands out the current slot and moves the cursor on.
    pub fn advance(&mut self) -> (slot: SlotIndex)
        requires
            old(self).wf(),
        ensures
            final(self).wf(),
            slot.0 == old(self)@.sync.current,
            final(self)@ == (SwapchainModel { sync: old(self)@.sync.advanced(), ..old(self)@ }),
    {
        self.sync.advance()
    }

    /// Says what came of an acquire on this chain.
    pub fn acquire(&self, reply: Result<(u32, bool), i32>) -> (acquired: Acquired)
        ensures
            acquired == acquired_for(self@.image_count(), reply),
    {
        match reply {
            Ok((index, suboptimal)) => {
                if (index as usize) < self.image_views.len() {
                    let status = if suboptimal {
                        SurfaceStatus::SuboptimalButUsable
                    } else {
                        SurfaceStatus::Ready
                    };
                    Acquired::Image { index: ImageIndex(index as usize), status }
                } else {
                    Acquired::Failed(Fault::ImageOutOfRange(index))
                }
            },
            Err(code) => match classify(code) {
                Failure::OutOfDate => Acquired::OutOfDate,
                Failure::TimedOut => Acquired::TimedOut,
                Failure::Fatal(c) => Acquired::Failed(Fault::Device(c)),
            },
        }
    }

    /// Says what came of a present.
    pub fn present(reply: Result<bool, i32>) -> (presented: Result<SurfaceStatus, Fault>)
        ensures
            presented == presented_for(reply),
    {
        match reply {
            Ok(suboptimal) => Ok(
                if suboptimal {
                    SurfaceStatus::SuboptimalButUsable
                } else {
                    SurfaceStatus::Ready
                },
            ),
            Err(code) => if code == ERROR_OUT_OF_DATE {
                Ok(SurfaceStatus::OutOfDate)
            } else {
                Err(Fault::Device(code))
            },
        }
    }

    /// Records that the host has waited on the fence of `slot` and reset it.
    pub fn wait_and_reset(&mut self, slot: SlotIndex) -> (done: Result<(), SyncError>)
        requires
            old(self).wf(),
        ensures
            final(self).wf(),
            done == old(self)@.sync.wait_outcome(slot),
            final(self)@ == if done is Ok {
                SwapchainModel { sync: old(self)@.sync.waited(slot.0 as int), ..old(self)@ }
            } else {
                old(self)@
            },
    {
        self.sync.wait_and_reset(slot)
    }

    /// Records that a submission armed the fence of `slot`.
    pub fn arm(&mut self, slot: SlotIndex) -> (done: Result<(), SyncError>)
        requires
            old(self).wf(),
        ensures
            final(self).wf(),
            done == old(self)@.sync.arm_outcome(slot),
            final(self)@ == if done is Ok {
                SwapchainModel { sync: old(self)@.sync.armed(slot.0 as int), ..old(self)@ }
            } else {
                old(self)@
            },
    {
        self.sync.arm(slot)
    }

    /// Records that the device has drained.
    pub fn mark_idle(&mut self)
        requires
            old(self).wf(),
        ensures
            final(self).wf(),
            final(self)@ == (SwapchainModel { sync: old(self)@.sync.drained(), ..old(self)@ }),
            final(self)@.sync.idle(),
    {
        self.sync.mark_idle()
    }

    /// Gives up the swapchain: everything it owns, in the order the host
    /// has to destroy it: synchronization primitives, command buffers,
    /// framebuffers, image views, the chain; each kind last to first. Only
    /// for a swapchain the device has stopped using.
    pub fn cleanup(self) -> (releases: Vec<Resource>)
        requires
            self.wf(),
            self@.sync.idle(),
        ensures
            releases@ == self@.release_order(),
    {
        let ghost model = self@;
        let Swapchain {
            chain,
            extent: _,
            format: _,
            image_views,
            framebuffers,
            command_buffers,
            sync,
        } = self;
        let mut releases = sync.destroy();
        release_command_buffers(&mut releases, &command_buffers);
        release_framebuffers(&mut releases, &framebuffers);
        release_image_views(&mut releases, &image_views);
        releases.push(Resource::Swapchain(chain));
        proof {
            let head = seq![Resource::Swapchain(model.chain)];
            let views = image_view_resources(model.image_views);
            let buffers = command_buffer_resources(model.command_buffers);
            let frames = framebuffer_resources(model.framebuffers);
            let syncs = model.sync.creation_order();
            lemma_reverse_concat(head + views + frames + buffers, syncs);
            lemma_reverse_concat(head + views + frames, buffers);
            lemma_reverse_concat(head + views, frames);
            lemma_reverse_concat(head, views);
            assert(head.reverse() =~= head);
            assert(releases@ =~= model.release_order());
        }
        releases
    }
}

/// Tearing a swapchain down destroys what was created for it and nothing
/// else, each thing as often as it was created: nothing leaks and nothing
/// is destroyed twice.
pub proof fn lemma_release_matches_creation(swapchain: SwapchainModel)
    ensures
        swapchain.release_order().len() == swapchain.creation_order().len(),
        swapchain.release_order().to_multiset() == swapchain.creation_order().to_multiset(),
        forall|i: int|
            0 <= i < swapchain.creation_order().len() ==> #[trigger] swapchain.release_order()[i]
                == swapchain.creation_order()[swapchain.creation_order().len() - 1 - i],
{
    swapchain.creation_order().lemma_reverse_to_multiset();
}

} // verus!
