use vstd::prelude::*;

verus! {

/// Width and height in pixels.
#[derive(Clone, Copy, Debug, PartialEq, Eq, Structural)]
pub struct Extent {
    pub width: u32,
    pub height: u32,
}

/// How a surface stores its pixels: the numbers of the pixel format and
/// of the color space, as the surface reported them.
#[derive(Clone, Copy, Debug, PartialEq, Eq, Structural)]
pub struct SurfaceFormat {
    pub format: i32,
    pub color_space: i32,
}

/// What a surface reports about the swapchains it supports.
#[derive(Clone, Copy, Debug, PartialEq, Eq, Structural)]
pub struct SurfaceCapabilities {
    pub min_image_count: u32,
    pub max_image_count: u32,
    pub current_extent: Extent,
    /// The format the surface is presented in.
    pub format: SurfaceFormat,
    /// The surface's current transform, as the bits the surface reported.
    pub current_transform: u32,
}

/// Who may use the images of a swapchain.
#[derive(Clone, Copy, Debug, PartialEq, Eq, Structural)]
pub enum SharingMode {
    /// One queue family owns the images.
    Exclusive,
    Concurrent,
}

/// How the presentation engine takes images off its queue.
#[derive(Clone, Copy, Debug, PartialEq, Eq, Structural)]
pub enum PresentMode {
    Immediate,
    Mailbox,
    /// Blocking first-in-first-out: no tearing, at most one vertical
    /// interval of latency.
    Fifo,
    FifoRelaxed,
}

/// What the images of a swapchain are used for.
#[derive(Clone, Copy, Debug, PartialEq, Eq, Structural)]
pub enum ImageUsage {
    /// They are drawn into as color attachments, and nothing else.
    ColorAttachment,
}

/// How the surface is blended with what lies behind it.
#[derive(Clone, Copy, Debug, PartialEq, Eq, Structural)]
pub enum CompositeAlpha {
    /// Not at all: the alpha channel is ignored.
    Opaque,
}

/// The parameters a swapchain is created with.
#[derive(Clone, Copy, Debug, PartialEq, Eq, Structural)]
pub struct SwapchainPlan {
    /// The least number of images asked for.
    pub image_count: u32,
    pub extent: Extent,
    pub format: SurfaceFormat,
    /// The number of layers of each image.
    pub array_layers: u32,
    pub usage: ImageUsage,
    pub sharing: SharingMode,
    /// The queue family that owns the images.
    pub queue_family_index: u32,
    pub pre_transform: u32,
    pub composite_alpha: CompositeAlpha,
    pub present_mode: PresentMode,
}

/// Triple buffering, where the surface allows it.
pub const PREFERRED_IMAGE_COUNT: u32 = 3;

/// Both dimensions of an extent that a surface leaves to the swapchain.
pub const UNDEFINED_DIMENSION: u32 = 0xFFFF_FFFF;

/// `value` moved into `low..=high`.
pub open spec fn clamp(value: int, low: int, high: int) -> int {
    if value < low {
        low
    } else if value > high {
        high
    } else {
        value
    }
}

/// The image count for a surface that supports `min..=max` images: the
/// preferred count raised to `min`, then capped at `max`.
pub open spec fn image_count_for(min: u32, max: u32) -> u32 {
    let raised = if PREFERRED_IMAGE_COUNT < min {
        min
    } else {
        PREFERRED_IMAGE_COUNT
    };
    if raised > max {
        max
    } else {
        raised
    }
}

impl Extent {
    /// Whether the surface leaves the extent to the swapchain.
    pub open spec fn undefined(self) -> bool {
        self.width == UNDEFINED_DIMENSION && self.height == UNDEFINED_DIMENSION
    }

    pub fn is_undefined(&self) -> (r: bool)
        ensures
            r == self.undefined(),
    {
        self.width == UNDEFINED_DIMENSION && self.height == UNDEFINED_DIMENSION
    }
}

impl SurfaceCapabilities {
    /// The extent a swapchain on this surface gets: the surface's own, and
    /// `desired` only where the surface reports none.
    pub open spec fn extent_for(self, desired: Extent) -> Extent {
        if self.current_extent.undefined() {
            desired
        } else {
            self.current_extent
        }
    }

    /// The swapchain to create on this surface for the queue family
    /// `queue_family_index`: three images where the surface allows, of one
    /// layer each, in the surface's extent and format, drawn into as color
    /// attachments, owned by that one family, in the surface's current
    /// transform, opaque, presented first-in-first-out.
    pub open spec fn plan_for(self, queue_family_index: u32, desired: Extent) -> SwapchainPlan {
        SwapchainPlan {
            image_count: image_count_for(self.min_image_count, self.max_image_count),
            extent: self.extent_for(desired),
            format: self.format,
            array_layers: 1,
            usage: ImageUsage::ColorAttachment,
            sharing: SharingMode::Exclusive,
            queue_family_index,
            pre_transform: self.current_transform,
            composite_alpha: CompositeAlpha::Opaque,
            present_mode: PresentMode::Fifo,
        }
    }

    /// The number of images to ask for.
    pub fn image_count(&self) -> (count: u32)
        ensures
            count == image_count_for(self.min_image_count, self.max_image_count),
    {
        let raised: u32 = if PREFERRED_IMAGE_COUNT < self.min_image_count {
            self.min_image_count
        } else {
            PREFERRED_IMAGE_COUNT
        };
        if raised > self.max_image_count {
            self.max_image_count
        } else {
            raised
        }
    }

    /// The extent to create the swapchain with.
    pub fn extent(&self, desired: Extent) -> (extent: Extent)
        ensures
            extent == self.extent_for(desired),
    {
        if self.current_extent.is_undefined() {
            desired
        } else {
            self.current_extent
        }
    }
}

impl SwapchainPlan {
    /// Plans a swapchain for a surface and the graphics queue family that
    /// is to own its images.
    pub fn for_surface(
        capabilities: &SurfaceCapabilities,
        queue_family_index: u32,
        desired: Extent,
    ) -> (plan: SwapchainPlan)
        ensures
            plan == capabilities.plan_for(queue_family_index, desired),
    {
        SwapchainPlan {
            image_count: capabilities.image_count(),
            extent: capabilities.extent(desired),
            format: capabilities.format,
            array_layers: 1,
            usage: ImageUsage::ColorAttachment,
            sharing: SharingMode::Exclusive,
            queue_family_index,
            pre_transform: capabilities.current_transform,
            composite_alpha: CompositeAlpha::Opaque,
            present_mode: PresentMode::Fifo,
        }
    }
}

/// On a surface whose minimum does not exceed its maximum, the image count
/// is the preferred count clamped into the supported range.
pub proof fn lemma_image_count_is_clamped(min: u32, max: u32)
    requires
        min <= max,
    ensures
        image_count_for(min, max) == clamp(PREFERRED_IMAGE_COUNT as int, min as int, max as int),
        min <= image_count_for(min, max) <= max,
{
}

} // verus!
