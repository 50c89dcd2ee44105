use vstd::prelude::*;

verus! {

/// `ash::vk::SwapchainKHR`: the handle of a swapchain. Carried, never read.
#[verifier::external_type_specification]
#[verifier::external_body]
pub struct ExSwapchainKHR(ash::vk::SwapchainKHR);

/// `ash::vk::Image`: the handle of a presentable image. Carried, never read.
#[verifier::external_type_specification]
#[verifier::external_body]
pub struct ExImage(ash::vk::Image);

/// `ash::vk::ImageView`: the handle of an image view. Carried, never read.
#[verifier::external_type_specification]
#[verifier::external_body]
pub struct ExImageView(ash::vk::ImageView);

/// `ash::vk::Framebuffer`: the handle of a framebuffer. Carried, never read.
#[verifier::external_type_specification]
#[verifier::external_body]
pub struct ExFramebuffer(ash::vk::Framebuffer);

/// `ash::vk::CommandBuffer`: the handle of a command buffer. Carried, never
/// read.
#[verifier::external_type_specification]
#[verifier::external_body]
pub struct ExCommandBuffer(ash::vk::CommandBuffer);

/// `ash::vk::Semaphore`: the handle of a semaphore. Carried, never read.
#[verifier::external_type_specification]
#[verifier::external_body]
pub struct ExSemaphore(ash::vk::Semaphore);

/// `ash::vk::Fence`: the handle of a fence. Carried, never read.
#[verifier::external_type_specification]
#[verifier::external_body]
pub struct ExFence(ash::vk::Fence);

/// `ash::vk::RenderPass`: the handle of a render pass. Carried, never read.
#[verifier::external_type_specification]
#[verifier::external_body]
pub struct ExRenderPass(ash::vk::RenderPass);

/// `ash::vk::Pipeline`: the handle of a pipeline. Carried, never read.
#[verifier::external_type_specification]
#[verifier::external_body]
pub struct ExPipeline(ash::vk::Pipeline);

/// The synchronization primitives of one rotation position.
#[derive(Clone, Copy, Debug, PartialEq, Eq)]
pub struct FrameSlot {
    /// Signaled by the presentation engine once the acquired image may be
    /// written.
    pub image_available: ash::vk::Semaphore,
    /// Signaled by the queue once the frame's commands have run.
    pub render_finished: ash::vk::Semaphore,
    /// Signaled to the host once the frame's commands have run.
    pub in_flight: ash::vk::Fence,
}

/// What this library owns of one presentable image. The image memory
/// itself belongs to the presentation engine.
#[derive(Clone, Copy, Debug, PartialEq, Eq)]
pub struct SwapchainImage {
    pub view: ash::vk::ImageView,
    pub framebuffer: ash::vk::Framebuffer,
}

/// One object the host created on the library's request and has to destroy
/// on its request.
#[derive(Clone, Copy, Debug, PartialEq, Eq)]
pub enum Resource {
    Swapchain(ash::vk::SwapchainKHR),
    ImageView(ash::vk::ImageView),
    Framebuffer(ash::vk::Framebuffer),
    CommandBuffer(ash::vk::CommandBuffer),
    Semaphore(ash::vk::Semaphore),
    Fence(ash::vk::Fence),
}

/// What the host has to do to give resources back: drain the device first
/// where `drain` is set, then destroy `releases` from first to last,
/// whatever the drain came to. What to report of a drain that failed is
/// said by `codes::after_teardown`.
#[derive(Debug, PartialEq, Eq)]
pub struct Teardown {
    pub drain: bool,
    pub releases: Vec<Resource>,
}

/// A teardown as contracts see it.
pub struct TeardownModel {
    pub drain: bool,
    pub releases: Seq<Resource>,
}

impl View for Teardown {
    type V = TeardownModel;

    open spec fn view(&self) -> TeardownModel {
        TeardownModel { drain: self.drain, releases: self.releases@ }
    }
}

pub open spec fn image_view_resources(views: Seq<ash::vk::ImageView>) -> Seq<Resource> {
    Seq::new(views.len(), |i: int| Resource::ImageView(views[i]))
}

pub open spec fn framebuffer_resources(framebuffers: Seq<ash::vk::Framebuffer>) -> Seq<Resource> {
    Seq::new(framebuffers.len(), |i: int| Resource::Framebuffer(framebuffers[i]))
}

pub open spec fn command_buffer_resources(buffers: Seq<ash::vk::CommandBuffer>) -> Seq<Resource> {
    Seq::new(buffers.len(), |i: int| Resource::CommandBuffer(buffers[i]))
}

pub open spec fn semaphore_resources(semaphores: Seq<ash::vk::Semaphore>) -> Seq<Resource> {
    Seq::new(semaphores.len(), |i: int| Resource::Semaphore(semaphores[i]))
}

pub open spec fn fence_resources(fences: Seq<ash::vk::Fence>) -> Seq<Resource> {
    Seq::new(fences.len(), |i: int| Resource::Fence(fences[i]))
}

/// Reversing a concatenation reverses each part and their order.
pub proof fn lemma_reverse_concat<A>(a: Seq<A>, b: Seq<A>)
    ensures
        (a + b).reverse() == b.reverse() + a.reverse(),
{
    assert((a + b).reverse() =~= b.reverse() + a.reverse());
}

/// Appends the image views to `out`, last one first.
pub fn release_image_views(out: &mut Vec<Resource>, views: &Vec<ash::vk::ImageView>)
    ensures
        final(out)@ == old(out)@ + image_view_resources(views@).reverse(),
{
    let mut i: usize = views.len();
    while i > 0
        invariant
            0 <= i <= views.len(),
            out@ == old(out)@ + image_view_resources(views@).reverse().take(views.len() - i),
        decreases i,
    {
        i -= 1;
        out.push(Resource::ImageView(views[i]));
        assert(out@ =~= old(out)@ + image_view_resources(views@).reverse().take(views.len() - i));
    }
    assert(out@ =~= old(out)@ + image_view_resources(views@).reverse());
}

/// Appends the framebuffers to `out`, last one first.
pub fn release_framebuffers(out: &mut Vec<Resource>, framebuffers: &Vec<ash::vk::Framebuffer>)
    ensures
        final(out)@ == old(out)@ + framebuffer_resources(framebuffers@).reverse(),
{
    let mut i: usize = framebuffers.len();
    while i > 0
        invariant
            0 <= i <= framebuffers.len(),
            out@ == old(out)@ + framebuffer_resources(framebuffers@).reverse().take(
                framebuffers.len() - i,
            ),
        decreases i,
    {
        i -= 1;
        out.push(Resource::Framebuffer(framebuffers[i]));
        assert(out@ =~= old(out)@ + framebuffer_resources(framebuffers@).reverse().take(
            framebuffers.len() - i,
        ));
    }
    assert(out@ =~= old(out)@ + framebuffer_resources(framebuffers@).reverse());
}

/// Appends the command buffers to `out`, last one first.
pub fn release_command_buffers(out: &mut Vec<Resource>, buffers: &Vec<ash::vk::CommandBuffer>)
    ensures
        final(out)@ == old(out)@ + command_buffer_resources(buffers@).reverse(),
{
    let mut i: usize = buffers.len();
    while i > 0
        invariant
            0 <= i <= buffers.len(),
            out@ == old(out)@ + command_buffer_resources(buffers@).reverse().take(
                buffers.len() - i,
            ),
        decreases i,
    {
        i -= 1;
        out.push(Resource::CommandBuffer(buffers[i]));
        assert(out@ =~= old(out)@ + command_buffer_resources(buffers@).reverse().take(
            buffers.len() - i,
        ));
    }
    assert(out@ =~= old(out)@ + command_buffer_resources(buffers@).reverse());
}

/// Appends the semaphores to `out`, last one first.
pub fn release_semaphores(out: &mut Vec<Resource>, semaphores: &Vec<ash::vk::Semaphore>)
    ensures
        final(out)@ == old(out)@ + semaphore_resources(semaphores@).reverse(),
{
    let mut i: usize = semaphores.len();
    while i > 0
        invariant
            0 <= i <= semaphores.len(),
            out@ == old(out)@ + semaphore_resources(semaphores@).reverse().take(
                semaphores.len() - i,
            ),
        decreases i,
    {
        i -= 1;
        out.push(Resource::Semaphore(semaphores[i]));
        assert(out@ =~= old(out)@ + semaphore_resources(semaphores@).reverse().take(
            semaphores.len() - i,
        ));
    }
    assert(out@ =~= old(out)@ + semaphore_resources(semaphores@).reverse());
}

/// Appends the fences to `out`, last one first.
pub fn release_fences(out: &mut Vec<Resource>, fences: &Vec<ash::vk::Fence>)
    ensures
        final(out)@ == old(out)@ + fence_resources(fences@).reverse(),
{
    let mut i: usize = fences.len();
    while i > 0
        invariant
            0 <= i <= fences.len(),
            out@ == old(out)@ + fence_resources(fences@).reverse().take(fences.len() - i),
        decreases i,
    {
        i -= 1;
        out.push(Resource::Fence(fences[i]));
        assert(out@ =~= old(out)@ + fence_resources(fences@).reverse().take(fences.len() - i));
    }
    assert(out@ =~= old(out)@ + fence_resources(fences@).reverse());
}

} // verus!
