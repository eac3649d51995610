//! The order in which the resources of the renderer come and go.
//!
//! Every resource is created after the resources it depends on and
//! destroyed before them. The renderer creates everything in one fixed
//! order and destroys it in the opposite one; a swapchain rebuild does the
//! same with the part that hangs on the swapchain.

use vstd::prelude::*;

verus! {

/// The resources that the renderer owns.
#[derive(Clone, Copy, Debug, PartialEq, Eq, Structural)]
pub enum Resource {
    /// The connection to the driver.
    Instance,
    /// The surface of the window.
    Surface,
    /// The logical device with its queues.
    Device,
    /// The chain of presentable images.
    Swapchain,
    /// One view per swapchain image.
    ImageViews,
    /// The render pass.
    RenderPass,
    /// The pipeline layout.
    PipelineLayout,
    /// The graphics pipeline.
    Pipeline,
    /// One framebuffer per image view.
    Framebuffers,
    /// The command pool.
    CommandPool,
    /// One command buffer per frame slot.
    CommandBuffers,
    /// Two semaphores per frame slot.
    Semaphores,
    /// One fence per frame slot.
    Fences,
    /// The vertex buffer.
    VertexBuffer,
    /// The index buffer.
    IndexBuffer,
}

/// The number of resources.
pub const RESOURCE_COUNT: usize = 15;

/// Whether `resource` cannot exist without `on`.
pub open spec fn depends_on(resource: Resource, on: Resource) -> bool {
    match resource {
        Resource::Instance => false,
        Resource::Surface => on is Instance,
        Resource::Device => on is Instance || on is Surface,
        Resource::Swapchain => on is Device || on is Surface,
        Resource::ImageViews => on is Device || on is Swapchain,
        Resource::RenderPass => on is Device,
        Resource::PipelineLayout => on is Device,
        Resource::Pipeline => on is Device || on is RenderPass || on is PipelineLayout,
        Resource::Framebuffers => on is Device || on is RenderPass || on is ImageViews,
        Resource::CommandPool => on is Device,
        Resource::CommandBuffers => on is Device || on is CommandPool,
        Resource::Semaphores => on is Device,
        Resource::Fences => on is Device,
        Resource::VertexBuffer => on is Device,
        Resource::IndexBuffer => on is Device,
    }
}

/// Whether a swapchain rebuild destroys the resource and creates it
/// again: the swapchain, what is made from its images, and the pipeline
/// where the size of the images is baked into it.
pub open spec fn rebuilt(resource: Resource, static_viewport: bool) -> bool {
    resource is Swapchain || resource is ImageViews || resource is Framebuffers || (static_viewport
        && resource is Pipeline)
}

/// The order of creation.
pub open spec fn creation_sequence() -> Seq<Resource> {
    seq![
        Resource::Instance,
        Resource::Surface,
        Resource::Device,
        Resource::Swapchain,
        Resource::ImageViews,
        Resource::RenderPass,
        Resource::PipelineLayout,
        Resource::Pipeline,
        Resource::Framebuffers,
        Resource::CommandPool,
        Resource::CommandBuffers,
        Resource::Semaphores,
        Resource::Fences,
        Resource::VertexBuffer,
        Resource::IndexBuffer,
    ]
}

/// The place of a resource in the order of creation.
pub open spec fn creation_rank(resource: Resource) -> int {
    match resource {
        Resource::Instance => 0,
        Resource::Surface => 1,
        Resource::Device => 2,
        Resource::Swapchain => 3,
        Resource::ImageViews => 4,
        Resource::RenderPass => 5,
        Resource::PipelineLayout => 6,
        Resource::Pipeline => 7,
        Resource::Framebuffers => 8,
        Resource::CommandPool => 9,
        Resource::CommandBuffers => 10,
        Resource::Semaphores => 11,
        Resource::Fences => 12,
        Resource::VertexBuffer => 13,
        Resource::IndexBuffer => 14,
    }
}

/// The resources in the order in which they are created.
pub fn creation_order() -> (order: Vec<Resource>)
    ensures
        order@ == creation_sequence(),
{
    let order: Vec<Resource> = vec![
        Resource::Instance,
        Resource::Surface,
        Resource::Device,
        Resource::Swapchain,
        Resource::ImageViews,
        Resource::RenderPass,
        Resource::PipelineLayout,
        Resource::Pipeline,
        Resource::Framebuffers,
        Resource::CommandPool,
        Resource::CommandBuffers,
        Resource::Semaphores,
        Resource::Fences,
        Resource::VertexBuffer,
        Resource::IndexBuffer,
    ];
    order
}

/// The resources in the order in which they are destroyed: the order of
/// creation backwards.
pub fn teardown_order() -> (order: Vec<Resource>)
    ensures
        order@ == creation_sequence().reverse(),
{
    let created = creation_order();
    let mut order: Vec<Resource> = Vec::new();
    let mut left: usize = created.len();
    while left > 0
        invariant
            left <= created.len(),
            order.len() == created.len() - left,
            forall|k: int| 0 <= k < order.len() ==> order[k] == created[created.len() - 1 - k],
        decreases left,
    {
        left -= 1;
        order.push(created[left]);
    }
    order
}

/// The order of creation lists every resource exactly once: each at the
/// place that is its rank.
pub proof fn lemma_creation_order_is_complete(resource: Resource)
    ensures
        0 <= creation_rank(resource) < creation_sequence().len(),
        creation_sequence()[creation_rank(resource)] == resource,
        creation_sequence().len() == RESOURCE_COUNT,
        forall|i: int|
            0 <= i < creation_sequence().len() && creation_sequence()[i] == resource ==> i
                == creation_rank(resource),
{
}

/// Nothing is created before what it depends on.
pub proof fn lemma_created_after_dependencies(resource: Resource, on: Resource)
    requires
        depends_on(resource, on),
    ensures
        creation_rank(on) < creation_rank(resource),
{
}

/// Nothing is destroyed after what it depends on: in the order of
/// teardown a resource comes before every resource it depends on.
pub proof fn lemma_destroyed_before_dependencies(resource: Resource, on: Resource)
    requires
        depends_on(resource, on),
    ensures
        ({
            let teardown = creation_sequence().reverse();
            let last = RESOURCE_COUNT - 1;
            &&& teardown[last - creation_rank(resource)] == resource
            &&& teardown[last - creation_rank(on)] == on
            &&& last - creation_rank(resource) < last - creation_rank(on)
        }),
{
}

/// A swapchain rebuild leaves nothing behind that depends on what it
/// destroys: whatever depends on a rebuilt resource is rebuilt too.
pub proof fn lemma_rebuild_is_closed(resource: Resource, on: Resource, static_viewport: bool)
    requires
        depends_on(resource, on),
        rebuilt(on, static_viewport),
    ensures
        rebuilt(resource, static_viewport),
{
}

} // verus!
