//! The render pass: one colour attachment that is cleared, drawn to by a
//! single subpass and handed to the presentation engine.

use crate::command::VK_PIPELINE_BIND_POINT_GRAPHICS;
use crate::state::{Action, Event, Model, VK_PIPELINE_STAGE_COLOR_ATTACHMENT_OUTPUT_BIT};
use vstd::prelude::*;

verus! {

/// `VK_SAMPLE_COUNT_1_BIT`.
pub const VK_SAMPLE_COUNT_1_BIT: u32 = 0x1;

/// `VK_ATTACHMENT_LOAD_OP_CLEAR`.
pub const VK_ATTACHMENT_LOAD_OP_CLEAR: u32 = 1;

/// `VK_ATTACHMENT_LOAD_OP_DONT_CARE`.
pub const VK_ATTACHMENT_LOAD_OP_DONT_CARE: u32 = 2;

/// `VK_ATTACHMENT_STORE_OP_STORE`.
pub const VK_ATTACHMENT_STORE_OP_STORE: u32 = 0;

/// `VK_ATTACHMENT_STORE_OP_DONT_CARE`.
pub const VK_ATTACHMENT_STORE_OP_DONT_CARE: u32 = 1;

/// `VK_IMAGE_LAYOUT_UNDEFINED`.
pub const VK_IMAGE_LAYOUT_UNDEFINED: u32 = 0;

/// `VK_IMAGE_LAYOUT_COLOR_ATTACHMENT_OPTIMAL`.
pub const VK_IMAGE_LAYOUT_COLOR_ATTACHMENT_OPTIMAL: u32 = 2;

/// `VK_IMAGE_LAYOUT_PRESENT_SRC_KHR`.
pub const VK_IMAGE_LAYOUT_PRESENT_SRC_KHR: u32 = 1000001002;

/// `VK_SUBPASS_EXTERNAL`: whatever comes before the render pass.
pub const VK_SUBPASS_EXTERNAL: u32 = 0xffff_ffff;

/// `VK_ACCESS_COLOR_ATTACHMENT_WRITE_BIT`.
pub const VK_ACCESS_COLOR_ATTACHMENT_WRITE_BIT: u32 = 0x100;

/// How an attachment is loaded, stored and laid out.
#[derive(Clone, Copy, Debug, PartialEq, Eq, Structural)]
pub struct AttachmentDescription {
    pub format: u32,
    pub samples: u32,
    pub load_op: u32,
    pub store_op: u32,
    pub stencil_load_op: u32,
    pub stencil_store_op: u32,
    pub initial_layout: u32,
    pub final_layout: u32,
}

/// Which attachment a subpass uses, and in which layout.
#[derive(Clone, Copy, Debug, PartialEq, Eq, Structural)]
pub struct AttachmentReference {
    pub attachment: u32,
    pub layout: u32,
}

/// A subpass with a single colour attachment.
#[derive(Clone, Copy, Debug, PartialEq, Eq, Structural)]
pub struct SubpassDescription {
    pub pipeline_bind_point: u32,
    pub color_attachment: AttachmentReference,
}

/// What a subpass has to wait for.
#[derive(Clone, Copy, Debug, PartialEq, Eq, Structural)]
pub struct SubpassDependency {
    pub src_subpass: u32,
    pub dst_subpass: u32,
    pub src_stage_mask: u32,
    pub src_access_mask: u32,
    pub dst_stage_mask: u32,
    pub dst_access_mask: u32,
}

/// Everything that creating the render pass needs to be told.
#[derive(Clone, Copy, Debug, PartialEq, Eq, Structural)]
pub struct RenderPass {
    pub color_attachment: AttachmentDescription,
    pub subpass: SubpassDescription,
    pub dependency: SubpassDependency,
}

impl RenderPass {
    /// The render pass for images of `image_format`.
    ///
    /// The attachment is cleared on load and stored, its former contents
    /// are of no interest, and it ends ready for presentation. The one
    /// subpass draws to it as a colour attachment. Its colour output
    /// waits for the colour output of whatever came before, which is
    /// where the submission waits for the image to become available.
    pub open spec fn described(image_format: u32) -> RenderPass {
        RenderPass {
            color_attachment: AttachmentDescription {
                format: image_format,
                samples: VK_SAMPLE_COUNT_1_BIT,
                load_op: VK_ATTACHMENT_LOAD_OP_CLEAR,
                store_op: VK_ATTACHMENT_STORE_OP_STORE,
                stencil_load_op: VK_ATTACHMENT_LOAD_OP_DONT_CARE,
                stencil_store_op: VK_ATTACHMENT_STORE_OP_DONT_CARE,
                initial_layout: VK_IMAGE_LAYOUT_UNDEFINED,
                final_layout: VK_IMAGE_LAYOUT_PRESENT_SRC_KHR,
            },
            subpass: SubpassDescription {
                pipeline_bind_point: VK_PIPELINE_BIND_POINT_GRAPHICS,
                color_attachment: AttachmentReference {
                    attachment: 0,
                    layout: VK_IMAGE_LAYOUT_COLOR_ATTACHMENT_OPTIMAL,
                },
            },
            dependency: SubpassDependency {
                src_subpass: VK_SUBPASS_EXTERNAL,
                dst_subpass: 0,
                src_stage_mask: VK_PIPELINE_STAGE_COLOR_ATTACHMENT_OUTPUT_BIT,
                src_access_mask: 0,
                dst_stage_mask: VK_PIPELINE_STAGE_COLOR_ATTACHMENT_OUTPUT_BIT,
                dst_access_mask: VK_ACCESS_COLOR_ATTACHMENT_WRITE_BIT,
            },
        }
    }

    /// The render pass for images of `image_format`. See
    /// [`RenderPass::described`].
    pub fn new(image_format: u32) -> (render_pass: RenderPass)
        ensures
            render_pass == RenderPass::described(image_format),
    {
        let color_attachment = AttachmentDescription {
            format: image_format,
            samples: VK_SAMPLE_COUNT_1_BIT,
            load_op: VK_ATTACHMENT_LOAD_OP_CLEAR,
            store_op: VK_ATTACHMENT_STORE_OP_STORE,
            stencil_load_op: VK_ATTACHMENT_LOAD_OP_DONT_CARE,
            stencil_store_op: VK_ATTACHMENT_STORE_OP_DONT_CARE,
            initial_layout: VK_IMAGE_LAYOUT_UNDEFINED,
            final_layout: VK_IMAGE_LAYOUT_PRESENT_SRC_KHR,
        };
        let color_attachment_ref = AttachmentReference {
            attachment: 0,
            layout: VK_IMAGE_LAYOUT_COLOR_ATTACHMENT_OPTIMAL,
        };
        let subpass = SubpassDescription {
            pipeline_bind_point: VK_PIPELINE_BIND_POINT_GRAPHICS,
            color_attachment: color_attachment_ref,
        };
        let dependency = SubpassDependency {
            src_subpass: VK_SUBPASS_EXTERNAL,
            dst_subpass: 0,
            src_stage_mask: VK_PIPELINE_STAGE_COLOR_ATTACHMENT_OUTPUT_BIT,
            src_access_mask: 0,
            dst_stage_mask: VK_PIPELINE_STAGE_COLOR_ATTACHMENT_OUTPUT_BIT,
            dst_access_mask: VK_ACCESS_COLOR_ATTACHMENT_WRITE_BIT,
        };
        RenderPass { color_attachment, subpass, dependency }
    }
}

/// The render pass and the frame protocol agree on where a frame waits:
/// the stage at which the submission of a frame waits for its image is
/// the stage that the render pass makes its colour output wait at.
pub proof fn lemma_render_pass_waits_where_submission_does(
    m: Model,
    event: Event,
    image_format: u32,
)
    requires
        m.inv(),
    ensures
        m.step(event) matches Some((_, action)) ==> (action matches Action::Submit {
            wait_stage_mask,
            ..
        } ==> wait_stage_mask == RenderPass::described(image_format).dependency.dst_stage_mask
            && wait_stage_mask == RenderPass::described(image_format).dependency.src_stage_mask),
{
}

} // verus!
