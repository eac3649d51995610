//! The pipeline layout and the graphics pipeline.
//!
//! Viewport and scissor are fixed when the pipeline is built, so a
//! pipeline fits one size of swapchain images only and is rebuilt with
//! the swapchain.

use crate::float_bits::{u32_to_f32_nowarn, F32_ONE, F32_ZERO};
use crate::push_constants::is_f32_of;
use crate::push_constants::kept;
use crate::render_pass::VK_SAMPLE_COUNT_1_BIT;
use crate::shader::Shader;
use crate::swapchain::{Extent2D, Swapchain};
use vstd::prelude::*;

verus! {

/// `VK_VERTEX_INPUT_RATE_VERTEX`.
pub const VK_VERTEX_INPUT_RATE_VERTEX: u32 = 0;

/// `VK_FORMAT_R32G32_SFLOAT`: two 32-bit floats.
pub const VK_FORMAT_R32G32_SFLOAT: u32 = 103;

/// `VK_PRIMITIVE_TOPOLOGY_TRIANGLE_LIST`.
pub const VK_PRIMITIVE_TOPOLOGY_TRIANGLE_LIST: u32 = 3;

/// `VK_POLYGON_MODE_FILL`.
pub const VK_POLYGON_MODE_FILL: u32 = 0;

/// `VK_CULL_MODE_BACK_BIT`.
pub const VK_CULL_MODE_BACK_BIT: u32 = 0x2;

/// `VK_FRONT_FACE_CLOCKWISE`.
pub const VK_FRONT_FACE_CLOCKWISE: u32 = 1;

/// The four `VK_COLOR_COMPONENT_*_BIT`s together.
pub const VK_COLOR_COMPONENT_RGBA: u32 = 0xf;

/// Bytes between two vertices: two 32-bit floats.
pub const VERTEX_STRIDE: u32 = 8;

/// The range of push constants that the shaders can read.
#[derive(Clone, Copy, Debug, PartialEq, Eq, Structural)]
pub struct PushConstantRange {
    pub stage_flags: u32,
    pub offset: u32,
    pub size: u32,
}

/// Everything that creating the pipeline layout needs to be told: one
/// range of push constants and no descriptor set.
#[derive(Clone, Copy, Debug, PartialEq, Eq, Structural)]
pub struct PipelineLayout {
    pub push_constant_range: PushConstantRange,
}

/// How the vertex buffer is stepped through.
#[derive(Clone, Copy, Debug, PartialEq, Eq, Structural)]
pub struct VertexInputBinding {
    pub binding: u32,
    pub stride: u32,
    pub input_rate: u32,
}

/// Where in a vertex an attribute lies.
#[derive(Clone, Copy, Debug, PartialEq, Eq, Structural)]
pub struct VertexInputAttribute {
    pub location: u32,
    pub binding: u32,
    pub format: u32,
    pub offset: u32,
}

/// What the vertex buffer holds: one binding with one attribute.
#[derive(Clone, Copy, Debug, PartialEq, Eq, Structural)]
pub struct VertexInput {
    pub binding: VertexInputBinding,
    pub attribute: VertexInputAttribute,
}

/// How vertices are assembled into primitives.
#[derive(Clone, Copy, Debug, PartialEq, Eq, Structural)]
pub struct InputAssembly {
    pub topology: u32,
    pub primitive_restart_enable: bool,
}

/// A viewport, each field the bits of a 32-bit float.
#[derive(Clone, Copy, Debug, PartialEq, Eq, Structural)]
pub struct Viewport {
    pub x: u32,
    pub y: u32,
    pub width: u32,
    pub height: u32,
    pub min_depth: u32,
    pub max_depth: u32,
}

/// A rectangle of pixels.
#[derive(Clone, Copy, Debug, PartialEq, Eq, Structural)]
pub struct Rect2D {
    pub x: i32,
    pub y: i32,
    pub extent: Extent2D,
}

/// The part of the picture that is drawn to, fixed with the pipeline:
/// one viewport and one scissor.
#[derive(Clone, Copy, Debug, PartialEq, Eq, Structural)]
pub struct ViewportState {
    pub viewport: Viewport,
    pub scissor: Rect2D,
}

/// How primitives become fragments. `line_width` is the bits of a 32-bit
/// float.
#[derive(Clone, Copy, Debug, PartialEq, Eq, Structural)]
pub struct Rasterizer {
    pub depth_clamp_enable: bool,
    pub rasterizer_discard_enable: bool,
    pub polygon_mode: u32,
    pub line_width: u32,
    pub cull_mode: u32,
    pub front_face: u32,
    pub depth_bias_enable: bool,
}

/// How fragments are sampled. `min_sample_shading` is the bits of a
/// 32-bit float.
#[derive(Clone, Copy, Debug, PartialEq, Eq, Structural)]
pub struct Multisampling {
    pub sample_shading_enable: bool,
    pub rasterization_samples: u32,
    pub min_sample_shading: u32,
    pub alpha_to_coverage_enable: bool,
    pub alpha_to_one_enable: bool,
}

/// How a fragment is combined with what the attachment holds.
#[derive(Clone, Copy, Debug, PartialEq, Eq, Structural)]
pub struct BlendAttachment {
    pub color_write_mask: u32,
    pub blend_enable: bool,
}

/// Blending over the one colour attachment.
#[derive(Clone, Copy, Debug, PartialEq, Eq, Structural)]
pub struct Blending {
    pub logic_op_enable: bool,
    pub attachment: BlendAttachment,
}

/// Everything that creating the graphics pipeline needs to be told.
#[derive(Clone, Copy, Debug, PartialEq, Eq, Structural)]
pub struct Pipeline {
    /// Stage bit of the first shader.
    pub first_stage: u32,
    /// Stage bit of the second shader.
    pub second_stage: u32,
    pub vertex_input: VertexInput,
    pub input_assembly: InputAssembly,
    pub viewport_state: ViewportState,
    pub rasterizer: Rasterizer,
    pub multisampling: Multisampling,
    pub blending: Blending,
    pub subpass: u32,
}

/// The vertex buffer holds one two-float position per vertex.
pub open spec fn binding_description() -> VertexInputBinding {
    VertexInputBinding { binding: 0, stride: VERTEX_STRIDE, input_rate: VK_VERTEX_INPUT_RATE_VERTEX }
}

/// The position is the one attribute, at the start of the vertex.
pub open spec fn attribute_description() -> VertexInputAttribute {
    VertexInputAttribute { location: 0, binding: 0, format: VK_FORMAT_R32G32_SFLOAT, offset: 0 }
}

/// Every three vertices make a triangle.
pub open spec fn input_assembly() -> InputAssembly {
    InputAssembly { topology: VK_PRIMITIVE_TOPOLOGY_TRIANGLE_LIST, primitive_restart_enable: false }
}

/// The scissor lets the whole picture through.
pub open spec fn scissor_of(extent: Extent2D) -> Rect2D {
    Rect2D { x: 0, y: 0, extent }
}

/// Filled triangles, clockwise ones facing front, back faces culled.
pub open spec fn rasterizer_info() -> Rasterizer {
    Rasterizer {
        depth_clamp_enable: false,
        rasterizer_discard_enable: false,
        polygon_mode: VK_POLYGON_MODE_FILL,
        line_width: F32_ONE,
        cull_mode: VK_CULL_MODE_BACK_BIT,
        front_face: VK_FRONT_FACE_CLOCKWISE,
        depth_bias_enable: false,
    }
}

/// One sample per pixel.
pub open spec fn multisampling_info() -> Multisampling {
    Multisampling {
        sample_shading_enable: false,
        rasterization_samples: VK_SAMPLE_COUNT_1_BIT,
        min_sample_shading: F32_ONE,
        alpha_to_coverage_enable: false,
        alpha_to_one_enable: false,
    }
}

/// Fragments overwrite all four channels; nothing is blended.
pub open spec fn blending_info() -> Blending {
    Blending {
        logic_op_enable: false,
        attachment: BlendAttachment {
            color_write_mask: VK_COLOR_COMPONENT_RGBA,
            blend_enable: false,
        },
    }
}

/// Whether `viewport` covers a picture of `extent`, from the origin and
/// over the whole depth range, each dimension as the float of the part of
/// the pixel count that the conversion keeps.
pub open spec fn is_viewport_of(viewport: Viewport, extent: Extent2D) -> bool {
    &&& viewport.x == F32_ZERO
    &&& viewport.y == F32_ZERO
    &&& is_f32_of(viewport.width, kept(extent.width))
    &&& is_f32_of(viewport.height, kept(extent.height))
    &&& viewport.min_depth == F32_ZERO
    &&& viewport.max_depth == F32_ONE
}

/// Whether `pipeline` is the pipeline for two shader stages and a picture
/// of `extent`.
pub open spec fn is_pipeline_of(
    pipeline: Pipeline,
    first_stage: u32,
    second_stage: u32,
    extent: Extent2D,
) -> bool {
    &&& pipeline.first_stage == first_stage
    &&& pipeline.second_stage == second_stage
    &&& pipeline.vertex_input.binding == binding_description()
    &&& pipeline.vertex_input.attribute == attribute_description()
    &&& pipeline.input_assembly == input_assembly()
    &&& is_viewport_of(pipeline.viewport_state.viewport, extent)
    &&& pipeline.viewport_state.scissor == scissor_of(extent)
    &&& pipeline.rasterizer == rasterizer_info()
    &&& pipeline.multisampling == multisampling_info()
    &&& pipeline.blending == blending_info()
    &&& pipeline.subpass == 0
}

/// See [`binding_description`].
pub fn get_binding_description() -> (binding: VertexInputBinding)
    ensures
        binding == binding_description(),
{
    VertexInputBinding { binding: 0, stride: VERTEX_STRIDE, input_rate: VK_VERTEX_INPUT_RATE_VERTEX }
}

/// See [`attribute_description`].
pub fn get_attribute_description() -> (attribute: VertexInputAttribute)
    ensures
        attribute == attribute_description(),
{
    VertexInputAttribute { location: 0, binding: 0, format: VK_FORMAT_R32G32_SFLOAT, offset: 0 }
}

/// The vertex input with its one binding and its one attribute.
pub fn create_pipeline_vertex_input_info(
    binding_desc: VertexInputBinding,
    attr_desc: VertexInputAttribute,
) -> (vertex_input: VertexInput)
    ensures
        vertex_input == (VertexInput { binding: binding_desc, attribute: attr_desc }),
{
    VertexInput { binding: binding_desc, attribute: attr_desc }
}

/// See [`input_assembly`].
pub fn create_pipeline_input_assembly() -> (assembly: InputAssembly)
    ensures
        assembly == input_assembly(),
{
    InputAssembly { topology: VK_PRIMITIVE_TOPOLOGY_TRIANGLE_LIST, primitive_restart_enable: false }
}

/// The viewport over a picture of `extent`. See [`is_viewport_of`].
pub fn create_pipeline_viewport(extent: Extent2D) -> (viewport: Viewport)
    ensures
        is_viewport_of(viewport, extent),
{
    Viewport {
        x: F32_ZERO,
        y: F32_ZERO,
        width: u32_to_f32_nowarn(extent.width),
        height: u32_to_f32_nowarn(extent.height),
        min_depth: F32_ZERO,
        max_depth: F32_ONE,
    }
}

/// See [`scissor_of`].
pub fn create_pipeline_scissor(extent: Extent2D) -> (scissor: Rect2D)
    ensures
        scissor == scissor_of(extent),
{
    Rect2D { x: 0, y: 0, extent }
}

/// The viewport state with its one viewport and its one scissor, both
/// fixed for the life of the pipeline.
pub fn create_static_viewport_state_info(viewport: Viewport, scissor: Rect2D) -> (state:
    ViewportState)
    ensures
        state == (ViewportState { viewport, scissor }),
{
    ViewportState { viewport, scissor }
}

/// See [`rasterizer_info`].
pub fn create_rasterizer_info() -> (rasterizer: Rasterizer)
    ensures
        rasterizer == rasterizer_info(),
{
    Rasterizer {
        depth_clamp_enable: false,
        rasterizer_discard_enable: false,
        polygon_mode: VK_POLYGON_MODE_FILL,
        line_width: F32_ONE,
        cull_mode: VK_CULL_MODE_BACK_BIT,
        front_face: VK_FRONT_FACE_CLOCKWISE,
        depth_bias_enable: false,
    }
}

/// See [`multisampling_info`].
pub fn create_multisampling_info() -> (multisampling: Multisampling)
    ensures
        multisampling == multisampling_info(),
{
    Multisampling {
        sample_shading_enable: false,
        rasterization_samples: VK_SAMPLE_COUNT_1_BIT,
        min_sample_shading: F32_ONE,
        alpha_to_coverage_enable: false,
        alpha_to_one_enable: false,
    }
}

/// The blend state of the one attachment: everything written, nothing
/// blended.
pub fn create_disabled_blending_attachment() -> (attachment: BlendAttachment)
    ensures
        attachment == blending_info().attachment,
{
    BlendAttachment { color_write_mask: VK_COLOR_COMPONENT_RGBA, blend_enable: false }
}

/// Blending over the one attachment, without a logic operation.
pub fn create_blending_info(attachment: BlendAttachment) -> (blending: Blending)
    ensures
        blending == (Blending { logic_op_enable: false, attachment }),
{
    Blending { logic_op_enable: false, attachment }
}

impl PipelineLayout {
    /// The layout with one push-constant range of `push_const_size` bytes
    /// from offset 0, visible to `push_const_stages`. `None` where the
    /// size is more than a range can hold.
    pub fn new(push_const_size: usize, push_const_stages: u32) -> (layout: Option<PipelineLayout>)
        ensures
            layout == if push_const_size <= u32::MAX {
                Some(
                    PipelineLayout {
                        push_constant_range: PushConstantRange {
                            stage_flags: push_const_stages,
                            offset: 0,
                            size: push_const_size as u32,
                        },
                    },
                )
            } else {
                None
            },
    {
        if push_const_size > u32::MAX as usize {
            return None;
        }
        Some(
            PipelineLayout {
                push_constant_range: PushConstantRange {
                    stage_flags: push_const_stages,
                    offset: 0,
                    size: push_const_size as u32,
                },
            },
        )
    }
}

impl Pipeline {
    /// The pipeline that runs exactly two shaders, in the order given,
    /// over a picture as large as the swapchain images. `None` for any
    /// other number of shaders. See [`is_pipeline_of`].
    pub fn new(shaders: &Vec<Shader>, swapchain: &Swapchain) -> (pipeline: Option<Pipeline>)
        ensures
            pipeline is Some <==> shaders.len() == 2,
            pipeline matches Some(p) ==> is_pipeline_of(
                p,
                shaders[0].stage,
                shaders[1].stage,
                swapchain.extent,
            ),
    {
        if shaders.len() != 2 {
            return None;
        }
        let binding_desc = get_binding_description();
        let attr_desc = get_attribute_description();
        let viewport = create_pipeline_viewport(swapchain.extent);
        let scissor = create_pipeline_scissor(swapchain.extent);
        let disabled_blending = create_disabled_blending_attachment();
        Some(
            Pipeline {
                first_stage: shaders[0].stage_info(),
                second_stage: shaders[1].stage_info(),
                vertex_input: create_pipeline_vertex_input_info(binding_desc, attr_desc),
                input_assembly: create_pipeline_input_assembly(),
                viewport_state: create_static_viewport_state_info(viewport, scissor),
                rasterizer: create_rasterizer_info(),
                multisampling: create_multisampling_info(),
                blending: create_blending_info(disabled_blending),
                subpass: 0,
            },
        )
    }
}

} // verus!
