//! Commands as they are recorded into a command buffer.
//!
//! A [`CommandBufferRecording`] collects the commands in order; whoever
//! owns the real command buffer replays them into it between the begin
//! and the end of the recording.

use crate::push_constants::{PushConstants, PUSH_CONSTANTS_SIZE};
use crate::swapchain::Extent2D;
use vstd::prelude::*;

verus! {

/// `VK_PIPELINE_BIND_POINT_GRAPHICS`.
pub const VK_PIPELINE_BIND_POINT_GRAPHICS: u32 = 0;

/// `VK_INDEX_TYPE_UINT16`.
pub const VK_INDEX_TYPE_UINT16: u32 = 0;

/// `VK_SHADER_STAGE_VERTEX_BIT`.
pub const VK_SHADER_STAGE_VERTEX_BIT: u32 = 0x1;

/// `VK_SHADER_STAGE_FRAGMENT_BIT`.
pub const VK_SHADER_STAGE_FRAGMENT_BIT: u32 = 0x10;

/// `VK_COMMAND_BUFFER_USAGE_ONE_TIME_SUBMIT_BIT`.
pub const VK_COMMAND_BUFFER_USAGE_ONE_TIME_SUBMIT_BIT: u32 = 0x1;

/// The buffers that commands can name.
#[derive(Clone, Copy, Debug, PartialEq, Eq, Structural)]
pub enum BufferId {
    /// The host-visible buffer that an upload passes through.
    Staging,
    /// The device-local buffer of vertex positions.
    Vertex,
    /// The device-local buffer of indices.
    Index,
}

/// A clear colour, each channel the bits of a 32-bit float.
#[derive(Clone, Copy, Debug, PartialEq, Eq, Structural)]
pub struct ClearColor {
    pub r: u32,
    pub g: u32,
    pub b: u32,
    pub a: u32,
}

/// One recorded command.
#[allow(inconsistent_fields)]
#[derive(Clone, Copy, Debug, PartialEq, Eq, Structural)]
pub enum Command {
    /// Copy `size` bytes from `src` at `src_offset` to `dst` at
    /// `dst_offset`.
    CopyBuffer { src: BufferId, dst: BufferId, src_offset: u64, dst_offset: u64, size: u64 },
    /// Begin the render pass on framebuffer number `framebuffer`, over the
    /// whole of `extent`, clearing to `clear_color`, with the commands of
    /// the subpass recorded inline.
    BeginRenderPass { clear_color: ClearColor, framebuffer: u32, extent: Extent2D },
    /// End the render pass.
    EndRenderPass,
    /// Bind the pipeline at `bind_point`.
    BindPipeline { bind_point: u32 },
    /// Bind `buffer` at `offset` as the one vertex buffer, at binding 0.
    BindVertexBuffers { buffer: BufferId, offset: u64 },
    /// Bind `buffer` at `offset` as the index buffer.
    BindIndexBuffer { buffer: BufferId, offset: u64, index_type: u32 },
    /// Push `size` bytes of `data` to `shader_stages` at `offset`.
    PushConstants { shader_stages: u32, offset: u32, size: u32, data: PushConstants },
    /// Draw with indices.
    DrawIndexed {
        idx_count: u32,
        inst_count: u32,
        first_idx: u32,
        vert_off: i32,
        first_inst: u32,
    },
}

/// The commands of one recording, in order, and the usage flags that the
/// recording begins with.
pub struct CommandBufferRecording {
    pub flags: u32,
    pub commands: Vec<Command>,
}

impl CommandBufferRecording {
    /// Whether this is `before` with `command` recorded after it.
    pub open spec fn follows(self, before: CommandBufferRecording, command: Command) -> bool {
        self.flags == before.flags && self.commands@ == before.commands@.push(command)
    }

    /// An empty recording that begins with `flags`.
    pub fn record_with_flags(flags: u32) -> (recording: CommandBufferRecording)
        ensures
            recording.flags == flags,
            recording.commands@ == Seq::<Command>::empty(),
    {
        CommandBufferRecording { flags, commands: Vec::new() }
    }

    /// An empty recording without usage flags.
    pub fn record() -> (recording: CommandBufferRecording)
        ensures
            recording.flags == 0,
            recording.commands@ == Seq::<Command>::empty(),
    {
        CommandBufferRecording::record_with_flags(0)
    }

    /// Records a copy between two buffers.
    pub fn copy_buffer(
        &mut self,
        src: BufferId,
        dst: BufferId,
        src_offset: u64,
        dst_offset: u64,
        size: u64,
    )
        ensures
            final(self).follows(
                *old(self),
                Command::CopyBuffer { src, dst, src_offset, dst_offset, size },
            ),
    {
        self.commands.push(Command::CopyBuffer { src, dst, src_offset, dst_offset, size });
    }

    /// Records the copy of the first `size` bytes of `src` to the start of
    /// `dst`.
    pub fn copy_buffer_full(&mut self, src: BufferId, dst: BufferId, size: u64)
        ensures
            final(self).follows(
                *old(self),
                Command::CopyBuffer { src, dst, src_offset: 0, dst_offset: 0, size },
            ),
    {
        self.copy_buffer(src, dst, 0, 0, size);
    }

    /// Records the beginning of the render pass.
    pub fn begin_render_pass(&mut self, clear_color: ClearColor, framebuffer: u32, extent: Extent2D)
        ensures
            final(self).follows(
                *old(self),
                Command::BeginRenderPass { clear_color, framebuffer, extent },
            ),
    {
        self.commands.push(Command::BeginRenderPass { clear_color, framebuffer, extent });
    }

    /// Records the end of the render pass.
    pub fn end_render_pass(&mut self)
        ensures
            final(self).follows(*old(self), Command::EndRenderPass),
    {
        self.commands.push(Command::EndRenderPass);
    }

    /// Records the binding of the pipeline.
    pub fn bind_pipeline(&mut self, bind_point: u32)
        ensures
            final(self).follows(*old(self), Command::BindPipeline { bind_point }),
    {
        self.commands.push(Command::BindPipeline { bind_point });
    }

    /// Records the binding of the one vertex buffer.
    pub fn bind_vertex_buffers(&mut self, buffer: BufferId, offset: u64)
        ensures
            final(self).follows(*old(self), Command::BindVertexBuffers { buffer, offset }),
    {
        self.commands.push(Command::BindVertexBuffers { buffer, offset });
    }

    /// Records the binding of the index buffer.
    pub fn bind_index_buffer(&mut self, buffer: BufferId, offset: u64, index_type: u32)
        ensures
            final(self).follows(
                *old(self),
                Command::BindIndexBuffer { buffer, offset, index_type },
            ),
    {
        self.commands.push(Command::BindIndexBuffer { buffer, offset, index_type });
    }

    /// Records the push of the whole constant block.
    pub fn push_constants(&mut self, shader_stages: u32, offset: u32, push_constants: PushConstants)
        ensures
            final(self).follows(
                *old(self),
                Command::PushConstants {
                    shader_stages,
                    offset,
                    size: PUSH_CONSTANTS_SIZE,
                    data: push_constants,
                },
            ),
    {
        self.commands.push(
            Command::PushConstants {
                shader_stages,
                offset,
                size: PUSH_CONSTANTS_SIZE,
                data: push_constants,
            },
        );
    }

    /// Records an indexed, instanced draw.
    pub fn draw_indexed_instanced(
        &mut self,
        idx_count: u32,
        inst_count: u32,
        first_idx: u32,
        vert_off: i32,
        first_inst: u32,
    )
        ensures
            final(self).follows(
                *old(self),
                Command::DrawIndexed { idx_count, inst_count, first_idx, vert_off, first_inst },
            ),
    {
        self.commands.push(
            Command::DrawIndexed { idx_count, inst_count, first_idx, vert_off, first_inst },
        );
    }

    /// Records the draw of one instance of `idx_count` indices from the
    /// start of the buffers.
    pub fn draw_indexed(&mut self, idx_count: u32)
        ensures
            final(self).follows(
                *old(self),
                Command::DrawIndexed {
                    idx_count,
                    inst_count: 1,
                    first_idx: 0,
                    vert_off: 0,
                    first_inst: 0,
                },
            ),
    {
        self.draw_indexed_instanced(idx_count, 1, 0, 0, 0);
    }
}

} // verus!
