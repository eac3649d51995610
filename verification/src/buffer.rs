//! Buffers, the choice of their memory, and the upload of data through a
//! staging buffer.
//!
//! Geometry is written once: into a host-visible staging buffer, from
//! there by a copy on the device into a device-local buffer, and the
//! staging buffer is destroyed as soon as the copy is known to be
//! complete. [`Buffer::with_data`] gives the steps of such an upload;
//! [`crate::staging::Memory`] says what each step does to the contents of the
//! buffers, and [`crate::staging::SimulatedMemory`] does it to vectors of bytes.

use crate::command::{BufferId, VK_COMMAND_BUFFER_USAGE_ONE_TIME_SUBMIT_BIT};
use vstd::prelude::*;

verus! {

/// `VK_BUFFER_USAGE_TRANSFER_SRC_BIT`.
pub const VK_BUFFER_USAGE_TRANSFER_SRC_BIT: u32 = 0x1;

/// `VK_BUFFER_USAGE_TRANSFER_DST_BIT`.
pub const VK_BUFFER_USAGE_TRANSFER_DST_BIT: u32 = 0x2;

/// `VK_BUFFER_USAGE_INDEX_BUFFER_BIT`.
pub const VK_BUFFER_USAGE_INDEX_BUFFER_BIT: u32 = 0x40;

/// `VK_BUFFER_USAGE_VERTEX_BUFFER_BIT`.
pub const VK_BUFFER_USAGE_VERTEX_BUFFER_BIT: u32 = 0x80;

/// `VK_MEMORY_PROPERTY_DEVICE_LOCAL_BIT`.
pub const VK_MEMORY_PROPERTY_DEVICE_LOCAL_BIT: u32 = 0x1;

/// `VK_MEMORY_PROPERTY_HOST_VISIBLE_BIT`.
pub const VK_MEMORY_PROPERTY_HOST_VISIBLE_BIT: u32 = 0x2;

/// `VK_SHARING_MODE_EXCLUSIVE`.
pub const VK_SHARING_MODE_EXCLUSIVE: u32 = 0;

/// `VK_MAX_MEMORY_TYPES`: a device has no more memory types than the mask
/// of a resource has bits.
pub const VK_MAX_MEMORY_TYPES: u32 = 32;

/// Everything that creating a buffer and choosing its memory needs to be
/// told.
#[derive(Clone, Copy, Debug, PartialEq, Eq, Structural)]
pub struct Buffer {
    /// Size in bytes.
    pub size: u64,
    /// What the buffer is used for.
    pub usage: u32,
    /// Who may use it.
    pub sharing_mode: u32,
    /// What is asked of the memory behind it.
    pub properties: u32,
}

/// What the driver asks of the memory of a resource.
#[derive(Clone, Copy, Debug, PartialEq, Eq, Structural)]
pub struct MemoryRequirements {
    /// Size of the allocation in bytes.
    pub size: u64,
    /// Bit `i` is set where memory type `i` will do.
    pub memory_type_bits: u32,
}

/// Everything that allocating the memory of a buffer needs to be told.
#[derive(Clone, Copy, Debug, PartialEq, Eq, Structural)]
pub struct MemoryAllocation {
    pub allocation_size: u64,
    pub memory_type_index: u32,
}

/// One step of an upload.
#[allow(inconsistent_fields)]
#[derive(Clone, Copy, Debug, PartialEq, Eq, Structural)]
pub enum UploadStep {
    /// Create `buffer` as `info` says, allocate its memory and bind it.
    CreateBuffer { buffer: BufferId, info: Buffer },
    /// Map `size` bytes of the memory of `buffer` from `offset`.
    MapMemory { buffer: BufferId, offset: u64, size: u64 },
    /// Copy the data to the start of the mapping.
    WriteMapped,
    /// Make `size` bytes from `offset` of what was written to `buffer`
    /// visible to the device.
    FlushMappedMemory { buffer: BufferId, offset: u64, size: u64 },
    /// Unmap the memory of `buffer`.
    UnmapMemory { buffer: BufferId },
    /// Allocate a command buffer and record into it, with the usage
    /// `flags`, the one copy of `size` bytes from `src` at `src_offset`
    /// to `dst` at `dst_offset`.
    RecordCopy {
        flags: u32,
        src: BufferId,
        dst: BufferId,
        src_offset: u64,
        dst_offset: u64,
        size: u64,
    },
    /// Submit the command buffer, with no semaphore and no fence.
    Submit,
    /// Block until the queue has finished all submitted work.
    WaitQueueIdle,
    /// Destroy `buffer` and free its memory.
    DestroyBuffer { buffer: BufferId },
}

/// Whether memory type `i` will do: it exists, the resource allows it,
/// and it has every property asked for.
pub open spec fn memory_type_fits(
    memory_types: Seq<u32>,
    req_type: u32,
    req_properties: u32,
    i: int,
) -> bool {
    &&& 0 <= i < memory_types.len()
    &&& i < VK_MAX_MEMORY_TYPES
    &&& req_type & (1u32 << (i as u32)) != 0
    &&& memory_types[i] & req_properties == req_properties
}

/// Whether some memory type will do.
pub open spec fn some_memory_type_fits(memory_types: Seq<u32>, req_type: u32, req_properties: u32)
    -> bool {
    exists|k: int| memory_type_fits(memory_types, req_type, req_properties, k)
}

/// Whether memory type `i` is the first that will do.
pub open spec fn is_first_fitting(
    memory_types: Seq<u32>,
    req_type: u32,
    req_properties: u32,
    i: int,
) -> bool {
    memory_type_fits(memory_types, req_type, req_properties, i) && forall|k: int|
        0 <= k < i ==> !memory_type_fits(memory_types, req_type, req_properties, k)
}

/// The description of a buffer that one queue family uses at a time.
pub open spec fn described(size: u64, usage: u32, properties: u32) -> Buffer {
    Buffer { size, usage, sharing_mode: VK_SHARING_MODE_EXCLUSIVE, properties }
}

/// The steps that write `size` bytes of data to the memory of `buffer`:
/// map that much from the start, write, flush what was written, unmap.
pub open spec fn write_steps(buffer: BufferId, size: u64) -> Seq<UploadStep> {
    seq![
        UploadStep::MapMemory { buffer, offset: 0, size },
        UploadStep::WriteMapped,
        UploadStep::FlushMappedMemory { buffer, offset: 0, size },
        UploadStep::UnmapMemory { buffer },
    ]
}

/// The steps that copy the first `size` bytes of `src` to the start of
/// `dst`: record the one copy for a single submission, submit it, and
/// wait for the queue.
pub open spec fn copy_steps(dst: BufferId, src: BufferId, size: u64) -> Seq<UploadStep> {
    seq![
        UploadStep::RecordCopy {
            flags: VK_COMMAND_BUFFER_USAGE_ONE_TIME_SUBMIT_BIT,
            src,
            dst,
            src_offset: 0,
            dst_offset: 0,
            size,
        },
        UploadStep::Submit,
        UploadStep::WaitQueueIdle,
    ]
}

/// The steps that upload `size` bytes into a new device-local buffer
/// `destination` with the given usage.
///
/// The staging buffer is exactly as large as the data and the
/// destination is too; the destination can be copied to besides what it
/// is used for. The data are written and flushed while the staging memory
/// is mapped; one copy moves the whole range; the queue is waited on
/// before the staging buffer goes.
pub open spec fn upload_steps(destination: BufferId, usage: u32, size: u64) -> Seq<UploadStep> {
    seq![
        UploadStep::CreateBuffer {
            buffer: BufferId::Staging,
            info: described(
                size,
                VK_BUFFER_USAGE_TRANSFER_SRC_BIT,
                VK_MEMORY_PROPERTY_HOST_VISIBLE_BIT,
            ),
        },
        UploadStep::MapMemory { buffer: BufferId::Staging, offset: 0, size },
        UploadStep::WriteMapped,
        UploadStep::FlushMappedMemory { buffer: BufferId::Staging, offset: 0, size },
        UploadStep::UnmapMemory { buffer: BufferId::Staging },
        UploadStep::CreateBuffer {
            buffer: destination,
            info: described(
                size,
                usage | VK_BUFFER_USAGE_TRANSFER_DST_BIT,
                VK_MEMORY_PROPERTY_DEVICE_LOCAL_BIT,
            ),
        },
        UploadStep::RecordCopy {
            flags: VK_COMMAND_BUFFER_USAGE_ONE_TIME_SUBMIT_BIT,
            src: BufferId::Staging,
            dst: destination,
            src_offset: 0,
            dst_offset: 0,
            size,
        },
        UploadStep::Submit,
        UploadStep::WaitQueueIdle,
        UploadStep::DestroyBuffer { buffer: BufferId::Staging },
    ]
}

/// Finds the memory type for a resource: the first that the resource
/// allows and that has every property asked for. `None` exactly where no
/// type will do.
pub fn find_memory_type(memory_types: &Vec<u32>, req_type: u32, req_properties: u32) -> (found:
    Option<u32>)
    ensures
        found is Some <==> some_memory_type_fits(memory_types@, req_type, req_properties),
        found matches Some(i) ==> is_first_fitting(
            memory_types@,
            req_type,
            req_properties,
            i as int,
        ),
{
    let mut i: u32 = 0;
    while i < VK_MAX_MEMORY_TYPES && (i as usize) < memory_types.len()
        invariant
            i <= VK_MAX_MEMORY_TYPES,
            i <= memory_types.len(),
            forall|k: int|
                0 <= k < i ==> !memory_type_fits(memory_types@, req_type, req_properties, k),
        decreases VK_MAX_MEMORY_TYPES - i,
    {
        if req_type & (1u32 << i) != 0 && memory_types[i as usize] & req_properties
            == req_properties {
            assert(memory_type_fits(memory_types@, req_type, req_properties, i as int));
            return Some(i);
        }
        i += 1;
    }
    None
}

/// The number of bytes that `count` elements of `element_size` bytes
/// take, or `None` where that is more than a buffer size can hold.
pub fn size_in_bytes(count: usize, element_size: usize) -> (size: Option<u64>)
    ensures
        size is Some <==> count * element_size <= u64::MAX,
        size matches Some(s) ==> s == count * element_size,
{
    match (count as u64).checked_mul(element_size as u64) {
        Some(s) => Some(s),
        None => None,
    }
}

impl Buffer {
    /// The description of a buffer. See [`described`].
    pub fn new(size: u64, usage: u32, properties: u32) -> (buffer: Buffer)
        ensures
            buffer == described(size, usage, properties),
    {
        Buffer { size, usage, sharing_mode: VK_SHARING_MODE_EXCLUSIVE, properties }
    }

    /// The allocation for this buffer: as large as the driver asks, in
    /// the first memory type that the driver allows for the buffer and
    /// that has the properties the buffer asks for.
    ///
    /// There has to be such a type. Startup does not go on without one:
    /// [`find_memory_type`] tells whether there is.
    pub fn allocation(&self, requirements: MemoryRequirements, memory_types: &Vec<u32>) -> (result:
        MemoryAllocation)
        requires
            some_memory_type_fits(memory_types@, requirements.memory_type_bits, self.properties),
        ensures
            result.allocation_size == requirements.size,
            is_first_fitting(
                memory_types@,
                requirements.memory_type_bits,
                self.properties,
                result.memory_type_index as int,
            ),
    {
        let memory_type_index = find_memory_type(
            memory_types,
            requirements.memory_type_bits,
            self.properties,
        ).unwrap();
        MemoryAllocation { allocation_size: requirements.size, memory_type_index }
    }

    /// The steps that upload `size` bytes into a new device-local buffer.
    /// See [`upload_steps`].
    pub fn with_data(destination: BufferId, usage: u32, size: u64) -> (steps: Vec<UploadStep>)
        ensures
            steps@ == upload_steps(destination, usage, size),
    {
        let staging_buffer = Buffer::new(
            size,
            VK_BUFFER_USAGE_TRANSFER_SRC_BIT,
            VK_MEMORY_PROPERTY_HOST_VISIBLE_BIT,
        );
        let buffer = Buffer::new(
            size,
            usage | VK_BUFFER_USAGE_TRANSFER_DST_BIT,
            VK_MEMORY_PROPERTY_DEVICE_LOCAL_BIT,
        );
        let mut steps: Vec<UploadStep> = Vec::new();
        steps.push(UploadStep::CreateBuffer { buffer: BufferId::Staging, info: staging_buffer });
        Buffer::upload_to_buffer_memory(&mut steps, BufferId::Staging, size);
        steps.push(UploadStep::CreateBuffer { buffer: destination, info: buffer });
        Buffer::copy_from_buffer(&mut steps, destination, BufferId::Staging, size);
        steps.push(UploadStep::DestroyBuffer { buffer: BufferId::Staging });
        steps
    }

    /// Adds the steps that write `size` bytes of data to the memory of
    /// `buffer`. See [`write_steps`].
    pub fn upload_to_buffer_memory(steps: &mut Vec<UploadStep>, buffer: BufferId, size: u64)
        ensures
            final(steps)@ == old(steps)@ + write_steps(buffer, size),
    {
        steps.push(UploadStep::MapMemory { buffer, offset: 0, size });
        steps.push(UploadStep::WriteMapped);
        steps.push(UploadStep::FlushMappedMemory { buffer, offset: 0, size });
        steps.push(UploadStep::UnmapMemory { buffer });
    }

    /// Adds the steps that copy the first `size` bytes of `src` to the
    /// start of `dst`. See [`copy_steps`].
    pub fn copy_from_buffer(steps: &mut Vec<UploadStep>, dst: BufferId, src: BufferId, size: u64)
        ensures
            final(steps)@ == old(steps)@ + copy_steps(dst, src, size),
    {
        steps.push(
            UploadStep::RecordCopy {
                flags: VK_COMMAND_BUFFER_USAGE_ONE_TIME_SUBMIT_BIT,
                src,
                dst,
                src_offset: 0,
                dst_offset: 0,
                size,
            },
        );
        steps.push(UploadStep::Submit);
        steps.push(UploadStep::WaitQueueIdle);
    }
}

} // verus!
