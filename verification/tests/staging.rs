use vxtr::buffer::{
    find_memory_type, size_in_bytes, Buffer, MemoryRequirements, UploadStep,
    VK_BUFFER_USAGE_INDEX_BUFFER_BIT, VK_BUFFER_USAGE_TRANSFER_DST_BIT,
    VK_BUFFER_USAGE_TRANSFER_SRC_BIT, VK_BUFFER_USAGE_VERTEX_BUFFER_BIT,
    VK_MEMORY_PROPERTY_DEVICE_LOCAL_BIT, VK_MEMORY_PROPERTY_HOST_VISIBLE_BIT,
    VK_SHARING_MODE_EXCLUSIVE,
};
use vxtr::command::BufferId;
use vxtr::geometry::{index_count, index_data, indices, vertex_data, vertices};
use vxtr::staging::SimulatedMemory;

fn native_vertex_bytes() -> Vec<u8> {
    let corners: [f32; 8] = [-1.0, -1.0, 1.0, -1.0, 1.0, 1.0, -1.0, 1.0];
    corners.iter().flat_map(|c| c.to_ne_bytes()).collect()
}

fn native_index_bytes() -> Vec<u8> {
    let triangles: [u16; 6] = [0, 1, 2, 2, 3, 0];
    triangles.iter().flat_map(|i| i.to_ne_bytes()).collect()
}

#[test]
fn the_quad_is_stored_as_the_machine_stores_it() {
    assert_eq!(vertex_data(), native_vertex_bytes());
    assert_eq!(index_data(), native_index_bytes());
    assert_eq!(vertex_data().len(), 32);
    assert_eq!(index_data().len(), 12);
    assert_eq!(index_count(), 6);
    assert_eq!(indices(), vec![0, 1, 2, 2, 3, 0]);
    let corners: Vec<f32> = vertices().iter().map(|b| f32::from_bits(*b)).collect();
    assert_eq!(corners, vec![-1.0, -1.0, 1.0, -1.0, 1.0, 1.0, -1.0, 1.0]);
}

#[test]
fn an_upload_has_ten_steps() {
    let steps = Buffer::with_data(BufferId::Vertex, VK_BUFFER_USAGE_VERTEX_BUFFER_BIT, 32);
    assert_eq!(
        steps,
        vec![
            UploadStep::CreateBuffer {
                buffer: BufferId::Staging,
                info: Buffer {
                    size: 32,
                    usage: VK_BUFFER_USAGE_TRANSFER_SRC_BIT,
                    sharing_mode: VK_SHARING_MODE_EXCLUSIVE,
                    properties: VK_MEMORY_PROPERTY_HOST_VISIBLE_BIT,
                },
            },
            UploadStep::MapMemory { buffer: BufferId::Staging, offset: 0, size: 32 },
            UploadStep::WriteMapped,
            UploadStep::FlushMappedMemory { buffer: BufferId::Staging, offset: 0, size: 32 },
            UploadStep::UnmapMemory { buffer: BufferId::Staging },
            UploadStep::CreateBuffer {
                buffer: BufferId::Vertex,
                info: Buffer {
                    size: 32,
                    usage: VK_BUFFER_USAGE_VERTEX_BUFFER_BIT | VK_BUFFER_USAGE_TRANSFER_DST_BIT,
                    sharing_mode: VK_SHARING_MODE_EXCLUSIVE,
                    properties: VK_MEMORY_PROPERTY_DEVICE_LOCAL_BIT,
                },
            },
            UploadStep::RecordCopy {
                flags: 1,
                src: BufferId::Staging,
                dst: BufferId::Vertex,
                src_offset: 0,
                dst_offset: 0,
                size: 32,
            },
            UploadStep::Submit,
            UploadStep::WaitQueueIdle,
            UploadStep::DestroyBuffer { buffer: BufferId::Staging },
        ]
    );
}

#[test]
fn the_vertex_array_comes_back_bit_for_bit() {
    let data = vertex_data();
    let steps = Buffer::with_data(
        BufferId::Vertex,
        VK_BUFFER_USAGE_VERTEX_BUFFER_BIT,
        size_in_bytes(8, 4).unwrap(),
    );
    let mut memory = SimulatedMemory::new();
    assert!(memory.run(&steps, &data));
    assert_eq!(memory.read_back(BufferId::Vertex), Some(native_vertex_bytes()));
    assert_eq!(memory.read_back(BufferId::Index), None);
    assert!(!memory.has_staging());
    assert!(!memory.is_busy());
}

#[test]
fn the_index_array_comes_back_bit_for_bit() {
    let data = index_data();
    let steps = Buffer::with_data(
        BufferId::Index,
        VK_BUFFER_USAGE_INDEX_BUFFER_BIT,
        size_in_bytes(6, 2).unwrap(),
    );
    let mut memory = SimulatedMemory::new();
    assert!(memory.run(&steps, &data));
    assert_eq!(memory.read_back(BufferId::Index), Some(native_index_bytes()));
}

#[test]
fn both_buffers_can_be_uploaded_one_after_the_other() {
    let mut memory = SimulatedMemory::new();
    let vertices = vertex_data();
    let indices = index_data();
    assert!(memory.run(&Buffer::with_data(BufferId::Vertex, 0x80, 32), &vertices));
    assert!(memory.run(&Buffer::with_data(BufferId::Index, 0x40, 12), &indices));
    assert_eq!(memory.read_back(BufferId::Vertex), Some(vertices));
    assert_eq!(memory.read_back(BufferId::Index), Some(indices));
}

#[test]
fn any_byte_pattern_comes_back() {
    let mut data = Vec::new();
    let mut x: u32 = 0x1234_5678;
    for _ in 0..1000 {
        x = x.wrapping_mul(1_664_525).wrapping_add(1_013_904_223);
        data.push((x >> 24) as u8);
    }
    let mut memory = SimulatedMemory::new();
    assert!(memory.run(&Buffer::with_data(BufferId::Vertex, 0x80, 1000), &data));
    assert_eq!(memory.read_back(BufferId::Vertex), Some(data));
    let mut memory = SimulatedMemory::new();
    assert!(memory.run(&Buffer::with_data(BufferId::Index, 0x40, 0), &Vec::new()));
    assert_eq!(memory.read_back(BufferId::Index), Some(Vec::new()));
}

#[test]
fn the_destination_shows_nothing_before_the_queue_is_idle() {
    let data = vertex_data();
    let steps = Buffer::with_data(BufferId::Vertex, 0x80, 32);
    let mut memory = SimulatedMemory::new();
    for step in &steps[..8] {
        assert!(memory.apply(*step, &data));
    }
    assert!(memory.is_busy());
    assert_eq!(memory.read_back(BufferId::Vertex), Some(vec![0u8; 32]));
    // the staging buffer cannot go while the copy may be running
    assert!(!memory.apply(UploadStep::DestroyBuffer { buffer: BufferId::Staging }, &data));
    assert!(memory.has_staging());
    assert!(memory.apply(UploadStep::WaitQueueIdle, &data));
    assert!(!memory.is_busy());
    assert_eq!(memory.read_back(BufferId::Vertex), Some(data.clone()));
    assert!(memory.apply(UploadStep::DestroyBuffer { buffer: BufferId::Staging }, &data));
    assert!(!memory.has_staging());
}

#[test]
fn what_is_not_flushed_is_not_copied() {
    let data = vec![7u8; 16];
    let mut steps = Buffer::with_data(BufferId::Index, 0x40, 16);
    steps.remove(3);
    let mut memory = SimulatedMemory::new();
    assert!(memory.run(&steps, &data));
    assert_eq!(memory.read_back(BufferId::Index), Some(vec![0u8; 16]));
}

#[test]
fn misuse_is_turned_down() {
    let data = vec![1u8, 2, 3, 4];
    let mut memory = SimulatedMemory::new();
    // nothing exists yet
    assert!(!memory.apply(UploadStep::MapMemory { buffer: BufferId::Staging, offset: 0, size: 4 }, &data));
    assert!(!memory.apply(UploadStep::WriteMapped, &data));
    assert!(!memory.apply(UploadStep::Submit, &data));
    assert!(!memory.apply(UploadStep::DestroyBuffer { buffer: BufferId::Vertex }, &data));
    assert!(memory.apply(UploadStep::WaitQueueIdle, &data));
    let staging = UploadStep::CreateBuffer {
        buffer: BufferId::Staging,
        info: Buffer::new(2, 1, 2),
    };
    assert!(memory.apply(staging, &data));
    assert!(!memory.apply(staging, &data));
    // the mapping cannot be larger than the buffer, nor the data
    assert!(!memory.apply(UploadStep::MapMemory { buffer: BufferId::Staging, offset: 0, size: 3 }, &data));
    assert!(memory.apply(UploadStep::MapMemory { buffer: BufferId::Staging, offset: 0, size: 2 }, &data));
    assert!(!memory.apply(UploadStep::WriteMapped, &data));
    // only the staging buffer is mapped
    assert!(!memory.apply(UploadStep::UnmapMemory { buffer: BufferId::Vertex }, &data));
    assert!(!memory.apply(UploadStep::DestroyBuffer { buffer: BufferId::Staging }, &data));
    assert!(memory.apply(UploadStep::UnmapMemory { buffer: BufferId::Staging }, &data));
    // a copy has to fit both buffers
    assert!(memory.apply(
        UploadStep::CreateBuffer { buffer: BufferId::Vertex, info: Buffer::new(8, 0x82, 1) },
        &data
    ));
    let copy = |size: u64, dst_offset: u64| UploadStep::RecordCopy {
        flags: 1,
        src: BufferId::Staging,
        dst: BufferId::Vertex,
        src_offset: 0,
        dst_offset,
        size,
    };
    assert!(!memory.apply(copy(3, 0), &data));
    assert!(!memory.apply(copy(2, 7), &data));
    assert!(!memory.apply(copy(u64::MAX, 1), &data));
    assert!(memory.apply(copy(2, 6), &data));
    assert!(!memory.apply(copy(2, 0), &data));
    // a run stops at the first misuse
    let mut memory = SimulatedMemory::new();
    assert!(!memory.run(&vec![UploadStep::WaitQueueIdle, UploadStep::Submit, staging], &data));
    assert!(!memory.has_staging());
}

#[test]
fn a_copy_lands_at_its_offsets() {
    let data = vec![10u8, 11, 12, 13, 14, 15];
    let mut memory = SimulatedMemory::new();
    let steps = vec![
        UploadStep::CreateBuffer { buffer: BufferId::Staging, info: Buffer::new(6, 1, 2) },
        UploadStep::MapMemory { buffer: BufferId::Staging, offset: 0, size: 6 },
        UploadStep::WriteMapped,
        UploadStep::FlushMappedMemory { buffer: BufferId::Staging, offset: 0, size: 6 },
        UploadStep::UnmapMemory { buffer: BufferId::Staging },
        UploadStep::CreateBuffer { buffer: BufferId::Vertex, info: Buffer::new(8, 0x82, 1) },
        UploadStep::RecordCopy {
            flags: 1,
            src: BufferId::Staging,
            dst: BufferId::Vertex,
            src_offset: 2,
            dst_offset: 5,
            size: 3,
        },
        UploadStep::Submit,
        UploadStep::WaitQueueIdle,
    ];
    assert!(memory.run(&steps, &data));
    assert_eq!(memory.read_back(BufferId::Vertex), Some(vec![0, 0, 0, 0, 0, 12, 13, 14]));
}

#[test]
fn buffer_sizes_are_counts_times_element_sizes() {
    assert_eq!(size_in_bytes(8, 4), Some(32));
    assert_eq!(size_in_bytes(6, 2), Some(12));
    assert_eq!(size_in_bytes(0, 4), Some(0));
    assert_eq!(size_in_bytes(usize::MAX, 2), (usize::MAX as u64).checked_mul(2));
    assert_eq!(size_in_bytes(usize::MAX, usize::MAX), (usize::MAX as u64).checked_mul(usize::MAX as u64));
}

#[test]
fn the_first_fitting_memory_type_is_found() {
    // types: 0 device-local, 1 host-visible, 2 host-visible and coherent, 3 device-local
    let types = vec![0x1u32, 0x2, 0x6, 0x1];
    assert_eq!(find_memory_type(&types, 0b1111, VK_MEMORY_PROPERTY_HOST_VISIBLE_BIT), Some(1));
    assert_eq!(find_memory_type(&types, 0b1111, VK_MEMORY_PROPERTY_DEVICE_LOCAL_BIT), Some(0));
    // the resource may rule types out
    assert_eq!(find_memory_type(&types, 0b1100, VK_MEMORY_PROPERTY_HOST_VISIBLE_BIT), Some(2));
    assert_eq!(find_memory_type(&types, 0b1000, VK_MEMORY_PROPERTY_DEVICE_LOCAL_BIT), Some(3));
    assert_eq!(find_memory_type(&types, 0b1000, VK_MEMORY_PROPERTY_HOST_VISIBLE_BIT), None);
    assert_eq!(find_memory_type(&types, 0, 0xffff_ffff), None);
    // nothing asked of the memory: the first type that the resource allows
    assert_eq!(find_memory_type(&types, 0xffff_ffff, 0), Some(0));
    assert_eq!(find_memory_type(&types, 0b1010, 0), Some(1));
    assert_eq!(find_memory_type(&types, 0xffff_fff0, 0xffff_ffff), None);
    assert_eq!(find_memory_type(&Vec::new(), 0xffff_ffff, 0xffff_ffff), None);
    // every property asked for has to be there
    assert_eq!(find_memory_type(&types, 0b1111, 0x2 | 0x4), Some(2));
    assert_eq!(find_memory_type(&types, 0b1111, 0x4 | 0x8), None);
    assert_eq!(find_memory_type(&types, 0b1111, 0x1 | 0x2), None);
}

#[test]
fn memory_types_beyond_the_thirty_second_are_not_looked_at() {
    let mut types = vec![0u32; 40];
    types[31] = 0x2;
    types[35] = 0x1;
    assert_eq!(find_memory_type(&types, 0xffff_ffff, 0x2), Some(31));
    assert_eq!(find_memory_type(&types, 0xffff_ffff, 0x1), None);
}

#[test]
fn an_allocation_is_as_large_as_the_driver_asks() {
    let buffer = Buffer::new(32, 0x82, VK_MEMORY_PROPERTY_DEVICE_LOCAL_BIT);
    assert_eq!(buffer.sharing_mode, 0);
    let requirements = MemoryRequirements { size: 64, memory_type_bits: 0b110 };
    let types = vec![0x1, 0x2, 0x1];
    assert_eq!(find_memory_type(&types, requirements.memory_type_bits, buffer.properties), Some(2));
    let allocation = buffer.allocation(requirements, &types);
    assert_eq!(allocation.allocation_size, 64);
    assert_eq!(allocation.memory_type_index, 2);
    // where no type fits, that is found out before an allocation is asked for
    assert_eq!(
        find_memory_type(&vec![0x1, 0x2, 0x2], requirements.memory_type_bits, buffer.properties),
        None
    );
}

/// Memory with a staging buffer of `staging` bytes and a vertex buffer of
/// `vertex` bytes, both as they are created.
fn two_buffers(staging: u64, vertex: u64) -> SimulatedMemory {
    let mut memory = SimulatedMemory::new();
    let steps = vec![
        UploadStep::CreateBuffer { buffer: BufferId::Staging, info: Buffer::new(staging, 1, 2) },
        UploadStep::CreateBuffer { buffer: BufferId::Vertex, info: Buffer::new(vertex, 0x82, 1) },
    ];
    assert!(memory.run(&steps, &Vec::new()));
    memory
}

/// What the device sees of the first `size` bytes of the staging buffer.
fn staged(memory: &mut SimulatedMemory, size: u64) -> Vec<u8> {
    let mut steps = Vec::new();
    Buffer::copy_from_buffer(&mut steps, BufferId::Vertex, BufferId::Staging, size);
    assert!(memory.run(&steps, &Vec::new()));
    memory.read_back(BufferId::Vertex).unwrap()[..size as usize].to_vec()
}

#[test]
fn writing_is_map_write_flush_unmap() {
    let mut steps = Vec::new();
    Buffer::upload_to_buffer_memory(&mut steps, BufferId::Staging, 5);
    assert_eq!(
        steps,
        vec![
            UploadStep::MapMemory { buffer: BufferId::Staging, offset: 0, size: 5 },
            UploadStep::WriteMapped,
            UploadStep::FlushMappedMemory { buffer: BufferId::Staging, offset: 0, size: 5 },
            UploadStep::UnmapMemory { buffer: BufferId::Staging },
        ]
    );
}

#[test]
fn what_is_written_reaches_the_start_of_the_memory_and_no_more() {
    let mut memory = two_buffers(8, 8);
    let data = vec![1u8, 2, 3, 4, 5];
    let mut steps = Vec::new();
    Buffer::upload_to_buffer_memory(&mut steps, BufferId::Staging, 5);
    assert!(memory.run(&steps, &data));
    assert_eq!(staged(&mut memory, 8), vec![1, 2, 3, 4, 5, 0, 0, 0]);
    // a shorter write leaves the bytes after it as they were
    let data = vec![9u8, 8, 7];
    let mut steps = Vec::new();
    Buffer::upload_to_buffer_memory(&mut steps, BufferId::Staging, 3);
    assert!(memory.run(&steps, &data));
    assert_eq!(staged(&mut memory, 8), vec![9, 8, 7, 4, 5, 0, 0, 0]);
    // the memory is unmapped after a write: it can be mapped again, once
    let map = UploadStep::MapMemory { buffer: BufferId::Staging, offset: 0, size: 1 };
    assert!(memory.apply(map, &data));
    assert!(!memory.apply(map, &data));
}

#[test]
fn data_longer_than_the_memory_are_not_written() {
    let mut memory = two_buffers(4, 4);
    let data = vec![1u8, 2, 3, 4, 5];
    let mut steps = Vec::new();
    Buffer::upload_to_buffer_memory(&mut steps, BufferId::Staging, 5);
    assert!(!memory.run(&steps, &data));
    assert_eq!(staged(&mut memory, 4), vec![0, 0, 0, 0]);
}

#[test]
fn copying_is_record_submit_wait() {
    let mut steps = Vec::new();
    Buffer::copy_from_buffer(&mut steps, BufferId::Index, BufferId::Staging, 12);
    assert_eq!(
        steps,
        vec![
            UploadStep::RecordCopy {
                flags: 1,
                src: BufferId::Staging,
                dst: BufferId::Index,
                src_offset: 0,
                dst_offset: 0,
                size: 12,
            },
            UploadStep::Submit,
            UploadStep::WaitQueueIdle,
        ]
    );
}

#[test]
fn what_is_copied_reaches_the_start_of_the_destination_and_no_more() {
    let mut memory = two_buffers(6, 8);
    let first = vec![1u8, 2, 3, 4, 5, 6];
    let mut steps = Vec::new();
    Buffer::upload_to_buffer_memory(&mut steps, BufferId::Staging, 6);
    Buffer::copy_from_buffer(&mut steps, BufferId::Vertex, BufferId::Staging, 6);
    assert!(memory.run(&steps, &first));
    assert_eq!(memory.read_back(BufferId::Vertex), Some(vec![1, 2, 3, 4, 5, 6, 0, 0]));
    assert!(!memory.is_busy());
    // a shorter copy leaves the bytes after it as they were
    let second = vec![7u8, 7, 7, 7, 7, 7];
    let mut steps = Vec::new();
    Buffer::upload_to_buffer_memory(&mut steps, BufferId::Staging, 6);
    Buffer::copy_from_buffer(&mut steps, BufferId::Vertex, BufferId::Staging, 2);
    assert!(memory.run(&steps, &second));
    assert_eq!(memory.read_back(BufferId::Vertex), Some(vec![7, 7, 3, 4, 5, 6, 0, 0]));
    // the source is as it was: all of it can be copied again
    assert_eq!(staged(&mut memory, 6), vec![7, 7, 7, 7, 7, 7]);
    // a copy longer than either buffer is not recorded
    let mut steps = Vec::new();
    Buffer::copy_from_buffer(&mut steps, BufferId::Vertex, BufferId::Staging, 7);
    assert!(!memory.run(&steps, &second));
}
