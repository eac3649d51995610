use vxtr::cmd_pool::{CommandBufferAllocation, CommandPool};
use vxtr::endian::{pack_word, pack_words, split_half, split_word, unpack_halves, unpack_words};
use vxtr::instance::{find_nul, Instance};
use vxtr::lifecycle::{creation_order, teardown_order, Resource, RESOURCE_COUNT};
use vxtr::names::{
    copy_name, device_layer_table, first_unsupported, get_required_extensions,
    get_validation_layers, instance_layer_table, is_supported,
    same_name, supports_required_extensions, Requirement,
};
use vxtr::pipeline::{
    create_blending_info, create_disabled_blending_attachment, create_multisampling_info,
    create_pipeline_input_assembly, create_pipeline_scissor, create_pipeline_vertex_input_info,
    create_pipeline_viewport, create_rasterizer_info, create_static_viewport_state_info,
    get_attribute_description, get_binding_description, Pipeline, PipelineLayout,
    PushConstantRange, Rect2D,
};
use vxtr::render_pass::RenderPass;
use vxtr::shader::{
    create_shader_stage_info, has_whole_words, pack_to_u32s, Shader, ShaderType,
};
use vxtr::swapchain::{Extent2D, SharingMode, Swapchain};
use vxtr::version::{get_vk_api_version, make_vk_api_version, make_vk_version};
use vxtr::window::{
    key_callback, react, window_size_callback, Event, Key, Placement, Reaction, Resolution,
    Window, GLFW_KEY_ESCAPE, GLFW_KEY_UNKNOWN, GLFW_PRESS,
};

fn swapchain(width: u32, height: u32) -> Swapchain {
    Swapchain {
        min_image_count: 3,
        format: 36,
        color_space: 0,
        extent: Extent2D { width, height },
        image_array_layers: 1,
        image_usage: 0x10,
        sharing: SharingMode::Exclusive,
        pre_transform: 1,
        composite_alpha: 1,
        present_mode: 2,
        clipped: true,
    }
}

#[test]
fn versions_pack_into_bit_fields() {
    assert_eq!(make_vk_version(1, 0, 0), 1 << 22);
    assert_eq!(make_vk_version(1, 2, 3), (1 << 22) | (2 << 12) | 3);
    assert_eq!(make_vk_version(0, 0, 0), 0);
    assert_eq!(make_vk_version(0x3ff, 0x3ff, 0xfff), u32::MAX);
    assert_eq!(make_vk_api_version(0, 1, 3, 0), 0x0040_3000);
    assert_eq!(make_vk_api_version(0, 1, 3, 0), 4_206_592);
    assert_eq!(make_vk_api_version(7, 0x7f, 0x3ff, 0xfff), u32::MAX);
    // a number too large for its field spills over
    assert_eq!(make_vk_version(0, 0, 0x1000), make_vk_version(0, 1, 0));
    assert_eq!(make_vk_version(0x400, 0, 0), 0);
}

#[test]
fn unpacking_a_version_undoes_packing() {
    assert_eq!(get_vk_api_version(0x0040_3000), (0, 1, 3, 0));
    assert_eq!(get_vk_api_version(0), (0, 0, 0, 0));
    assert_eq!(get_vk_api_version(u32::MAX), (7, 0x7f, 0x3ff, 0xfff));
    assert_eq!(get_vk_api_version(4_206_797), (0, 1, 3, 205));
    for fields in [(0u32, 1u32, 2u32, 3u32), (1, 0, 0, 0), (5, 100, 1000, 4000), (7, 127, 1023, 4095)] {
        let packed = make_vk_api_version(fields.0, fields.1, fields.2, fields.3);
        assert_eq!(get_vk_api_version(packed), fields);
    }
}

#[test]
fn names_are_compared_byte_for_byte() {
    let a = b"VK_KHR_swapchain".to_vec();
    assert!(same_name(&a, &b"VK_KHR_swapchain".to_vec()));
    assert!(!same_name(&a, &b"VK_KHR_swapchaim".to_vec()));
    assert!(!same_name(&a, &b"VK_KHR_swapchain2".to_vec()));
    assert!(!same_name(&a, &b"VK_KHR_swapchai".to_vec()));
    assert!(same_name(&Vec::new(), &Vec::new()));
    assert_eq!(copy_name(&a), a);
    let offered = vec![b"one".to_vec(), b"two".to_vec()];
    assert!(is_supported(&b"two".to_vec(), &offered));
    assert!(!is_supported(&b"three".to_vec(), &offered));
    assert!(!is_supported(&b"two".to_vec(), &Vec::new()));
}

#[test]
fn the_swapchain_extension_is_the_one_required() {
    let required = get_required_extensions();
    assert_eq!(required, vec![b"VK_KHR_swapchain".to_vec()]);
    let offered = vec![b"VK_EXT_debug_marker".to_vec(), b"VK_KHR_swapchain".to_vec()];
    assert!(supports_required_extensions(&required, &offered));
    assert!(!supports_required_extensions(&required, &offered[..1].to_vec()));
    assert!(supports_required_extensions(&Vec::new(), &Vec::new()));
    let two = vec![b"a".to_vec(), b"b".to_vec()];
    assert!(!supports_required_extensions(&two, &vec![b"a".to_vec()]));
    assert!(supports_required_extensions(&two, &vec![b"b".to_vec(), b"a".to_vec()]));
}

#[test]
fn a_required_layer_that_is_not_offered_fails_startup() {
    let table = device_layer_table();
    assert_eq!(table.len(), 1);
    assert_eq!(table[0].name, b"VK_LAYER_KHRONOS_validation".to_vec());
    assert!(table[0].required);
    let names: Vec<Vec<u8>> = instance_layer_table().iter().map(|e| e.name.clone()).collect();
    assert_eq!(
        names,
        vec![
            b"VK_LAYER_MESA_device_select".to_vec(),
            b"VK_LAYER_LUNARG_monitor".to_vec(),
            b"VK_LAYER_KHRONOS_synchronization2".to_vec(),
            b"VK_LAYER_KHRONOS_validation".to_vec(),
        ]
    );
    assert!(instance_layer_table().iter().all(|e| e.required));
    assert_eq!(first_unsupported(&instance_layer_table(), &names[1..].to_vec()), Some(0));
    assert_eq!(first_unsupported(&instance_layer_table(), &names[..3].to_vec()), Some(3));
    assert_eq!(first_unsupported(&instance_layer_table(), &names), None);
    assert_eq!(get_validation_layers(&instance_layer_table(), &names), names.clone());
    let offered = vec![b"VK_LAYER_MESA_device_select".to_vec(), b"VK_LAYER_KHRONOS_validation".to_vec()];
    assert_eq!(first_unsupported(&table, &offered), None);
    assert_eq!(first_unsupported(&table, &Vec::new()), Some(0));
    assert_eq!(get_validation_layers(&table, &offered), vec![b"VK_LAYER_KHRONOS_validation".to_vec()]);
    // without the layer startup does not get as far as enabling anything
    assert_eq!(first_unsupported(&table, &offered[..1].to_vec()), Some(0));
}

#[test]
fn optional_layers_are_enabled_where_they_are_offered() {
    let entry = |name: &[u8], required: bool| Requirement { name: name.to_vec(), required };
    let table = vec![
        entry(b"VK_LAYER_MESA_device_select", false),
        entry(b"VK_LAYER_LUNARG_monitor", false),
        entry(b"VK_LAYER_KHRONOS_synchronization2", true),
        entry(b"VK_LAYER_KHRONOS_validation", true),
    ];
    let offered = vec![
        b"VK_LAYER_KHRONOS_validation".to_vec(),
        b"VK_LAYER_KHRONOS_synchronization2".to_vec(),
        b"VK_LAYER_LUNARG_monitor".to_vec(),
    ];
    assert_eq!(first_unsupported(&table, &offered), None);
    assert_eq!(
        get_validation_layers(&table, &offered),
        vec![
            b"VK_LAYER_LUNARG_monitor".to_vec(),
            b"VK_LAYER_KHRONOS_synchronization2".to_vec(),
            b"VK_LAYER_KHRONOS_validation".to_vec(),
        ]
    );
    // the first missing required entry is the one reported
    assert_eq!(first_unsupported(&table, &offered[2..].to_vec()), Some(2));
    assert_eq!(first_unsupported(&table, &offered[..1].to_vec()), Some(2));
    assert_eq!(first_unsupported(&table, &offered[1..].to_vec()), Some(3));
    assert_eq!(get_validation_layers(&Vec::new(), &offered), Vec::<Vec<u8>>::new());
    // a table without a required entry asks nothing of the driver
    let optional = vec![entry(b"VK_LAYER_LUNARG_monitor", false)];
    assert_eq!(first_unsupported(&optional, &Vec::new()), None);
    assert_eq!(get_validation_layers(&optional, &Vec::new()), Vec::<Vec<u8>>::new());
}

#[test]
fn the_instance_is_described_for_the_driver() {
    let table = device_layer_table();
    let offered = vec![b"VK_LAYER_KHRONOS_validation".to_vec()];
    let extensions = vec![b"VK_KHR_surface".to_vec(), b"VK_KHR_xcb_surface".to_vec()];
    let instance =
        Instance::new(b"vxtr".to_vec(), (1, 0, 0), (0, 1, 0), extensions.clone(), &table, &offered, true);
    assert_eq!(instance.app_name, b"vxtr".to_vec());
    assert_eq!(instance.application_version, 1 << 22);
    assert_eq!(instance.engine_version, 1 << 12);
    assert_eq!(instance.api_version, (1 << 22) | (3 << 12));
    assert_eq!(instance.extensions, extensions);
    assert_eq!(instance.layers, offered);
    let release =
        Instance::new(b"vxtr".to_vec(), (1, 0, 0), (0, 1, 0), Vec::new(), &table, &offered, false);
    assert!(release.layers.is_empty());
    assert!(release.extensions.is_empty());
}

#[test]
fn a_name_with_a_zero_byte_is_found_out_before_the_instance_is_described() {
    assert_eq!(find_nul(&b"vx\0tr".to_vec()), Some(2));
    assert_eq!(find_nul(&b"\0\0".to_vec()), Some(0));
    assert_eq!(find_nul(&b"vxtr\0".to_vec()), Some(4));
    assert_eq!(find_nul(&b"a\0c\0".to_vec()), Some(1));
    assert_eq!(find_nul(&b"abc".to_vec()), None);
    assert_eq!(find_nul(&b"vxtr".to_vec()), None);
    assert_eq!(find_nul(&Vec::new()), None);
    // a name that passes can be described, the empty one too
    let table = device_layer_table();
    let offered = vec![b"VK_LAYER_KHRONOS_validation".to_vec()];
    let instance = Instance::new(Vec::new(), (1, 0, 0), (0, 0, 0), Vec::new(), &table, &offered, false);
    assert!(instance.app_name.is_empty());
}

#[test]
fn the_render_pass_clears_draws_and_presents() {
    let render_pass = RenderPass::new(36);
    let attachment = render_pass.color_attachment;
    assert_eq!(attachment.format, 36);
    assert_eq!(attachment.samples, 1);
    assert_eq!((attachment.load_op, attachment.store_op), (1, 0));
    assert_eq!((attachment.stencil_load_op, attachment.stencil_store_op), (2, 1));
    assert_eq!((attachment.initial_layout, attachment.final_layout), (0, 1_000_001_002));
    assert_eq!(render_pass.subpass.pipeline_bind_point, 0);
    assert_eq!(render_pass.subpass.color_attachment.attachment, 0);
    assert_eq!(render_pass.subpass.color_attachment.layout, 2);
    let dependency = render_pass.dependency;
    assert_eq!((dependency.src_subpass, dependency.dst_subpass), (u32::MAX, 0));
    assert_eq!((dependency.src_stage_mask, dependency.dst_stage_mask), (0x400, 0x400));
    assert_eq!((dependency.src_access_mask, dependency.dst_access_mask), (0, 0x100));
    assert_eq!(RenderPass::new(44).color_attachment.format, 44);
    assert_eq!(RenderPass::new(44).dependency, dependency);
}

#[test]
fn the_pipeline_layout_has_one_push_constant_range() {
    assert_eq!(
        PipelineLayout::new(12, 0x10),
        Some(PipelineLayout {
            push_constant_range: PushConstantRange { stage_flags: 0x10, offset: 0, size: 12 },
        })
    );
    assert_eq!(PipelineLayout::new(0, 0).map(|l| l.push_constant_range.size), Some(0));
    if usize::MAX as u64 > u32::MAX as u64 {
        assert_eq!(PipelineLayout::new(u32::MAX as usize + 1, 0x10), None);
    }
    assert!(PipelineLayout::new(u32::MAX as usize, 0x10).is_some());
}

#[test]
fn the_pipeline_draws_filled_clockwise_triangles_over_the_whole_picture() {
    let binding = get_binding_description();
    assert_eq!((binding.binding, binding.stride, binding.input_rate), (0, 8, 0));
    let attribute = get_attribute_description();
    assert_eq!(
        (attribute.location, attribute.binding, attribute.format, attribute.offset),
        (0, 0, 103, 0)
    );
    let assembly = create_pipeline_input_assembly();
    assert_eq!((assembly.topology, assembly.primitive_restart_enable), (3, false));
    let extent = Extent2D { width: 800, height: 600 };
    let viewport = create_pipeline_viewport(extent);
    assert_eq!((f32::from_bits(viewport.x), f32::from_bits(viewport.y)), (0.0, 0.0));
    assert_eq!((f32::from_bits(viewport.width), f32::from_bits(viewport.height)), (800.0, 600.0));
    assert_eq!((f32::from_bits(viewport.min_depth), f32::from_bits(viewport.max_depth)), (0.0, 1.0));
    assert_eq!(create_pipeline_scissor(extent), Rect2D { x: 0, y: 0, extent });
    let rasterizer = create_rasterizer_info();
    assert!(!rasterizer.depth_clamp_enable && !rasterizer.rasterizer_discard_enable);
    assert!(!rasterizer.depth_bias_enable);
    assert_eq!((rasterizer.polygon_mode, rasterizer.cull_mode, rasterizer.front_face), (0, 2, 1));
    assert_eq!(f32::from_bits(rasterizer.line_width), 1.0);
    let multisampling = create_multisampling_info();
    assert!(!multisampling.sample_shading_enable);
    assert!(!multisampling.alpha_to_coverage_enable && !multisampling.alpha_to_one_enable);
    assert_eq!(multisampling.rasterization_samples, 1);
    assert_eq!(f32::from_bits(multisampling.min_sample_shading), 1.0);
    let attachment = create_disabled_blending_attachment();
    assert_eq!((attachment.color_write_mask, attachment.blend_enable), (0xf, false));
    let blending = create_blending_info(attachment);
    assert_eq!((blending.logic_op_enable, blending.attachment), (false, attachment));
}

#[test]
fn a_pipeline_runs_exactly_two_shaders() {
    let vertex = Shader::from_bytes(&vec![3, 2, 35, 7], ShaderType::Vertex);
    let fragment = Shader::from_bytes(&vec![3, 2, 35, 7, 0, 0, 1, 0], ShaderType::Fragment);
    let swapchain = swapchain(1920, 1080);
    let pipeline = Pipeline::new(&vec![vertex, fragment], &swapchain).unwrap();
    assert_eq!((pipeline.first_stage, pipeline.second_stage), (0x1, 0x10));
    assert_eq!(f32::from_bits(pipeline.viewport_state.viewport.width), 1920.0);
    assert_eq!(f32::from_bits(pipeline.viewport_state.viewport.height), 1080.0);
    assert_eq!(pipeline.viewport_state.scissor.extent, swapchain.extent);
    assert_eq!(pipeline.subpass, 0);
    assert_eq!(pipeline.vertex_input.binding, get_binding_description());
    assert_eq!(pipeline.vertex_input.attribute, get_attribute_description());
    assert_eq!(
        pipeline.vertex_input,
        create_pipeline_vertex_input_info(get_binding_description(), get_attribute_description())
    );
    assert_eq!(
        pipeline.viewport_state,
        create_static_viewport_state_info(
            create_pipeline_viewport(swapchain.extent),
            create_pipeline_scissor(swapchain.extent)
        )
    );
    assert_eq!(pipeline.rasterizer, create_rasterizer_info());
    let one = Shader::from_bytes(&Vec::new(), ShaderType::Vertex);
    assert!(Pipeline::new(&vec![one], &swapchain).is_none());
    assert!(Pipeline::new(&Vec::new(), &swapchain).is_none());
}

#[test]
fn shader_code_must_be_a_whole_number_of_words() {
    for len in [1usize, 2, 3, 5, 6, 7, 1023] {
        assert!(!has_whole_words(&vec![0u8; len]));
    }
    for len in [0usize, 4, 8, 1024] {
        let bytes = vec![0u8; len];
        assert!(has_whole_words(&bytes));
        assert_eq!(pack_to_u32s(&bytes), vec![0u32; len / 4]);
        assert_eq!(Shader::from_bytes(&bytes, ShaderType::Vertex).code_size, len);
    }
}

#[test]
fn shader_code_is_packed_in_the_byte_order_of_the_machine() {
    let bytes: Vec<u8> = vec![0x03, 0x02, 0x23, 0x07, 0x00, 0x00, 0x01, 0x00, 1, 0, 0, 0];
    let expected: Vec<u32> = bytes
        .chunks_exact(4)
        .map(|c| u32::from_ne_bytes([c[0], c[1], c[2], c[3]]))
        .collect();
    assert_eq!(pack_to_u32s(&bytes), expected.clone());
    let shader = Shader::from_bytes(&bytes, ShaderType::Fragment);
    assert_eq!(shader.code, expected);
    assert_eq!(shader.code_size, 12);
    assert_eq!(shader.stage, 0x10);
    assert_eq!(shader.stage_info(), 0x10);
    assert_eq!(create_shader_stage_info(ShaderType::Vertex), 0x1);
    assert_eq!(create_shader_stage_info(ShaderType::Fragment), 0x10);
}

#[test]
fn words_are_packed_in_either_byte_order() {
    assert_eq!(pack_word(true, 0x03, 0x02, 0x23, 0x07), 0x0723_0203);
    assert_eq!(pack_word(false, 0x03, 0x02, 0x23, 0x07), 0x0302_2307);
    assert_eq!(pack_word(true, 1, 2, 3, 4), u32::from_le_bytes([1, 2, 3, 4]));
    assert_eq!(pack_word(false, 1, 2, 3, 4), u32::from_be_bytes([1, 2, 3, 4]));
    assert_eq!(pack_word(true, 255, 255, 255, 255), u32::MAX);
    assert_eq!(split_word(0x0723_0203, true), (0x03, 0x02, 0x23, 0x07));
    assert_eq!(split_word(0x0723_0203, false), (0x07, 0x23, 0x02, 0x03));
    assert_eq!(split_half(0x1234, true), (0x34, 0x12));
    assert_eq!(split_half(0x1234, false), (0x12, 0x34));
    let bytes = vec![1u8, 2, 3, 4, 5, 6, 7, 8];
    assert_eq!(pack_words(&bytes, true), Some(vec![0x0403_0201, 0x0807_0605]));
    assert_eq!(pack_words(&bytes, false), Some(vec![0x0102_0304, 0x0506_0708]));
    assert_eq!(pack_words(&bytes[..7].to_vec(), true), None);
    for little in [true, false] {
        let words = pack_words(&bytes, little).unwrap();
        assert_eq!(unpack_words(&words, little), Some(bytes.clone()));
    }
    assert_eq!(unpack_halves(&vec![0x0201, 0x0403], true), Some(vec![1, 2, 3, 4]));
    assert_eq!(unpack_halves(&vec![0x0201, 0x0403], false), Some(vec![2, 1, 4, 3]));
    assert_eq!(unpack_words(&Vec::new(), true), Some(Vec::new()));
}

#[test]
fn command_pools_let_each_buffer_be_reset_on_its_own() {
    let pool = CommandPool::new(3);
    assert_eq!(pool, CommandPool { flags: 0x2, queue_family_index: 3 });
    assert_eq!(
        pool.create_command_buffers(2),
        Some(CommandBufferAllocation { level: 0, count: 2 })
    );
    assert_eq!(pool.create_command_buffer(), CommandBufferAllocation { level: 0, count: 1 });
    if usize::MAX as u64 > u32::MAX as u64 {
        assert_eq!(pool.create_command_buffers(u32::MAX as usize + 1), None);
    }
    assert_eq!(pool.create_command_buffers(u32::MAX as usize).map(|a| a.count), Some(u32::MAX));
}

#[test]
fn resources_are_torn_down_in_the_reverse_order_of_their_creation() {
    let created = creation_order();
    let mut torn_down = teardown_order();
    assert_eq!(created.len(), RESOURCE_COUNT);
    assert_eq!(created.first(), Some(&Resource::Instance));
    assert_eq!(torn_down.first(), Some(&Resource::IndexBuffer));
    assert_eq!(torn_down.last(), Some(&Resource::Instance));
    torn_down.reverse();
    assert_eq!(created, torn_down);
    let place = |r: Resource| created.iter().position(|c| *c == r).unwrap();
    assert!(place(Resource::Surface) < place(Resource::Device));
    assert!(place(Resource::Device) < place(Resource::Swapchain));
    assert!(place(Resource::Swapchain) < place(Resource::ImageViews));
    assert!(place(Resource::ImageViews) < place(Resource::Framebuffers));
    assert!(place(Resource::RenderPass) < place(Resource::Framebuffers));
    assert!(place(Resource::RenderPass) < place(Resource::Pipeline));
    assert!(place(Resource::PipelineLayout) < place(Resource::Pipeline));
    assert!(place(Resource::CommandPool) < place(Resource::CommandBuffers));
    for (i, a) in created.iter().enumerate() {
        for b in &created[i + 1..] {
            assert_ne!(a, b);
        }
    }
}

#[test]
fn escape_is_the_one_key_that_is_told_apart() {
    assert_eq!(Key::from_i32(GLFW_KEY_ESCAPE), Key::Escape);
    assert_eq!(Key::from_i32(256), Key::Escape);
    assert_eq!(Key::from_i32(GLFW_KEY_UNKNOWN), Key::Unknown);
    assert_eq!(Key::from_i32(65), Key::Unknown);
    assert_eq!(key_callback(256, GLFW_PRESS), Event::KeyPress(Key::Escape));
    assert_eq!(key_callback(256, 0), Event::KeyRelease(Key::Escape));
    // a repeat counts as a release
    assert_eq!(key_callback(256, 2), Event::KeyRelease(Key::Escape));
    assert_eq!(key_callback(65, 1), Event::KeyPress(Key::Unknown));
    assert_eq!(window_size_callback(800, 600), Event::WindowResize(800, 600));
}

#[test]
fn the_main_loop_quits_on_escape_and_passes_sizes_on() {
    assert_eq!(react(Event::KeyPress(Key::Escape)), Reaction::Quit);
    assert_eq!(react(Event::KeyRelease(Key::Escape)), Reaction::Ignore);
    assert_eq!(react(Event::KeyPress(Key::Unknown)), Reaction::Ignore);
    assert_eq!(react(Event::WindowResize(0, 600)), Reaction::Resize { width: 0, height: 600 });
    assert_eq!(react(Event::WindowResize(640, 480)), Reaction::Resize { width: 640, height: 480 });
}

#[test]
fn events_are_handed_out_once_and_in_order() {
    let mut window = Window::new();
    assert!(window.running());
    assert!(window.poll_events(false).is_empty());
    window.push_event(Event::WindowResize(1, 2));
    window.push_event(Event::KeyPress(Key::Escape));
    window.push_event(Event::KeyRelease(Key::Unknown));
    assert_eq!(
        window.poll_events(false),
        vec![
            Event::WindowResize(1, 2),
            Event::KeyPress(Key::Escape),
            Event::KeyRelease(Key::Unknown),
        ]
    );
    assert!(window.poll_events(false).is_empty());
    assert!(window.running());
    window.push_event(Event::WindowResize(0, 0));
    assert_eq!(window.poll_events(true), vec![Event::WindowResize(0, 0)]);
    assert!(!window.running());
    // a window that was asked to close stays closed
    assert!(window.poll_events(false).is_empty());
    assert!(!window.running());
}

#[test]
fn a_window_on_the_desktop_is_fixed_and_unfocused() {
    assert_eq!(
        Resolution::Windowed(800, 600).placement((1920, 1080)),
        Placement { width: 800, height: 600, on_monitor: false, resizable: false, focused: false }
    );
    assert_eq!(
        Resolution::Fullscreen.placement((1920, 1080)),
        Placement { width: 1920, height: 1080, on_monitor: true, resizable: true, focused: true }
    );
    assert_eq!(
        Resolution::FullscreenWithRes(1280, 720).placement((1920, 1080)),
        Placement { width: 1280, height: 720, on_monitor: true, resizable: true, focused: true }
    );
}
