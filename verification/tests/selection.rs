use vxtr::device::{
    check_devices, choose_phys_device, create_logical_device, device_type_name,
    get_queue_create_infos,
    get_queue_families, is_device_suitable, queue_capabilities, queue_family_name, rank_of_type,
    Device, DeviceError,
    PhysicalDevice, QueueFamilies, QueueFamily, QueueFamilyProperties,
    VK_PHYSICAL_DEVICE_TYPE_CPU, VK_PHYSICAL_DEVICE_TYPE_DISCRETE_GPU,
    VK_PHYSICAL_DEVICE_TYPE_INTEGRATED_GPU, VK_PHYSICAL_DEVICE_TYPE_OTHER,
    VK_PHYSICAL_DEVICE_TYPE_VIRTUAL_GPU,
};
use vxtr::names::{device_layer_table, Requirement};
use vxtr::queue::Queue;
use vxtr::swapchain::{
    choose_image_count, choose_swapchain_extent, choose_swapchain_present_mode,
    choose_swapchain_surface_format, offers_present_mode, present_mode_name, Extent2D,
    SharingMode, SurfaceCapabilities, SurfaceFormat, Swapchain, SwapchainError, SwapchainSupport,
    EXTENT_UNDEFINED, VK_COLOR_SPACE_SRGB_NONLINEAR_KHR, VK_FORMAT_B8G8R8_SRGB,
    VK_PRESENT_MODE_FIFO_KHR, VK_PRESENT_MODE_FIFO_RELAXED_KHR, VK_PRESENT_MODE_IMMEDIATE_KHR,
    VK_PRESENT_MODE_MAILBOX_KHR,
};

fn family(queue_flags: u32, present_support: bool) -> QueueFamilyProperties {
    QueueFamilyProperties { queue_flags, present_support }
}

fn capabilities() -> SurfaceCapabilities {
    SurfaceCapabilities {
        min_image_count: 2,
        max_image_count: 8,
        current_extent: Extent2D { width: 800, height: 600 },
        min_image_extent: Extent2D { width: 1, height: 1 },
        max_image_extent: Extent2D { width: 4096, height: 4096 },
        current_transform: 1,
    }
}

fn support() -> SwapchainSupport {
    SwapchainSupport {
        capabilities: capabilities(),
        formats: vec![SurfaceFormat { format: 44, color_space: 0 }],
        present_modes: vec![VK_PRESENT_MODE_FIFO_KHR],
    }
}

fn adapter(device_type: u32) -> PhysicalDevice {
    PhysicalDevice {
        device_type,
        queue_families: vec![family(0x7, true)],
        extensions: vec![b"VK_KHR_maintenance1".to_vec(), b"VK_KHR_swapchain".to_vec()],
        swapchain_support: support(),
    }
}

fn unsuitable(device_type: u32) -> PhysicalDevice {
    let mut device = adapter(device_type);
    device.extensions = vec![b"VK_KHR_maintenance1".to_vec()];
    device
}

fn device() -> Device {
    Device::new(vec![adapter(VK_PHYSICAL_DEVICE_TYPE_DISCRETE_GPU)])
}

#[test]
fn the_last_family_that_serves_a_capability_is_used() {
    let families = vec![family(0x1 | 0x2 | 0x4, false), family(0x2, true), family(0x4 | 0x10, true)];
    assert_eq!(
        get_queue_families(&families),
        QueueFamilies {
            graphics: Some(0),
            compute: Some(1),
            transfer: Some(2),
            sparse_binding: None,
            protected: Some(2),
            present: Some(2),
        }
    );
    assert_eq!(get_queue_families(&Vec::new()), QueueFamilies::none());
    let found = get_queue_families(&families);
    assert_eq!(found.get_idx_of_queue_family(QueueFamily::Graphics), Some(0));
    assert_eq!(found.get_idx_of_queue_family(QueueFamily::Compute), Some(1));
    assert_eq!(found.get_idx_of_queue_family(QueueFamily::Transfer), Some(2));
    assert_eq!(found.get_idx_of_queue_family(QueueFamily::SparseBinding), None);
    assert_eq!(found.get_idx_of_queue_family(QueueFamily::Protected), Some(2));
    assert_eq!(found.get_idx_of_queue_family(QueueFamily::Present), Some(2));
}

#[test]
fn queue_flags_name_capabilities_in_a_fixed_order() {
    assert_eq!(queue_capabilities(0), vec![]);
    assert_eq!(
        queue_capabilities(0x1f),
        vec![
            QueueFamily::Graphics,
            QueueFamily::Compute,
            QueueFamily::Transfer,
            QueueFamily::SparseBinding,
            QueueFamily::Protected,
        ]
    );
    assert_eq!(queue_capabilities(0x4 | 0x1), vec![QueueFamily::Graphics, QueueFamily::Transfer]);
    assert_eq!(queue_capabilities(0x20), vec![]);
}

#[test]
fn queues_are_opened_once_per_family_in_increasing_order() {
    assert_eq!(get_queue_create_infos(0, 0), vec![0]);
    assert_eq!(get_queue_create_infos(1, 2), vec![1, 2]);
    assert_eq!(get_queue_create_infos(3, 1), vec![1, 3]);
    assert_eq!(get_queue_create_infos(u32::MAX, 0), vec![0, u32::MAX]);
}

#[test]
fn adapter_classes_have_a_fixed_order_of_preference() {
    assert_eq!(rank_of_type(VK_PHYSICAL_DEVICE_TYPE_DISCRETE_GPU), 0);
    assert_eq!(rank_of_type(VK_PHYSICAL_DEVICE_TYPE_INTEGRATED_GPU), 1);
    assert_eq!(rank_of_type(VK_PHYSICAL_DEVICE_TYPE_OTHER), 2);
    assert_eq!(rank_of_type(VK_PHYSICAL_DEVICE_TYPE_VIRTUAL_GPU), 3);
    assert_eq!(rank_of_type(VK_PHYSICAL_DEVICE_TYPE_CPU), 4);
    assert_eq!(rank_of_type(5), 5);
    assert_eq!(rank_of_type(0x7fff_ffff), 5);
    assert_eq!(device_type_name(0), "Other");
    assert_eq!(device_type_name(1), "Integrated GPU");
    assert_eq!(device_type_name(2), "Discrete GPU");
    assert_eq!(device_type_name(3), "Virtual GPU");
    assert_eq!(device_type_name(4), "CPU");
    assert_eq!(device_type_name(9), "Unknown");
}

#[test]
fn a_suitable_adapter_has_queues_extension_formats_and_modes() {
    let good = adapter(VK_PHYSICAL_DEVICE_TYPE_DISCRETE_GPU);
    let families = is_device_suitable(&good).unwrap();
    assert_eq!(families.graphics, Some(0));
    assert_eq!(families.present, Some(0));

    let mut no_graphics = adapter(2);
    no_graphics.queue_families = vec![family(0x2, true)];
    assert!(is_device_suitable(&no_graphics).is_none());

    let mut no_present = adapter(2);
    no_present.queue_families = vec![family(0x1, false)];
    assert!(is_device_suitable(&no_present).is_none());

    let mut split = adapter(2);
    split.queue_families = vec![family(0x1, false), family(0x2, true)];
    assert!(is_device_suitable(&split).is_some());

    assert!(is_device_suitable(&unsuitable(2)).is_none());

    let mut no_formats = adapter(2);
    no_formats.swapchain_support.formats.clear();
    assert!(is_device_suitable(&no_formats).is_none());

    let mut no_modes = adapter(2);
    no_modes.swapchain_support.present_modes.clear();
    assert!(is_device_suitable(&no_modes).is_none());
}

#[test]
fn a_discrete_adapter_is_preferred_wherever_it_stands() {
    let devices = vec![
        adapter(VK_PHYSICAL_DEVICE_TYPE_CPU),
        adapter(VK_PHYSICAL_DEVICE_TYPE_INTEGRATED_GPU),
        adapter(VK_PHYSICAL_DEVICE_TYPE_DISCRETE_GPU),
        adapter(VK_PHYSICAL_DEVICE_TYPE_DISCRETE_GPU),
        adapter(VK_PHYSICAL_DEVICE_TYPE_VIRTUAL_GPU),
    ];
    assert_eq!(check_devices(&devices), Ok(()));
    assert_eq!(choose_phys_device(&devices), 2);
    let devices = vec![
        adapter(VK_PHYSICAL_DEVICE_TYPE_VIRTUAL_GPU),
        adapter(VK_PHYSICAL_DEVICE_TYPE_OTHER),
        adapter(VK_PHYSICAL_DEVICE_TYPE_CPU),
    ];
    assert_eq!(choose_phys_device(&devices), 1);
    assert_eq!(choose_phys_device(&vec![adapter(VK_PHYSICAL_DEVICE_TYPE_CPU)]), 0);
}

#[test]
fn an_unsuitable_adapter_is_passed_over() {
    let devices = vec![
        unsuitable(VK_PHYSICAL_DEVICE_TYPE_DISCRETE_GPU),
        adapter(VK_PHYSICAL_DEVICE_TYPE_INTEGRATED_GPU),
    ];
    assert_eq!(check_devices(&devices), Ok(()));
    assert_eq!(choose_phys_device(&devices), 1);
    // also by a later one of its own class
    let devices = vec![
        unsuitable(VK_PHYSICAL_DEVICE_TYPE_DISCRETE_GPU),
        adapter(VK_PHYSICAL_DEVICE_TYPE_INTEGRATED_GPU),
        adapter(VK_PHYSICAL_DEVICE_TYPE_DISCRETE_GPU),
    ];
    assert_eq!(choose_phys_device(&devices), 2);
    assert_eq!(Device::try_new(devices).map(|d| d.phys_device), Ok(2));
}

#[test]
fn without_a_suitable_adapter_there_is_no_device() {
    assert_eq!(check_devices(&Vec::new()), Err(DeviceError::NoDevice));
    let devices = vec![unsuitable(2), unsuitable(1)];
    assert_eq!(check_devices(&devices), Err(DeviceError::NoSuitableDevice));
    // an adapter of a class without a rank is never chosen
    assert_eq!(check_devices(&vec![adapter(17)]), Err(DeviceError::NoSuitableDevice));
    assert_eq!(check_devices(&vec![adapter(17), adapter(4)]), Ok(()));
    assert!(matches!(Device::try_new(Vec::new()), Err(DeviceError::NoDevice)));
    assert!(matches!(Device::try_new(vec![unsuitable(2)]), Err(DeviceError::NoSuitableDevice)));
    assert!(matches!(Device::try_new(vec![adapter(17)]), Err(DeviceError::NoSuitableDevice)));
}

#[test]
fn the_device_remembers_what_was_learnt_about_the_adapter() {
    let mut second = adapter(VK_PHYSICAL_DEVICE_TYPE_DISCRETE_GPU);
    second.queue_families = vec![family(0x2, false), family(0x1, false), family(0x4, true)];
    second.swapchain_support.present_modes = vec![2, 1];
    let device = Device::new(vec![adapter(VK_PHYSICAL_DEVICE_TYPE_CPU), second]);
    assert_eq!(device.phys_device, 1);
    assert_eq!(device.queue_families.graphics, Some(1));
    assert_eq!(device.queue_families.present, Some(2));
    assert_eq!(device.swapchain_support.present_modes, vec![2, 1]);
    assert_eq!(device.get_queue(QueueFamily::Graphics), Some(Queue { family_idx: 1, queue_idx: 0 }));
    assert_eq!(device.get_queue(QueueFamily::Present), Some(Queue { family_idx: 2, queue_idx: 0 }));
    assert_eq!(device.get_queue(QueueFamily::Protected), None);
    assert_eq!(device.get_idx_of_queue_family(QueueFamily::Compute), Some(0));
    let pool = device.create_command_pool(QueueFamily::Graphics).unwrap();
    assert_eq!(pool.queue_family_index, 1);
    assert_eq!(pool.flags, 0x2);
    assert!(device.create_command_pool(QueueFamily::SparseBinding).is_none());
}

#[test]
fn the_logical_device_opens_one_queue_per_family() {
    let table = device_layer_table();
    let offered = vec![b"VK_LAYER_KHRONOS_validation".to_vec()];
    let families = QueueFamilies { graphics: Some(2), present: Some(0), ..QueueFamilies::none() };
    let device = create_logical_device(&families, &table, &offered, true);
    assert_eq!(device.queue_family_indices, vec![0, 2]);
    assert_eq!(device.queue_count, 1);
    assert_eq!(f32::from_bits(device.queue_priority), 1.0);
    assert_eq!(device.extensions, vec![b"VK_KHR_swapchain".to_vec()]);
    assert_eq!(device.layers, offered);
    let release = create_logical_device(&families, &table, &offered, false);
    assert!(release.layers.is_empty());
    assert_eq!(release.extensions, vec![b"VK_KHR_swapchain".to_vec()]);
}

#[test]
fn the_logical_device_enables_what_is_offered_of_an_optional_table() {
    let both = QueueFamilies { graphics: Some(0), present: Some(0), ..QueueFamilies::none() };
    let optional = vec![Requirement { name: b"VK_LAYER_LUNARG_monitor".to_vec(), required: false }];
    let device = create_logical_device(&both, &optional, &Vec::new(), true);
    assert!(device.layers.is_empty());
    assert_eq!(device.queue_family_indices, vec![0]);
}

#[test]
fn the_preferred_surface_format_wins_wherever_it_stands() {
    let preferred = SurfaceFormat {
        format: VK_FORMAT_B8G8R8_SRGB,
        color_space: VK_COLOR_SPACE_SRGB_NONLINEAR_KHR,
    };
    assert_eq!(preferred, SurfaceFormat { format: 36, color_space: 0 });
    let first = SurfaceFormat { format: 44, color_space: 0 };
    let wrong_space = SurfaceFormat { format: 36, color_space: 1_000_104_001 };
    assert_eq!(choose_swapchain_surface_format(&vec![first, wrong_space, preferred]), Some(preferred));
    assert_eq!(choose_swapchain_surface_format(&vec![first, wrong_space]), Some(first));
    assert_eq!(choose_swapchain_surface_format(&vec![wrong_space]), Some(wrong_space));
    assert_eq!(choose_swapchain_surface_format(&Vec::new()), None);
}

#[test]
fn present_modes_are_tried_in_order_of_preference() {
    let all = vec![
        VK_PRESENT_MODE_FIFO_KHR,
        VK_PRESENT_MODE_MAILBOX_KHR,
        VK_PRESENT_MODE_FIFO_RELAXED_KHR,
        VK_PRESENT_MODE_IMMEDIATE_KHR,
    ];
    assert_eq!(choose_swapchain_present_mode(&all), VK_PRESENT_MODE_IMMEDIATE_KHR);
    assert_eq!(choose_swapchain_present_mode(&all[..3].to_vec()), VK_PRESENT_MODE_FIFO_RELAXED_KHR);
    assert_eq!(choose_swapchain_present_mode(&all[..2].to_vec()), VK_PRESENT_MODE_MAILBOX_KHR);
    assert_eq!(choose_swapchain_present_mode(&all[..1].to_vec()), VK_PRESENT_MODE_FIFO_KHR);
    // FIFO is there whatever the adapter says
    assert_eq!(choose_swapchain_present_mode(&Vec::new()), VK_PRESENT_MODE_FIFO_KHR);
    assert_eq!(choose_swapchain_present_mode(&vec![1_000_111_000]), VK_PRESENT_MODE_FIFO_KHR);
    assert!(offers_present_mode(&all, 3));
    assert!(!offers_present_mode(&all, 4));
    assert_eq!(
        (VK_PRESENT_MODE_IMMEDIATE_KHR, VK_PRESENT_MODE_MAILBOX_KHR, VK_PRESENT_MODE_FIFO_KHR, VK_PRESENT_MODE_FIFO_RELAXED_KHR),
        (0, 1, 2, 3)
    );
    assert_eq!(present_mode_name(0), "Immediate");
    assert_eq!(present_mode_name(1), "Mailbox");
    assert_eq!(present_mode_name(2), "FIFO");
    assert_eq!(present_mode_name(3), "FIFO relaxed");
    assert_eq!(present_mode_name(1_000_111_000), "Shared on-demand refresh");
    assert_eq!(present_mode_name(1_000_111_001), "Shared continuous refresh");
    assert_eq!(present_mode_name(4), "Unknown");
}

#[test]
fn a_surface_with_a_size_gives_the_extent() {
    let caps = capabilities();
    assert_eq!(choose_swapchain_extent(caps, 1, 1), Ok(Extent2D { width: 800, height: 600 }));
    // the window is not consulted, so its size may be anything
    assert_eq!(choose_swapchain_extent(caps, -5, -5), Ok(Extent2D { width: 800, height: 600 }));
}

#[test]
fn a_surface_without_a_size_takes_the_clamped_framebuffer_size() {
    let mut caps = capabilities();
    caps.current_extent = Extent2D { width: EXTENT_UNDEFINED, height: EXTENT_UNDEFINED };
    caps.min_image_extent = Extent2D { width: 100, height: 200 };
    caps.max_image_extent = Extent2D { width: 1000, height: 2000 };
    assert_eq!(choose_swapchain_extent(caps, 640, 480), Ok(Extent2D { width: 640, height: 480 }));
    assert_eq!(choose_swapchain_extent(caps, 50, 5000), Ok(Extent2D { width: 100, height: 2000 }));
    assert_eq!(choose_swapchain_extent(caps, 1001, 199), Ok(Extent2D { width: 1000, height: 200 }));
    assert_eq!(choose_swapchain_extent(caps, 0, 0), Ok(Extent2D { width: 100, height: 200 }));
    assert_eq!(choose_swapchain_extent(caps, i32::MAX, 200), Ok(Extent2D { width: 1000, height: 200 }));
    assert_eq!(choose_swapchain_extent(caps, -1, 480), Err(SwapchainError::NegativeFramebufferSize));
    assert_eq!(choose_swapchain_extent(caps, 640, -1), Err(SwapchainError::NegativeFramebufferSize));
    caps.min_image_extent = Extent2D { width: 1001, height: 200 };
    assert_eq!(choose_swapchain_extent(caps, 640, 480), Err(SwapchainError::ExtentBoundsInverted));
    assert_eq!(EXTENT_UNDEFINED, u32::MAX);
}

#[test]
fn one_image_more_than_the_minimum_is_asked_for() {
    let mut caps = capabilities();
    assert_eq!(choose_image_count(caps), Some(3));
    caps.max_image_count = 2;
    assert_eq!(choose_image_count(caps), Some(2));
    caps.max_image_count = 3;
    assert_eq!(choose_image_count(caps), Some(3));
    // no maximum
    caps.max_image_count = 0;
    assert_eq!(choose_image_count(caps), Some(3));
    caps.min_image_count = u32::MAX - 1;
    assert_eq!(choose_image_count(caps), Some(u32::MAX));
    caps.min_image_count = u32::MAX;
    assert_eq!(choose_image_count(caps), None);
    caps.max_image_count = 7;
    assert_eq!(choose_image_count(caps), Some(7));
    caps.max_image_count = u32::MAX;
    assert_eq!(choose_image_count(caps), Some(u32::MAX));
}

#[test]
fn the_swapchain_is_configured_from_the_device() {
    let device = device();
    let swapchain = Swapchain::from_device(&device, 1024, 768).unwrap();
    assert_eq!(
        swapchain,
        Swapchain {
            min_image_count: 3,
            format: 44,
            color_space: 0,
            extent: Extent2D { width: 800, height: 600 },
            image_array_layers: 1,
            image_usage: 0x10,
            sharing: SharingMode::Exclusive,
            pre_transform: 1,
            composite_alpha: 1,
            present_mode: VK_PRESENT_MODE_FIFO_KHR,
            clipped: true,
        }
    );
    assert_eq!(swapchain.extent(), Extent2D { width: 800, height: 600 });
    assert_eq!(swapchain.format(), 44);
}

#[test]
fn every_swapchain_is_configured_from_capabilities_just_queried() {
    let mut device = device();
    let mut fresh = capabilities();
    fresh.current_extent = Extent2D { width: 1024, height: 768 };
    fresh.min_image_count = 4;
    fresh.current_transform = 2;
    let swapchain = device.create_swapchain(fresh, 1, 1).unwrap();
    assert_eq!(swapchain.extent(), Extent2D { width: 1024, height: 768 });
    assert_eq!(swapchain.min_image_count, 5);
    assert_eq!(swapchain.pre_transform, 2);
    assert_eq!(swapchain.format(), 44);
    // the record of the adapter has taken them in and kept the rest
    assert_eq!(device.swapchain_support.capabilities, fresh);
    assert_eq!(device.swapchain_support.formats, support().formats);
    assert_eq!(device.swapchain_support.present_modes, support().present_modes);
    assert_eq!(Swapchain::from_device(&device, 1, 1), Ok(swapchain));
    // a surface that has lost its size takes the framebuffer size of the window
    fresh.current_extent = Extent2D { width: EXTENT_UNDEFINED, height: EXTENT_UNDEFINED };
    let swapchain = device.create_swapchain(fresh, 640, 480).unwrap();
    assert_eq!(swapchain.extent(), Extent2D { width: 640, height: 480 });
    assert_eq!(
        device.create_swapchain(fresh, -1, 480),
        Err(SwapchainError::NegativeFramebufferSize)
    );
}

#[test]
fn two_queue_families_share_the_images() {
    let mut adapter = adapter(2);
    adapter.queue_families = vec![family(0x1, false), family(0x0, true)];
    let device = Device::new(vec![adapter]);
    let swapchain = Swapchain::from_device(&device, 0, 0).unwrap();
    assert_eq!(swapchain.sharing, SharingMode::Concurrent { graphics: 0, present: 1 });
}

#[test]
fn a_swapchain_that_cannot_be_configured_says_why() {
    let mut device = device();
    device.swapchain_support.capabilities.current_extent.width = EXTENT_UNDEFINED;
    assert_eq!(
        Swapchain::from_device(&device, -1, 10),
        Err(SwapchainError::NegativeFramebufferSize)
    );
    device.swapchain_support.capabilities.min_image_count = u32::MAX;
    device.swapchain_support.capabilities.max_image_count = 0;
    assert_eq!(Swapchain::from_device(&device, 10, 10), Err(SwapchainError::ImageCountOverflow));
    // the reasons are looked for in a fixed order
    assert_eq!(
        Swapchain::from_device(&device, -1, 10),
        Err(SwapchainError::NegativeFramebufferSize)
    );
    device.swapchain_support.formats.clear();
    assert_eq!(Swapchain::from_device(&device, -1, 10), Err(SwapchainError::NoSurfaceFormat));
    let mut device = self::device();
    device.queue_families.present = None;
    assert_eq!(Swapchain::from_device(&device, 10, 10), Err(SwapchainError::MissingQueueFamily));
}

#[test]
fn every_image_gets_a_view_and_every_view_a_framebuffer() {
    let device = device();
    let swapchain = Swapchain::from_device(&device, 1024, 768).unwrap();
    let views = swapchain.get_image_views(3);
    assert_eq!(views.len(), 3);
    for (i, view) in views.iter().enumerate() {
        assert_eq!(view.image, i as u32);
        assert_eq!(view.format, 44);
        assert_eq!(view.view_type, 1);
        assert_eq!(view.swizzle, 0);
        assert_eq!(view.aspect_mask, 1);
        assert_eq!((view.base_mip_level, view.level_count), (0, 1));
        assert_eq!((view.base_array_layer, view.layer_count), (0, 1));
    }
    assert!(swapchain.get_image_views(0).is_empty());
    let framebuffers = device.create_framebuffers(&views, &swapchain);
    assert_eq!(framebuffers.len(), views.len());
    for (i, framebuffer) in framebuffers.iter().enumerate() {
        assert_eq!(framebuffer.attachment, i as u32);
        assert_eq!((framebuffer.width, framebuffer.height, framebuffer.layers), (800, 600, 1));
    }
}

#[test]
fn capabilities_have_names() {
    assert_eq!(queue_family_name(QueueFamily::Graphics), "graphics");
    assert_eq!(queue_family_name(QueueFamily::Compute), "compute");
    assert_eq!(queue_family_name(QueueFamily::Transfer), "transfer");
    assert_eq!(queue_family_name(QueueFamily::SparseBinding), "sparse_binding");
    assert_eq!(queue_family_name(QueueFamily::Protected), "protected");
    assert_eq!(queue_family_name(QueueFamily::Present), "present");
}
