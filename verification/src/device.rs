//! Choice of the physical adapter and of its queue families.
//!
//! The caller enumerates the adapters and describes each as a
//! [`PhysicalDevice`]; the functions here decide which one to open and with
//! which queues.

use crate::buffer::{described, upload_steps, Buffer, UploadStep};
use crate::cmd_pool::CommandPool;
use crate::command::BufferId;
use crate::endian::is_packed_natively;
use crate::float_bits::F32_ONE;
use crate::names::{
    all_required_offered, get_required_extensions, get_validation_layers, name_in, names_of,
    supported_names, supports_required_extensions, swapchain_extension_name, Requirement,
};
use crate::pipeline::{is_pipeline_of, Pipeline, PipelineLayout, PushConstantRange};
use crate::queue::Queue;
use crate::render_pass::RenderPass;
use crate::shader::{is_whole_words, stage_bit, Shader, ShaderType};
use crate::swapchain::{
    configured, Framebuffer, ImageView, SurfaceCapabilities, Swapchain, SwapchainError,
    SwapchainSupport,
};
use crate::sync::{Fence, Semaphore, SemaphoreRole, VK_FENCE_CREATE_SIGNALED_BIT};
use vstd::prelude::*;

verus! {

/// `VK_PHYSICAL_DEVICE_TYPE_OTHER`.
pub const VK_PHYSICAL_DEVICE_TYPE_OTHER: u32 = 0;

/// `VK_PHYSICAL_DEVICE_TYPE_INTEGRATED_GPU`.
pub const VK_PHYSICAL_DEVICE_TYPE_INTEGRATED_GPU: u32 = 1;

/// `VK_PHYSICAL_DEVICE_TYPE_DISCRETE_GPU`.
pub const VK_PHYSICAL_DEVICE_TYPE_DISCRETE_GPU: u32 = 2;

/// `VK_PHYSICAL_DEVICE_TYPE_VIRTUAL_GPU`.
pub const VK_PHYSICAL_DEVICE_TYPE_VIRTUAL_GPU: u32 = 3;

/// `VK_PHYSICAL_DEVICE_TYPE_CPU`.
pub const VK_PHYSICAL_DEVICE_TYPE_CPU: u32 = 4;

/// `VK_QUEUE_GRAPHICS_BIT`.
pub const VK_QUEUE_GRAPHICS_BIT: u32 = 0x1;

/// `VK_QUEUE_COMPUTE_BIT`.
pub const VK_QUEUE_COMPUTE_BIT: u32 = 0x2;

/// `VK_QUEUE_TRANSFER_BIT`.
pub const VK_QUEUE_TRANSFER_BIT: u32 = 0x4;

/// `VK_QUEUE_SPARSE_BINDING_BIT`.
pub const VK_QUEUE_SPARSE_BINDING_BIT: u32 = 0x8;

/// `VK_QUEUE_PROTECTED_BIT`.
pub const VK_QUEUE_PROTECTED_BIT: u32 = 0x10;

/// Number of adapter classes that can be chosen; the rank of a class that
/// cannot.
pub const UNRANKED: u8 = 5;

/// What a queue can be asked to do.
#[derive(Clone, Copy, Debug, PartialEq, Eq, Structural)]
pub enum QueueFamily {
    Graphics,
    Compute,
    Transfer,
    SparseBinding,
    Protected,
    Present,
}

/// One queue family of an adapter, as enumerated.
#[derive(Clone, Copy, Debug, PartialEq, Eq, Structural)]
pub struct QueueFamilyProperties {
    /// The capability bits of the family.
    pub queue_flags: u32,
    /// Whether the family can present to the surface.
    pub present_support: bool,
}

/// For each capability, the index of the family that serves it.
#[derive(Clone, Copy, Debug, PartialEq, Eq)]
pub struct QueueFamilies {
    pub graphics: Option<u32>,
    pub compute: Option<u32>,
    pub transfer: Option<u32>,
    pub sparse_binding: Option<u32>,
    pub protected: Option<u32>,
    pub present: Option<u32>,
}

/// An adapter as enumerated: everything that the choice looks at.
pub struct PhysicalDevice {
    /// The adapter class, as the driver's code for it.
    pub device_type: u32,
    /// The queue families, in the driver's order.
    pub queue_families: Vec<QueueFamilyProperties>,
    /// The names of the device extensions that the adapter offers.
    pub extensions: Vec<Vec<u8>>,
    /// What the adapter can do with the surface.
    pub swapchain_support: SwapchainSupport,
}

/// The adapter that was chosen, with what was learnt about it.
pub struct Device {
    /// Position of the adapter in the enumeration.
    pub phys_device: usize,
    /// The queue families to use.
    pub queue_families: QueueFamilies,
    /// What the adapter can do with the surface.
    pub swapchain_support: SwapchainSupport,
}

/// Everything that opening the logical device needs to be told.
pub struct LogicalDevice {
    /// The families to open a queue on, in increasing order.
    pub queue_family_indices: Vec<u32>,
    /// Number of queues per family.
    pub queue_count: u32,
    /// Priority of every queue, as the bits of a 32-bit float.
    pub queue_priority: u32,
    /// Device extensions to enable.
    pub extensions: Vec<Vec<u8>>,
    /// Layers to enable.
    pub layers: Vec<Vec<u8>>,
}

/// Why no adapter can be chosen.
#[derive(Clone, Copy, Debug, PartialEq, Eq, Structural)]
pub enum DeviceError {
    /// The enumeration was empty.
    NoDevice,
    /// No adapter of a known class passes the suitability test.
    NoSuitableDevice,
    /// An adapter reports more queue families than an index can number.
    TooManyQueueFamilies,
}

/// Whether a family serves a capability.
pub open spec fn serves(properties: QueueFamilyProperties, family: QueueFamily) -> bool {
    match family {
        QueueFamily::Graphics => properties.queue_flags & VK_QUEUE_GRAPHICS_BIT != 0,
        QueueFamily::Compute => properties.queue_flags & VK_QUEUE_COMPUTE_BIT != 0,
        QueueFamily::Transfer => properties.queue_flags & VK_QUEUE_TRANSFER_BIT != 0,
        QueueFamily::SparseBinding => properties.queue_flags & VK_QUEUE_SPARSE_BINDING_BIT != 0,
        QueueFamily::Protected => properties.queue_flags & VK_QUEUE_PROTECTED_BIT != 0,
        QueueFamily::Present => properties.present_support,
    }
}

/// `list` with `family` added where `queue_flags` has `bit`.
pub open spec fn with_flag(list: Seq<QueueFamily>, queue_flags: u32, bit: u32, family: QueueFamily)
    -> Seq<QueueFamily> {
    if queue_flags & bit != 0 {
        list.push(family)
    } else {
        list
    }
}

/// The capabilities that queue flags name, in the order graphics,
/// compute, transfer, sparse binding, protected.
pub open spec fn flagged(queue_flags: u32) -> Seq<QueueFamily> {
    let none = Seq::<QueueFamily>::empty();
    let g = with_flag(none, queue_flags, VK_QUEUE_GRAPHICS_BIT, QueueFamily::Graphics);
    let c = with_flag(g, queue_flags, VK_QUEUE_COMPUTE_BIT, QueueFamily::Compute);
    let t = with_flag(c, queue_flags, VK_QUEUE_TRANSFER_BIT, QueueFamily::Transfer);
    let s = with_flag(t, queue_flags, VK_QUEUE_SPARSE_BINDING_BIT, QueueFamily::SparseBinding);
    with_flag(s, queue_flags, VK_QUEUE_PROTECTED_BIT, QueueFamily::Protected)
}

/// Whether `index` names the last family that serves `family`, or is
/// `None` because no family does.
pub open spec fn is_last_serving(
    families: Seq<QueueFamilyProperties>,
    family: QueueFamily,
    index: Option<u32>,
) -> bool {
    match index {
        Some(i) => i < families.len() && serves(families[i as int], family) && forall|k: int|
            i < k < families.len() ==> !serves(#[trigger] families[k], family),
        None => forall|k: int| 0 <= k < families.len() ==> !serves(#[trigger] families[k], family),
    }
}

impl QueueFamilies {
    /// The index recorded for a capability.
    pub open spec fn index_of(self, family: QueueFamily) -> Option<u32> {
        match family {
            QueueFamily::Graphics => self.graphics,
            QueueFamily::Compute => self.compute,
            QueueFamily::Transfer => self.transfer,
            QueueFamily::SparseBinding => self.sparse_binding,
            QueueFamily::Protected => self.protected,
            QueueFamily::Present => self.present,
        }
    }

    /// Whether this is what [`get_queue_families`] finds for `families`:
    /// for each capability the last family that serves it.
    pub open spec fn describes(self, families: Seq<QueueFamilyProperties>) -> bool {
        forall|family: QueueFamily| #[trigger]
            is_last_serving(families, family, self.index_of(family))
    }

    /// No family for any capability.
    pub fn none() -> (families: QueueFamilies)
        ensures
            forall|family: QueueFamily| #[trigger] families.index_of(family) is None,
    {
        QueueFamilies {
            graphics: None,
            compute: None,
            transfer: None,
            sparse_binding: None,
            protected: None,
            present: None,
        }
    }

    /// The index of the family that serves `queue_family`, if any.
    pub fn get_idx_of_queue_family(&self, queue_family: QueueFamily) -> (index: Option<u32>)
        ensures
            index == self.index_of(queue_family),
    {
        match queue_family {
            QueueFamily::Graphics => self.graphics,
            QueueFamily::Compute => self.compute,
            QueueFamily::Transfer => self.transfer,
            QueueFamily::SparseBinding => self.sparse_binding,
            QueueFamily::Protected => self.protected,
            QueueFamily::Present => self.present,
        }
    }
}

/// Finds, for each capability, the family to use: the last one in the
/// driver's order that serves it.
pub fn get_queue_families(family_properties: &Vec<QueueFamilyProperties>) -> (families:
    QueueFamilies)
    requires
        family_properties.len() <= u32::MAX,
    ensures
        families.describes(family_properties@),
{
    let mut families = QueueFamilies::none();
    let mut i: usize = 0;
    while i < family_properties.len()
        invariant
            i <= family_properties.len() <= u32::MAX,
            families.describes(family_properties@.take(i as int)),
        decreases family_properties.len() - i,
    {
        let ghost seen = family_properties@.take(i as int);
        let ghost grown = family_properties@.take(i + 1);
        let ghost before = families;
        let f = family_properties[i];
        let idx: u32 = i as u32;
        let opt = Some(idx);
        if f.queue_flags & VK_QUEUE_GRAPHICS_BIT != 0 {
            families.graphics = opt;
        }
        if f.queue_flags & VK_QUEUE_COMPUTE_BIT != 0 {
            families.compute = opt;
        }
        if f.queue_flags & VK_QUEUE_TRANSFER_BIT != 0 {
            families.transfer = opt;
        }
        if f.queue_flags & VK_QUEUE_SPARSE_BINDING_BIT != 0 {
            families.sparse_binding = opt;
        }
        if f.queue_flags & VK_QUEUE_PROTECTED_BIT != 0 {
            families.protected = opt;
        }
        if f.present_support {
            families.present = opt;
        }
        proof {
            assert forall|family: QueueFamily| #[trigger]
                is_last_serving(grown, family, families.index_of(family)) by {
                assert(is_last_serving(seen, family, before.index_of(family)));
            }
        }
        i += 1;
    }
    assert(family_properties@.take(i as int) =~= family_properties@);
    families
}

/// The families to open queues on: the graphics and the present family,
/// in increasing order, once where they are the same.
pub fn get_queue_create_infos(graphics: u32, present: u32) -> (unique: Vec<u32>)
    ensures
        unique@ == unique_families(graphics, present),
{
    let mut unique: Vec<u32> = Vec::new();
    if graphics == present {
        unique.push(graphics);
    } else if graphics < present {
        unique.push(graphics);
        unique.push(present);
    } else {
        unique.push(present);
        unique.push(graphics);
    }
    unique
}

/// The name of an adapter class, for the eyes of the user.
pub fn device_type_name(device_type: u32) -> (name: &'static str)
    ensures
        name@ == if device_type == VK_PHYSICAL_DEVICE_TYPE_OTHER {
            "Other"@
        } else if device_type == VK_PHYSICAL_DEVICE_TYPE_INTEGRATED_GPU {
            "Integrated GPU"@
        } else if device_type == VK_PHYSICAL_DEVICE_TYPE_DISCRETE_GPU {
            "Discrete GPU"@
        } else if device_type == VK_PHYSICAL_DEVICE_TYPE_VIRTUAL_GPU {
            "Virtual GPU"@
        } else if device_type == VK_PHYSICAL_DEVICE_TYPE_CPU {
            "CPU"@
        } else {
            "Unknown"@
        },
{
    if device_type == VK_PHYSICAL_DEVICE_TYPE_OTHER {
        "Other"
    } else if device_type == VK_PHYSICAL_DEVICE_TYPE_INTEGRATED_GPU {
        "Integrated GPU"
    } else if device_type == VK_PHYSICAL_DEVICE_TYPE_DISCRETE_GPU {
        "Discrete GPU"
    } else if device_type == VK_PHYSICAL_DEVICE_TYPE_VIRTUAL_GPU {
        "Virtual GPU"
    } else if device_type == VK_PHYSICAL_DEVICE_TYPE_CPU {
        "CPU"
    } else {
        "Unknown"
    }
}

/// The name of a capability, for the eyes of the user.
pub fn queue_family_name(family: QueueFamily) -> (name: &'static str)
    ensures
        name@ == match family {
            QueueFamily::Graphics => "graphics"@,
            QueueFamily::Compute => "compute"@,
            QueueFamily::Transfer => "transfer"@,
            QueueFamily::SparseBinding => "sparse_binding"@,
            QueueFamily::Protected => "protected"@,
            QueueFamily::Present => "present"@,
        },
{
    match family {
        QueueFamily::Graphics => "graphics",
        QueueFamily::Compute => "compute",
        QueueFamily::Transfer => "transfer",
        QueueFamily::SparseBinding => "sparse_binding",
        QueueFamily::Protected => "protected",
        QueueFamily::Present => "present",
    }
}

/// The capabilities that the flags of a queue family name, in the order
/// graphics, compute, transfer, sparse binding, protected.
pub fn queue_capabilities(queue_flags: u32) -> (capabilities: Vec<QueueFamily>)
    ensures
        capabilities@ == flagged(queue_flags),
{
    let mut capabilities: Vec<QueueFamily> = Vec::new();
    if queue_flags & VK_QUEUE_GRAPHICS_BIT != 0 {
        capabilities.push(QueueFamily::Graphics);
    }
    if queue_flags & VK_QUEUE_COMPUTE_BIT != 0 {
        capabilities.push(QueueFamily::Compute);
    }
    if queue_flags & VK_QUEUE_TRANSFER_BIT != 0 {
        capabilities.push(QueueFamily::Transfer);
    }
    if queue_flags & VK_QUEUE_SPARSE_BINDING_BIT != 0 {
        capabilities.push(QueueFamily::SparseBinding);
    }
    if queue_flags & VK_QUEUE_PROTECTED_BIT != 0 {
        capabilities.push(QueueFamily::Protected);
    }
    capabilities
}

/// The place of an adapter class in the order of preference: discrete
/// first, then integrated, other, virtual, CPU. A class that the driver
/// should not report gets [`UNRANKED`] and is never chosen.
pub open spec fn type_rank(device_type: u32) -> u8 {
    if device_type == VK_PHYSICAL_DEVICE_TYPE_DISCRETE_GPU {
        0
    } else if device_type == VK_PHYSICAL_DEVICE_TYPE_INTEGRATED_GPU {
        1
    } else if device_type == VK_PHYSICAL_DEVICE_TYPE_OTHER {
        2
    } else if device_type == VK_PHYSICAL_DEVICE_TYPE_VIRTUAL_GPU {
        3
    } else if device_type == VK_PHYSICAL_DEVICE_TYPE_CPU {
        4
    } else {
        UNRANKED
    }
}

/// The rank of an adapter class. See [`type_rank`].
pub fn rank_of_type(device_type: u32) -> (rank: u8)
    ensures
        rank == type_rank(device_type),
{
    if device_type == VK_PHYSICAL_DEVICE_TYPE_DISCRETE_GPU {
        0
    } else if device_type == VK_PHYSICAL_DEVICE_TYPE_INTEGRATED_GPU {
        1
    } else if device_type == VK_PHYSICAL_DEVICE_TYPE_OTHER {
        2
    } else if device_type == VK_PHYSICAL_DEVICE_TYPE_VIRTUAL_GPU {
        3
    } else if device_type == VK_PHYSICAL_DEVICE_TYPE_CPU {
        4
    } else {
        UNRANKED
    }
}

/// Whether some family of the adapter serves `family`.
pub open spec fn has_family(families: Seq<QueueFamilyProperties>, family: QueueFamily) -> bool {
    exists|k: int| 0 <= k < families.len() && serves(#[trigger] families[k], family)
}

/// The suitability test: a graphics family, a family that can present,
/// the swapchain extension, and at least one surface format and one
/// present mode.
pub open spec fn suitable(device: PhysicalDevice) -> bool {
    &&& has_family(device.queue_families@, QueueFamily::Graphics)
    &&& has_family(device.queue_families@, QueueFamily::Present)
    &&& name_in(swapchain_extension_name(), device.extensions@)
    &&& device.swapchain_support.formats.len() > 0
    &&& device.swapchain_support.present_modes.len() > 0
}

/// Whether the adapter can be chosen at all: suitable, and of a class
/// that has a place in the order of preference.
pub open spec fn eligible(device: PhysicalDevice) -> bool {
    suitable(device) && type_rank(device.device_type) < UNRANKED
}

/// Whether adapter `i` is the one to choose: eligible, of a class that no
/// other eligible adapter beats, and the first such in the enumeration.
pub open spec fn is_choice(devices: Seq<PhysicalDevice>, i: int) -> bool {
    &&& 0 <= i < devices.len()
    &&& eligible(devices[i])
    &&& forall|k: int|
        0 <= k < devices.len() && eligible(#[trigger] devices[k]) ==> type_rank(
            devices[i].device_type,
        ) < type_rank(devices[k].device_type) || (type_rank(devices[i].device_type) == type_rank(
            devices[k].device_type,
        ) && i <= k)
}

/// There is at most one adapter to choose.
pub proof fn lemma_choice_is_unique(devices: Seq<PhysicalDevice>, i: int, j: int)
    requires
        is_choice(devices, i),
        is_choice(devices, j),
    ensures
        i == j,
{
}

/// Applies the suitability test to an adapter and, where it passes,
/// gives the queue families to use.
pub fn is_device_suitable(device: &PhysicalDevice) -> (families: Option<QueueFamilies>)
    requires
        device.queue_families.len() <= u32::MAX,
    ensures
        families is Some <==> suitable(*device),
        families matches Some(f) ==> f.describes(device.queue_families@),
{
    let queue_families = get_queue_families(&device.queue_families);
    proof {
        assert(is_last_serving(
            device.queue_families@,
            QueueFamily::Graphics,
            queue_families.index_of(QueueFamily::Graphics),
        ));
        assert(is_last_serving(
            device.queue_families@,
            QueueFamily::Present,
            queue_families.index_of(QueueFamily::Present),
        ));
    }
    if queue_families.graphics.is_none() || queue_families.present.is_none() {
        return None;
    }
    let required = get_required_extensions();
    proof {
        assert(names_of(required@)[0] == swapchain_extension_name());
        assert(required@.len() == names_of(required@).len());
    }
    if !supports_required_extensions(&required, &device.extensions) {
        return None;
    }
    if device.swapchain_support.formats.len() == 0 || device.swapchain_support.present_modes.len()
        == 0 {
        return None;
    }
    Some(queue_families)
}

/// Whether some adapter reports more queue families than an index can
/// number.
pub open spec fn overfull(devices: Seq<PhysicalDevice>) -> bool {
    exists|k: int| 0 <= k < devices.len() && (#[trigger] devices[k]).queue_families.len() > u32::MAX
}

/// Whether some adapter can be chosen.
pub open spec fn some_eligible(devices: Seq<PhysicalDevice>) -> bool {
    exists|k: int| 0 <= k < devices.len() && eligible(#[trigger] devices[k])
}

/// Why no adapter is chosen, where none is.
pub open spec fn refusal(devices: Seq<PhysicalDevice>) -> DeviceError {
    if devices.len() == 0 {
        DeviceError::NoDevice
    } else if overfull(devices) {
        DeviceError::TooManyQueueFamilies
    } else {
        DeviceError::NoSuitableDevice
    }
}

/// Whether every adapter has few enough queue families.
fn check_family_counts(devices: &Vec<PhysicalDevice>) -> (fine: bool)
    ensures
        fine == !overfull(devices@),
{
    let mut i: usize = 0;
    while i < devices.len()
        invariant
            i <= devices.len(),
            forall|k: int|
                0 <= k < i ==> (#[trigger] devices[k]).queue_families.len() <= u32::MAX,
        decreases devices.len() - i,
    {
        if devices[i].queue_families.len() > u32::MAX as usize {
            return false;
        }
        i += 1;
    }
    true
}

/// Whether an adapter can be chosen: the enumeration is not empty, no
/// adapter has more queue families than can be numbered, and some adapter
/// is eligible.
pub open spec fn can_choose(devices: Seq<PhysicalDevice>) -> bool {
    devices.len() > 0 && !overfull(devices) && some_eligible(devices)
}

/// Tells whether an adapter can be chosen, and why not where none can:
/// the first of the three conditions of [`can_choose`] that fails.
pub fn check_devices(devices: &Vec<PhysicalDevice>) -> (verdict: Result<(), DeviceError>)
    ensures
        verdict is Ok <==> can_choose(devices@),
        verdict matches Err(e) ==> e == refusal(devices@),
{
    if devices.len() == 0 {
        return Err(DeviceError::NoDevice);
    }
    if !check_family_counts(devices) {
        return Err(DeviceError::TooManyQueueFamilies);
    }
    let mut i: usize = 0;
    while i < devices.len()
        invariant
            i <= devices.len(),
            !overfull(devices@),
            forall|k: int| 0 <= k < i ==> !eligible(#[trigger] devices[k]),
        decreases devices.len() - i,
    {
        if rank_of_type(devices[i].device_type) < UNRANKED && is_device_suitable(
            &devices[i],
        ).is_some() {
            return Ok(());
        }
        i += 1;
    }
    Err(DeviceError::NoSuitableDevice)
}

/// Chooses the adapter to open: among those that pass the suitability
/// test, one of the most preferred class, and among these the first.
///
/// There has to be an adapter to choose. Startup does not go on without
/// one: [`check_devices`] tells whether there is, and [`Device::try_new`]
/// asks it before it chooses.
pub fn choose_phys_device(devices: &Vec<PhysicalDevice>) -> (choice: usize)
    requires
        can_choose(devices@),
    ensures
        is_choice(devices@, choice as int),
{
    let mut best: Option<usize> = None;
    let mut best_rank: u8 = UNRANKED;
    let mut i: usize = 0;
    while i < devices.len()
        invariant
            i <= devices.len(),
            !overfull(devices@),
            match best {
                Some(b) => b < i && best_rank == type_rank(devices[b as int].device_type)
                    && is_choice(devices@.take(i as int), b as int),
                None => best_rank == UNRANKED && forall|k: int|
                    0 <= k < i ==> !eligible(#[trigger] devices[k]),
            },
        decreases devices.len() - i,
    {
        let rank = rank_of_type(devices[i].device_type);
        if rank < best_rank {
            if is_device_suitable(&devices[i]).is_some() {
                best = Some(i);
                best_rank = rank;
            }
        }
        i += 1;
    }
    assert(devices@.take(i as int) =~= devices@);
    best.unwrap()
}

/// The families to open queues on. See [`get_queue_create_infos`].
pub open spec fn unique_families(graphics: u32, present: u32) -> Seq<u32> {
    if graphics == present {
        seq![graphics]
    } else if graphics < present {
        seq![graphics, present]
    } else {
        seq![present, graphics]
    }
}

/// Describes the logical device: one queue of full priority on the
/// graphics and on the present family, the swapchain extension, and in a
/// debug build the layers of the table that the driver offers.
///
/// Both families have to be there, as they are for a [`Device`], and the
/// driver has to offer every required layer of the table, in a debug
/// build or not. Startup does not go on otherwise:
/// [`first_unsupported`](crate::names::first_unsupported) finds the layer
/// to complain of.
pub fn create_logical_device(
    queue_families: &QueueFamilies,
    layer_table: &Vec<Requirement>,
    supported_layers: &Vec<Vec<u8>>,
    debug: bool,
) -> (device: LogicalDevice)
    requires
        queue_families.graphics is Some,
        queue_families.present is Some,
        all_required_offered(layer_table@, supported_layers@),
    ensures
        device.queue_family_indices@ == unique_families(
            queue_families.graphics.unwrap(),
            queue_families.present.unwrap(),
        ),
        device.queue_count == 1,
        device.queue_priority == F32_ONE,
        names_of(device.extensions@) == seq![swapchain_extension_name()],
        names_of(device.layers@) == if debug {
            supported_names(layer_table@, supported_layers@)
        } else {
            Seq::<Seq<u8>>::empty()
        },
{
    let graphics = queue_families.graphics.unwrap();
    let present = queue_families.present.unwrap();
    let queue_family_indices = get_queue_create_infos(graphics, present);
    let extensions = get_required_extensions();
    let layers = get_validation_layers(layer_table, supported_layers);
    let enabled: Vec<Vec<u8>> = if debug {
        layers
    } else {
        Vec::new()
    };
    LogicalDevice {
        queue_family_indices,
        queue_count: 1,
        queue_priority: F32_ONE,
        extensions,
        layers: enabled,
    }
}

impl Device {
    /// Whether this is the record of adapter `phys_device` of the
    /// enumeration: its place there, the queue families to use, and what
    /// it can do with the surface.
    pub open spec fn records(self, devices: Seq<PhysicalDevice>) -> bool {
        &&& is_choice(devices, self.phys_device as int)
        &&& self.queue_families.describes(devices[self.phys_device as int].queue_families@)
        &&& self.swapchain_support == devices[self.phys_device as int].swapchain_support
        &&& self.queue_families.graphics is Some
        &&& self.queue_families.present is Some
    }

    /// Chooses an adapter from the enumeration and records what was
    /// learnt about it. See [`choose_phys_device`].
    ///
    /// There has to be an adapter to choose; [`Device::try_new`] is for
    /// an enumeration of which that is not known.
    pub fn new(devices: Vec<PhysicalDevice>) -> (device: Device)
        requires
            can_choose(devices@),
        ensures
            device.records(devices@),
    {
        let mut devices = devices;
        let i = choose_phys_device(&devices);
        let chosen = devices.remove(i);
        let queue_families = get_queue_families(&chosen.queue_families);
        proof {
            let families = chosen.queue_families@;
            assert(is_last_serving(
                families,
                QueueFamily::Graphics,
                queue_families.index_of(QueueFamily::Graphics),
            ));
            assert(is_last_serving(
                families,
                QueueFamily::Present,
                queue_families.index_of(QueueFamily::Present),
            ));
        }
        Device { phys_device: i, queue_families, swapchain_support: chosen.swapchain_support }
    }

    /// Looks whether an adapter can be chosen, and chooses one where
    /// that is so; says why not where it is not.
    pub fn try_new(devices: Vec<PhysicalDevice>) -> (device: Result<Device, DeviceError>)
        ensures
            device is Ok <==> can_choose(devices@),
            device matches Ok(d) ==> d.records(devices@),
            device matches Err(e) ==> e == refusal(devices@),
    {
        match check_devices(&devices) {
            Ok(()) => Ok(Device::new(devices)),
            Err(e) => Err(e),
        }
    }

    /// The queue of a capability: the first queue of the family that
    /// serves it, or `None` where no family does.
    pub fn get_queue(&self, queue_family: QueueFamily) -> (queue: Option<Queue>)
        ensures
            queue == (match self.queue_families.index_of(queue_family) {
                Some(i) => Some(Queue { family_idx: i, queue_idx: 0 }),
                None => None,
            }),
    {
        match self.get_idx_of_queue_family(queue_family) {
            Some(family_idx) => Some(Queue::new(family_idx)),
            None => None,
        }
    }

    /// A command pool for the family that serves `queue_family`, or `None`
    /// where no family does.
    pub fn create_command_pool(&self, queue_family: QueueFamily) -> (pool: Option<CommandPool>)
        ensures
            pool == (match self.queue_families.index_of(queue_family) {
                Some(i) => Some(CommandPool::described(i)),
                None => None,
            }),
    {
        match self.get_idx_of_queue_family(queue_family) {
            Some(family_idx) => Some(CommandPool::new(family_idx)),
            None => None,
        }
    }

    /// The index of the family that serves `queue_family`, if any.
    pub fn get_idx_of_queue_family(&self, queue_family: QueueFamily) -> (index: Option<u32>)
        ensures
            index == self.queue_families.index_of(queue_family),
    {
        self.queue_families.get_idx_of_queue_family(queue_family)
    }

    /// Takes in the surface capabilities as they have just been queried
    /// and configures the swapchain from them: the record of the adapter
    /// keeps its formats and present modes, its capabilities are replaced
    /// by `capabilities`, and the configuration is computed from the
    /// record as it then stands. This is how every swapchain is
    /// configured, the first and each one after a rebuild, so that none
    /// is made for capabilities that are out of date.
    pub fn create_swapchain(
        &mut self,
        capabilities: SurfaceCapabilities,
        fb_width: i32,
        fb_height: i32,
    ) -> (swapchain: Result<Swapchain, SwapchainError>)
        ensures
            final(self).swapchain_support.capabilities == capabilities,
            final(self).swapchain_support.formats == old(self).swapchain_support.formats,
            final(self).swapchain_support.present_modes == old(
                self,
            ).swapchain_support.present_modes,
            final(self).queue_families == old(self).queue_families,
            final(self).phys_device == old(self).phys_device,
            swapchain == configured(*final(self), fb_width, fb_height),
    {
        self.swapchain_support.capabilities = capabilities;
        Swapchain::from_device(self, fb_width, fb_height)
    }

    /// The render pass for images of `image_format`. See
    /// [`RenderPass::new`].
    pub fn create_render_pass(&self, image_format: u32) -> (render_pass: RenderPass)
        ensures
            render_pass == RenderPass::described(image_format),
    {
        RenderPass::new(image_format)
    }

    /// The pipeline layout. See [`PipelineLayout::new`].
    pub fn create_pipeline_layout(&self, push_const_size: usize, push_const_stages: u32) -> (layout:
        Option<PipelineLayout>)
        ensures
            layout == if push_const_size <= u32::MAX {
                Some(
                    PipelineLayout {
                        push_constant_range: PushConstantRange {
                            stage_flags: push_const_stages,
                            offset: 0,
                            size: push_const_size as u32,
                        },
                    },
                )
            } else {
                None
            },
    {
        PipelineLayout::new(push_const_size, push_const_stages)
    }

    /// The shader module for compiled code, which has to be a whole
    /// number of words. See [`Shader::from_bytes`].
    pub fn create_shader(&self, compiled: &Vec<u8>, sh_type: ShaderType) -> (shader: Shader)
        requires
            is_whole_words(compiled@),
        ensures
            shader.code_size == compiled.len(),
            shader.stage == stage_bit(sh_type),
            is_packed_natively(shader.code@, compiled@),
    {
        Shader::from_bytes(compiled, sh_type)
    }

    /// The pipeline for two shaders and the size of the swapchain images.
    /// See [`Pipeline::new`].
    pub fn create_pipeline(&self, shaders: &Vec<Shader>, swapchain: &Swapchain) -> (pipeline:
        Option<Pipeline>)
        ensures
            pipeline is Some <==> shaders.len() == 2,
            pipeline matches Some(p) ==> is_pipeline_of(
                p,
                shaders[0].stage,
                shaders[1].stage,
                swapchain.extent,
            ),
    {
        Pipeline::new(shaders, swapchain)
    }

    /// One framebuffer for each image view, in the order of the views.
    pub fn create_framebuffers(&self, image_views: &Vec<ImageView>, swapchain: &Swapchain) -> (
        framebuffers: Vec<Framebuffer>)
        ensures
            framebuffers.len() == image_views.len(),
            forall|i: int|
                0 <= i < image_views.len() ==> framebuffers[i] == (Framebuffer {
                    attachment: image_views[i].image,
                    width: swapchain.extent.width,
                    height: swapchain.extent.height,
                    layers: 1,
                }),
    {
        crate::swapchain::create_framebuffers(image_views, swapchain)
    }

    /// A semaphore of a frame slot.
    pub fn create_semaphore(&self, slot: usize, role: SemaphoreRole) -> (semaphore: Semaphore)
        ensures
            semaphore == (Semaphore { slot, role }),
    {
        Semaphore::new(slot, role)
    }

    /// A fence that starts out signaled or not. See [`Fence::new`].
    pub fn create_fence(&self, signaled: bool) -> (fence: Fence)
        ensures
            fence.flags == if signaled {
                VK_FENCE_CREATE_SIGNALED_BIT
            } else {
                0
            },
    {
        Fence::new(signaled)
    }

    /// The description of a buffer. See [`Buffer::new`].
    pub fn create_buffer(&self, size: u64, usage: u32, properties: u32) -> (buffer: Buffer)
        ensures
            buffer == described(size, usage, properties),
    {
        Buffer::new(size, usage, properties)
    }

    /// The steps that upload `size` bytes into a new device-local buffer.
    /// See [`Buffer::with_data`].
    pub fn create_buffer_with_data(&self, destination: BufferId, usage: u32, size: u64) -> (steps:
        Vec<UploadStep>)
        ensures
            steps@ == upload_steps(destination, usage, size),
    {
        Buffer::with_data(destination, usage, size)
    }
}

} // verus!
