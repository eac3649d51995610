//! Names of layers and extensions, and the table of those that the
//! renderer asks for.
//!
//! A name is the bytes of a C string without its terminator.

use vstd::prelude::*;

verus! {

/// One line of the configuration table: a layer or extension, and whether
/// the renderer can do without it.
pub struct Requirement {
    /// The name as the driver spells it.
    pub name: Vec<u8>,
    /// Whether startup fails when the driver does not offer it.
    pub required: bool,
}

/// Whether `name` is one of `supported`.
pub open spec fn name_in(name: Seq<u8>, supported: Seq<Vec<u8>>) -> bool {
    exists|i: int| 0 <= i < supported.len() && #[trigger] supported[i]@ == name
}

/// Whether entry `i` of the table is required and not supported.
pub open spec fn is_missing(table: Seq<Requirement>, supported: Seq<Vec<u8>>, i: int) -> bool {
    0 <= i < table.len() && table[i].required && !name_in(table[i].name@, supported)
}

/// The names of the table's entries that are supported, in table order.
pub open spec fn supported_names(table: Seq<Requirement>, supported: Seq<Vec<u8>>) -> Seq<
    Seq<u8>,
>
    decreases table.len(),
{
    if table.len() == 0 {
        Seq::empty()
    } else {
        let earlier = supported_names(table.drop_last(), supported);
        if name_in(table.last().name@, supported) {
            earlier.push(table.last().name@)
        } else {
            earlier
        }
    }
}

/// The names held by a list, each as a sequence of bytes.
pub open spec fn names_of(list: Seq<Vec<u8>>) -> Seq<Seq<u8>> {
    Seq::new(list.len(), |i: int| list[i]@)
}

/// `VK_KHR_swapchain`, the device extension that presentation needs.
pub open spec fn swapchain_extension_name() -> Seq<u8> {
    seq![
        0x56u8, 0x4b, 0x5f, 0x4b, 0x48, 0x52, 0x5f, 0x73, 0x77, 0x61, 0x70, 0x63, 0x68, 0x61, 0x69,
        0x6e,
    ]
}

/// `VK_LAYER_KHRONOS_validation`, the validation layer of debug builds.
pub open spec fn validation_layer_name() -> Seq<u8> {
    seq![
        0x56u8, 0x4b, 0x5f, 0x4c, 0x41, 0x59, 0x45, 0x52, 0x5f, 0x4b, 0x48, 0x52, 0x4f, 0x4e, 0x4f,
        0x53, 0x5f, 0x76, 0x61, 0x6c, 0x69, 0x64, 0x61, 0x74, 0x69, 0x6f, 0x6e,
    ]
}

/// `VK_LAYER_MESA_device_select`.
pub open spec fn mesa_device_select_layer_name() -> Seq<u8> {
    seq![
        0x56u8, 0x4b, 0x5f, 0x4c, 0x41, 0x59, 0x45, 0x52, 0x5f, 0x4d, 0x45, 0x53, 0x41, 0x5f,
        0x64, 0x65, 0x76, 0x69, 0x63, 0x65, 0x5f, 0x73, 0x65, 0x6c, 0x65, 0x63, 0x74,
    ]
}

/// `VK_LAYER_LUNARG_monitor`.
pub open spec fn lunarg_monitor_layer_name() -> Seq<u8> {
    seq![
        0x56u8, 0x4b, 0x5f, 0x4c, 0x41, 0x59, 0x45, 0x52, 0x5f, 0x4c, 0x55, 0x4e, 0x41, 0x52,
        0x47, 0x5f, 0x6d, 0x6f, 0x6e, 0x69, 0x74, 0x6f, 0x72,
    ]
}

/// `VK_LAYER_KHRONOS_synchronization2`.
pub open spec fn synchronization2_layer_name() -> Seq<u8> {
    seq![
        0x56u8, 0x4b, 0x5f, 0x4c, 0x41, 0x59, 0x45, 0x52, 0x5f, 0x4b, 0x48, 0x52, 0x4f, 0x4e,
        0x4f, 0x53, 0x5f, 0x73, 0x79, 0x6e, 0x63, 0x68, 0x72, 0x6f, 0x6e, 0x69, 0x7a, 0x61, 0x74,
        0x69, 0x6f, 0x6e, 0x32,
    ]
}

/// Whether two names are the same bytes.
pub fn same_name(a: &Vec<u8>, b: &Vec<u8>) -> (same: bool)
    ensures
        same == (a@ == b@),
{
    if a.len() != b.len() {
        return false;
    }
    let mut i: usize = 0;
    while i < a.len()
        invariant
            a.len() == b.len(),
            i <= a.len(),
            forall|k: int| 0 <= k < i ==> a[k] == b[k],
        decreases a.len() - i,
    {
        if a[i] != b[i] {
            return false;
        }
        i += 1;
    }
    assert(a@ =~= b@);
    true
}

/// A fresh copy of a name.
pub fn copy_name(name: &Vec<u8>) -> (copy: Vec<u8>)
    ensures
        copy@ == name@,
{
    let mut copy: Vec<u8> = Vec::new();
    let mut i: usize = 0;
    while i < name.len()
        invariant
            i <= name.len(),
            copy.len() == i,
            forall|k: int| 0 <= k < i ==> copy[k] == name[k],
        decreases name.len() - i,
    {
        copy.push(name[i]);
        i += 1;
    }
    copy
}

/// Whether the driver offers `name`.
pub fn is_supported(name: &Vec<u8>, supported: &Vec<Vec<u8>>) -> (found: bool)
    ensures
        found == name_in(name@, supported@),
{
    let mut i: usize = 0;
    while i < supported.len()
        invariant
            i <= supported.len(),
            forall|k: int| 0 <= k < i ==> (#[trigger] supported[k])@ != name@,
        decreases supported.len() - i,
    {
        if same_name(&supported[i], name) {
            return true;
        }
        i += 1;
    }
    false
}

/// The first entry of the table that is required and that the driver does
/// not offer, or `None` when every required entry is offered.
pub fn first_unsupported(table: &Vec<Requirement>, supported: &Vec<Vec<u8>>) -> (missing: Option<
    usize,
>)
    ensures
        match missing {
            Some(i) => is_missing(table@, supported@, i as int) && forall|k: int|
                0 <= k < i ==> !is_missing(table@, supported@, k),
            None => all_required_offered(table@, supported@),
        },
{
    let mut i: usize = 0;
    while i < table.len()
        invariant
            i <= table.len(),
            forall|k: int| 0 <= k < i ==> !is_missing(table@, supported@, k),
        decreases table.len() - i,
    {
        if table[i].required && !is_supported(&table[i].name, supported) {
            return Some(i);
        }
        i += 1;
    }
    None
}

/// Whether the driver offers every name of `required`.
pub fn supports_required_extensions(required: &Vec<Vec<u8>>, supported: &Vec<Vec<u8>>) -> (all:
    bool)
    ensures
        all == (forall|k: int|
            0 <= k < required.len() ==> name_in((#[trigger] required[k])@, supported@)),
{
    let mut i: usize = 0;
    while i < required.len()
        invariant
            i <= required.len(),
            forall|k: int| 0 <= k < i ==> name_in((#[trigger] required[k])@, supported@),
        decreases required.len() - i,
    {
        if !is_supported(&required[i], supported) {
            return false;
        }
        i += 1;
    }
    true
}

/// The device extensions that the renderer cannot do without: the
/// swapchain extension alone.
pub fn get_required_extensions() -> (required: Vec<Vec<u8>>)
    ensures
        names_of(required@) == seq![swapchain_extension_name()],
{
    let name: Vec<u8> = vec![
        0x56u8, 0x4b, 0x5f, 0x4b, 0x48, 0x52, 0x5f, 0x73, 0x77, 0x61, 0x70, 0x63, 0x68, 0x61, 0x69,
        0x6e,
    ];
    let required: Vec<Vec<u8>> = vec![name];
    required
}

/// A required entry of a layer table.
fn required_layer(name: Vec<u8>) -> (entry: Requirement)
    ensures
        entry.name@ == name@,
        entry.required,
{
    Requirement { name, required: true }
}

/// Whether `table` lists exactly the layers `names`, in this order and
/// each as required.
pub open spec fn requires_all(table: Seq<Requirement>, names: Seq<Seq<u8>>) -> bool {
    &&& table.len() == names.len()
    &&& forall|i: int|
        0 <= i < table.len() ==> (#[trigger] table[i]).name@ == names[i] && table[i].required
}

/// The layers that the instance is created with: device selection, the
/// monitor, the second synchronization and the validation layer, each of
/// them required.
pub fn instance_layer_table() -> (table: Vec<Requirement>)
    ensures
        requires_all(
            table@,
            seq![
                mesa_device_select_layer_name(),
                lunarg_monitor_layer_name(),
                synchronization2_layer_name(),
                validation_layer_name(),
            ],
        ),
{
    let select: Vec<u8> = vec![
        0x56u8, 0x4b, 0x5f, 0x4c, 0x41, 0x59, 0x45, 0x52, 0x5f, 0x4d, 0x45, 0x53, 0x41, 0x5f,
        0x64, 0x65, 0x76, 0x69, 0x63, 0x65, 0x5f, 0x73, 0x65, 0x6c, 0x65, 0x63, 0x74,
    ];
    let monitor: Vec<u8> = vec![
        0x56u8, 0x4b, 0x5f, 0x4c, 0x41, 0x59, 0x45, 0x52, 0x5f, 0x4c, 0x55, 0x4e, 0x41, 0x52,
        0x47, 0x5f, 0x6d, 0x6f, 0x6e, 0x69, 0x74, 0x6f, 0x72,
    ];
    let synchronization: Vec<u8> = vec![
        0x56u8, 0x4b, 0x5f, 0x4c, 0x41, 0x59, 0x45, 0x52, 0x5f, 0x4b, 0x48, 0x52, 0x4f, 0x4e,
        0x4f, 0x53, 0x5f, 0x73, 0x79, 0x6e, 0x63, 0x68, 0x72, 0x6f, 0x6e, 0x69, 0x7a, 0x61, 0x74,
        0x69, 0x6f, 0x6e, 0x32,
    ];
    let validation: Vec<u8> = vec![
        0x56u8, 0x4b, 0x5f, 0x4c, 0x41, 0x59, 0x45, 0x52, 0x5f, 0x4b, 0x48, 0x52, 0x4f, 0x4e,
        0x4f, 0x53, 0x5f, 0x76, 0x61, 0x6c, 0x69, 0x64, 0x61, 0x74, 0x69, 0x6f, 0x6e,
    ];
    let mut table: Vec<Requirement> = Vec::new();
    table.push(required_layer(select));
    table.push(required_layer(monitor));
    table.push(required_layer(synchronization));
    table.push(required_layer(validation));
    table
}

/// The layers that the logical device is created with: the validation
/// layer, required.
pub fn device_layer_table() -> (table: Vec<Requirement>)
    ensures
        requires_all(table@, seq![validation_layer_name()]),
{
    let validation: Vec<u8> = vec![
        0x56u8, 0x4b, 0x5f, 0x4c, 0x41, 0x59, 0x45, 0x52, 0x5f, 0x4b, 0x48, 0x52, 0x4f, 0x4e,
        0x4f, 0x53, 0x5f, 0x76, 0x61, 0x6c, 0x69, 0x64, 0x61, 0x74, 0x69, 0x6f, 0x6e,
    ];
    let mut table: Vec<Requirement> = Vec::new();
    table.push(required_layer(validation));
    table
}

/// Whether the driver offers every required entry of the table.
pub open spec fn all_required_offered(table: Seq<Requirement>, supported: Seq<Vec<u8>>) -> bool {
    forall|k: int| !is_missing(table, supported, k)
}

/// The layers to enable: the names of the table's entries that the
/// driver offers, in table order.
///
/// The driver has to offer every required entry. Startup does not go on
/// without one: [`first_unsupported`] finds the entry to complain of.
pub fn get_validation_layers(table: &Vec<Requirement>, supported: &Vec<Vec<u8>>) -> (layers: Vec<
    Vec<u8>,
>)
    requires
        all_required_offered(table@, supported@),
    ensures
        names_of(layers@) == supported_names(table@, supported@),
{
    let mut names: Vec<Vec<u8>> = Vec::new();
    let mut i: usize = 0;
    while i < table.len()
        invariant
            i <= table.len(),
            names_of(names@) == supported_names(table@.take(i as int), supported@),
        decreases table.len() - i,
    {
        assert(table@.take(i + 1).drop_last() =~= table@.take(i as int));
        if is_supported(&table[i].name, supported) {
            names.push(copy_name(&table[i].name));
        }
        i += 1;
    }
    assert(table@.take(i as int) =~= table@);
    names
}

} // verus!
