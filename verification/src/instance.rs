//! The instance: what the driver is told about the application when the
//! connection to it is opened.

use crate::names::{
    all_required_offered, get_validation_layers, names_of, supported_names, Requirement,
};
use crate::version::{make_vk_api_version, make_vk_version};
use vstd::prelude::*;

verus! {

/// Everything that creating the instance needs to be told.
pub struct Instance {
    /// Name of the application, without a terminating zero.
    pub app_name: Vec<u8>,
    /// Packed version of the application.
    pub application_version: u32,
    /// Packed version of the engine.
    pub engine_version: u32,
    /// Packed version of the API that the application is written for.
    pub api_version: u32,
    /// Instance extensions to enable: those that the window system needs.
    pub extensions: Vec<Vec<u8>>,
    /// Layers to enable.
    pub layers: Vec<Vec<u8>>,
}

/// Whether `position` is where the first zero byte of `name` is.
pub open spec fn is_first_nul(name: Seq<u8>, position: int) -> bool {
    0 <= position < name.len() && name[position] == 0 && forall|k: int|
        0 <= k < position ==> name[k] != 0
}

/// The first zero byte of a name, if it has one.
pub fn find_nul(name: &Vec<u8>) -> (position: Option<usize>)
    ensures
        match position {
            Some(p) => is_first_nul(name@, p as int),
            None => is_c_string(name@),
        },
{
    let mut i: usize = 0;
    while i < name.len()
        invariant
            i <= name.len(),
            forall|k: int| 0 <= k < i ==> name[k] != 0,
        decreases name.len() - i,
    {
        if name[i] == 0 {
            return Some(i);
        }
        i += 1;
    }
    None
}

/// Whether a name holds no zero byte, so that it can be handed to the
/// driver as a C string.
pub open spec fn is_c_string(name: Seq<u8>) -> bool {
    forall|k: int| 0 <= k < name.len() ==> name[k] != 0
}

impl Instance {
    /// Describes the instance.
    ///
    /// The application is `app_name` at `app_version`, the engine is at
    /// `engine_version`, both as major, minor and patch number; the API
    /// asked for is 1.3.0. The extensions are the ones that the window
    /// system says it needs, passed on as they are. The layers of the
    /// table that the driver offers are enabled in a debug build only.
    ///
    /// The name must not hold a zero byte, and the driver has to offer
    /// every required layer of the table, in a debug build or not.
    /// Startup does not go on otherwise: [`find_nul`] and
    /// [`first_unsupported`](crate::names::first_unsupported) find what to
    /// complain of.
    pub fn new(
        app_name: Vec<u8>,
        app_version: (u32, u32, u32),
        engine_version: (u32, u32, u32),
        extensions: Vec<Vec<u8>>,
        layer_table: &Vec<Requirement>,
        supported_layers: &Vec<Vec<u8>>,
        debug: bool,
    ) -> (instance: Instance)
        requires
            is_c_string(app_name@),
            all_required_offered(layer_table@, supported_layers@),
        ensures
            instance.app_name == app_name,
            instance.application_version == (app_version.0 << 22) | (app_version.1 << 12)
                | app_version.2,
            instance.engine_version == (engine_version.0 << 22) | (engine_version.1 << 12)
                | engine_version.2,
            instance.api_version == 0x0040_3000,
            instance.extensions == extensions,
            names_of(instance.layers@) == if debug {
                supported_names(layer_table@, supported_layers@)
            } else {
                Seq::<Seq<u8>>::empty()
            },
    {
        let (app_major, app_minor, app_patch) = app_version;
        let application_version = make_vk_version(app_major, app_minor, app_patch);
        let (ver_major, ver_minor, ver_patch) = engine_version;
        let engine_version_int = make_vk_version(ver_major, ver_minor, ver_patch);
        let api_version = make_vk_api_version(0, 1, 3, 0);
        let layers = get_validation_layers(layer_table, supported_layers);
        let enabled: Vec<Vec<u8>> = if debug {
            layers
        } else {
            Vec::new()
        };
        Instance {
            app_name,
            application_version,
            engine_version: engine_version_int,
            api_version,
            extensions,
            layers: enabled,
        }
    }
}

} // verus!
