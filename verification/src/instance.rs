//! The connection to the driver: the root of every other object.
use vstd::prelude::*;
use crate::error::{handle_or_error, reply_outcome, DriverCall, Error};
use crate::native::NativeCall;
use crate::physical_device::{ManagedPhysicalDevice, PhysicalDeviceModel};

verus! {

/// What the driver is asked for when an instance is created.
#[derive(Debug, PartialEq, Eq)]
pub struct InstanceCreateInfo {
    pub application_name: String,
    pub application_version: u32,
    pub engine_name: String,
    pub enabled_layers: Vec<String>,
    pub enabled_extensions: Vec<String>,
}

/// The number that packs a version of three parts.
pub open spec fn version_number(major: u32, minor: u32, patch: u32) -> u32 {
    (major << 22) | (minor << 12) | patch
}

/// `name` is one of the layers that the driver offers.
pub open spec fn layer_listed(available: Seq<String>, name: Seq<char>) -> bool {
    exists|j: int| 0 <= j < available.len() && (#[trigger] available[j])@ == name
}

/// Every requested layer is offered.
pub open spec fn all_listed(requested: Seq<String>, available: Seq<String>) -> bool {
    forall|i: int| 0 <= i < requested.len() ==> layer_listed(available, (#[trigger] requested[i])@)
}

/// `index` is the first requested layer that the driver does not offer.
pub open spec fn first_unlisted(requested: Seq<String>, available: Seq<String>, index: int) -> bool {
    &&& 0 <= index < requested.len()
    &&& !layer_listed(available, requested[index]@)
    &&& forall|i: int| 0 <= i < index ==> layer_listed(available, (#[trigger] requested[i])@)
}

/// A request that names a layer which the driver does not offer has a first such layer,
/// and so is not one in which every layer is offered.
pub proof fn lemma_unlisted_layer_is_found(requested: Seq<String>, available: Seq<String>, index: int)
    requires
        0 <= index < requested.len(),
        !layer_listed(available, requested[index]@),
    ensures
        !all_listed(requested, available),
        exists|first: int| 0 <= first <= index && first_unlisted(requested, available, first),
    decreases index,
{
    if exists|i: int| 0 <= i < index && !layer_listed(available, (#[trigger] requested[i])@) {
        let i = choose|i: int| 0 <= i < index && !layer_listed(available, (#[trigger] requested[i])@);
        lemma_unlisted_layer_is_found(requested, available, i);
    } else {
        assert(first_unlisted(requested, available, index));
    }
}

/// `ash::vk::make_version`: the major number moved up by 22 bits, the minor number by 12,
/// and the patch number, joined by bitwise or.
#[verifier::external_body]
#[allow(deprecated)]
fn make_version(major: u32, minor: u32, patch: u32) -> (version: u32)
    ensures
        version == version_number(major, minor, patch),
{
    ash::vk::make_version(major, minor, patch)
}

fn is_listed(available: &Vec<String>, name: &String) -> (found: bool)
    ensures
        found == layer_listed(available@, name@),
{
    let mut j: usize = 0;
    while j < available.len()
        invariant
            j <= available.len(),
            forall|k: int| 0 <= k < j ==> (#[trigger] available@[k])@ != name@,
        decreases available.len() - j,
    {
        if available[j] == *name {
            return true;
        }
        j += 1;
    }
    false
}

/// The first requested layer that the driver does not offer, if there is one.
pub fn find_unsupported_layer(requested: &Vec<String>, available: &Vec<String>) -> (missing: Option<usize>)
    ensures
        match missing {
            Some(index) => first_unlisted(requested@, available@, index as int),
            None => all_listed(requested@, available@),
        },
{
    let mut i: usize = 0;
    while i < requested.len()
        invariant
            i <= requested.len(),
            forall|k: int| 0 <= k < i ==> layer_listed(available@, (#[trigger] requested@[k])@),
        decreases requested.len() - i,
    {
        if !is_listed(available, &requested[i]) {
            return Some(i);
        }
        i += 1;
    }
    None
}

/// The validation layers to request: the diagnostic layer when `enabled`, else none.
pub fn validation_layers(enabled: bool) -> (layers: Vec<String>)
    ensures
        enabled ==> layers@.len() == 1 && layers@[0]@ == "VK_LAYER_KHRONOS_validation"@,
        !enabled ==> layers@.len() == 0,
{
    let mut layers: Vec<String> = Vec::new();
    if enabled {
        layers.push("VK_LAYER_KHRONOS_validation".to_owned());
    }
    layers
}

/// The driver connection. Everything else is created from it, and it is released last.
#[derive(Debug)]
pub struct ManagedInstance {
    raw: u64,
}

impl View for ManagedInstance {
    type V = u64;

    /// The driver's handle.
    closed spec fn view(&self) -> u64 {
        self.raw
    }
}

impl ManagedInstance {
    /// Checks the requested layers against those the driver offers, and describes the
    /// instance to create. With a layer missing there is nothing to hand to the driver.
    pub fn create_info(
        application_name: &str,
        engine_name: &str,
        requested_layers: Vec<String>,
        available_layers: &Vec<String>,
    ) -> (r: Result<InstanceCreateInfo, Error>)
        ensures
            r is Ok <==> all_listed(requested_layers@, available_layers@),
            match r {
                Ok(info) => {
                    &&& all_listed(requested_layers@, available_layers@)
                    &&& info.application_name@ == application_name@
                    &&& info.application_version == version_number(0, 1, 0)
                    &&& info.application_version == 4096
                    &&& info.engine_name@ == engine_name@
                    &&& info.enabled_layers@ == requested_layers@
                    &&& info.enabled_extensions@.len() == 0
                },
                Err(e) => exists|index: usize|
                    e == (Error::LayerUnsupported { index }) && first_unlisted(
                        requested_layers@,
                        available_layers@,
                        index as int,
                    ),
            },
    {
        match find_unsupported_layer(&requested_layers, available_layers) {
            Some(index) => Err(Error::LayerUnsupported { index }),
            None => {
                let application_version: u32 = make_version(0, 1, 0);
                assert((0u32 << 22) | (1u32 << 12) | 0u32 == 4096u32) by (bit_vector);
                Ok(
                    InstanceCreateInfo {
                        application_name: application_name.to_owned(),
                        application_version,
                        engine_name: engine_name.to_owned(),
                        enabled_layers: requested_layers,
                        enabled_extensions: Vec::new(),
                    },
                )
            },
        }
    }

    /// The instance of the triangle program: its names, and the diagnostic layer when
    /// `validation` is set.
    pub fn default_create_info(validation: bool, available_layers: &Vec<String>) -> (r: Result<
        InstanceCreateInfo,
        Error,
    >)
        ensures
            match r {
                Ok(info) => {
                    &&& !validation || layer_listed(available_layers@, "VK_LAYER_KHRONOS_validation"@)
                    &&& info.application_name@ == "Hello Triangle"@
                    &&& info.application_version == 4096
                    &&& info.engine_name@ == "No Engine"@
                    &&& info.enabled_layers@.len() == (if validation { 1nat } else { 0nat })
                    &&& validation ==> info.enabled_layers@[0]@ == "VK_LAYER_KHRONOS_validation"@
                    &&& info.enabled_extensions@.len() == 0
                },
                Err(e) => {
                    &&& validation
                    &&& !layer_listed(available_layers@, "VK_LAYER_KHRONOS_validation"@)
                    &&& e == (Error::LayerUnsupported { index: 0 })
                },
            },
    {
        Self::create_info("Hello Triangle", "No Engine", validation_layers(validation), available_layers)
    }

    /// Wraps what the driver answered to the creation of an instance.
    pub fn new(created: Result<u64, i32>) -> (r: Result<ManagedInstance, Error>)
        ensures
            match r {
                Ok(instance) => created == Ok::<u64, i32>(instance@),
                Err(e) => reply_outcome(DriverCall::CreateInstance, created) == Err::<u64, Error>(e),
            },
    {
        match handle_or_error(DriverCall::CreateInstance, created) {
            Ok(raw) => Ok(ManagedInstance { raw }),
            Err(e) => Err(e),
        }
    }

    pub fn get_raw(&self) -> (raw: u64)
        ensures
            raw == self@,
    {
        self.raw
    }

    /// Wraps what the driver answered to the enumeration of physical devices: one
    /// descriptor for each handle, in the driver's order, each borrowing this instance.
    pub fn enumerate_physical_device(&self, enumerated: Result<Vec<u64>, i32>) -> (r: Result<
        Vec<ManagedPhysicalDevice<'_>>,
        Error,
    >)
        ensures
            match r {
                Ok(devices) => {
                    &&& enumerated is Ok
                    &&& devices@.len() == enumerated->Ok_0@.len()
                    &&& forall|i: int|
                        0 <= i < devices@.len() ==> (#[trigger] devices@[i])@ == (PhysicalDeviceModel {
                            instance: self@,
                            raw: enumerated->Ok_0@[i],
                        })
                },
                Err(e) => {
                    &&& enumerated is Err
                    &&& e == (Error::DriverCallFailed {
                        call: DriverCall::EnumeratePhysicalDevices,
                        code: enumerated->Err_0,
                    })
                },
            },
    {
        match enumerated {
            Ok(handles) => {
                let mut devices: Vec<ManagedPhysicalDevice<'_>> = Vec::new();
                let mut i: usize = 0;
                while i < handles.len()
                    invariant
                        i <= handles.len(),
                        devices@.len() == i,
                        forall|k: int|
                            0 <= k < i ==> (#[trigger] devices@[k])@ == (PhysicalDeviceModel {
                                instance: self@,
                                raw: handles@[k],
                            }),
                    decreases handles.len() - i,
                {
                    devices.push(ManagedPhysicalDevice::new(self, handles[i]));
                    i += 1;
                }
                Ok(devices)
            },
            Err(code) => Err(
                Error::DriverCallFailed { call: DriverCall::EnumeratePhysicalDevices, code },
            ),
        }
    }

    /// Gives the instance up. The call that releases it is the last of a teardown.
    pub fn teardown(self) -> (call: NativeCall)
        ensures
            call == (NativeCall::DestroyInstance { instance: self@ }),
    {
        NativeCall::DestroyInstance { instance: self.raw }
    }
}

} // verus!
