//! A device that the driver found: a descriptor, with nothing to release.
use vstd::prelude::*;
use vstd::utf8::{decode_utf8, valid_utf8};
use crate::flags::{has_flags, includes, QUEUE_GRAPHICS};
use crate::instance::ManagedInstance;

verus! {

/// What the driver reports of a physical device, as far as the descriptor shows it.
#[derive(Debug, PartialEq, Eq)]
pub struct PhysicalDeviceProperties {
    /// The bytes of the name field: the name, the zero byte that ends it, and whatever
    /// fills the rest of the field.
    pub device_name: Vec<u8>,
    /// The number of the device's class.
    pub device_type: i32,
}

/// What the driver reports of one queue family.
#[derive(Clone, Copy, Debug, PartialEq, Eq, Structural)]
pub struct QueueFamilyProperties {
    pub queue_flags: u32,
    pub queue_count: u32,
}

/// What a descriptor stands for: the instance it was enumerated from, and its handle.
pub struct PhysicalDeviceModel {
    pub instance: u64,
    pub raw: u64,
}

/// A physical device of an instance. It borrows the instance and owns nothing.
#[derive(Clone, Copy, Debug)]
pub struct ManagedPhysicalDevice<'a> {
    instance: &'a ManagedInstance,
    raw: u64,
}

impl<'a> View for ManagedPhysicalDevice<'a> {
    type V = PhysicalDeviceModel;

    closed spec fn view(&self) -> PhysicalDeviceModel {
        PhysicalDeviceModel { instance: self.instance@, raw: self.raw }
    }
}

/// The text that `ash` prints for a device class when it is formatted with `{:?}`.
pub uninterp spec fn device_type_text(device_type: i32) -> Seq<char>;

/// The `Debug` impl of `ash::vk::PhysicalDeviceType`: the class's name for the five
/// classes that the API defines.
#[verifier::external_body]
fn device_type_label(device_type: i32) -> (label: String)
    ensures
        label@ == device_type_text(device_type),
        device_type == 0 ==> label@ == "OTHER"@,
        device_type == 1 ==> label@ == "INTEGRATED_GPU"@,
        device_type == 2 ==> label@ == "DISCRETE_GPU"@,
        device_type == 3 ==> label@ == "VIRTUAL_GPU"@,
        device_type == 4 ==> label@ == "CPU"@,
{
    format!("{:?}", ash::vk::PhysicalDeviceType::from_raw(device_type))
}

/// `String::from_utf8`: the string that the bytes encode, if they are valid UTF-8.
#[verifier::external_body]
fn string_from_utf8(bytes: Vec<u8>) -> (text: Option<String>)
    ensures
        text is Some <==> valid_utf8(bytes@),
        text matches Some(s) ==> s@ == decode_utf8(bytes@),
{
    String::from_utf8(bytes).ok()
}

/// The name in the field ends at `end`: no byte before it is zero, and it is the place of
/// a zero byte or, in a field without one, the end of the field.
pub open spec fn name_ends_at(field: Seq<u8>, end: int) -> bool {
    &&& 0 <= end <= field.len()
    &&& forall|i: int| 0 <= i < end ==> field[i] != 0
    &&& end < field.len() ==> field[end] == 0
}

/// The bytes of the name: those before the first zero byte of the field, and all of the
/// field where it has none.
pub open spec fn name_bytes(field: Seq<u8>) -> Seq<u8> {
    field.take(choose|end: int| name_ends_at(field, end))
}

/// A name ends in one place only, so the bytes before any such place are the name.
pub proof fn lemma_name_ends_once(field: Seq<u8>, end: int)
    requires
        name_ends_at(field, end),
    ensures
        name_bytes(field) == field.take(end),
{
    let chosen = choose|end: int| name_ends_at(field, end);
    assert(name_ends_at(field, chosen));
    if chosen < end {
        assert(field[chosen] == 0);
    } else if end < chosen {
        assert(field[end] == 0);
    }
}

/// Every field has a place where its name ends: the first place from `from` on that holds
/// a zero byte, or the end of the field.
proof fn lemma_name_ends_somewhere(field: Seq<u8>, from: int) -> (end: int)
    requires
        0 <= from <= field.len(),
        forall|i: int| 0 <= i < from ==> field[i] != 0,
    ensures
        name_ends_at(field, end),
    decreases field.len() - from,
{
    if from == field.len() || field[from] == 0 {
        from
    } else {
        lemma_name_ends_somewhere(field, from + 1)
    }
}

/// The name is the part of the field before its first zero byte: it is a prefix of the
/// field, it holds no zero byte, and what follows it in the field, if anything does, is a
/// zero byte.
pub proof fn lemma_name_is_before_the_first_zero(field: Seq<u8>)
    ensures
        name_ends_at(field, name_bytes(field).len() as int),
        name_bytes(field) == field.take(name_bytes(field).len() as int),
        forall|i: int| 0 <= i < name_bytes(field).len() ==> name_bytes(field)[i] != 0,
{
    let end = lemma_name_ends_somewhere(field, 0);
    lemma_name_ends_once(field, end);
}

/// The line that names a device: its name, then its class in round brackets. There is
/// none where the name is not valid UTF-8.
pub open spec fn description(device_name: Seq<u8>, device_type: i32) -> Option<Seq<char>> {
    if valid_utf8(name_bytes(device_name)) {
        Some(decode_utf8(name_bytes(device_name)) + " ("@ + device_type_text(device_type) + ")"@)
    } else {
        None
    }
}

/// Copies the name out of the field: the bytes before its first zero byte.
fn name_of(field: &Vec<u8>) -> (name: Vec<u8>)
    ensures
        name@ == name_bytes(field@),
{
    let mut end: usize = 0;
    while end < field.len() && field[end] != 0
        invariant
            end <= field.len(),
            forall|i: int| 0 <= i < end ==> field@[i] != 0,
        decreases field.len() - end,
    {
        end += 1;
    }
    let mut name = field.clone();
    name.truncate(end);
    proof {
        lemma_name_ends_once(field@, end as int);
    }
    name
}

/// The family at `index` exists and can do graphics.
pub open spec fn is_graphics_family(families: Seq<QueueFamilyProperties>, index: int) -> bool {
    0 <= index < families.len() && includes(families[index].queue_flags, QUEUE_GRAPHICS)
}

/// `index` is the first family that can do graphics.
pub open spec fn first_graphics_family(families: Seq<QueueFamilyProperties>, index: int) -> bool {
    &&& is_graphics_family(families, index)
    &&& forall|j: int| 0 <= j < index ==> !is_graphics_family(families, j)
}

/// Scans the families in order for the first that can do graphics.
pub fn select_graphics_queue_family(families: &Vec<QueueFamilyProperties>) -> (selected: Option<u32>)
    requires
        families.len() <= u32::MAX,
    ensures
        match selected {
            Some(index) => first_graphics_family(families@, index as int),
            None => forall|j: int| !is_graphics_family(families@, j),
        },
{
    let mut i: usize = 0;
    while i < families.len()
        invariant
            i <= families.len(),
            families.len() <= u32::MAX,
            forall|j: int| 0 <= j < i ==> !is_graphics_family(families@, j),
        decreases families.len() - i,
    {
        if has_flags(families[i].queue_flags, QUEUE_GRAPHICS) {
            return Some(i as u32);
        }
        i += 1;
    }
    None
}

impl<'a> ManagedPhysicalDevice<'a> {
    pub(crate) fn new(instance: &'a ManagedInstance, raw: u64) -> (device: Self)
        ensures
            device@ == (PhysicalDeviceModel { instance: instance@, raw }),
    {
        ManagedPhysicalDevice { instance, raw }
    }

    pub fn get_raw(&self) -> (raw: u64)
        ensures
            raw == self@.raw,
    {
        self.raw
    }

    pub fn instance(&self) -> (instance: &'a ManagedInstance)
        ensures
            instance@ == self@.instance,
    {
        self.instance
    }

    /// The line that names this device, from the properties the driver reports of it: the
    /// name up to the zero byte that ends it, and the class. There is none where the name
    /// is not valid UTF-8; what follows the name in the field plays no part.
    pub fn describe(&self, properties: &PhysicalDeviceProperties) -> (line: Option<String>)
        ensures
            match line {
                Some(text) => description(properties.device_name@, properties.device_type) == Some(
                    text@,
                ),
                None => description(properties.device_name@, properties.device_type) is None,
            },
    {
        match string_from_utf8(name_of(&properties.device_name)) {
            Some(name) => {
                let label = device_type_label(properties.device_type);
                let mut text = name;
                text.append(" (");
                text.append(label.as_str());
                text.append(")");
                Some(text)
            },
            None => None,
        }
    }
}

} // verus!
