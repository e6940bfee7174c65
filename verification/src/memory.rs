//! The choice of a memory type for an image.
use vstd::prelude::*;
use crate::flags::{has_flags, includes, strictly_includes};

verus! {

/// One memory type of a physical device.
#[derive(Clone, Copy, Debug, PartialEq, Eq, Structural)]
pub struct MemoryType {
    pub property_flags: u32,
    pub heap_index: u32,
}

/// What an image needs of the memory that backs it.
#[derive(Clone, Copy, Debug, PartialEq, Eq, Structural)]
pub struct MemoryRequirements {
    pub size: u64,
    pub alignment: u64,
    /// Bit `i` is set where the memory type at index `i` may back the image.
    pub memory_type_bits: u32,
}

/// What the driver is asked for when memory is allocated.
#[derive(Clone, Copy, Debug, PartialEq, Eq, Structural)]
pub struct MemoryAllocateInfo {
    pub device: u64,
    pub allocation_size: u64,
    pub memory_type_index: u32,
}

/// The mask allows the memory type at `index`.
pub open spec fn type_allowed(memory_type_bits: u32, index: int) -> bool {
    0 <= index < 32 && (memory_type_bits >> (index as u32)) & 1 == 1
}

/// The memory type at `index` exists, is allowed by the mask, and has every required
/// property.
pub open spec fn suitable(
    memory_types: Seq<MemoryType>,
    memory_type_bits: u32,
    required: u32,
    index: int,
) -> bool {
    &&& 0 <= index < memory_types.len()
    &&& type_allowed(memory_type_bits, index)
    &&& includes(memory_types[index].property_flags, required)
}

/// `index` is the lowest index of a suitable memory type.
pub open spec fn first_suitable(
    memory_types: Seq<MemoryType>,
    memory_type_bits: u32,
    required: u32,
    index: int,
) -> bool {
    &&& suitable(memory_types, memory_type_bits, required, index)
    &&& forall|j: int| 0 <= j < index ==> !suitable(memory_types, memory_type_bits, required, j)
}

/// No memory type is suitable.
pub open spec fn none_suitable(memory_types: Seq<MemoryType>, memory_type_bits: u32, required: u32) -> bool {
    forall|j: int| !suitable(memory_types, memory_type_bits, required, j)
}

/// The lowest-indexed memory type that the mask allows and that has every required
/// property, if there is one.
pub fn find_memory_type(memory_types: &Vec<MemoryType>, memory_type_bits: u32, required: u32) -> (found:
    Option<u32>)
    ensures
        match found {
            Some(index) => first_suitable(memory_types@, memory_type_bits, required, index as int),
            None => none_suitable(memory_types@, memory_type_bits, required),
        },
{
    let mut i: u32 = 0;
    while i < 32 && (i as usize) < memory_types.len()
        invariant
            i <= 32,
            forall|j: int| 0 <= j < i ==> !suitable(memory_types@, memory_type_bits, required, j),
        decreases 32 - i,
    {
        let memory_type = memory_types[i as usize];
        if (memory_type_bits >> i) & 1 == 1 && has_flags(memory_type.property_flags, required) {
            return Some(i);
        }
        i += 1;
    }
    None
}

/// The memory type that is chosen is one the device enumerates and the mask allows, and its
/// property flags hold every requested flag; no type before it does all of this.
pub proof fn lemma_chosen_type_has_requested_properties(
    memory_types: Seq<MemoryType>,
    memory_type_bits: u32,
    required: u32,
    index: int,
)
    requires
        first_suitable(memory_types, memory_type_bits, required, index),
    ensures
        0 <= index < memory_types.len(),
        index < 32,
        memory_types[index].property_flags & required == required,
        forall|j: int|
            0 <= j < index && type_allowed(memory_type_bits, j) ==> (#[trigger] memory_types[j]).property_flags
                & required != required,
{
    assert forall|j: int| 0 <= j < index && type_allowed(memory_type_bits, j) implies (#[trigger] memory_types[j]).property_flags
        & required != required by {
        assert(!suitable(memory_types, memory_type_bits, required, j));
    }
}

/// Where the chosen type's flags are not the requested flags themselves, they are a strict
/// superset of them.
pub proof fn lemma_chosen_type_has_more_than_requested(
    memory_types: Seq<MemoryType>,
    memory_type_bits: u32,
    required: u32,
    index: int,
)
    requires
        first_suitable(memory_types, memory_type_bits, required, index),
        memory_types[index].property_flags != required,
    ensures
        strictly_includes(memory_types[index].property_flags, required),
        memory_types[index].property_flags & !required != 0,
{
    let flags = memory_types[index].property_flags;
    assert(flags & required == required && flags != required ==> flags & !required != 0) by (bit_vector);
}

} // verus!
