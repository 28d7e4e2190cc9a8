//! The choice of the kind of memory to allocate from.

use vstd::prelude::*;

verus! {

/// The largest number of memory types that a device reports.
pub const MAX_MEMORY_TYPES: u32 = 32;

/// Whether the memory type with the number `index` will do: the filter
/// admits it, and it has every property that is required. `memory_types`
/// holds the properties of each memory type as a mask.
pub open spec fn suits(
    type_filter: u32,
    required: u32,
    memory_types: Seq<u32>,
    index: int,
) -> bool {
    &&& 0 <= index < memory_types.len()
    &&& index < MAX_MEMORY_TYPES
    &&& type_filter & (1u32 << (index as u32)) != 0
    &&& memory_types[index] & required == required
}

/// The first memory type that the filter admits and that has the required
/// properties, if there is one.
pub fn find_memory_type(type_filter: u32, required: u32, memory_types: &Vec<u32>) -> (found: Option<
    u32,
>)
    ensures
        match found {
            Some(index) => {
                &&& suits(type_filter, required, memory_types@, index as int)
                &&& forall|earlier: int|
                    0 <= earlier < index ==> !suits(type_filter, required, memory_types@, earlier)
            },
            None => forall|index: int| !suits(type_filter, required, memory_types@, index),
        },
{
    let mut index: u32 = 0;
    while index < MAX_MEMORY_TYPES && (index as usize) < memory_types.len()
        invariant
            index <= MAX_MEMORY_TYPES,
            index <= memory_types.len(),
            forall|earlier: int|
                0 <= earlier < index ==> !suits(type_filter, required, memory_types@, earlier),
        decreases MAX_MEMORY_TYPES - index,
    {
        let admitted = type_filter & (1u32 << index) != 0;
        let has_properties = memory_types[index as usize] & required == required;
        if admitted && has_properties {
            return Some(index);
        }
        index = index + 1;
    }
    None
}

} // verus!
