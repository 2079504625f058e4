use vstd::prelude::*;

verus! {

/// The names in a list of strings, as character sequences.
pub open spec fn names_of(v: Seq<String>) -> Seq<Seq<char>> {
    v.map_values(|s: String| s@)
}

pub open spec fn validation_layer_name() -> Seq<char> {
    "VK_LAYER_KHRONOS_validation"@
}

pub open spec fn debug_utils_name() -> Seq<char> {
    "VK_EXT_debug_utils"@
}

pub open spec fn properties2_name() -> Seq<char> {
    "VK_KHR_get_physical_device_properties2"@
}

pub open spec fn portability_enumeration_name() -> Seq<char> {
    "VK_KHR_portability_enumeration"@
}

/// The Khronos validation layer.
pub fn validation_layer() -> (r: String)
    ensures
        r@ == validation_layer_name(),
{
    "VK_LAYER_KHRONOS_validation".to_owned()
}

/// The extension that delivers diagnostics to a debug messenger.
pub fn debug_utils_extension() -> (r: String)
    ensures
        r@ == debug_utils_name(),
{
    "VK_EXT_debug_utils".to_owned()
}

/// The first of the two portability extensions.
pub fn properties2_extension() -> (r: String)
    ensures
        r@ == properties2_name(),
{
    "VK_KHR_get_physical_device_properties2".to_owned()
}

/// The second of the two portability extensions.
pub fn portability_enumeration_extension() -> (r: String)
    ensures
        r@ == portability_enumeration_name(),
{
    "VK_KHR_portability_enumeration".to_owned()
}

/// Whether `name` occurs in `list`.
pub fn contains_name(list: &Vec<String>, name: &String) -> (r: bool)
    ensures
        r == names_of(list@).contains(name@),
{
    let mut i: usize = 0;
    while i < list.len()
        invariant
            i <= list.len(),
            forall|k: int| 0 <= k < i ==> list@[k]@ != name@,
        decreases list.len() - i,
    {
        if list[i] == *name {
            assert(names_of(list@)[i as int] == name@);
            return true;
        }
        i = i + 1;
    }
    assert forall|k: int| 0 <= k < names_of(list@).len() implies names_of(list@)[k] != name@ by {}
    false
}

} // verus!
