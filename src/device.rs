use vstd::prelude::*;
use crate::error::BootstrapError;

verus! {

/// The queue-flag bit of graphics capability.
pub const GRAPHICS_BIT: u32 = 1;

/// A queue family with these flags supports graphics operations.
pub open spec fn supports_graphics(flags: u32) -> bool {
    flags & GRAPHICS_BIT != 0
}

/// A device whose queue families have these flags, in order, has a graphics family.
pub open spec fn has_graphics_family(families: Seq<u32>) -> bool {
    exists|i: int| 0 <= i < families.len() && supports_graphics(families[i])
}

/// `i` is the first graphics-capable family.
pub open spec fn is_first_graphics_family(families: Seq<u32>, i: int) -> bool {
    &&& 0 <= i < families.len()
    &&& supports_graphics(families[i])
    &&& forall|k: int| 0 <= k < i ==> !supports_graphics(families[k])
}

/// The reason a device was found unsuitable: what it is missing.
#[derive(Clone, Copy, Debug, PartialEq, Eq)]
pub struct SuitabilityError(pub &'static str);

/// What a device lacks when none of its queue families supports graphics.
pub open spec fn missing_families_text() -> Seq<char> {
    "required queue families"@
}

/// The queue families a device must offer.
#[derive(Clone, Copy, Debug, PartialEq, Eq, Structural)]
pub struct QueueFamilyIndices {
    pub graphics: u32,
}

impl QueueFamilyIndices {
    /// Finds, in a device's queue families given by their flags in the order the
    /// runtime reports them, the first that supports graphics.
    pub fn get(families: &Vec<u32>) -> (r: Result<QueueFamilyIndices, SuitabilityError>)
        requires
            families@.len() <= u32::MAX,
        ensures
            r is Ok <==> has_graphics_family(families@),
            r is Ok ==> is_first_graphics_family(families@, r->Ok_0.graphics as int),
            r is Err ==> r->Err_0.0@ == missing_families_text(),
    {
        let mut i: usize = 0;
        while i < families.len()
            invariant
                i <= families.len(),
                families@.len() <= u32::MAX,
                forall|k: int| 0 <= k < i ==> !supports_graphics(families@[k]),
            decreases families.len() - i,
        {
            if families[i] & GRAPHICS_BIT != 0 {
                return Ok(QueueFamilyIndices { graphics: i as u32 });
            }
            i = i + 1;
        }
        Err(SuitabilityError("required queue families"))
    }
}

/// Checks that a device, given by its queue families' flags, meets the
/// application's requirements.
pub fn check_physical_device(families: &Vec<u32>) -> (r: Result<(), SuitabilityError>)
    requires
        families@.len() <= u32::MAX,
    ensures
        r is Ok <==> has_graphics_family(families@),
        r is Err ==> r->Err_0.0@ == missing_families_text(),
{
    match QueueFamilyIndices::get(families) {
        Ok(_) => Ok(()),
        Err(e) => Err(e),
    }
}

/// The devices, in enumeration order, each given by its queue families' flags.
pub open spec fn devices_view(devices: Seq<Vec<u32>>) -> Seq<Seq<u32>> {
    devices.map_values(|d: Vec<u32>| d@)
}

/// No device of the list has more queue families than a `u32` counts.
pub open spec fn family_counts_fit(devices: Seq<Seq<u32>>) -> bool {
    forall|k: int| 0 <= k < devices.len() ==> devices[k].len() <= u32::MAX
}

/// `i` is the first suitable device of the list.
pub open spec fn is_first_suitable(devices: Seq<Seq<u32>>, i: int) -> bool {
    &&& 0 <= i < devices.len()
    &&& has_graphics_family(devices[i])
    &&& forall|k: int| 0 <= k < i ==> !has_graphics_family(devices[k])
}

/// No device of the list is suitable.
pub open spec fn none_suitable(devices: Seq<Seq<u32>>) -> bool {
    forall|k: int| 0 <= k < devices.len() ==> !has_graphics_family(devices[k])
}

/// The positions `0 .. n`, in order.
pub open spec fn first_positions(n: int) -> Seq<usize> {
    Seq::new(n as nat, |k: int| k as usize)
}

/// The outcome of device selection: the devices skipped, each with the reason,
/// in the order they were examined, and the position of the selected device.
pub struct DeviceSelection {
    pub skipped: Vec<(usize, SuitabilityError)>,
    pub selected: Option<usize>,
}

/// The positions of the skipped devices, in order.
pub open spec fn skipped_positions(s: Seq<(usize, SuitabilityError)>) -> Seq<usize> {
    s.map_values(|p: (usize, SuitabilityError)| p.0)
}

/// `s` is what selection over `devices` reports: the first suitable device is
/// selected, and exactly the devices before it are skipped, each for want of a
/// graphics queue family; with none suitable, all are skipped.
pub open spec fn selection_matches(s: DeviceSelection, devices: Seq<Seq<u32>>) -> bool {
    &&& match s.selected {
        Some(i) => is_first_suitable(devices, i as int),
        None => none_suitable(devices),
    }
    &&& skipped_positions(s.skipped@) == first_positions(
        match s.selected {
            Some(i) => i as int,
            None => devices.len() as int,
        },
    )
    &&& forall|k: int| 0 <= k < s.skipped@.len() ==> (#[trigger] s.skipped@[k]).1.0@ == missing_families_text()
}

impl DeviceSelection {
    /// The selected device, or the error that ends start-up when there is none.
    pub fn outcome(&self) -> (r: Result<usize, BootstrapError>)
        ensures
            r == match self.selected {
                Some(i) => Ok::<usize, BootstrapError>(i),
                None => Err(BootstrapError::NoSuitableDevice),
            },
    {
        match self.selected {
            Some(i) => Ok(i),
            None => Err(BootstrapError::NoSuitableDevice),
        }
    }
}

/// Examines the devices in the order they were enumerated and selects the
/// first suitable one; every device examined before it is skipped.
pub fn pick_physical_device(devices: &Vec<Vec<u32>>) -> (r: DeviceSelection)
    requires
        family_counts_fit(devices_view(devices@)),
    ensures
        selection_matches(r, devices_view(devices@)),
{
    let ghost view = devices_view(devices@);
    let mut skipped: Vec<(usize, SuitabilityError)> = Vec::new();
    let mut i: usize = 0;
    while i < devices.len()
        invariant
            i <= devices.len(),
            view == devices_view(devices@),
            family_counts_fit(view),
            forall|k: int| 0 <= k < i ==> !has_graphics_family(#[trigger] view[k]),
            skipped_positions(skipped@) == first_positions(i as int),
            forall|k: int| 0 <= k < skipped@.len() ==> (#[trigger] skipped@[k]).1.0@ == missing_families_text(),
        decreases devices.len() - i,
    {
        assert(view[i as int] == devices@[i as int]@);
        match check_physical_device(&devices[i]) {
            Ok(()) => {
                return DeviceSelection { skipped, selected: Some(i) };
            },
            Err(e) => {
                let ghost before = skipped@;
                skipped.push((i, e));
                assert(skipped@ == before.push((i, e)));
                assert(skipped_positions(skipped@) =~= skipped_positions(before).push(i));
                assert(skipped_positions(skipped@) =~= first_positions(i + 1));
            },
        }
        i = i + 1;
    }
    DeviceSelection { skipped, selected: None }
}

/// Where no device is suitable, none is selected, every device is skipped once
/// in enumeration order, and the outcome is the no-suitable-device error.
pub proof fn lemma_no_suitable_device_skips_all(s: DeviceSelection, devices: Seq<Seq<u32>>)
    requires
        selection_matches(s, devices),
        none_suitable(devices),
    ensures
        s.selected is None,
        skipped_positions(s.skipped@) == first_positions(devices.len() as int),
        s.skipped@.len() == devices.len(),
{
    if s.selected is Some {
        let i = s.selected->Some_0 as int;
        assert(has_graphics_family(devices[i]));
    }
    assert(skipped_positions(s.skipped@).len() == s.skipped@.len());
}

/// Where some device is suitable, the first suitable one is selected, never a
/// later one, and only the devices before it are skipped.
pub proof fn lemma_first_suitable_selected(s: DeviceSelection, devices: Seq<Seq<u32>>, j: int)
    requires
        selection_matches(s, devices),
        0 <= j < devices.len(),
        has_graphics_family(devices[j]),
    ensures
        s.selected is Some,
        s.selected->Some_0 <= j,
        is_first_suitable(devices, s.selected->Some_0 as int),
        s.skipped@.len() == s.selected->Some_0,
{
    assert(skipped_positions(s.skipped@).len() == s.skipped@.len());
}

} // verus!
