use vstd::prelude::*;

verus! {

/// `ash::vk::Queue`: the handle of a device queue. Carried, never read.
#[verifier::external_type_specification]
#[verifier::external_body]
pub struct ExQueue(ash::vk::Queue);

/// The device type of a discrete GPU.
pub const DISCRETE_GPU: i32 = 2;

/// The queue flag of a family that takes graphics work.
pub const QUEUE_GRAPHICS: u32 = 1;

/// A queue family of a physical device.
#[derive(Debug, PartialEq, Eq)]
pub struct QueueFamily {
    /// The position of the family among the families of its device.
    pub index: u32,
    /// What the family supports, as the bits the device reported.
    pub flags: u32,
    /// The queues taken from the family so far.
    pub queues: Vec<ash::vk::Queue>,
}

/// Whether a device type is that of a discrete GPU.
pub open spec fn discrete(device_type: i32) -> bool {
    device_type == DISCRETE_GPU
}

/// Whether queue flags hold the graphics flag.
pub open spec fn graphics(flags: u32) -> bool {
    flags & QUEUE_GRAPHICS == QUEUE_GRAPHICS
}

/// Compares with `ash::vk::PhysicalDeviceType::DISCRETE_GPU`. A device
/// type wraps its number and compares by it; the number of a discrete GPU
/// is 2.
#[verifier::external_body]
fn is_discrete(device_type: i32) -> (yes: bool)
    ensures
        yes == discrete(device_type),
{
    ash::vk::PhysicalDeviceType::from_raw(device_type)
        == ash::vk::PhysicalDeviceType::DISCRETE_GPU
}

/// `ash::vk::QueueFlags::contains`, asked for
/// `ash::vk::QueueFlags::GRAPHICS`. Queue flags wrap their bits;
/// `contains` says whether every bit of its argument is set; the graphics
/// flag is the lowest bit.
#[verifier::external_body]
fn has_graphics(flags: u32) -> (yes: bool)
    ensures
        yes == graphics(flags),
{
    ash::vk::QueueFlags::from_raw(flags).contains(ash::vk::QueueFlags::GRAPHICS)
}

/// Picks the physical device to render on: the first discrete GPU among
/// devices of these types, in the order they were enumerated; none where
/// there is no discrete GPU.
pub fn pick_physical(device_types: &Vec<i32>) -> (picked: Option<usize>)
    ensures
        match picked {
            Some(i) => {
                &&& i < device_types.len()
                &&& discrete(device_types[i as int])
                &&& forall|j: int| 0 <= j < i ==> !discrete(#[trigger] device_types[j])
            },
            None => forall|j: int|
                0 <= j < device_types.len() ==> !discrete(#[trigger] device_types[j]),
        },
{
    let mut i: usize = 0;
    while i < device_types.len()
        invariant
            0 <= i <= device_types.len(),
            forall|j: int| 0 <= j < i ==> !discrete(#[trigger] device_types[j]),
        decreases device_types.len() - i,
    {
        if is_discrete(device_types[i]) {
            return Some(i);
        }
        i += 1;
    }
    None
}

/// Picks the queue family to submit and present on: the first that takes
/// graphics work, among families with these flags in the order the device
/// reported them; none where no family does. No queue is taken from it
/// yet.
pub fn pick_queue_family(family_flags: &Vec<u32>) -> (picked: Option<QueueFamily>)
    requires
        family_flags.len() <= u32::MAX,
    ensures
        match picked {
            Some(family) => {
                &&& family.index < family_flags.len()
                &&& family.flags == family_flags[family.index as int]
                &&& graphics(family.flags)
                &&& family.queues@ == Seq::<ash::vk::Queue>::empty()
                &&& forall|j: int| 0 <= j < family.index ==> !graphics(#[trigger] family_flags[j])
            },
            None => forall|j: int|
                0 <= j < family_flags.len() ==> !graphics(#[trigger] family_flags[j]),
        },
{
    let mut i: usize = 0;
    while i < family_flags.len()
        invariant
            family_flags.len() <= u32::MAX,
            0 <= i <= family_flags.len(),
            forall|j: int| 0 <= j < i ==> !graphics(#[trigger] family_flags[j]),
        decreases family_flags.len() - i,
    {
        if has_graphics(family_flags[i]) {
            return Some(QueueFamily { index: i as u32, flags: family_flags[i], queues: Vec::new() });
        }
        i += 1;
    }
    None
}

} // verus!
