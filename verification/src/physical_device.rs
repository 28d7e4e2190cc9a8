//! The choice of the video device to render on.
//!
//! The devices come in as plain values, in the order in which the system
//! reports them. A device is a candidate if it supports the extensions that
//! are needed and has a queue family that can draw to the surface. Among
//! the candidates the kind decides, a discrete card before an integrated
//! one and so on; among equals, the one reported first.

use vstd::prelude::*;

verus! {

/// The kind of a video device.
#[derive(Clone, Copy, Debug, PartialEq, Eq, Structural)]
pub enum DeviceType {
    DiscreteGpu,
    IntegratedGpu,
    VirtualGpu,
    Cpu,
    Other,
    /// A kind that is not known here.
    Unknown,
}

/// What a queue family of a device can do.
#[derive(Clone, Copy, Debug, PartialEq, Eq, Structural)]
pub struct QueueFamily {
    /// It takes graphics commands.
    pub graphics: bool,
    /// It can present to the surface.
    pub surface_support: bool,
}

/// What is read of a video device.
pub struct DeviceInfo {
    /// It supports every extension that is needed.
    pub supports_extensions: bool,
    /// Its queue families, by their index.
    pub queue_families: Vec<QueueFamily>,
    /// Its kind.
    pub device_type: DeviceType,
}

/// The device chosen, and the queue family to use on it.
#[derive(Clone, Copy, Debug, PartialEq, Eq, Structural)]
pub struct Selection {
    /// The place of the device among those reported.
    pub device: usize,
    /// The index of the queue family.
    pub queue_family: u32,
}

impl DeviceType {
    /// The place of the kind in the order of choice; less is better.
    pub open spec fn spec_rank(self) -> u32 {
        match self {
            DeviceType::DiscreteGpu => 0,
            DeviceType::IntegratedGpu => 1,
            DeviceType::VirtualGpu => 2,
            DeviceType::Cpu => 3,
            DeviceType::Other => 4,
            DeviceType::Unknown => 5,
        }
    }

    /// The place of the kind in the order of choice; less is better.
    #[verifier::when_used_as_spec(spec_rank)]
    pub fn rank(self) -> (rank: u32)
        ensures
            rank == self.spec_rank(),
    {
        match self {
            DeviceType::DiscreteGpu => 0,
            DeviceType::IntegratedGpu => 1,
            DeviceType::VirtualGpu => 2,
            DeviceType::Cpu => 3,
            DeviceType::Other => 4,
            DeviceType::Unknown => 5,
        }
    }
}

impl QueueFamily {
    /// Whether the family can draw to the surface.
    pub open spec fn suitable(self) -> bool {
        self.graphics && self.surface_support
    }
}

/// Whether `index` is the first suitable queue family among `families`.
pub open spec fn first_suitable(families: Seq<QueueFamily>, index: int) -> bool {
    &&& 0 <= index < families.len()
    &&& families[index].suitable()
    &&& forall|earlier: int| 0 <= earlier < index ==> !(#[trigger] families[earlier]).suitable()
}

impl DeviceInfo {
    /// Whether the device is a candidate: it supports the extensions and
    /// has a suitable queue family whose index fits in 32 bits.
    pub open spec fn candidate(&self) -> bool {
        self.supports_extensions && exists|index: int|
            #[trigger] first_suitable(self.queue_families@, index) && index <= u32::MAX
    }

    /// The first suitable queue family of the device, if its index fits in
    /// 32 bits.
    pub fn queue_family(&self) -> (found: Option<u32>)
        ensures
            match found {
                Some(index) => first_suitable(self.queue_families@, index as int),
                None => forall|index: int|
                    #[trigger] first_suitable(self.queue_families@, index) ==> index > u32::MAX,
            },
    {
        let mut index: usize = 0;
        while index < self.queue_families.len()
            invariant
                index <= self.queue_families.len(),
                index <= u32::MAX,
                forall|earlier: int|
                    0 <= earlier < index ==> !(#[trigger] self.queue_families[earlier]).suitable(),
            decreases self.queue_families.len() - index,
        {
            let family = &self.queue_families[index];
            if family.graphics && family.surface_support {
                return Some(index as u32);
            }
            if index == u32::MAX as usize {
                assert forall|later: int| #[trigger]
                    first_suitable(self.queue_families@, later) implies later > u32::MAX by {
                    if later <= u32::MAX && first_suitable(self.queue_families@, later) {
                        assert(!self.queue_families[later].suitable());
                    }
                }
                return None;
            }
            index = index + 1;
        }
        assert forall|later: int| #[trigger]
            first_suitable(self.queue_families@, later) implies later > u32::MAX by {
            if first_suitable(self.queue_families@, later) {
                assert(!self.queue_families[later].suitable());
            }
        }
        None
    }
}

/// Whether the device at `chosen` is the one to take among `devices`: a
/// candidate that no candidate beats, and the first of its rank.
pub open spec fn best_candidate(devices: Seq<DeviceInfo>, chosen: int) -> bool {
    &&& 0 <= chosen < devices.len()
    &&& devices[chosen].candidate()
    &&& forall|other: int|
        0 <= other < devices.len() && (#[trigger] devices[other]).candidate()
            ==> devices[chosen].device_type.rank() <= devices[other].device_type.rank()
    &&& forall|earlier: int|
        0 <= earlier < chosen && (#[trigger] devices[earlier]).candidate()
            ==> devices[chosen].device_type.rank() < devices[earlier].device_type.rank()
}

/// Chooses the device to render on, and the queue family to use on it.
/// There is a choice exactly if there is a candidate.
pub fn select_physical_device(devices: &Vec<DeviceInfo>) -> (selected: Option<Selection>)
    ensures
        match selected {
            Some(selection) => {
                &&& best_candidate(devices@, selection.device as int)
                &&& first_suitable(
                    devices[selection.device as int].queue_families@,
                    selection.queue_family as int,
                )
            },
            None => forall|i: int| 0 <= i < devices.len() ==> !(#[trigger] devices[i]).candidate(),
        },
{
    let mut selected: Option<Selection> = None;
    let mut index: usize = 0;
    while index < devices.len()
        invariant
            index <= devices.len(),
            match selected {
                Some(selection) => {
                    &&& selection.device < index
                    &&& best_candidate(devices@.take(index as int), selection.device as int)
                    &&& first_suitable(
                        devices[selection.device as int].queue_families@,
                        selection.queue_family as int,
                    )
                },
                None => forall|i: int| 0 <= i < index ==> !(#[trigger] devices[i]).candidate(),
            },
        decreases devices.len() - index,
    {
        let device = &devices[index];
        let ghost seen = devices@.take(index as int);
        let ghost next = devices@.take(index + 1);
        proof {
            assert forall|i: int| 0 <= i < index implies #[trigger] next[i] == seen[i] by {}
            assert(next[index as int] == devices[index as int]);
        }
        let mut take = false;
        let mut queue_family: u32 = 0;
        if device.supports_extensions {
            match device.queue_family() {
                Some(family) => {
                    let beats = match selected {
                        Some(selection) => device.device_type.rank()
                            < devices[selection.device].device_type.rank(),
                        None => true,
                    };
                    take = beats;
                    queue_family = family;
                    assert(device.candidate());
                },
                None => {
                    assert(!device.candidate());
                },
            }
        }
        if take {
            selected = Some(Selection { device: index, queue_family });
        }
        proof {
            // what was best among the devices seen so far and is not beaten
            // by this one stays best, and every earlier candidate is still
            // among them
            assert forall|i: int| 0 <= i < index implies #[trigger] next[i].candidate()
                == seen[i].candidate() by {}
        }
        index = index + 1;
    }
    proof {
        assert(devices@.take(index as int) =~= devices@);
    }
    selected
}

} // verus!
