use vstd::prelude::*;

verus! {

/// A Vulkan API version.
#[derive(Clone, Copy, Debug, PartialEq, Eq, Structural)]
pub struct ApiVersion {
    pub major: u32,
    pub minor: u32,
    pub patch: u32,
}

/// The kind of a physical device.
#[derive(Clone, Copy, Debug, PartialEq, Eq, Structural)]
pub enum DeviceKind {
    DiscreteGpu,
    IntegratedGpu,
    VirtualGpu,
    Cpu,
    Other,
}

/// What selection reads of one queue family.
#[derive(Clone, Copy, Debug, PartialEq, Eq, Structural)]
pub struct QueueFamily {
    /// The family takes graphics work.
    pub graphics: bool,
    /// The family can present to the window's surface.
    pub presents: bool,
}

/// What selection reads of one physical device.
#[derive(Debug)]
pub struct DeviceCandidate {
    pub api_version: ApiVersion,
    /// The device supports every extension the renderer enables.
    pub has_required_extensions: bool,
    pub kind: DeviceKind,
    pub queue_families: Vec<QueueFamily>,
}

/// The oldest API version the renderer accepts: 1.3.
pub open spec fn meets_min_version(v: ApiVersion) -> bool {
    v.major > 1 || (v.major == 1 && v.minor >= 3)
}

pub open spec fn usable_family(f: QueueFamily) -> bool {
    f.graphics && f.presents
}

/// `q` is the first family of `fams` that takes graphics work and presents.
pub open spec fn is_first_usable(fams: Seq<QueueFamily>, q: int) -> bool {
    &&& 0 <= q < fams.len()
    &&& usable_family(fams[q])
    &&& forall|j: int| 0 <= j < q ==> !usable_family(#[trigger] fams[j])
}

pub open spec fn eligible(c: DeviceCandidate) -> bool {
    &&& meets_min_version(c.api_version)
    &&& c.has_required_extensions
    &&& exists|j: int| 0 <= j < c.queue_families@.len() && usable_family(#[trigger] c.queue_families@[j])
}

/// The order in which kinds are preferred: the greatest rank wins.
pub open spec fn kind_rank(k: DeviceKind) -> u8 {
    match k {
        DeviceKind::DiscreteGpu => 0,
        DeviceKind::IntegratedGpu => 1,
        DeviceKind::VirtualGpu => 2,
        DeviceKind::Cpu => 3,
        DeviceKind::Other => 4,
    }
}

fn rank_of(k: DeviceKind) -> (r: u8)
    ensures
        r == kind_rank(k),
{
    match k {
        DeviceKind::DiscreteGpu => 0,
        DeviceKind::IntegratedGpu => 1,
        DeviceKind::VirtualGpu => 2,
        DeviceKind::Cpu => 3,
        DeviceKind::Other => 4,
    }
}

/// The first queue family that takes graphics work and presents, if any.
pub fn first_usable_family(fams: &Vec<QueueFamily>) -> (r: Option<usize>)
    ensures
        r matches Some(q) ==> is_first_usable(fams@, q as int),
        r is None ==> forall|j: int| 0 <= j < fams@.len() ==> !usable_family(#[trigger] fams@[j]),
{
    let mut i: usize = 0;
    while i < fams.len()
        invariant
            i <= fams@.len(),
            forall|j: int| 0 <= j < i ==> !usable_family(#[trigger] fams@[j]),
        decreases fams@.len() - i,
    {
        if fams[i].graphics && fams[i].presents {
            return Some(i);
        }
        i = i + 1;
    }
    None
}

/// Picks the device to render with and its queue family. Among the devices
/// that support API 1.3 and the required extensions and have a queue family
/// that takes graphics work and presents, it takes one of greatest
/// `kind_rank`, the last such one on a tie, with its first such family.
/// `None` when no device qualifies.
pub fn select_physical_device(candidates: &Vec<DeviceCandidate>) -> (r: Option<(usize, usize)>)
    ensures
        r is None <==> forall|d: int| 0 <= d < candidates@.len() ==> !eligible(#[trigger] candidates@[d]),
        r matches Some((d, q)) ==> {
            &&& d < candidates@.len()
            &&& eligible(candidates@[d as int])
            &&& is_first_usable(candidates@[d as int].queue_families@, q as int)
            &&& forall|e: int| 0 <= e < candidates@.len() && eligible(#[trigger] candidates@[e])
                ==> kind_rank(candidates@[e].kind) <= kind_rank(candidates@[d as int].kind)
            &&& forall|e: int| d < e < candidates@.len() && eligible(#[trigger] candidates@[e])
                ==> kind_rank(candidates@[e].kind) < kind_rank(candidates@[d as int].kind)
        },
{
    let mut best: Option<(usize, usize)> = None;
    let mut best_rank: u8 = 0;
    let mut i: usize = 0;
    while i < candidates.len()
        invariant
            i <= candidates@.len(),
            best is None ==> forall|d: int| 0 <= d < i ==> !eligible(#[trigger] candidates@[d]),
            best matches Some((d, q)) ==> {
                &&& d < i
                &&& eligible(candidates@[d as int])
                &&& is_first_usable(candidates@[d as int].queue_families@, q as int)
                &&& best_rank == kind_rank(candidates@[d as int].kind)
                &&& forall|e: int| 0 <= e < i && eligible(#[trigger] candidates@[e])
                    ==> kind_rank(candidates@[e].kind) <= best_rank
                &&& forall|e: int| d < e < i && eligible(#[trigger] candidates@[e])
                    ==> kind_rank(candidates@[e].kind) < best_rank
            },
        decreases candidates@.len() - i,
    {
        let c = &candidates[i];
        let v = c.api_version;
        let recent = v.major > 1 || (v.major == 1 && v.minor >= 3);
        if recent && c.has_required_extensions {
            match first_usable_family(&c.queue_families) {
                Some(q) => {
                    let rank = rank_of(c.kind);
                    let replace = match best {
                        None => true,
                        Some(_) => rank >= best_rank,
                    };
                    if replace {
                        best = Some((i, q));
                        best_rank = rank;
                    }
                },
                None => {},
            }
        }
        i = i + 1;
    }
    best
}

} // verus!
