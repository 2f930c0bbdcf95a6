use vstd::prelude::*;
use crate::error::GpuError;

verus! {

/// The operation classes a queue family may declare.
#[derive(Clone, Copy, Debug, PartialEq, Eq, Structural)]
pub struct Capabilities {
    pub transfer: bool,
    pub compute: bool,
    pub graphics: bool,
}

impl Capabilities {
    /// Every class in `req` is also declared here.
    pub open spec fn covers(self, req: Capabilities) -> bool {
        &&& (req.transfer ==> self.transfer)
        &&& (req.compute ==> self.compute)
        &&& (req.graphics ==> self.graphics)
    }

    pub fn supports(&self, req: &Capabilities) -> (r: bool)
        ensures
            r == self.covers(*req),
    {
        (!req.transfer || self.transfer) && (!req.compute || self.compute) && (!req.graphics
            || self.graphics)
    }
}

/// What enumeration reports of one physical device: the capabilities of each
/// of its queue families, in order.
#[derive(Debug)]
pub struct PhysicalDeviceInfo {
    pub families: Vec<Capabilities>,
}

/// Queue priority of the single queue, in percent of the full scale.
pub const QUEUE_PRIORITY_PERCENT: u8 = 50;

/// A selected device and queue family, with the one queue created on it.
#[derive(Clone, Copy, Debug, PartialEq, Eq, Structural)]
pub struct Context {
    pub device_index: usize,
    pub queue_family: usize,
    pub capabilities: Capabilities,
    pub queue_priority_percent: u8,
}

/// Family `f` of `fams` exists and covers `req`.
pub open spec fn family_fits(fams: Seq<Capabilities>, f: int, req: Capabilities) -> bool {
    0 <= f < fams.len() && fams[f].covers(req)
}

pub open spec fn device_fits(dev: PhysicalDeviceInfo, req: Capabilities) -> bool {
    exists|f: int| family_fits(dev.families@, f, req)
}

pub open spec fn any_device_fits(devs: Seq<PhysicalDeviceInfo>, req: Capabilities) -> bool {
    exists|d: int| 0 <= d < devs.len() && device_fits(#[trigger] devs[d], req)
}

/// `(d, f)` is the first device that has a fitting family, and its first such family.
pub open spec fn first_choice(
    devs: Seq<PhysicalDeviceInfo>,
    req: Capabilities,
    d: int,
    f: int,
) -> bool {
    &&& 0 <= d < devs.len()
    &&& family_fits(devs[d].families@, f, req)
    &&& forall|d2: int| 0 <= d2 < d ==> !device_fits(#[trigger] devs[d2], req)
    &&& forall|f2: int| 0 <= f2 < f ==> !family_fits(devs[d].families@, f2, req)
}

fn first_family(fams: &Vec<Capabilities>, req: &Capabilities) -> (r: Option<usize>)
    ensures
        match r {
            Some(f) => family_fits(fams@, f as int, *req) && forall|f2: int|
                0 <= f2 < f ==> !family_fits(fams@, f2, *req),
            None => forall|f2: int| !family_fits(fams@, f2, *req),
        },
{
    let mut i: usize = 0;
    while i < fams.len()
        invariant
            i <= fams@.len(),
            forall|f2: int| 0 <= f2 < i ==> !family_fits(fams@, f2, *req),
        decreases fams@.len() - i,
    {
        if fams[i].supports(req) {
            return Some(i);
        }
        i = i + 1;
    }
    None
}

/// Picks the first device exposing a queue family whose capabilities cover
/// `required`, and that device's first such family. No device is created
/// unless a fitting family exists.
pub fn acquire(devices: &Vec<PhysicalDeviceInfo>, required: Capabilities) -> (r: Result<
    Context,
    GpuError,
>)
    ensures
        (r == Err::<Context, GpuError>(GpuError::NoDeviceAvailable)) <==> devices@.len() == 0,
        (r == Err::<Context, GpuError>(GpuError::NoSuitableQueueFamily)) <==> (devices@.len() > 0
            && !any_device_fits(devices@, required)),
        match r {
            Ok(ctx) => {
                &&& first_choice(devices@, required, ctx.device_index as int, ctx.queue_family as int)
                &&& ctx.capabilities == devices@[ctx.device_index as int].families@[ctx.queue_family as int]
                &&& ctx.queue_priority_percent == QUEUE_PRIORITY_PERCENT
            },
            Err(e) => e == GpuError::NoDeviceAvailable || e == GpuError::NoSuitableQueueFamily,
        },
{
    if devices.len() == 0 {
        return Err(GpuError::NoDeviceAvailable);
    }
    let mut d: usize = 0;
    while d < devices.len()
        invariant
            d <= devices@.len(),
            forall|d2: int| 0 <= d2 < d ==> !device_fits(#[trigger] devices@[d2], required),
        decreases devices@.len() - d,
    {
        match first_family(&devices[d].families, &required) {
            Some(f) => {
                return Ok(
                    Context {
                        device_index: d,
                        queue_family: f,
                        capabilities: devices[d].families[f],
                        queue_priority_percent: QUEUE_PRIORITY_PERCENT,
                    },
                );
            },
            None => {},
        }
        d = d + 1;
    }
    Err(GpuError::NoSuitableQueueFamily)
}

} // verus!
