//! Device bring-up decisions: physical-device / queue-family selection and
//! the memory-type lookup. The device hands the library plain capability
//! tables; every choice made over them is verified here.

use vstd::prelude::*;

verus! {

use crate::Fatal;

/// Capability bits of one queue family, as the device reports them.
#[derive(Clone, Copy, Debug, PartialEq, Eq, Structural)]
pub struct QueueFamilyCaps {
    /// The family accepts graphics work.
    pub graphics: bool,
    /// The family can present to the target surface.
    pub present: bool,
}

/// A queue family is usable when it supports both graphics and presentation.
pub open spec fn family_suits(caps: QueueFamilyCaps) -> bool {
    caps.graphics && caps.present
}

/// Memory type `j` satisfies the request when the resource allows it
/// (bit `j` of `type_bits`) and its property flags contain all required ones.
pub open spec fn memory_type_suits(flags: Seq<u32>, j: int, type_bits: u32, required: u32) -> bool {
    ((type_bits >> (j as u32)) & 1u32) == 1u32 && (flags[j] & required) == required
}

/// Pure lookup over the device's memory-type table: the first index allowed
/// by `type_bits` whose property flags contain `required`. Failure is fatal:
/// rendering cannot proceed without memory of the required kind.
///
/// The table holds one property-flag word per memory type; the device
/// reports at most 32 types, one per bit of `type_bits`.
pub fn find_memory_type(flags: &Vec<u32>, type_bits: u32, required: u32) -> (r: Result<u32, Fatal>)
    requires
        flags@.len() <= 32,
    ensures
        match r {
            Ok(i) => {
                &&& (i as int) < flags@.len()
                &&& memory_type_suits(flags@, i as int, type_bits, required)
                &&& forall|j: int|
                    0 <= j < i ==> !memory_type_suits(flags@, j, type_bits, required)
            },
            Err(e) => {
                &&& e == Fatal::NoSuitableMemoryType
                &&& forall|j: int|
                    0 <= j < flags@.len() ==> !memory_type_suits(flags@, j, type_bits, required)
            },
        },
{
    let n = flags.len();
    let mut i: usize = 0;
    while i < n
        invariant
            n == flags@.len() <= 32,
            i <= n,
            forall|j: int| 0 <= j < i ==> !memory_type_suits(flags@, j, type_bits, required),
        decreases n - i,
    {
        if ((type_bits >> (i as u32)) & 1u32) == 1u32 && (flags[i] & required) == required {
            return Ok(i as u32);
        }
        i = i + 1;
    }
    Err(Fatal::NoSuitableMemoryType)
}

/// Whether some family of device `d` is usable.
pub open spec fn device_suits(devices: Seq<Vec<QueueFamilyCaps>>, d: int) -> bool {
    exists|q: int| 0 <= q < devices[d]@.len() && family_suits(devices[d]@[q])
}

/// Picks the first physical device exposing a queue family that supports the
/// required capability set, and the first such family on it.
///
/// `devices` holds, per enumerated physical device, the capability bits of
/// each of its queue families. No device at all is `NoDeviceFound`; devices
/// but no usable family is `NoQueueFound`. Both are unrecoverable.
pub fn select_device_queue(devices: &Vec<Vec<QueueFamilyCaps>>) -> (r: Result<(usize, usize), Fatal>)
    ensures
        match r {
            Ok((d, q)) => {
                &&& (d as int) < devices@.len()
                &&& (q as int) < devices@[d as int]@.len()
                &&& family_suits(devices@[d as int]@[q as int])
                &&& forall|j: int|
                    0 <= j < q ==> !family_suits(devices@[d as int]@[j])
                &&& forall|e: int| 0 <= e < d ==> !#[trigger] device_suits(devices@, e)
            },
            Err(Fatal::NoDeviceFound) => devices@.len() == 0,
            Err(Fatal::NoQueueFound) => {
                &&& devices@.len() > 0
                &&& forall|e: int| 0 <= e < devices@.len() ==> !#[trigger] device_suits(devices@, e)
            },
            Err(_) => false,
        },
{
    if devices.len() == 0 {
        return Err(Fatal::NoDeviceFound);
    }
    let nd = devices.len();
    let mut d: usize = 0;
    while d < nd
        invariant
            nd == devices@.len(),
            d <= nd,
            forall|e: int| 0 <= e < d ==> !#[trigger] device_suits(devices@, e),
        decreases nd - d,
    {
        let families = &devices[d];
        let nq = families.len();
        let mut q: usize = 0;
        while q < nq
            invariant
                nd == devices@.len(),
                d < nd,
                nq == families@.len(),
                families@ == devices@[d as int]@,
                q <= nq,
                forall|e: int| 0 <= e < d ==> !#[trigger] device_suits(devices@, e),
                forall|j: int| 0 <= j < q ==> !family_suits(devices@[d as int]@[j]),
            decreases nq - q,
        {
            let caps = families[q];
            if caps.graphics && caps.present {
                return Ok((d, q));
            }
            q = q + 1;
        }
        proof {
            assert(!device_suits(devices@, d as int));
        }
        d = d + 1;
    }
    Err(Fatal::NoQueueFound)
}

} // verus!
