//! Physical-device selection and queue-family resolution.
//!
//! Both run on plain values that the foreign-API layer reads off the
//! driver for each device: the device kind reported per physical device,
//! and per queue family the capability bits plus whether the surface
//! reports presentation support for that family.

use vstd::prelude::*;
use crate::error::BackendError;

verus! {

/// The kind a physical device reports itself as.
#[derive(Clone, Copy, Debug, PartialEq, Eq, Structural)]
pub enum PhysicalDeviceKind {
    Other,
    IntegratedGpu,
    DiscreteGpu,
    VirtualGpu,
    Cpu,
}

/// Whether some device in the enumeration is a discrete GPU.
pub open spec fn has_discrete(kinds: Seq<PhysicalDeviceKind>) -> bool {
    exists|i: int| 0 <= i < kinds.len() && kinds[i] is DiscreteGpu
}

/// What a successful selection must return: the index of the last
/// discrete GPU in enumeration order.
pub open spec fn selected_device_ok(kinds: Seq<PhysicalDeviceKind>, i: int) -> bool {
    &&& 0 <= i < kinds.len()
    &&& kinds[i] is DiscreteGpu
    &&& forall|j: int| i < j < kinds.len() ==> !(kinds[j] is DiscreteGpu)
}

/// Select the physical device to build the logical device on.
///
/// Policy: only a discrete GPU is acceptable, and of several the last one
/// in enumeration order wins (no further scoring). Integrated, virtual,
/// CPU and other devices are never selected, so a list without a discrete
/// GPU fails with `NoSuitableDevice`.
pub fn get_physical_device(kinds: &Vec<PhysicalDeviceKind>) -> (r: Result<usize, BackendError>)
    ensures
        match r {
            Ok(i) => selected_device_ok(kinds@, i as int),
            Err(e) => e == BackendError::NoSuitableDevice && !has_discrete(kinds@),
        },
{
    let mut chosen: Option<usize> = None;
    let mut idx: usize = 0;
    while idx < kinds.len()
        invariant
            idx <= kinds@.len(),
            match chosen {
                Some(i) => selected_device_ok(kinds@.take(idx as int), i as int),
                None => !has_discrete(kinds@.take(idx as int)),
            },
        decreases kinds@.len() - idx,
    {
        if kinds[idx] == PhysicalDeviceKind::DiscreteGpu {
            chosen = Some(idx);
        }
        proof {
            assert(kinds@.take(idx + 1).drop_last() =~= kinds@.take(idx as int));
        }
        idx = idx + 1;
    }
    proof {
        assert(kinds@.take(kinds@.len() as int) =~= kinds@);
    }
    match chosen {
        Some(i) => Ok(i),
        None => Err(BackendError::NoSuitableDevice),
    }
}

/// Law: over a device list with exactly one discrete GPU (whatever mix of
/// other kinds surrounds it), selection can only return that GPU's index.
pub proof fn lemma_unique_discrete_selected(kinds: Seq<PhysicalDeviceKind>, i: int, d: int)
    requires
        selected_device_ok(kinds, i),
        0 <= d < kinds.len(),
        kinds[d] is DiscreteGpu,
        forall|j: int| 0 <= j < kinds.len() && j != d ==> !(kinds[j] is DiscreteGpu),
    ensures
        i == d,
{
}

/// The capability summary of one queue family, as reported for the chosen
/// device: its graphics and transfer capability bits, and whether the
/// surface reports presentation support on that family.
#[derive(Clone, Copy, Debug, PartialEq, Eq, Structural)]
pub struct QueueFamilyProps {
    pub supports_graphics: bool,
    pub supports_transfer: bool,
    pub supports_present: bool,
}

/// A family fit for the dedicated transfer queue: transfer-capable but
/// not graphics-capable.
pub open spec fn is_dedicated_transfer(f: QueueFamilyProps) -> bool {
    f.supports_transfer && !f.supports_graphics
}

/// The three queue families a working configuration needs. Graphics and
/// transfer never coincide (transfer is forced onto a dedicated family);
/// presentation may coincide with either.
#[derive(Clone, Copy, Debug, PartialEq, Eq, Structural)]
pub struct QueueFamilyIndices {
    pub graphics: u32,
    pub transfer: u32,
    pub presentation: u32,
}

/// What a successful resolution must return: for each role, the first
/// family in reported order that fits it.
pub open spec fn resolution_ok(families: Seq<QueueFamilyProps>, q: QueueFamilyIndices) -> bool {
    &&& q.graphics < families.len()
    &&& families[q.graphics as int].supports_graphics
    &&& forall|j: int| 0 <= j < q.graphics ==> !families[j].supports_graphics
    &&& q.transfer < families.len()
    &&& is_dedicated_transfer(families[q.transfer as int])
    &&& forall|j: int| 0 <= j < q.transfer ==> !is_dedicated_transfer(families[j])
    &&& q.presentation < families.len()
    &&& families[q.presentation as int].supports_present
    &&& forall|j: int| 0 <= j < q.presentation ==> !families[j].supports_present
}

/// Whether every role can be filled at all.
pub open spec fn resolvable(families: Seq<QueueFamilyProps>) -> bool {
    &&& exists|i: int| 0 <= i < families.len() && families[i].supports_graphics
    &&& exists|i: int| 0 <= i < families.len() && is_dedicated_transfer(families[i])
    &&& exists|i: int| 0 <= i < families.len() && families[i].supports_present
}

impl QueueFamilyIndices {
    /// Resolve the graphics, transfer and presentation families against
    /// the reported family list.
    ///
    /// Graphics takes the first graphics-capable family; transfer takes
    /// the first family that is transfer-capable but not graphics-capable
    /// (a dedicated transfer queue, a deliberate policy); presentation
    /// takes the first family the surface supports. If any role cannot be
    /// filled, resolution fails with `QueueResolution`.
    pub fn get(families: &Vec<QueueFamilyProps>) -> (r: Result<QueueFamilyIndices, BackendError>)
        requires
            families@.len() <= u32::MAX,
        ensures
            match r {
                Ok(q) => resolution_ok(families@, q),
                Err(e) => e == BackendError::QueueResolution && !resolvable(families@),
            },
    {
        let mut graphics: Option<u32> = None;
        let mut transfer: Option<u32> = None;
        let mut presentation: Option<u32> = None;
        let mut idx: usize = 0;
        while idx < families.len()
            invariant
                idx <= families@.len(),
                families@.len() <= u32::MAX,
                match graphics {
                    Some(g) => g < idx && families@[g as int].supports_graphics
                        && forall|j: int| 0 <= j < g ==> !families@[j].supports_graphics,
                    None => forall|j: int| 0 <= j < idx ==> !families@[j].supports_graphics,
                },
                match transfer {
                    Some(t) => t < idx && is_dedicated_transfer(families@[t as int])
                        && forall|j: int| 0 <= j < t ==> !is_dedicated_transfer(families@[j]),
                    None => forall|j: int| 0 <= j < idx ==> !is_dedicated_transfer(families@[j]),
                },
                match presentation {
                    Some(p) => p < idx && families@[p as int].supports_present
                        && forall|j: int| 0 <= j < p ==> !families@[j].supports_present,
                    None => forall|j: int| 0 <= j < idx ==> !families@[j].supports_present,
                },
            decreases families@.len() - idx,
        {
            let f = families[idx];
            if graphics.is_none() && f.supports_graphics {
                graphics = Some(idx as u32);
            }
            if transfer.is_none() && f.supports_transfer && !f.supports_graphics {
                transfer = Some(idx as u32);
            }
            if presentation.is_none() && f.supports_present {
                presentation = Some(idx as u32);
            }
            idx = idx + 1;
        }
        match (graphics, transfer, presentation) {
            (Some(graphics), Some(transfer), Some(presentation)) => {
                Ok(QueueFamilyIndices { graphics, transfer, presentation })
            },
            _ => Err(BackendError::QueueResolution),
        }
    }
}

/// Law: whenever queue resolution succeeds, the transfer role sits on a
/// family with no graphics capability, even if an earlier family
/// advertises both graphics and transfer.
pub proof fn lemma_transfer_family_dedicated(families: Seq<QueueFamilyProps>, q: QueueFamilyIndices)
    requires
        resolution_ok(families, q),
    ensures
        families[q.transfer as int].supports_transfer,
        !families[q.transfer as int].supports_graphics,
        q.transfer != q.graphics,
{
}

/// The distinct family indices the logical device must open a queue on:
/// graphics, then transfer if it differs, then presentation if it differs
/// from both. One queue is requested per distinct family.
pub open spec fn device_queue_families(q: QueueFamilyIndices) -> Seq<u32> {
    let base = if q.transfer != q.graphics {
        seq![q.graphics, q.transfer]
    } else {
        seq![q.graphics]
    };
    if q.presentation != q.graphics && q.presentation != q.transfer {
        base.push(q.presentation)
    } else {
        base
    }
}

/// List the distinct queue-family indices to request queues on when
/// creating the logical device.
pub fn distinct_queue_families(q: &QueueFamilyIndices) -> (r: Vec<u32>)
    ensures
        r@ == device_queue_families(*q),
{
    let mut r: Vec<u32> = Vec::new();
    r.push(q.graphics);
    if q.transfer != q.graphics {
        r.push(q.transfer);
    }
    if q.presentation != q.graphics && q.presentation != q.transfer {
        r.push(q.presentation);
    }
    proof {
        assert(r@ =~= device_queue_families(*q));
    }
    r
}

/// Law: the requested family list covers all three resolved roles and
/// holds no duplicate family index.
pub proof fn lemma_device_queue_families_distinct(q: QueueFamilyIndices)
    ensures
        device_queue_families(q).contains(q.graphics),
        device_queue_families(q).contains(q.transfer),
        device_queue_families(q).contains(q.presentation),
        forall|a: int, b: int|
            0 <= a < b < device_queue_families(q).len()
                ==> device_queue_families(q)[a] != device_queue_families(q)[b],
{
    let s = device_queue_families(q);
    assert(s[0] == q.graphics);
    assert(s.contains(q.graphics));
    if q.transfer != q.graphics {
        assert(s[1] == q.transfer);
        assert(s.contains(q.transfer));
    }
    if q.presentation != q.graphics && q.presentation != q.transfer {
        assert(s[s.len() - 1] == q.presentation);
        assert(s.contains(q.presentation));
    }
}

} // verus!
