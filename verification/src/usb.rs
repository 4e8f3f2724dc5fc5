//! The device directory: which attached USB devices an operation
//! addresses, and in what order.
//!
//! Enumeration itself is physical I/O and belongs to the caller; it
//! hands this module the identity of every visible device. The rules
//! here pick the targets: keep the devices carrying the supported
//! vendor identity, in enumeration order, narrowed to one physical
//! device when a selector is given. A set-operation is then planned as
//! one control write per target, carrying the same command bytes.

use vstd::prelude::*;

verus! {

/// Vendor identity shared by all supported dongles.
pub const MOONDROP_VID: u16 = 0x2FC6;

/// Product identity of the Moondrop Dawn Pro.
pub const DAWN_PRO_PID: u16 = 0xF06A;

/// The identity of one attached USB device, as enumeration reports it.
#[derive(Debug, Clone, Copy, PartialEq, Eq, Structural)]
pub struct DeviceIdentity {
    pub vendor_id: u16,
    pub product_id: u16,
    pub bus: u8,
    pub address: u8,
}

/// A caller-supplied narrowing of an operation to one physical device,
/// by its bus number and address.
#[derive(Debug, Clone, Copy, PartialEq, Eq, Structural)]
pub struct DeviceSelector {
    pub bus: u8,
    pub address: u8,
}

/// One row of the device listing, ready for presentation.
#[derive(Debug, Clone)]
pub struct DeviceInfo {
    pub name: String,
    pub bus: String,
    pub volume: String,
}

impl DeviceInfo {
    /// Bundle the presentational fields of one listed device.
    pub fn new(name: String, bus: String, volume: String) -> (r: Self)
        ensures
            r.name@ == name@,
            r.bus@ == bus@,
            r.volume@ == volume@,
    {
        Self { name, bus, volume }
    }
}

/// Whether a device carries the supported vendor identity.
pub open spec fn spec_is_moondrop(d: DeviceIdentity) -> bool {
    d.vendor_id == MOONDROP_VID
}

/// Whether the selector, if one was given, picks the device.
pub open spec fn spec_selector_admits(selector: Option<DeviceSelector>, d: DeviceIdentity) -> bool {
    match selector {
        Option::None => true,
        Option::Some(s) => d.bus == s.bus && d.address == s.address,
    }
}

/// Whether an operation run under the given selector addresses the device.
pub open spec fn spec_is_target(selector: Option<DeviceSelector>, d: DeviceIdentity) -> bool {
    spec_is_moondrop(d) && spec_selector_admits(selector, d)
}

/// The devices an operation addresses: those with the supported vendor
/// identity that the selector admits, in enumeration order.
pub open spec fn spec_targets(
    devices: Seq<DeviceIdentity>,
    selector: Option<DeviceSelector>,
) -> Seq<DeviceIdentity>
    decreases devices.len(),
{
    if devices.len() == 0 {
        Seq::empty()
    } else {
        let rest = spec_targets(devices.drop_last(), selector);
        if spec_is_target(selector, devices.last()) {
            rest.push(devices.last())
        } else {
            rest
        }
    }
}

/// Whether a device carries the supported vendor identity.
pub fn is_moondrop(d: &DeviceIdentity) -> (r: bool)
    ensures
        r == spec_is_moondrop(*d),
{
    d.vendor_id == MOONDROP_VID
}

/// Whether the selector, if one was given, picks the device.
pub fn selector_admits(selector: Option<DeviceSelector>, d: &DeviceIdentity) -> (r: bool)
    ensures
        r == spec_selector_admits(selector, *d),
{
    match selector {
        Option::None => true,
        Option::Some(s) => d.bus == s.bus && d.address == s.address,
    }
}

/// The devices an operation addresses, filtered out of the full
/// enumeration in order.
pub fn detect_targets(devices: &Vec<DeviceIdentity>, selector: Option<DeviceSelector>) -> (r: Vec<
    DeviceIdentity,
>)
    ensures
        r@ == spec_targets(devices@, selector),
{
    let mut r: Vec<DeviceIdentity> = Vec::new();
    let mut i: usize = 0;
    while i < devices.len()
        invariant
            i <= devices.len(),
            r@ == spec_targets(devices@.take(i as int), selector),
        decreases devices.len() - i,
    {
        let d = devices[i];
        proof {
            assert(devices@.take(i as int + 1).drop_last() =~= devices@.take(i as int));
            assert(devices@.take(i as int + 1).last() == devices@[i as int]);
        }
        if is_moondrop(&d) && selector_admits(selector, &d) {
            r.push(d);
        }
        i = i + 1;
    }
    proof {
        assert(devices@.take(devices@.len() as int) =~= devices@);
    }
    r
}

/// Every device the directory targets carries the supported vendor
/// identity and passes the selector; filtering admits nothing else.
pub proof fn lemma_targets_are_matched(
    devices: Seq<DeviceIdentity>,
    selector: Option<DeviceSelector>,
)
    ensures
        forall|i: int|
            0 <= i < spec_targets(devices, selector).len() ==> spec_is_target(
                selector,
                #[trigger] spec_targets(devices, selector)[i],
            ),
    decreases devices.len(),
{
    if devices.len() > 0 {
        lemma_targets_are_matched(devices.drop_last(), selector);
        let rest = spec_targets(devices.drop_last(), selector);
        let whole = spec_targets(devices, selector);
        if spec_is_target(selector, devices.last()) {
            assert(whole == rest.push(devices.last()));
            assert forall|i: int| 0 <= i < whole.len() implies spec_is_target(
                selector,
                whole[i],
            ) by {
                if i < rest.len() {
                    assert(whole[i] == rest[i]);
                } else {
                    assert(whole[i] == devices.last());
                }
            }
        }
    }
}

/// An empty enumeration yields an empty target list, not an error.
pub proof fn lemma_targets_of_empty(selector: Option<DeviceSelector>)
    ensures
        spec_targets(Seq::<DeviceIdentity>::empty(), selector) == Seq::<DeviceIdentity>::empty(),
{
}

/// The single device a get-operation addresses: the first enumerated
/// target. `None` is the no-device-found condition, and comes exactly
/// when no attached device passes the vendor filter and the selector.
pub fn first_target(devices: &Vec<DeviceIdentity>, selector: Option<DeviceSelector>) -> (r: Option<
    DeviceIdentity,
>)
    ensures
        r is None <==> spec_targets(devices@, selector).len() == 0,
        spec_targets(devices@, selector).len() > 0 ==> r == Some(
            spec_targets(devices@, selector)[0],
        ),
{
    let targets = detect_targets(devices, selector);
    if targets.len() > 0 {
        Some(targets[0])
    } else {
        None
    }
}

/// One planned control write: the command bytes destined for one
/// targeted device.
#[derive(Debug, Clone)]
pub struct PlannedWrite {
    pub device: DeviceIdentity,
    pub bytes: Vec<u8>,
}

/// An owned copy of a byte sequence.
fn copy_bytes(src: &Vec<u8>) -> (r: Vec<u8>)
    ensures
        r@ == src@,
{
    let mut r: Vec<u8> = Vec::new();
    let mut i: usize = 0;
    while i < src.len()
        invariant
            i <= src.len(),
            r@ == src@.take(i as int),
        decreases src.len() - i,
    {
        r.push(src[i]);
        proof {
            assert(src@.take(i as int + 1) =~= src@.take(i as int).push(src@[i as int]));
        }
        i = i + 1;
    }
    proof {
        assert(src@.take(src@.len() as int) =~= src@);
    }
    r
}

/// Plan a set-operation: one independent write per targeted device, in
/// enumeration order, each carrying exactly the command bytes. With no
/// selector this is a broadcast to every matched device; an empty plan
/// means no device was found.
pub fn plan_broadcast(
    devices: &Vec<DeviceIdentity>,
    selector: Option<DeviceSelector>,
    cmd: &Vec<u8>,
) -> (r: Vec<PlannedWrite>)
    ensures
        r@.len() == spec_targets(devices@, selector).len(),
        forall|i: int|
            0 <= i < r@.len() ==> (#[trigger] r@[i]).device == spec_targets(devices@, selector)[i],
        forall|i: int| 0 <= i < r@.len() ==> (#[trigger] r@[i]).bytes@ == cmd@,
{
    let targets = detect_targets(devices, selector);
    let mut r: Vec<PlannedWrite> = Vec::new();
    let mut i: usize = 0;
    while i < targets.len()
        invariant
            i <= targets.len(),
            targets@ == spec_targets(devices@, selector),
            r@.len() == i,
            forall|j: int| 0 <= j < i ==> (#[trigger] r@[j]).device == targets@[j],
            forall|j: int| 0 <= j < i ==> (#[trigger] r@[j]).bytes@ == cmd@,
        decreases targets.len() - i,
    {
        let bytes = copy_bytes(cmd);
        r.push(PlannedWrite { device: targets[i], bytes });
        i = i + 1;
    }
    r
}

/// The friendly name of a product identity under the supported vendor:
/// the one known model maps to its name, anything else to "Unknown".
pub fn product_name(product_id: u16) -> (r: String)
    ensures
        product_id == DAWN_PRO_PID ==> r@ == "Moondrop Dawn Pro"@,
        product_id != DAWN_PRO_PID ==> r@ == "Unknown"@,
{
    if product_id == DAWN_PRO_PID {
        "Moondrop Dawn Pro".to_owned()
    } else {
        "Unknown".to_owned()
    }
}

} // verus!
