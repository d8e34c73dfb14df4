//! Device locator: filter the attached HID interfaces down to supported mice
//! and pick exactly one by a deterministic tie-break.
//!
//! The embedding application enumerates the OS HID subsystem and hands the
//! plain identity of each interface to `select_device`; the selection logic
//! itself is pure.  A candidate matches when its vendor id is the fixed
//! vendor constant, its product id is in the registry, and it exposes the
//! feature-report interface.  Among matches, wired mice win over wireless
//! ones, then the lower product id wins; repeated calls under unchanged
//! hardware therefore always resolve to the same device.

use vstd::prelude::*;
use crate::registry;
use crate::registry::MouseConfig;

verus! {

/// The USB interface number of the vendor control endpoint this device
/// family answers feature reports on; other interfaces on the same physical
/// mouse must be excluded.
pub const FEATURE_INTERFACE: i32 = 2;

/// Plain identity of one attached HID interface, as the OS reports it.
#[derive(Debug, Clone, Copy, PartialEq, Eq, Hash)]
pub struct DeviceEntry {
    pub vendor_id: u16,
    pub product_id: u16,
    pub interface_number: i32,
}

/// Whether an attached interface is a queryable supported mouse.
pub open spec fn entry_is_match(e: DeviceEntry) -> bool {
    &&& e.vendor_id == registry::VENDOR_ID
    &&& registry::is_supported_pid(e.product_id)
    &&& e.interface_number == FEATURE_INTERFACE
}

/// Tie-break class of a product id: wired mice first, wireless after,
/// unrecognized ids last.
pub open spec fn spec_wired_rank(pid: u16) -> int {
    if registry::is_supported_pid(pid) {
        if registry::spec_is_wired(registry::config_index_of(pid)) {
            0
        } else {
            1
        }
    } else {
        2
    }
}

/// Total tie-break rank of an entry: wired class first, then product id.
pub open spec fn spec_rank(e: DeviceEntry) -> int {
    spec_wired_rank(e.product_id) * 0x10000 + e.product_id
}

/// Index selected from a device list: the first entry of minimal rank among
/// the matches, or `None` when nothing matches.
pub open spec fn spec_selected(s: Seq<DeviceEntry>) -> Option<int>
    decreases s.len(),
{
    if s.len() == 0 {
        None
    } else {
        let prev = spec_selected(s.drop_last());
        let last = s.len() - 1;
        if !entry_is_match(s.last()) {
            prev
        } else {
            match prev {
                None => Some(last as int),
                Some(i) => if spec_rank(s[i]) <= spec_rank(s.last()) {
                    Some(i)
                } else {
                    Some(last as int)
                },
            }
        }
    }
}

/// What `spec_selected` picks: a match of minimal rank, and the first such
/// match in list order.
pub proof fn lemma_selected_properties(s: Seq<DeviceEntry>)
    ensures
        spec_selected(s) is None ==> forall|k: int| 0 <= k < s.len() ==> !entry_is_match(s[k]),
        spec_selected(s) is Some ==> {
            let i = spec_selected(s)->0;
            &&& 0 <= i < s.len()
            &&& entry_is_match(s[i])
            &&& forall|k: int|
                0 <= k < s.len() && entry_is_match(s[k]) ==> spec_rank(s[i]) <= spec_rank(s[k])
            &&& forall|k: int|
                0 <= k < i && entry_is_match(s[k]) ==> spec_rank(s[k]) > spec_rank(s[i])
        },
    decreases s.len(),
{
    if s.len() > 0 {
        lemma_selected_properties(s.drop_last());
        assert(forall|k: int| 0 <= k < s.len() - 1 ==> s.drop_last()[k] == s[k]);
    }
}

/// Exec form of the tie-break class.
fn wired_rank(pid: u16) -> (r: u8)
    ensures
        r as int == spec_wired_rank(pid),
{
    match MouseConfig::from_product_id(pid) {
        Some(c) => if c.is_wired {
            0
        } else {
            1
        },
        None => 2,
    }
}

/// Exec form of the total rank; fits in a `u32`.
fn entry_rank(e: &DeviceEntry) -> (r: u32)
    ensures
        r as int == spec_rank(*e),
{
    (wired_rank(e.product_id) as u32) * 0x10000 + (e.product_id as u32)
}

/// Whether an attached interface is a queryable supported mouse.
pub fn is_match(e: &DeviceEntry) -> (r: bool)
    ensures
        r == entry_is_match(*e),
{
    if e.vendor_id != registry::VENDOR_ID || e.interface_number != FEATURE_INTERFACE {
        return false;
    }
    let supported = MouseConfig::from_product_id(e.product_id);
    supported.is_some()
}

/// Pick the device to query from a list of attached interfaces.  Returns the
/// index of the first minimal-rank match, or `None` when no supported mouse
/// is attached — absence is an expected steady state, not a fault.
pub fn select_device(entries: &Vec<DeviceEntry>) -> (r: Option<usize>)
    ensures
        r is Some <==> spec_selected(entries@) is Some,
        r is Some ==> r->0 as int == spec_selected(entries@)->0,
{
    let mut best: Option<usize> = None;
    let mut i: usize = 0;
    while i < entries.len()
        invariant
            i <= entries@.len(),
            best is Some <==> spec_selected(entries@.take(i as int)) is Some,
            best is Some ==> best->0 < i && best->0 as int == spec_selected(
                entries@.take(i as int),
            )->0,
        decreases entries@.len() - i,
    {
        let e = entries[i];
        proof {
            assert(entries@.take(i as int + 1).drop_last() =~= entries@.take(i as int));
            assert(entries@.take(i as int + 1).last() == entries@[i as int]);
        }
        if is_match(&e) {
            match best {
                None => {
                    best = Some(i);
                },
                Some(b) => {
                    let rb = entry_rank(&entries[b]);
                    let re = entry_rank(&e);
                    if !(rb <= re) {
                        best = Some(i);
                    }
                },
            }
        }
        i += 1;
    }
    proof {
        assert(entries@.take(entries@.len() as int) =~= entries@);
    }
    best
}

/// Law: whenever the list holds a wired match, the selected device is a
/// wired match — a wired mouse is always preferred over a wireless one.
pub proof fn lemma_wired_match_preferred(s: Seq<DeviceEntry>, w: int)
    requires
        0 <= w < s.len(),
        entry_is_match(s[w]),
        spec_wired_rank(s[w].product_id) == 0,
    ensures
        spec_selected(s) is Some,
        entry_is_match(s[spec_selected(s)->0]),
        spec_wired_rank(s[spec_selected(s)->0].product_id) == 0,
{
    lemma_selected_properties(s);
    let i = spec_selected(s)->0;
    assert(spec_rank(s[i]) <= spec_rank(s[w]));
    assert(spec_rank(s[w]) < 0x10000);
    assert(spec_wired_rank(s[i].product_id) == 0) by {
        if spec_wired_rank(s[i].product_id) >= 1 {
            assert(spec_rank(s[i]) >= 0x10000);
        }
    }
}

/// Law: when every match in the list is wireless, the selected device is the
/// match with the lowest product id (the first of them, if several share it).
pub proof fn lemma_wireless_lowest_pid(s: Seq<DeviceEntry>, w: int)
    requires
        0 <= w < s.len(),
        entry_is_match(s[w]),
        forall|k: int|
            0 <= k < s.len() && entry_is_match(s[k]) ==> spec_wired_rank(#[trigger] s[k].product_id)
                == 1,
    ensures
        spec_selected(s) is Some,
        entry_is_match(s[spec_selected(s)->0]),
        forall|k: int|
            0 <= k < s.len() && entry_is_match(s[k]) ==> s[spec_selected(s)->0].product_id
                <= s[k].product_id,
{
    lemma_selected_properties(s);
    let i = spec_selected(s)->0;
    assert forall|k: int|
        0 <= k < s.len() && entry_is_match(s[k]) implies s[i].product_id <= s[k].product_id by {
        assert(spec_rank(s[i]) <= spec_rank(s[k]));
    }
}

} // verus!
