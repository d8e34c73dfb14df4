//! Static registry of supported mice: one `MouseConfig` entry per model.
//!
//! Adding support for a new mouse is a one-line data addition to
//! `supported_mice`; every other component looks the model up here.

use vstd::prelude::*;

verus! {

/// USB vendor id shared by every supported mouse; it is not stored per entry.
pub const VENDOR_ID: u16 = 0x258A;

/// Identity of one supported mouse model.
#[derive(Debug, Clone, Copy, PartialEq, Eq, Hash)]
pub struct MouseConfig {
    pub product_id: u16,
    pub name: &'static str,
    pub is_wired: bool,
}

/// Number of entries in the registry table.
pub open spec fn mouse_count() -> int {
    4
}

/// Product id of the registry entry at index `i`.
pub open spec fn spec_product_id(i: int) -> u16 {
    if i == 0 {
        0x2011
    } else if i == 1 {
        0x2022
    } else if i == 2 {
        0x2027
    } else {
        0x2034
    }
}

/// Wired flag of the registry entry at index `i`: only the first entry is wired.
pub open spec fn spec_is_wired(i: int) -> bool {
    i == 0
}

/// Display name of the registry entry at index `i`.
pub open spec fn spec_name(i: int) -> Seq<char> {
    if i == 0 {
        "Model O Wired"@
    } else if i == 1 {
        "Model O Wireless"@
    } else if i == 2 {
        "Model O PRO Wireless"@
    } else {
        "Model D 2 PRO Wireless"@
    }
}

/// Whether `pid` is the product id of some registry entry.
pub open spec fn is_supported_pid(pid: u16) -> bool {
    pid == 0x2011 || pid == 0x2022 || pid == 0x2027 || pid == 0x2034
}

/// Index of the registry entry with product id `pid`, or -1 when unsupported.
pub open spec fn config_index_of(pid: u16) -> int {
    if pid == 0x2011 {
        0
    } else if pid == 0x2022 {
        1
    } else if pid == 0x2027 {
        2
    } else if pid == 0x2034 {
        3
    } else {
        -1
    }
}

/// Product ids are unique across the table: each supported pid names one index.
pub proof fn lemma_product_ids_unique(i: int, j: int)
    requires
        0 <= i < mouse_count(),
        0 <= j < mouse_count(),
        i != j,
    ensures
        spec_product_id(i) != spec_product_id(j),
{
}

/// The registry table itself.
pub fn supported_mice() -> (r: Vec<MouseConfig>)
    ensures
        r@.len() == mouse_count(),
        forall|i: int|
            0 <= i < mouse_count() ==> (#[trigger] r@[i]).product_id == spec_product_id(i),
        forall|i: int| 0 <= i < mouse_count() ==> (#[trigger] r@[i]).is_wired == spec_is_wired(i),
        forall|i: int| 0 <= i < mouse_count() ==> (#[trigger] r@[i]).name@ == spec_name(i),
{
    let mut v: Vec<MouseConfig> = Vec::new();
    v.push(MouseConfig { product_id: 0x2011, name: "Model O Wired", is_wired: true });
    v.push(MouseConfig { product_id: 0x2022, name: "Model O Wireless", is_wired: false });
    v.push(MouseConfig { product_id: 0x2027, name: "Model O PRO Wireless", is_wired: false });
    v.push(MouseConfig { product_id: 0x2034, name: "Model D 2 PRO Wireless", is_wired: false });
    v
}

impl MouseConfig {
    /// Look a supported mouse up by its product id.
    pub fn from_product_id(product_id: u16) -> (r: Option<MouseConfig>)
        ensures
            r is Some <==> is_supported_pid(product_id),
            r is Some ==> r->0.product_id == product_id,
            r is Some ==> r->0.is_wired == spec_is_wired(config_index_of(product_id)),
            r is Some ==> r->0.name@ == spec_name(config_index_of(product_id)),
    {
        let mice = supported_mice();
        let mut i: usize = 0;
        while i < mice.len()
            invariant
                i <= mice@.len(),
                mice@.len() == mouse_count(),
                forall|k: int|
                    0 <= k < mouse_count() ==> (#[trigger] mice@[k]).product_id == spec_product_id(
                        k,
                    ),
                forall|k: int|
                    0 <= k < mouse_count() ==> (#[trigger] mice@[k]).is_wired == spec_is_wired(k),
                forall|k: int| 0 <= k < mouse_count() ==> (#[trigger] mice@[k]).name@ == spec_name(k),
                forall|k: int| 0 <= k < i ==> (#[trigger] mice@[k]).product_id != product_id,
            decreases mice@.len() - i,
        {
            if mice[i].product_id == product_id {
                proof {
                    assert(mice@[i as int].product_id == spec_product_id(i as int));
                    assert(config_index_of(product_id) == i as int);
                }
                return Some(mice[i]);
            }
            i += 1;
        }
        proof {
            if is_supported_pid(product_id) {
                let k = config_index_of(product_id);
                assert(mice@[k].product_id == spec_product_id(k));
                assert(false);
            }
        }
        None
    }

    /// Product ids of every supported mouse, in table order.
    pub fn all_product_ids() -> (r: Vec<u16>)
        ensures
            r@.len() == mouse_count(),
            forall|i: int| 0 <= i < mouse_count() ==> r@[i] == spec_product_id(i),
    {
        let mice = supported_mice();
        let mut ids: Vec<u16> = Vec::new();
        let mut i: usize = 0;
        while i < mice.len()
            invariant
                i <= mice@.len(),
                mice@.len() == mouse_count(),
                ids@.len() == i,
                forall|k: int|
                    0 <= k < mouse_count() ==> (#[trigger] mice@[k]).product_id == spec_product_id(
                        k,
                    ),
                forall|k: int| 0 <= k < i ==> ids@[k] == spec_product_id(k),
            decreases mice@.len() - i,
        {
            ids.push(mice[i].product_id);
            i += 1;
        }
        ids
    }
}

} // verus!
