use mouse_battery::locator::{select_device, DeviceEntry, FEATURE_INTERFACE};

fn entry(vendor_id: u16, product_id: u16, interface_number: i32) -> DeviceEntry {
    DeviceEntry { vendor_id, product_id, interface_number }
}

#[test]
fn empty_list_selects_nothing() {
    assert_eq!(select_device(&Vec::new()), None);
}

#[test]
fn no_match_selects_nothing() {
    let entries = vec![
        entry(0x1234, 0x2011, 2),   // wrong vendor
        entry(0x258A, 0x9999, 2),   // unsupported product
        entry(0x258A, 0x2022, 0),   // wrong interface
        entry(0x258A, 0x2022, 1),   // wrong interface
    ];
    assert_eq!(select_device(&entries), None);
}

#[test]
fn single_match_selected() {
    let entries = vec![
        entry(0x258A, 0x2022, 0),
        entry(0x258A, 0x2022, FEATURE_INTERFACE),
        entry(0x1111, 0x2222, 2),
    ];
    assert_eq!(select_device(&entries), Some(1));
}

#[test]
fn wired_preferred_over_wireless() {
    // a wired and a wireless match both visible: the wired one wins
    let entries = vec![
        entry(0x258A, 0x2022, 2),  // wireless
        entry(0x258A, 0x2011, 2),  // wired, listed second
    ];
    assert_eq!(select_device(&entries), Some(1));
    let reversed = vec![
        entry(0x258A, 0x2011, 2),
        entry(0x258A, 0x2022, 2),
    ];
    assert_eq!(select_device(&reversed), Some(0));
}

#[test]
fn lower_product_id_among_wireless() {
    // two wireless matches with different product ids: the lower id wins
    let entries = vec![
        entry(0x258A, 0x2034, 2),
        entry(0x258A, 0x2022, 2),
    ];
    assert_eq!(select_device(&entries), Some(1));
    let reversed = vec![
        entry(0x258A, 0x2022, 2),
        entry(0x258A, 0x2034, 2),
    ];
    assert_eq!(select_device(&reversed), Some(0));
}

#[test]
fn equal_entries_first_selected() {
    // a dongle may expose the same identity twice: the selection is stable
    let entries = vec![
        entry(0x258A, 0x2027, 2),
        entry(0x258A, 0x2027, 2),
    ];
    assert_eq!(select_device(&entries), Some(0));
}

#[test]
fn selection_is_deterministic() {
    let entries = vec![
        entry(0x258A, 0x2034, 2),
        entry(0x258A, 0x2011, 2),
        entry(0x258A, 0x2022, 2),
        entry(0x9999, 0x2011, 2),
    ];
    let first = select_device(&entries);
    for _ in 0..10 {
        assert_eq!(select_device(&entries), first);
    }
    assert_eq!(first, Some(1));
}
