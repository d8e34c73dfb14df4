use mouse_battery::model::MouseModel;
use mouse_battery::registry::{MouseConfig, VENDOR_ID};

#[test]
fn vendor_constant() {
    assert_eq!(VENDOR_ID, 0x258A);
}

#[test]
fn supported_table_contents() {
    let mice = mouse_battery::registry::supported_mice();
    assert_eq!(mice.len(), 4);
    assert_eq!(mice[0].product_id, 0x2011);
    assert_eq!(mice[0].name, "Model O Wired");
    assert!(mice[0].is_wired);
    assert_eq!(mice[1].product_id, 0x2022);
    assert_eq!(mice[1].name, "Model O Wireless");
    assert!(!mice[1].is_wired);
    assert_eq!(mice[2].product_id, 0x2027);
    assert_eq!(mice[2].name, "Model O PRO Wireless");
    assert!(!mice[2].is_wired);
    assert_eq!(mice[3].product_id, 0x2034);
    assert_eq!(mice[3].name, "Model D 2 PRO Wireless");
    assert!(!mice[3].is_wired);
}

#[test]
fn config_lookup_by_product_id() {
    let c = MouseConfig::from_product_id(0x2034).unwrap();
    assert_eq!(c.product_id, 0x2034);
    assert_eq!(c.name, "Model D 2 PRO Wireless");
    assert!(!c.is_wired);

    let w = MouseConfig::from_product_id(0x2011).unwrap();
    assert!(w.is_wired);

    assert!(MouseConfig::from_product_id(0x9999).is_none());
    assert!(MouseConfig::from_product_id(0).is_none());
}

#[test]
fn all_product_ids_in_table_order() {
    let ids = MouseConfig::all_product_ids();
    assert_eq!(ids, vec![0x2011, 0x2022, 0x2027, 0x2034]);
}

#[test]
fn model_from_product_id() {
    let m = MouseModel::from_product_id(0x2027);
    assert_eq!(m.config_index, Some(2));
    assert_eq!(m.name(), "Model O PRO Wireless");
    assert!(!m.is_wired());

    let wired = MouseModel::from_product_id(0x2011);
    assert_eq!(wired.config_index, Some(0));
    assert!(wired.is_wired());
}

#[test]
fn model_unrecognized_product_id() {
    let m = MouseModel::from_product_id(0x1234);
    assert_eq!(m.config_index, None);
    assert_eq!(m.name(), "Unknown Mouse");
    assert!(!m.is_wired());
}

#[test]
fn model_from_name_round_trip() {
    for pid in [0x2011u16, 0x2022, 0x2027, 0x2034] {
        let m = MouseModel::from_product_id(pid);
        let back = MouseModel::from_name(&m.name().to_string());
        assert_eq!(m, back);
    }
}

#[test]
fn model_from_unknown_name() {
    let m = MouseModel::from_name(&"Some Other Mouse".to_string());
    assert_eq!(m.config_index, None);
    let m2 = MouseModel::from_name(&"Unknown Mouse".to_string());
    assert_eq!(m2.config_index, None);
}
