use mouse_battery::codec::{battery_exchange_outcome, decode_battery_response};
use mouse_battery::model::MouseModel;
use mouse_battery::status::{BatteryStatus, MouseInfo};

fn wireless_model() -> MouseModel {
    MouseModel::from_product_id(0x2034)
}

fn response(raw_status: u8, echoed_tag: u8, raw_battery: u8) -> Vec<u8> {
    let mut r = vec![0u8; 65];
    r[1] = raw_status;
    r[6] = echoed_tag;
    r[8] = raw_battery;
    r
}

#[test]
fn icon_buckets_inclusive_boundaries() {
    let m = wireless_model();
    let icon = |p: u8| BatteryStatus::Normal { percentage: p, mouse_model: m }.get_icon_name();
    assert_eq!(icon(1), "battery_0");
    assert_eq!(icon(25), "battery_0");
    assert_eq!(icon(26), "battery_25");
    assert_eq!(icon(50), "battery_25");
    assert_eq!(icon(51), "battery_50");
    assert_eq!(icon(75), "battery_50");
    assert_eq!(icon(76), "battery_75");
    assert_eq!(icon(100), "battery_75");
}

#[test]
fn icon_charging_overrides_bucket() {
    let m = MouseModel::from_product_id(0x2011);
    let charging = |p: u8| BatteryStatus::Charging { percentage: p, mouse_model: m };
    assert_eq!(charging(10).get_icon_name(), "battery_charging");
    assert_eq!(charging(99).get_icon_name(), "battery_charging");
    assert_eq!(charging(100).get_icon_name(), "battery_100");
    assert_eq!(BatteryStatus::FullyCharged { mouse_model: m }.get_icon_name(), "battery_100");
}

#[test]
fn icon_other_states_unknown() {
    let m = wireless_model();
    assert_eq!(BatteryStatus::Asleep { mouse_model: m }.get_icon_name(), "battery_unknown");
    assert_eq!(BatteryStatus::WakingUp { mouse_model: m }.get_icon_name(), "battery_unknown");
    assert_eq!(BatteryStatus::NotFound.get_icon_name(), "battery_unknown");
    assert_eq!(
        BatteryStatus::Unknown { raw_status: 0, raw_battery: 0, mouse_model: m }.get_icon_name(),
        "battery_unknown"
    );
}

#[test]
fn tooltip_per_variant() {
    let m = wireless_model();
    assert_eq!(
        BatteryStatus::Normal { percentage: 42, mouse_model: m }.get_tooltip(),
        "Model D 2 PRO Wireless: 42%"
    );
    let wired = MouseModel::from_product_id(0x2011);
    assert_eq!(
        BatteryStatus::Charging { percentage: 80, mouse_model: wired }.get_tooltip(),
        "Model O Wired: 80% (Charging)"
    );
    assert_eq!(
        BatteryStatus::FullyCharged { mouse_model: wired }.get_tooltip(),
        "Model O Wired: Fully Charged"
    );
    assert_eq!(
        BatteryStatus::Asleep { mouse_model: m }.get_tooltip(),
        "Model D 2 PRO Wireless: Mouse is asleep"
    );
    assert_eq!(
        BatteryStatus::WakingUp { mouse_model: m }.get_tooltip(),
        "Model D 2 PRO Wireless: Waking up..."
    );
    assert_eq!(
        BatteryStatus::Unknown { raw_status: 1, raw_battery: 2, mouse_model: m }.get_tooltip(),
        "Model D 2 PRO Wireless: Unknown status"
    );
}

#[test]
fn tooltip_unrecognized_model_falls_back() {
    // the tooltip name falls back to the plain "Mouse" when the carried
    // model is unrecognized; the model's own name keeps its registry fallback
    let unknown = MouseModel::from_product_id(0x0001);
    assert_eq!(
        BatteryStatus::Normal { percentage: 7, mouse_model: unknown }.get_tooltip(),
        "Mouse: 7%"
    );
    assert_eq!(
        BatteryStatus::Unknown { raw_status: 1, raw_battery: 2, mouse_model: unknown }
            .get_tooltip(),
        "Mouse: Unknown status"
    );
    assert_eq!(unknown.name(), "Unknown Mouse");
}

#[test]
fn mouse_model_accessor() {
    let m = wireless_model();
    assert_eq!(
        BatteryStatus::Normal { percentage: 1, mouse_model: m }.get_mouse_model(),
        Some(m)
    );
    assert_eq!(BatteryStatus::NotFound.get_mouse_model(), None);
}

#[test]
fn absent_device_tooltip() {
    // no matching device: NotFound renders the fixed absent-device line
    assert_eq!(BatteryStatus::NotFound.get_tooltip(), "Mouse: Device not found");
}

#[test]
fn end_to_end_wireless_normal_reading() {
    // wireless device, status 0xA1, echoed tag 0x83, raw percentage 42
    let m = wireless_model();
    let status = decode_battery_response(&response(0xA1, 0x83, 42), m.is_wired(), m);
    assert_eq!(status, BatteryStatus::Normal { percentage: 42, mouse_model: m });
    assert_eq!(status.get_tooltip(), "Model D 2 PRO Wireless: 42%");
    assert_eq!(status.get_icon_name(), "battery_25");
}

#[test]
fn end_to_end_wired_full_charge() {
    // wired device, status 0xA1, raw percentage 100: FullyCharged, not Charging
    let m = MouseModel::from_product_id(0x2011);
    let status = decode_battery_response(&response(0xA1, 0x83, 100), m.is_wired(), m);
    assert_eq!(status, BatteryStatus::FullyCharged { mouse_model: m });
    assert_eq!(status.get_tooltip(), "Model O Wired: Fully Charged");
}

#[test]
fn end_to_end_transport_failure_renders() {
    let m = wireless_model();
    let status = battery_exchange_outcome(false, None, m.is_wired(), m);
    assert_eq!(
        status,
        BatteryStatus::Unknown { raw_status: 0, raw_battery: 0, mouse_model: m }
    );
    assert_eq!(status.get_tooltip(), "Model D 2 PRO Wireless: Unknown status");
    assert_eq!(status.get_icon_name(), "battery_unknown");
}

#[test]
fn mouse_info_aggregate() {
    let m = wireless_model();
    let info = MouseInfo {
        battery_status: BatteryStatus::Normal { percentage: 55, mouse_model: m },
        firmware_version: Some("1.2.3.4".to_string()),
    };
    assert_eq!(info.battery_status.get_icon_name(), "battery_50");
    assert_eq!(info.firmware_version.as_deref(), Some("1.2.3.4"));
}
