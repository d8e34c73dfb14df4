//! The typed battery status model and its display derivations: an
//! icon-selection key and a human tooltip string.

use vstd::prelude::*;
use vstd::string::StringExecFns;
use crate::model::{MouseModel, model_wf, spec_model_name};
use crate::text;

verus! {

/// Battery state of a located mouse, as decoded from one feature-report
/// exchange.  Every variant except `NotFound` carries the model that
/// produced it.
#[derive(Debug, Clone, PartialEq)]
pub enum BatteryStatus {
    Normal { percentage: u8, mouse_model: MouseModel },
    Charging { percentage: u8, mouse_model: MouseModel },
    FullyCharged { mouse_model: MouseModel },
    Asleep { mouse_model: MouseModel },
    WakingUp { mouse_model: MouseModel },
    NotFound,
    Unknown { raw_status: u8, raw_battery: u8, mouse_model: MouseModel },
}

/// Battery status plus the firmware version, for on-demand "show firmware"
/// queries.
#[derive(Debug, Clone, PartialEq)]
pub struct MouseInfo {
    pub battery_status: BatteryStatus,
    pub firmware_version: Option<String>,
}

/// The model carried by a status, if any; only `NotFound` carries none.
pub open spec fn spec_status_model(s: BatteryStatus) -> Option<MouseModel> {
    match s {
        BatteryStatus::Normal { mouse_model, .. } => Some(mouse_model),
        BatteryStatus::Charging { mouse_model, .. } => Some(mouse_model),
        BatteryStatus::FullyCharged { mouse_model } => Some(mouse_model),
        BatteryStatus::Asleep { mouse_model } => Some(mouse_model),
        BatteryStatus::WakingUp { mouse_model } => Some(mouse_model),
        BatteryStatus::Unknown { mouse_model, .. } => Some(mouse_model),
        BatteryStatus::NotFound => None,
    }
}

/// Well-formedness of a status: the carried model points into the registry,
/// and a carried percentage lies in [1, 100].
pub open spec fn status_wf(s: BatteryStatus) -> bool {
    &&& (spec_status_model(s) is Some ==> model_wf(spec_status_model(s)->0))
    &&& (match s {
        BatteryStatus::Normal { percentage, .. } => 1 <= percentage <= 100,
        BatteryStatus::Charging { percentage, .. } => 1 <= percentage <= 100,
        _ => true,
    })
}

/// Icon key for a status: 25-point buckets of the percentage, with charging
/// and fully-charged states overriding the bucket choice.
pub open spec fn spec_icon_name(s: BatteryStatus) -> Seq<char> {
    match s {
        BatteryStatus::Charging { percentage, .. } => if percentage >= 100 {
            "battery_100"@
        } else {
            "battery_charging"@
        },
        BatteryStatus::Normal { percentage, .. } => if percentage <= 25 {
            "battery_0"@
        } else if percentage <= 50 {
            "battery_25"@
        } else if percentage <= 75 {
            "battery_50"@
        } else {
            "battery_75"@
        },
        BatteryStatus::FullyCharged { .. } => "battery_100"@,
        _ => "battery_unknown"@,
    }
}

/// Name shown in the tooltip: the recognized model's name, falling back to
/// "Mouse" when the status carries no recognized model — whether because no
/// device was found or because the carried model is unrecognized.
pub open spec fn spec_tooltip_name(s: BatteryStatus) -> Seq<char> {
    match spec_status_model(s) {
        Some(m) => if m.config_index is Some {
            spec_model_name(m)
        } else {
            "Mouse"@
        },
        None => "Mouse"@,
    }
}

/// The full tooltip line for a status.
pub open spec fn spec_tooltip(s: BatteryStatus) -> Seq<char> {
    match s {
        BatteryStatus::Normal { percentage, .. } => spec_tooltip_name(s) + ": "@
            + text::spec_dec_u8(percentage) + "%"@,
        BatteryStatus::Charging { percentage, .. } => spec_tooltip_name(s) + ": "@
            + text::spec_dec_u8(percentage) + "% (Charging)"@,
        BatteryStatus::FullyCharged { .. } => spec_tooltip_name(s) + ": Fully Charged"@,
        BatteryStatus::Asleep { .. } => spec_tooltip_name(s) + ": Mouse is asleep"@,
        BatteryStatus::WakingUp { .. } => spec_tooltip_name(s) + ": Waking up..."@,
        BatteryStatus::NotFound => "Mouse: Device not found"@,
        BatteryStatus::Unknown { .. } => spec_tooltip_name(s) + ": Unknown status"@,
    }
}

impl BatteryStatus {
    /// Icon-selection key for this status.
    pub fn get_icon_name(&self) -> (r: &'static str)
        ensures
            r@ == spec_icon_name(*self),
    {
        match self {
            BatteryStatus::Charging { percentage, .. } => {
                if *percentage >= 100 {
                    "battery_100"
                } else {
                    "battery_charging"
                }
            },
            BatteryStatus::Normal { percentage, .. } => {
                if *percentage <= 25 {
                    "battery_0"
                } else if *percentage <= 50 {
                    "battery_25"
                } else if *percentage <= 75 {
                    "battery_50"
                } else {
                    "battery_75"
                }
            },
            BatteryStatus::FullyCharged { .. } => "battery_100",
            _ => "battery_unknown",
        }
    }

    /// The model this status was decoded for, if any.
    pub fn get_mouse_model(&self) -> (r: Option<MouseModel>)
        ensures
            r == spec_status_model(*self),
    {
        match self {
            BatteryStatus::Normal { mouse_model, .. } => Some(*mouse_model),
            BatteryStatus::Charging { mouse_model, .. } => Some(*mouse_model),
            BatteryStatus::FullyCharged { mouse_model } => Some(*mouse_model),
            BatteryStatus::Asleep { mouse_model } => Some(*mouse_model),
            BatteryStatus::WakingUp { mouse_model } => Some(*mouse_model),
            BatteryStatus::Unknown { mouse_model, .. } => Some(*mouse_model),
            BatteryStatus::NotFound => None,
        }
    }

    /// Human tooltip line: the resolved mouse name and a status-specific
    /// suffix.
    pub fn get_tooltip(&self) -> (r: String)
        requires
            spec_status_model(*self) is Some ==> model_wf(spec_status_model(*self)->0),
        ensures
            r@ == spec_tooltip(*self),
    {
        let mouse_name: &str = match self.get_mouse_model() {
            Some(m) => if m.config_index.is_some() {
                m.name()
            } else {
                "Mouse"
            },
            None => "Mouse",
        };
        match self {
            BatteryStatus::Normal { percentage, .. } => {
                let mut s = String::from_str(mouse_name);
                s.append(": ");
                let num = text::u8_to_decimal(*percentage);
                s.append(num.as_str());
                s.append("%");
                proof {
                    assert(s@ =~= spec_tooltip(*self));
                }
                s
            },
            BatteryStatus::Charging { percentage, .. } => {
                let mut s = String::from_str(mouse_name);
                s.append(": ");
                let num = text::u8_to_decimal(*percentage);
                s.append(num.as_str());
                s.append("% (Charging)");
                proof {
                    assert(s@ =~= spec_tooltip(*self));
                }
                s
            },
            BatteryStatus::FullyCharged { .. } => {
                let mut s = String::from_str(mouse_name);
                s.append(": Fully Charged");
                proof {
                    assert(s@ =~= spec_tooltip(*self));
                }
                s
            },
            BatteryStatus::Asleep { .. } => {
                let mut s = String::from_str(mouse_name);
                s.append(": Mouse is asleep");
                proof {
                    assert(s@ =~= spec_tooltip(*self));
                }
                s
            },
            BatteryStatus::WakingUp { .. } => {
                let mut s = String::from_str(mouse_name);
                s.append(": Waking up...");
                proof {
                    assert(s@ =~= spec_tooltip(*self));
                }
                s
            },
            BatteryStatus::NotFound => String::from_str("Mouse: Device not found"),
            BatteryStatus::Unknown { .. } => {
                let mut s = String::from_str(mouse_name);
                s.append(": Unknown status");
                proof {
                    assert(s@ =~= spec_tooltip(*self));
                }
                s
            },
        }
    }
}

} // verus!
