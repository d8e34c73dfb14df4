//! Protocol codec for the vendor-specific feature-report exchanges.
//!
//! Both exchanges use a fixed 65-byte report: one report-id byte followed by
//! 64 payload bytes.  Every byte offset and magic constant here is a contract
//! with the device firmware.  The transport itself (send, settle delay, read)
//! is the embedding application's job; this module builds the outbound
//! buffers and decodes the inbound ones, and `battery_exchange_outcome` /
//! `firmware_exchange_outcome` absorb transport failures into plain values.

use vstd::prelude::*;
use vstd::string::StringExecFns;
use crate::model::{MouseModel, model_wf};
use crate::status::{BatteryStatus, spec_status_model, status_wf};
use crate::text;

verus! {

/// Length of every feature report: one report-id byte plus 64 payload bytes.
pub const REPORT_LEN: usize = 65;

/// Settle delay in milliseconds between sending a query and reading its
/// response: the device populates the response buffer asynchronously.  This
/// is an empirically-derived timing constant, not an acknowledgment, so a
/// retry after a failure must re-send the query, not just re-read.
pub const SETTLE_DELAY_MS: u64 = 50;

/// Outbound battery query: all zero except bytes 3 and 4 (0x02) and the
/// query tag 0x83 at byte 6.
pub open spec fn spec_battery_report() -> Seq<u8> {
    Seq::new(
        REPORT_LEN as nat,
        |i: int|
            if i == 3 {
                0x02u8
            } else if i == 4 {
                0x02u8
            } else if i == 6 {
                0x83u8
            } else {
                0u8
            },
    )
}

/// Outbound firmware query: byte 3 is 0x02 only for wired mice, byte 4 is
/// 0x03, and the query tag is 0x81.
pub open spec fn spec_firmware_report(wired: bool) -> Seq<u8> {
    Seq::new(
        REPORT_LEN as nat,
        |i: int|
            if i == 3 {
                if wired {
                    0x02u8
                } else {
                    0u8
                }
            } else if i == 4 {
                0x03u8
            } else if i == 6 {
                0x81u8
            } else {
                0u8
            },
    )
}

/// Build the outbound battery-query report.
pub fn battery_query_report() -> (r: Vec<u8>)
    ensures
        r@ == spec_battery_report(),
{
    let mut v: Vec<u8> = Vec::new();
    let mut i: usize = 0;
    while i < REPORT_LEN
        invariant
            i <= REPORT_LEN,
            v@.len() == i,
            forall|k: int| 0 <= k < i ==> v@[k] == spec_battery_report()[k],
        decreases REPORT_LEN - i,
    {
        let b: u8 = if i == 3 {
            0x02
        } else if i == 4 {
            0x02
        } else if i == 6 {
            0x83
        } else {
            0
        };
        v.push(b);
        i += 1;
    }
    proof {
        assert(v@ =~= spec_battery_report());
    }
    v
}

/// Build the outbound firmware-query report.
pub fn firmware_query_report(wired: bool) -> (r: Vec<u8>)
    ensures
        r@ == spec_firmware_report(wired),
{
    let mut v: Vec<u8> = Vec::new();
    let mut i: usize = 0;
    while i < REPORT_LEN
        invariant
            i <= REPORT_LEN,
            v@.len() == i,
            forall|k: int| 0 <= k < i ==> v@[k] == spec_firmware_report(wired)[k],
        decreases REPORT_LEN - i,
    {
        let b: u8 = if i == 3 {
            if wired {
                0x02
            } else {
                0
            }
        } else if i == 4 {
            0x03
        } else if i == 6 {
            0x81
        } else {
            0
        };
        v.push(b);
        i += 1;
    }
    proof {
        assert(v@ =~= spec_firmware_report(wired));
    }
    v
}

/// Position of a raw status byte in the device's status table
/// `[0xA1, 0xA4, 0xA2, 0xA0, 0xA3]`, or `None` when the byte is not listed.
pub open spec fn spec_status_position(raw: u8) -> Option<int> {
    if raw == 0xA1 {
        Some(0int)
    } else if raw == 0xA4 {
        Some(1int)
    } else if raw == 0xA2 {
        Some(2int)
    } else if raw == 0xA0 {
        Some(3int)
    } else if raw == 0xA3 {
        Some(4int)
    } else {
        None
    }
}

/// Status position after the echoed-tag check: a response whose byte 6 does
/// not echo the 0x83 query tag signals a stale exchange and is forced to
/// position 2, which resolves to `Unknown` below.
pub open spec fn spec_resolved_position(resp: Seq<u8>) -> Option<int> {
    if resp[6] != 0x83 {
        Some(2int)
    } else {
        spec_status_position(resp[1])
    }
}

/// A raw percentage of 0 is a reading artifact (the device never reports a
/// true 0) and is coerced to 1; a rogue reading above 100 is clamped to 100.
/// The reported percentage therefore always lies in [1, 100], and a raw
/// reading already in that range passes through unchanged.
pub open spec fn spec_coerced_percentage(raw: u8) -> u8 {
    if raw == 0 {
        1u8
    } else if raw > 100 {
        100u8
    } else {
        raw
    }
}

/// Decode one inbound battery report: byte 1 is the status code, byte 6 the
/// echoed query tag, byte 8 the raw percentage.  Resolution is keyed on
/// (status position, wired flag); positions outside {0, 1, 3} are `Unknown`.
pub open spec fn spec_decode_battery(resp: Seq<u8>, wired: bool, model: MouseModel) -> BatteryStatus {
    let pct = spec_coerced_percentage(resp[8]);
    let pos = spec_resolved_position(resp);
    if pos == Some(0int) {
        if !wired {
            BatteryStatus::Normal { percentage: pct, mouse_model: model }
        } else if pct >= 100 {
            BatteryStatus::FullyCharged { mouse_model: model }
        } else {
            BatteryStatus::Charging { percentage: pct, mouse_model: model }
        }
    } else if pos == Some(1int) {
        BatteryStatus::Asleep { mouse_model: model }
    } else if pos == Some(3int) {
        BatteryStatus::WakingUp { mouse_model: model }
    } else {
        BatteryStatus::Unknown { raw_status: resp[1], raw_battery: resp[8], mouse_model: model }
    }
}

/// The status a failed transport exchange degrades to: `Unknown` with zeroed
/// raw fields, never a propagated error.
pub open spec fn spec_transport_failure(model: MouseModel) -> BatteryStatus {
    BatteryStatus::Unknown { raw_status: 0, raw_battery: 0, mouse_model: model }
}

/// Decode an inbound battery report into a status for `model`.
pub fn decode_battery_response(resp: &Vec<u8>, wired: bool, model: MouseModel) -> (r: BatteryStatus)
    requires
        resp@.len() == REPORT_LEN,
        model_wf(model),
    ensures
        r == spec_decode_battery(resp@, wired, model),
        status_wf(r),
        spec_status_model(r) == Some(model),
{
    let raw_status = resp[1];
    let raw_battery = resp[8];
    let percentage = if raw_battery == 0 {
        1
    } else if raw_battery > 100 {
        100
    } else {
        raw_battery
    };
    let tag_ok = resp[6] == 0x83;
    if tag_ok && raw_status == 0xA1 {
        if !wired {
            BatteryStatus::Normal { percentage, mouse_model: model }
        } else if percentage >= 100 {
            BatteryStatus::FullyCharged { mouse_model: model }
        } else {
            BatteryStatus::Charging { percentage, mouse_model: model }
        }
    } else if tag_ok && raw_status == 0xA4 {
        BatteryStatus::Asleep { mouse_model: model }
    } else if tag_ok && raw_status == 0xA0 {
        BatteryStatus::WakingUp { mouse_model: model }
    } else {
        BatteryStatus::Unknown { raw_status, raw_battery, mouse_model: model }
    }
}

/// Outcome of one battery exchange: `sent` says whether the query went out,
/// `reply` is the raw response if one was read back.  Any transport failure
/// yields `Unknown` with zeroed raw fields.
pub fn battery_exchange_outcome(
    sent: bool,
    reply: Option<Vec<u8>>,
    wired: bool,
    model: MouseModel,
) -> (r: BatteryStatus)
    requires
        reply is Some ==> reply->0@.len() == REPORT_LEN,
        model_wf(model),
    ensures
        (!sent || reply is None) ==> r == spec_transport_failure(model),
        sent && reply is Some ==> r == spec_decode_battery(reply->0@, wired, model),
        status_wf(r),
        spec_status_model(r) == Some(model),
{
    if !sent {
        return BatteryStatus::Unknown { raw_status: 0, raw_battery: 0, mouse_model: model };
    }
    match reply {
        Some(resp) => decode_battery_response(&resp, wired, model),
        None => BatteryStatus::Unknown { raw_status: 0, raw_battery: 0, mouse_model: model },
    }
}

/// Outcome of one full battery poll, from the four things that can go wrong
/// in order: was a supported device located, could its handle be opened, did
/// the query go out, and did a reply come back.  An absent or unopenable
/// device is the expected steady state `NotFound`, never an error; transport
/// failures after a successful open degrade to `Unknown` with zeroed raw
/// fields.
pub fn located_battery_outcome(
    located: bool,
    opened: bool,
    sent: bool,
    reply: Option<Vec<u8>>,
    wired: bool,
    model: MouseModel,
) -> (r: BatteryStatus)
    requires
        reply is Some ==> reply->0@.len() == REPORT_LEN,
        model_wf(model),
    ensures
        !located ==> r == BatteryStatus::NotFound,
        located && !opened ==> r == BatteryStatus::NotFound,
        located && opened && (!sent || reply is None) ==> r == spec_transport_failure(model),
        located && opened && sent && reply is Some ==> r == spec_decode_battery(
            reply->0@,
            wired,
            model,
        ),
        status_wf(r),
{
    if !located || !opened {
        return BatteryStatus::NotFound;
    }
    battery_exchange_outcome(sent, reply, wired, model)
}

/// Law: a raw percentage reading of 0 is coerced to 1, a reading in [1, 100]
/// is reported unchanged, and the reported percentage always lies in
/// [1, 100].
pub proof fn lemma_percentage_coercion(raw: u8)
    ensures
        raw == 0 ==> spec_coerced_percentage(raw) == 1,
        1 <= raw <= 100 ==> spec_coerced_percentage(raw) == raw,
        raw > 100 ==> spec_coerced_percentage(raw) == 100,
        1 <= spec_coerced_percentage(raw) <= 100,
{
}

/// Law: the percentage carried by a decoded `Normal` or `Charging` status is
/// exactly the coerced raw byte 8 of the response.
pub proof fn lemma_decoded_percentage(resp: Seq<u8>, wired: bool, model: MouseModel)
    ensures
        spec_decode_battery(resp, wired, model) matches BatteryStatus::Normal { percentage, .. }
            ==> percentage == spec_coerced_percentage(resp[8]),
        spec_decode_battery(resp, wired, model) matches BatteryStatus::Charging { percentage, .. }
            ==> percentage == spec_coerced_percentage(resp[8]),
{
}

/// Law: the (status position, wired flag) pairs resolve exactly as the
/// protocol table says, and any position outside {0, 1, 3} — as well as an
/// unlisted status byte — yields `Unknown` carrying the raw bytes.
pub proof fn lemma_status_resolution(resp: Seq<u8>, wired: bool, model: MouseModel)
    ensures
        spec_resolved_position(resp) == Some(0int) && !wired ==> spec_decode_battery(
            resp,
            wired,
            model,
        ) == (BatteryStatus::Normal {
            percentage: spec_coerced_percentage(resp[8]),
            mouse_model: model,
        }),
        spec_resolved_position(resp) == Some(0int) && wired && spec_coerced_percentage(resp[8])
            >= 100 ==> spec_decode_battery(resp, wired, model) == (BatteryStatus::FullyCharged {
            mouse_model: model,
        }),
        spec_resolved_position(resp) == Some(0int) && wired && spec_coerced_percentage(resp[8])
            < 100 ==> spec_decode_battery(resp, wired, model) == (BatteryStatus::Charging {
            percentage: spec_coerced_percentage(resp[8]),
            mouse_model: model,
        }),
        spec_resolved_position(resp) == Some(1int) ==> spec_decode_battery(resp, wired, model)
            == (BatteryStatus::Asleep { mouse_model: model }),
        spec_resolved_position(resp) == Some(3int) ==> spec_decode_battery(resp, wired, model)
            == (BatteryStatus::WakingUp { mouse_model: model }),
        (match spec_resolved_position(resp) {
            Some(p) => p != 0 && p != 1 && p != 3,
            None => true,
        }) ==> spec_decode_battery(resp, wired, model) == (BatteryStatus::Unknown {
            raw_status: resp[1],
            raw_battery: resp[8],
            mouse_model: model,
        }),
{
}

/// Firmware version: the dotted join of response bytes 7 through 10 as
/// decimal integers.
pub open spec fn spec_firmware_version(resp: Seq<u8>) -> Seq<char> {
    text::spec_dec_u8(resp[7]) + seq!['.'] + text::spec_dec_u8(resp[8]) + seq!['.']
        + text::spec_dec_u8(resp[9]) + seq!['.'] + text::spec_dec_u8(resp[10])
}

/// Render the firmware version carried by an inbound firmware report.
pub fn firmware_version_string(resp: &Vec<u8>) -> (r: String)
    requires
        resp@.len() == REPORT_LEN,
    ensures
        r@ == spec_firmware_version(resp@),
{
    proof {
        reveal_strlit(".");
    }
    let mut s = text::u8_to_decimal(resp[7]);
    s.append(".");
    let p2 = text::u8_to_decimal(resp[8]);
    s.append(p2.as_str());
    s.append(".");
    let p3 = text::u8_to_decimal(resp[9]);
    s.append(p3.as_str());
    s.append(".");
    let p4 = text::u8_to_decimal(resp[10]);
    s.append(p4.as_str());
    proof {
        assert(s@ =~= spec_firmware_version(resp@));
    }
    s
}

/// Outcome of one firmware exchange: a version string when the query was
/// sent and a response was read back, and "no version" on any transport
/// failure.
pub fn firmware_exchange_outcome(sent: bool, reply: Option<Vec<u8>>) -> (r: Option<String>)
    requires
        reply is Some ==> reply->0@.len() == REPORT_LEN,
    ensures
        r is Some <==> (sent && reply is Some),
        r is Some ==> r->0@ == spec_firmware_version(reply->0@),
{
    if !sent {
        return None;
    }
    match reply {
        Some(resp) => Some(firmware_version_string(&resp)),
        None => None,
    }
}

} // verus!
