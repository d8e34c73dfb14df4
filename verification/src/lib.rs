//! Battery-status core for a family of Glorious gaming mice.
//!
//! The library speaks a vendor-specific HID feature-report protocol: it
//! locates a supported mouse among the attached HID interfaces, builds the
//! fixed-layout query reports, decodes the raw byte responses into a typed
//! battery status, and renders that status as an icon key and a tooltip
//! string.  The blocking transport steps (the settle delay between send and
//! read, the periodic polling loop) are left to the embedding application.

pub mod registry;
pub mod model;
pub mod text;
pub mod status;
pub mod codec;
pub mod locator;

use vstd::prelude::*;

verus! {

/// Fixed period of the battery poll, in seconds: the orchestrator re-invokes
/// the locator and codec once per period and hands the result to the UI; a
/// single failed poll never terminates the loop.
pub const POLL_PERIOD_SECS: u64 = 30;

} // verus!
