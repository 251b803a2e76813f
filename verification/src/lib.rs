//! Verified core of the Plumbob driver: emotion palettes, HID report layout,
//! color parsing, and the decisions taken by the CLI and the daemon.

pub mod color;
pub mod effects;
pub mod report;
pub mod service;

use vstd::prelude::*;

verus! {

/// USB vendor id of the SteelSeries Plumbob.
pub const VID: u16 = 0x1038;

/// USB product id of the SteelSeries Plumbob.
pub const PID: u16 = 0x1500;

} // verus!
