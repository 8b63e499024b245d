use vstd::prelude::*;

verus! {

/// Default brightness for day use, percent.
pub const BRIGHTNESS_DAY: u8 = 15;

/// Default brightness for the nightlamp, percent.
pub const BRIGHTNESS_NIGHT: u8 = 1;

/// Brightness used while the reminder scene is showing, percent.
pub const BRIGHTNESS_REMINDER: u8 = 100;

/// Warm white nightlamp color.
pub const NIGHTLAMP_R: u8 = 255;

pub const NIGHTLAMP_G: u8 = 181;

pub const NIGHTLAMP_B: u8 = 128;

/// Pleasant orange daylamp color.
pub const DAYLAMP_R: u8 = 255;

pub const DAYLAMP_G: u8 = 160;

pub const DAYLAMP_B: u8 = 70;

/// Bright orange reminder color.
pub const REMINDER_R: u8 = 255;

pub const REMINDER_G: u8 = 100;

pub const REMINDER_B: u8 = 0;

/// Minimum interval between vendor API requests, in milliseconds. The
/// dispatch loop sleeps this long each cycle so the daily rate limit is
/// not reached.
pub const API_REQUEST_INTERVAL_MS: u64 = 6000;

/// How long one state-setting API call usually takes, in milliseconds.
pub const AVG_SET_STATE_DURATION_MS: u64 = 500;

/// First brightness of the sunrise ramp, percent.
pub const SUNRISE_BRIGHTNESS_START: u8 = 1;

/// Last brightness of the sunrise ramp, percent.
pub const SUNRISE_BRIGHTNESS_STOP: u8 = 100;

/// First saturation of the sunrise ramp, in thousandths.
pub const SUNRISE_SATURATION_START_PM: u16 = 800;

/// Last saturation of the sunrise ramp, in thousandths.
pub const SUNRISE_SATURATION_STOP_PM: u16 = 550;

/// Fixed hue of the sunrise color ramp, degrees on the HSV color wheel.
pub const SUNRISE_HUE_DEG: u16 = 25;

} // verus!
