//! Fixed positions of the WWVB frame and the calibration of the pulse classifier.
use vstd::prelude::*;

verus! {

/// Number of one-second slots in a frame.
pub const FRAME_LEN: usize = 60;

// Positions of the structural markers.
pub const FRAME_REF: usize = 0;
pub const MARKER_1: usize = 9;
pub const MARKER_2: usize = 19;
pub const MARKER_3: usize = 29;
pub const MARKER_4: usize = 39;
pub const MARKER_5: usize = 49;
pub const MARKER_END: usize = 59;

// Minute field.
pub const MINUTE_40: usize = 1;
pub const MINUTE_20: usize = 2;
pub const MINUTE_10: usize = 3;
pub const MINUTE_8: usize = 5;
pub const MINUTE_4: usize = 6;
pub const MINUTE_2: usize = 7;
pub const MINUTE_1: usize = 8;

// Hour field.
pub const HOUR_20: usize = 12;
pub const HOUR_10: usize = 13;
pub const HOUR_8: usize = 15;
pub const HOUR_4: usize = 16;
pub const HOUR_2: usize = 17;
pub const HOUR_1: usize = 18;

// Day-of-year field.
pub const DOY_200: usize = 22;
pub const DOY_100: usize = 23;
pub const DOY_80: usize = 25;
pub const DOY_40: usize = 26;
pub const DOY_20: usize = 27;
pub const DOY_10: usize = 28;
pub const DOY_8: usize = 30;
pub const DOY_4: usize = 31;
pub const DOY_2: usize = 32;
pub const DOY_1: usize = 33;

// UT1 correction (not decoded).
pub const DUT1_PLUS1: usize = 36;
pub const DUT1_MINUS: usize = 37;
pub const DUT1_PLUS2: usize = 38;
pub const DUT1_08: usize = 40;
pub const DUT1_04: usize = 41;
pub const DUT1_02: usize = 42;
pub const DUT1_01: usize = 43;

// Two-digit year field.
pub const YEAR_80: usize = 45;
pub const YEAR_40: usize = 46;
pub const YEAR_20: usize = 47;
pub const YEAR_10: usize = 48;
pub const YEAR_8: usize = 50;
pub const YEAR_4: usize = 51;
pub const YEAR_2: usize = 52;
pub const YEAR_1: usize = 53;

// Flags.
pub const LEAP_YEAR: usize = 55;
pub const LEAP_SECOND: usize = 56;
pub const DST_BIT1: usize = 57;
pub const DST_BIT0: usize = 58;

/// Auto-reload value of the capture timer: a 48 MHz clock prescaled to 10 kHz.
pub const ARR: u16 = 10000;
pub const PRESC: u16 = 4799;

// Windows, exclusive at both ends, for accepting a pulse as one of the three
// WWVB symbols. The gaps between them are dead zones.
pub const SYNC_MIN: u16 = 1000;
pub const SYNC_MAX: u16 = 3000;
pub const ONE_MIN: u16 = 4000;
pub const ONE_MAX: u16 = 6000;
pub const ZERO_MIN: u16 = 7000;
pub const ZERO_MAX: u16 = 9000;

/// The broadcast carries a two-digit year; this is the century it is placed in.
pub const CENTURY: u16 = 2000;

/// A decoded frame describes the minute that has just ended: the clock is set
/// this many seconds past the frame's own time.
pub const FRAME_DELAY_SECS: u32 = 60;

} // verus!
