//! Pulse classification and the fields of a WWVB frame.
use vstd::prelude::*;

use crate::consts;
use crate::time::{days_in_year, doy_to_month_day, is_month_day};

verus! {

/// The meaning of one second-long pulse.
#[derive(Clone, Copy, Debug, PartialEq, Eq, Structural)]
pub enum Symbol {
    Zero,
    One,
    Marker,
    Unknown,
}

/// The symbol that a pulse of width `duty` stands for.
pub open spec fn symbol_of(duty: u16) -> Symbol {
    if consts::SYNC_MIN < duty < consts::SYNC_MAX {
        Symbol::Marker
    } else if consts::ONE_MIN < duty < consts::ONE_MAX {
        Symbol::One
    } else if consts::ZERO_MIN < duty < consts::ZERO_MAX {
        Symbol::Zero
    } else {
        Symbol::Unknown
    }
}

/// Maps a measured pulse width to the symbol whose window holds it.
pub fn classify(duty: u16) -> (r: Symbol)
    ensures
        r == symbol_of(duty),
        consts::SYNC_MIN < duty < consts::SYNC_MAX ==> r == Symbol::Marker,
        consts::ONE_MIN < duty < consts::ONE_MAX ==> r == Symbol::One,
        consts::ZERO_MIN < duty < consts::ZERO_MAX ==> r == Symbol::Zero,
        !(consts::SYNC_MIN < duty < consts::SYNC_MAX) && !(consts::ONE_MIN < duty
            < consts::ONE_MAX) && !(consts::ZERO_MIN < duty < consts::ZERO_MAX) ==> r
            == Symbol::Unknown,
{
    if duty > consts::SYNC_MIN && duty < consts::SYNC_MAX {
        Symbol::Marker
    } else if duty > consts::ONE_MIN && duty < consts::ONE_MAX {
        Symbol::One
    } else if duty > consts::ZERO_MIN && duty < consts::ZERO_MAX {
        Symbol::Zero
    } else {
        Symbol::Unknown
    }
}

/// Why a frame was given up.
#[derive(Clone, Copy, Debug, PartialEq, Eq, Structural)]
pub enum WWVBError {
    /// A marker where the frame has none.
    InvalidSync,
    /// A pulse in no classifier window.
    UnknownSignal,
    /// A decoded field out of its range.
    InvalidField,
}

/// The fields of a complete frame: minute, hour, day of year, two-digit year
/// and the leap-year flag.
#[derive(Clone, Copy, Debug, PartialEq, Eq, Structural)]
pub struct RawFields {
    pub minute: u16,
    pub hour: u16,
    pub doy: u16,
    pub year: u16,
    pub leap: bool,
}

/// The positions of the frame that hold a marker.
pub open spec fn is_marker_index(index: int) -> bool {
    index == consts::FRAME_REF || index == consts::MARKER_1 || index == consts::MARKER_2
        || index == consts::MARKER_3 || index == consts::MARKER_4 || index == consts::MARKER_5
        || index == consts::MARKER_END
}

/// What a frame holds at `index` for `sym`: 0, 1 or 2 for a marker. A marker
/// must come exactly at the marker positions; anything else there, or a
/// marker elsewhere, is `InvalidSync`.
pub open spec fn slot_value(sym: Symbol, index: int) -> Result<u16, WWVBError> {
    match sym {
        Symbol::Unknown => Err(WWVBError::UnknownSignal),
        Symbol::Marker => if is_marker_index(index) {
            Ok(2u16)
        } else {
            Err(WWVBError::InvalidSync)
        },
        Symbol::One => if is_marker_index(index) {
            Err(WWVBError::InvalidSync)
        } else {
            Ok(1u16)
        },
        Symbol::Zero => if is_marker_index(index) {
            Err(WWVBError::InvalidSync)
        } else {
            Ok(0u16)
        },
    }
}

/// Every slot holds 0, 1 or 2.
pub open spec fn slots_ok(f: Seq<u16>) -> bool {
    forall|i: int| 0 <= i < f.len() ==> f[i] <= 2
}

pub open spec fn minute_of(f: Seq<u16>) -> int {
    f[consts::MINUTE_40 as int] * 40 + f[consts::MINUTE_20 as int] * 20 + f[consts::MINUTE_10 as int]
        * 10 + f[consts::MINUTE_8 as int] * 8 + f[consts::MINUTE_4 as int] * 4
        + f[consts::MINUTE_2 as int] * 2 + f[consts::MINUTE_1 as int]
}

pub open spec fn hour_of(f: Seq<u16>) -> int {
    f[consts::HOUR_20 as int] * 20 + f[consts::HOUR_10 as int] * 10 + f[consts::HOUR_8 as int] * 8
        + f[consts::HOUR_4 as int] * 4 + f[consts::HOUR_2 as int] * 2 + f[consts::HOUR_1 as int]
}

pub open spec fn doy_of(f: Seq<u16>) -> int {
    f[consts::DOY_200 as int] * 200 + f[consts::DOY_100 as int] * 100 + f[consts::DOY_80 as int] * 80
        + f[consts::DOY_40 as int] * 40 + f[consts::DOY_20 as int] * 20 + f[consts::DOY_10 as int]
        * 10 + f[consts::DOY_8 as int] * 8 + f[consts::DOY_4 as int] * 4 + f[consts::DOY_2 as int]
        * 2 + f[consts::DOY_1 as int]
}

pub open spec fn year_of(f: Seq<u16>) -> int {
    f[consts::YEAR_80 as int] * 80 + f[consts::YEAR_40 as int] * 40 + f[consts::YEAR_20 as int] * 20
        + f[consts::YEAR_10 as int] * 10 + f[consts::YEAR_8 as int] * 8 + f[consts::YEAR_4 as int]
        * 4 + f[consts::YEAR_2 as int] * 2 + f[consts::YEAR_1 as int]
}

pub open spec fn leap_flag_of(f: Seq<u16>) -> bool {
    f[consts::LEAP_YEAR as int] == 1
}

/// The fields that a complete frame decodes to, or `InvalidField` when one is
/// out of its range.
pub open spec fn decode_spec(f: Seq<u16>) -> Result<RawFields, WWVBError> {
    if minute_of(f) >= 60 || hour_of(f) >= 24 || doy_of(f) >= 367 || year_of(f) >= 99 {
        Err(WWVBError::InvalidField)
    } else {
        Ok(
            RawFields {
                minute: minute_of(f) as u16,
                hour: hour_of(f) as u16,
                doy: doy_of(f) as u16,
                year: year_of(f) as u16,
                leap: leap_flag_of(f),
            },
        )
    }
}

/// The value to store at `index` for `sym`, or why the frame must be given up.
pub fn symbol_value(sym: Symbol, index: usize) -> (r: Result<u16, WWVBError>)
    ensures
        r == slot_value(sym, index as int),
{
    if sym == Symbol::Unknown {
        return Err(WWVBError::UnknownSignal);
    }
    let at_marker = index == consts::FRAME_REF || index == consts::MARKER_1 || index
        == consts::MARKER_2 || index == consts::MARKER_3 || index == consts::MARKER_4 || index
        == consts::MARKER_5 || index == consts::MARKER_END;
    // Markers come exactly at the fixed positions; a marker elsewhere, or a
    // data bit where one is due, means that the frame is out of step.
    match sym {
        Symbol::Marker if at_marker => Ok(2),
        Symbol::One if !at_marker => Ok(1),
        Symbol::Zero if !at_marker => Ok(0),
        _ => Err(WWVBError::InvalidSync),
    }
}

/// Classifies a pulse received at frame position `index` and gives the value
/// to store there.
pub fn handle_bit(duty: u16, index: usize) -> (r: Result<u16, WWVBError>)
    ensures
        r == slot_value(symbol_of(duty), index as int),
{
    symbol_value(classify(duty), index)
}

pub fn calc_minute(frame: &[u16; 60]) -> (r: u16)
    requires
        slots_ok(frame@),
    ensures
        r == minute_of(frame@),
{
    frame[consts::MINUTE_40] * 40 + frame[consts::MINUTE_20] * 20 + frame[consts::MINUTE_10] * 10
        + frame[consts::MINUTE_8] * 8 + frame[consts::MINUTE_4] * 4 + frame[consts::MINUTE_2] * 2
        + frame[consts::MINUTE_1]
}

pub fn calc_hour(frame: &[u16; 60]) -> (r: u16)
    requires
        slots_ok(frame@),
    ensures
        r == hour_of(frame@),
{
    frame[consts::HOUR_20] * 20 + frame[consts::HOUR_10] * 10 + frame[consts::HOUR_8] * 8
        + frame[consts::HOUR_4] * 4 + frame[consts::HOUR_2] * 2 + frame[consts::HOUR_1]
}

pub fn calc_doy(frame: &[u16; 60]) -> (r: u16)
    requires
        slots_ok(frame@),
    ensures
        r == doy_of(frame@),
{
    frame[consts::DOY_200] * 200 + frame[consts::DOY_100] * 100 + frame[consts::DOY_80] * 80
        + frame[consts::DOY_40] * 40 + frame[consts::DOY_20] * 20 + frame[consts::DOY_10] * 10
        + frame[consts::DOY_8] * 8 + frame[consts::DOY_4] * 4 + frame[consts::DOY_2] * 2
        + frame[consts::DOY_1]
}

pub fn calc_year(frame: &[u16; 60]) -> (r: u16)
    requires
        slots_ok(frame@),
    ensures
        r == year_of(frame@),
{
    frame[consts::YEAR_80] * 80 + frame[consts::YEAR_40] * 40 + frame[consts::YEAR_20] * 20
        + frame[consts::YEAR_10] * 10 + frame[consts::YEAR_8] * 8 + frame[consts::YEAR_4] * 4
        + frame[consts::YEAR_2] * 2 + frame[consts::YEAR_1]
}

/// The leap-year flag of the frame.
pub fn is_leap_year(frame: &[u16; 60]) -> (r: bool)
    ensures
        r == leap_flag_of(frame@),
{
    frame[consts::LEAP_YEAR] == 1
}

/// Extracts the fields of a complete frame and checks their ranges.
pub fn decode_fields(frame: &[u16; 60]) -> (r: Result<RawFields, WWVBError>)
    requires
        slots_ok(frame@),
    ensures
        r == decode_spec(frame@),
{
    let minute = calc_minute(frame);
    let hour = calc_hour(frame);
    let doy = calc_doy(frame);
    let year = calc_year(frame);
    let leap = is_leap_year(frame);
    if minute >= 60 || hour >= 24 || doy >= 367 || year >= 99 {
        Err(WWVBError::InvalidField)
    } else {
        Ok(RawFields { minute, hour, doy, year, leap })
    }
}

/// The date of day `doy` of the two-digit year `year`, placed in the century
/// `consts::CENTURY`; February has 29 days iff `leap_year`. `None` when `doy`
/// is not a day of such a year.
pub fn to_date(year: u16, doy: u16, leap_year: bool) -> (r: Option<(u16, u16, u16)>)
    requires
        year + consts::CENTURY <= u16::MAX,
    ensures
        r is None <==> (doy < 1 || doy > days_in_year(leap_year)),
        r matches Some((y, m, d)) ==> y == year + consts::CENTURY && is_month_day(
            doy as int,
            leap_year,
            m as int,
            d as int,
        ),
{
    match doy_to_month_day(doy, leap_year) {
        Some((month, day)) => Some((year + consts::CENTURY, month, day)),
        None => None,
    }
}

} // verus!
