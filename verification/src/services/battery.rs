//! Battery status: which icon state a reading stands for, and the text of
//! the time that remains.

use crate::text::{push_str, signed_decimal, signed_decimal_chars, string_of};
use vstd::prelude::*;

verus! {

/// The icon state of the battery.
#[derive(Clone, Copy, Debug, PartialEq, Eq, Structural)]
pub enum BatteryState {
    Unknown,
    Full,
    Alert,
    Bar0,
    Bar1,
    Bar2,
    Bar3,
    Bar4,
    Bar5,
    Bar6,
    Charging20,
    Charging30,
    Charging80,
    Charging90,
    ChargingFull,
}

impl Default for BatteryState {
    fn default() -> (state: Self)
        ensures
            state == BatteryState::Unknown,
    {
        BatteryState::Unknown
    }
}

/// Battery status as the taskbar shows it.
#[derive(Clone, Debug)]
pub struct BatteryStatus {
    pub percentage: i32,
    pub state: BatteryState,
    pub time_remaining: String,
}

/// What the power supply says the battery is doing.
#[derive(Clone, Copy, Debug, PartialEq, Eq, Structural)]
pub enum ChargeState {
    Unknown,
    Charging,
    Discharging,
    Empty,
    Full,
    /// A state that is none of the above.
    Other,
}

/// One reading of the battery, in whole numbers.
#[derive(Clone, Copy, Debug)]
pub struct BatteryReading {
    pub state: ChargeState,
    /// State of charge in percent.
    pub percentage: i32,
    /// Whether energy flows into the battery.
    pub gaining_energy: bool,
    /// Whole minutes until the battery is full, where that is known.
    pub minutes_to_full: Option<i32>,
    /// Whole minutes until the battery is empty, where that is known.
    pub minutes_to_empty: Option<i32>,
}

/// The icon state of a battery that discharges at `percentage`.
pub open spec fn discharging_state(percentage: int) -> BatteryState {
    if 0 <= percentage <= 4 {
        BatteryState::Alert
    } else if 5 <= percentage <= 14 {
        BatteryState::Bar0
    } else if 15 <= percentage <= 29 {
        BatteryState::Bar1
    } else if 30 <= percentage <= 44 {
        BatteryState::Bar2
    } else if 45 <= percentage <= 59 {
        BatteryState::Bar3
    } else if 60 <= percentage <= 74 {
        BatteryState::Bar4
    } else if 75 <= percentage <= 89 {
        BatteryState::Bar5
    } else if 90 <= percentage <= 99 {
        BatteryState::Bar6
    } else {
        BatteryState::Full
    }
}

/// The icon state of a battery that charges at `percentage`.
pub open spec fn charging_state(percentage: int) -> BatteryState {
    if 0 <= percentage <= 25 {
        BatteryState::Charging20
    } else if 26 <= percentage <= 50 {
        BatteryState::Charging30
    } else if 51 <= percentage <= 75 {
        BatteryState::Charging80
    } else if 76 <= percentage <= 99 {
        BatteryState::Charging90
    } else {
        BatteryState::ChargingFull
    }
}

/// The icon state where the power supply does not know what the battery is
/// doing: charging if energy flows in, full from 95 percent on, else
/// discharging.
pub open spec fn unknown_state(gaining_energy: bool, percentage: int) -> BatteryState {
    if gaining_energy {
        charging_state(percentage)
    } else if percentage >= 95 {
        BatteryState::Full
    } else {
        discharging_state(percentage)
    }
}

/// The icon state of a reading.
pub open spec fn state_of_reading(reading: BatteryReading) -> BatteryState {
    match reading.state {
        ChargeState::Charging => charging_state(reading.percentage as int),
        ChargeState::Full => BatteryState::Full,
        ChargeState::Discharging => discharging_state(reading.percentage as int),
        ChargeState::Empty => BatteryState::Alert,
        ChargeState::Unknown => unknown_state(reading.gaining_energy, reading.percentage as int),
        ChargeState::Other => BatteryState::Unknown,
    }
}

/// Maps a percentage to the icon state of a discharging battery.
pub fn discharging_state_from_percentage(percentage: i32) -> (state: BatteryState)
    ensures
        state == discharging_state(percentage as int),
{
    if percentage < 0 {
        BatteryState::Full
    } else if percentage <= 4 {
        BatteryState::Alert
    } else if percentage <= 14 {
        BatteryState::Bar0
    } else if percentage <= 29 {
        BatteryState::Bar1
    } else if percentage <= 44 {
        BatteryState::Bar2
    } else if percentage <= 59 {
        BatteryState::Bar3
    } else if percentage <= 74 {
        BatteryState::Bar4
    } else if percentage <= 89 {
        BatteryState::Bar5
    } else if percentage <= 99 {
        BatteryState::Bar6
    } else {
        BatteryState::Full
    }
}

/// Maps a percentage to the icon state of a charging battery.
pub fn charging_state_from_percentage(percentage: i32) -> (state: BatteryState)
    ensures
        state == charging_state(percentage as int),
{
    if percentage < 0 {
        BatteryState::ChargingFull
    } else if percentage <= 25 {
        BatteryState::Charging20
    } else if percentage <= 50 {
        BatteryState::Charging30
    } else if percentage <= 75 {
        BatteryState::Charging80
    } else if percentage <= 99 {
        BatteryState::Charging90
    } else {
        BatteryState::ChargingFull
    }
}

/// The icon state where the power supply reports an unknown state.
pub fn handle_unknown_state(gaining_energy: bool, percentage: i32) -> (state: BatteryState)
    ensures
        state == unknown_state(gaining_energy, percentage as int),
{
    if gaining_energy {
        charging_state_from_percentage(percentage)
    } else if percentage >= 95 {
        BatteryState::Full
    } else {
        discharging_state_from_percentage(percentage)
    }
}

/// The icon state of a reading.
pub fn determine_battery_state(reading: &BatteryReading) -> (state: BatteryState)
    ensures
        state == state_of_reading(*reading),
{
    match reading.state {
        ChargeState::Charging => charging_state_from_percentage(reading.percentage),
        ChargeState::Full => BatteryState::Full,
        ChargeState::Discharging => discharging_state_from_percentage(reading.percentage),
        ChargeState::Empty => BatteryState::Alert,
        ChargeState::Unknown => handle_unknown_state(reading.gaining_energy, reading.percentage),
        ChargeState::Other => BatteryState::Unknown,
    }
}

/// The quotient of `a` by 60, rounded towards zero.
pub open spec fn hours_of(a: int) -> int {
    if a >= 0 {
        a / 60
    } else {
        -((-a) / 60)
    }
}

/// What is left of `a` after its whole hours are taken out; it has the sign
/// of `a`.
pub open spec fn minutes_of(a: int) -> int {
    a - 60 * hours_of(a)
}

/// Decimal notation in at least two places: a number of one digit gets a
/// zero in front.
pub open spec fn two_places(n: int) -> Seq<char> {
    if 0 <= n < 10 {
        seq!['0'] + signed_decimal(n)
    } else {
        signed_decimal(n)
    }
}

/// The minutes that the text is about: until full while charging, until
/// empty while discharging, else none.
pub open spec fn minutes_remaining(reading: BatteryReading) -> Option<i32> {
    match reading.state {
        ChargeState::Charging => reading.minutes_to_full,
        ChargeState::Discharging => reading.minutes_to_empty,
        _ => None,
    }
}

/// The text of the time that remains: hours, a colon, minutes in two
/// places, and what the time leads to; empty where no time is known.
pub open spec fn time_remaining_text(reading: BatteryReading) -> Seq<char> {
    match minutes_remaining(reading) {
        Some(total) => signed_decimal(hours_of(total as int)) + seq![':'] + two_places(
            minutes_of(total as int),
        ) + (if reading.state == ChargeState::Charging {
            " until charged"@
        } else {
            " remaining"@
        }),
        None => Seq::empty(),
    }
}

/// Formats the time that remains, such as "1:05 remaining".
pub fn format_time_remaining(reading: &BatteryReading) -> (text: String)
    ensures
        text@ == time_remaining_text(*reading),
{
    let charging = match reading.state {
        ChargeState::Charging => true,
        _ => false,
    };
    let minutes = match reading.state {
        ChargeState::Charging => reading.minutes_to_full,
        ChargeState::Discharging => reading.minutes_to_empty,
        _ => None,
    };
    match minutes {
        Some(total) => {
            let total: i64 = total as i64;
            let hours: i64 = if total >= 0 {
                total / 60
            } else {
                -((-total) / 60)
            };
            let rest: i64 = total - 60 * hours;
            let mut out = signed_decimal_chars(hours);
            out.push(':');
            if 0 <= rest && rest < 10 {
                out.push('0');
            }
            let mut places = signed_decimal_chars(rest);
            out.append(&mut places);
            if charging {
                push_str(&mut out, " until charged");
            } else {
                push_str(&mut out, " remaining");
            }
            proof {
                let h = signed_decimal(hours_of(total as int));
                let m = two_places(minutes_of(total as int));
                let suffix = if charging {
                    " until charged"@
                } else {
                    " remaining"@
                };
                assert(out@ =~= h + seq![':'] + m + suffix);
            }
            string_of(out.as_slice())
        },
        None => String::new(),
    }
}

/// The status shown while no battery can be read.
pub fn default_battery_status() -> (status: BatteryStatus)
    ensures
        status.percentage == 0,
        status.state == BatteryState::Unknown,
        status.time_remaining@ == Seq::<char>::empty(),
{
    BatteryStatus { percentage: 0, state: BatteryState::Unknown, time_remaining: String::new() }
}

/// The status of a reading; of no reading, the default status.
pub fn get_status(reading: Option<BatteryReading>) -> (status: BatteryStatus)
    ensures
        match reading {
            Some(r) => status.percentage == r.percentage && status.state == state_of_reading(r)
                && status.time_remaining@ == time_remaining_text(r),
            None => status.percentage == 0 && status.state == BatteryState::Unknown
                && status.time_remaining@ == Seq::<char>::empty(),
        },
{
    match reading {
        Some(r) => BatteryStatus {
            percentage: r.percentage,
            state: determine_battery_state(&r),
            time_remaining: format_time_remaining(&r),
        },
        None => default_battery_status(),
    }
}

} // verus!
