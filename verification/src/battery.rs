//! How the battery is shown: the icon, the level and the caption under it.
//!
//! Whether the battery is low enough for the safety release is the core's
//! policy; it arrives here as `low`.

use vstd::prelude::*;
use vstd::string::*;

use crate::text::{decimal, decimal_text};

verus! {

/// The battery as last read: its charge in percent and whether it charges.
#[derive(Debug, Clone, Copy, PartialEq, Eq, Structural)]
pub struct BatteryStatus {
    pub percentage: u8,
    pub is_charging: bool,
}

/// The icon beside the Battery heading.
#[derive(Debug, Clone, Copy, PartialEq, Eq, Structural)]
pub enum BatteryIcon {
    /// No battery: a desktop machine.
    Plugged,
    Charging,
    Full,
    Medium,
    Low,
    Warning,
}

pub open spec fn battery_icon_spec(battery: Option<BatteryStatus>) -> BatteryIcon {
    match battery {
        None => BatteryIcon::Plugged,
        Some(b) => if b.is_charging {
            BatteryIcon::Charging
        } else if b.percentage >= 75 {
            BatteryIcon::Full
        } else if b.percentage >= 35 {
            BatteryIcon::Medium
        } else if b.percentage >= 15 {
            BatteryIcon::Low
        } else {
            BatteryIcon::Warning
        },
    }
}

pub fn battery_icon(battery: Option<BatteryStatus>) -> (icon: BatteryIcon)
    ensures
        icon == battery_icon_spec(battery),
{
    match battery {
        None => BatteryIcon::Plugged,
        Some(b) => if b.is_charging {
            BatteryIcon::Charging
        } else if b.percentage >= 75 {
            BatteryIcon::Full
        } else if b.percentage >= 35 {
            BatteryIcon::Medium
        } else if b.percentage >= 15 {
            BatteryIcon::Low
        } else {
            BatteryIcon::Warning
        },
    }
}

/// The menu panel's level line.
pub fn battery_level_text(battery: BatteryStatus) -> (line: String)
    ensures
        line@ == decimal(battery.percentage as nat) + "% left"@,
{
    let mut line = decimal_text(battery.percentage as u64);
    line.append("% left");
    line
}

/// How full the level bar is drawn, in percent: a reading above 100 fills it.
pub fn meter_percent(battery: BatteryStatus) -> (percent: u8)
    ensures
        percent == if battery.percentage > 100 { 100 } else { battery.percentage },
        percent <= 100,
{
    if battery.percentage > 100 {
        100
    } else {
        battery.percentage
    }
}

/// The menu panel's caption beside the level: charging beats low, and low
/// says the hold is about to end.
pub open spec fn panel_caption_spec(battery: BatteryStatus, low: bool, threshold: u8) -> Seq<char> {
    if battery.is_charging {
        "charging"@
    } else if low {
        "stopping to protect battery"@
    } else {
        "stops at "@ + decimal(threshold as nat) + "%"@
    }
}

pub fn panel_caption(battery: BatteryStatus, low: bool, threshold: u8) -> (line: String)
    ensures
        line@ == panel_caption_spec(battery, low, threshold),
{
    if battery.is_charging {
        String::from_str("charging")
    } else if low {
        String::from_str("stopping to protect battery")
    } else {
        let mut line = String::from_str("stops at ");
        let number = decimal_text(threshold as u64);
        line.append(number.as_str());
        line.append("%");
        line
    }
}

/// The desktop app's caption under the Battery card.
pub open spec fn card_caption_spec(battery: BatteryStatus, low: bool, threshold: u8) -> Seq<char> {
    if battery.is_charging {
        "Charging"@
    } else if low {
        "Low — releasing to protect it"@
    } else {
        "Holds end on their own at "@ + decimal(threshold as nat) + "%"@
    }
}

pub fn card_caption(battery: BatteryStatus, low: bool, threshold: u8) -> (line: String)
    ensures
        line@ == card_caption_spec(battery, low, threshold),
{
    if battery.is_charging {
        String::from_str("Charging")
    } else if low {
        String::from_str("Low — releasing to protect it")
    } else {
        let mut line = String::from_str("Holds end on their own at ");
        let number = decimal_text(threshold as u64);
        line.append(number.as_str());
        line.append("%");
        line
    }
}


/// The red, green and blue components of a colour packed as `0xRRGGBB`, as
/// the agent badge colours are published.
pub fn rgb_components(packed: u32) -> (rgb: (u8, u8, u8))
    ensures
        rgb.0 == (packed >> 16u32) & 0xff,
        rgb.1 == (packed >> 8u32) & 0xff,
        rgb.2 == packed & 0xff,
{
    let red = (packed >> 16u32) & 0xff;
    let green = (packed >> 8u32) & 0xff;
    let blue = packed & 0xff;
    assert(red < 256 && green < 256 && blue < 256) by (bit_vector)
        requires
            red == (packed >> 16u32) & 0xff,
            green == (packed >> 8u32) & 0xff,
            blue == packed & 0xff,
    ;
    (red as u8, green as u8, blue as u8)
}

} // verus!
