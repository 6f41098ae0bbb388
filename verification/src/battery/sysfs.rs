//! The sysfs battery backend: reads from the Linux sysfs interface,
//! usually located at /sys/class/power_supply/BAT*.
//!
//! The file reads themselves live with the embedding program; this
//! module holds the backend's state and the exact logic that turns the
//! raw attribute text into a battery sample: battery discovery by name,
//! capacity parsing, and status-string translation.

use vstd::prelude::*;
use vstd::string::*;

use crate::text::has_prefix;
use crate::text::parse_percent;
use crate::text::spec_parse_percent;
use crate::text::spec_trim;
use crate::text::str_eq;
use crate::text::trim;
use crate::traits::BatteryInfo;
use crate::traits::BatteryStatus;

verus! {

/// Battery monitor that reads from the Linux sysfs interface.
pub struct SysfsBatteryMonitor {
    /// Path to a specific battery directory, if one was discovered.
    battery_path: Option<String>,
}

impl SysfsBatteryMonitor {
    /// The discovered battery directory, as a character sequence.
    pub closed spec fn spec_battery_path(&self) -> Option<Seq<char>> {
        self.battery_path.deep_view()
    }

    /// Creates a new SysfsBatteryMonitor for the given battery
    /// directory, or for none when discovery found no battery.  The
    /// caller scans /sys/class/power_supply and picks the entry that
    /// [`find_battery_name`] selects.
    pub fn new(battery_path: Option<String>) -> (m: Self)
        ensures
            m.spec_battery_path() == battery_path.deep_view(),
    {
        SysfsBatteryMonitor { battery_path }
    }

    /// The battery directory this monitor reads from, if any.
    pub fn battery_path(&self) -> (r: &Option<String>)
        ensures
            r.deep_view() == self.spec_battery_path(),
    {
        &self.battery_path
    }

    /// The battery directory, or the no-battery error when discovery
    /// found none.
    pub fn battery_path_or_error(&self) -> (r: Result<&String, String>)
        ensures
            self.spec_battery_path() matches Some(p) ==> (r matches Ok(s) && s@ == p),
            self.spec_battery_path() is None ==> (r matches Err(m) && m@
                == "No battery found in /sys/class/power_supply"@),
    {
        match &self.battery_path {
            Some(p) => Ok(p),
            None => Err(String::from_str("No battery found in /sys/class/power_supply")),
        }
    }
}

/// The common convention for battery names on Linux: the entry name
/// starts with `BAT`.
pub open spec fn has_battery_prefix(name: Seq<char>) -> bool {
    "BAT"@.is_prefix_of(name)
}

/// Picks the battery among the entries of the power-supply directory:
/// the first name that starts with `BAT`, if any.
pub fn find_battery_name(names: &Vec<String>) -> (r: Option<usize>)
    ensures
        match r {
            Some(i) => i < names@.len() && has_battery_prefix(names@[i as int]@) && (forall|k: int|
                0 <= k < i ==> !has_battery_prefix(#[trigger] names@[k]@)),
            None => forall|k: int| 0 <= k < names@.len() ==> !has_battery_prefix(#[trigger] names@[k]@),
        },
{
    let n = names.len();
    let mut i: usize = 0;
    while i < n
        invariant
            n == names@.len(),
            i <= n,
            forall|k: int| 0 <= k < i ==> !has_battery_prefix(#[trigger] names@[k]@),
        decreases n - i,
    {
        if has_prefix(names[i].as_str(), "BAT") {
            return Some(i);
        }
        i = i + 1;
    }
    None
}

/// The status a sysfs status string denotes, after trimming:
/// `Charging`, `Discharging` and `Full` map to their variants, and any
/// unrecognized string maps to `Unknown`, never to an error.
pub open spec fn spec_status_of(s: Seq<char>) -> BatteryStatus {
    let t = spec_trim(s);
    if t == "Charging"@ {
        BatteryStatus::Charging
    } else if t == "Discharging"@ {
        BatteryStatus::Discharging
    } else if t == "Full"@ {
        BatteryStatus::Full
    } else {
        BatteryStatus::Unknown
    }
}

/// Translates a raw sysfs status string into a [`BatteryStatus`].
pub fn parse_status(s: &str) -> (r: BatteryStatus)
    ensures
        r == spec_status_of(s@),
{
    let t = trim(s);
    if str_eq(t, "Charging") {
        BatteryStatus::Charging
    } else if str_eq(t, "Discharging") {
        BatteryStatus::Discharging
    } else if str_eq(t, "Full") {
        BatteryStatus::Full
    } else {
        BatteryStatus::Unknown
    }
}

/// Builds a battery sample from the raw text of the sysfs `capacity`
/// and `status` attributes.  Fails exactly when the trimmed capacity
/// text is not an unsigned decimal percentage in the range 0 to 100,
/// so an `Ok` sample always carries a valid capacity; an unrecognized
/// status is not an error.
pub fn battery_info_from_strings(capacity_raw: &str, status_raw: &str) -> (r: Result<
    BatteryInfo,
    String,
>)
    ensures
        match spec_parse_percent(spec_trim(capacity_raw@)) {
            Some(c) => r matches Ok(info) && info == (BatteryInfo {
                capacity: c,
                status: spec_status_of(status_raw@),
            }),
            None => r matches Err(m) && m@ == "Failed to parse capacity value"@,
        },
        r matches Ok(info) ==> info.capacity <= 100,
{
    let capacity = match parse_percent(trim(capacity_raw)) {
        Some(c) => c,
        None => {
            return Err(String::from_str("Failed to parse capacity value"));
        },
    };
    let status = parse_status(status_raw);
    Ok(BatteryInfo { capacity, status })
}

} // verus!
