//! The time zones that the date and time functions know by name.

use vstd::prelude::*;
use crate::text::same_text;

verus! {

/// A time zone: UTC, or one of the zones of the United States.
#[derive(Clone, Copy, Debug, PartialEq, Eq, Structural)]
pub enum Zone {
    Utc,
    Alaska,
    Aleutian,
    Arizona,
    Central,
    EastIndiana,
    Eastern,
    Hawaii,
    IndianaStarke,
    Michigan,
    Mountain,
    Pacific,
    Samoa,
}

/// The zone that a name stands for. Every name outside the list, `_`
/// among them, stands for UTC.
pub open spec fn zone_of(name: Seq<char>) -> Zone {
    if name == "US/Alaska"@ {
        Zone::Alaska
    } else if name == "US/Aleutian"@ {
        Zone::Aleutian
    } else if name == "US/Arizona"@ {
        Zone::Arizona
    } else if name == "US/Central"@ {
        Zone::Central
    } else if name == "US/EastIndiana"@ {
        Zone::EastIndiana
    } else if name == "US/Eastern"@ {
        Zone::Eastern
    } else if name == "US/Hawaii"@ {
        Zone::Hawaii
    } else if name == "US/IndianaStarke"@ {
        Zone::IndianaStarke
    } else if name == "US/Michigan"@ {
        Zone::Michigan
    } else if name == "US/Mountain"@ {
        Zone::Mountain
    } else if name == "US/Pacific"@ {
        Zone::Pacific
    } else if name == "US/Samoa"@ {
        Zone::Samoa
    } else {
        Zone::Utc
    }
}

/// The name of the zone in the time zone database.
pub open spec fn database_name(zone: Zone) -> Seq<char> {
    match zone {
        Zone::Utc => "UTC"@,
        Zone::Alaska => "US/Alaska"@,
        Zone::Aleutian => "US/Aleutian"@,
        Zone::Arizona => "US/Arizona"@,
        Zone::Central => "US/Central"@,
        Zone::EastIndiana => "US/East-Indiana"@,
        Zone::Eastern => "US/Eastern"@,
        Zone::Hawaii => "US/Hawaii"@,
        Zone::IndianaStarke => "US/Indiana-Starke"@,
        Zone::Michigan => "US/Michigan"@,
        Zone::Mountain => "US/Mountain"@,
        Zone::Pacific => "US/Pacific"@,
        Zone::Samoa => "US/Samoa"@,
    }
}

/// The zone that a name stands for: see [`zone_of`].
pub fn str_to_tz(timezone: &str) -> (zone: Zone)
    ensures
        zone == zone_of(timezone@),
{
    if same_text(timezone, "US/Alaska") {
        Zone::Alaska
    } else if same_text(timezone, "US/Aleutian") {
        Zone::Aleutian
    } else if same_text(timezone, "US/Arizona") {
        Zone::Arizona
    } else if same_text(timezone, "US/Central") {
        Zone::Central
    } else if same_text(timezone, "US/EastIndiana") {
        Zone::EastIndiana
    } else if same_text(timezone, "US/Eastern") {
        Zone::Eastern
    } else if same_text(timezone, "US/Hawaii") {
        Zone::Hawaii
    } else if same_text(timezone, "US/IndianaStarke") {
        Zone::IndianaStarke
    } else if same_text(timezone, "US/Michigan") {
        Zone::Michigan
    } else if same_text(timezone, "US/Mountain") {
        Zone::Mountain
    } else if same_text(timezone, "US/Pacific") {
        Zone::Pacific
    } else if same_text(timezone, "US/Samoa") {
        Zone::Samoa
    } else {
        Zone::Utc
    }
}

/// The name of the zone in the time zone database: see [`database_name`].
pub fn zone_name(zone: Zone) -> (name: &'static str)
    ensures
        name@ == database_name(zone),
{
    match zone {
        Zone::Utc => "UTC",
        Zone::Alaska => "US/Alaska",
        Zone::Aleutian => "US/Aleutian",
        Zone::Arizona => "US/Arizona",
        Zone::Central => "US/Central",
        Zone::EastIndiana => "US/East-Indiana",
        Zone::Eastern => "US/Eastern",
        Zone::Hawaii => "US/Hawaii",
        Zone::IndianaStarke => "US/Indiana-Starke",
        Zone::Michigan => "US/Michigan",
        Zone::Mountain => "US/Mountain",
        Zone::Pacific => "US/Pacific",
        Zone::Samoa => "US/Samoa",
    }
}

} // verus!
