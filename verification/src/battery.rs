//! Battery status codec: parsing the two raw sysfs battery attributes into a
//! typed charge-state / level pair, and rendering the pair back to text.

use crate::text::dec_of;
use crate::text::u8_to_string;
use vstd::prelude::*;

verus! {

/// Charge state of the headset battery, as reported by the driver's
/// `power_supply/.../status` attribute.
#[derive(Clone, Copy, PartialEq, Eq, Structural, Debug)]
pub enum BatteryActionStatus {
    Charging,
    Discharging,
    Full,
    Empty,
}

/// The exact attribute text that denotes each charge state.
pub open spec fn label_of(s: BatteryActionStatus) -> Seq<char> {
    match s {
        BatteryActionStatus::Charging => "Charging"@,
        BatteryActionStatus::Discharging => "Discharging"@,
        BatteryActionStatus::Full => "Full"@,
        BatteryActionStatus::Empty => "Empty"@,
    }
}

/// Which charge state, if any, a piece of attribute text denotes.
/// Only the four exact labels are recognised; anything else is no state.
pub open spec fn parse_label(t: Seq<char>) -> Option<BatteryActionStatus> {
    if t == "Charging"@ {
        Some(BatteryActionStatus::Charging)
    } else if t == "Discharging"@ {
        Some(BatteryActionStatus::Discharging)
    } else if t == "Full"@ {
        Some(BatteryActionStatus::Full)
    } else if t == "Empty"@ {
        Some(BatteryActionStatus::Empty)
    } else {
        None
    }
}

impl BatteryActionStatus {
    /// Parses charge-state attribute text. Absent text, or text that is not
    /// exactly one of the four labels, yields no state: a battery whose state
    /// cannot be read is a normal condition, not an error.
    pub fn parse(s: Option<String>) -> (r: Option<Self>)
        ensures
            r == match s {
                Some(t) => parse_label(t@),
                None => None::<Self>,
            },
    {
        match s {
            None => None,
            Some(t) => {
                if t == String::from_str("Charging") {
                    Some(Self::Charging)
                } else if t == String::from_str("Discharging") {
                    Some(Self::Discharging)
                } else if t == String::from_str("Full") {
                    Some(Self::Full)
                } else if t == String::from_str("Empty") {
                    Some(Self::Empty)
                } else {
                    None
                }
            },
        }
    }

    /// Renders the charge state back to its exact attribute label.
    pub fn label(&self) -> (r: String)
        ensures
            r@ == label_of(*self),
    {
        match self {
            Self::Charging => String::from_str("Charging"),
            Self::Discharging => String::from_str("Discharging"),
            Self::Full => String::from_str("Full"),
            Self::Empty => String::from_str("Empty"),
        }
    }
}

/// Battery snapshot of one headset: charge state and level in percent.
/// Built all-or-nothing: a status with an unknown state or an unknown level
/// is treated the same as a battery that could not be reached at all.
#[derive(Clone, Copy, PartialEq, Eq, Structural, Debug)]
pub struct BatteryStatus {
    pub status: BatteryActionStatus,
    pub level: u8,
}

/// What `BatteryStatus::parse` yields: a status exactly when the state text
/// is one of the four labels and a level was read, absent otherwise.
pub open spec fn spec_parse_status(status: Option<Seq<char>>, level: Option<u8>) -> Option<
    BatteryStatus,
> {
    match (status, level) {
        (Some(t), Some(l)) => match parse_label(t) {
            Some(st) => Some(BatteryStatus { status: st, level: l }),
            None => None,
        },
        _ => None,
    }
}

impl BatteryStatus {
    /// The charge state, at the specification level.
    pub open spec fn spec_status(&self) -> BatteryActionStatus {
        self.status
    }

    /// The level in percent, at the specification level.
    pub open spec fn spec_level(&self) -> u8 {
        self.level
    }

    /// Builds a status from the raw state text and the already-parsed level.
    /// Both must be present and the text must be an exact charge-state label;
    /// a half-known battery is reported as no battery at all.
    pub fn parse(status: Option<String>, level: Option<u8>) -> (r: Option<Self>)
        ensures
            r == spec_parse_status(
                match status {
                    Some(t) => Some(t@),
                    None => None::<Seq<char>>,
                },
                level,
            ),
    {
        match (BatteryActionStatus::parse(status), level) {
            (Some(st), Some(l)) => Some(BatteryStatus { status: st, level: l }),
            _ => None,
        }
    }

    /// The level in percent.
    pub fn level(&self) -> (r: u8)
        ensures
            r == self.spec_level(),
    {
        self.level
    }

    /// The charge state.
    pub fn status(&self) -> (r: BatteryActionStatus)
        ensures
            r == self.spec_status(),
    {
        self.status
    }
}

/// Display text for the charge state of an optional battery: the exact label
/// when a status is present, `Unknown` when none is.
pub open spec fn spec_render_state(b: Option<BatteryStatus>) -> Seq<char> {
    match b {
        Some(s) => label_of(s.spec_status()),
        None => "Unknown"@,
    }
}

/// Display text for the level of an optional battery: `<N>%` when a status
/// is present, `Disconnected` when none is. The two absence wordings differ
/// on purpose: an unknown state and an unreadable level have different
/// real-world causes.
pub open spec fn spec_render_level(b: Option<BatteryStatus>) -> Seq<char> {
    match b {
        Some(s) => dec_of(s.spec_level() as nat) + "%"@,
        None => "Disconnected"@,
    }
}

/// Renders the charge state of an optional battery for display.
pub fn render_state(b: &Option<BatteryStatus>) -> (r: String)
    ensures
        r@ == spec_render_state(*b),
{
    match b {
        Some(s) => s.status().label(),
        None => String::from_str("Unknown"),
    }
}

/// Renders the battery level of an optional battery for display.
pub fn render_level(b: &Option<BatteryStatus>) -> (r: String)
    ensures
        r@ == spec_render_level(*b),
{
    match b {
        Some(s) => {
            let mut out = u8_to_string(s.level());
            out.append("%");
            out
        },
        None => String::from_str("Disconnected"),
    }
}

/// A battery status is absent whenever either input is absent or the
/// charge-state text is not one of the four labels, whatever the other input
/// holds: a half-known battery never leaks through.
pub proof fn lemma_parse_absent(status: Option<Seq<char>>, level: Option<u8>)
    requires
        status is None || level is None || parse_label(status.unwrap()) is None,
    ensures
        spec_parse_status(status, level) is None,
{
}

/// Parsing any charge-state label back from its rendering gives the state it
/// came from: the four labels are pairwise distinct, so the round trip is
/// exact.
pub proof fn lemma_label_round_trip(s: BatteryActionStatus)
    ensures
        parse_label(label_of(s)) == Some(s),
{
    reveal_strlit("Charging");
    reveal_strlit("Discharging");
    reveal_strlit("Full");
    reveal_strlit("Empty");
    assert("Charging"@.len() == 8);
    assert("Discharging"@.len() == 11);
    assert("Full"@.len() == 4);
    assert("Empty"@.len() == 5);
}

} // verus!
