//! Operator-configured control settings and their validator.
//!
//! Temperatures are fixed-point integers in the operator's unit system (the
//! same scaled representation throughout: a reading and a threshold compare
//! directly). The validator gate-checks a candidate configuration before it
//! is persisted, so the control loop never observes contradictory thresholds.

use vstd::prelude::*;

verus! {

/// The raw, operator-entered control settings as the settings store holds
/// them: every field may still be unset.
#[derive(Debug)]
pub struct WeatherSettings {
    /// Credential for the temperature source.
    pub api_key: Option<String>,
    /// Location query handed to the temperature source.
    pub query: Option<String>,
    /// Whether to read the metric or the imperial temperature field.
    pub metric: Option<bool>,
    /// Switch to Heat when the temperature falls below this.
    pub heat_below: Option<i64>,
    /// Switch to Cool when the temperature exceeds this.
    pub cool_above: Option<i64>,
    /// Switch Off when the temperature exceeds this (secondary to cooling).
    pub off_above: Option<i64>,
    /// Switch Off when the temperature falls below this (secondary to heating).
    pub off_below: Option<i64>,
    /// Whole minutes to wait between samples.
    pub interval: Option<u64>,
}

/// One violation found by the validator.
#[derive(Clone, Copy, Debug, PartialEq, Eq, Structural)]
pub enum SettingsViolation {
    ApiKeyUnset,
    IntervalUnset,
    QueryUnset,
    CoolAboveUnset,
    HeatBelowUnset,
    CoolAboveNotAboveHeatBelow,
    IntervalTooSmall,
    OffThresholdsOutOfOrder,
    OffAboveOutOfBand,
    OffBelowOutOfBand,
}

/// The comfort-band thresholds are both set but inverted or touching.
pub open spec fn comfort_band_inverted(s: WeatherSettings) -> bool {
    s.cool_above matches Some(ca) && s.heat_below matches Some(hb) && ca <= hb
}

/// Both off-thresholds are set, but the full strict chain
/// `cool_above > off_above > off_below > heat_below` does not hold.
pub open spec fn off_pair_out_of_order(s: WeatherSettings) -> bool {
    s.off_above matches Some(oa) && s.off_below matches Some(ob) && !(s.cool_above
        matches Some(ca) && s.heat_below matches Some(hb) && ca > oa && oa > ob && ob > hb)
}

/// Only `off_above` is set among the off-thresholds, and it does not lie
/// strictly between `cool_above` and `heat_below`.
pub open spec fn off_above_out_of_band(s: WeatherSettings) -> bool {
    s.off_above matches Some(oa) && s.off_below is None && !(s.cool_above matches Some(ca)
        && s.heat_below matches Some(hb) && ca > oa && oa > hb)
}

/// Only `off_below` is set among the off-thresholds, and it does not lie
/// strictly between `cool_above` and `heat_below`.
pub open spec fn off_below_out_of_band(s: WeatherSettings) -> bool {
    s.off_below matches Some(ob) && s.off_above is None && !(s.cool_above matches Some(ca)
        && s.heat_below matches Some(hb) && ca > ob && ob > hb)
}

/// Every violation the validator reports for a candidate configuration, in
/// the order the checks run. All checks are independent: none is skipped
/// because an earlier one failed.
pub open spec fn spec_violations(s: WeatherSettings) -> Seq<SettingsViolation> {
    (if s.api_key is None {
        seq![SettingsViolation::ApiKeyUnset]
    } else {
        Seq::<SettingsViolation>::empty()
    }) + (if s.interval is None {
        seq![SettingsViolation::IntervalUnset]
    } else {
        Seq::<SettingsViolation>::empty()
    }) + (if s.query is None {
        seq![SettingsViolation::QueryUnset]
    } else {
        Seq::<SettingsViolation>::empty()
    }) + (if s.cool_above is None {
        seq![SettingsViolation::CoolAboveUnset]
    } else {
        Seq::<SettingsViolation>::empty()
    }) + (if s.heat_below is None {
        seq![SettingsViolation::HeatBelowUnset]
    } else {
        Seq::<SettingsViolation>::empty()
    }) + (if comfort_band_inverted(s) {
        seq![SettingsViolation::CoolAboveNotAboveHeatBelow]
    } else {
        Seq::<SettingsViolation>::empty()
    }) + (if s.interval matches Some(n) && n < 1 {
        seq![SettingsViolation::IntervalTooSmall]
    } else {
        Seq::<SettingsViolation>::empty()
    }) + (if off_pair_out_of_order(s) {
        seq![SettingsViolation::OffThresholdsOutOfOrder]
    } else {
        Seq::<SettingsViolation>::empty()
    }) + (if off_above_out_of_band(s) {
        seq![SettingsViolation::OffAboveOutOfBand]
    } else {
        Seq::<SettingsViolation>::empty()
    }) + (if off_below_out_of_band(s) {
        seq![SettingsViolation::OffBelowOutOfBand]
    } else {
        Seq::<SettingsViolation>::empty()
    })
}

/// A configuration is valid exactly when the validator finds nothing.
pub open spec fn settings_valid(s: WeatherSettings) -> bool {
    spec_violations(s).len() == 0
}

/// The total ordering invariant the control loop relies on: the comfort-band
/// thresholds are present with `cool_above > heat_below`, and any off-
/// threshold lies strictly inside the band, with `off_above > off_below`
/// when both are present. No temperature can then satisfy two contradictory
/// rules in opposite directions.
pub open spec fn thresholds_ordered(
    cool_above: Option<i64>,
    heat_below: Option<i64>,
    off_above: Option<i64>,
    off_below: Option<i64>,
) -> bool {
    &&& cool_above is Some
    &&& heat_below is Some
    &&& cool_above->0 > heat_below->0
    &&& (off_above is Some ==> cool_above->0 > off_above->0 && off_above->0 > heat_below->0)
    &&& (off_below is Some ==> cool_above->0 > off_below->0 && off_below->0 > heat_below->0)
    &&& (off_above is Some && off_below is Some ==> off_above->0 > off_below->0)
}

/// Gate-check a candidate configuration. Returns every violation found, in
/// check order; an empty result means the configuration may be persisted.
/// Persistence is the caller's responsibility and must not happen when the
/// result is non-empty.
#[verifier::rlimit(50)]
pub fn validate(s: &WeatherSettings) -> (v: Vec<SettingsViolation>)
    ensures
        v@ == spec_violations(*s),
        v@.len() == 0 <==> settings_valid(*s),
{
    let mut v: Vec<SettingsViolation> = Vec::new();
    if s.api_key.is_none() {
        v.push(SettingsViolation::ApiKeyUnset);
    }
    if s.interval.is_none() {
        v.push(SettingsViolation::IntervalUnset);
    }
    if s.query.is_none() {
        v.push(SettingsViolation::QueryUnset);
    }
    if s.cool_above.is_none() {
        v.push(SettingsViolation::CoolAboveUnset);
    }
    if s.heat_below.is_none() {
        v.push(SettingsViolation::HeatBelowUnset);
    }
    let comfort_inverted = match (s.cool_above, s.heat_below) {
        (Some(ca), Some(hb)) => ca <= hb,
        _ => false,
    };
    if comfort_inverted {
        v.push(SettingsViolation::CoolAboveNotAboveHeatBelow);
    }
    let interval_too_small = match s.interval {
        Some(n) => n < 1,
        None => false,
    };
    if interval_too_small {
        v.push(SettingsViolation::IntervalTooSmall);
    }
    let band = match (s.cool_above, s.heat_below) {
        (Some(ca), Some(hb)) => Some((ca, hb)),
        _ => None,
    };
    match (s.off_above, s.off_below) {
        (Some(oa), Some(ob)) => {
            let ordered = match band {
                Some((ca, hb)) => ca > oa && oa > ob && ob > hb,
                None => false,
            };
            if !ordered {
                v.push(SettingsViolation::OffThresholdsOutOfOrder);
            }
        },
        (Some(oa), None) => {
            let in_band = match band {
                Some((ca, hb)) => ca > oa && oa > hb,
                None => false,
            };
            if !in_band {
                v.push(SettingsViolation::OffAboveOutOfBand);
            }
        },
        (None, Some(ob)) => {
            let in_band = match band {
                Some((ca, hb)) => ca > ob && ob > hb,
                None => false,
            };
            if !in_band {
                v.push(SettingsViolation::OffBelowOutOfBand);
            }
        },
        (None, None) => {},
    }
    proof {
        assert(v@ =~= spec_violations(*s));
    }
    v
}

/// A configuration the validator accepts satisfies the total ordering
/// invariant, has its interval present and at least one minute, and has its
/// credential and query target present: the control loop never observes a
/// contradictory configuration that went through the validator.
#[verifier::rlimit(50)]
pub proof fn lemma_valid_settings_ordered(s: WeatherSettings)
    requires
        settings_valid(s),
    ensures
        thresholds_ordered(s.cool_above, s.heat_below, s.off_above, s.off_below),
        s.interval matches Some(n) && n >= 1,
        s.api_key is Some,
        s.query is Some,
{
    let g0 = if s.api_key is None {
        seq![SettingsViolation::ApiKeyUnset]
    } else {
        Seq::<SettingsViolation>::empty()
    };
    let g1 = if s.interval is None {
        seq![SettingsViolation::IntervalUnset]
    } else {
        Seq::<SettingsViolation>::empty()
    };
    let g2 = if s.query is None {
        seq![SettingsViolation::QueryUnset]
    } else {
        Seq::<SettingsViolation>::empty()
    };
    let g3 = if s.cool_above is None {
        seq![SettingsViolation::CoolAboveUnset]
    } else {
        Seq::<SettingsViolation>::empty()
    };
    let g4 = if s.heat_below is None {
        seq![SettingsViolation::HeatBelowUnset]
    } else {
        Seq::<SettingsViolation>::empty()
    };
    let g5 = if comfort_band_inverted(s) {
        seq![SettingsViolation::CoolAboveNotAboveHeatBelow]
    } else {
        Seq::<SettingsViolation>::empty()
    };
    let g6 = if s.interval matches Some(n) && n < 1 {
        seq![SettingsViolation::IntervalTooSmall]
    } else {
        Seq::<SettingsViolation>::empty()
    };
    let g7 = if off_pair_out_of_order(s) {
        seq![SettingsViolation::OffThresholdsOutOfOrder]
    } else {
        Seq::<SettingsViolation>::empty()
    };
    let g8 = if off_above_out_of_band(s) {
        seq![SettingsViolation::OffAboveOutOfBand]
    } else {
        Seq::<SettingsViolation>::empty()
    };
    let g9 = if off_below_out_of_band(s) {
        seq![SettingsViolation::OffBelowOutOfBand]
    } else {
        Seq::<SettingsViolation>::empty()
    };
    assert(spec_violations(s) == g0 + g1 + g2 + g3 + g4 + g5 + g6 + g7 + g8 + g9);
    assert(g0.len() == 0 && g1.len() == 0 && g2.len() == 0 && g3.len() == 0 && g4.len() == 0
        && g5.len() == 0 && g6.len() == 0 && g7.len() == 0 && g8.len() == 0 && g9.len() == 0);
    assert(!comfort_band_inverted(s));
    assert(!off_pair_out_of_order(s));
    assert(!off_above_out_of_band(s));
    assert(!off_below_out_of_band(s));
    let ca = s.cool_above->0;
    let hb = s.heat_below->0;
    assert(ca > hb);
    if s.off_above is Some {
        let oa = s.off_above->0;
        if s.off_below is Some {
            assert(ca > oa && oa > s.off_below->0 && s.off_below->0 > hb);
        } else {
            assert(ca > oa && oa > hb);
        }
    }
    if s.off_below is Some && s.off_above is None {
        assert(ca > s.off_below->0 && s.off_below->0 > hb);
    }
}

/// What one operator entry at the interactive setup means, once its trailing
/// line break is removed.
#[derive(Clone, Copy, Debug, PartialEq, Eq, Structural)]
pub enum EntryAction {
    /// A single space: set the field to empty (unset).
    Unset,
    /// Any other non-empty entry: parse it as the field's new value.
    Parse,
    /// An empty entry: keep the field's current value.
    Keep,
}

/// The meaning of a setup entry: a lone space unsets the field, any other
/// non-empty entry is parsed, and an empty entry keeps the current value.
pub open spec fn spec_entry_action(entry: Seq<char>) -> EntryAction {
    if entry == seq![' '] {
        EntryAction::Unset
    } else if entry.len() > 0 {
        EntryAction::Parse
    } else {
        EntryAction::Keep
    }
}

/// Interpret one operator entry at the interactive setup.
pub fn entry_action(entry: &str) -> (a: EntryAction)
    ensures
        a == spec_entry_action(entry@),
{
    let n = entry.unicode_len();
    if n == 1 && entry.get_char(0) == ' ' {
        proof {
            assert(entry@ =~= seq![' ']);
        }
        EntryAction::Unset
    } else if n > 0 {
        proof {
            assert(entry@ != seq![' ']) by {
                if entry@.len() == 1 {
                    assert(entry@[0] != ' ');
                }
            }
        }
        EntryAction::Parse
    } else {
        EntryAction::Keep
    }
}

impl SettingsViolation {
    /// The diagnostic line printed for this violation.
    pub fn message(&self) -> (m: String)
        ensures
            *self is ApiKeyUnset ==> m@ == "ERROR: API Key unset."@,
            *self is IntervalUnset ==> m@ == "ERROR: Interval unset."@,
            *self is QueryUnset ==> m@ == "ERROR: Query unset."@,
            *self is CoolAboveUnset ==> m@ == "ERROR: Cool Above unset."@,
            *self is HeatBelowUnset ==> m@ == "ERROR: Heat Below unset."@,
            *self is CoolAboveNotAboveHeatBelow ==> m@
                == "ERROR: Setting Cool Above to less than or equal to Heat Below."@,
            *self is IntervalTooSmall ==> m@
                == "ERROR: Setting interval to less than every minute."@,
            *self is OffThresholdsOutOfOrder ==> m@
                == "ERROR: Cool Above > Off Above > Off Below > Heat Below is not true."@,
            *self is OffAboveOutOfBand ==> m@
                == "ERROR: Cool Above > Off Above > Heat Below is not true."@,
            *self is OffBelowOutOfBand ==> m@
                == "ERROR: Cool Above > Off Below > Heat Below is not true."@,
    {
        match self {
            SettingsViolation::ApiKeyUnset => String::from_str("ERROR: API Key unset."),
            SettingsViolation::IntervalUnset => String::from_str("ERROR: Interval unset."),
            SettingsViolation::QueryUnset => String::from_str("ERROR: Query unset."),
            SettingsViolation::CoolAboveUnset => String::from_str("ERROR: Cool Above unset."),
            SettingsViolation::HeatBelowUnset => String::from_str("ERROR: Heat Below unset."),
            SettingsViolation::CoolAboveNotAboveHeatBelow => String::from_str(
                "ERROR: Setting Cool Above to less than or equal to Heat Below.",
            ),
            SettingsViolation::IntervalTooSmall => String::from_str(
                "ERROR: Setting interval to less than every minute.",
            ),
            SettingsViolation::OffThresholdsOutOfOrder => String::from_str(
                "ERROR: Cool Above > Off Above > Off Below > Heat Below is not true.",
            ),
            SettingsViolation::OffAboveOutOfBand => String::from_str(
                "ERROR: Cool Above > Off Above > Heat Below is not true.",
            ),
            SettingsViolation::OffBelowOutOfBand => String::from_str(
                "ERROR: Cool Above > Off Below > Heat Below is not true.",
            ),
        }
    }
}

} // verus!
