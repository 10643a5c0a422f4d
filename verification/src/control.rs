//! The climate control loop's decision core.
//!
//! Each tick of the loop samples a temperature, evaluates the threshold
//! rules in a fixed priority order, and applies at most one mode transition.
//! The decision is a pure function from the carried-forward mode and the
//! sample to a plan; the surrounding process performs the fetch, the
//! broadcast and the sleep.

use crate::modes::OperatingMode;
use crate::settings::lemma_valid_settings_ordered;
use crate::settings::settings_valid;
use crate::settings::thresholds_ordered;
use crate::settings::WeatherSettings;
use vstd::prelude::*;

verus! {

/// Which temperature field of the source to read.
#[derive(Clone, Copy, Debug, PartialEq, Eq, Structural)]
pub enum TemperatureUnit {
    Metric,
    Imperial,
}

/// The configuration the control loop runs on, drawn from the persisted
/// settings once the loop's preconditions hold. Temperatures are fixed-point
/// integers in the unit system that `unit` names.
#[derive(Clone, Copy, Debug, PartialEq, Eq, Structural)]
pub struct ThresholdConfig {
    /// Switch to Cool when the temperature exceeds this.
    pub cool_above: Option<i64>,
    /// Switch to Heat when the temperature falls below this.
    pub heat_below: Option<i64>,
    /// Switch Off when the temperature exceeds this (secondary to cooling).
    pub off_above: Option<i64>,
    /// Switch Off when the temperature falls below this (secondary to heating).
    pub off_below: Option<i64>,
    /// Whole minutes between samples.
    pub interval_minutes: u64,
    /// Which temperature field to read from the source.
    pub unit: TemperatureUnit,
}

impl ThresholdConfig {
    /// A configuration the validator would let the loop run on: thresholds
    /// totally ordered and a sampling interval of at least one minute.
    pub open spec fn wf(self) -> bool {
        &&& thresholds_ordered(self.cool_above, self.heat_below, self.off_above, self.off_below)
        &&& self.interval_minutes >= 1
    }
}

/// The loop's working memory, carried from one tick to the next and never
/// persisted: only the current aggregate HVAC mode.
#[derive(Clone, Copy, Debug, PartialEq, Eq, Structural)]
pub struct ControlState {
    pub current_mode: OperatingMode,
}

/// What one tick decided: the mode to broadcast, if any, and the state the
/// next tick starts from.
#[derive(Clone, Copy, Debug, PartialEq, Eq, Structural)]
pub struct TickPlan {
    /// The mode to broadcast to every device this tick; `None` is a no-op tick.
    pub target: Option<OperatingMode>,
    /// The carried-forward state: the target once one is selected, else the
    /// old state.
    pub next: ControlState,
}

/// Rule (a): switch to Cool when the temperature exceeds `cool_above` and the
/// current mode is not already Cool.
pub open spec fn cool_rule(cfg: ThresholdConfig, current: OperatingMode, t: i64) -> bool {
    cfg.cool_above is Some && t > cfg.cool_above->0 && current != OperatingMode::Cool
}

/// Rule (b): switch Off when the temperature exceeds `off_above` and the
/// current mode is not already Off.
pub open spec fn off_above_rule(cfg: ThresholdConfig, current: OperatingMode, t: i64) -> bool {
    cfg.off_above is Some && t > cfg.off_above->0 && current != OperatingMode::Off
}

/// Rule (c): switch to Heat when the temperature falls below `heat_below` and
/// the current mode is not already Heat.
pub open spec fn heat_rule(cfg: ThresholdConfig, current: OperatingMode, t: i64) -> bool {
    cfg.heat_below is Some && t < cfg.heat_below->0 && current != OperatingMode::Heat
}

/// Rule (d): switch Off when the temperature falls below `off_below` and the
/// current mode is not already Off.
pub open spec fn off_below_rule(cfg: ThresholdConfig, current: OperatingMode, t: i64) -> bool {
    cfg.off_below is Some && t < cfg.off_below->0 && current != OperatingMode::Off
}

/// The target of one decision: the rules in their fixed priority order —
/// cool-above, then off-above, then heat-below, then off-below — with the
/// first match selected and `None` when no rule matches.
pub open spec fn spec_select_target(cfg: ThresholdConfig, current: OperatingMode, t: i64) -> Option<
    OperatingMode,
> {
    if cool_rule(cfg, current, t) {
        Some(OperatingMode::Cool)
    } else if off_above_rule(cfg, current, t) {
        Some(OperatingMode::Off)
    } else if heat_rule(cfg, current, t) {
        Some(OperatingMode::Heat)
    } else if off_below_rule(cfg, current, t) {
        Some(OperatingMode::Off)
    } else {
        None
    }
}

/// The mode one tick broadcasts, if any: nothing on a failed sample, else
/// whatever the priority rules select.
pub open spec fn spec_tick_target(
    cfg: ThresholdConfig,
    current: OperatingMode,
    reading: Option<i64>,
) -> Option<OperatingMode> {
    match reading {
        Some(t) => spec_select_target(cfg, current, t),
        None => None,
    }
}

/// The mode carried into the next tick: the broadcast target once one is
/// selected, else the old mode.
pub open spec fn spec_tick_next(
    cfg: ThresholdConfig,
    current: OperatingMode,
    reading: Option<i64>,
) -> OperatingMode {
    match spec_tick_target(cfg, current, reading) {
        Some(m) => m,
        None => current,
    }
}

/// Select the mode to transition to for one temperature sample, applying the
/// rules in their fixed priority order. A selected target is always a
/// settable mode and always differs from the current mode.
pub fn select_target(cfg: &ThresholdConfig, current: OperatingMode, t: i64) -> (target: Option<
    OperatingMode,
>)
    ensures
        target == spec_select_target(*cfg, current, t),
        target matches Some(m) ==> m != OperatingMode::Inconsistent && m != current,
{
    if cool_above_matches(cfg, current, t) {
        Some(OperatingMode::Cool)
    } else if off_above_matches(cfg, current, t) {
        Some(OperatingMode::Off)
    } else if heat_below_matches(cfg, current, t) {
        Some(OperatingMode::Heat)
    } else if off_below_matches(cfg, current, t) {
        Some(OperatingMode::Off)
    } else {
        None
    }
}

fn cool_above_matches(cfg: &ThresholdConfig, current: OperatingMode, t: i64) -> (r: bool)
    ensures
        r == cool_rule(*cfg, current, t),
{
    match cfg.cool_above {
        Some(ca) => t > ca && current != OperatingMode::Cool,
        None => false,
    }
}

fn off_above_matches(cfg: &ThresholdConfig, current: OperatingMode, t: i64) -> (r: bool)
    ensures
        r == off_above_rule(*cfg, current, t),
{
    match cfg.off_above {
        Some(oa) => t > oa && current != OperatingMode::Off,
        None => false,
    }
}

fn heat_below_matches(cfg: &ThresholdConfig, current: OperatingMode, t: i64) -> (r: bool)
    ensures
        r == heat_rule(*cfg, current, t),
{
    match cfg.heat_below {
        Some(hb) => t < hb && current != OperatingMode::Heat,
        None => false,
    }
}

fn off_below_matches(cfg: &ThresholdConfig, current: OperatingMode, t: i64) -> (r: bool)
    ensures
        r == off_below_rule(*cfg, current, t),
{
    match cfg.off_below {
        Some(ob) => t < ob && current != OperatingMode::Off,
        None => false,
    }
}

/// Decide one tick. On a failed sample (`reading` is `None`) the tick is a
/// no-op: nothing is broadcast and the state is carried unchanged. On a
/// successful sample the priority rules pick at most one transition; the
/// carried-forward mode becomes the target optimistically, as soon as the
/// broadcast is initiated.
pub fn plan_tick(cfg: &ThresholdConfig, state: &ControlState, reading: Option<i64>) -> (plan:
    TickPlan)
    ensures
        plan.target == spec_tick_target(*cfg, state.current_mode, reading),
        plan.next.current_mode == spec_tick_next(*cfg, state.current_mode, reading),
        reading is None ==> plan.target is None && plan.next == *state,
        plan.target matches Some(m) ==> m != OperatingMode::Inconsistent && m
            != state.current_mode,
{
    match reading {
        None => TickPlan { target: None, next: *state },
        Some(t) => {
            let target = select_target(cfg, state.current_mode, t);
            let next_mode = match target {
                Some(m) => m,
                None => state.current_mode,
            };
            TickPlan { target, next: ControlState { current_mode: next_mode } }
        },
    }
}

/// The configuration the loop starts on, if its preconditions hold: the
/// sampling interval and the unit system must both be set. Absence of either
/// is a fatal configuration error that the caller reports before exiting.
pub fn loop_config(s: &WeatherSettings) -> (c: Option<ThresholdConfig>)
    ensures
        c is Some <==> s.interval is Some && s.metric is Some,
        c matches Some(cfg) ==> cfg.cool_above == s.cool_above && cfg.heat_below == s.heat_below
            && cfg.off_above == s.off_above && cfg.off_below == s.off_below,
        c matches Some(cfg) ==> cfg.interval_minutes == s.interval->0,
        c matches Some(cfg) ==> cfg.unit == (if s.metric->0 {
            TemperatureUnit::Metric
        } else {
            TemperatureUnit::Imperial
        }),
{
    match (s.interval, s.metric) {
        (Some(interval_minutes), Some(metric)) => Some(
            ThresholdConfig {
                cool_above: s.cool_above,
                heat_below: s.heat_below,
                off_above: s.off_above,
                off_below: s.off_below,
                interval_minutes,
                unit: if metric {
                    TemperatureUnit::Metric
                } else {
                    TemperatureUnit::Imperial
                },
            },
        ),
        _ => None,
    }
}

/// Pick the reading of the configured unit system out of a source response
/// that carries an optional field per unit. A missing field of the requested
/// unit is a failed sample.
pub fn select_reading(unit: TemperatureUnit, temp_c: Option<i64>, temp_f: Option<i64>) -> (r:
    Option<i64>)
    ensures
        r == (if unit is Metric {
            temp_c
        } else {
            temp_f
        }),
{
    match unit {
        TemperatureUnit::Metric => temp_c,
        TemperatureUnit::Imperial => temp_f,
    }
}

/// The wait between samples in the scheduler's native unit: whole minutes
/// converted to seconds, recoverable by the reverse division.
pub fn interval_seconds(interval_minutes: u64) -> (secs: u64)
    requires
        interval_minutes <= u64::MAX / 60,
    ensures
        secs == interval_minutes * 60,
        secs / 60 == interval_minutes,
{
    interval_minutes * 60
}

/// A configuration drawn from settings the validator accepted is well-formed:
/// the loop that runs on it never observes contradictory thresholds or a
/// zero sampling interval.
pub proof fn lemma_valid_settings_make_wf_config(s: WeatherSettings, cfg: ThresholdConfig)
    requires
        settings_valid(s),
        cfg.cool_above == s.cool_above,
        cfg.heat_below == s.heat_below,
        cfg.off_above == s.off_above,
        cfg.off_below == s.off_below,
        s.interval is Some,
        cfg.interval_minutes == s.interval->0,
    ensures
        cfg.wf(),
{
    lemma_valid_settings_ordered(s);
}

/// For every temperature and carried-forward mode, a valid configuration lets
/// at most one of the four rules fire, where a rule fires when the fixed
/// priority order selects it: a firing rule excludes the three after it, so
/// each tick applies at most one transition.
pub proof fn lemma_at_most_one_rule_fires(cfg: ThresholdConfig, current: OperatingMode, t: i64)
    requires
        thresholds_ordered(cfg.cool_above, cfg.heat_below, cfg.off_above, cfg.off_below),
    ensures
        cool_rule(cfg, current, t) ==> spec_select_target(cfg, current, t) == Some(
            OperatingMode::Cool,
        ),
        !cool_rule(cfg, current, t) && off_above_rule(cfg, current, t)
            ==> spec_select_target(cfg, current, t) == Some(OperatingMode::Off),
        !cool_rule(cfg, current, t) && !off_above_rule(cfg, current, t) && heat_rule(
            cfg,
            current,
            t,
        ) ==> spec_select_target(cfg, current, t) == Some(OperatingMode::Heat),
        !cool_rule(cfg, current, t) && !off_above_rule(cfg, current, t) && !heat_rule(
            cfg,
            current,
            t,
        ) && off_below_rule(cfg, current, t) ==> spec_select_target(cfg, current, t) == Some(
            OperatingMode::Off,
        ),
        !cool_rule(cfg, current, t) && !off_above_rule(cfg, current, t) && !heat_rule(
            cfg,
            current,
            t,
        ) && !off_below_rule(cfg, current, t) ==> spec_select_target(cfg, current, t) is None,
{
}

/// Under the ordering invariant, no over-temperature rule and under-
/// temperature rule can match at once: the priority order between the two
/// directions never decides anything. (Two rules of the same direction can
/// still both match — over `cool_above` the temperature is also over
/// `off_above` — which is what the priority order is for.)
pub proof fn lemma_opposite_rules_exclusive(cfg: ThresholdConfig, current: OperatingMode, t: i64)
    requires
        thresholds_ordered(cfg.cool_above, cfg.heat_below, cfg.off_above, cfg.off_below),
    ensures
        !(cool_rule(cfg, current, t) && heat_rule(cfg, current, t)),
        !(cool_rule(cfg, current, t) && off_below_rule(cfg, current, t)),
        !(off_above_rule(cfg, current, t) && heat_rule(cfg, current, t)),
        !(off_above_rule(cfg, current, t) && off_below_rule(cfg, current, t)),
{
}

/// A failed temperature sample changes nothing: the tick broadcasts no mode
/// and carries the state forward unchanged.
pub proof fn lemma_failed_tick_is_noop(cfg: ThresholdConfig, current: OperatingMode)
    ensures
        spec_tick_target(cfg, current, None) is None,
        spec_tick_next(cfg, current, None) == current,
{
}

/// A failed sample on one tick does not affect the next tick: after a failed
/// tick, a successful tick decides exactly what it would have decided had the
/// failure never happened.
pub proof fn lemma_failed_tick_does_not_block(cfg: ThresholdConfig, current: OperatingMode, t: i64)
    ensures
        spec_tick_target(cfg, spec_tick_next(cfg, current, None), Some(t)) == spec_tick_target(
            cfg,
            current,
            Some(t),
        ),
        spec_tick_next(cfg, spec_tick_next(cfg, current, None), Some(t)) == spec_tick_next(
            cfg,
            current,
            Some(t),
        ),
{
}

} // verus!
