use thermostat_control::control::{
    interval_seconds, loop_config, plan_tick, select_reading, select_target, ControlState,
    TemperatureUnit, ThresholdConfig,
};
use thermostat_control::modes::OperatingMode;
use thermostat_control::settings::WeatherSettings;

fn cool_only_config() -> ThresholdConfig {
    ThresholdConfig {
        cool_above: Some(78),
        heat_below: None,
        off_above: None,
        off_below: None,
        interval_minutes: 5,
        unit: TemperatureUnit::Imperial,
    }
}

fn full_config() -> ThresholdConfig {
    ThresholdConfig {
        cool_above: Some(80),
        heat_below: Some(65),
        off_above: Some(78),
        off_below: Some(70),
        interval_minutes: 5,
        unit: TemperatureUnit::Imperial,
    }
}

#[test]
fn hot_reading_selects_cool_and_carries_it_forward() {
    let cfg = cool_only_config();
    let state = ControlState {
        current_mode: OperatingMode::Off,
    };
    let plan = plan_tick(&cfg, &state, Some(80));
    assert_eq!(plan.target, Some(OperatingMode::Cool));
    assert_eq!(plan.next.current_mode, OperatingMode::Cool);
}

#[test]
fn repeated_reading_is_idempotent_once_cooling() {
    let cfg = cool_only_config();
    let state = ControlState {
        current_mode: OperatingMode::Cool,
    };
    let plan = plan_tick(&cfg, &state, Some(80));
    assert_eq!(plan.target, None);
    assert_eq!(plan.next.current_mode, OperatingMode::Cool);
}

#[test]
fn fetch_failure_changes_nothing_and_blocks_nothing() {
    let cfg = cool_only_config();
    let state = ControlState {
        current_mode: OperatingMode::Off,
    };
    let failed = plan_tick(&cfg, &state, None);
    assert_eq!(failed.target, None);
    assert_eq!(failed.next, state);
    let recovered = plan_tick(&cfg, &failed.next, Some(80));
    assert_eq!(recovered.target, Some(OperatingMode::Cool));
    assert_eq!(recovered.next.current_mode, OperatingMode::Cool);
}

#[test]
fn cool_rule_outranks_off_above_rule() {
    let cfg = full_config();
    let target = select_target(&cfg, OperatingMode::Heat, 85);
    assert_eq!(target, Some(OperatingMode::Cool));
}

#[test]
fn off_above_fires_when_already_cooling() {
    let cfg = full_config();
    let target = select_target(&cfg, OperatingMode::Cool, 79);
    assert_eq!(target, Some(OperatingMode::Off));
}

#[test]
fn heat_rule_outranks_off_below_rule() {
    let cfg = full_config();
    let target = select_target(&cfg, OperatingMode::Off, 60);
    assert_eq!(target, Some(OperatingMode::Heat));
}

#[test]
fn off_below_fires_when_already_heating() {
    let cfg = full_config();
    let target = select_target(&cfg, OperatingMode::Heat, 68);
    assert_eq!(target, Some(OperatingMode::Off));
}

#[test]
fn comfort_band_reading_is_a_no_op() {
    let cfg = full_config();
    assert_eq!(select_target(&cfg, OperatingMode::Off, 75), None);
    assert_eq!(select_target(&cfg, OperatingMode::Heat, 75), None);
}

#[test]
fn boundary_readings_do_not_trigger() {
    let cfg = full_config();
    assert_eq!(select_target(&cfg, OperatingMode::Off, 80), None);
    assert_eq!(select_target(&cfg, OperatingMode::Cool, 78), None);
    assert_eq!(select_target(&cfg, OperatingMode::Off, 65), None);
    assert_eq!(select_target(&cfg, OperatingMode::Heat, 70), None);
}

#[test]
fn inconsistent_start_is_driven_to_a_real_mode() {
    let cfg = full_config();
    let state = ControlState {
        current_mode: OperatingMode::Inconsistent,
    };
    let plan = plan_tick(&cfg, &state, Some(85));
    assert_eq!(plan.target, Some(OperatingMode::Cool));
}

#[test]
fn loop_config_requires_interval_and_unit() {
    let mut s = WeatherSettings {
        api_key: Some(String::from("key")),
        query: Some(String::from("12345")),
        metric: Some(false),
        heat_below: Some(65),
        cool_above: Some(80),
        off_above: None,
        off_below: None,
        interval: Some(15),
    };
    let cfg = loop_config(&s).expect("interval and unit are set");
    assert_eq!(cfg.interval_minutes, 15);
    assert_eq!(cfg.unit, TemperatureUnit::Imperial);
    assert_eq!(cfg.cool_above, Some(80));
    assert_eq!(cfg.heat_below, Some(65));
    s.interval = None;
    assert!(loop_config(&s).is_none());
    s.interval = Some(15);
    s.metric = None;
    assert!(loop_config(&s).is_none());
}

#[test]
fn select_reading_follows_the_unit() {
    assert_eq!(
        select_reading(TemperatureUnit::Metric, Some(21), Some(70)),
        Some(21)
    );
    assert_eq!(
        select_reading(TemperatureUnit::Imperial, Some(21), Some(70)),
        Some(70)
    );
    assert_eq!(select_reading(TemperatureUnit::Imperial, Some(21), None), None);
}

#[test]
fn interval_converts_to_seconds() {
    assert_eq!(interval_seconds(5), 300);
    assert_eq!(interval_seconds(1), 60);
}
