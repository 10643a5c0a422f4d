use thermostat_control::devices::{
    thermostat_status, update_thermostats, StatusResponse, StatusResponseThermostat,
    StatusResponseThermostatSettings, ThermostatMeta,
};
use thermostat_control::modes::{aggregate_modes, OperatingMode};

fn thermostat(id: &str, name: &str, mode: &str) -> StatusResponseThermostat {
    StatusResponseThermostat {
        identifier: String::from(id),
        name: String::from(name),
        settings: StatusResponseThermostatSettings {
            hvac_mode: String::from(mode),
        },
    }
}

#[test]
fn three_heating_devices_aggregate_to_heat() {
    let modes = vec![
        OperatingMode::Heat,
        OperatingMode::Heat,
        OperatingMode::Heat,
    ];
    assert_eq!(aggregate_modes(&modes), OperatingMode::Heat);
}

#[test]
fn disagreeing_devices_aggregate_to_inconsistent() {
    let modes = vec![OperatingMode::Heat, OperatingMode::Cool];
    assert_eq!(aggregate_modes(&modes), OperatingMode::Inconsistent);
}

#[test]
fn single_device_is_trivially_consistent() {
    let modes = vec![OperatingMode::Off];
    assert_eq!(aggregate_modes(&modes), OperatingMode::Off);
}

#[test]
fn aggregation_is_order_independent() {
    let one_way = vec![OperatingMode::Heat, OperatingMode::Cool, OperatingMode::Heat];
    let other_way = vec![OperatingMode::Cool, OperatingMode::Heat, OperatingMode::Heat];
    assert_eq!(aggregate_modes(&one_way), aggregate_modes(&other_way));
}

#[test]
fn no_devices_aggregate_to_inconsistent() {
    let modes: Vec<OperatingMode> = Vec::new();
    assert_eq!(aggregate_modes(&modes), OperatingMode::Inconsistent);
}

#[test]
fn status_summary_reads_modes_and_replaces_registry() {
    let resp = StatusResponse {
        thermostats: vec![
            thermostat("100", "Hall", "heat"),
            thermostat("200", "Loft", "heat"),
        ],
    };
    let summary = thermostat_status(&resp);
    assert_eq!(summary.current_mode, OperatingMode::Heat);
    assert_eq!(summary.thermostats.len(), 2);
    assert_eq!(summary.thermostats[0].identifier, "100");
    assert_eq!(summary.thermostats[0].name, "Hall");
    assert_eq!(summary.thermostats[1].identifier, "200");
    assert_eq!(summary.thermostats[1].name, "Loft");
}

#[test]
fn status_summary_flags_disagreement() {
    let resp = StatusResponse {
        thermostats: vec![
            thermostat("100", "Hall", "heat"),
            thermostat("200", "Loft", "cool"),
        ],
    };
    let summary = thermostat_status(&resp);
    assert_eq!(summary.current_mode, OperatingMode::Inconsistent);
}

#[test]
fn unknown_reported_mode_counts_as_inconsistent() {
    let resp = StatusResponse {
        thermostats: vec![thermostat("100", "Hall", "auto")],
    };
    let summary = thermostat_status(&resp);
    assert_eq!(summary.current_mode, OperatingMode::Inconsistent);
}

#[test]
fn broadcast_plans_one_update_per_device() {
    let registry = vec![
        ThermostatMeta {
            identifier: String::from("100"),
            name: String::from("Hall"),
        },
        ThermostatMeta {
            identifier: String::from("200"),
            name: String::from("Loft"),
        },
    ];
    let reqs = update_thermostats(&registry, OperatingMode::Cool);
    assert_eq!(reqs.len(), 2);
    assert_eq!(reqs[0].identifier, "100");
    assert_eq!(reqs[0].hvac_mode, "cool");
    assert_eq!(reqs[1].identifier, "200");
    assert_eq!(reqs[1].hvac_mode, "cool");
}

#[test]
fn broadcast_of_no_devices_is_empty() {
    let registry: Vec<ThermostatMeta> = Vec::new();
    let reqs = update_thermostats(&registry, OperatingMode::Off);
    assert!(reqs.is_empty());
}

#[test]
fn mode_names_round_trip() {
    for mode in [
        OperatingMode::Heat,
        OperatingMode::Cool,
        OperatingMode::Off,
        OperatingMode::Inconsistent,
    ] {
        assert_eq!(OperatingMode::from_name(mode.name().as_str()), mode);
    }
    assert_eq!(OperatingMode::Heat.name(), "heat");
    assert_eq!(OperatingMode::Cool.name(), "cool");
    assert_eq!(OperatingMode::Off.name(), "off");
    assert_eq!(OperatingMode::Inconsistent.name(), "inconsistent");
    assert_eq!(
        OperatingMode::from_name("auxHeatOnly"),
        OperatingMode::Inconsistent
    );
}
