//! Device status: what a full status query reports, the aggregate mode drawn
//! from it, and the per-device requests of a mode-change broadcast.

use crate::modes::mode_of_name;
use crate::modes::name_of_mode;
use crate::modes::spec_aggregate;
use crate::modes::aggregate_modes;
use crate::modes::OperatingMode;
use vstd::prelude::*;

verus! {

/// The per-thermostat settings of a status report: the HVAC mode under the
/// name the vendor reports it by.
pub struct StatusResponseThermostatSettings {
    pub hvac_mode: String,
}

/// One thermostat of a status report: identifier, display name, and settings.
pub struct StatusResponseThermostat {
    pub identifier: String,
    pub name: String,
    pub settings: StatusResponseThermostatSettings,
}

/// A full status report: every registered thermostat.
pub struct StatusResponse {
    pub thermostats: Vec<StatusResponseThermostat>,
}

/// Identifier and display name of one thermostat, as the device registry
/// persists them between a status query and a later broadcast.
pub struct ThermostatMeta {
    pub identifier: String,
    pub name: String,
}

/// What a status query yields for the loop: the aggregate mode, and the
/// registry entries that replace the persisted ones wholesale.
pub struct StatusSummary {
    /// The aggregate of the reported modes: their common mode when all agree,
    /// `Inconsistent` otherwise.
    pub current_mode: OperatingMode,
    /// One registry entry per reported thermostat, in report order.
    pub thermostats: Vec<ThermostatMeta>,
}

/// One update call of a broadcast: which device, and the mode name to set.
pub struct UpdateRequest {
    pub identifier: String,
    pub hvac_mode: String,
}

/// The modes a status report carries, one per thermostat, in report order.
pub open spec fn reported_modes(resp: StatusResponse) -> Seq<OperatingMode> {
    resp.thermostats@.map(|i: int, t: StatusResponseThermostat| mode_of_name(t.settings.hvac_mode@))
}

/// Digest a status report: aggregate the reported modes — identical reports
/// aggregate to their common mode, any two differing reports to
/// `Inconsistent` — and extract the registry entries that the report
/// replaces, one per thermostat, in order.
pub fn thermostat_status(resp: &StatusResponse) -> (summary: StatusSummary)
    ensures
        summary.current_mode == spec_aggregate(reported_modes(*resp)),
        summary.thermostats@.len() == resp.thermostats@.len(),
        forall|i: int|
            0 <= i < resp.thermostats@.len() ==> (#[trigger] summary.thermostats@[i]).identifier@
                == resp.thermostats@[i].identifier@ && summary.thermostats@[i].name@
                == resp.thermostats@[i].name@,
{
    let n = resp.thermostats.len();
    let mut modes: Vec<OperatingMode> = Vec::new();
    let mut metas: Vec<ThermostatMeta> = Vec::new();
    let mut i: usize = 0;
    while i < n
        invariant
            i <= n,
            n == resp.thermostats@.len(),
            modes@.len() == i,
            metas@.len() == i,
            forall|j: int|
                0 <= j < i ==> #[trigger] modes@[j] == mode_of_name(
                    resp.thermostats@[j].settings.hvac_mode@,
                ),
            forall|j: int|
                0 <= j < i ==> (#[trigger] metas@[j]).identifier@
                    == resp.thermostats@[j].identifier@ && metas@[j].name@
                    == resp.thermostats@[j].name@,
        decreases n - i,
    {
        let t = &resp.thermostats[i];
        modes.push(OperatingMode::from_name(t.settings.hvac_mode.as_str()));
        metas.push(ThermostatMeta { identifier: t.identifier.clone(), name: t.name.clone() });
        i = i + 1;
    }
    let agg = aggregate_modes(&modes);
    proof {
        assert(modes@ =~= reported_modes(*resp));
    }
    StatusSummary { current_mode: agg, thermostats: metas }
}

/// Plan a broadcast: one update request per registered thermostat, each
/// carrying that thermostat's identifier and the target mode's name, in
/// registry order. Devices are updated one at a time, independently — never
/// batched — so a failure at one device narrows nothing but that device's
/// own update. `Inconsistent` is observed-only and never a target.
pub fn update_thermostats(thermostats: &Vec<ThermostatMeta>, mode: OperatingMode) -> (reqs: Vec<
    UpdateRequest,
>)
    requires
        mode != OperatingMode::Inconsistent,
    ensures
        reqs@.len() == thermostats@.len(),
        forall|i: int|
            0 <= i < thermostats@.len() ==> (#[trigger] reqs@[i]).identifier@
                == thermostats@[i].identifier@ && reqs@[i].hvac_mode@ == name_of_mode(mode),
{
    let mode_name = mode.name();
    let mut reqs: Vec<UpdateRequest> = Vec::new();
    let mut i: usize = 0;
    while i < thermostats.len()
        invariant
            i <= thermostats@.len(),
            mode_name@ == name_of_mode(mode),
            reqs@.len() == i,
            forall|j: int|
                0 <= j < i ==> (#[trigger] reqs@[j]).identifier@ == thermostats@[j].identifier@
                    && reqs@[j].hvac_mode@ == name_of_mode(mode),
        decreases thermostats@.len() - i,
    {
        let t = &thermostats[i];
        reqs.push(UpdateRequest { identifier: t.identifier.clone(), hvac_mode: mode_name.clone() });
        i = i + 1;
    }
    reqs
}

} // verus!
