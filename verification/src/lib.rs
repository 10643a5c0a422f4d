//! Threshold-driven HVAC control: the decision core of a thermostat
//! automation client.
//!
//! The library owns everything that can be stated and proved: operating-mode
//! aggregation, the settings validator with its threshold-ordering invariant,
//! the per-tick decision rules of the control loop, and the small string
//! formats of the on-disk stores. Network and file plumbing live outside and
//! hand the library plain values.

pub mod control;
pub mod devices;
pub mod modes;
pub mod settings;
pub mod storage;
pub mod tokens;
