//! The device status record posted to the management backend.
//!
//! Fractional readings are carried in thousandths; serialisation to the
//! wire format and the HTTP request itself live outside this crate.

use vstd::prelude::*;

verus! {

/// Battery state.
#[derive(Clone, Debug)]
pub struct Battery {
    /// Charge level, in thousandths of full.
    pub level_milli: i64,
    pub is_charging: bool,
}

impl Default for Battery {
    /// `is_charging` defaults to true: it suppresses the charging sound
    /// cue when the device boots while plugged in.
    fn default() -> (r: Self)
        ensures
            r.level_milli == 0,
            r.is_charging,
    {
        Battery { level_milli: 0, is_charging: true }
    }
}

/// Wireless link quality.
#[derive(Clone, Debug)]
pub struct WifiQuality {
    /// Link bit rate, in thousandths of a megabit per second.
    pub bit_rate_milli: i64,
    pub link_quality: i64,
    pub signal_level: i64,
    pub noise_level: i64,
}

impl Default for WifiQuality {
    fn default() -> (r: Self)
        ensures
            r.bit_rate_milli == 0,
            r.link_quality == 0,
            r.signal_level == 0,
            r.noise_level == 0,
    {
        WifiQuality { bit_rate_milli: 0, link_quality: 0, signal_level: 0, noise_level: 0 }
    }
}

/// The wireless network the device is on.
#[derive(Clone, Debug)]
pub struct Wifi {
    pub ssid: String,
    pub quality: WifiQuality,
}

/// Temperatures across the device, in thousandths of a degree.
#[derive(Clone, Debug)]
pub struct Temperature {
    pub cpu_milli: i64,
    pub gpu_milli: i64,
    pub front_unit_milli: i64,
    pub front_pcb_milli: i64,
    pub backup_battery_milli: i64,
    pub battery_pcb_milli: i64,
    pub battery_cell_milli: i64,
    pub liquid_lens_milli: i64,
    pub main_accelerometer_milli: i64,
    pub main_mcu_milli: i64,
    pub mainboard_milli: i64,
    pub security_accelerometer_milli: i64,
    pub security_mcu_milli: i64,
    pub battery_pack_milli: i64,
    pub ssd_milli: i64,
}

/// The device's position, in millionths of a degree.
#[derive(Clone, Debug)]
pub struct Location {
    pub latitude_microdeg: i64,
    pub longitude_microdeg: i64,
}

/// The software release the device runs.
#[derive(Clone, Debug)]
pub struct OrbVersion {
    pub current_release: String,
}

/// One status report.
#[derive(Clone, Debug)]
pub struct Request {
    pub battery: Battery,
    pub wifi: Wifi,
    pub temperature: Temperature,
    pub location: Location,
    pub version: OrbVersion,
}

} // verus!
