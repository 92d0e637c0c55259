//! The telemetry data model: the last-known values reported by the
//! vehicle.
//!
//! Every group is optional, modelling "not yet received since
//! connect". A [`TelemetrySnapshot`] is one complete message: the
//! relay replaces the stored snapshot wholesale, so a reader always
//! sees the fields of a single message, never a mix of two.
//!
//! The transport's own message types stay outside this core; whoever
//! receives them converts to these plain values before publishing.

use vstd::prelude::*;

verus! {

/// Wifi link quality, as reported.
#[derive(Clone, Copy, PartialEq, Eq, Debug)]
pub struct WifiReading {
    /// Signal strength in percent, `0..=100`.
    pub wifi_strength: u8,
}

/// Battery and flight-time figures, as reported.
#[derive(Clone, Copy, PartialEq, Eq, Debug)]
pub struct FlightReading {
    /// Seconds airborne.
    pub fly_time: u32,
    /// Battery charge in percent, `0..=100`.
    pub battery_percentage: u8,
    /// Battery voltage in millivolts.
    pub battery_milli_volts: i32,
}

/// Light-sensor reading, as reported.
#[derive(Clone, Copy, PartialEq, Eq, Debug)]
pub struct LightReading {
    /// When the light strength was last updated, in milliseconds of
    /// the receiver's clock.
    pub light_strength_updated: i64,
}

/// Inertial attitude, as reported. Angles are in degrees; the display
/// layer chooses its own signs, this core passes the values through.
#[derive(Clone, Copy, PartialEq, Eq, Debug)]
pub struct ImuReading {
    pub pitch: i16,
    pub roll: i16,
    pub yaw: i16,
    /// Sensor temperature in degrees.
    pub temperature: i16,
}

/// Estimated velocity components, each optional, in millimetres per
/// second.
#[derive(Clone, Copy, PartialEq, Eq, Debug)]
pub struct VelocityReading {
    pub vx: Option<i16>,
    pub vy: Option<i16>,
    pub vz: Option<i16>,
}

/// The flight-log part of a message: attitude and estimated velocity.
#[derive(Clone, Copy, PartialEq, Eq, Debug)]
pub struct LogReading {
    pub imu: Option<ImuReading>,
    pub mvo: Option<VelocityReading>,
}

/// The last-known telemetry, each group from the most recent message
/// that carried it; `None` until one has.
#[derive(Clone, Copy, PartialEq, Eq, Debug)]
pub struct TelemetrySnapshot {
    pub wifi: Option<WifiReading>,
    pub flight: Option<FlightReading>,
    pub light: Option<LightReading>,
    pub log: Option<LogReading>,
}

impl TelemetrySnapshot {
    /// Percentages within their scale wherever present.
    pub open spec fn wf(self) -> bool {
        &&& (self.wifi matches Some(w) ==> w.wifi_strength <= 100)
        &&& (self.flight matches Some(f) ==> f.battery_percentage <= 100)
    }

    /// Nothing received yet.
    pub open spec fn spec_initial() -> TelemetrySnapshot {
        TelemetrySnapshot { wifi: None, flight: None, light: None, log: None }
    }
}

impl Default for TelemetrySnapshot {
    /// Nothing received yet.
    fn default() -> (d: TelemetrySnapshot)
        ensures
            d == TelemetrySnapshot::spec_initial(),
            d.wf(),
    {
        TelemetrySnapshot { wifi: None, flight: None, light: None, log: None }
    }
}

} // verus!
