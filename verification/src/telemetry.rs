//! Telemetry subsystem: bias-calibrated inertial snapshots.
//!
//! The sensor bus collaborator produces raw samples (accelerometer,
//! gyroscope, magnetometer, temperature, fixed-point milli-units); this
//! module stores the at-rest accelerometer bias and applies the correction
//! `accel = raw_accel - bias` component-wise. Whether the vehicle really was
//! at rest when the bias was sampled is the caller's responsibility: nothing
//! here can detect a violation, and a wrong bias silently shifts every later
//! snapshot.

use vstd::prelude::*;

verus! {

/// Largest magnitude (milli-units) a sensor sample or bias component may
/// have; real readings are far below it.
pub const TELEM_LIMIT: i64 = 1_000_000_000;

/// One raw sensor reading as the bus collaborator hands it over, before any
/// bias correction.
#[derive(Debug, Clone, Copy)]
pub struct RawSample {
    pub accel: [i64; 3],
    pub gyro: [i64; 3],
    pub mag: [i64; 3],
    pub temp: i64,
}

impl RawSample {
    /// Every component is within the sensor-range limit.
    pub open spec fn wf(&self) -> bool {
        &&& forall|i: int| 0 <= i < 3 ==> -TELEM_LIMIT <= #[trigger] self.accel[i] <= TELEM_LIMIT
        &&& forall|i: int| 0 <= i < 3 ==> -TELEM_LIMIT <= #[trigger] self.gyro[i] <= TELEM_LIMIT
        &&& forall|i: int| 0 <= i < 3 ==> -TELEM_LIMIT <= #[trigger] self.mag[i] <= TELEM_LIMIT
        &&& -TELEM_LIMIT <= self.temp <= TELEM_LIMIT
    }
}

/// An immutable point-in-time snapshot: bias-corrected accelerometer,
/// gyroscope and magnetometer vectors plus temperature, owned solely by the
/// caller.
#[derive(Debug, Clone, Copy)]
pub struct Telemetry {
    pub accel: [i64; 3],
    pub gyro: [i64; 3],
    pub mag: [i64; 3],
    pub temp: i64,
}

/// The telemetry-side state this core keeps between samples: the
/// accelerometer bias estimated at rest. The sensor bus handle itself is an
/// external collaborator.
#[derive(Debug, Clone, Copy)]
pub struct TelemetryHardware {
    pub accelerometer_bias: [i64; 3],
}

impl TelemetryHardware {
    /// Every bias component is within the sensor-range limit.
    pub open spec fn wf(&self) -> bool {
        forall|i: int|
            0 <= i < 3 ==> -TELEM_LIMIT <= #[trigger] self.accelerometer_bias[i] <= TELEM_LIMIT
    }

    /// Store the accelerometer bias a stationary, level sampling pass
    /// produced, overwriting any prior bias. The caller must time the pass:
    /// a bias sampled in motion is stored just the same.
    pub fn calibrate_at_rest(&mut self, bias: [i64; 3])
        requires
            forall|i: int| 0 <= i < 3 ==> -TELEM_LIMIT <= #[trigger] bias[i] <= TELEM_LIMIT,
        ensures
            final(self).accelerometer_bias == bias,
            final(self).wf(),
    {
        self.accelerometer_bias = bias;
    }

    /// Turn one raw sample into a snapshot: subtract the stored bias from
    /// the accelerometer components; gyroscope, magnetometer and temperature
    /// pass through unchanged.
    pub fn get_telemetry(&self, raw: &RawSample) -> (t: Telemetry)
        requires
            self.wf(),
            raw.wf(),
        ensures
            forall|i: int|
                0 <= i < 3 ==> #[trigger] t.accel[i] == raw.accel[i]
                    - self.accelerometer_bias[i],
            t.gyro == raw.gyro,
            t.mag == raw.mag,
            t.temp == raw.temp,
    {
        let accel: [i64; 3] = [
            raw.accel[0] - self.accelerometer_bias[0],
            raw.accel[1] - self.accelerometer_bias[1],
            raw.accel[2] - self.accelerometer_bias[2],
        ];
        Telemetry { accel, gyro: raw.gyro, mag: raw.mag, temp: raw.temp }
    }
}

impl Default for TelemetryHardware {
    /// A zero bias: raw samples pass through until a calibration pass runs.
    fn default() -> (t: Self)
        ensures
            t.accelerometer_bias == [0i64, 0i64, 0i64],
            t.wf(),
    {
        TelemetryHardware { accelerometer_bias: [0, 0, 0] }
    }
}

} // verus!
