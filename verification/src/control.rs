//! Control state: actuator setpoints, per-axis bounds, and the master-safe
//! interlock, plus the one-cycle path from setpoints to a batched bus frame.
//!
//! Every setter saturates its input into the axis's inclusive bound: upstream
//! producers are not trusted to respect structural limits, and this is the
//! single authoritative safety clamp per axis. The bounds are fixed at
//! construction. `master_safe` is a hard interlock: while it is true, the
//! cycle output for the throttle channel is the zero-throttle pulse width no
//! matter what throttle value is stored.

use vstd::prelude::*;
use crate::clamp_spec;
use crate::clamp_i64;
use crate::actuation::{
    motor_set_to, servo_set_to, spec_frame, spec_throttle2pw, BusRequest, FCSHardware, PwmCommand,
};
use crate::system::{Health, State};
use crate::telemetry::{RawSample, Telemetry, TelemetryHardware};

verus! {

/// The flight-control state: powerplant and control-surface setpoints with
/// their bounds, the master-safe interlock, and the two hardware-side
/// components the orchestrator drives.
pub struct FCS {
    /// Hard interlock: while true, the cycle emits the zero-throttle pulse
    /// width. Defaults to true (fail-safe armed-off).
    pub master_safe: bool,
    /// Stored throttle, percent, always within [0, 100].
    pub throttle: i64,
    /// Stored deflections, degrees, each within its bound.
    pub elevator_d: i64,
    pub rudder_d: i64,
    pub r_aileron_d: i64,
    pub l_aileron_d: i64,
    /// Inclusive [low, high] deflection bounds, fixed at construction.
    pub elevator_d_bound: [i64; 2],
    pub rudder_d_bound: [i64; 2],
    pub r_aileron_d_bound: [i64; 2],
    pub l_aileron_d_bound: [i64; 2],
    /// The actuation channels one cycle writes.
    pub fc_hardware: FCSHardware,
    /// The telemetry-side calibration state.
    pub telem_hardware: TelemetryHardware,
}

/// An ordered bound pair within the servo clamp's [-90, 90] degree domain.
pub open spec fn bound_ok(b: [i64; 2]) -> bool {
    -90 <= b[0] && b[0] <= b[1] && b[1] <= 90
}

impl FCS {
    /// Well-formed: ordered bounds, every setpoint inside its bound, and
    /// well-formed hardware-side components.
    pub open spec fn wf(&self) -> bool {
        &&& bound_ok(self.elevator_d_bound)
        &&& bound_ok(self.rudder_d_bound)
        &&& bound_ok(self.r_aileron_d_bound)
        &&& bound_ok(self.l_aileron_d_bound)
        &&& 0 <= self.throttle && self.throttle <= 100
        &&& self.elevator_d_bound[0] <= self.elevator_d <= self.elevator_d_bound[1]
        &&& self.rudder_d_bound[0] <= self.rudder_d <= self.rudder_d_bound[1]
        &&& self.r_aileron_d_bound[0] <= self.r_aileron_d <= self.r_aileron_d_bound[1]
        &&& self.l_aileron_d_bound[0] <= self.l_aileron_d <= self.l_aileron_d_bound[1]
        &&& self.fc_hardware.wf()
        &&& self.telem_hardware.wf()
    }

    /// Engage or release the master-safe interlock; an explicit, deliberate
    /// command is the only thing that flips it.
    pub fn set_master_safe(&mut self, setting: bool)
        ensures
            final(self).master_safe == setting,
            *final(self) == (FCS { master_safe: setting, ..*old(self) }),
            old(self).wf() ==> final(self).wf(),
    {
        self.master_safe = setting;
    }

    /// Store `clamp(setting, 0, 100)` as the throttle. There is no
    /// precondition on the range of `setting`.
    pub fn set_throttle(&mut self, setting: i64)
        ensures
            final(self).throttle == clamp_spec(setting as int, 0, 100),
            *final(self) == (FCS { throttle: final(self).throttle, ..*old(self) }),
            old(self).wf() ==> final(self).wf(),
    {
        if setting <= 0 {
            self.throttle = 0;
        } else if setting >= 100 {
            self.throttle = 100;
        } else {
            self.throttle = setting;
        }
    }

    /// Store `setting` saturated into the elevator bound. Only the elevator
    /// setpoint changes; no other axis is read or written.
    pub fn set_elevator_deflection(&mut self, setting: i64)
        ensures
            final(self).elevator_d == clamp_spec(
                setting as int,
                old(self).elevator_d_bound[0] as int,
                old(self).elevator_d_bound[1] as int,
            ),
            *final(self) == (FCS { elevator_d: final(self).elevator_d, ..*old(self) }),
            old(self).wf() ==> final(self).wf(),
    {
        self.elevator_d = clamp_i64(setting, self.elevator_d_bound[0], self.elevator_d_bound[1]);
    }

    /// Store `setting` saturated into the rudder bound. Only the rudder
    /// setpoint changes; no other axis is read or written.
    pub fn set_rudder_deflection(&mut self, setting: i64)
        ensures
            final(self).rudder_d == clamp_spec(
                setting as int,
                old(self).rudder_d_bound[0] as int,
                old(self).rudder_d_bound[1] as int,
            ),
            *final(self) == (FCS { rudder_d: final(self).rudder_d, ..*old(self) }),
            old(self).wf() ==> final(self).wf(),
    {
        self.rudder_d = clamp_i64(setting, self.rudder_d_bound[0], self.rudder_d_bound[1]);
    }

    /// Store `setting` saturated into the right-aileron bound. Only the
    /// right-aileron setpoint changes; no other axis is read or written.
    pub fn set_r_aileron_deflection(&mut self, setting: i64)
        ensures
            final(self).r_aileron_d == clamp_spec(
                setting as int,
                old(self).r_aileron_d_bound[0] as int,
                old(self).r_aileron_d_bound[1] as int,
            ),
            *final(self) == (FCS { r_aileron_d: final(self).r_aileron_d, ..*old(self) }),
            old(self).wf() ==> final(self).wf(),
    {
        self.r_aileron_d = clamp_i64(
            setting,
            self.r_aileron_d_bound[0],
            self.r_aileron_d_bound[1],
        );
    }

    /// Store `setting` saturated into the left-aileron bound. Only the
    /// left-aileron setpoint changes; no other axis is read or written.
    pub fn set_l_aileron_deflection(&mut self, setting: i64)
        ensures
            final(self).l_aileron_d == clamp_spec(
                setting as int,
                old(self).l_aileron_d_bound[0] as int,
                old(self).l_aileron_d_bound[1] as int,
            ),
            *final(self) == (FCS { l_aileron_d: final(self).l_aileron_d, ..*old(self) }),
            old(self).wf() ==> final(self).wf(),
    {
        self.l_aileron_d = clamp_i64(
            setting,
            self.l_aileron_d_bound[0],
            self.l_aileron_d_bound[1],
        );
    }

    /// One control cycle's actuation half: push every stored setpoint into
    /// its channel — the zero throttle instead of the stored one while
    /// `master_safe` holds — and return the batched frame to write to the
    /// bus. Every channel is re-asserted; there is no partial update.
    pub fn update(&mut self) -> (frame: Vec<PwmCommand>)
        requires
            old(self).fc_hardware.wf(),
        ensures
            servo_set_to(
                old(self).fc_hardware.l_elevator_servo,
                final(self).fc_hardware.l_elevator_servo,
                old(self).elevator_d as int,
            ),
            servo_set_to(
                old(self).fc_hardware.r_elevator_servo,
                final(self).fc_hardware.r_elevator_servo,
                old(self).elevator_d as int,
            ),
            servo_set_to(
                old(self).fc_hardware.l_aileron_servo,
                final(self).fc_hardware.l_aileron_servo,
                old(self).l_aileron_d as int,
            ),
            servo_set_to(
                old(self).fc_hardware.r_aileron_servo,
                final(self).fc_hardware.r_aileron_servo,
                old(self).r_aileron_d as int,
            ),
            servo_set_to(
                old(self).fc_hardware.rudder_servo,
                final(self).fc_hardware.rudder_servo,
                old(self).rudder_d as int,
            ),
            motor_set_to(
                old(self).fc_hardware.throttle_pwm,
                final(self).fc_hardware.throttle_pwm,
                if old(self).master_safe {
                    0
                } else {
                    old(self).throttle as int
                },
            ),
            final(self).fc_hardware.wf(),
            frame@ == spec_frame(final(self).fc_hardware),
            // The master-safe interlock: while engaged, the throttle channel
            // gets the zero-throttle pulse width, whatever throttle is stored.
            old(self).master_safe ==> frame@[5].pulse_width == spec_throttle2pw(
                old(self).fc_hardware.throttle_pwm.min_pw as int,
                old(self).fc_hardware.throttle_pwm.max_pw as int,
                0,
            ) && frame@[5].pulse_width == old(self).fc_hardware.throttle_pwm.min_pw,
            *final(self) == (FCS { fc_hardware: final(self).fc_hardware, ..*old(self) }),
            old(self).wf() ==> final(self).wf(),
    {
        let elevator_d = self.elevator_d;
        let l_aileron_d = self.l_aileron_d;
        let r_aileron_d = self.r_aileron_d;
        let rudder_d = self.rudder_d;
        self.fc_hardware.set_elevator_deflection(elevator_d);
        self.fc_hardware.set_l_aileron_deflection(l_aileron_d);
        self.fc_hardware.set_r_aileron_deflection(r_aileron_d);
        self.fc_hardware.set_rudder_deflection(rudder_d);

        if !self.master_safe {
            let throttle = self.throttle;
            self.fc_hardware.set_throttle(throttle);
        } else {
            self.fc_hardware.set_throttle(0);
            proof {
                let m = old(self).fc_hardware.throttle_pwm;
                assert(0 * (m.max_pw - m.min_pw) as int == 0);
                vstd::arithmetic::div_mod::lemma_div_of0(180);
            }
        }

        self.fc_hardware.update()
    }

    /// Initialization request for the actuation bus: set the refresh rate
    /// before any channel write is meaningful.
    pub fn init_hardware(&self) -> (r: BusRequest)
        ensures
            r == BusRequest::SetFrequency(crate::actuation::REFRESH_HZ),
    {
        self.fc_hardware.init()
    }

    /// Shutdown request for the actuation bus: every channel's duty cycle to
    /// zero, independent of stored state.
    pub fn shutdown_hardware(&self) -> (r: BusRequest)
        ensures
            r == BusRequest::SetAllDutyCycle(0),
    {
        self.fc_hardware.shutdown()
    }

    /// Turn one raw sensor sample into a bias-corrected snapshot using the
    /// currently stored calibration.
    pub fn get_telemetry(&self, raw: &RawSample) -> (t: Telemetry)
        requires
            self.telem_hardware.wf(),
            raw.wf(),
        ensures
            forall|i: int|
                0 <= i < 3 ==> #[trigger] t.accel[i] == raw.accel[i]
                    - self.telem_hardware.accelerometer_bias[i],
            t.gyro == raw.gyro,
            t.mag == raw.mag,
            t.temp == raw.temp,
    {
        self.telem_hardware.get_telemetry(raw)
    }
}

impl Default for FCS {
    /// Startup defaults: master-safe engaged, every setpoint zero, every
    /// surface bound [-25, 25] degrees, default hardware channels, zero
    /// telemetry bias.
    fn default() -> (fcs: Self)
        ensures
            fcs.master_safe == true,
            fcs.throttle == 0,
            fcs.elevator_d == 0,
            fcs.rudder_d == 0,
            fcs.r_aileron_d == 0,
            fcs.l_aileron_d == 0,
            fcs.elevator_d_bound == [-25i64, 25i64],
            fcs.rudder_d_bound == [-25i64, 25i64],
            fcs.r_aileron_d_bound == [-25i64, 25i64],
            fcs.l_aileron_d_bound == [-25i64, 25i64],
            fcs.fc_hardware == crate::actuation::fcs_hardware_default(),
            fcs.telem_hardware.accelerometer_bias == [0i64, 0i64, 0i64],
            fcs.wf(),
    {
        FCS {
            master_safe: true,
            throttle: 0,
            elevator_d: 0,
            rudder_d: 0,
            r_aileron_d: 0,
            l_aileron_d: 0,
            elevator_d_bound: [-25, 25],
            rudder_d_bound: [-25, 25],
            r_aileron_d_bound: [-25, 25],
            l_aileron_d_bound: [-25, 25],
            fc_hardware: FCSHardware::default(),
            telem_hardware: TelemetryHardware::default(),
        }
    }
}

/// A recoverable hardware fault (a failed bus open or transaction) degrades
/// the system instead of ending it: health escalates to `Critical` and the
/// master-safe interlock re-engages until explicitly cleared. Setpoints,
/// bounds and mode stay as they were.
pub fn report_hardware_fault(state: &mut State, fcs: &mut FCS)
    ensures
        final(state).spec_health() == Health::Critical,
        final(state).spec_mode() == old(state).spec_mode(),
        final(fcs).master_safe == true,
        *final(fcs) == (FCS { master_safe: true, ..*old(fcs) }),
        old(fcs).wf() ==> final(fcs).wf(),
{
    state.set_health(Health::Critical);
    fcs.set_master_safe(true);
}

/// The per-axis clamp depends only on the input and that axis's own bound:
/// two control states with the same bound for an axis store the same value
/// for the same input, whatever their other axes and setpoints hold.
pub proof fn lemma_setter_axis_independent(s1: FCS, s2: FCS, setting: int)
    ensures
        s1.elevator_d_bound == s2.elevator_d_bound ==> clamp_spec(
            setting,
            s1.elevator_d_bound[0] as int,
            s1.elevator_d_bound[1] as int,
        ) == clamp_spec(
            setting,
            s2.elevator_d_bound[0] as int,
            s2.elevator_d_bound[1] as int,
        ),
        s1.rudder_d_bound == s2.rudder_d_bound ==> clamp_spec(
            setting,
            s1.rudder_d_bound[0] as int,
            s1.rudder_d_bound[1] as int,
        ) == clamp_spec(
            setting,
            s2.rudder_d_bound[0] as int,
            s2.rudder_d_bound[1] as int,
        ),
        s1.l_aileron_d_bound == s2.l_aileron_d_bound ==> clamp_spec(
            setting,
            s1.l_aileron_d_bound[0] as int,
            s1.l_aileron_d_bound[1] as int,
        ) == clamp_spec(
            setting,
            s2.l_aileron_d_bound[0] as int,
            s2.l_aileron_d_bound[1] as int,
        ),
        s1.r_aileron_d_bound == s2.r_aileron_d_bound ==> clamp_spec(
            setting,
            s1.r_aileron_d_bound[0] as int,
            s1.r_aileron_d_bound[1] as int,
        ) == clamp_spec(
            setting,
            s2.r_aileron_d_bound[0] as int,
            s2.r_aileron_d_bound[1] as int,
        ),
{
}

/// A clamped setpoint lies inside its bound whenever the bound is ordered:
/// the stored value stays within [low, high] after any setter call.
pub proof fn lemma_clamp_within_bound(x: int, lo: int, hi: int)
    requires
        lo <= hi,
    ensures
        lo <= clamp_spec(x, lo, hi) <= hi,
{
}

} // verus!
