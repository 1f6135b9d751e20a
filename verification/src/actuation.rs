//! Per-channel actuation hardware abstraction.
//!
//! A [`Servo`] maps a clamped angular position (degrees) to a pulse width
//! (microseconds) through an affine map centered on the pulse-width midpoint;
//! a [`Motor`] maps a clamped throttle percentage the same way from the low
//! end of the range. [`FCSHardware`] groups the channels and produces the
//! batched bus requests for one control cycle; performing the bus
//! transactions is the caller's job.

use vstd::prelude::*;
use vstd::arithmetic::div_mod::{
    lemma_div_is_ordered, lemma_div_multiples_vanish, lemma_fundamental_div_mod,
    lemma_fundamental_div_mod_converse,
};
use vstd::arithmetic::mul::lemma_mul_inequality;
use crate::clamp_spec;

verus! {

/// Largest pulse width (microseconds) a channel configuration may name.
pub const PW_LIMIT: i64 = 1_000_000;

/// Refresh rate (Hz) the bus is driven at: the standard analog-servo rate.
pub const REFRESH_HZ: u16 = 50;

/// Affine angle-to-pulse-width map: `-90` degrees gives `min_pw`, `90`
/// degrees gives `max_pw`, rounding the exact image down to a whole
/// microsecond.
pub open spec fn spec_deg2pw(min_pw: int, max_pw: int, angle: int) -> int {
    (angle + 90) * (max_pw - min_pw) / 180 + min_pw
}

/// Throttle-to-pulse-width map: `0` percent gives `min_pw`. The divisor
/// mirrors the servo map's 180 even though the throttle domain is 0..=100;
/// the asymmetry is deliberate and calibrated into deployed hardware.
pub open spec fn spec_throttle2pw(min_pw: int, max_pw: int, setting: int) -> int {
    setting * (max_pw - min_pw) / 180 + min_pw
}

/// One entry of a batched bus write: drive `channel` to `pulse_width`
/// microseconds.
#[derive(Debug, Clone, Copy, PartialEq, Eq, Structural)]
pub struct PwmCommand {
    pub channel: u8,
    pub pulse_width: i64,
}

/// A request against the PWM bus collaborator, produced by this core and
/// performed by the bus driver.
#[derive(Debug, Clone, Copy, PartialEq, Eq, Structural)]
pub enum BusRequest {
    /// Set the bus refresh frequency in Hz.
    SetFrequency(u16),
    /// Set every channel's raw duty cycle to one value.
    SetAllDutyCycle(u16),
}

/// A control-surface servo channel: configuration plus the current clamped
/// position and its derived pulse width.
#[derive(Debug, Clone, Copy, PartialEq, Eq, Structural)]
pub struct Servo {
    pub channel: u8,
    pub min_pw: i64,
    pub max_pw: i64,
    pub pos: i64,
    pub pos_pw: i64,
    pub pos_offset: i64,
    pub inverted: bool,
}

impl Servo {
    /// The pulse-width range is ordered and within machine-safe magnitudes.
    pub open spec fn config_ok(&self) -> bool {
        0 <= self.min_pw && self.min_pw <= self.max_pw && self.max_pw <= PW_LIMIT
    }

    /// Well-formed: valid configuration, position in [-90, 90] degrees, and
    /// the stored pulse width is the affine image of the stored position.
    pub open spec fn wf(&self) -> bool {
        &&& self.config_ok()
        &&& -90 <= self.pos && self.pos <= 90
        &&& self.pos_pw == spec_deg2pw(self.min_pw as int, self.max_pw as int, self.pos as int)
    }

    /// Convert an angle in [-90, 90] degrees to a pulse width under this
    /// servo's configured range.
    pub fn deg2pw(&self, angle: i64) -> (pw: i64)
        requires
            self.config_ok(),
            -90 <= angle && angle <= 90,
        ensures
            pw == spec_deg2pw(self.min_pw as int, self.max_pw as int, angle as int),
            self.min_pw <= pw <= self.max_pw,
    {
        proof {
            lemma_deg2pw_in_range(self.min_pw as int, self.max_pw as int, angle as int);
        }
        (angle + 90) * (self.max_pw - self.min_pw) / 180 + self.min_pw
    }

    /// Decide well-formedness at run time, for callers outside the proof.
    pub fn is_wf(&self) -> (r: bool)
        ensures
            r == self.wf(),
    {
        0 <= self.min_pw && self.min_pw <= self.max_pw && self.max_pw <= PW_LIMIT
            && -90 <= self.pos && self.pos <= 90 && self.pos_pw == self.deg2pw(self.pos)
    }

    /// Clamp `angle` into [-90, 90] degrees, store it, and re-derive the
    /// pulse width; a second saturation layer beneath the control-state
    /// bound clamp.
    pub fn set_pos(&mut self, angle: i64)
        requires
            old(self).config_ok(),
        ensures
            servo_set_to(*old(self), *final(self), angle as int),
            final(self).wf(),
    {
        if angle >= 90 {
            self.pos = 90;
            self.pos_pw = self.deg2pw(90);
        } else if angle <= -90 {
            self.pos = -90;
            self.pos_pw = self.deg2pw(-90);
        } else {
            self.pos = angle;
            self.pos_pw = self.deg2pw(angle);
        }
    }

    /// Store a position offset; no derived state changes.
    pub fn set_pos_offset(&mut self, offset: i64)
        ensures
            *final(self) == (Servo { pos_offset: offset, ..*old(self) }),
    {
        self.pos_offset = offset;
    }

    /// Record whether the channel's sense is inverted.
    pub fn invert(&mut self, inverted: bool)
        ensures
            *final(self) == (Servo { inverted, ..*old(self) }),
    {
        self.inverted = inverted;
    }

    /// Lower the pulse-width range's low end; the stored position's pulse
    /// width is re-derived so the affine-image invariant keeps holding.
    pub fn set_min_pw(&mut self, pw: i64)
        requires
            old(self).wf(),
            0 <= pw && pw <= old(self).max_pw,
        ensures
            final(self).min_pw == pw,
            final(self).max_pw == old(self).max_pw,
            final(self).pos == old(self).pos,
            final(self).channel == old(self).channel,
            final(self).pos_offset == old(self).pos_offset,
            final(self).inverted == old(self).inverted,
            final(self).wf(),
    {
        self.min_pw = pw;
        self.pos_pw = self.deg2pw(self.pos);
    }

    /// Raise the pulse-width range's high end; the stored position's pulse
    /// width is re-derived so the affine-image invariant keeps holding.
    pub fn set_max_pw(&mut self, pw: i64)
        requires
            old(self).wf(),
            old(self).min_pw <= pw && pw <= PW_LIMIT,
        ensures
            final(self).max_pw == pw,
            final(self).min_pw == old(self).min_pw,
            final(self).pos == old(self).pos,
            final(self).channel == old(self).channel,
            final(self).pos_offset == old(self).pos_offset,
            final(self).inverted == old(self).inverted,
            final(self).wf(),
    {
        self.max_pw = pw;
        self.pos_pw = self.deg2pw(self.pos);
    }

    /// Assign the bus channel this servo drives.
    pub fn set_channel(&mut self, channel: u8)
        ensures
            *final(self) == (Servo { channel, ..*old(self) }),
    {
        self.channel = channel;
    }
}

impl Default for Servo {
    /// Channel 0, range 500..=2500 microseconds, centered at 0 degrees
    /// (pulse width 1500).
    fn default() -> (s: Self)
        ensures
            s == servo_default(),
            s.wf(),
    {
        Servo {
            channel: 0,
            min_pw: 500,
            max_pw: 2500,
            pos: 0,
            pos_pw: 1500,
            pos_offset: 0,
            inverted: false,
        }
    }
}

/// The default servo value: channel 0, range 500..=2500 microseconds,
/// centered at 0 degrees (pulse width 1500).
pub open spec fn servo_default() -> Servo {
    Servo {
        channel: 0,
        min_pw: 500,
        max_pw: 2500,
        pos: 0,
        pos_pw: 1500,
        pos_offset: 0,
        inverted: false,
    }
}

/// `post` is `pre` with its position set to `angle` clamped into [-90, 90]
/// and the pulse width re-derived; everything else is unchanged.
pub open spec fn servo_set_to(pre: Servo, post: Servo, angle: int) -> bool {
    &&& post.pos == clamp_spec(angle, -90, 90)
    &&& post.pos_pw == spec_deg2pw(pre.min_pw as int, pre.max_pw as int, clamp_spec(angle, -90, 90))
    &&& post.channel == pre.channel
    &&& post.min_pw == pre.min_pw
    &&& post.max_pw == pre.max_pw
    &&& post.pos_offset == pre.pos_offset
    &&& post.inverted == pre.inverted
}

/// For a valid range the angle map stays within the range:
/// `min_pw <= deg2pw(angle) <= max_pw` for angles in [-90, 90].
pub proof fn lemma_deg2pw_in_range(min_pw: int, max_pw: int, angle: int)
    requires
        0 <= min_pw <= max_pw <= PW_LIMIT,
        -90 <= angle <= 90,
    ensures
        min_pw <= spec_deg2pw(min_pw, max_pw, angle) <= max_pw,
{
    let s = max_pw - min_pw;
    let shifted = angle + 90;
    lemma_mul_inequality(0, shifted, s);
    lemma_mul_inequality(shifted, 180, s);
    lemma_div_is_ordered(0, shifted * s, 180);
    lemma_div_is_ordered(shifted * s, 180 * s, 180);
    lemma_div_multiples_vanish(s, 180);
    assert(180 * s == s * 180) by (nonlinear_arith);
}

/// The angle-to-pulse-width map is the whole-microsecond quantization of an
/// affine function: it is monotonic in the angle, its value at `-90` degrees
/// is `min_pw`, at `90` degrees `max_pw`, at `0` degrees the midpoint
/// `(min_pw + max_pw) / 2`, and it never strays from the exact affine image
/// by a full microsecond.
pub proof fn lemma_deg2pw_affine_monotonic(min_pw: int, max_pw: int, a1: int, a2: int)
    requires
        0 <= min_pw <= max_pw <= PW_LIMIT,
        -90 <= a1 <= 90,
        -90 <= a2 <= 90,
    ensures
        a1 <= a2 ==> spec_deg2pw(min_pw, max_pw, a1) <= spec_deg2pw(min_pw, max_pw, a2),
        spec_deg2pw(min_pw, max_pw, -90) == min_pw,
        spec_deg2pw(min_pw, max_pw, 90) == max_pw,
        spec_deg2pw(min_pw, max_pw, 0) == (min_pw + max_pw) / 2,
        180 * (spec_deg2pw(min_pw, max_pw, a1) - min_pw) <= (a1 + 90) * (max_pw - min_pw)
            < 180 * (spec_deg2pw(min_pw, max_pw, a1) - min_pw) + 180,
{
    let s = max_pw - min_pw;
    if a1 <= a2 {
        lemma_mul_inequality(a1 + 90, a2 + 90, s);
        lemma_div_is_ordered((a1 + 90) * s, (a2 + 90) * s, 180);
    }
    assert(spec_deg2pw(min_pw, max_pw, -90) == min_pw) by {
        assert((-90 + 90) * s == 0);
        vstd::arithmetic::div_mod::lemma_div_of0(180);
    }
    assert(spec_deg2pw(min_pw, max_pw, 90) == max_pw) by {
        assert((90 + 90) * s == 180 * s) by (nonlinear_arith);
        lemma_div_multiples_vanish(s, 180);
        assert(180 * s == s * 180) by (nonlinear_arith);
    }
    assert(spec_deg2pw(min_pw, max_pw, 0) == (min_pw + max_pw) / 2) by {
        let h = s / 2;
        let r = s % 2;
        lemma_fundamental_div_mod(s, 2);
        assert((0 + 90) * s == 180 * h + 90 * r) by (nonlinear_arith)
            requires
                s == 2 * h + r,
        ;
        lemma_fundamental_div_mod_converse(90 * s, 180, h, 90 * r);
        assert(min_pw + max_pw == 2 * (h + min_pw) + r);
        lemma_fundamental_div_mod_converse(min_pw + max_pw, 2, h + min_pw, r);
    }
    assert(180 * (spec_deg2pw(min_pw, max_pw, a1) - min_pw) <= (a1 + 90) * s
        < 180 * (spec_deg2pw(min_pw, max_pw, a1) - min_pw) + 180) by {
        lemma_fundamental_div_mod((a1 + 90) * s, 180);
        lemma_mul_inequality(0, a1 + 90, s);
    }
}

/// A motor (electronic speed controller) channel: configuration plus the
/// current clamped throttle percentage and its derived pulse width.
#[derive(Debug, Clone, Copy, PartialEq, Eq, Structural)]
pub struct Motor {
    pub channel: u8,
    pub min_pw: i64,
    pub max_pw: i64,
    pub throttle: i64,
    pub throttle_pw: i64,
    pub throttle_offset: i64,
    pub inverted: bool,
}

impl Motor {
    /// The pulse-width range is ordered and within machine-safe magnitudes.
    pub open spec fn config_ok(&self) -> bool {
        0 <= self.min_pw && self.min_pw <= self.max_pw && self.max_pw <= PW_LIMIT
    }

    /// Well-formed: valid configuration, throttle in [0, 100] percent, and
    /// the stored pulse width is the affine image of the stored throttle.
    pub open spec fn wf(&self) -> bool {
        &&& self.config_ok()
        &&& 0 <= self.throttle && self.throttle <= 100
        &&& self.throttle_pw == spec_throttle2pw(
            self.min_pw as int,
            self.max_pw as int,
            self.throttle as int,
        )
    }

    /// Convert a throttle percentage in [0, 100] to a pulse width under this
    /// motor's configured range.
    pub fn throttle2pw(&self, setting: i64) -> (pw: i64)
        requires
            self.config_ok(),
            0 <= setting && setting <= 100,
        ensures
            pw == spec_throttle2pw(self.min_pw as int, self.max_pw as int, setting as int),
            self.min_pw <= pw <= self.max_pw,
    {
        proof {
            lemma_throttle2pw_in_range(self.min_pw as int, self.max_pw as int, setting as int);
        }
        setting * (self.max_pw - self.min_pw) / 180 + self.min_pw
    }

    /// Decide well-formedness at run time, for callers outside the proof.
    pub fn is_wf(&self) -> (r: bool)
        ensures
            r == self.wf(),
    {
        0 <= self.min_pw && self.min_pw <= self.max_pw && self.max_pw <= PW_LIMIT
            && 0 <= self.throttle && self.throttle <= 100
            && self.throttle_pw == self.throttle2pw(self.throttle)
    }

    /// Clamp `setting` into [0, 100] percent, store it, and re-derive the
    /// pulse width.
    pub fn set_throttle(&mut self, setting: i64)
        requires
            old(self).config_ok(),
        ensures
            motor_set_to(*old(self), *final(self), setting as int),
            final(self).wf(),
    {
        if setting >= 100 {
            self.throttle = 100;
            self.throttle_pw = self.throttle2pw(100);
        } else if setting <= 0 {
            self.throttle = 0;
            self.throttle_pw = self.throttle2pw(0);
        } else {
            self.throttle = setting;
            self.throttle_pw = self.throttle2pw(setting);
        }
    }

    /// Store a throttle offset; no derived state changes.
    pub fn set_throttle_offset(&mut self, offset: i64)
        ensures
            *final(self) == (Motor { throttle_offset: offset, ..*old(self) }),
    {
        self.throttle_offset = offset;
    }

    /// Record whether the channel's sense is inverted.
    pub fn invert(&mut self, inverted: bool)
        ensures
            *final(self) == (Motor { inverted, ..*old(self) }),
    {
        self.inverted = inverted;
    }

    /// Lower the pulse-width range's low end; the stored throttle's pulse
    /// width is re-derived so the affine-image invariant keeps holding.
    pub fn set_min_pw(&mut self, pw: i64)
        requires
            old(self).wf(),
            0 <= pw && pw <= old(self).max_pw,
        ensures
            final(self).min_pw == pw,
            final(self).max_pw == old(self).max_pw,
            final(self).throttle == old(self).throttle,
            final(self).channel == old(self).channel,
            final(self).throttle_offset == old(self).throttle_offset,
            final(self).inverted == old(self).inverted,
            final(self).wf(),
    {
        self.min_pw = pw;
        self.throttle_pw = self.throttle2pw(self.throttle);
    }

    /// Raise the pulse-width range's high end; the stored throttle's pulse
    /// width is re-derived so the affine-image invariant keeps holding.
    pub fn set_max_pw(&mut self, pw: i64)
        requires
            old(self).wf(),
            old(self).min_pw <= pw && pw <= PW_LIMIT,
        ensures
            final(self).max_pw == pw,
            final(self).min_pw == old(self).min_pw,
            final(self).throttle == old(self).throttle,
            final(self).channel == old(self).channel,
            final(self).throttle_offset == old(self).throttle_offset,
            final(self).inverted == old(self).inverted,
            final(self).wf(),
    {
        self.max_pw = pw;
        self.throttle_pw = self.throttle2pw(self.throttle);
    }
}

impl Default for Motor {
    /// Channel 0, range 500..=2500 microseconds, zero throttle (pulse
    /// width 500, the zero-throttle output).
    fn default() -> (m: Self)
        ensures
            m == motor_default(),
            m.wf(),
    {
        Motor {
            channel: 0,
            min_pw: 500,
            max_pw: 2500,
            throttle: 0,
            throttle_pw: 500,
            throttle_offset: 0,
            inverted: false,
        }
    }
}

/// The default motor value: channel 0, range 500..=2500 microseconds, zero
/// throttle and the zero-throttle pulse width 500.
pub open spec fn motor_default() -> Motor {
    Motor {
        channel: 0,
        min_pw: 500,
        max_pw: 2500,
        throttle: 0,
        throttle_pw: 500,
        throttle_offset: 0,
        inverted: false,
    }
}

/// `post` is `pre` with its throttle set to `setting` clamped into [0, 100]
/// and the pulse width re-derived; everything else is unchanged.
pub open spec fn motor_set_to(pre: Motor, post: Motor, setting: int) -> bool {
    &&& post.throttle == clamp_spec(setting, 0, 100)
    &&& post.throttle_pw == spec_throttle2pw(
        pre.min_pw as int,
        pre.max_pw as int,
        clamp_spec(setting, 0, 100),
    )
    &&& post.channel == pre.channel
    &&& post.min_pw == pre.min_pw
    &&& post.max_pw == pre.max_pw
    &&& post.throttle_offset == pre.throttle_offset
    &&& post.inverted == pre.inverted
}

/// For a valid range the throttle map stays within the range for settings
/// in [0, 100].
pub proof fn lemma_throttle2pw_in_range(min_pw: int, max_pw: int, setting: int)
    requires
        0 <= min_pw <= max_pw <= PW_LIMIT,
        0 <= setting <= 100,
    ensures
        min_pw <= spec_throttle2pw(min_pw, max_pw, setting) <= max_pw,
{
    let s = max_pw - min_pw;
    lemma_mul_inequality(0, setting, s);
    lemma_mul_inequality(setting, 180, s);
    lemma_div_is_ordered(0, setting * s, 180);
    lemma_div_is_ordered(setting * s, 180 * s, 180);
    lemma_div_multiples_vanish(s, 180);
    assert(180 * s == s * 180) by (nonlinear_arith);
}

/// The six channels the core drives: five control-surface servos and the
/// throttle motor. One batched update per cycle re-asserts every channel.
#[derive(Debug, Clone, Copy, PartialEq, Eq, Structural)]
pub struct FCSHardware {
    pub l_elevator_servo: Servo,
    pub r_elevator_servo: Servo,
    pub l_aileron_servo: Servo,
    pub r_aileron_servo: Servo,
    pub rudder_servo: Servo,
    pub throttle_pwm: Motor,
}

/// The batched frame one cycle writes to the bus: every channel's current
/// pulse width, servos first, throttle last.
pub open spec fn spec_frame(h: FCSHardware) -> Seq<PwmCommand> {
    seq![
        PwmCommand { channel: h.l_elevator_servo.channel, pulse_width: h.l_elevator_servo.pos_pw },
        PwmCommand { channel: h.r_elevator_servo.channel, pulse_width: h.r_elevator_servo.pos_pw },
        PwmCommand { channel: h.l_aileron_servo.channel, pulse_width: h.l_aileron_servo.pos_pw },
        PwmCommand { channel: h.r_aileron_servo.channel, pulse_width: h.r_aileron_servo.pos_pw },
        PwmCommand { channel: h.rudder_servo.channel, pulse_width: h.rudder_servo.pos_pw },
        PwmCommand { channel: h.throttle_pwm.channel, pulse_width: h.throttle_pwm.throttle_pw },
    ]
}

/// The default channel assignment: elevators on 0 and 1, ailerons on 2 and
/// 3, rudder on 4, throttle on 5, every range 500..=2500 microseconds.
pub open spec fn fcs_hardware_default() -> FCSHardware {
    FCSHardware {
        l_elevator_servo: Servo { channel: 0, ..servo_default() },
        r_elevator_servo: Servo { channel: 1, ..servo_default() },
        l_aileron_servo: Servo { channel: 2, ..servo_default() },
        r_aileron_servo: Servo { channel: 3, ..servo_default() },
        rudder_servo: Servo { channel: 4, ..servo_default() },
        throttle_pwm: Motor { channel: 5, ..motor_default() },
    }
}

impl FCSHardware {
    /// Every channel is well-formed.
    pub open spec fn wf(&self) -> bool {
        &&& self.l_elevator_servo.wf()
        &&& self.r_elevator_servo.wf()
        &&& self.l_aileron_servo.wf()
        &&& self.r_aileron_servo.wf()
        &&& self.rudder_servo.wf()
        &&& self.throttle_pwm.wf()
    }

    /// Default channel assignment: elevators on 0 and 1, ailerons on 2
    /// and 3, rudder on 4, throttle on 5, every range 500..=2500.
    pub fn default() -> (h: Self)
        ensures
            h == fcs_hardware_default(),
            h.wf(),
    {
        FCSHardware {
            l_elevator_servo: Servo { channel: 0, ..Servo::default() },
            r_elevator_servo: Servo { channel: 1, ..Servo::default() },
            l_aileron_servo: Servo { channel: 2, ..Servo::default() },
            r_aileron_servo: Servo { channel: 3, ..Servo::default() },
            rudder_servo: Servo { channel: 4, ..Servo::default() },
            throttle_pwm: Motor { channel: 5, ..Motor::default() },
        }
    }

    /// Decide well-formedness at run time, for callers outside the proof.
    pub fn is_wf(&self) -> (r: bool)
        ensures
            r == self.wf(),
    {
        self.l_elevator_servo.is_wf() && self.r_elevator_servo.is_wf()
            && self.l_aileron_servo.is_wf() && self.r_aileron_servo.is_wf()
            && self.rudder_servo.is_wf() && self.throttle_pwm.is_wf()
    }

    /// Drive both elevator servos to `angle` (clamped into [-90, 90]).
    pub fn set_elevator_deflection(&mut self, angle: i64)
        requires
            old(self).l_elevator_servo.config_ok(),
            old(self).r_elevator_servo.config_ok(),
        ensures
            servo_set_to(old(self).l_elevator_servo, final(self).l_elevator_servo, angle as int),
            servo_set_to(old(self).r_elevator_servo, final(self).r_elevator_servo, angle as int),
            final(self).l_elevator_servo.wf(),
            final(self).r_elevator_servo.wf(),
            final(self).l_aileron_servo == old(self).l_aileron_servo,
            final(self).r_aileron_servo == old(self).r_aileron_servo,
            final(self).rudder_servo == old(self).rudder_servo,
            final(self).throttle_pwm == old(self).throttle_pwm,
            old(self).wf() ==> final(self).wf(),
    {
        self.l_elevator_servo.set_pos(angle);
        self.r_elevator_servo.set_pos(angle);
    }

    /// Drive the left aileron servo to `angle` (clamped into [-90, 90]).
    pub fn set_l_aileron_deflection(&mut self, angle: i64)
        requires
            old(self).l_aileron_servo.config_ok(),
        ensures
            servo_set_to(old(self).l_aileron_servo, final(self).l_aileron_servo, angle as int),
            final(self).l_aileron_servo.wf(),
            final(self).l_elevator_servo == old(self).l_elevator_servo,
            final(self).r_elevator_servo == old(self).r_elevator_servo,
            final(self).r_aileron_servo == old(self).r_aileron_servo,
            final(self).rudder_servo == old(self).rudder_servo,
            final(self).throttle_pwm == old(self).throttle_pwm,
            old(self).wf() ==> final(self).wf(),
    {
        self.l_aileron_servo.set_pos(angle);
    }

    /// Drive the right aileron servo to `angle` (clamped into [-90, 90]).
    pub fn set_r_aileron_deflection(&mut self, angle: i64)
        requires
            old(self).r_aileron_servo.config_ok(),
        ensures
            servo_set_to(old(self).r_aileron_servo, final(self).r_aileron_servo, angle as int),
            final(self).r_aileron_servo.wf(),
            final(self).l_elevator_servo == old(self).l_elevator_servo,
            final(self).r_elevator_servo == old(self).r_elevator_servo,
            final(self).l_aileron_servo == old(self).l_aileron_servo,
            final(self).rudder_servo == old(self).rudder_servo,
            final(self).throttle_pwm == old(self).throttle_pwm,
            old(self).wf() ==> final(self).wf(),
    {
        self.r_aileron_servo.set_pos(angle);
    }

    /// Drive the rudder servo to `angle` (clamped into [-90, 90]).
    pub fn set_rudder_deflection(&mut self, angle: i64)
        requires
            old(self).rudder_servo.config_ok(),
        ensures
            servo_set_to(old(self).rudder_servo, final(self).rudder_servo, angle as int),
            final(self).rudder_servo.wf(),
            final(self).l_elevator_servo == old(self).l_elevator_servo,
            final(self).r_elevator_servo == old(self).r_elevator_servo,
            final(self).l_aileron_servo == old(self).l_aileron_servo,
            final(self).r_aileron_servo == old(self).r_aileron_servo,
            final(self).throttle_pwm == old(self).throttle_pwm,
            old(self).wf() ==> final(self).wf(),
    {
        self.rudder_servo.set_pos(angle);
    }

    /// Drive the throttle motor to `throttle` percent (clamped into
    /// [0, 100]).
    pub fn set_throttle(&mut self, throttle: i64)
        requires
            old(self).throttle_pwm.config_ok(),
        ensures
            motor_set_to(old(self).throttle_pwm, final(self).throttle_pwm, throttle as int),
            final(self).throttle_pwm.wf(),
            final(self).l_elevator_servo == old(self).l_elevator_servo,
            final(self).r_elevator_servo == old(self).r_elevator_servo,
            final(self).l_aileron_servo == old(self).l_aileron_servo,
            final(self).r_aileron_servo == old(self).r_aileron_servo,
            final(self).rudder_servo == old(self).rudder_servo,
            old(self).wf() ==> final(self).wf(),
    {
        self.throttle_pwm.set_throttle(throttle);
    }

    /// One batched update: the pulse-width write for every channel, in a
    /// single pass, servos first and throttle last. The caller performs the
    /// bus transactions.
    pub fn update(&self) -> (frame: Vec<PwmCommand>)
        ensures
            frame@ == spec_frame(*self),
    {
        let mut frame: Vec<PwmCommand> = Vec::new();
        frame.push(PwmCommand {
            channel: self.l_elevator_servo.channel,
            pulse_width: self.l_elevator_servo.pos_pw,
        });
        frame.push(PwmCommand {
            channel: self.r_elevator_servo.channel,
            pulse_width: self.r_elevator_servo.pos_pw,
        });
        frame.push(PwmCommand {
            channel: self.l_aileron_servo.channel,
            pulse_width: self.l_aileron_servo.pos_pw,
        });
        frame.push(PwmCommand {
            channel: self.r_aileron_servo.channel,
            pulse_width: self.r_aileron_servo.pos_pw,
        });
        frame.push(PwmCommand {
            channel: self.rudder_servo.channel,
            pulse_width: self.rudder_servo.pos_pw,
        });
        frame.push(PwmCommand {
            channel: self.throttle_pwm.channel,
            pulse_width: self.throttle_pwm.throttle_pw,
        });
        proof {
            assert(frame@ =~= spec_frame(*self));
        }
        frame
    }

    /// Initialization: the bus must be driven at the standard analog-servo
    /// refresh rate before channel writes are meaningful.
    pub fn init(&self) -> (r: BusRequest)
        ensures
            r == BusRequest::SetFrequency(REFRESH_HZ),
    {
        BusRequest::SetFrequency(REFRESH_HZ)
    }

    /// Shutdown: force every channel's duty cycle to zero, independent of
    /// the stored per-channel state; a hard stop usable from any state.
    pub fn shutdown(&self) -> (r: BusRequest)
        ensures
            r == BusRequest::SetAllDutyCycle(0),
    {
        BusRequest::SetAllDutyCycle(0)
    }
}

} // verus!
