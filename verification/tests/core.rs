use fcu_core::actuation::{BusRequest, Motor, Servo, FCSHardware, PW_LIMIT, REFRESH_HZ};
use fcu_core::commands::{CommandPacket, CommandType};
use fcu_core::control::{report_hardware_fault, FCS};
use fcu_core::messages::{Message, MsgType, SysCommand, SysMsg};
use fcu_core::system::{Health, Mode, State};
use fcu_core::telemetry::{RawSample, TelemetryHardware};

#[test]
fn throttle_setter_clamps() {
    let mut fcs = FCS::default();
    fcs.set_throttle(150);
    assert_eq!(fcs.throttle, 100);
    fcs.set_throttle(-3);
    assert_eq!(fcs.throttle, 0);
    fcs.set_throttle(42);
    assert_eq!(fcs.throttle, 42);
    fcs.set_throttle(0);
    assert_eq!(fcs.throttle, 0);
    fcs.set_throttle(100);
    assert_eq!(fcs.throttle, 100);
}

#[test]
fn elevator_clamp_example() {
    // Bound [-25, 25]; a far-out request saturates to the bound.
    let mut fcs = FCS::default();
    fcs.set_elevator_deflection(999);
    assert_eq!(fcs.elevator_d, 25);
    fcs.set_elevator_deflection(-999);
    assert_eq!(fcs.elevator_d, -25);
    fcs.set_elevator_deflection(7);
    assert_eq!(fcs.elevator_d, 7);
}

#[test]
fn surface_setters_clamp_each_axis() {
    let mut fcs = FCS::default();
    fcs.set_rudder_deflection(26);
    assert_eq!(fcs.rudder_d, 25);
    fcs.set_l_aileron_deflection(-26);
    assert_eq!(fcs.l_aileron_d, -25);
    fcs.set_r_aileron_deflection(13);
    assert_eq!(fcs.r_aileron_d, 13);
}

#[test]
fn surface_setters_are_axis_independent() {
    // Whatever the other axes hold, a setter stores the same clamped value.
    let mut a = FCS::default();
    let mut b = FCS::default();
    b.set_rudder_deflection(25);
    b.set_l_aileron_deflection(-17);
    b.set_r_aileron_deflection(4);
    b.set_throttle(90);
    a.set_elevator_deflection(999);
    b.set_elevator_deflection(999);
    assert_eq!(a.elevator_d, b.elevator_d);
    a.set_elevator_deflection(-2);
    b.set_elevator_deflection(-2);
    assert_eq!(a.elevator_d, b.elevator_d);
    // And the setter leaves the other axes alone.
    assert_eq!(b.rudder_d, 25);
    assert_eq!(b.l_aileron_d, -17);
    assert_eq!(b.r_aileron_d, 4);
    assert_eq!(b.throttle, 90);
}

#[test]
fn deg2pw_anchor_points() {
    let servo = Servo::default();
    assert_eq!(servo.min_pw, 500);
    assert_eq!(servo.max_pw, 2500);
    assert_eq!(servo.deg2pw(-90), 500);
    assert_eq!(servo.deg2pw(0), 1500);
    assert_eq!(servo.deg2pw(90), 2500);
}

#[test]
fn deg2pw_is_monotonic() {
    let servo = Servo::default();
    let mut last = servo.deg2pw(-90);
    let mut a: i64 = -89;
    while a <= 90 {
        let pw = servo.deg2pw(a);
        assert!(pw >= last);
        last = pw;
        a += 1;
    }
}

#[test]
fn servo_set_pos_clamps_and_derives() {
    let mut servo = Servo::default();
    servo.set_pos(120);
    assert_eq!(servo.pos, 90);
    assert_eq!(servo.pos_pw, 2500);
    servo.set_pos(-120);
    assert_eq!(servo.pos, -90);
    assert_eq!(servo.pos_pw, 500);
    servo.set_pos(10);
    assert_eq!(servo.pos, 10);
    assert_eq!(servo.pos_pw, servo.deg2pw(10));
    assert!(servo.is_wf());
}

#[test]
fn servo_range_setters_keep_invariant() {
    let mut servo = Servo::default();
    servo.set_pos(45);
    servo.set_min_pw(1000);
    assert_eq!(servo.min_pw, 1000);
    assert_eq!(servo.pos_pw, servo.deg2pw(45));
    servo.set_max_pw(PW_LIMIT);
    assert_eq!(servo.max_pw, PW_LIMIT);
    assert_eq!(servo.pos_pw, servo.deg2pw(45));
    assert!(servo.is_wf());
}

#[test]
fn throttle_clamp_example() {
    // Default motor (min_pw 500, max_pw 2500): an overdriven setting stores
    // 100 and the pulse width is the affine image of 100.
    let mut motor = Motor::default();
    motor.set_throttle(150);
    assert_eq!(motor.throttle, 100);
    assert_eq!(motor.throttle_pw, motor.throttle2pw(100));
    assert_eq!(motor.throttle_pw, 1611);
    assert!(motor.is_wf());
}

#[test]
fn throttle2pw_zero_is_min_pw() {
    let motor = Motor::default();
    assert_eq!(motor.throttle2pw(0), 500);
    let m = Motor { min_pw: 700, max_pw: 2200, ..Motor::default() };
    assert_eq!(m.throttle2pw(0), 700);
}

#[test]
fn master_safe_forces_zero_throttle_output() {
    let mut fcs = FCS::default();
    assert!(fcs.master_safe);
    fcs.set_throttle(100);
    let frame = fcs.update();
    assert_eq!(frame.len(), 6);
    // Channel 5 is the throttle; the interlock holds it at the
    // zero-throttle pulse width in spite of the stored 100 percent.
    assert_eq!(frame[5].channel, 5);
    assert_eq!(frame[5].pulse_width, 500);
    assert_eq!(fcs.throttle, 100);
}

#[test]
fn released_interlock_passes_throttle_through() {
    let mut fcs = FCS::default();
    fcs.set_master_safe(false);
    fcs.set_throttle(100);
    let frame = fcs.update();
    assert_eq!(frame[5].pulse_width, fcs.fc_hardware.throttle_pwm.throttle2pw(100));
    assert_eq!(frame[5].pulse_width, 1611);
}

#[test]
fn update_reasserts_every_channel() {
    let mut fcs = FCS::default();
    fcs.set_elevator_deflection(10);
    fcs.set_rudder_deflection(-5);
    let frame = fcs.update();
    assert_eq!(frame.len(), 6);
    let channels: Vec<u8> = frame.iter().map(|c| c.channel).collect();
    assert_eq!(channels, vec![0, 1, 2, 3, 4, 5]);
    // Both elevator servos follow the one elevator setpoint.
    let expect = fcs.fc_hardware.l_elevator_servo.deg2pw(10);
    assert_eq!(frame[0].pulse_width, expect);
    assert_eq!(frame[1].pulse_width, expect);
    assert_eq!(frame[4].pulse_width, fcs.fc_hardware.rudder_servo.deg2pw(-5));
    assert_eq!(fcs.fc_hardware.l_elevator_servo.pos, 10);
    assert_eq!(fcs.fc_hardware.rudder_servo.pos, -5);
}

#[test]
fn init_and_shutdown_requests() {
    let fcs = FCS::default();
    assert_eq!(fcs.init_hardware(), BusRequest::SetFrequency(REFRESH_HZ));
    assert_eq!(fcs.shutdown_hardware(), BusRequest::SetAllDutyCycle(0));
    let hw = FCSHardware::default();
    assert_eq!(hw.init(), BusRequest::SetFrequency(50));
    assert_eq!(hw.shutdown(), BusRequest::SetAllDutyCycle(0));
}

#[test]
fn hardware_fault_degrades_and_rearms() {
    let mut state = State::new();
    state.set_mode(Mode::InFlight);
    let mut fcs = FCS::default();
    fcs.set_master_safe(false);
    fcs.set_throttle(80);
    report_hardware_fault(&mut state, &mut fcs);
    assert_eq!(state.health, Health::Critical);
    assert_eq!(state.get_mode(), Mode::InFlight);
    assert!(fcs.master_safe);
    assert_eq!(fcs.throttle, 80);
}

#[test]
fn bias_correction_is_componentwise_subtraction() {
    let mut th = TelemetryHardware::default();
    th.calibrate_at_rest([10, -20, 30]);
    let raw = RawSample { accel: [100, 200, 300], gyro: [1, 2, 3], mag: [4, 5, 6], temp: 25 };
    let t = th.get_telemetry(&raw);
    assert_eq!(t.accel, [90, 220, 270]);
    assert_eq!(t.gyro, [1, 2, 3]);
    assert_eq!(t.mag, [4, 5, 6]);
    assert_eq!(t.temp, 25);
}

#[test]
fn recalibration_overwrites_prior_bias() {
    let mut th = TelemetryHardware::default();
    th.calibrate_at_rest([1, 1, 1]);
    th.calibrate_at_rest([5, 6, 7]);
    assert_eq!(th.accelerometer_bias, [5, 6, 7]);
    let raw = RawSample { accel: [5, 6, 7], gyro: [0, 0, 0], mag: [0, 0, 0], temp: 0 };
    let t = th.get_telemetry(&raw);
    assert_eq!(t.accel, [0, 0, 0]);
}

#[test]
fn fcs_get_telemetry_uses_stored_bias() {
    let mut fcs = FCS::default();
    fcs.telem_hardware.calibrate_at_rest([7, 8, 9]);
    let raw = RawSample { accel: [7, 8, 9], gyro: [1, 1, 1], mag: [2, 2, 2], temp: 21 };
    let t = fcs.get_telemetry(&raw);
    assert_eq!(t.accel, [0, 0, 0]);
    assert_eq!(t.temp, 21);
}

#[test]
fn state_machine_defaults_and_transitions() {
    let mut s = State::new();
    assert_eq!(s.get_mode(), Mode::Startup);
    assert_eq!(s.health, Health::Nominal);
    // Any mode is settable from any other.
    s.set_mode(Mode::Takeoff);
    assert_eq!(s.get_mode(), Mode::Takeoff);
    s.set_mode(Mode::Standby);
    assert_eq!(s.get_mode(), Mode::Standby);
    s.set_mode(Mode::Failure);
    assert_eq!(s.get_mode(), Mode::Failure);
    s.set_health(Health::Marginal);
    assert_eq!(s.health, Health::Marginal);
    s.health = Health::Nominal;
    assert_eq!(s.health, Health::Nominal);
}

#[test]
fn fcs_defaults_are_fail_safe() {
    let fcs = FCS::default();
    assert!(fcs.master_safe);
    assert_eq!(fcs.throttle, 0);
    assert_eq!(fcs.elevator_d, 0);
    assert_eq!(fcs.rudder_d, 0);
    assert_eq!(fcs.r_aileron_d, 0);
    assert_eq!(fcs.l_aileron_d, 0);
    assert_eq!(fcs.elevator_d_bound, [-25, 25]);
    assert_eq!(fcs.rudder_d_bound, [-25, 25]);
    assert_eq!(fcs.fc_hardware.throttle_pwm.channel, 5);
    assert_eq!(fcs.fc_hardware.l_elevator_servo.channel, 0);
    assert!(fcs.fc_hardware.is_wf());
}

#[test]
fn single_entry_packet_round_trips() {
    // A new packet with one appended command encodes to exactly one tag and
    // one payload, at matching positions.
    let mut p = CommandPacket::new();
    p.add(CommandType::SetSysMode, String::from("Standby"));
    let wire = p.encode();
    let q = CommandPacket::decode(wire.as_str()).expect("well-formed wire text");
    assert_eq!(q.commands.len(), 1);
    assert_eq!(q.values.len(), 1);
    assert!(matches!(q.commands[0], CommandType::SetSysMode));
    assert_eq!(q.values[0], "Standby");
}

#[test]
fn packet_round_trip_preserves_order_and_count() {
    let mut p = CommandPacket::new();
    p.add(CommandType::SetSysMode, String::from("Standby"));
    p.add(CommandType::SetControlState, String::from("{\"throttle\": 40}"));
    p.add(CommandType::SetAPState, String::from("hold; alt=120 \\ hdg=90"));
    p.add(CommandType::SetControlState, String::from(""));
    let wire = p.encode();
    let q = CommandPacket::decode(wire.as_str()).expect("well-formed wire text");
    assert_eq!(q.commands.len(), 4);
    assert_eq!(q.values.len(), 4);
    assert!(matches!(q.commands[0], CommandType::SetSysMode));
    assert!(matches!(q.commands[1], CommandType::SetControlState));
    assert!(matches!(q.commands[2], CommandType::SetAPState));
    assert!(matches!(q.commands[3], CommandType::SetControlState));
    assert_eq!(q.values[0], "Standby");
    assert_eq!(q.values[1], "{\"throttle\": 40}");
    assert_eq!(q.values[2], "hold; alt=120 \\ hdg=90");
    assert_eq!(q.values[3], "");
}

#[test]
fn empty_packet_round_trips() {
    let p = CommandPacket::new();
    let wire = p.encode();
    assert_eq!(wire, "");
    let q = CommandPacket::decode(wire.as_str()).expect("empty wire text is a packet");
    assert_eq!(q.commands.len(), 0);
    assert_eq!(q.values.len(), 0);
}

#[test]
fn malformed_wire_text_is_rejected() {
    // Unknown tag letter.
    assert!(CommandPacket::decode("XStandby;").is_none());
    // Entry without its terminator.
    assert!(CommandPacket::decode("MStandby").is_none());
    // Escape dangling at the end of the text.
    assert!(CommandPacket::decode("MStandby\\").is_none());
    // Trailing garbage after a good entry.
    assert!(CommandPacket::decode("MStandby;Z").is_none());
}

#[test]
fn message_wraps_content_and_category() {
    let m = Message::new(1700000000, MsgType::Telemetry, String::from("{\"temp\": 21}"));
    assert!(matches!(m.msg_type(), MsgType::Telemetry));
    assert_eq!(m.content(), "{\"temp\": 21}");
    assert_eq!(m.timestamp(), 1700000000);
}

#[test]
fn sys_msg_carries_command_and_data() {
    let msg = SysMsg { command: SysCommand::SetMode, data: String::from("InFlight") };
    assert!(matches!(msg.command, SysCommand::SetMode));
    assert_eq!(msg.data, "InFlight");
}
