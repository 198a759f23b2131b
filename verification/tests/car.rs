use microbit_car::car::diagnostic;
use microbit_car::car::drive::{motion_to_rgb, Drive, DriveAction, DriveEvent};
use microbit_car::car::light::Light;
use microbit_car::car::motor::{percent_to_motor_speed, MotorDriver, SPEED_CACHE_UNINIT};
use microbit_car::car::motorbit::{MotorBit, ServoConfig, M1, M4, SERVO_CHANNELS};
use microbit_car::car::pca9685::{BusStep, ChannelWrite, Pca9685, RegWrite};
use microbit_car::car::radio::{CarAction, CarRadio};
use microbit_car::car::rgb::{Color, RgbStrip};
use microbit_car::protocol::{
    create_emergency_stop_packet, create_heartbeat_packet, create_motion_packet,
    create_response_packet, CarStatus, MessageType, MotionPayload, RadioPacket, ResponsePayload,
    TelemetryPayload,
};
use microbit_car::ws2812::{FRAME_BUSY_US, WORD_T0, WORD_T1};

fn motion(vx: i8, vy: i8, omega: i8) -> MotionPayload {
    MotionPayload { vx, vy, omega }
}

fn frame_of(packet: &RadioPacket) -> Vec<u8> {
    let (buf, len) = packet.to_bytes();
    buf[..len].to_vec()
}

fn store(regs: &mut [u8; 256], writes: &[ChannelWrite]) {
    for w in writes {
        let bytes = w.to_bytes();
        for i in 0..4 {
            regs[bytes[0] as usize + i] = bytes[i + 1];
        }
    }
}

fn duty_of(regs: &[u8; 256], channel: usize) -> i32 {
    let base = 6 + 4 * channel;
    assert_eq!(regs[base], 0);
    assert_eq!(regs[base + 1], 0);
    if is_off(regs, channel) {
        return 0;
    }
    regs[base + 2] as i32 + 256 * regs[base + 3] as i32
}

fn is_off(regs: &[u8; 256], channel: usize) -> bool {
    regs[6 + 4 * channel + 3] & 0x10 != 0
}

fn speed_of(regs: &[u8; 256], motor: usize) -> i32 {
    let ahead = duty_of(regs, 2 * motor);
    let back = duty_of(regs, 2 * motor + 1);
    assert!(ahead == 0 || back == 0);
    let at_rest = ahead == back;
    assert_eq!(is_off(regs, 2 * motor), at_rest);
    assert_eq!(is_off(regs, 2 * motor + 1), at_rest);
    ahead - back
}

#[test]
fn channel_write_bytes() {
    let chip = Pca9685::resume();
    assert_eq!(chip.addr, 0x40);
    assert_eq!(chip.frequency_hz(), 1500);
    assert_eq!(chip.pwm(0, 0, 4095).to_bytes(), [0x06, 0, 0, 0xFF, 0x0F]);
    assert_eq!(chip.pwm(15, 0x123, 0xABC).to_bytes(), [0x42, 0x23, 0x01, 0xBC, 0x0A]);
    assert_eq!(chip.duty(3, 5000), chip.pwm(3, 0, 4095));
    assert_eq!(chip.duty(3, 100), chip.pwm(3, 0, 100));
    assert_eq!(chip.set_full_off(2).to_bytes(), [0x0E, 0, 0, 0, 0x10]);
    assert_eq!(Pca9685::resume_with_address(0x41).addr, 0x41);
}

#[test]
fn frequency_sequence() {
    let mut chip = Pca9685::resume();
    let steps = chip.set_frequency_hz(50, 0x91);
    assert_eq!(
        steps,
        vec![
            BusStep::Register(RegWrite { reg: 0x00, value: 0x11 }),
            BusStep::Register(RegWrite { reg: 0xFE, value: 121 }),
            BusStep::Register(RegWrite { reg: 0x00, value: 0x91 }),
            BusStep::WaitMs(5),
            BusStep::Register(RegWrite { reg: 0x00, value: 0xB1 }),
        ]
    );
    assert_eq!(chip.frequency_hz(), 50);
    let prescaler = |freq: u16| match Pca9685::resume().set_frequency_hz(freq, 0)[1] {
        BusStep::Register(w) => w.value,
        _ => panic!("no prescaler"),
    };
    assert_eq!(prescaler(1500), 3);
    assert_eq!(prescaler(24), 253);
    assert_eq!(prescaler(23), 8);
    assert_eq!(prescaler(1526), 3);
    assert_eq!(prescaler(12207), 0);
}

#[test]
fn chip_set_up() {
    assert_eq!(
        Pca9685::reset_steps(),
        vec![BusStep::Register(RegWrite { reg: 0, value: 0 }), BusStep::WaitMs(5)]
    );
    let (chip, steps) = Pca9685::with_address(0x43, 0x20);
    assert_eq!(chip, Pca9685 { addr: 0x43, frequency_hz: 1500 });
    assert_eq!(steps.len(), 5 + 16);
    assert_eq!(steps[5], BusStep::Channel(chip.duty(0, 0)));
    assert_eq!(steps[20], BusStep::Channel(chip.duty(15, 0)));
    let (default_chip, default_steps) = Pca9685::new(0x20);
    assert_eq!(default_chip.addr, 0x40);
    assert_eq!(default_steps, steps);
    assert_eq!(Pca9685::read_reg(Some(0x5A)), 0x5A);
    assert_eq!(Pca9685::read_reg(None), 0);
    assert_eq!(Pca9685::write_reg(0xFE, 3).to_bytes(), [0xFE, 3]);
}

#[test]
fn dc_motor_channels() {
    let board = MotorBit::new(Pca9685::resume());
    let chip = board.pca9685;
    assert_eq!(board.set_dc_motor_speed(M1, 4095), [chip.duty(0, 4095), chip.duty(1, 0)]);
    assert_eq!(board.set_dc_motor_speed(M4, -1000), [chip.duty(7, 1000), chip.duty(6, 0)]);
    assert_eq!(board.set_dc_motor_speed(M1, 0), [chip.duty(0, 0), chip.duty(1, 0)]);
    let stop = board.stop_dc_motor(M1);
    assert_eq!(stop, [chip.set_full_off(0), chip.set_full_off(1)]);
    assert_eq!(stop[0].to_bytes(), [0x06, 0, 0, 0, 0x10]);
    assert_eq!(stop[1].to_bytes(), [0x0A, 0, 0, 0, 0x10]);
    assert_eq!(board.run_dc_motor(M4, 0), board.stop_dc_motor(M4));
    assert_eq!(board.run_dc_motor(M4, -7), board.set_dc_motor_speed(M4, -7));
    let stops = board.stop_all_motors();
    assert_eq!(stops.len(), 8);
    for (i, w) in stops.iter().enumerate() {
        assert_eq!(*w, chip.set_full_off(i as u8));
    }
}

#[test]
fn a_duty_ends_full_off() {
    let chip = Pca9685::resume();
    let mut regs = [0u8; 256];
    store(&mut regs, &[chip.set_full_off(3)]);
    assert!(is_off(&regs, 3));
    assert!(!is_off(&regs, 2));
    store(&mut regs, &[chip.duty(3, 900)]);
    assert!(!is_off(&regs, 3));
    assert_eq!(duty_of(&regs, 3), 900);
}

#[test]
fn servo_angles() {
    let mut chip = Pca9685::resume();
    chip.set_frequency_hz(50, 0);
    let mut board = MotorBit::new(chip);
    assert_eq!(board.servo_config(0), &ServoConfig::default());
    assert_eq!(SERVO_CHANNELS, [8, 9, 10, 11, 12, 13, 14, 15]);
    assert_eq!(board.set_servo_angle(0, 0), chip.duty(8, 102));
    assert_eq!(board.set_servo_angle(0, 90), chip.duty(8, 307));
    assert_eq!(board.set_servo_angle(7, 180), chip.duty(15, 511));
    board.set_servo_config(
        7,
        ServoConfig { max_rotation_angle: 270, min_pulse_width_us: 1000, max_pulse_width_us: 2000 },
    );
    assert_eq!(board.set_servo_angle(7, 135), chip.duty(15, 307));
    assert_eq!(board.servo_config(6), &ServoConfig::default());
    assert_eq!(board.set_servo_duty(2, 9999), chip.duty(10, 4095));
    assert_eq!(board.set_servo_duty(2, 300), chip.duty(10, 300));
    board.pca9685_mut().set_frequency_hz(60, 0);
    assert_eq!(board.pca9685.frequency_hz(), 60);
    assert_eq!(board.servo_config(7).max_rotation_angle, 270);
    let fast = MotorBit::new(Pca9685::resume());
    assert_eq!(fast.set_servo_angle(0, 90), chip.duty(8, 4095));
    assert_eq!(fast.set_servo_angle(0, 0), chip.duty(8, 3071));
}

#[test]
fn percent_scale() {
    assert_eq!(percent_to_motor_speed(0), 0);
    assert_eq!(percent_to_motor_speed(1), 40);
    assert_eq!(percent_to_motor_speed(100), 4000);
    assert_eq!(percent_to_motor_speed(-103), -4095);
    assert_eq!(percent_to_motor_speed(i16::MAX), 4095);
}

#[test]
fn motor_start_up() {
    let (driver, steps) = MotorDriver::new(0);
    assert_eq!(driver.last_speeds, [SPEED_CACHE_UNINIT; 4]);
    assert_eq!(steps.len(), 5 + 16 + 8);
    assert_eq!(steps[28], BusStep::Channel(Pca9685::resume().set_full_off(7)));
    let mut regs = [0xFFu8; 256];
    for step in &steps {
        if let BusStep::Channel(w) = step {
            store(&mut regs, &[*w]);
        }
    }
    for motor in 0..4 {
        assert_eq!(speed_of(&regs, motor), 0);
    }
}

#[test]
fn mecanum_mixing() {
    let cases = [
        (motion(100, 0, 0), [4000, 4000, 4000, 4000]),
        (motion(0, 100, 0), [4000, -4000, -4000, 4000]),
        (motion(0, 0, 100), [-4000, 4000, -4000, 4000]),
        (motion(30, 20, 10), [1600, 800, 0, 2400]),
        (motion(100, 100, 100), [1320, 1320, -1320, 4000]),
        (motion(-100, -100, -100), [-1320, -1320, 1320, -4000]),
        (motion(-128, -128, 0), [-4000, 0, 0, -4000]),
        (motion(0, 0, 0), [0, 0, 0, 0]),
    ];
    for (m, speeds) in cases {
        let (mut driver, _) = MotorDriver::new(0);
        let mut regs = [0u8; 256];
        store(&mut regs, &driver.apply_motion(&m));
        assert_eq!(driver.last_speeds, speeds);
        for i in 0..4 {
            assert_eq!(speed_of(&regs, i), speeds[i] as i32);
        }
    }
}

#[test]
fn chip_follows_every_command() {
    let (mut driver, _) = MotorDriver::new(0);
    let mut regs = [0u8; 256];
    let path = [motion(50, 0, 0), motion(50, 0, 20), motion(0, 0, 20), motion(-9, 90, 100)];
    for m in path.iter().chain([motion(0, 0, 0), motion(1, 0, 0)].iter()) {
        store(&mut regs, &driver.apply_motion(m));
        for i in 0..4 {
            assert_eq!(speed_of(&regs, i), driver.last_speeds[i] as i32);
        }
    }
}

#[test]
fn unchanged_motors_are_not_written() {
    let (mut driver, _) = MotorDriver::new(0);
    assert_eq!(driver.apply_motion(&motion(0, 0, 0)).len(), 8);
    assert_eq!(driver.apply_motion(&motion(0, 0, 0)).len(), 0);
    assert_eq!(driver.stop_all().len(), 0);
    assert_eq!(driver.apply_motion(&motion(50, 50, 0)).len(), 4);
    assert_eq!(driver.last_speeds, [4000, 0, 0, 4000]);
    assert_eq!(driver.apply_motion(&motion(50, 50, 0)).len(), 0);
    let stops = driver.stop_all();
    let chip = Pca9685::resume();
    let expected: Vec<ChannelWrite> = [0, 1, 6, 7].map(|c| chip.set_full_off(c)).to_vec();
    assert_eq!(stops, expected);
    assert_eq!(driver.last_speeds, [0; 4]);
}

#[test]
fn changed_motors_are_written_in_order() {
    let (mut driver, _) = MotorDriver::new(0);
    driver.write_motor_speeds([100, 200, 300, 400]);
    let chip = Pca9685::resume();
    let writes = driver.write_motor_speeds([100, -200, 300, 0]);
    let expected =
        vec![chip.duty(3, 200), chip.duty(2, 0), chip.set_full_off(6), chip.set_full_off(7)];
    assert_eq!(writes, expected);
    assert_eq!(driver.last_speeds, [100, -200, 300, 0]);
    assert_eq!(driver.write_motor_speeds([100, -200, 300, 0]), vec![]);
}

#[test]
fn strip_encoding() {
    let mut strip = RgbStrip::new();
    assert_eq!(strip.buf, [WORD_T0; 96]);
    assert_eq!(WORD_T0, 0x8005);
    assert_eq!(WORD_T1, 0x800D);
    assert_eq!(FRAME_BUSY_US, 272);
    strip.set(1, Color::new(0x80, 0x01, 0xFF));
    strip.set(4, Color::white());
    strip.show();
    for (k, word) in strip.buf.iter().enumerate() {
        let one = k == 24 + 7 || k == 24 + 8 || (24 + 16..24 + 24).contains(&k);
        assert_eq!(*word, if one { WORD_T1 } else { WORD_T0 });
    }
    strip.set_all(Color::white());
    strip.show();
    assert_eq!(strip.buf, [WORD_T1; 96]);
    strip.clear();
    assert_eq!(strip.colors, [Color::black(); 4]);
    assert_eq!(strip.buf, [WORD_T1; 96]);
    strip.show();
    assert_eq!(strip.buf, [WORD_T0; 96]);
}

#[test]
fn palette() {
    assert_eq!(Color::red(), Color { r: 255, g: 0, b: 0 });
    assert_eq!(Color::cyan(), Color { r: 0, g: 255, b: 255 });
}

#[test]
fn status_colors() {
    assert_eq!(motion_to_rgb(&motion(9, -9, 9)), Color::new(16, 16, 16));
    assert_eq!(motion_to_rgb(&motion(10, 0, 0)), Color::green());
    assert_eq!(motion_to_rgb(&motion(-50, 50, 0)), Color::red());
    assert_eq!(motion_to_rgb(&motion(20, 50, 50)), Color::yellow());
    assert_eq!(motion_to_rgb(&motion(20, -50, 0)), Color::blue());
    assert_eq!(motion_to_rgb(&motion(20, 50, -51)), Color::magenta());
    assert_eq!(motion_to_rgb(&motion(-128, 0, 127)), Color::red());
}

#[test]
fn lights() {
    let mut light = Light::init();
    assert_eq!(light, Light { left: false, right: false });
    light.light_off();
    assert_eq!(light, Light { left: true, right: true });
    light.light_on();
    assert_eq!(light, Light { left: false, right: false });
}

fn halts(action: DriveAction) -> Option<usize> {
    match action {
        DriveAction::Halt { writes, motion, color } => {
            assert_eq!(motion, MotionPayload::stop());
            assert_eq!(color, Color::new(32, 0, 0));
            Some(writes.len())
        }
        DriveAction::Nothing => None,
        DriveAction::Follow { .. } => panic!("unexpected command"),
    }
}

#[test]
fn drive_follows_commands() {
    let mut drive = Drive::new(MotorDriver::new(0).0);
    assert_eq!(drive.expiry_deadline(), None);
    match drive.handle(DriveEvent::Motion { motion: motion(100, 0, 0), now: 1000 }) {
        DriveAction::Follow { motion: shown, lights_on, color, writes } => {
            assert_eq!(shown, motion(100, 0, 0));
            assert!(!lights_on);
            assert_eq!(color, Color::green());
            assert_eq!(writes.len(), 8);
        }
        _ => panic!("not followed"),
    }
    assert_eq!(drive.expiry_deadline(), Some(1000 + 1967));
    match drive.handle(DriveEvent::Motion { motion: motion(0, 0, 0), now: 2000 }) {
        DriveAction::Follow { lights_on, .. } => assert!(lights_on),
        _ => panic!("not followed"),
    }
    assert_eq!(drive.expiry_deadline(), Some(3967));
}

#[test]
fn held_command_pauses() {
    let mut drive = Drive::new(MotorDriver::new(0).0);
    let held = motion(100, 0, 0);
    let again = 1000 + 6554;
    drive.handle(DriveEvent::Motion { motion: held, now: 1000 });
    assert!(drive.expiry_deadline() < Some(again));
    assert_eq!(halts(drive.handle(DriveEvent::Expiry)), Some(8));
    drive.handle(DriveEvent::Motion { motion: held, now: again });
    assert_eq!(drive.motors.last_speeds, [4000; 4]);
    assert!(!drive.failsafe_engaged);
}

#[test]
fn expired_command_stops_the_car_once() {
    let mut drive = Drive::new(MotorDriver::new(0).0);
    drive.handle(DriveEvent::Motion { motion: motion(100, 0, 0), now: 1000 });
    assert_eq!(halts(drive.handle(DriveEvent::Tick { last_rx: 30, now_ms: 70 })), None);
    assert_eq!(drive.expiry_deadline(), Some(2967));
    assert_eq!(halts(drive.handle(DriveEvent::Expiry)), Some(8));
    assert_eq!(drive.motors.last_speeds, [0; 4]);
    assert_eq!(drive.expiry_deadline(), None);
    assert_eq!(halts(drive.handle(DriveEvent::Expiry)), None);
    assert_eq!(halts(drive.handle(DriveEvent::Tick { last_rx: 30, now_ms: 9000 })), None);
    drive.handle(DriveEvent::Motion { motion: motion(10, 0, 0), now: 9000 });
    assert!(!drive.failsafe_engaged);
    assert_eq!(drive.motors.last_speeds, [400; 4]);
}

#[test]
fn watchdog_stops_a_silent_car() {
    let started = || {
        let mut drive = Drive::new(MotorDriver::new(0).0);
        drive.handle(DriveEvent::Motion { motion: motion(100, 0, 0), now: 0 });
        drive
    };
    assert_eq!(halts(started().handle(DriveEvent::Tick { last_rx: 1000, now_ms: 1200 })), None);
    assert_eq!(halts(started().handle(DriveEvent::Tick { last_rx: 1000, now_ms: 1201 })), Some(8));
    assert_eq!(halts(started().handle(DriveEvent::Tick { last_rx: 0, now_ms: 1 })), Some(8));
    let wrapped = 0x1_0000_0000u64 + 50;
    let recent = DriveEvent::Tick { last_rx: 0xFFFF_FFF0, now_ms: wrapped };
    assert_eq!(halts(started().handle(recent)), None);
    let stale = DriveEvent::Tick { last_rx: 0xFFFF_FF00, now_ms: wrapped };
    assert_eq!(halts(started().handle(stale)), Some(8));
}

#[test]
fn silent_boot_engages_failsafe() {
    let mut drive = Drive::new(MotorDriver::new(0).0);
    assert_eq!(halts(drive.handle(DriveEvent::Tick { last_rx: 0, now_ms: 40 })), Some(8));
    assert!(drive.failsafe_engaged);
    assert_eq!(halts(drive.handle(DriveEvent::Tick { last_rx: 0, now_ms: 80 })), None);
}

#[test]
fn car_takes_motion_without_reply() {
    let mut radio = CarRadio::new();
    assert_eq!(radio.last_rx_millis(), 0);
    let frame = frame_of(&create_motion_packet(7, 10, -20, 30));
    match radio.on_frame_at(&frame, 0x1_0000_0005) {
        CarAction::Drive(m) => assert_eq!(m, motion(10, -20, 30)),
        other => panic!("{:?}", other),
    }
    assert_eq!(radio, CarRadio { seq: 0, last_rx_ms: 5 });
}

#[test]
fn car_answers_heartbeat() {
    let mut radio = CarRadio { seq: 255, last_rx_ms: 0 };
    match radio.on_frame_at(&frame_of(&create_heartbeat_packet(9)), 77) {
        CarAction::Reply(reply) => {
            assert_eq!(frame_of(&reply), frame_of(&create_heartbeat_packet(255)))
        }
        other => panic!("{:?}", other),
    }
    assert_eq!(radio, CarRadio { seq: 0, last_rx_ms: 77 });
}

#[test]
fn car_acknowledges_emergency_stop() {
    let mut radio = CarRadio { seq: 4, last_rx_ms: 0 };
    match radio.on_frame_at(&frame_of(&create_emergency_stop_packet(9)), 1) {
        CarAction::EmergencyStop { motion: m, reply } => {
            assert_eq!(m, MotionPayload::stop());
            assert_eq!(reply.header.msg_type, MessageType::Response);
            assert_eq!(reply.header.seq, 4);
            let expected = ResponsePayload { status: CarStatus::Stopped, info: 0 };
            assert_eq!(ResponsePayload::from_bytes(reply.get_payload()), Some(expected));
        }
        other => panic!("{:?}", other),
    }
    assert_eq!(radio.seq, 5);
}

#[test]
fn car_ignores_the_rest() {
    let mut radio = CarRadio { seq: 4, last_rx_ms: 3 };
    assert!(matches!(radio.on_frame_at(&[], 9), CarAction::Ignore));
    assert!(matches!(radio.on_frame_at(&[2, 0, 5, 0, 8], 9), CarAction::Ignore));
    assert_eq!(radio, CarRadio { seq: 4, last_rx_ms: 3 });
    let response = create_response_packet(1, CarStatus::Ready, 0);
    assert!(matches!(radio.on_frame_at(&frame_of(&response), 9), CarAction::Ignore));
    assert_eq!(radio, CarRadio { seq: 4, last_rx_ms: 9 });
    let mut short = RadioPacket::new(MessageType::Motion, 0);
    assert_eq!(short.set_payload(&[1, 2]), Ok(()));
    assert!(matches!(radio.handle_received_packet(&short), CarAction::Ignore));
}

#[test]
fn car_builds_telemetry() {
    let mut radio = CarRadio::new();
    let telemetry = TelemetryPayload { battery: 9, speed: 8, heading: 7, vx: 6, vy: 5, omega: 4 };
    let packet = radio.telemetry_packet(telemetry);
    assert_eq!(packet.header.seq, 0);
    assert_eq!(packet.get_payload(), &[9, 8, 7, 6, 5, 4]);
    assert_eq!(radio.seq, 1);
}

#[test]
fn diagnostic_window() {
    let mut window = diagnostic::RequestWindow::new();
    let mut polls = 0;
    while window.wants_poll() {
        assert!(!window.poll(false));
        polls += 1;
    }
    assert_eq!(polls, 40);
    let mut again = diagnostic::RequestWindow::new();
    assert!(!again.poll(false));
    assert!(again.poll(true));
}

#[test]
fn diagnostic_cycle() {
    let steps = diagnostic::run();
    assert_eq!(steps.len(), 4 * (4 * 8 + 4) + 1);
    assert_eq!(steps[steps.len() - 1], BusStep::WaitMs(2000));
    let mut regs = [0u8; 256];
    let mut waits = Vec::new();
    for step in &steps {
        match step {
            BusStep::Channel(w) => store(&mut regs, &[*w]),
            BusStep::WaitMs(ms) => {
                let speeds: Vec<i32> = (0..4).map(|m| speed_of(&regs, m)).collect();
                waits.push((*ms, speeds));
            }
            BusStep::Register(_) => panic!("unexpected register write"),
        }
    }
    for m in 0..4 {
        let mut ahead = vec![0; 4];
        ahead[m] = 2048;
        let mut back = vec![0; 4];
        back[m] = -2048;
        assert_eq!(waits[4 * m], (1000, ahead));
        assert_eq!(waits[4 * m + 1], (500, vec![0; 4]));
        assert_eq!(waits[4 * m + 2], (1000, back));
        assert_eq!(waits[4 * m + 3], (500, vec![0; 4]));
    }
    assert_eq!(diagnostic::run_single_motor(0).len(), 4 * 8 + 3);
    assert_eq!(diagnostic::set_only(2, -5).len(), 8);
    assert_eq!(diagnostic::stop_all().len(), 8);
}
