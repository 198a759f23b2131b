use microbit_car::controller::button::{step_toward, target_from_buttons, ButtonRamp, ModeSwitch};
use microbit_car::controller::fusion::{merge_omega, Fusion, FusionEvent};
use microbit_car::controller::joystick::{Joystick, JoystickState};
use microbit_car::controller::joystick_right::{RightStick, RightStickSource, RightStickState};
use microbit_car::controller::mode::{InputMode, Mode};
use microbit_car::controller::radio::{
    handle_received_packet, link_state_at, publish_link_state, ControllerAction, ControllerRadio,
    HEARTBEAT_TIMEOUT_MS,
};
use microbit_car::controller::rgb::{
    breathing_brightness, encode_pixels, render, ConnectionState, Indicator, Rgb, RgbState,
};
use microbit_car::controller::signal::{
    apply_dead_zone, process_axis, scale_to_output, EmaFilter, ADC_MAX, ADC_MID, DEFAULT_DEAD_ZONE,
};
use microbit_car::controller::tilt::{map_axis, read_xy, AccelSetup, SetupStep, Tilt};
use microbit_car::protocol::{
    create_emergency_stop_packet, create_heartbeat_packet, create_motion_packet,
    create_response_packet, create_telemetry_packet, CarStatus, MessageType, MotionPayload,
    RadioPacket, ResponsePayload, TelemetryPayload,
};
use microbit_car::radio_core::{
    attempts_for, next_seq, TxOutcome, TxRetries, TxStep, MAX_EMERGENCY_RETRIES, MAX_TX_RETRIES,
};
use microbit_car::ws2812::{FRAME_WORDS, WORD_T0, WORD_T1};

fn motion(vx: i8, vy: i8, omega: i8) -> MotionPayload {
    MotionPayload { vx, vy, omega }
}

fn frame_of(packet: &RadioPacket) -> Vec<u8> {
    let (buf, len) = packet.to_bytes();
    buf[..len].to_vec()
}

#[test]
fn breathing_ramps_up_and_down() {
    for p in 0..64u8 {
        let b = breathing_brightness(p);
        assert!(b >= 2);
        assert!(b <= 18);
    }
    assert_eq!(breathing_brightness(0), breathing_brightness(31));
    assert_eq!(breathing_brightness(15), breathing_brightness(16));
}

#[test]
fn connected_renders_green_only() {
    let frame = render(&RgbState { connection: ConnectionState::Connected }, 0);
    assert_eq!(frame[0].g, 12);
    assert_eq!(frame[0].r, 0);
    for px in &frame[1..] {
        assert_eq!(px.r, 0);
        assert_eq!(px.g, 0);
        assert_eq!(px.b, 0);
    }
}

#[test]
fn disconnected_renders_red_only() {
    let frame = render(&RgbState { connection: ConnectionState::Disconnected }, 0);
    assert_eq!(frame[0].r, 12);
    assert_eq!(frame[0].g, 0);
}

#[test]
fn encode_first_led_g_msb() {
    let pixels = [Rgb::new(0, 0x80, 0), Rgb::off(), Rgb::off(), Rgb::off()];
    let mut buf = [0u16; FRAME_WORDS];
    encode_pixels(&pixels, &mut buf);
    assert_eq!(buf[0], WORD_T1);
    assert_eq!(buf[1], WORD_T0);
}

#[test]
fn encode_every_bit() {
    let pixels = [Rgb::new(1, 2, 4), Rgb::off(), Rgb::off(), Rgb::new(255, 255, 255)];
    let mut buf = [0u16; FRAME_WORDS];
    encode_pixels(&pixels, &mut buf);
    for (k, word) in buf.iter().enumerate() {
        let one = k == 6 || k == 15 || k == 21 || k >= 72;
        assert_eq!(*word, if one { WORD_T1 } else { WORD_T0 });
    }
}

#[test]
fn breathing_levels() {
    assert_eq!(breathing_brightness(0), 2);
    assert_eq!(breathing_brightness(15), 17);
    assert_eq!(breathing_brightness(31), 2);
    assert_eq!(breathing_brightness(32), 2);
    assert_eq!(breathing_brightness(255), 2);
    assert_eq!(Rgb::amber(17), Rgb { r: 17, g: 8, b: 0 });
    let frame = render(&RgbState::initial(), 5);
    assert_eq!(frame[0], Rgb::new(7, 3, 0));
}

#[test]
fn indicator_animates() {
    let mut indicator = Indicator::new_at(100);
    assert_eq!(indicator.next_tick, 100 + 1967);
    assert_eq!(indicator.pixels()[0], Rgb::amber(2));
    indicator.tick_at(3000);
    assert_eq!(indicator.pixels()[0], Rgb::amber(3));
    assert_eq!(indicator.next_tick, 4967);
    indicator.set_state(RgbState { connection: ConnectionState::Connected });
    assert_eq!(indicator.pixels()[0], Rgb::green_dim());
    assert_eq!(indicator.next_tick, 4967);
    assert_eq!(indicator.phase, 1);
    indicator.phase = 255;
    indicator.tick_at(u64::MAX);
    assert_eq!(indicator.phase, 0);
    assert_eq!(indicator.next_tick, u64::MAX);
}

#[test]
fn dead_zone_edges() {
    assert_eq!(apply_dead_zone(30, 30), 0);
    assert_eq!(apply_dead_zone(31, 30), 1);
    assert_eq!(apply_dead_zone(-31, 30), -1);
    assert_eq!(apply_dead_zone(-30, 30), 0);
    assert_eq!(apply_dead_zone(5, -3), 8);
}

#[test]
fn scaling_values() {
    assert_eq!(scale_to_output(481, 30), 100);
    assert_eq!(scale_to_output(-481, 30), -100);
    assert_eq!(scale_to_output(482, 30), 100);
    assert_eq!(scale_to_output(240, 30), 49);
    assert_eq!(scale_to_output(-240, 30), -49);
    assert_eq!(scale_to_output(5, 511), 0);
    assert_eq!(scale_to_output(5, 600), 0);
}

#[test]
fn moving_average() {
    let mut filter = EmaFilter::new();
    assert_eq!(filter.update(0, 3, 8), 0);
    assert_eq!(filter.update(100, 3, 8), 37);
    assert_eq!(filter.update(100, 3, 8), 60);
    assert_eq!(filter.update(-100, 3, 8), 0);
    assert_eq!(filter.update(-100, 3, 8), -37);
    filter.reset();
    assert_eq!(filter.update(10, 1, 2), 5);
    assert_eq!(filter.update(0, 1, 2), 0);
    assert_eq!(EmaFilter::default().update(16, 3, 8), 6);
    let mut odd = EmaFilter::new();
    assert_eq!(odd.update(10, 1, -2), -5);
}

#[test]
fn released_stick_stops() {
    let mut filter = EmaFilter::new();
    filter.update(100, 1, 1);
    let tail: Vec<i8> = (0..8).map(|_| process_axis(ADC_MID, &mut filter, 30)).collect();
    assert_eq!(tail, vec![62, 38, 23, 14, 8, 5, 0, 0]);
}

#[test]
fn axis_pipeline() {
    let mut filter = EmaFilter::new();
    assert_eq!(process_axis(ADC_MAX, &mut filter, DEFAULT_DEAD_ZONE), 37);
    let mut low = EmaFilter::new();
    assert_eq!(process_axis(-500, &mut low, DEFAULT_DEAD_ZONE), -37);
    let mut idle = EmaFilter::new();
    assert_eq!(process_axis(ADC_MID + 30, &mut idle, DEFAULT_DEAD_ZONE), 0);
    let mut last = 0;
    for _ in 0..50 {
        last = process_axis(ADC_MAX, &mut filter, DEFAULT_DEAD_ZONE);
    }
    assert_eq!(last, 98);
}

#[test]
fn joystick_axes() {
    let mut state = JoystickState::new();
    assert_eq!(state.update(ADC_MAX, ADC_MID), motion(0, 37, 0));
    assert_eq!(state.update(ADC_MID, 0), motion(-37, 23, 0));
    state.reset();
    assert_eq!(state.update(ADC_MID, ADC_MID), motion(0, 0, 0));
}

#[test]
fn joystick_publishes_changes() {
    let mut joystick = Joystick::new();
    assert_eq!(joystick.sample([511, 511], InputMode::Joystick), None);
    assert_eq!(joystick.sample([1023, 511], InputMode::Joystick), Some(motion(37, 0, 0)));
    assert_eq!(joystick.sample([1023, 511], InputMode::Tilt), None);
    assert_eq!(joystick.sample([511, 511], InputMode::Joystick), Some(motion(0, 0, 0)));
    assert_eq!(joystick.sample([511, 511], InputMode::Joystick), None);
    joystick.sample([-7, 2000], InputMode::Joystick);
    for _ in 0..7 {
        joystick.sample([511, 511], InputMode::Joystick);
    }
    assert_eq!(joystick.prev_motion, MotionPayload::stop());
    joystick.sample([1023, 0], InputMode::Joystick);
    assert_ne!(joystick.prev_motion, MotionPayload::stop());
    let idle = [[541, 481], [481, 541], [500, 530], [511, 511], [541, 541], [481, 481], [520, 499]];
    for sample in idle {
        joystick.sample(sample, InputMode::Joystick);
    }
    assert_eq!(joystick.prev_motion, MotionPayload::stop());
}

#[test]
fn right_stick_turns() {
    let mut state = RightStickState::new();
    assert_eq!(state.update(0, ADC_MAX), -37);
    let mut stick = RightStick::new();
    let mut source = RightStickSource::new();
    for _ in 0..10 {
        let (x, y) = source.sample();
        assert_eq!((x, y), (511, 511));
        assert_eq!(stick.sample(x, y), None);
    }
    assert_eq!(stick.sample(ADC_MAX, ADC_MID), Some(37));
    assert_eq!(stick.last_sent, 37);
}

#[test]
fn button_targets() {
    assert_eq!(target_from_buttons(false, false), 0);
    assert_eq!(target_from_buttons(true, false), -100);
    assert_eq!(target_from_buttons(false, true), 100);
    assert_eq!(target_from_buttons(true, true), 0);
}

#[test]
fn button_steps() {
    assert_eq!(step_toward(0, 100), 20);
    assert_eq!(step_toward(95, 100), 100);
    assert_eq!(step_toward(0, -100), -20);
    assert_eq!(step_toward(15, 0), 0);
    assert_eq!(step_toward(127, 127), 127);
    assert_eq!(step_toward(90, 127), 100);
    assert_eq!(step_toward(-128, 127), -100);
}

#[test]
fn button_ramp() {
    let mut ramp = ButtonRamp::new();
    assert_eq!(ramp.poll(false, false), None);
    let up: Vec<Option<i8>> = (0..6).map(|_| ramp.poll(false, true)).collect();
    assert_eq!(up, vec![Some(20), Some(40), Some(60), Some(80), Some(100), None]);
    let down: Vec<Option<i8>> = (0..6).map(|_| ramp.poll(true, true)).collect();
    assert_eq!(down, vec![Some(80), Some(60), Some(40), Some(20), Some(0), None]);
    assert_eq!(ramp.poll(true, false), Some(-20));
}

fn release(switch: &mut ModeSwitch, polls: usize) {
    for _ in 0..polls {
        assert!(!switch.poll(false));
    }
}

#[test]
fn mode_button_is_debounced() {
    let mut switch = ModeSwitch::new(false);
    release(&mut switch, 5);
    assert!(switch.poll(true));
    assert!(switch.confirm(true));
    assert!(!switch.poll(true));
    release(&mut switch, 6);
    assert!(switch.poll(true));
    assert!(!switch.confirm(false));
    release(&mut switch, 100);
    assert!(switch.poll(true));
    let mut held = ModeSwitch::new(true);
    assert!(!held.poll(true));
}

#[test]
fn mode_button_must_be_released_long_enough() {
    let mut early = ModeSwitch::new(false);
    release(&mut early, 4);
    assert!(!early.poll(true));
    assert!(!early.poll(true));
    release(&mut early, 5);
    assert!(!early.poll(true));
    release(&mut early, 6);
    assert_eq!(early.released_ms, Some(50));
    assert!(early.poll(true));
    assert!(early.confirm(true));
    assert_eq!(early.released_ms, None);
}

#[test]
fn mode_toggles() {
    let mut mode = Mode::new();
    assert_eq!(mode.current(), InputMode::Joystick);
    assert_eq!(mode.toggle(), InputMode::Tilt);
    assert_eq!(mode.raw, 1);
    assert_eq!(mode.current(), InputMode::Tilt);
    assert_eq!(mode.toggle(), InputMode::Joystick);
    assert_eq!(mode.set(InputMode::Tilt), InputMode::Tilt);
    assert_eq!(mode.current(), InputMode::Tilt);
    assert_eq!(Mode { raw: 9 }.current(), InputMode::Joystick);
}

#[test]
fn omega_merges() {
    assert_eq!(merge_omega(60, 60), 100);
    assert_eq!(merge_omega(-60, -60), -100);
    assert_eq!(merge_omega(80, -20), 60);
    assert_eq!(merge_omega(127, 127), 100);
}

#[test]
fn fusion_combines() {
    let mut fusion = Fusion::new();
    assert_eq!(fusion.handle(FusionEvent::Resend), motion(0, 0, 0));
    assert_eq!(fusion.handle(FusionEvent::Velocity(motion(50, -30, 99))), motion(50, -30, 0));
    assert_eq!(fusion.handle(FusionEvent::ButtonOmega(20)), motion(50, -30, 20));
    assert_eq!(fusion.handle(FusionEvent::StickOmega(90)), motion(50, -30, 100));
    assert_eq!(fusion.handle(FusionEvent::ModeChanged(InputMode::Tilt)), motion(0, 0, 100));
    assert_eq!(fusion.handle(FusionEvent::ButtonOmega(-90)), motion(0, 0, 0));
}

#[test]
fn controller_reads_replies() {
    let on_frame = |data: &[u8]| ControllerRadio::new().on_frame(data);
    let response = create_response_packet(1, CarStatus::Moving, 85);
    let expected = ResponsePayload { status: CarStatus::Moving, info: 85 };
    assert_eq!(on_frame(&frame_of(&response)), ControllerAction::Response(expected));
    let telemetry = TelemetryPayload { battery: 1, speed: 2, heading: 3, vx: 4, vy: 5, omega: 6 };
    let packet = create_telemetry_packet(2, telemetry);
    assert_eq!(on_frame(&frame_of(&packet)), ControllerAction::Telemetry(telemetry));
    assert_eq!(on_frame(&frame_of(&create_heartbeat_packet(3))), ControllerAction::Heartbeat);
    assert_eq!(on_frame(&frame_of(&create_motion_packet(4, 1, 2, 3))), ControllerAction::Ignore);
    assert_eq!(on_frame(&frame_of(&create_emergency_stop_packet(5))), ControllerAction::Ignore);
    assert_eq!(on_frame(&[]), ControllerAction::Ignore);
    assert_eq!(on_frame(&[2, 0, 5, 0, 6]), ControllerAction::Ignore);
    let mut short = RadioPacket::new(MessageType::Response, 0);
    assert_eq!(short.set_payload(&[1]), Ok(()));
    assert_eq!(handle_received_packet(&short), ControllerAction::Ignore);
}

#[test]
fn controller_builds_packets() {
    let mut radio = ControllerRadio::new();
    let command = radio.motion_packet(motion(-128, 50, 127));
    assert_eq!(frame_of(&command), frame_of(&create_motion_packet(0, -100, 50, 100)));
    assert_eq!(frame_of(&radio.heartbeat_packet()), frame_of(&create_heartbeat_packet(1)));
    let stop = radio.emergency_stop_packet();
    assert_eq!(frame_of(&stop), frame_of(&create_emergency_stop_packet(2)));
    assert_eq!(radio.seq, 3);
}

#[test]
fn controller_numbers_its_packets() {
    let mut radio = ControllerRadio::new();
    let reply = frame_of(&create_heartbeat_packet(9));
    for k in 0..600u32 {
        let number = (k % 256) as u8;
        radio.on_frame(&reply);
        radio.check_link_at(k as u64, k as u64);
        if k % 10 == 9 {
            let packet = radio.heartbeat_packet();
            assert_eq!(frame_of(&packet), frame_of(&create_heartbeat_packet(number)));
        } else if k % 100 == 50 {
            let packet = radio.emergency_stop_packet();
            assert_eq!(frame_of(&packet), frame_of(&create_emergency_stop_packet(number)));
        } else {
            let packet = radio.motion_packet(motion(1, 2, number as i8));
            let turn = (number as i8).clamp(-100, 100);
            assert_eq!(frame_of(&packet), frame_of(&create_motion_packet(number, 1, 2, turn)));
        }
    }
}

#[test]
fn link_states() {
    assert_eq!(HEARTBEAT_TIMEOUT_MS, 600);
    assert_eq!(link_state_at(None, 5), ConnectionState::Connecting);
    assert_eq!(link_state_at(Some(1000), 1000 + 19661), ConnectionState::Connected);
    assert_eq!(link_state_at(Some(1000), 1000 + 19662), ConnectionState::Disconnected);
    assert_eq!(link_state_at(Some(1000), 0), ConnectionState::Connected);
    let connection = ConnectionState::Disconnected;
    assert_eq!(publish_link_state(connection), RgbState { connection });
}

#[test]
fn link_changes_are_published_once() {
    let reply = frame_of(&create_heartbeat_packet(9));
    let mut radio = ControllerRadio::new();
    assert_eq!(radio.check_link_at(49_000, 49_000), None);
    assert_eq!(radio.on_frame(&reply), ControllerAction::Heartbeat);
    assert!(radio.heard);
    let up = RgbState { connection: ConnectionState::Connected };
    assert_eq!(radio.check_link_at(50_000, 50_001), Some(up));
    assert!(!radio.heard);
    assert_eq!(radio.last_heartbeat, Some(50_000));
    assert_eq!(radio.check_link_at(60_000, 60_000), None);
    assert_eq!(radio.last_heartbeat, Some(50_000));
    let down = RgbState { connection: ConnectionState::Disconnected };
    assert_eq!(radio.check_link_at(70_000, 70_000), Some(down));
    assert_eq!(radio.check_link_at(80_000, 80_000), None);
    radio.on_frame(&reply);
    assert_eq!(radio.check_link_at(80_001, 80_002), Some(up));
    assert_eq!(radio.seq, 0);
}

#[test]
fn tilt_mapping() {
    assert_eq!(map_axis(800), 0);
    assert_eq!(map_axis(-800), 0);
    assert_eq!(map_axis(872), 1);
    assert_eq!(map_axis(4400), 50);
    assert_eq!(map_axis(-4400), -50);
    assert_eq!(map_axis(8000), 100);
    assert_eq!(map_axis(i16::MAX), 100);
    assert_eq!(map_axis(i16::MIN), -100);
}

#[test]
fn tilt_reading() {
    assert_eq!(read_xy(None), None);
    assert_eq!(read_xy(Some([0x34, 0x12, 0x00, 0x80, 9, 9])), Some((0x1234, i16::MIN)));
    assert_eq!(read_xy(Some([0xFF, 0xFF, 0xFF, 0x7F, 0, 0])), Some((-1, i16::MAX)));
}

#[test]
fn tilt_directions() {
    let mut tilt = Tilt::new();
    assert_eq!(tilt.sample(0, 0), None);
    assert_eq!(tilt.sample(8000, -8000), Some(motion(37, 37, 0)));
    let mut back = Tilt::new();
    assert_eq!(back.sample(-8000, 8000), Some(motion(-37, -37, 0)));
    assert_eq!(back.sample(0, 0), Some(motion(-23, -23, 0)));
    assert!(back.begin(InputMode::Tilt));
    assert_eq!(back.last_sent, motion(-23, -23, 0));
    assert!(!back.begin(InputMode::Joystick));
    assert_eq!(back.last_sent, MotionPayload::stop());
    assert_eq!(back.sample(0, 0), None);
    for _ in 0..7 {
        tilt.sample(500, -500);
    }
    assert_eq!(tilt.last_sent, MotionPayload::stop());
}

#[test]
fn tilt_readings() {
    let mut tilt = Tilt::new();
    assert_eq!(tilt.take_reading(None), None);
    assert_eq!(tilt.take_reading(Some([0x40, 0x1F, 0xC0, 0xE0, 0, 0])), Some(motion(37, 37, 0)));
    assert_eq!(tilt.take_reading(None), None);
    assert_eq!(tilt.last_sent, motion(37, 37, 0));
    let mut steep = Tilt::new();
    assert_eq!(steep.take_reading(Some([0, 0, 0, 0x80, 0, 0])), Some(motion(37, 0, 0)));
    let mut level = Tilt::new();
    level.sample(8000, i16::MIN);
    assert_ne!(level.last_sent, MotionPayload::stop());
    for (x, y) in [(800, -800), (0, 0), (-800, 800), (1, 2), (500, 799), (-3, -800), (800, 800)] {
        level.sample(x, y);
    }
    assert_eq!(level.last_sent, MotionPayload::stop());
}

#[test]
fn tilt_held_still() {
    let mut tilt = Tilt::new();
    let mut last = MotionPayload::stop();
    for _ in 0..60 {
        assert!(tilt.begin(InputMode::Tilt));
        if let Some(m) = tilt.sample(-3000, -5000) {
            assert!(m.vx > 0 && m.vy < 0 && m.omega == 0);
            assert!(m.vx <= 100 && m.vy >= -100);
            assert_ne!(m, last);
            last = m;
        }
    }
    assert_eq!(tilt.sample(-3000, -5000), None);
    assert_eq!(tilt.last_sent, last);
    assert!(!tilt.begin(InputMode::Joystick));
    assert_eq!(tilt.last_sent, MotionPayload::stop());
}

#[test]
fn accelerometer_set_up() {
    let mut setup = AccelSetup::new();
    assert_eq!(setup.next(), SetupStep::Identify);
    setup.record_identity(Some(0x33));
    assert_eq!(setup.next(), SetupStep::Write { reg: 0x20, value: 0x57 });
    setup.record_write(true);
    assert_eq!(setup.next(), SetupStep::Write { reg: 0x23, value: 0x00 });
    let mut failed = setup;
    setup.record_write(true);
    assert_eq!(setup.next(), SetupStep::Done(true));
    failed.record_write(false);
    assert_eq!(failed.next(), SetupStep::Done(false));
    let mut wrong = AccelSetup::new();
    wrong.record_identity(Some(0x32));
    assert_eq!(wrong.next(), SetupStep::Done(false));
    let mut silent = AccelSetup::new();
    silent.record_identity(None);
    assert_eq!(silent.next(), SetupStep::Done(false));
    let mut rate = AccelSetup::SetRate;
    rate.record_write(false);
    assert_eq!(rate.next(), SetupStep::Done(false));
}

#[test]
fn sequence_numbers_wrap() {
    let mut seq = 254u8;
    assert_eq!(next_seq(&mut seq), 254);
    assert_eq!(next_seq(&mut seq), 255);
    assert_eq!(next_seq(&mut seq), 0);
    assert_eq!(seq, 1);
}

#[test]
fn emergency_stops_are_tried_harder() {
    assert_eq!(attempts_for(MessageType::EmergencyStop), TxRetries::new(5));
    let others = [
        MessageType::Motion,
        MessageType::Heartbeat,
        MessageType::Response,
        MessageType::Telemetry,
    ];
    for msg_type in others {
        assert_eq!(attempts_for(msg_type), TxRetries::new(3));
    }
    let stop = ControllerRadio::new().emergency_stop_packet();
    let mut retries = attempts_for(stop.header.msg_type);
    for _ in 0..5 {
        assert_eq!(retries.next(), TxStep::Attempt);
        retries.record(TxOutcome::Failed);
    }
    assert_eq!(retries.next(), TxStep::Done(false));
}

#[test]
fn sending_is_retried() {
    let play = |max: u8, outcomes: &[TxOutcome]| {
        let mut retries = TxRetries::new(max);
        let mut delays = 0;
        let mut made = 0;
        loop {
            match retries.next() {
                TxStep::Attempt => {
                    delays += retries.record(outcomes[made]);
                    made += 1;
                }
                TxStep::Done(sent) => return (sent, made, delays),
            }
        }
    };
    let fail = TxOutcome::Failed;
    let late = TxOutcome::TimedOut;
    let sent = TxOutcome::Sent;
    assert_eq!(play(MAX_TX_RETRIES, &[sent]), (true, 1, 0));
    assert_eq!(play(MAX_TX_RETRIES, &[fail, late, sent]), (true, 3, 400));
    assert_eq!(play(MAX_TX_RETRIES, &[fail, late, fail]), (false, 3, 600));
    assert_eq!(play(MAX_EMERGENCY_RETRIES, &[late, late, late, late, sent]), (true, 5, 800));
    assert_eq!(play(0, &[]), (false, 0, 0));
}
