use rustpill::channel::PwmChannel;
use rustpill::device::{Effect, Inputs, Reply, State};
use rustpill::dispatch::{path_key, Endpoint};
use rustpill::error::InvalidArgument;
use rustpill::frame::Frame;
use rustpill::heater::HeaterCommand;
use rustpill::log::{LogChunk, LogStep, LogStream};
use rustpill::message::{Request, Response, WireError};
use rustpill::pid::DutyCommand;
use rustpill::release::{build_bindings, flash, parse_command, publish, Command, Task};
use rustpill::server::{all_endpoints, all_routes, Server, ERROR_KEY, LOG_KEY};
use rustpill::servo::{PwmCommand, ServoChannelConfig};
use rustpill::stepper::{Level, StepperAction};
use rustpill::usb::{
    device_matches, device_version, same_text, unique_id_number, version_bcd, version_matches,
    Version,
};

fn inputs(now: u64, adc_val: u16) -> Inputs {
    Inputs { now, adc_val, max_duty_cycle: 1000, unique_id: [9, 8, 7, 6, 5, 4, 3, 2, 1, 0, 1, 2] }
}

fn server() -> Server {
    Server::new(100, 14400).unwrap()
}

fn ask(server: &mut Server, seq_no: u32, request: Request, inp: &Inputs) -> (Option<Frame>, Effect) {
    let frame = Frame::new(path_key(request.endpoint().path()), seq_no, request.encode());
    let served = server.serve(&frame, inp);
    (served.reply, served.effect)
}

fn answer(server: &mut Server, seq_no: u32, request: Request, inp: &Inputs) -> Response {
    let endpoint = request.endpoint();
    let (reply, _) = ask(server, seq_no, request, inp);
    let reply = reply.unwrap();
    assert_eq!(reply.seq_no, seq_no);
    assert_eq!(reply.path_key, path_key(endpoint.path()));
    Response::decode(endpoint, &reply.payload).unwrap()
}

fn refusal(server: &mut Server, seq_no: u32, request: Request, inp: &Inputs) -> WireError {
    let (reply, effect) = ask(server, seq_no, request, inp);
    let reply = reply.unwrap();
    assert_eq!(reply.seq_no, seq_no);
    assert_eq!(reply.path_key, ERROR_KEY);
    assert_eq!(effect, Effect::Nothing);
    WireError::decode(&reply.payload).unwrap()
}

#[test]
fn the_table_holds_every_endpoint_once() {
    let all = all_endpoints();
    assert_eq!(all.len(), 20);
    let routes = all_routes();
    assert_eq!(routes.len(), 20);
    let s = server();
    assert_eq!(s.table.len(), 20);
    for e in all {
        let r = s.table.resolve(path_key(e.path())).unwrap();
        assert_eq!(r.endpoint, e);
        assert_eq!(r.kind, e.kind());
    }
    assert_eq!(s.table.resolve(ERROR_KEY), None);
    assert_eq!(s.table.resolve(LOG_KEY), None);
}

#[test]
fn ping_is_answered_with_twice_its_value() {
    let mut s = server();
    let before = s.state;
    assert_eq!(answer(&mut s, 7, Request::PingX2(21), &inputs(0, 0)), Response::Pong(42));
    assert_eq!(answer(&mut s, 8, Request::PingX2(0), &inputs(0, 0)), Response::Pong(0));
    assert_eq!(
        answer(&mut s, 9, Request::PingX2(0x8000_0001), &inputs(0, 0)),
        Response::Pong(2)
    );
    assert_eq!(s.state, before);
}

#[test]
fn set_pwm_then_get_pidvals_shows_the_controller_untouched() {
    let mut s = server();
    let inp = inputs(150, 1200);
    answer(&mut s, 1, Request::PidSetConsts(1000, 10), &inp);
    answer(&mut s, 2, Request::PidSetpoint(1000), &inp);
    answer(&mut s, 3, Request::PidRecalc, &inp);
    let before = answer(&mut s, 4, Request::PidGet, &inp);
    let (reply, effect) = ask(&mut s, 5, Request::HeaterSetPwm(500), &inp);
    assert_eq!(reply.unwrap().payload, Vec::<u8>::new());
    assert_eq!(
        effect,
        Effect::Heater(HeaterCommand::SetDuty(DutyCommand::Fraction { num: 500, denom: 1000 }))
    );
    assert_eq!(answer(&mut s, 6, Request::PidGet, &inp), before);
    match before {
        Response::Pidvals(p) => {
            assert_eq!(p.error_val, 200);
            assert_eq!(p.int_sum, 2000);
            assert_eq!(p.err_corr, 202_000);
            assert_eq!(p.dt, 50);
        }
        other => panic!("unexpected {:?}", other),
    }
}

#[test]
fn a_configured_channel_is_echoed_by_the_configuration() {
    let mut s = server();
    let inp = inputs(0, 0);
    let config = ServoChannelConfig {
        min_angle_duty_cycle: 360,
        max_angle_duty_cycle: 1800,
        current_duty_cycle: 3000,
        enabled: true,
    };
    let (reply, effect) = ask(&mut s, 1, Request::ServoChannel(PwmChannel::Channel2, config), &inp);
    assert!(reply.is_some());
    assert_eq!(
        effect,
        Effect::Pwm(PwmCommand::Channel {
            channel: PwmChannel::Channel2,
            duty_cycle: 3000,
            enable: true
        })
    );
    match answer(&mut s, 2, Request::ServoConfig, &inp) {
        Response::ServoConfig(c) => {
            assert_eq!(c.channels[1].current_duty_cycle, 3000);
            assert!(c.channels[1].enabled);
            assert!(!c.channels[0].enabled);
            assert_eq!(c.max_duty_cycle, 14400);
        }
        other => panic!("unexpected {:?}", other),
    }
}

#[test]
fn a_change_of_frequency_disables_every_channel() {
    let mut s = server();
    let inp = inputs(0, 0);
    for n in 1u8..=4 {
        answer(&mut s, n as u32, Request::ServoSetAngle(n, 45), &inp);
    }
    assert!(s.state.servo.config.channels.iter().all(|c| c.enabled));
    let (_, effect) = ask(&mut s, 9, Request::ServoFrequency(100), &inp);
    assert_eq!(effect, Effect::Pwm(PwmCommand::Retune { frequency: 100 }));
    assert!(s.state.servo.config.channels.iter().all(|c| !c.enabled));
    match answer(&mut s, 10, Request::ServoConfig, &inp) {
        Response::ServoConfig(c) => assert!(c.channels.iter().all(|ch| !ch.enabled)),
        other => panic!("unexpected {:?}", other),
    }
}

#[test]
fn set_angle_on_channel_zero_or_five_is_invalid_and_changes_nothing() {
    let mut s = server();
    let inp = inputs(0, 0);
    let before = s.state;
    assert_eq!(
        refusal(&mut s, 1, Request::ServoSetAngle(0, 90), &inp),
        WireError::Invalid(InvalidArgument::Channel(0))
    );
    assert_eq!(s.state, before);
    assert_eq!(
        refusal(&mut s, 2, Request::ServoSetAngle(5, 90), &inp),
        WireError::Invalid(InvalidArgument::Channel(5))
    );
    assert_eq!(s.state, before);
    assert_eq!(
        refusal(&mut s, 3, Request::ServoSetAngle(1, 181), &inp),
        WireError::Invalid(InvalidArgument::Angle(181))
    );
    assert_eq!(s.state, before);
    assert_eq!(
        refusal(&mut s, 4, Request::ServoGetAngle(5), &inp),
        WireError::Invalid(InvalidArgument::Channel(5))
    );
    assert_eq!(
        refusal(&mut s, 5, Request::HeaterSetPwm(1001), &inp),
        WireError::Invalid(InvalidArgument::Duty(1001))
    );
    assert_eq!(
        refusal(&mut s, 6, Request::StepperDirection(2), &inp),
        WireError::Invalid(InvalidArgument::Direction(2))
    );
    assert_eq!(s.state, before);
    assert_eq!(answer(&mut s, 7, Request::ServoSetAngle(4, 90), &inp), Response::Unit);
    assert_eq!(answer(&mut s, 8, Request::ServoGetAngle(4), &inp), Response::Angle(90));
}

#[test]
fn unknown_keys_and_payloads_are_answered_with_errors() {
    let mut s = server();
    let inp = inputs(0, 0);
    let before = s.state;
    let served = s.serve(&Frame::new(12345, 77, vec![1, 2, 3]), &inp);
    let reply = served.reply.unwrap();
    assert_eq!(reply.path_key, ERROR_KEY);
    assert_eq!(reply.seq_no, 77);
    assert_eq!(WireError::decode(&reply.payload), Ok(WireError::UnknownKey));
    let served = s.serve(&Frame::new(path_key("pingx2"), 78, vec![1, 2, 3]), &inp);
    let reply = served.reply.unwrap();
    assert_eq!(reply.path_key, ERROR_KEY);
    assert_eq!(reply.seq_no, 78);
    assert_eq!(WireError::decode(&reply.payload), Ok(WireError::UnknownType));
    assert_eq!(served.effect, Effect::Nothing);
    assert_eq!(s.state, before);
}

#[test]
fn readings_are_reported() {
    let mut s = server();
    let inp = inputs(5, 4095);
    assert_eq!(answer(&mut s, 1, Request::AdcGet, &inp), Response::Adc(4095));
    assert_eq!(
        answer(&mut s, 2, Request::UniqueId, &inp),
        Response::UniqueId([9, 8, 7, 6, 5, 4, 3, 2, 1, 0, 1, 2])
    );
}

#[test]
fn reset_restarts_the_controllers_clock() {
    let mut s = server();
    answer(&mut s, 1, Request::PidSetConsts(0, 1000), &inputs(0, 0));
    answer(&mut s, 2, Request::PidRecalc, &inputs(1_000, 5));
    answer(&mut s, 3, Request::PidReset, &inputs(50_000_000, 0));
    answer(&mut s, 4, Request::PidRecalc, &inputs(50_000_009, 5));
    assert_eq!(s.state.heater.pidvals.dt, 9);
    assert_eq!(s.state.heater.pidvals.int_sum, 5000);
}

#[test]
fn heater_and_direction_are_commanded() {
    let mut s = server();
    let inp = inputs(0, 0);
    assert_eq!(
        ask(&mut s, 1, Request::HeaterEnable, &inp).1,
        Effect::Heater(HeaterCommand::Enable)
    );
    assert!(s.state.heater.heater_enabled);
    assert_eq!(
        ask(&mut s, 2, Request::HeaterDisable, &inp).1,
        Effect::Heater(HeaterCommand::Disable)
    );
    assert!(!s.state.heater.heater_enabled);
    assert_eq!(ask(&mut s, 3, Request::StepperDirection(1), &inp).1, Effect::Direction(Level::High));
    assert_eq!(s.state.stepper.dir, Level::High);
}

#[test]
fn stop_without_a_stream_is_false_and_with_one_ends_it_within_a_tick() {
    let mut s = server();
    let inp = inputs(0, 0);
    assert_eq!(answer(&mut s, 1, Request::DefmtStop, &inp), Response::Stopped(false));
    assert!(!s.state.log.active);
    assert_eq!(answer(&mut s, 2, Request::DefmtStart, &inp), Response::Unit);
    assert!(s.state.log.active);
    let ticked = s.tick(b"hello");
    assert!(matches!(ticked.log, LogStep::Publish { .. }));
    assert_eq!(answer(&mut s, 3, Request::DefmtStop, &inp), Response::Stopped(true));
    let ticked = s.tick(b"more to say");
    assert_eq!(ticked.log, LogStep::Stopped);
    assert_eq!(ticked.published, None);
    assert!(!s.state.log.active);
    assert_eq!(s.tick(b"still more").log, LogStep::Idle);
    assert_eq!(answer(&mut s, 4, Request::DefmtStop, &inp), Response::Stopped(false));
}

#[test]
fn log_chunks_are_published_in_order() {
    let mut s = server();
    answer(&mut s, 1, Request::DefmtStart, &inputs(0, 0));
    let pending: Vec<u8> = (0..40u8).collect();
    let first = s.tick(&pending).published.unwrap();
    assert_eq!(first.path_key, LOG_KEY);
    assert_eq!(first.seq_no, 0);
    let chunk = LogChunk::decode(&first.payload).unwrap();
    assert_eq!(chunk.len, 32);
    assert_eq!(chunk.data(), Some(pending[..32].to_vec()));
    let second = s.tick(&pending[32..]).published.unwrap();
    assert_eq!(second.seq_no, 1);
    let chunk = LogChunk::decode(&second.payload).unwrap();
    assert_eq!(chunk.data(), Some(pending[32..].to_vec()));
    assert_eq!(chunk.bytes[8..], [0u8; 24]);
    let third = s.tick(&[]);
    assert_eq!(third.log, LogStep::Waiting);
    assert_eq!(third.published, None);
}

#[test]
fn log_stream_alone() {
    let mut l = LogStream::new();
    assert!(!l.stop());
    assert_eq!(l.tick(b"x"), LogStep::Idle);
    l.start();
    l.next_seq = u32::MAX;
    match l.tick(b"x") {
        LogStep::Publish { seq_no, chunk } => {
            assert_eq!(seq_no, u32::MAX);
            assert_eq!(chunk.len, 1);
        }
        other => panic!("unexpected {:?}", other),
    }
    assert_eq!(l.next_seq, 0);
    assert!(l.stop());
    l.start();
    assert!(l.stop_requested);
    assert_eq!(l.tick(b"x"), LogStep::Stopped);
    assert!(!l.active);
    let bad = LogChunk { len: 33, bytes: [0; 32] };
    assert_eq!(bad.data(), None);
    assert_eq!(LogChunk::decode(&[0; 32]), None);
    assert_eq!(LogChunk::take(b"abc").encode().len(), 33);
}

#[test]
fn the_pulse_train_answers_when_it_is_done() {
    let mut s = server();
    let inp = inputs(0, 0);
    let (reply, effect) = ask(&mut s, 41, Request::StepperSet(2), &inp);
    assert_eq!(reply, None);
    assert_eq!(effect, Effect::Stepper(StepperAction::Start { duty_cycle: 250 }));
    // Other requests are served while the train runs.
    assert_eq!(answer(&mut s, 42, Request::PingX2(1), &inp), Response::Pong(2));
    assert_eq!(refusal(&mut s, 43, Request::StepperSet(5), &inp), WireError::Busy);
    let t = s.tick(&[]);
    assert_eq!(t.stepper, StepperAction::Pulse { duty_cycle: 500 });
    assert_eq!(t.reply, None);
    let t = s.tick(&[]);
    assert_eq!(t.stepper, StepperAction::Pulse { duty_cycle: 500 });
    let t = s.tick(&[]);
    assert_eq!(t.stepper, StepperAction::Finish);
    let reply = t.reply.unwrap();
    assert_eq!(reply.seq_no, 41);
    assert_eq!(reply.path_key, path_key("stepper/set"));
    assert_eq!(Response::decode(Endpoint::StepperSet, &reply.payload), Ok(Response::Unit));
    assert!(!s.state.stepper.enabled);
    assert_eq!(s.pending, None);
    assert_eq!(s.tick(&[]).stepper, StepperAction::Idle);
}

#[test]
fn typed_step_without_frames() {
    let mut state = State::new(0, 14400);
    let (reply, effect) = state.handle(Request::PingX2(21), &inputs(0, 0));
    assert_eq!(reply, Reply::Response(Response::Pong(42)));
    assert_eq!(effect, Effect::Nothing);
    let (reply, _) = state.handle(Request::StepperSet(1), &inputs(0, 0));
    assert_eq!(reply, Reply::Deferred);
    let (reply, _) = state.handle(Request::ServoSetAngle(0, 1), &inputs(0, 0));
    assert_eq!(reply, Reply::Error(WireError::Invalid(InvalidArgument::Channel(0))));
}

#[test]
fn maintenance_commands_run_their_steps_in_order() {
    let steps: Vec<Option<Task>> = (0..6).map(publish).collect();
    assert_eq!(
        steps,
        vec![
            Some(Task::BuildFirmware),
            Some(Task::UploadFirmwares),
            Some(Task::BuildStubs),
            Some(Task::MaturinPublish),
            None,
            None
        ]
    );
    let steps: Vec<Option<Task>> = (0..4).map(build_bindings).collect();
    assert_eq!(steps, vec![Some(Task::BuildStubs), Some(Task::MaturinDevelop), None, None]);
    let steps: Vec<Option<Task>> = (0..3).map(flash).collect();
    assert_eq!(steps, vec![Some(Task::BuildFirmware), Some(Task::Flash), None]);
    assert_eq!(publish(usize::MAX), None);
    assert_eq!(Task::BuildFirmware.failure(), "Failed to build firmware");
    assert_eq!(Task::BuildStubs.failure(), "Failed to build type stubs");
    assert_eq!(Task::MaturinPublish.failure(), "Failed to build bindings");
    assert_eq!(Task::MaturinDevelop.failure(), "Failed to build bindings");
    assert_eq!(Task::Flash.failure(), "Failed to flash");
}

#[test]
fn maintenance_commands_are_told_by_their_arguments() {
    assert_eq!(parse_command(Some("flash"), 1), Command::Flash);
    assert_eq!(parse_command(Some("flash"), 0), Command::Help);
    assert_eq!(parse_command(Some("flash"), 2), Command::Help);
    assert_eq!(parse_command(Some("pygen"), 0), Command::Pygen);
    assert_eq!(parse_command(Some("pygen"), 3), Command::Pygen);
    assert_eq!(parse_command(Some("publish"), 0), Command::Publish);
    assert_eq!(parse_command(Some("Publish"), 0), Command::Help);
    assert_eq!(parse_command(Some(""), 0), Command::Help);
    assert_eq!(parse_command(None, 0), Command::Help);
}

#[test]
fn release_numbers_and_versions() {
    let v = Version { major: 1, minor: 2, patch: 3 };
    assert_eq!(version_bcd(v), Some(0x0123));
    assert_eq!(device_version(0x0123), v);
    assert_eq!(version_bcd(Version { major: 0, minor: 15, patch: 15 }), Some(0x00ff));
    assert_eq!(version_bcd(Version { major: 255, minor: 0, patch: 0 }), Some(0xff00));
    assert_eq!(version_bcd(Version { major: 256, minor: 0, patch: 0 }), None);
    assert_eq!(version_bcd(Version { major: 1, minor: 16, patch: 0 }), None);
    assert_eq!(version_bcd(Version { major: 1, minor: 0, patch: 16 }), None);
    // The high byte is read as two decimal digits.
    assert_eq!(device_version(0x1203), Version { major: 12, minor: 0, patch: 3 });
    assert_eq!(device_version(0xffff), Version { major: 165, minor: 15, patch: 15 });
    assert!(version_matches(0x0123, v));
    assert!(!version_matches(0x0124, v));
}

#[test]
fn devices_are_picked_by_serial_number_or_product() {
    assert!(device_matches(None, "bluepill-servo", None, Some("bluepill-servo")));
    assert!(!device_matches(None, "bluepill-servo", Some("S1"), Some("bluepill-minimal")));
    assert!(!device_matches(None, "bluepill-servo", Some("S1"), None));
    assert!(device_matches(Some("S1"), "bluepill-servo", Some("S1"), Some("other")));
    assert!(device_matches(Some("S1"), "bluepill-servo", Some("S1"), None));
    assert!(!device_matches(Some("S1"), "bluepill-servo", Some("S2"), Some("bluepill-servo")));
    assert!(!device_matches(Some("S1"), "bluepill-servo", None, Some("bluepill-servo")));
    assert!(same_text("", ""));
    assert!(!same_text("a", "ab"));
}

#[test]
fn unique_identifier_as_a_number() {
    assert_eq!(unique_id_number(&[0; 12]), 0);
    assert_eq!(unique_id_number(&[1, 0, 0, 0, 0, 0, 0, 0, 0, 0, 0, 0]), 1);
    assert_eq!(unique_id_number(&[0, 1, 0, 0, 0, 0, 0, 0, 0, 0, 0, 0]), 256);
    assert_eq!(unique_id_number(&[0xff; 12]), (1u128 << 96) - 1);
    let id = [1, 2, 3, 4, 5, 6, 7, 8, 9, 10, 11, 12];
    let mut padded = [0u8; 16];
    padded[..12].copy_from_slice(&id);
    assert_eq!(unique_id_number(&id), u128::from_le_bytes(padded));
}

#[test]
fn sequence_numbers_restart_with_the_connection_and_nothing_else_does() {
    let mut s = server();
    let inp = inputs(0, 0);
    answer(&mut s, 1, Request::DefmtStart, &inp);
    answer(&mut s, 2, Request::ServoSetAngle(1, 90), &inp);
    answer(&mut s, 3, Request::PidSetConsts(5, 6), &inp);
    s.tick(b"abc");
    s.tick(b"abc");
    assert_eq!(s.state.log.next_seq, 2);
    let before = s.state;
    s.on_reconnect();
    assert_eq!(s.state.log.next_seq, 0);
    assert!(s.state.log.active);
    assert_eq!(s.state.heater, before.heater);
    assert_eq!(s.state.servo, before.servo);
    assert_eq!(s.state.stepper, before.stepper);
    assert_eq!(s.tick(b"abc").published.unwrap().seq_no, 0);
}

#[test]
fn the_adc_is_asked_for_by_two_endpoints_only() {
    let s = server();
    for e in all_endpoints() {
        let frame = Frame::new(path_key(e.path()), 0, vec![]);
        let wanted = matches!(e, Endpoint::AdcGet | Endpoint::PidRecalc);
        assert_eq!(s.wants_adc(&frame), wanted);
    }
    assert!(!s.wants_adc(&Frame::new(1, 0, vec![])));
}
