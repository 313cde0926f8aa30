use rustpill::clock::{enable_usb_clock, ClockConfig, Hse, HseMode, Pll, PllSource, Sysclk};
use rustpill::decoder::{
    decoder_step, ends_stream, locations_complete, DecodeOutcome, DecoderStep,
};
use rustpill::dispatch::{path_key, Endpoint};
use rustpill::exchange::{classify, request_frame, Incoming};
use rustpill::frame::{CodecError, Frame};
use rustpill::log::LogChunk;
use rustpill::message::{Request, Response, WireError};
use rustpill::server::{all_endpoints, ERROR_KEY, LOG_KEY};
use rustpill::usb::{get_usb_config, Version};

#[test]
fn the_clock_tree_for_usb() {
    let mut c = ClockConfig::new();
    assert_eq!(c.hse, None);
    assert_eq!(c.sys, Sysclk::Hsi);
    enable_usb_clock(&mut c);
    assert_eq!(c.hse, Some(Hse { freq: 8_000_000, mode: HseMode::Oscillator }));
    assert_eq!(c.pll, Some(Pll { src: PllSource::Hse, prediv: 1, mul: 9 }));
    assert_eq!(c.sys, Sysclk::Pll);
    assert_eq!(c.ahb_pre, 1);
    assert_eq!(c.apb1_pre, 2);
    assert_eq!(c.apb2_pre, 1);
    let mut again = c;
    enable_usb_clock(&mut again);
    assert_eq!(again, c);
}

#[test]
fn what_the_board_reports_on_the_bus() {
    let c = get_usb_config("bluepill-servo", "0123456789AB", Version { major: 0, minor: 3, patch: 1 })
        .unwrap();
    assert_eq!(c.vendor_id, 0xc0de);
    assert_eq!(c.product_id, 0xcafe);
    assert_eq!(c.manufacturer, "QOD Lab");
    assert_eq!(c.product, "bluepill-servo");
    assert_eq!(c.serial_number, "0123456789AB");
    assert_eq!(c.device_release, 0x0031);
    assert_eq!(c.device_class, 0xEF);
    assert_eq!(c.device_sub_class, 0x02);
    assert_eq!(c.device_protocol, 0x01);
    assert!(c.composite_with_iads);
    assert_eq!(get_usb_config("x", "y", Version { major: 0, minor: 16, patch: 0 }), None);
}

#[test]
fn what_follows_each_result_of_decoding() {
    for can_recover in [false, true] {
        assert_eq!(decoder_step(DecodeOutcome::Frame, can_recover), DecoderStep::Forward);
        assert_eq!(
            decoder_step(DecodeOutcome::UnexpectedEof, can_recover),
            DecoderStep::AwaitData
        );
    }
    assert_eq!(decoder_step(DecodeOutcome::Malformed, true), DecoderStep::SkipAndWarn);
    assert_eq!(decoder_step(DecodeOutcome::Malformed, false), DecoderStep::Fail);
    assert!(ends_stream(&[]));
    assert!(!ends_stream(&[0]));
}

#[test]
fn places_are_shown_only_if_every_line_has_one() {
    assert!(locations_complete(&[], &[]));
    assert!(locations_complete(&[], &[1, 2]));
    assert!(locations_complete(&[2, 1, 2], &[1, 2, 3]));
    assert!(!locations_complete(&[1, 4], &[1, 2, 3]));
    assert!(!locations_complete(&[0], &[]));
    assert!(locations_complete(&[u64::MAX], &[5, u64::MAX]));
}

#[test]
fn the_catalogue_names_paths_and_types() {
    assert_eq!(Endpoint::PingX2.request_type(), "u32");
    assert_eq!(Endpoint::PingX2.response_type(), "u32");
    assert_eq!(Endpoint::UniqueId.request_type(), "()");
    assert_eq!(Endpoint::UniqueId.response_type(), "[u8; 12]");
    assert_eq!(Endpoint::ServoChannel.request_type(), "(PwmChannel, ServoChannelConfig)");
    assert_eq!(Endpoint::ServoChannel.response_type(), "()");
    assert_eq!(Endpoint::ServoConfig.response_type(), "ServoConfig");
    assert_eq!(Endpoint::PidGet.response_type(), "Pidvals");
    assert_eq!(Endpoint::DefmtStop.response_type(), "bool");
    assert_eq!(Endpoint::HeaterSetPwm.request_type(), "u16");
    assert_eq!(Endpoint::PidSetConsts.request_type(), "[i32; 2]");
    let mut paths: Vec<&str> = all_endpoints().into_iter().map(|e| e.path()).collect();
    paths.sort();
    paths.dedup();
    assert_eq!(paths.len(), 20);
}

#[test]
fn a_request_frame_carries_key_number_and_payload() {
    let f = request_frame(&Request::PingX2(21), 7);
    assert_eq!(f, Frame::new(path_key("pingx2"), 7, vec![21, 0, 0, 0]));
    let f = request_frame(&Request::PidReset, u32::MAX);
    assert_eq!(f, Frame::new(path_key("pid/reset"), u32::MAX, vec![]));
}

#[test]
fn frames_that_come_back_are_told_apart() {
    let key = path_key("pingx2");
    let e = Endpoint::PingX2;
    assert_eq!(
        classify(&Frame::new(key, 7, vec![42, 0, 0, 0]), e, 7),
        Incoming::Response(Response::Pong(42))
    );
    assert_eq!(classify(&Frame::new(key, 8, vec![42, 0, 0, 0]), e, 7), Incoming::Unrelated);
    assert_eq!(
        classify(&Frame::new(path_key("pid/reset"), 7, vec![]), e, 7),
        Incoming::Unrelated
    );
    assert_eq!(
        classify(&Frame::new(key, 7, vec![42, 0, 0]), e, 7),
        Incoming::Garbled(CodecError::UnknownType)
    );
    assert_eq!(
        classify(&Frame::new(ERROR_KEY, 7, WireError::Busy.encode()), e, 7),
        Incoming::Refused(WireError::Busy)
    );
    assert_eq!(
        classify(&Frame::new(ERROR_KEY, 6, WireError::Busy.encode()), e, 7),
        Incoming::Unrelated
    );
    assert_eq!(
        classify(&Frame::new(ERROR_KEY, 7, vec![9]), e, 7),
        Incoming::Garbled(CodecError::UnknownType)
    );
    let chunk = LogChunk::take(b"log line");
    assert_eq!(
        classify(&Frame::new(LOG_KEY, 99, chunk.encode()), e, 7),
        Incoming::Log { seq_no: 99, chunk }
    );
    assert_eq!(
        classify(&Frame::new(LOG_KEY, 7, vec![1, 2]), e, 7),
        Incoming::Garbled(CodecError::UnknownType)
    );
}
