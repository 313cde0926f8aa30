use rustpill::channel::PwmChannel;
use rustpill::dispatch::{path_key, DispatchTable, DuplicateKey, Endpoint, HandlerKind, Route};
use rustpill::error::InvalidArgument;
use rustpill::frame::{CodecError, Frame, MAX_FRAME, MAX_PAYLOAD};
use rustpill::message::{Request, Response, WireError};
use rustpill::payload::{
    push_pidvals, push_servo_config, read_channel, read_flag, read_pidvals, read_servo_config,
};
use rustpill::pid::Pidvals;
use rustpill::servo::{ServoChannelConfig, ServoConfig};
use rustpill::transport::{frame_extent, Extent, Poll, Transport, TransportError};
use rustpill::wire::{
    push_i32, push_i64, push_u16, push_u32, push_u64, push_varint, read_i32, read_i64, read_u16,
    read_u32, read_u64, read_varint,
};

fn varint_of(v: u64) -> Vec<u8> {
    let mut out = Vec::new();
    push_varint(&mut out, v);
    out
}

#[test]
fn varint_bytes_are_exact() {
    assert_eq!(varint_of(0), vec![0x00]);
    assert_eq!(varint_of(1), vec![0x01]);
    assert_eq!(varint_of(127), vec![0x7f]);
    assert_eq!(varint_of(128), vec![0x80, 0x01]);
    assert_eq!(varint_of(300), vec![0xac, 0x02]);
    assert_eq!(varint_of(1000), vec![0xe8, 0x07]);
    assert_eq!(varint_of(16383), vec![0xff, 0x7f]);
    assert_eq!(varint_of(16384), vec![0x80, 0x80, 0x01]);
}

#[test]
fn varint_reads_back_what_was_written() {
    for v in [0u64, 1, 127, 128, 255, 300, 16383, 16384, 1 << 20, (1 << 35) - 1] {
        let mut bytes = vec![0xee, 0xee];
        push_varint(&mut bytes, v);
        let len = bytes.len() - 2;
        bytes.push(0x55);
        assert_eq!(read_varint(&bytes, 2, 5), Some((v, len)));
    }
}

#[test]
fn varint_reader_rejects_what_the_writer_never_writes() {
    // A zero group after a continuation byte.
    assert_eq!(read_varint(&[0x80, 0x00], 0, 5), None);
    assert_eq!(read_varint(&[0xff, 0x80, 0x00], 0, 5), None);
    // Cut short.
    assert_eq!(read_varint(&[0x80], 0, 5), None);
    assert_eq!(read_varint(&[], 0, 5), None);
    // Longer than the limit.
    assert_eq!(read_varint(&[0x80, 0x80, 0x01], 0, 2), None);
    assert_eq!(read_varint(&[0x80, 0x80, 0x01], 0, 3), Some((16384, 3)));
    assert_eq!(read_varint(&[0x05], 0, 0), None);
}

#[test]
fn integers_are_little_endian() {
    let mut out = Vec::new();
    push_u16(&mut out, 0x1234);
    push_u32(&mut out, 0xdead_beef);
    push_u64(&mut out, 0x0102_0304_0506_0708);
    push_i32(&mut out, -2);
    push_i64(&mut out, -3);
    assert_eq!(
        out,
        vec![
            0x34, 0x12, 0xef, 0xbe, 0xad, 0xde, 0x08, 0x07, 0x06, 0x05, 0x04, 0x03, 0x02, 0x01,
            0xfe, 0xff, 0xff, 0xff, 0xfd, 0xff, 0xff, 0xff, 0xff, 0xff, 0xff, 0xff
        ]
    );
    assert_eq!(read_u16(&out, 0), 0x1234);
    assert_eq!(read_u32(&out, 2), 0xdead_beef);
    assert_eq!(read_u64(&out, 6), 0x0102_0304_0506_0708);
    assert_eq!(read_i32(&out, 14), -2);
    assert_eq!(read_i64(&out, 18), -3);
}

#[test]
fn signed_extremes_survive() {
    for v in [i32::MIN, -1, 0, 1, i32::MAX] {
        let mut out = Vec::new();
        push_i32(&mut out, v);
        assert_eq!(read_i32(&out, 0), v);
    }
    for v in [i64::MIN, -1, 0, 1, i64::MAX] {
        let mut out = Vec::new();
        push_i64(&mut out, v);
        assert_eq!(read_i64(&out, 0), v);
    }
}

#[test]
fn frame_bytes_are_exact() {
    let f = Frame::new(0x1122_3344_5566_7788, 0x0a0b_0c0d, vec![1, 2, 3]);
    assert_eq!(
        f.encode(),
        Ok(vec![
            0x88, 0x77, 0x66, 0x55, 0x44, 0x33, 0x22, 0x11, 0x0d, 0x0c, 0x0b, 0x0a, 0x03, 1, 2, 3
        ])
    );
    let empty = Frame::new(0, 0, vec![]);
    assert_eq!(empty.encode(), Ok(vec![0; 13]));
}

#[test]
fn frames_survive_encoding_and_decoding() {
    for len in [0usize, 1, 127, 128, 129, 999, MAX_PAYLOAD] {
        let payload: Vec<u8> = (0..len).map(|i| (i * 7 + 3) as u8).collect();
        let f = Frame::new(u64::MAX - len as u64, len as u32 * 3, payload);
        let bytes = f.encode().unwrap();
        assert!(bytes.len() <= MAX_FRAME);
        assert_eq!(Frame::decode(&bytes), Ok(f));
    }
}

#[test]
fn oversized_payloads_are_not_encoded() {
    let f = Frame::new(1, 2, vec![0; MAX_PAYLOAD + 1]);
    assert_eq!(f.encode(), Err(CodecError::Oversized));
}

#[test]
fn malformed_frames_are_told_apart() {
    let good = Frame::new(9, 8, vec![5, 6, 7]).encode().unwrap();
    // Cut short, and with something after the end.
    assert_eq!(Frame::decode(&good[..good.len() - 1]), Err(CodecError::Malformed));
    let mut long = good.clone();
    long.push(0);
    assert_eq!(Frame::decode(&long), Err(CodecError::Malformed));
    // No room for a header.
    assert_eq!(Frame::decode(&good[..11]), Err(CodecError::Malformed));
    assert_eq!(Frame::decode(&good[..12]), Err(CodecError::Malformed));
    assert_eq!(Frame::decode(&[]), Err(CodecError::Malformed));
    // The length written in a longer form than needed.
    let mut padded = good[..12].to_vec();
    padded.extend_from_slice(&[0x83, 0x00, 5, 6, 7]);
    assert_eq!(Frame::decode(&padded), Err(CodecError::Malformed));
    // A length above the limit.
    let mut huge = good[..12].to_vec();
    huge.extend_from_slice(&[0xe9, 0x07]);
    huge.extend_from_slice(&vec![0u8; 1001]);
    assert_eq!(Frame::decode(&huge), Err(CodecError::Oversized));
}

#[test]
fn path_keys_are_fnv1a() {
    assert_eq!(path_key(""), 0xcbf2_9ce4_8422_2325);
    assert_eq!(path_key("a"), 0xaf63_dc4c_8601_ec8c);
    assert_eq!(path_key("foobar"), 0x8594_4171_f739_67e8);
    assert_ne!(path_key("servo/channel"), path_key("servo/config"));
}

#[test]
fn endpoints_have_their_paths_and_kinds() {
    assert_eq!(Endpoint::PingX2.path(), "pingx2");
    assert_eq!(Endpoint::ServoChannel.path(), "servo/channel");
    assert_eq!(Endpoint::DefmtStop.path(), "defmt/stop");
    assert_eq!(Endpoint::UniqueId.path(), "unique_id/get");
    assert_eq!(Endpoint::HeaterSetPwm.path(), "heater/set_pwm");
    assert_eq!(Endpoint::DefmtStart.kind(), HandlerKind::Spawned);
    assert_eq!(Endpoint::StepperSet.kind(), HandlerKind::Spawned);
    assert_eq!(Endpoint::PidRecalc.kind(), HandlerKind::Blocking);
    let r = Endpoint::PidReset.route();
    assert_eq!(r.key, path_key("pid/reset"));
    assert_eq!(r.endpoint, Endpoint::PidReset);
    assert_eq!(r.kind, HandlerKind::Blocking);
}

fn route(key: u64, endpoint: Endpoint) -> Route {
    Route { key, endpoint, kind: HandlerKind::Blocking }
}

#[test]
fn table_finds_every_entry_and_nothing_else() {
    let entries = vec![
        route(50, Endpoint::PingX2),
        route(10, Endpoint::AdcGet),
        route(u64::MAX, Endpoint::PidGet),
        route(0, Endpoint::UniqueId),
        route(30, Endpoint::ServoConfig),
    ];
    let table = DispatchTable::build(&entries).unwrap();
    assert_eq!(table.len(), 5);
    for e in &entries {
        assert_eq!(table.resolve(e.key), Some(*e));
    }
    for k in [1u64, 9, 11, 29, 31, 49, 51, u64::MAX - 1] {
        assert_eq!(table.resolve(k), None);
    }
    let empty = DispatchTable::build(&vec![]).unwrap();
    assert_eq!(empty.len(), 0);
    assert_eq!(empty.resolve(0), None);
}

#[test]
fn table_refuses_a_key_registered_twice() {
    let entries = vec![
        route(50, Endpoint::PingX2),
        route(10, Endpoint::AdcGet),
        route(50, Endpoint::PidGet),
    ];
    assert_eq!(DispatchTable::build(&entries), Err(DuplicateKey { key: 50 }));
}

fn sample_channel() -> ServoChannelConfig {
    ServoChannelConfig {
        min_angle_duty_cycle: 0x0102,
        max_angle_duty_cycle: 0x0304,
        current_duty_cycle: 3000,
        enabled: true,
    }
}

fn all_requests() -> Vec<Request> {
    vec![
        Request::UniqueId,
        Request::AdcGet,
        Request::HeaterSetPwm(500),
        Request::PidGet,
        Request::HeaterEnable,
        Request::HeaterDisable,
        Request::PidSetConsts(-1500, i32::MAX),
        Request::PidReset,
        Request::PidRecalc,
        Request::PidSetpoint(65535),
        Request::ServoSetAngle(3, 180),
        Request::ServoGetAngle(4),
        Request::ServoChannel(PwmChannel::Channel2, sample_channel()),
        Request::ServoConfig,
        Request::ServoFrequency(333),
        Request::StepperSet(u32::MAX),
        Request::StepperDirection(1),
        Request::DefmtStart,
        Request::DefmtStop,
        Request::PingX2(21),
    ]
}

#[test]
fn request_payloads_are_exact() {
    assert_eq!(Request::PingX2(21).encode(), vec![21, 0, 0, 0]);
    assert_eq!(Request::HeaterSetPwm(500).encode(), vec![0xf4, 0x01]);
    assert_eq!(Request::PidReset.encode(), Vec::<u8>::new());
    assert_eq!(Request::ServoSetAngle(3, 90).encode(), vec![3, 90]);
    assert_eq!(
        Request::PidSetConsts(1, -1).encode(),
        vec![1, 0, 0, 0, 0xff, 0xff, 0xff, 0xff]
    );
    assert_eq!(
        Request::ServoChannel(PwmChannel::Channel2, sample_channel()).encode(),
        vec![1, 0x02, 0x01, 0x04, 0x03, 0xb8, 0x0b, 1]
    );
}

#[test]
fn requests_survive_encoding_and_decoding() {
    for q in all_requests() {
        let bytes = q.encode();
        assert_eq!(Request::decode(q.endpoint(), &bytes), Ok(q));
    }
}

#[test]
fn payloads_of_the_wrong_shape_are_of_unknown_type() {
    for q in all_requests() {
        let mut bytes = q.encode();
        bytes.push(0);
        assert_eq!(Request::decode(q.endpoint(), &bytes), Err(CodecError::UnknownType));
    }
    assert_eq!(Request::decode(Endpoint::PingX2, &[1, 2, 3]), Err(CodecError::UnknownType));
    // A channel of 4 and a flag of 2 are no channel and no flag.
    assert_eq!(
        Request::decode(Endpoint::ServoChannel, &[4, 0, 0, 0, 0, 0, 0, 1]),
        Err(CodecError::UnknownType)
    );
    assert_eq!(
        Request::decode(Endpoint::ServoChannel, &[3, 0, 0, 0, 0, 0, 0, 2]),
        Err(CodecError::UnknownType)
    );
    assert!(Request::decode(Endpoint::ServoChannel, &[3, 0, 0, 0, 0, 0, 0, 1]).is_ok());
}

fn sample_pidvals() -> Pidvals {
    Pidvals {
        setpoint: 1000,
        adc_val: 1100,
        error_val: -100,
        err_corr: -250_000,
        kp: 2000,
        ki: -500,
        dt: 30,
        prev_clk: u64::MAX,
        is_on: true,
        max_int_val: 1_000_000,
        int_sum: i64::MIN,
    }
}

fn sample_config() -> ServoConfig {
    let mut c = ServoConfig::boot(14400);
    c.channels[1] = sample_channel();
    c.channels[3].enabled = true;
    c
}

#[test]
fn responses_survive_encoding_and_decoding() {
    let cases = vec![
        (Endpoint::UniqueId, Response::UniqueId([1, 2, 3, 4, 5, 6, 7, 8, 9, 10, 11, 12])),
        (Endpoint::AdcGet, Response::Adc(4095)),
        (Endpoint::PidGet, Response::Pidvals(sample_pidvals())),
        (Endpoint::ServoGetAngle, Response::Angle(180)),
        (Endpoint::ServoConfig, Response::ServoConfig(sample_config())),
        (Endpoint::DefmtStop, Response::Stopped(true)),
        (Endpoint::DefmtStop, Response::Stopped(false)),
        (Endpoint::PingX2, Response::Pong(42)),
        (Endpoint::PidReset, Response::Unit),
        (Endpoint::ServoChannel, Response::Unit),
    ];
    for (endpoint, response) in cases {
        let bytes = response.encode();
        assert_eq!(Response::decode(endpoint, &bytes), Ok(response));
        let mut longer = bytes.clone();
        longer.push(1);
        assert_eq!(Response::decode(endpoint, &longer), Err(CodecError::UnknownType));
    }
    assert_eq!(Response::Pong(42).encode(), vec![42, 0, 0, 0]);
    assert_eq!(Response::Stopped(true).encode(), vec![1]);
    assert_eq!(Response::decode(Endpoint::DefmtStop, &[2]), Err(CodecError::UnknownType));
}

#[test]
fn structures_have_fixed_layouts() {
    let mut out = Vec::new();
    push_servo_config(&mut out, &sample_config());
    assert_eq!(out.len(), 34);
    assert_eq!(&out[..6], &[50, 0, 0, 0, 0x40, 0x38]);
    assert_eq!(&out[13..20], &[0x02, 0x01, 0x04, 0x03, 0xb8, 0x0b, 1]);
    assert_eq!(read_servo_config(&out), Some(sample_config()));
    out[12] = 2;
    assert_eq!(read_servo_config(&out), None);
    assert_eq!(read_servo_config(&out[..33]), None);

    let mut out = Vec::new();
    push_pidvals(&mut out, &sample_pidvals());
    assert_eq!(out.len(), 53);
    assert_eq!(read_pidvals(&out), Some(sample_pidvals()));
    out[40] = 7;
    assert_eq!(read_pidvals(&out), None);

    assert_eq!(read_flag(&[0, 1, 2], 1), Some(true));
    assert_eq!(read_flag(&[0, 1, 2], 2), None);
    assert_eq!(read_channel(&[3], 0), Some(PwmChannel::Channel4));
    assert_eq!(read_channel(&[4], 0), None);
}

#[test]
fn wire_errors_survive_encoding_and_decoding() {
    let cases = vec![
        WireError::UnknownKey,
        WireError::UnknownType,
        WireError::Busy,
        WireError::Invalid(InvalidArgument::Channel(5)),
        WireError::Invalid(InvalidArgument::Angle(181)),
        WireError::Invalid(InvalidArgument::Duty(1001)),
        WireError::Invalid(InvalidArgument::Direction(2)),
    ];
    for e in cases {
        assert_eq!(WireError::decode(&e.encode()), Ok(e));
    }
    assert_eq!(WireError::Invalid(InvalidArgument::Duty(1001)).encode(), vec![2, 2, 0xe9, 0x03]);
    assert_eq!(WireError::decode(&[4]), Err(CodecError::UnknownType));
    assert_eq!(WireError::decode(&[2]), Err(CodecError::UnknownType));
    assert_eq!(WireError::decode(&[2, 0, 0, 1]), Err(CodecError::UnknownType));
    assert_eq!(WireError::decode(&[2, 4, 0, 0]), Err(CodecError::UnknownType));
    assert_eq!(WireError::decode(&[]), Err(CodecError::UnknownType));
}

#[test]
fn transport_cuts_a_stream_into_frames() {
    let a = Frame::new(1, 10, vec![1, 2, 3]);
    let b = Frame::new(2, 11, vec![]);
    let c = Frame::new(3, 12, vec![9; 200]);
    let mut stream = Vec::new();
    for f in [&a, &b, &c] {
        stream.extend_from_slice(&f.encode().unwrap());
    }
    let mut t = Transport::new();
    let mut seen = Vec::new();
    for chunk in stream.chunks(7) {
        t.receive(chunk);
        loop {
            match t.try_read_frame() {
                Poll::Frame(f) => seen.push(f),
                Poll::Pending => break,
                Poll::Dropped(e) => panic!("dropped: {:?}", e),
            }
        }
    }
    assert_eq!(seen, vec![a, b, c]);
    assert!(t.inbound.is_empty());
}

#[test]
fn transport_waits_for_the_rest_of_a_frame() {
    let bytes = Frame::new(5, 6, vec![7; 130]).encode().unwrap();
    let mut t = Transport::new();
    assert_eq!(t.try_read_frame(), Poll::Pending);
    t.receive(&bytes[..12]);
    assert_eq!(t.try_read_frame(), Poll::Pending);
    t.receive(&bytes[12..13]);
    assert_eq!(t.try_read_frame(), Poll::Pending);
    t.receive(&bytes[13..bytes.len() - 1]);
    assert_eq!(t.try_read_frame(), Poll::Pending);
    assert_eq!(t.inbound.len(), bytes.len() - 1);
    t.receive(&bytes[bytes.len() - 1..]);
    assert_eq!(t.try_read_frame(), Poll::Frame(Frame::new(5, 6, vec![7; 130])));
    assert_eq!(t.try_read_frame(), Poll::Pending);
}

#[test]
fn transport_drops_what_is_no_frame_and_reads_on() {
    let mut t = Transport::new();
    let mut bad = vec![0u8; 12];
    bad.extend_from_slice(&[0x80, 0x00, 1, 2, 3]);
    t.receive(&bad);
    assert_eq!(t.try_read_frame(), Poll::Dropped(CodecError::Malformed));
    assert!(t.inbound.is_empty());
    let mut huge = vec![0u8; 12];
    huge.extend_from_slice(&[0xe9, 0x07]);
    t.receive(&huge);
    assert_eq!(t.try_read_frame(), Poll::Dropped(CodecError::Oversized));
    let good = Frame::new(1, 2, vec![3]);
    t.receive(&good.encode().unwrap());
    assert_eq!(t.try_read_frame(), Poll::Frame(good));
}

#[test]
fn extent_of_the_received_bytes() {
    let bytes = Frame::new(5, 6, vec![7; 3]).encode().unwrap();
    assert_eq!(frame_extent(&bytes), Extent::Whole(16));
    assert_eq!(frame_extent(&bytes[..15]), Extent::Incomplete);
    assert_eq!(frame_extent(&[]), Extent::Incomplete);
    let mut more = bytes.clone();
    more.extend_from_slice(&[1, 2, 3]);
    assert_eq!(frame_extent(&more), Extent::Whole(16));
    let mut growing = vec![0u8; 12];
    growing.extend_from_slice(&[0x80, 0x80, 0x80, 0x80]);
    assert_eq!(frame_extent(&growing), Extent::Incomplete);
    growing.push(0x80);
    assert_eq!(frame_extent(&growing), Extent::Bad(CodecError::Malformed));
}

#[test]
fn writes_are_queued_while_connected_and_refused_while_not() {
    let mut t = Transport::new();
    let f = Frame::new(1, 2, vec![3, 4]);
    assert_eq!(t.write_frame(&f), Ok(()));
    assert_eq!(t.write_frame(&f), Ok(()));
    let mut twice = f.encode().unwrap();
    twice.extend_from_slice(&f.encode().unwrap());
    assert_eq!(t.take_outbound(), twice);
    assert!(t.outbound.is_empty());
    assert_eq!(
        t.write_frame(&Frame::new(1, 2, vec![0; MAX_PAYLOAD + 1])),
        Err(TransportError::Oversized)
    );
    t.receive(&[1, 2, 3]);
    t.write_frame(&f).unwrap();
    t.disconnect();
    assert!(t.inbound.is_empty());
    assert!(t.outbound.is_empty());
    assert_eq!(t.write_frame(&f), Err(TransportError::Disconnected));
    assert!(t.outbound.is_empty());
    t.reconnect();
    assert_eq!(t.write_frame(&f), Ok(()));
    assert_eq!(t.take_outbound(), f.encode().unwrap());
}
