use tpower::ffi::smc::{
    decode_payload, fp_to_dyadic, read_sensor, sensor_key, str_to_u32, u32_to_bytes,
    DataVers, FixedPoint, KeyInfo, PLimitData, SMCConnection, SMCKeyData, SMCOp, SMCPowerData, SMCStep, SMCType, SMCVal,
    CMD_READ_BYTES, CMD_READ_KEYINFO, CMD_WRITE_BYTES, KERN_INVALID_ARGUMENT, SENSOR_COUNT, WIRE_SIZE,
};
use tpower::milli::{Dyadic, Milli};
use tpower::provider::remote::{begin_exchange, exchange_error, DeviceDataError, ExchangeStage, ExchangeStep};
use tpower::util::bytes_equal;

const KEYS: [&str; 11] = [
    "PPBR", "PDTR", "PSTR", "PHPC", "PDBR", "B0FC", "SBAR", "CHCC", "B0TE", "B0TF", "TB0T",
];

fn sensor(v: f32) -> Dyadic {
    Dyadic::from_f32_bits(v.to_bits()).unwrap()
}

fn payload(head: &[u8]) -> [u8; 32] {
    let mut bytes = [0u8; 32];
    bytes[..head.len()].copy_from_slice(head);
    bytes
}

fn tag(text: &str) -> [u8; 4] {
    let mut t = [b' '; 4];
    t[..text.len()].copy_from_slice(text.as_bytes());
    t
}

fn val(key: &str, data_type: &str, head: &[u8]) -> SMCVal {
    SMCVal { key: tag(key), data_size: head.len() as u32, data_type: tag(data_type), bytes: payload(head) }
}

/// A controller that knows some keys and counts what it is asked.
struct FakeChannel {
    info_requests: usize,
    byte_requests: usize,
    write_requests: usize,
    fail_info: bool,
}

impl FakeChannel {
    fn new() -> Self {
        FakeChannel { info_requests: 0, byte_requests: 0, write_requests: 0, fail_info: false }
    }

    fn call(&mut self, input: &SMCKeyData) -> Result<SMCKeyData, i32> {
        let mut output = SMCKeyData::default();
        if input.data8 == CMD_READ_KEYINFO {
            self.info_requests += 1;
            if self.fail_info {
                return Err(5);
            }
            output.key_info = KeyInfo { data_size: 4, data_type: str_to_u32("flt "), data_attributes: 0 };
        } else if input.data8 == CMD_READ_BYTES {
            self.byte_requests += 1;
            output.bytes = payload(&1.5f32.to_le_bytes());
        } else if input.data8 == CMD_WRITE_BYTES {
            self.write_requests += 1;
        }
        Ok(output)
    }
}

fn drive(conn: &mut SMCConnection, channel: &mut FakeChannel, op: SMCOp, first: SMCStep) -> SMCStep {
    let mut step = first;
    while let SMCStep::Call(input) = step {
        let reply = channel.call(&input);
        step = conn.advance(&op, &input, reply);
    }
    step
}

fn read(conn: &mut SMCConnection, channel: &mut FakeChannel, key: &str) -> SMCStep {
    let (op, first) = conn.read_key(key);
    drive(conn, channel, op, first)
}

#[test]
fn the_sensor_keys_are_the_eleven_known_ones() {
    assert_eq!(SENSOR_COUNT, 11);
    for (i, key) in KEYS.iter().enumerate() {
        assert_eq!(sensor_key(i), *key);
    }
}

#[test]
fn key_codes_pack_first_byte_highest() {
    assert_eq!(str_to_u32("PPBR"), 0x5050_4252);
    assert_eq!(str_to_u32("flt "), 0x666c_7420);
    assert_eq!(u32_to_bytes(0x5050_4252), *b"PPBR");
    for key in KEYS {
        assert_eq!(&u32_to_bytes(str_to_u32(key)), key.as_bytes());
    }
    assert_eq!(str_to_u32("\u{0}\u{0}\u{0}\u{1}"), 1);
    assert_eq!(u32_to_bytes(u32::MAX), [255, 255, 255, 255]);
}

#[test]
fn byte_strings_compare_by_content() {
    assert!(bytes_equal(b"flt", b"flt"));
    assert!(!bytes_equal(b"flt", b"flt "));
    assert!(!bytes_equal(b"fla", b"flt"));
    assert!(bytes_equal(b"", b""));
}

#[test]
fn type_tags_are_recognised() {
    assert_eq!(SMCType::from_str("flt"), Ok(SMCType::FLT));
    assert_eq!(SMCType::from_str("ui8"), Ok(SMCType::UI8));
    assert_eq!(SMCType::from_str("ui16"), Ok(SMCType::UI16));
    assert_eq!(SMCType::from_str("ui32"), Ok(SMCType::UI32));
    assert_eq!(SMCType::from_str("ch8*"), Ok(SMCType::CH8));
    assert_eq!(SMCType::from_str("{fds"), Ok(SMCType::FDS));
    assert_eq!(SMCType::from_str("_hex"), Ok(SMCType::HEX));
    assert_eq!(SMCType::from_str("ioft"), Ok(SMCType::IOFT));
    assert_eq!(SMCType::from_str("sp78"), Ok(SMCType::SP78));
    assert_eq!(SMCType::from_str("flt "), Err(()));
    assert_eq!(SMCType::from_str("nope"), Err(()));
    assert_eq!(SMCType::from_str(""), Err(()));
}

#[test]
fn the_type_tag_loses_its_padding() {
    assert_eq!(val("PPBR", "flt", &[]).data_type_str(), b"flt");
    assert_eq!(val("PPBR", "ui8", &[]).data_type_str(), b"ui8");
    assert_eq!(val("PPBR", "ui16", &[]).data_type_str(), b"ui16");
    let mut v = val("PPBR", "", &[]);
    assert_eq!(v.data_type_str(), b"");
    v.data_type = *b" a b";
    assert_eq!(v.data_type_str(), b"a b");
    v.data_type = *b"\tui\n";
    assert_eq!(v.data_type_str(), b"ui");
    v.data_type = [0, 0, 0, 0];
    assert_eq!(v.data_type_str(), &[0u8, 0, 0, 0]);
}

#[test]
fn an_unsigned_16_bit_payload_of_512_decodes_to_512() {
    for key in KEYS {
        let v = val(key, "ui16", &512u16.to_le_bytes());
        assert_eq!(v.value().map(Dyadic::to_milli), Some(Milli { raw: 512_000 }));
    }
}

#[test]
fn a_signed_fixed_point_payload_of_minus_256_under_sp78_decodes_to_minus_one() {
    for key in KEYS {
        let v = val(key, "sp78", &(-256i16).to_le_bytes());
        assert_eq!(v.value().map(Dyadic::to_milli), Some(Milli { raw: -1000 }));
    }
}

#[test]
fn unsigned_payloads_are_widened() {
    assert_eq!(val("CHCC", "ui8", &[7]).value().map(Dyadic::to_milli), Some(Milli { raw: 7000 }));
    assert_eq!(val("CHCC", "ui8", &[255, 9]).value().map(Dyadic::to_milli), Some(Milli { raw: 255_000 }));
    assert_eq!(val("B0TE", "ui16", &[0xff, 0xff]).value().map(Dyadic::to_milli), Some(Milli { raw: 65_535_000 }));
    assert_eq!(
        val("B0TE", "ui32", &0xffff_ffffu32.to_le_bytes()).value().map(Dyadic::to_milli),
        Some(Milli { raw: 4_294_967_295_000 })
    );
    assert_eq!(val("B0TE", "ui32", &1_000_000u32.to_le_bytes()).value().map(Dyadic::to_milli), Some(Milli { raw: 1_000_000_000 }));
}

#[test]
fn float_payloads_are_read_little_endian() {
    assert_eq!(val("PPBR", "flt", &1.5f32.to_le_bytes()).value().map(Dyadic::to_milli), Some(Milli { raw: 1500 }));
    assert_eq!(val("PPBR", "flt", &(-12.25f32).to_le_bytes()).value().map(Dyadic::to_milli), Some(Milli { raw: -12_250 }));
    assert_eq!(val("PPBR", "flt", &0.0f32.to_le_bytes()).value().map(Dyadic::to_milli), Some(Milli { raw: 0 }));
    assert_eq!(val("PPBR", "flt", &1.5f32.to_le_bytes()).value(), Some(Dyadic { negative: false, mantissa: 0xc0_0000, exponent: -23 }));
    assert_eq!(val("PPBR", "flt", &0.1f32.to_le_bytes()).value(), Some(sensor(0.1)));
    assert_eq!(val("PPBR", "flt", &f32::NAN.to_le_bytes()).value(), None);
    assert_eq!(val("PPBR", "flt", &f32::INFINITY.to_le_bytes()).value(), None);
}

#[test]
fn every_fixed_point_code_divides_by_its_divisor() {
    let unsigned: [(&str, u32); 11] = [
        ("fp1f", 15), ("fp2e", 14), ("fp3d", 13), ("fp4c", 12), ("fp5b", 11), ("fp6a", 10),
        ("fp79", 9), ("fp88", 8), ("fpa6", 6), ("fpc4", 4), ("fpe2", 2),
    ];
    let signed: [(&str, u32); 12] = [
        ("sp1e", 14), ("sp2d", 13), ("sp3c", 12), ("sp4b", 11), ("sp5a", 10), ("sp69", 9),
        ("sp78", 8), ("sp87", 7), ("sp96", 6), ("spa5", 5), ("spb4", 4), ("spf0", 0),
    ];
    let words: [u16; 7] = [0, 1, 255, 256, 0x7fff, 0x8000, 0xffff];
    for (code, bits) in unsigned {
        assert_eq!(FixedPoint::from_tag(code.as_bytes()), Some(FixedPoint { fraction_bits: bits, signed: false }));
        for w in words {
            let exact = f64::from(w) / f64::from(1u32 << bits) * 1000.0;
            let got = fp_to_dyadic(code.as_bytes(), &payload(&w.to_le_bytes()));
            assert_eq!(got, Ok(Dyadic { negative: false, mantissa: u32::from(w), exponent: -(bits as i32) }));
            assert_eq!(got.unwrap().to_milli(), Milli { raw: exact.round() as i64 }, "{code} {w}");
            assert_eq!(decode_payload(code.as_bytes(), &payload(&w.to_le_bytes())), got.ok());
        }
    }
    for (code, bits) in signed {
        assert_eq!(FixedPoint::from_tag(code.as_bytes()), Some(FixedPoint { fraction_bits: bits, signed: true }));
        for w in words {
            let exact = f64::from(w as i16) / f64::from(1u32 << bits) * 1000.0;
            let got = fp_to_dyadic(code.as_bytes(), &payload(&w.to_le_bytes()));
            let word = i32::from(w as i16);
            let whole = Dyadic { negative: word < 0, mantissa: word.unsigned_abs(), exponent: -(bits as i32) };
            assert_eq!(got, Ok(whole), "{code} {w}");
            assert_eq!(got.unwrap().to_milli(), Milli { raw: exact.round() as i64 }, "{code} {w}");
        }
    }
    assert_eq!(fp_to_dyadic(b"ioft", &payload(&[1, 2])), Err(()));
    assert_eq!(fp_to_dyadic(b"flt", &payload(&[1, 2])), Err(()));
}

#[test]
fn tags_of_no_numeric_type_have_no_value() {
    for t in ["ch8*", "{fds", "flag", "si8", "si16", "si32", "ioft", "_hex", "", "zzzz"] {
        assert_eq!(val("PPBR", t, &[1, 2, 3, 4]).value(), None, "{t}");
    }
}

#[test]
fn a_reading_folds_each_value_into_its_channel() {
    let vals = vec![
        val("PPBR", "flt", &1.5f32.to_le_bytes()),
        val("PDTR", "flt", &5.0f32.to_le_bytes()),
        val("PSTR", "flt", &3.0f32.to_le_bytes()),
        val("PHPC", "sp78", &512i16.to_le_bytes()),
        val("PDBR", "fp88", &128u16.to_le_bytes()),
        val("B0FC", "ui16", &4000u16.to_le_bytes()),
        val("SBAR", "ui16", &3000u16.to_le_bytes()),
        val("CHCC", "ui8", &[1]),
        val("B0TE", "ui16", &90u16.to_le_bytes()),
        val("B0TF", "ui16", &45u16.to_le_bytes()),
        val("TB0T", "flt", &30.25f32.to_le_bytes()),
    ];
    let reading = read_sensor(&vals);
    let expected = SMCPowerData {
        battery_rate: sensor(1.5),
        delivery_rate: sensor(5.0),
        system_total: sensor(3.0),
        heatpipe: Dyadic { negative: false, mantissa: 512, exponent: -8 },
        brightness: Dyadic { negative: false, mantissa: 128, exponent: -8 },
        full_charge_capacity: Dyadic::from_unsigned(4000),
        current_capacity: Dyadic::from_unsigned(3000),
        charging_status: Dyadic::from_unsigned(1),
        time_to_empty: Dyadic::from_unsigned(90),
        time_to_full: Dyadic::from_unsigned(45),
        temperature: sensor(30.25),
    };
    assert_eq!(reading, expected);
    assert!(reading.is_charging());
    assert_eq!(reading.heatpipe.to_milli(), Milli { raw: 2000 });
    assert_eq!(reading.brightness.to_milli(), Milli { raw: 500 });
    assert_eq!(reading.temperature.to_milli(), Milli { raw: 30_250 });
}

#[test]
fn a_key_that_failed_leaves_its_channel_at_zero() {
    let vals = vec![
        val("PDTR", "flt", &5.0f32.to_le_bytes()),
        val("PSTR", "zzzz", &3.0f32.to_le_bytes()),
        val("XXXX", "flt", &9.0f32.to_le_bytes()),
    ];
    let reading = read_sensor(&vals);
    assert_eq!(reading.delivery_rate, sensor(5.0));
    assert_eq!(reading.system_total, Dyadic::zero());
    assert_eq!(SMCPowerData { delivery_rate: Dyadic::zero(), ..reading }, SMCPowerData::default());
    assert!(!reading.is_charging());
    assert_eq!(read_sensor(&Vec::new()), SMCPowerData::default());
}

#[test]
fn charging_means_a_status_above_the_float_epsilon() {
    let mut reading = SMCPowerData::default();
    let mut charging = |status: Dyadic| {
        reading.charging_status = status;
        reading.is_charging()
    };
    assert!(!charging(Dyadic::zero()));
    assert!(charging(Dyadic::from_unsigned(1)));
    assert!(!charging(Dyadic { negative: true, mantissa: 1, exponent: 0 }));
    assert!(!charging(sensor(f32::EPSILON)));
    assert!(charging(sensor(f32::from_bits(f32::EPSILON.to_bits() + 1))));
    assert!(!charging(sensor(f32::from_bits(f32::EPSILON.to_bits() - 1))));
    assert!(charging(sensor(0.0004)));
    assert!(charging(sensor(f32::MAX)));
    assert!(!charging(sensor(f32::MIN_POSITIVE)));
    assert!(!charging(sensor(-1.0)));
    assert!(charging(Dyadic { negative: false, mantissa: 1, exponent: -15 }));
    assert!(!charging(Dyadic { negative: false, mantissa: 1, exponent: -23 }));
    assert!(charging(Dyadic { negative: false, mantissa: 2, exponent: -23 }));
    assert!(charging(Dyadic { negative: false, mantissa: 3, exponent: -24 }));
    assert!(!charging(Dyadic { negative: false, mantissa: 2, exponent: -24 }));
    assert!(!charging(Dyadic { negative: false, mantissa: u32::MAX, exponent: -55 }));
    assert!(!charging(Dyadic { negative: false, mantissa: u32::MAX, exponent: i32::MIN }));
    assert!(charging(Dyadic { negative: false, mantissa: 1, exponent: i32::MAX }));
    for bits in [0x3380_0000u32, 0x33ff_ffff, 0x3400_0000, 0x3400_0001, 0x3f80_0000, 0x0000_0001, 0x7f7f_ffff] {
        let float = f32::from_bits(bits);
        assert_eq!(charging(sensor(float)), float > f32::EPSILON, "{bits:#x}");
        assert!(!charging(sensor(-float)));
    }
    let smallest = val("CHCC", "fp1f", &1u16.to_le_bytes()).value().unwrap();
    assert_eq!(smallest, Dyadic { negative: false, mantissa: 1, exponent: -15 });
    assert_eq!(smallest.to_milli(), Milli { raw: 0 });
    assert!(charging(smallest));
}

#[test]
fn two_reads_of_one_key_ask_for_its_metadata_once() {
    let mut conn = SMCConnection::new(7);
    let mut channel = FakeChannel::new();
    let first = read(&mut conn, &mut channel, "PPBR");
    assert_eq!(channel.info_requests, 1);
    assert_eq!(channel.byte_requests, 1);
    let second = read(&mut conn, &mut channel, "PPBR");
    assert_eq!(channel.info_requests, 1);
    assert_eq!(channel.byte_requests, 2);
    assert_eq!(first, second);
    let expected = SMCVal { key: *b"PPBR", data_size: 4, data_type: *b"flt ", bytes: payload(&1.5f32.to_le_bytes()) };
    assert_eq!(first, SMCStep::Read(expected));
    assert_eq!(expected.value().map(Dyadic::to_milli), Some(Milli { raw: 1500 }));
    assert_eq!(conn.handle(), 7);
    assert_eq!(
        conn.cached_key_info(str_to_u32("PPBR")),
        Some(KeyInfo { data_size: 4, data_type: str_to_u32("flt "), data_attributes: 0 })
    );
    assert_eq!(conn.cached_key_info(str_to_u32("PDTR")), None);
}

#[test]
fn each_key_has_its_own_metadata() {
    let mut conn = SMCConnection::new(1);
    let mut channel = FakeChannel::new();
    for key in KEYS {
        read(&mut conn, &mut channel, key);
    }
    assert_eq!(channel.info_requests, 11);
    for key in KEYS {
        read(&mut conn, &mut channel, key);
    }
    assert_eq!(channel.info_requests, 11);
    assert_eq!(channel.byte_requests, 22);
}

#[test]
fn a_failed_metadata_request_is_not_cached_and_fails_the_read() {
    let mut conn = SMCConnection::new(1);
    let mut channel = FakeChannel::new();
    channel.fail_info = true;
    assert_eq!(read(&mut conn, &mut channel, "PPBR"), SMCStep::Failed(5));
    assert_eq!(channel.byte_requests, 0);
    assert_eq!(conn.cached_key_info(str_to_u32("PPBR")), None);
    channel.fail_info = false;
    assert!(matches!(read(&mut conn, &mut channel, "PPBR"), SMCStep::Read(_)));
    assert_eq!(channel.info_requests, 2);
}

#[test]
fn the_requests_carry_the_command_and_the_metadata() {
    let conn = SMCConnection::new(1);
    let (op, first) = conn.read_key("TB0T");
    assert_eq!(op, SMCOp::Read(str_to_u32("TB0T")));
    let SMCStep::Call(input) = first else { panic!("a request was due") };
    assert_eq!(input.key, str_to_u32("TB0T"));
    assert_eq!(input.data8, 9);
    assert_eq!(SMCKeyData { key: 0, data8: 0, ..input }, SMCKeyData::default());
    let mut conn = conn;
    let mut output = SMCKeyData::default();
    output.key_info = KeyInfo { data_size: 2, data_type: str_to_u32("sp78"), data_attributes: 3 };
    let SMCStep::Call(second) = conn.advance(&op, &input, Ok(output)) else { panic!("a request was due") };
    assert_eq!(second.data8, 5);
    assert_eq!(second.key_info, output.key_info);
    assert_eq!(second.key, input.key);
}

#[test]
fn a_write_checks_the_size_against_the_metadata() {
    let mut conn = SMCConnection::new(1);
    let mut channel = FakeChannel::new();
    let good = SMCVal { key: *b"PPBR", data_size: 4, data_type: *b"flt ", bytes: payload(&[1, 2, 3, 4]) };
    let (op, first) = conn.write_key(&good);
    assert_eq!(drive(&mut conn, &mut channel, op, first), SMCStep::Written);
    assert_eq!((channel.info_requests, channel.write_requests), (1, 1));
    let bad = SMCVal { data_size: 2, ..good };
    let (op, first) = conn.write_key(&bad);
    assert_eq!(first, SMCStep::Failed(KERN_INVALID_ARGUMENT));
    assert_eq!(drive(&mut conn, &mut channel, op, first), SMCStep::Failed(4));
    assert_eq!((channel.info_requests, channel.write_requests), (1, 1));
}

fn record() -> SMCKeyData {
    let mut bytes = [0u8; 32];
    for (i, b) in bytes.iter_mut().enumerate() {
        *b = 0xa0 + i as u8;
    }
    SMCKeyData {
        key: 0x0102_0304,
        vers: DataVers { major: 0x11, minor: 0x12, build: 0x13, reserved: 0x14, release: 0x1516 },
        plimit_data: PLimitData {
            version: 0x2122,
            length: 0x2324,
            cpu_plimit: 0x3132_3334,
            gpu_plimit: 0x4142_4344,
            mem_plimit: 0x5152_5354,
        },
        key_info: KeyInfo { data_size: 0x6162_6364, data_type: 0x7172_7374, data_attributes: 0x81 },
        result: 0x91,
        status: 0x92,
        data8: 0x93,
        data32: 0x9495_9697,
        bytes,
    }
}

#[test]
fn the_record_goes_over_the_channel_in_eighty_bytes() {
    let wire = record().to_wire();
    assert_eq!(WIRE_SIZE, 80);
    assert_eq!(wire.len(), 80);
    assert_eq!(&wire[0..4], &[0x04, 0x03, 0x02, 0x01]);
    assert_eq!(&wire[4..12], &[0x11, 0x12, 0x13, 0x14, 0x16, 0x15, 0, 0]);
    assert_eq!(&wire[12..16], &[0x22, 0x21, 0x24, 0x23]);
    assert_eq!(&wire[16..28], &[0x34, 0x33, 0x32, 0x31, 0x44, 0x43, 0x42, 0x41, 0x54, 0x53, 0x52, 0x51]);
    assert_eq!(&wire[28..40], &[0x64, 0x63, 0x62, 0x61, 0x74, 0x73, 0x72, 0x71, 0x81, 0, 0, 0]);
    assert_eq!(&wire[40..48], &[0x91, 0x92, 0x93, 0, 0x97, 0x96, 0x95, 0x94]);
    assert_eq!(&wire[48..80], &record().bytes[..]);
    assert_eq!(SMCKeyData::default().to_wire(), vec![0u8; 80]);
}

#[test]
fn what_is_written_out_is_read_back() {
    assert_eq!(SMCKeyData::from_wire(&record().to_wire()), Some(record()));
    assert_eq!(SMCKeyData::from_wire(&[0u8; 80]), Some(SMCKeyData::default()));
    let mut wire = record().to_wire();
    for at in [10, 11, 37, 38, 39, 43] {
        wire[at] = 0xff;
    }
    assert_eq!(SMCKeyData::from_wire(&wire), Some(record()));
    wire[42] = 5;
    assert_eq!(SMCKeyData::from_wire(&wire).unwrap().data8, CMD_READ_BYTES);
    assert_eq!(SMCKeyData::from_wire(&wire[..79]), None);
    wire.push(0);
    assert_eq!(SMCKeyData::from_wire(&wire), None);
    assert_eq!(SMCKeyData::from_wire(&[]), None);
}

/// A diagnostics channel that counts what it is asked.
struct FakeService {
    send_status: i32,
    receive_status: i32,
    log: Vec<ExchangeStage>,
}

fn exchange(service: &mut FakeService) -> ExchangeStep {
    let mut step = begin_exchange();
    while let ExchangeStep::Call(stage) = step {
        service.log.push(stage);
        let status = match stage {
            ExchangeStage::Send => service.send_status,
            ExchangeStage::Receive => service.receive_status,
        };
        step = stage.next(status);
    }
    step
}

#[test]
fn an_exchange_sends_one_request_and_then_receives_once() {
    let mut service = FakeService { send_status: 0, receive_status: 0, log: Vec::new() };
    assert_eq!(exchange(&mut service), ExchangeStep::Decode);
    assert_eq!(service.log, vec![ExchangeStage::Send, ExchangeStage::Receive]);
    assert!(exchange_error(ExchangeStep::Decode).is_none());
    assert!(exchange_error(begin_exchange()).is_none());
}

#[test]
fn a_request_that_was_not_sent_is_not_waited_for() {
    let mut service = FakeService { send_status: -7, receive_status: 0, log: Vec::new() };
    let end = exchange(&mut service);
    assert_eq!(end, ExchangeStep::SendFailed(-7));
    assert_eq!(service.log, vec![ExchangeStage::Send]);
    assert!(matches!(exchange_error(end), Some(DeviceDataError::Send(-7))));
    let mut service = FakeService { send_status: 0, receive_status: 9, log: Vec::new() };
    let end = exchange(&mut service);
    assert_eq!(end, ExchangeStep::ReceiveFailed(9));
    assert_eq!(service.log, vec![ExchangeStage::Send, ExchangeStage::Receive]);
    assert!(matches!(exchange_error(end), Some(DeviceDataError::Receive(9))));
}
