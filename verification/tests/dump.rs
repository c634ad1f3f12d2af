use j2534_bridge::dump::format::{
    ascii_render, device_line, filter_type_name, format_bytes_compact, format_bytes_spaced, format_candump_line,
};
use j2534_bridge::dump::kline::{
    build_kline_frame, build_post_init_request, default_kline_init_mode, keepalive_frame, kline_init_request,
    needs_cc_warning, KlineAddressing, KlineInitChoice,
};
use j2534_bridge::dump::options::{
    device_for_dll, dll_device_bitness, dos_header_pe_offset, file_stem_label, find_device, frames_to_print,
    needs_bitness_detection, pe_header_bitness, reached_message_limit, require_device_name, resolve_connect_flags,
    resolve_initial_bitness, validate_bitness, ConnectMode,
};
use j2534_bridge::dump::parse::{
    filter_spec_slicing_ok, hex_slicing_ok, parse_bool, parse_filter_spec, parse_hex_bytes, parse_key_value_pair,
    parse_u32, u32_from_str_radix, IntErrorKind,
};
use j2534_bridge::dump::stress::{echo_seq, stress_payload, EchoVerdict, StressTracker};
use j2534_bridge::protocol::{CanMessage, DeviceInfo, KlineInitMode};

// --- integers and booleans ---

#[test]
fn parse_u32_decimal_and_hex() {
    assert_eq!(parse_u32("42"), Ok(42));
    assert_eq!(parse_u32("  0x7DF "), Ok(0x7DF));
    assert_eq!(parse_u32("0X1f"), Ok(31));
    assert_eq!(parse_u32("+7"), Ok(7));
    assert_eq!(parse_u32("4294967295"), Ok(u32::MAX));
}

#[test]
fn parse_u32_errors() {
    assert_eq!(parse_u32("").unwrap_err(), "Invalid integer '': cannot parse integer from empty string");
    assert_eq!(parse_u32("0x").unwrap_err(), "Invalid hex integer '0x': cannot parse integer from empty string");
    assert_eq!(parse_u32("12a").unwrap_err(), "Invalid integer '12a': invalid digit found in string");
    assert_eq!(parse_u32("-1").unwrap_err(), "Invalid integer '-1': invalid digit found in string");
    assert_eq!(parse_u32("+").unwrap_err(), "Invalid integer '+': invalid digit found in string");
    assert_eq!(parse_u32("4294967296").unwrap_err(), "Invalid integer '4294967296': number too large to fit in target type");
    assert_eq!(parse_u32(" 0x1G ").unwrap_err(), "Invalid hex integer ' 0x1G ': invalid digit found in string");
    assert_eq!(u32_from_str_radix("99999999999x", 10), Err(IntErrorKind::PosOverflow));
    assert_eq!(u32_from_str_radix("1x99999999999", 10), Err(IntErrorKind::InvalidDigit));
}

#[test]
fn parse_u32_agrees_with_std() {
    for s in ["0", "007", "+0", "123456789", "4294967295", "4294967296", "", "+", "-", "-0", "1_000", "١٢"] {
        let ours = u32_from_str_radix(s, 10).map_err(|_| ());
        let std = s.parse::<u32>().map_err(|_| ());
        assert_eq!(ours, std, "input {:?}", s);
    }
    for s in ["ff", "FFFFFFFF", "100000000", "+a", "g"] {
        let ours = u32_from_str_radix(s, 16).map_err(|_| ());
        let std = u32::from_str_radix(s, 16).map_err(|_| ());
        assert_eq!(ours, std, "input {:?}", s);
    }
}

#[test]
fn parse_bool_values() {
    for t in ["1", "true", "YES", " y ", "On"] {
        assert_eq!(parse_bool(t), Ok(true), "{}", t);
    }
    for f in ["0", "False", "no", "N", "off"] {
        assert_eq!(parse_bool(f), Ok(false), "{}", f);
    }
    assert_eq!(parse_bool("maybe").unwrap_err(), "Invalid boolean 'maybe'");
}

// --- hex bytes ---

#[test]
fn parse_hex_bytes_accepts_separators() {
    assert_eq!(parse_hex_bytes("C1 33 F1 81 66").unwrap(), vec![0xC1, 0x33, 0xF1, 0x81, 0x66]);
    assert_eq!(parse_hex_bytes("7e:01,02-0a_ff").unwrap(), vec![0x7E, 0x01, 0x02, 0x0A, 0xFF]);
    assert_eq!(parse_hex_bytes("").unwrap(), Vec::<u8>::new());
    assert_eq!(parse_hex_bytes("+F").unwrap(), vec![0x0F]);
}

#[test]
fn parse_hex_bytes_errors() {
    assert_eq!(parse_hex_bytes("ABC").unwrap_err(), "Hex byte string must have even length: 'ABC'");
    assert_eq!(parse_hex_bytes("zz").unwrap_err(), "Invalid hex byte in 'zz': invalid digit found in string");
    assert_eq!(parse_hex_bytes("-1").unwrap_err(), "Hex byte string must have even length: '-1'");
    assert_eq!(parse_hex_bytes("é").unwrap_err(), "Invalid hex byte in 'é': invalid digit found in string");
    assert!(hex_slicing_ok("é"));
    assert!(hex_slicing_ok("aé"));
    assert!(!hex_slicing_ok("aéb"));
    assert!(hex_slicing_ok("é1a"));
}

#[test]
fn hex_format_round_trip() {
    let bytes = vec![0x00, 0x7F, 0xA5, 0xFF];
    assert_eq!(format_bytes_compact(&bytes), "007FA5FF");
    assert_eq!(format_bytes_spaced(&bytes), "00 7F A5 FF");
    assert_eq!(format_bytes_spaced(&[]), "");
    assert_eq!(parse_hex_bytes(&format_bytes_compact(&bytes)).unwrap(), bytes);
    assert_eq!(parse_hex_bytes(&format_bytes_spaced(&bytes)).unwrap(), bytes);
}

// --- pairs and filter specs ---

#[test]
fn key_value_pairs() {
    assert_eq!(parse_key_value_pair("0x03=0"), Ok((3, 0)));
    assert_eq!(parse_key_value_pair("10=0x20=1").unwrap_err(), "Invalid hex integer '0x20=1': invalid digit found in string");
    assert_eq!(parse_key_value_pair("10").unwrap_err(), "Invalid PARAM=VALUE spec '10'");
    assert_eq!(parse_key_value_pair("x=1").unwrap_err(), "Invalid integer 'x': invalid digit found in string");
}

#[test]
fn filter_specs() {
    let f = parse_filter_spec("pass:00000000:00000000:true:false").unwrap();
    assert_eq!(f.filter_type, 1);
    assert_eq!(f.mask, vec![0, 0, 0, 0]);
    assert!(f.extended);
    assert!(!f.raw);
    let f = parse_filter_spec("FLOW:07E0:07E8").unwrap();
    assert_eq!(f.filter_type, 3);
    assert_eq!(f.pattern, vec![0x07, 0xE8]);
    assert!(!f.extended);
    assert_eq!(
        parse_filter_spec("pass:00").unwrap_err(),
        "Invalid filter spec 'pass:00'. Expected type:mask:pattern[:extended][:raw]"
    );
    assert_eq!(parse_filter_spec("Drop:00:00").unwrap_err(), "Invalid filter type 'drop' in 'Drop:00:00'");
    assert_eq!(parse_filter_spec("block:0:00").unwrap_err(), "Hex byte string must have even length: '0'");
    assert_eq!(parse_filter_spec("block:00:00:maybe").unwrap_err(), "Invalid boolean 'maybe'");
    assert!(filter_spec_slicing_ok("pass:00:00"));
    assert!(filter_spec_slicing_ok("pass:aé:00"));
    assert!(!filter_spec_slicing_ok("pass:aéb:00"));
}

// --- output ---

fn can(arb_id: u32, extended: bool, data: Vec<u8>) -> CanMessage {
    CanMessage {
        timestamp_us: 0,
        arb_id,
        extended,
        data_size: data.len() as u32 + 4,
        data,
        raw_arb_id: arb_id | 0x8000_0000,
        rx_status: 0x100,
        protocol_id: 5,
    }
}

#[test]
fn candump_lines() {
    let m = can(0x7E8, false, vec![0x02, 0x41, 0x0D]);
    assert_eq!(format_candump_line(&m, "", "can0", false, false, None), "can0 7E8#02410D");
    let e = can(0x98DA_F110, true, vec![0x48, 0x00]);
    assert_eq!(
        format_candump_line(&e, "(    0.000100) ", "j2534", true, true, Some(5)),
        "(    0.000100) j2534 18DAF110#4800  'H.'  [raw_arb=0x98DAF110 rx_status=0x00000100 data_size=6]  [5]"
    );
    assert_eq!(ascii_render(&[0x41, 0x1F, 0x7E, 0x7F]), "A.~.");
    assert_eq!(filter_type_name(2), "block");
    assert_eq!(filter_type_name(9), "unknown");
}

#[test]
fn device_lines() {
    let d = DeviceInfo {
        name: "OpenPort 2.0".to_string(),
        vendor: "Tactrix".to_string(),
        dll_path: "C:\\op20.dll".to_string(),
        can_iso15765: true,
        can_iso11898: true,
        compatible: true,
        bitness: 32,
        available: false,
        unavailable_reason: None,
        api_version: "04.04".to_string(),
    };
    assert_eq!(
        device_line(&d),
        "OpenPort 2.0 | vendor=Tactrix | bitness=32 | api=04.04 | protocols=[-] | path=C:\\op20.dll [UNAVAILABLE: unknown reason]"
    );
}

// --- K-Line ---

fn addressing() -> KlineAddressing {
    KlineAddressing {
        target: "0x33".to_string(),
        source: "0xF1".to_string(),
        iso_target: "0x68".to_string(),
        iso_source: "0x6A".to_string(),
        iso_tester: "0xF1".to_string(),
    }
}

#[test]
fn kline_frames_carry_checksum() {
    assert_eq!(build_kline_frame(4, &[0x3E], 0x33, 0xF1, 0x68, 0x6A, 0xF1).unwrap(), vec![0xC1, 0x33, 0xF1, 0x3E, 0x23]);
    assert_eq!(build_kline_frame(3, &[0x01, 0x00], 0x33, 0xF1, 0x68, 0x6A, 0xF1).unwrap(), vec![0x68, 0x6A, 0xF1, 0x01, 0x00, 0xC4]);
    assert_eq!(
        build_kline_frame(4, &[0; 16], 0x33, 0xF1, 0x68, 0x6A, 0xF1).unwrap_err(),
        "KWP payload too long for short-header framing"
    );
    assert_eq!(
        build_kline_frame(5, &[0x3E], 0x33, 0xF1, 0x68, 0x6A, 0xF1).unwrap_err(),
        "K-Line framing requested for non-K-Line protocol"
    );
    let f = build_kline_frame(4, &[0xFF; 15], 0xFF, 0xFF, 0, 0, 0).unwrap();
    let sum = f[..f.len() - 1].iter().fold(0u8, |a, &b| a.wrapping_add(b));
    assert_eq!(*f.last().unwrap(), sum);
}

#[test]
fn kline_init_choices() {
    assert_eq!(default_kline_init_mode(4), KlineInitChoice::Fast);
    assert_eq!(default_kline_init_mode(3), KlineInitChoice::Slow);
    assert_eq!(default_kline_init_mode(5), KlineInitChoice::Off);
    assert!(kline_init_request(None, 5, Some("zz"), None).unwrap().is_none());
    let r = kline_init_request(None, 4, Some("C1 33"), None).unwrap().unwrap();
    assert_eq!(r.mode, KlineInitMode::Fast);
    assert_eq!(r.fast_init_data, Some(vec![0xC1, 0x33]));
    assert_eq!(r.five_baud_address, None);
    let r = kline_init_request(Some(KlineInitChoice::Auto), 5, None, Some("33")).unwrap().unwrap();
    assert_eq!(r.mode, KlineInitMode::Auto);
    assert_eq!(r.five_baud_address, Some(vec![0x33]));
    assert_eq!(
        kline_init_request(Some(KlineInitChoice::Slow), 3, Some("1"), Some("33")).unwrap_err(),
        "Hex byte string must have even length: '1'"
    );
    assert!(needs_cc_warning(false, "slow"));
    assert!(!needs_cc_warning(true, "slow"));
    assert!(!needs_cc_warning(false, "fast"));
}

#[test]
fn post_init_requests_and_keepalive() {
    let (payload, frame) = build_post_init_request(4, "10 81", &addressing()).unwrap();
    assert_eq!(payload, vec![0x10, 0x81]);
    assert_eq!(frame, vec![0xC2, 0x33, 0xF1, 0x10, 0x81, 0x77]);
    let bad = KlineAddressing { source: "0xZZ".to_string(), ..addressing() };
    assert_eq!(build_post_init_request(4, "3E", &bad).unwrap_err(), "Invalid hex integer '0xZZ': invalid digit found in string");
    let wide = KlineAddressing { target: "0x133".to_string(), ..addressing() };
    assert_eq!(build_post_init_request(4, "3E", &wide).unwrap().1[1], 0x33);

    assert_eq!(keepalive_frame(0, 4, &addressing()), None);
    assert_eq!(keepalive_frame(1000, 5, &addressing()), None);
    assert_eq!(keepalive_frame(1000, 3, &bad), Some(vec![0x68, 0x6A, 0xF1, 0x3E, 0x01]));
    assert_eq!(keepalive_frame(2000, 4, &bad), Some(vec![0xC1, 0x33, 0xF1, 0x3E, 0x23]));
}

// --- stress test ---

fn echo(arb_id: u32, data: Vec<u8>) -> CanMessage {
    CanMessage {
        timestamp_us: 0,
        arb_id,
        extended: false,
        data_size: data.len() as u32,
        data,
        raw_arb_id: arb_id,
        rx_status: 0,
        protocol_id: 5,
    }
}

#[test]
fn stress_payloads() {
    assert_eq!(stress_payload(0x01020304), vec![0xA5, 1, 2, 3, 4, 0, 0, 0]);
    assert_eq!(echo_seq(&stress_payload(77)), 77);
    assert_eq!(echo_seq(&[0xA5, 1]), u32::MAX);
}

#[test]
fn stress_tracker_counts() {
    let mut t = StressTracker::new();
    t.record_sent(0, stress_payload(0));
    t.record_sent(1, stress_payload(1));
    t.record_sent(2, stress_payload(2));
    assert!(matches!(t.observe(&echo(0x7DF, stress_payload(1)), 0x7DF), EchoVerdict::Matched));
    assert!(matches!(t.observe(&echo(0x7E8, stress_payload(0)), 0x7DF), EchoVerdict::Bus));
    let mut bad = stress_payload(0);
    bad[7] = 9;
    match t.observe(&echo(0x7DF, bad), 0x7DF) {
        EchoVerdict::Mismatched { seq, expected } => {
            assert_eq!(seq, 0);
            assert_eq!(expected, stress_payload(0));
        }
        other => panic!("{:?}", other),
    }
    assert!(matches!(t.observe(&echo(0x7DF, stress_payload(9)), 0x7DF), EchoVerdict::Unexpected { seq: 9 }));
    assert!(t.has_pending());
    assert_eq!((t.sent(), t.received(), t.matched(), t.mismatched(), t.bus_frames()), (3, 3, 1, 2, 1));
    assert_eq!(t.lost(), 0);
    assert!(!t.passed());
}

#[test]
fn stress_tracker_pass() {
    let mut t = StressTracker::new();
    for s in 0..4u32 {
        t.record_sent(s, stress_payload(s));
    }
    for s in (0..4u32).rev() {
        assert!(matches!(t.observe(&echo(0x100, stress_payload(s)), 0x100), EchoVerdict::Matched));
    }
    assert!(!t.has_pending());
    assert!(t.passed());
    assert_eq!(t.matched(), t.sent());
}

// --- options ---

#[test]
fn bitness_options() {
    assert_eq!(validate_bitness(32), Ok(32));
    assert_eq!(validate_bitness(16).unwrap_err(), "Invalid bitness 16; expected 32 or 64");
    assert!(needs_bitness_detection(None, true));
    assert!(!needs_bitness_detection(Some(32), true));
    assert_eq!(resolve_initial_bitness(Some(64), None), Ok(64));
    assert_eq!(resolve_initial_bitness(None, Some(("a.dll", Ok(32)))), Ok(32));
    assert_eq!(
        resolve_initial_bitness(None, Some(("a.dll", Err("not a PE file".to_string())))).unwrap_err(),
        "Failed to detect DLL bitness for a.dll: not a PE file"
    );
    assert_eq!(resolve_initial_bitness(None, None), Ok(64));
    assert_eq!(dll_device_bitness(None, Some(32)), 32);
    assert_eq!(dll_device_bitness(None, None), 64);
    assert_eq!(dll_device_bitness(Some(64), Some(32)), 64);
}

#[test]
fn connect_flag_options() {
    assert_eq!(resolve_connect_flags(Some("0x900"), 5, ConnectMode::Standard), Ok(0x900));
    assert_eq!(resolve_connect_flags(None, 3, ConnectMode::Both), Ok(0x200));
    assert_eq!(resolve_connect_flags(None, 5, ConnectMode::Both), Ok(0x900));
    assert_eq!(resolve_connect_flags(None, 6, ConnectMode::Extended), Ok(0x100));
    assert_eq!(resolve_connect_flags(None, 5, ConnectMode::Standard), Ok(0));
    assert!(resolve_connect_flags(Some("x"), 5, ConnectMode::Standard).is_err());
}

#[test]
fn device_options() {
    assert_eq!(file_stem_label("op20pt32.dll"), "op20pt32");
    assert_eq!(file_stem_label(""), "");
    let d = device_for_dll("libj2534.so", 6, 32);
    assert_eq!(d.name, "libj2534");
    assert!(d.can_iso15765);
    assert!(!d.can_iso11898);
    assert_eq!(d.bitness, 32);
    assert!(d.available);
    assert_eq!(require_device_name(None).unwrap_err(), "Provide --device-name or --dll-path, or use --list");
    assert_eq!(require_device_name(Some("x")), Ok("x"));
    let a = device_for_dll("a.dll", 5, 64);
    let b = device_for_dll("b.dll", 5, 64);
    assert_eq!(find_device(vec![a.clone(), b.clone()], "b").unwrap().dll_path, "b.dll");
    assert_eq!(find_device(vec![a, b], "c").unwrap_err(), "J2534 device not found: c");
}

#[test]
fn pe_detection_steps() {
    let mut dos = [0u8; 64];
    assert_eq!(dos_header_pe_offset(&dos).unwrap_err(), "not a PE file");
    dos[0] = b'M';
    dos[1] = b'Z';
    dos[0x3C] = 0x40;
    assert_eq!(dos_header_pe_offset(&dos), Ok(0x40));
    assert_eq!(pe_header_bitness(&[b'P', b'E', 0, 0, 0x4c, 0x01]), Ok(32));
    assert_eq!(pe_header_bitness(&[b'P', b'X', 0, 0, 0x4c, 0x01]).unwrap_err(), "invalid PE signature");
    assert_eq!(pe_header_bitness(&[b'P', b'E', 0, 0, 0xc4, 0x01]).unwrap_err(), "unsupported PE machine 0x01C4");
}

#[test]
fn capture_budget() {
    assert!(!reached_message_limit(5, None));
    assert!(reached_message_limit(5, Some(5)));
    assert!(!reached_message_limit(4, Some(5)));
    assert_eq!(frames_to_print(10, 3, Some(5)), 2);
    assert_eq!(frames_to_print(1, 3, Some(5)), 1);
    assert_eq!(frames_to_print(10, 7, Some(5)), 0);
    assert_eq!(frames_to_print(10, 7, None), 10);
}
