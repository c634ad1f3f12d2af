use j2534_bridge::j2534::write::{batch_write_outcome, batch_write_plan, raw_write_of_nothing, single_write_outcome};
use j2534_bridge::j2534::{checked_call, checked_value, is_status_ok};
use j2534_bridge::j2534::device::{
    admits_entry, api_cache_key, api_version_label, clean_device_name, collapse_whitespace_str, machine_bits,
    pe_machine, pe_offset, push_device, remove_all_str, supported_protocols, unsupported_machine_error,
    J2534Device, LibraryFacts, ProtocolFlags, RegistryEntry,
};
use j2534_bridge::j2534::drain::{complete_single_read, raw_read_count, DrainSession, ReadCall};
use j2534_bridge::j2534::echo::SentLog;
use j2534_bridge::j2534::frame::{
    decode_can_frame, encode_periodic_message, encode_tx_message, passthru_msg_to_can_message, tx_payload_length,
    CANMessage, PassThruMsg, PASSTHRU_DATA_LEN,
};
use j2534_bridge::j2534::kline::{
    after_fast_init, classify_keywords, fast_init_message, five_baud_reply, plan_kline_init, AfterFastInit,
    CcWait, KlineAttempt,
};
use j2534_bridge::j2534::open::{OpenAction, OpenEvent, OpenSequence};
use j2534_bridge::j2534::write::{
    batch_write_failed_error, batch_write_timeout, encode_batch, filter_message, raw_filter_messages,
    record_batch, record_single_send, teardown, write_failed_error, TeardownCall,
};
use j2534_bridge::j2534::{
    error_code_to_string, failure_error, last_error_text, missing_function_error, protocol_id_to_string,
    status_error, CAN_29BIT_ID, CAN_ID_BOTH, ERR_FAILED, ERR_TIMEOUT, PROTOCOL_CAN, PROTOCOL_ISO14230,
    PROTOCOL_ISO15765, PROTOCOL_ISO9141, RX_CAN_29BIT_ID, STATUS_NOERROR, TX_MSG_TYPE,
};
use j2534_bridge::protocol::BatchMessage;

fn rx_frame(protocol_id: u32, rx_status: u32, bytes: &[u8], timestamp: u32) -> PassThruMsg {
    let mut m = PassThruMsg::default();
    m.protocol_id = protocol_id;
    m.rx_status = rx_status;
    m.timestamp = timestamp;
    m.data_size = bytes.len() as u32;
    m.data[..bytes.len()].copy_from_slice(bytes);
    m
}

// --- names and errors ---

#[test]
fn error_and_protocol_names() {
    assert_eq!(error_code_to_string(STATUS_NOERROR), "STATUS_NOERROR");
    assert_eq!(error_code_to_string(ERR_FAILED), "ERR_FAILED");
    assert_eq!(error_code_to_string(0x1A), "ERR_INVALID_DEVICE_ID");
    assert_eq!(error_code_to_string(99), "UNKNOWN_ERROR");
    assert_eq!(protocol_id_to_string(PROTOCOL_ISO15765), "ISO15765");
    assert_eq!(protocol_id_to_string(42), "UNKNOWN");
}

#[test]
fn status_error_formats_code_and_name() {
    assert_eq!(status_error("ERR_J2534_OPEN_FAILED: error code ", 7), "ERR_J2534_OPEN_FAILED: error code 7 (ERR_FAILED)");
    assert_eq!(status_error("E ", -3), "E -3 (UNKNOWN_ERROR)");
    assert_eq!(missing_function_error("PassThruOpen", "not found"), "ERR_J2534_FUNC_NOT_FOUND: PassThruOpen - not found");
    assert_eq!(
        failure_error("ERR_J2534_FAST_INIT_FAILED: error code ", 9, Some("bus idle".to_string())),
        "ERR_J2534_FAST_INIT_FAILED: error code 9 (ERR_TIMEOUT) - bus idle"
    );
    assert_eq!(failure_error("X ", 9, None), "X 9 (ERR_TIMEOUT)");
}

#[test]
fn last_error_text_trims_and_drops_blank() {
    let mut buf = [0i8; 16];
    for (i, b) in b"  No ECU \0junk".iter().enumerate() {
        buf[i] = *b as i8;
    }
    assert_eq!(last_error_text(STATUS_NOERROR, &buf), Some("No ECU".to_string()));
    assert_eq!(last_error_text(ERR_FAILED, &buf), None);
    let blank = [b' ' as i8, 0, 0];
    assert_eq!(last_error_text(STATUS_NOERROR, &blank), None);
}

// --- frame layout ---

#[test]
fn can_frame_layout_and_decoding() {
    let m = encode_tx_message(PROTOCOL_CAN, 0x18DA10F1, &[1, 2, 3, 4, 5, 6, 7, 8, 9], true);
    assert_eq!(m.tx_flags, CAN_29BIT_ID);
    assert_eq!(m.data_size, 12);
    assert_eq!(&m.data[..12], &[0x18, 0xDA, 0x10, 0xF1, 1, 2, 3, 4, 5, 6, 7, 8]);
    assert_eq!(m.data.len(), PASSTHRU_DATA_LEN);
    assert!(m.data[12..].iter().all(|&b| b == 0));

    let mut rx = m.clone();
    rx.rx_status = RX_CAN_29BIT_ID;
    rx.timestamp = 77;
    let c = passthru_msg_to_can_message(&rx);
    assert_eq!(c.arb_id, 0x18DA10F1);
    assert!(c.extended);
    assert_eq!(c.data, vec![1, 2, 3, 4, 5, 6, 7, 8]);
    assert_eq!(c.timestamp_us, 77);
    assert_eq!(c.protocol_id, PROTOCOL_CAN);

    let d = decode_can_frame(&rx, false);
    assert!(!d.extended);
}

#[test]
fn kline_frame_layout_is_raw() {
    let m = encode_tx_message(PROTOCOL_ISO14230, 0x123, &[0xC1, 0x33, 0xF1], false);
    assert_eq!(m.data_size, 3);
    assert_eq!(m.tx_flags, 0);
    assert_eq!(&m.data[..3], &[0xC1, 0x33, 0xF1]);
    let c = passthru_msg_to_can_message(&m);
    assert_eq!(c.arb_id, 0);
    assert_eq!(c.data, vec![0xC1, 0x33, 0xF1]);
    assert_eq!(tx_payload_length(PROTOCOL_CAN, 20), 8);
    assert_eq!(tx_payload_length(PROTOCOL_ISO9141, 20), 20);
}

#[test]
fn periodic_frames_always_carry_the_id() {
    let m = encode_periodic_message(PROTOCOL_ISO15765, 0x7DF, &[0x02, 0x3E, 0x00], false);
    assert_eq!(m.data_size, 7);
    assert_eq!(&m.data[..7], &[0, 0, 0x07, 0xDF, 0x02, 0x3E, 0x00]);
}

// --- echo tracking and reads ---

#[test]
fn recorded_frame_is_recognised_once_within_window() {
    let mut log = SentLog::new();
    log.record(1_000, 0x7E0, &[1, 2]);
    assert!(log.take_echo(1_200, 0x7E0, &[1, 2]));
    assert!(!log.take_echo(1_201, 0x7E0, &[1, 2]));
    log.record(2_000, 0x7E0, &[3]);
    assert!(!log.take_echo(2_600, 0x7E0, &[3]));
    assert_eq!(log.len(), 0);
}

#[test]
fn single_read_skips_echoes() {
    let frames = vec![
        rx_frame(PROTOCOL_CAN, 0, &[0, 0, 0x07, 0xE8, 0x10], 1),
        rx_frame(PROTOCOL_CAN, TX_MSG_TYPE, &[0, 0, 0x07, 0xE0, 0x20], 2),
        rx_frame(PROTOCOL_CAN, 0, &[0, 0, 0x07, 0xE0, 0x30], 3),
        rx_frame(PROTOCOL_CAN, 0, &[1, 2], 4),
    ];
    let mut log = SentLog::new();
    log.record(10, 0x7E0, &[0x30]);
    let out = complete_single_read(ERR_TIMEOUT, &frames, true, false, &mut log, 20).unwrap();
    assert_eq!(out.len(), 1);
    assert_eq!(out[0].arb_id, 0x7E8);
    assert_eq!(out[0].data, vec![0x10]);

    let mut log = SentLog::new();
    let all = complete_single_read(STATUS_NOERROR, &frames, true, true, &mut log, 20).unwrap();
    assert_eq!(all.len(), 3);

    let err = complete_single_read(ERR_FAILED, &frames, true, false, &mut log, 20).unwrap_err();
    assert_eq!(err, "ERR_J2534_READ_FAILED: error code 7 (ERR_FAILED)");
    assert_eq!(raw_read_count(0), 1);
    assert_eq!(raw_read_count(1000), 64);
}

#[test]
fn drain_session_reads_until_short_read_then_29bit_channel() {
    let mut log = SentLog::new();
    let mut s = DrainSession::new(1, Some(2), true, 25, 2, 16);
    assert_eq!(s.next_read(), Some(ReadCall { channel_id: 1, max_msgs: 2, timeout_ms: 25 }));
    let full = vec![
        rx_frame(PROTOCOL_CAN, 0, &[0, 0, 1, 0, 0xAA], 1),
        rx_frame(PROTOCOL_CAN, 0, &[0, 0, 1, 1, 0xBB], 2),
    ];
    s.absorb(STATUS_NOERROR, &full, &mut log, 0);
    assert_eq!(s.next_read(), Some(ReadCall { channel_id: 1, max_msgs: 2, timeout_ms: 0 }));
    s.absorb(STATUS_NOERROR, &full[..1], &mut log, 0);
    assert_eq!(s.next_read(), Some(ReadCall { channel_id: 2, max_msgs: 2, timeout_ms: 0 }));
    let ext = vec![rx_frame(PROTOCOL_CAN, 0, &[0x18, 0xDA, 0xF1, 0x10, 0x01], 3)];
    s.absorb(ERR_TIMEOUT, &ext, &mut log, 0);
    assert_eq!(s.next_read(), None);
    let msgs = s.finish().unwrap();
    assert_eq!(msgs.len(), 4);
    assert_eq!(msgs[3].arb_id, 0x18DAF110);
    assert!(msgs[3].extended);
}

#[test]
fn drain_session_first_read_failure_is_an_error() {
    let mut log = SentLog::new();
    let mut s = DrainSession::new(1, None, true, 25, 256, 64);
    s.absorb(ERR_FAILED, &[], &mut log, 0);
    assert_eq!(s.next_read(), None);
    assert_eq!(s.finish().unwrap_err(), "ERR_J2534_READ_FAILED: error code 7 (ERR_FAILED)");
}

// --- connection set-up ---

fn calls(actions: &[OpenAction]) -> Vec<String> {
    actions
        .iter()
        .map(|a| match a {
            OpenAction::Report(p) => format!("report {} {}", p.step, p.status),
            OpenAction::Warn(w) => format!("warn {}", w),
            OpenAction::LoadLibrary => "load".to_string(),
            OpenAction::OpenDevice => "open".to_string(),
            OpenAction::Connect { device_id, protocol_id, flags, baud_rate } => {
                format!("connect {} {} {:#x} {}", device_id, protocol_id, flags, baud_rate)
            }
            OpenAction::StartPassFilter { channel_id, mask, pattern } => {
                format!("filter {} {} {:#x}", channel_id, mask.data_size, pattern.tx_flags)
            }
            OpenAction::ReadLastError => "last_error".to_string(),
            OpenAction::Disconnect { channel_id } => format!("disconnect {}", channel_id),
            OpenAction::CloseDevice { device_id } => format!("close {}", device_id),
            OpenAction::ConnectExtended { device_id, flags, .. } => format!("connect29 {} {:#x}", device_id, flags),
            OpenAction::SetLoopbackOff { channel_id } => format!("loopback_off {}", channel_id),
            OpenAction::GetLoopback { channel_id } => format!("loopback_get {}", channel_id),
            OpenAction::Fail(e) => format!("fail {}", e),
            OpenAction::Done(c) => format!("done {} {} {:?}", c.device_id, c.channel_id, c.channel_id_29bit),
        })
        .collect()
}

#[test]
fn open_can_with_both_id_types() {
    let (mut s, a) = OpenSequence::begin("op20.dll".to_string(), PROTOCOL_CAN, 500_000, CAN_ID_BOTH);
    assert_eq!(calls(&a), vec!["report load_dll in_progress", "load"]);
    let a = s.resume(OpenEvent::Loaded);
    assert_eq!(calls(&a), vec!["report load_dll success", "report open_device in_progress", "open"]);
    let a = s.resume(OpenEvent::Status { result: 0, id: 3 });
    assert_eq!(calls(&a)[2], "connect 3 5 0x800 500000");
    match &a[1] {
        OpenAction::Report(p) => assert_eq!(p.message.as_deref(), Some("Baud rate: 500000 bps")),
        _ => panic!(),
    }
    let a = s.resume(OpenEvent::Status { result: 0, id: 9 });
    assert_eq!(calls(&a), vec!["report connect_channel success", "report set_filter in_progress", "filter 9 4 0x0"]);
    let a = s.resume(OpenEvent::Status { result: 0, id: 1 });
    assert_eq!(calls(&a), vec!["report set_filter success", "connect29 3 0x100"]);
    let a = s.resume(OpenEvent::Status { result: 0, id: 10 });
    assert_eq!(calls(&a), vec!["filter 10 4 0x100"]);
    let a = s.resume(OpenEvent::Status { result: ERR_FAILED, id: 0 });
    assert_eq!(
        calls(&a),
        vec![
            "warn [j2534] 29-bit channel filter failed: 7 (ERR_FAILED)",
            "warn [j2534] Opened dedicated 29-bit channel (id=10)",
            "report loopback in_progress",
            "loopback_off 9",
        ]
    );
    let a = s.resume(OpenEvent::LoopbackSet(Ok(())));
    assert_eq!(calls(&a), vec!["loopback_get 9"]);
    assert!(!s.is_finished());
    let a = s.resume(OpenEvent::LoopbackRead(Ok(false)));
    assert_eq!(calls(&a), vec!["report loopback success", "report complete success", "done 3 9 Some(10)"]);
    match &a[0] {
        OpenAction::Report(p) => assert_eq!(p.message.as_deref(), Some("Loopback reported OFF")),
        _ => panic!(),
    }
    assert!(s.is_finished());
}

#[test]
fn open_can_29bit_adds_extended_filter() {
    let (mut s, _) = OpenSequence::begin("x.dll".to_string(), PROTOCOL_CAN, 250_000, CAN_29BIT_ID);
    s.resume(OpenEvent::Loaded);
    s.resume(OpenEvent::Status { result: 0, id: 1 });
    s.resume(OpenEvent::Status { result: 0, id: 5 });
    let a = s.resume(OpenEvent::Status { result: 0, id: 0 });
    assert_eq!(calls(&a), vec!["filter 5 4 0x100"]);
    let a = s.resume(OpenEvent::Status { result: ERR_FAILED, id: 0 });
    assert_eq!(
        calls(&a),
        vec![
            "warn [j2534] Warning: 29-bit pass filter failed: 7 (ERR_FAILED). Extended frames may not be received.",
            "report set_filter success",
            "report loopback in_progress",
            "loopback_off 5",
        ]
    );
}

#[test]
fn open_connect_failure_reads_last_error_then_closes() {
    let (mut s, _) = OpenSequence::begin("x.dll".to_string(), PROTOCOL_CAN, 500_000, 0);
    s.resume(OpenEvent::Loaded);
    s.resume(OpenEvent::Status { result: 0, id: 4 });
    let a = s.resume(OpenEvent::Status { result: 0x19, id: 0 });
    assert_eq!(calls(&a), vec!["last_error"]);
    let a = s.resume(OpenEvent::LastError(Some("bad baud".to_string())));
    assert_eq!(
        calls(&a),
        vec!["close 4", "fail ERR_J2534_CONNECT_FAILED: error code 25 (ERR_INVALID_BAUDRATE) - bad baud"]
    );
    assert!(s.is_finished());
}

#[test]
fn open_can_filter_failure_disconnects_and_closes() {
    let (mut s, _) = OpenSequence::begin("x.dll".to_string(), PROTOCOL_ISO15765, 500_000, 0);
    s.resume(OpenEvent::Loaded);
    s.resume(OpenEvent::Status { result: 0, id: 4 });
    s.resume(OpenEvent::Status { result: 0, id: 6 });
    let a = s.resume(OpenEvent::Status { result: ERR_FAILED, id: 0 });
    assert_eq!(
        calls(&a),
        vec!["disconnect 6", "close 4", "fail ERR_J2534_FILTER_FAILED: error code 7 (ERR_FAILED)"]
    );
}

#[test]
fn open_kline_and_missing_library() {
    let (mut s, _) = OpenSequence::begin("kl.dll".to_string(), PROTOCOL_ISO9141, 10400, 0x200);
    let a = s.resume(OpenEvent::Unavailable("no such file".to_string()));
    assert_eq!(calls(&a), vec!["fail ERR_J2534_DLL_LOAD: no such file"]);

    let (mut s, _) = OpenSequence::begin("kl.dll".to_string(), PROTOCOL_ISO9141, 10400, 0x200);
    s.resume(OpenEvent::Loaded);
    s.resume(OpenEvent::Status { result: 0, id: 1 });
    let a = s.resume(OpenEvent::Status { result: 0, id: 2 });
    assert_eq!(calls(&a), vec!["report connect_channel success", "report set_filter in_progress", "filter 2 1 0x0"]);
    let a = s.resume(OpenEvent::Status { result: ERR_FAILED, id: 0 });
    assert_eq!(
        calls(&a),
        vec![
            "warn [j2534] Warning: K-Line pass-all filter failed: 7 (ERR_FAILED). RX may not work.",
            "report set_filter success",
            "report loopback in_progress",
            "loopback_off 2",
        ]
    );
    s.resume(OpenEvent::LoopbackSet(Err("not supported".to_string())));
    let a = s.resume(OpenEvent::LoopbackRead(Err("not supported".to_string())));
    match &a[0] {
        OpenAction::Report(p) => assert_eq!(
            p.message.as_deref(),
            Some("Loopback set failed: not supported; readback failed: not supported")
        ),
        _ => panic!(),
    }
}

// --- K-Line init ---

#[test]
fn kline_plans() {
    let p = plan_kline_init("fast", None, None).unwrap();
    assert!(matches!(&p.first, KlineAttempt::Fast(d) if d == &vec![0xC1, 0x33, 0xF1, 0x81, 0x66]));
    assert!(p.fallback.is_none());
    let p = plan_kline_init("auto", Some(&[0x81]), None).unwrap();
    assert!(matches!(&p.first, KlineAttempt::Fast(d) if d == &vec![0x81]));
    assert_eq!(p.fallback, Some(vec![0x33]));
    let p = plan_kline_init("slow", None, Some(&[0x01])).unwrap();
    assert!(matches!(&p.first, KlineAttempt::Slow(a) if a == &vec![0x01]));
    assert_eq!(plan_kline_init("turbo", None, None).unwrap_err(), "Unknown kline init mode: turbo");
}

fn reply(data: Vec<u8>) -> CANMessage {
    CANMessage {
        timestamp_us: 0,
        arb_id: 0,
        extended: false,
        data_size: data.len() as u32,
        data,
        raw_arb_id: 0,
        rx_status: 0,
        protocol_id: PROTOCOL_ISO9141,
    }
}

#[test]
fn kline_fast_init_outcomes() {
    match after_fast_init(Ok(reply(vec![0xC1, 0xEF])), Some(vec![0x33])) {
        AfterFastInit::Done(r) => {
            assert_eq!(r.init_method, "fast");
            assert_eq!(r.detected_protocol, "iso14230-fast");
            assert!(r.keyword_bytes.is_empty());
            assert!(!r.cc_received);
            assert_eq!(r.init_response.len(), 1);
        }
        other => panic!("{:?}", other),
    }
    match after_fast_init(Err("E".to_string()), Some(vec![0x33])) {
        AfterFastInit::FallBack { warning, address } => {
            assert_eq!(warning, "[j2534] kline_init auto: fast init failed: E");
            assert_eq!(address, vec![0x33]);
        }
        other => panic!("{:?}", other),
    }
    assert!(matches!(after_fast_init(Err("E".to_string()), None), AfterFastInit::Failed(e) if e == "E"));
}

#[test]
fn kline_slow_init_waits_for_cc() {
    assert_eq!(classify_keywords(&[0x08, 0x08]), "iso9141");
    assert_eq!(classify_keywords(&[0x94, 0x94]), "iso9141");
    assert_eq!(classify_keywords(&[0xEF, 0x8F]), "iso14230-slow");
    assert_eq!(classify_keywords(&[0x08]), "iso14230-slow");
    assert_eq!(classify_keywords(&[]), "iso14230-slow");

    let mut w = CcWait::new(reply(vec![0x08, 0x08]));
    assert!(w.absorb(Ok(vec![reply(vec![0x55])])));
    assert!(!w.absorb(Ok(vec![reply(vec![0xCC]), reply(vec![0x01])])));
    let r = w.finish();
    assert_eq!(r.init_method, "slow");
    assert_eq!(r.detected_protocol, "iso9141");
    assert_eq!(r.keyword_bytes, vec![0x08, 0x08]);
    assert!(r.cc_received);
    assert_eq!(r.init_response.len(), 4);
    assert_eq!(r.init_response[2].data, vec![0xCC]);

    let mut w = CcWait::new(reply(vec![]));
    assert!(!w.absorb(Err("ERR".to_string())));
    let r = w.finish();
    assert!(!r.cc_received);
    assert_eq!(r.detected_protocol, "iso14230-slow");
    assert_eq!(r.init_response.len(), 1);
}

#[test]
fn kline_init_frames() {
    let m = fast_init_message(PROTOCOL_ISO14230, &[0xC1, 0x33, 0xF1, 0x81, 0x66]);
    assert_eq!(m.data_size, 5);
    assert_eq!(&m.data[..5], &[0xC1, 0x33, 0xF1, 0x81, 0x66]);
    let r = five_baud_reply(&[0x55, 0x08, 0x08, 0, 0, 0, 0, 0, 0, 0, 0, 0, 0, 0, 0, 0], 3, PROTOCOL_ISO9141);
    assert_eq!(r.data, vec![0x55, 0x08, 0x08]);
    assert_eq!(r.data_size, 3);
    let r = five_baud_reply(&[1, 2], 40, PROTOCOL_ISO9141);
    assert_eq!(r.data, vec![1, 2]);
}

// --- devices ---

fn entry(name: &str, dll: &str, flags: ProtocolFlags) -> RegistryEntry {
    RegistryEntry {
        key_name: "key".to_string(),
        name: Some(name.to_string()),
        vendor: Some("Tactrix".to_string()),
        function_library: Some(dll.to_string()),
        flags,
    }
}

#[test]
fn device_names_are_cleaned() {
    assert_eq!(clean_device_name("OpenPort 2.0 (64-bit)  J2534"), "OpenPort 2.0 J2534");
    assert_eq!(clean_device_name("  Mongoose (x86) (compatible) "), "Mongoose");
    assert_eq!(remove_all_str("aXXbXXXc", "XX"), "abXc");
    assert_eq!(collapse_whitespace_str("\t a  b \n"), "a b");
}

#[test]
fn supported_protocols_follow_registry_values() {
    let flags = ProtocolFlags { can: Some(1), iso9141: Some(1), tp2_0_ps: Some(2), ..ProtocolFlags::default() };
    assert_eq!(supported_protocols(&flags, false), vec!["CAN", "ISO 9141", "TP 2.0"]);
    assert_eq!(supported_protocols(&ProtocolFlags::default(), true), vec!["CAN", "ISO-TP"]);
    assert!(supported_protocols(&ProtocolFlags::default(), false).is_empty());
}

#[test]
fn device_list_skips_duplicates_and_marks_v5() {
    let mut devices: Vec<J2534Device> = Vec::new();
    let e1 = entry("OpenPort 2.0 (64-bit)", "C:\\op20.dll", ProtocolFlags { iso15765: Some(1), ..ProtocolFlags::default() });
    assert!(admits_entry(&devices, &e1));
    push_device(&mut devices, &e1, false, LibraryFacts::from_machine(0x014c, "04.04".to_string()), true);
    assert_eq!(devices[0].name, "OpenPort 2.0");
    assert!(devices[0].can_iso15765);
    assert!(!devices[0].can_iso11898);
    assert!(devices[0].available);
    assert_eq!(devices[0].bitness, 32);

    assert!(!admits_entry(&devices, &e1));
    let no_dll = RegistryEntry { function_library: None, ..e1.clone() };
    assert!(!admits_entry(&devices, &no_dll));

    let e2 = entry("OpenPort 2.0", "C:\\op20v5.dll", ProtocolFlags::default());
    assert!(admits_entry(&devices, &e2));
    push_device(&mut devices, &e2, true, None, true);
    assert_eq!(devices[1].name, "OpenPort 2.0 (v5.0)");
    assert!(!devices[1].available);
    assert_eq!(devices[1].unavailable_reason.as_deref(), Some("DLL not found"));
    assert_eq!(devices[1].api_version, "05.00");
    assert_eq!(devices[1].bitness, 64);
    assert!(devices[1].can_iso11898);
}

#[test]
fn pe_header_parsing() {
    let mut dos = [0u8; 64];
    dos[0] = b'M';
    dos[1] = b'Z';
    dos[0x3C] = 0x80;
    dos[0x3D] = 0x01;
    assert_eq!(pe_offset(&dos), Some(0x180));
    dos[0] = b'X';
    assert_eq!(pe_offset(&dos), None);
    assert_eq!(pe_machine(&[b'P', b'E', 0, 0, 0x64, 0x86]), Some(0x8664));
    assert_eq!(pe_machine(&[b'P', b'E', 1, 0, 0x4c, 0x01]), None);
    assert_eq!(machine_bits(0x014c), Some(32));
    assert_eq!(machine_bits(0xAA64), Some(64));
    assert_eq!(machine_bits(0x01c4), None);
    assert_eq!(unsupported_machine_error(0x01c4), "unsupported PE machine 0x01C4");
    assert_eq!(api_version_label(true, true), "05.00");
    assert_eq!(api_version_label(false, true), "04.04");
    assert_eq!(api_cache_key("C:\\a.dll", Some(1700000000)), "C:\\a.dll|1700000000");
    assert_eq!(api_cache_key("C:\\a.dll", None), "C:\\a.dll");
}

// --- writes, filters, teardown ---

#[test]
fn batch_frames_and_records() {
    let msgs = vec![
        BatchMessage { arb_id: 0x7E0, data: vec![1; 10], extended: false },
        BatchMessage { arb_id: 0x7E1, data: vec![2], extended: true },
    ];
    let frames = encode_batch(PROTOCOL_CAN, &msgs);
    assert_eq!(frames.len(), 2);
    assert_eq!(frames[0].data_size, 12);
    assert_eq!(frames[1].tx_flags, CAN_29BIT_ID);
    assert_eq!(batch_write_timeout(3), 5000);
    assert_eq!(batch_write_timeout(600), 6000);
    assert_eq!(write_failed_error(7), "ERR_J2534_WRITE_FAILED: error code 7 [ERR_FAILED]");
    assert_eq!(
        batch_write_failed_error(7, 1, 2),
        "ERR_J2534_WRITE_FAILED: error code 7 (ERR_FAILED), sent 1/2 messages"
    );

    let mut log = SentLog::new();
    record_batch(&mut log, 100, PROTOCOL_CAN, &msgs, 1);
    assert_eq!(log.len(), 1);
    assert!(log.take_echo(150, 0x7E0, &[1; 8]));
    let mut log = SentLog::new();
    record_single_send(&mut log, 100, PROTOCOL_CAN, 0x100, &[9; 12]);
    assert!(log.take_echo(101, 0x100, &[9; 8]));
}

#[test]
fn filter_frames() {
    let m = filter_message(PROTOCOL_CAN, &[0xFF, 0xFF, 0x07, 0xFF, 0x99], true);
    assert_eq!(m.data_size, 4);
    assert_eq!(&m.data[..5], &[0xFF, 0xFF, 0x07, 0xFF, 0]);
    assert_eq!(m.tx_flags, CAN_29BIT_ID);
    let (mask, pattern) = raw_filter_messages(PROTOCOL_ISO9141, &[0xFF; 20], &[0x80], false).unwrap();
    assert_eq!(mask.data_size, 12);
    assert_eq!(pattern.data_size, 1);
    assert_eq!(
        raw_filter_messages(PROTOCOL_ISO9141, &[], &[0x80], false).unwrap_err(),
        "ERR_J2534_ADD_FILTER_FAILED: mask/pattern must be 1-12 bytes"
    );
}

#[test]
fn teardown_order() {
    assert_eq!(
        teardown(1, 2, Some(3)),
        vec![
            TeardownCall::Disconnect { channel_id: 3 },
            TeardownCall::Disconnect { channel_id: 2 },
            TeardownCall::Close { device_id: 1 },
        ]
    );
    assert_eq!(teardown(1, 2, None).len(), 2);
}

#[test]
fn driver_statuses_become_results() {
    assert!(is_status_ok(STATUS_NOERROR));
    assert!(!is_status_ok(ERR_FAILED));
    assert_eq!(checked_value(STATUS_NOERROR, 42, "E "), Ok(42));
    assert_eq!(checked_value(ERR_FAILED, 42, "E "), Err("E 7 (ERR_FAILED)".to_string()));
    assert_eq!(checked_call(STATUS_NOERROR, "E "), Ok(()));
    assert_eq!(checked_call(ERR_TIMEOUT, "E "), Err(status_error("E ", ERR_TIMEOUT)));
    assert_eq!(single_write_outcome(STATUS_NOERROR), Ok(()));
    assert_eq!(single_write_outcome(ERR_FAILED), Err(write_failed_error(ERR_FAILED)));
    assert_eq!(batch_write_plan(0), None);
    assert_eq!(batch_write_plan(3), Some(5000));
    assert_eq!(batch_write_plan(600), Some(6000));
    assert_eq!(batch_write_outcome(STATUS_NOERROR, 2, 2), Ok(2));
    assert_eq!(batch_write_outcome(ERR_FAILED, 1, 2), Err(batch_write_failed_error(ERR_FAILED, 1, 2)));
    let empty = raw_write_of_nothing(0).unwrap();
    assert_eq!((empty.result, empty.num_msgs), (STATUS_NOERROR, 0));
    assert!(raw_write_of_nothing(1).is_none());
}
