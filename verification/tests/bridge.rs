use j2534_bridge::bridge::{
    devices_reply, ends_session, is_verbose, panic_reply, parse_error_reply, route_request, run_bridge,
    spawn_reply, worker_reply, ControlStep,
};
use j2534_bridge::client::{
    batch_messages, bridge_file_name, bridge_search_path, check_reply_id, expect_devices, expect_init_reply,
    expect_messages, expect_number, expect_text, expect_unit, expect_voltage, filter_type_label, is_dead_reply,
    pipe_name, target_triple, Announce,
};
use j2534_bridge::j2534::device::J2534Device;
use j2534_bridge::protocol::{
    default_batch_size, default_max_drain_reads, default_protocol_can, CanMessage, Message, Request, Response,
    ResponseData,
};
use j2534_bridge::worker::parse_filter_type;

fn error_of(r: &Response) -> (i32, String) {
    match r {
        Response::Error { code, message } => (*code, message.clone()),
        other => panic!("expected an error, got {:?}", other),
    }
}

#[test]
fn protocol_defaults() {
    assert_eq!(default_batch_size(), 256);
    assert_eq!(default_max_drain_reads(), 64);
    assert_eq!(default_protocol_can(), 5);
}

#[test]
fn verbose_values() {
    assert!(is_verbose(Some("1")));
    assert!(is_verbose(Some("TRUE")));
    assert!(is_verbose(Some("True")));
    assert!(!is_verbose(Some("yes")));
    assert!(!is_verbose(Some("")));
    assert!(!is_verbose(None));
}

#[test]
fn run_bridge_needs_named_pipes() {
    assert_eq!(run_bridge("\\\\.\\pipe\\x").unwrap_err(), "J2534 bridge is only supported on Windows");
}

#[test]
fn routing_without_connection() {
    assert!(matches!(route_request(Request::EnumerateDevices, false), ControlStep::Enumerate));
    match route_request(Request::GetDataRate, false) {
        ControlStep::Reply(r) => assert_eq!(error_of(&r), (-1, "Not connected".to_string())),
        other => panic!("{:?}", other),
    }
    assert!(matches!(
        route_request(Request::Close, false),
        ControlStep::Reply(Response::Success { data: ResponseData::Empty })
    ));
    assert!(matches!(
        route_request(Request::Shutdown, false),
        ControlStep::Reply(Response::Success { data: ResponseData::Empty })
    ));
    match route_request(
        Request::Open { dll_path: "a.dll".to_string(), protocol_id: 5, baud_rate: 500_000, connect_flags: 0x800 },
        false,
    ) {
        ControlStep::Spawn { dll_path, protocol_id, baud_rate, connect_flags } => {
            assert_eq!(dll_path, "a.dll");
            assert_eq!((protocol_id, baud_rate, connect_flags), (5, 500_000, 0x800));
        }
        other => panic!("{:?}", other),
    }
}

#[test]
fn routing_with_connection() {
    match route_request(
        Request::Open { dll_path: "a.dll".to_string(), protocol_id: 5, baud_rate: 500_000, connect_flags: 0 },
        true,
    ) {
        ControlStep::Reply(r) => assert_eq!(error_of(&r), (-1, "Already connected".to_string())),
        other => panic!("{:?}", other),
    }
    assert!(matches!(route_request(Request::Close, true), ControlStep::Stop(Request::Close)));
    assert!(matches!(route_request(Request::Shutdown, true), ControlStep::Stop(Request::Shutdown)));
    assert!(matches!(route_request(Request::ReadVersion, true), ControlStep::Forward(Request::ReadVersion)));
    assert!(matches!(route_request(Request::EnumerateDevices, true), ControlStep::Enumerate));
}

#[test]
fn control_replies() {
    assert!(matches!(spawn_reply(Ok(())), Response::Success { data: ResponseData::Connected }));
    assert_eq!(error_of(&spawn_reply(Err("ERR_J2534_DLL_LOAD: x".to_string()))).1, "ERR_J2534_DLL_LOAD: x");
    let (r, drop_worker) = worker_reply(Ok(Response::Success { data: ResponseData::Number(3) }));
    assert!(matches!(r, Response::Success { data: ResponseData::Number(3) }));
    assert!(!drop_worker);
    let (r, drop_worker) = worker_reply(Err("Bridge worker terminated while processing request".to_string()));
    assert_eq!(error_of(&r), (-1, "Bridge worker terminated while processing request".to_string()));
    assert!(drop_worker);

    let m = parse_error_reply("expected value at line 1 column 1");
    assert_eq!(m.id, 0);
    assert_eq!(error_of(&m.payload), (-1, "Parse error: expected value at line 1 column 1".to_string()));
    assert_eq!(error_of(&panic_reply(Some("boom"))), (-999, "J2534 DLL caused panic: boom".to_string()));
    assert_eq!(error_of(&panic_reply(None)).1, "J2534 DLL caused panic: Unknown panic");
    assert!(ends_session(&Request::Shutdown));
    assert!(!ends_session(&Request::Close));
}

#[test]
fn device_list_reply_keeps_order() {
    let d = |name: &str| J2534Device {
        name: name.to_string(),
        vendor: "V".to_string(),
        dll_path: format!("C:\\{}.dll", name),
        can_iso15765: true,
        can_iso11898: false,
        compatible: true,
        bitness: 32,
        available: false,
        unavailable_reason: Some("DLL not found".to_string()),
        api_version: "04.04".to_string(),
        supported_protocols: vec!["CAN".to_string()],
    };
    match devices_reply(vec![d("a"), d("b")]) {
        Response::Success { data: ResponseData::Devices(infos) } => {
            assert_eq!(infos.len(), 2);
            assert_eq!(infos[0].name, "a");
            assert_eq!(infos[1].dll_path, "C:\\b.dll");
            assert_eq!(infos[1].unavailable_reason.as_deref(), Some("DLL not found"));
            assert!(!infos[0].available);
        }
        other => panic!("{:?}", other),
    }
}

#[test]
fn client_names() {
    assert_eq!(pipe_name(1234, 0), "\\\\.\\pipe\\j2534-bridge-1234-0");
    assert_eq!(bridge_file_name(32), "j2534-bridge-32.exe");
    assert_eq!(bridge_file_name(64), "j2534-bridge-64.exe");
    assert_eq!(target_triple(32), "i686-pc-windows-msvc");
    assert_eq!(target_triple(64), "x86_64-pc-windows-msvc");
}

#[test]
fn bridge_search_order() {
    let c = bridge_search_path(32, 64);
    assert_eq!(c.len(), 4 + 2 * 4);
    assert_eq!((c[0].up, c[0].parts.clone()), (0, vec!["j2534-bridge-32.exe".to_string()]));
    assert_eq!(c[1].parts, vec!["resources", "j2534-bridge-32.exe"]);
    assert_eq!((c[2].up, c[2].announce), (3, Announce::PublishedDev));
    assert_eq!(c[3].parts, vec!["src-tauri", "bin", "j2534-bridge-32.exe"]);
    assert_eq!(c[4].parts, vec!["i686-pc-windows-msvc", "debug", "j2534-bridge.exe"]);
    assert_eq!(c[8].parts, vec!["i686-pc-windows-msvc", "release", "j2534-bridge.exe"]);

    let native = bridge_search_path(64, 64);
    assert_eq!(native.len(), 4 + 2 * 5);
    assert_eq!((native[4].up, native[4].parts.clone()), (1, vec!["debug".to_string(), "j2534-bridge.exe".to_string()]));
    assert_eq!(native[6].parts, vec!["j2534-bridge", "target", "x86_64-pc-windows-msvc", "debug", "j2534-bridge.exe"]);
    assert_eq!(native[6].up, 4);
    assert_eq!(native[7].up, 2);
    assert_eq!(native[8].up, 5);
}

#[test]
fn filter_type_labels_round_trip() {
    for t in 1..=3u32 {
        let label = filter_type_label(t).unwrap();
        assert_eq!(parse_filter_type(label).unwrap(), t);
    }
    assert_eq!(filter_type_label(0).unwrap_err(), "Invalid filter type");
    assert_eq!(filter_type_label(4).unwrap_err(), "Invalid filter type");
}

#[test]
fn batch_conversion() {
    let b = batch_messages(vec![(1, vec![1], false), (2, vec![2, 2], true)]);
    assert_eq!(b.len(), 2);
    assert_eq!(b[1].arb_id, 2);
    assert_eq!(b[1].data, vec![2, 2]);
    assert!(b[1].extended);
}

#[test]
fn reply_ids_and_dead_replies() {
    let ok = Message { id: 7, payload: Response::Success { data: ResponseData::Bool(true) } };
    assert!(matches!(check_reply_id(7, ok), Ok(Response::Success { data: ResponseData::Bool(true) })));
    let wrong = Message { id: 8, payload: Response::Success { data: ResponseData::Empty } };
    assert_eq!(check_reply_id(7, wrong).unwrap_err(), "Response ID mismatch: expected 7, got 8");
    assert!(is_dead_reply(0, ""));
    assert!(is_dead_reply(3, " \r\n"));
    assert!(!is_dead_reply(3, "{}\n"));
}

fn msg(arb_id: u32) -> CanMessage {
    CanMessage {
        timestamp_us: 0,
        arb_id,
        extended: false,
        data: vec![],
        raw_arb_id: arb_id,
        rx_status: 0,
        data_size: 0,
        protocol_id: 5,
    }
}

#[test]
fn reading_replies() {
    let err = || Response::Error { code: -1, message: "E".to_string() };
    assert!(expect_unit(Response::Success { data: ResponseData::Number(1) }).is_ok());
    assert_eq!(expect_unit(err()).unwrap_err(), "E");
    assert!(expect_devices(Response::Success { data: ResponseData::Empty }).unwrap().is_empty());
    assert_eq!(
        expect_messages(Response::Success { data: ResponseData::Messages(vec![msg(1)]) }).unwrap()[0].arb_id,
        1
    );
    assert!(expect_messages(Response::Success { data: ResponseData::Bool(true) }).unwrap().is_empty());
    assert_eq!(expect_text(Response::Success { data: ResponseData::Empty }).unwrap(), "");
    assert_eq!(expect_number(Response::Success { data: ResponseData::Number(42) }).unwrap(), 42);
    assert_eq!(
        expect_number(Response::Success { data: ResponseData::Empty }).unwrap_err(),
        "Unexpected response type"
    );
    assert_eq!(expect_voltage(Response::Success { data: ResponseData::Float(12.5f64.to_bits()) }).unwrap(), 12.5f64.to_bits());
    assert_eq!(
        expect_init_reply(Response::Success { data: ResponseData::Messages(vec![msg(3), msg(4)]) }, "FAST_INIT")
            .unwrap()
            .arb_id,
        3
    );
    assert_eq!(
        expect_init_reply(Response::Success { data: ResponseData::Messages(vec![]) }, "FIVE_BAUD_INIT").unwrap_err(),
        "No FIVE_BAUD_INIT response message returned"
    );
}
