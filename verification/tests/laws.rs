use j2534_bridge::j2534::device::LibraryFacts;
use j2534_bridge::client::ClientSession;
use j2534_bridge::dump::format::{format_bytes_compact, format_bytes_spaced};
use j2534_bridge::dump::options::{device_for_dll, file_stem_label, label_from_stem};
use j2534_bridge::dump::parse::{parse_hex_bytes, parse_u32};
use j2534_bridge::worker::{env_value_u32, env_value_u64, env_value_usize};

#[test]
fn hex_text_parses_back_to_its_bytes() {
    for bytes in [vec![], vec![0x00], vec![0x7E, 0x01, 0xAB, 0xFF], (0u8..=255).collect::<Vec<u8>>()] {
        assert_eq!(parse_hex_bytes(&format_bytes_compact(&bytes)), Ok(bytes.clone()));
        assert_eq!(parse_hex_bytes(&format_bytes_spaced(&bytes)), Ok(bytes.clone()));
        assert_eq!(parse_hex_bytes(&format_bytes_compact(&bytes).to_lowercase()), Ok(bytes.clone()));
    }
}

#[test]
fn integer_text_parses_back_to_its_number() {
    for n in [0u32, 1, 9, 10, 2015, 65535, 0xDEAD_BEEF, u32::MAX] {
        assert_eq!(parse_u32(&n.to_string()), Ok(n));
        assert_eq!(parse_u32(&format!("0x{:X}", n)), Ok(n));
        assert_eq!(parse_u32(&format!(" 0X{:x} ", n)), Ok(n));
        assert_eq!(parse_u32(&format!("\t{}\n", n)), Ok(n));
    }
    assert_eq!(parse_u32("0x7DF"), Ok(2015));
}

#[test]
fn request_ids_follow_on_while_connected() {
    let mut s = ClientSession::new();
    assert!(!s.is_connected());
    assert_eq!(s.begin_request(), Err("Bridge not connected".to_string()));
    s.connect();
    assert!(s.is_connected());
    assert_eq!(s.begin_request(), Ok(1));
    assert_eq!(s.begin_request(), Ok(2));
    assert_eq!(s.begin_request(), Ok(3));
    s.disconnect();
    assert_eq!(s.begin_request(), Err("Bridge not connected".to_string()));
    s.connect();
    assert_eq!(s.begin_request(), Ok(4));
}

#[test]
fn environment_settings_parse_like_str_parse() {
    assert_eq!(env_value_u32(None), None);
    assert_eq!(env_value_u32(Some("42")), Some(42));
    assert_eq!(env_value_u32(Some("+7")), Some(7));
    assert_eq!(env_value_u32(Some("")), None);
    assert_eq!(env_value_u32(Some("+")), None);
    assert_eq!(env_value_u32(Some("-1")), None);
    assert_eq!(env_value_u32(Some(" 5")), None);
    assert_eq!(env_value_u32(Some("0x10")), None);
    assert_eq!(env_value_u32(Some("4294967295")), Some(u32::MAX));
    assert_eq!(env_value_u32(Some("4294967296")), None);
    assert_eq!(env_value_u64(Some("4294967296")), Some(4_294_967_296));
    assert_eq!(env_value_u64(Some("18446744073709551616")), None);
    assert_eq!(env_value_usize(Some("65536")), Some(65_536));
    for text in ["", "+", "-", "12a", "007", "+0", "99999999999999999999"] {
        assert_eq!(env_value_u32(Some(text)), text.parse::<u32>().ok());
        assert_eq!(env_value_u64(Some(text)), text.parse::<u64>().ok());
        assert_eq!(env_value_usize(Some(text)), text.parse::<usize>().ok());
    }
}

#[test]
fn library_labels_follow_the_file_stem() {
    assert_eq!(label_from_stem("C:\\op20.dll", Some("op20".to_string())), "op20");
    assert_eq!(label_from_stem("weird", None), "weird");
    assert_eq!(file_stem_label("op20pt32.dll"), "op20pt32");
    assert_eq!(file_stem_label("a.b.c"), "a.b");
    assert_eq!(file_stem_label(".hidden"), ".hidden");
    assert_eq!(file_stem_label("plain"), "plain");
    assert_eq!(device_for_dll("driver.dll", 5, 32).name, "driver");
}

#[test]
fn library_labels_use_the_last_path_component() {
    assert_eq!(file_stem_label("drivers/op20.dll"), "op20");
    assert_eq!(file_stem_label("/usr/lib/libj2534.so"), "libj2534");
    assert_eq!(file_stem_label("dir/sub/a.b.c"), "a.b");
    assert_eq!(file_stem_label("dir/.hidden"), ".hidden");
    assert_eq!(device_for_dll("drivers/op20.dll", 6, 32).name, "op20");
}

#[test]
fn worker_settings_from_environment_texts() {
    assert_eq!(env_value_usize(Some("0")), Some(0));
    assert_eq!(env_value_u64(Some("0")), Some(0));
    assert_eq!(env_value_u32(Some("9999")), Some(9999));
    assert_eq!(env_value_usize(Some("9999")), Some(9999));
}

#[test]
fn library_facts_come_from_the_machine_type() {
    let f = LibraryFacts::from_machine(0x8664, "05.00".to_string()).unwrap();
    assert_eq!(f.bitness(), 64);
    assert_eq!(f.api_version(), "05.00");
    assert_eq!(LibraryFacts::from_machine(0x014c, String::new()).unwrap().bitness(), 32);
    assert_eq!(LibraryFacts::from_machine(0xAA64, String::new()).unwrap().bitness(), 64);
    assert!(LibraryFacts::from_machine(0x0200, String::new()).is_none());
}
