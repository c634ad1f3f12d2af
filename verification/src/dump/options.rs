//! Choices the dump tool makes from its options: the bridge bitness, the
//! connect flags, the device to open, the label of a library path, the PE
//! header checks of bitness detection, and the capture's frame budget.

use vstd::prelude::*;
use vstd::string::*;
use crate::protocol::DeviceInfo;
use crate::text::{push_str, push_decimal, dec_digits, str_equals};
use crate::j2534::{
    PROTOCOL_CAN, PROTOCOL_ISO15765, ISO9141_NO_CHECKSUM, CAN_29BIT_ID, CAN_MIXED_CAPTURE_FLAGS,
    is_kline_protocol, spec_is_kline_protocol,
};
use crate::j2534::device::{
    pe_offset, pe_offset_of, pe_machine, pe_machine_of, machine_bits, machine_bits_of, unsupported_machine_error,
    DOS_HEADER_LEN, PE_HEADER_LEN,
};
use crate::text::hex_pair;
use super::parse::{parse_u32, u32_option};

verus! {

/// A bitness the bridge comes in: 32 or 64.
pub open spec fn bitness_check(bits: u8) -> Result<u8, Seq<char>> {
    if bits == 32 || bits == 64 {
        Ok(bits)
    } else {
        Err("Invalid bitness "@ + dec_digits(bits as nat) + "; expected 32 or 64"@)
    }
}

/// Checks a bitness given on the command line.
pub fn validate_bitness(bits: u8) -> (r: Result<u8, String>)
    ensures
        match r {
            Ok(b) => bitness_check(bits) == Ok::<u8, Seq<char>>(b),
            Err(e) => bitness_check(bits) == Err::<u8, Seq<char>>(e@),
        },
{
    if bits == 32 || bits == 64 {
        Ok(bits)
    } else {
        let mut e = String::from_str("Invalid bitness ");
        push_decimal(&mut e, bits as u64);
        push_str(&mut e, "; expected 32 or 64");
        Err(e)
    }
}

/// Whether the bridge bitness must be read from the library file: no
/// bitness given, and a library path given.
pub fn needs_bitness_detection(bitness: Option<u8>, has_dll_path: bool) -> (b: bool)
    ensures
        b == (bitness is None && has_dll_path),
{
    bitness.is_none() && has_dll_path
}

/// The bitness the bridge starts with: the given one (checked), else the
/// one detected from the library (`detection`, given exactly when
/// detection was needed), else 64.
pub fn resolve_initial_bitness(bitness: Option<u8>, detection: Option<(&str, Result<u8, String>)>) -> (r: Result<u8, String>)
    ensures
        match bitness {
            Some(b) => match r {
                Ok(v) => bitness_check(b) == Ok::<u8, Seq<char>>(v),
                Err(e) => bitness_check(b) == Err::<u8, Seq<char>>(e@),
            },
            None => match detection {
                Some((path, Ok(v))) => r == Ok::<u8, String>(v),
                Some((path, Err(e))) => r matches Err(m) && m@ == "Failed to detect DLL bitness for "@ + path@ + ": "@ + e@,
                None => r == Ok::<u8, String>(64),
            },
        },
{
    match bitness {
        Some(b) => validate_bitness(b),
        None => match detection {
            Some((path, Ok(v))) => Ok(v),
            Some((path, Err(e))) => {
                let mut m = String::from_str("Failed to detect DLL bitness for ");
                push_str(&mut m, path);
                push_str(&mut m, ": ");
                push_str(&mut m, e.as_str());
                Err(m)
            },
            None => Ok(64),
        },
    }
}

/// The `--connect-mode` choice.
#[derive(Debug, Clone, Copy, PartialEq, Eq, Structural)]
pub enum ConnectMode {
    Standard,
    Extended,
    Both,
}

/// The connect flags: the raw value when given, `ISO9141_NO_CHECKSUM` for
/// K-Line protocols, otherwise the flags of the connect mode (`Both`
/// captures 11-bit and 29-bit frames with the mixed flags).
pub open spec fn connect_flags_for(raw: Option<Seq<char>>, protocol_id: u32, mode: ConnectMode) -> Result<u32, Seq<char>> {
    match raw {
        Some(t) => u32_option(t),
        None => if spec_is_kline_protocol(protocol_id) {
            Ok(ISO9141_NO_CHECKSUM)
        } else {
            Ok(match mode {
                ConnectMode::Standard => 0u32,
                ConnectMode::Extended => CAN_29BIT_ID,
                ConnectMode::Both => CAN_MIXED_CAPTURE_FLAGS,
            })
        },
    }
}

/// Decides the connect flags.
pub fn resolve_connect_flags(raw: Option<&str>, protocol_id: u32, mode: ConnectMode) -> (r: Result<u32, String>)
    ensures
        match r {
            Ok(f) => connect_flags_for(match raw { Some(t) => Some(t@), None => None }, protocol_id, mode) == Ok::<u32, Seq<char>>(f),
            Err(e) => connect_flags_for(match raw { Some(t) => Some(t@), None => None }, protocol_id, mode) == Err::<u32, Seq<char>>(e@),
        },
{
    match raw {
        Some(t) => parse_u32(t),
        None => {
            if is_kline_protocol(protocol_id) {
                Ok(ISO9141_NO_CHECKSUM)
            } else {
                Ok(match mode {
                    ConnectMode::Standard => 0,
                    ConnectMode::Extended => CAN_29BIT_ID,
                    ConnectMode::Both => CAN_MIXED_CAPTURE_FLAGS,
                })
            }
        },
    }
}

/// `part` is a contiguous part of `text`.
pub open spec fn is_part_of(text: Seq<char>, part: Seq<char>) -> bool {
    exists|i: int, j: int| 0 <= i <= j <= text.len() && #[trigger] text.subrange(i, j) == part
}

/// Position of the last `c` in a text, or -1 when it has none.
pub open spec fn last_index(s: Seq<char>, c: char) -> int
    decreases s.len(),
{
    if s.len() == 0 {
        -1
    } else if s.last() == c {
        s.len() - 1
    } else {
        last_index(s.drop_last(), c)
    }
}

/// The part of a path after its last `/` (the whole path when it has none).
pub open spec fn last_component(p: Seq<char>) -> Seq<char> {
    p.skip(last_index(p, '/') + 1)
}

/// A path whose file name every platform reads alike: it has no `\` or
/// `:`, does not start with `//`, and the part after its last `/` is a
/// name (not empty, and neither `.` nor `..`).
pub open spec fn has_plain_file_name(p: Seq<char>) -> bool {
    &&& !p.contains('\\')
    &&& !p.contains(':')
    &&& !(p.len() >= 2 && p[0] == '/' && p[1] == '/')
    &&& last_component(p).len() > 0
    &&& last_component(p) != "."@
    &&& last_component(p) != ".."@
}

/// The stem of a file name: the whole name when it has no `.` or its only
/// `.` is its first character, else the part before its last `.`.
pub open spec fn file_stem_rule(name: Seq<char>) -> Seq<char> {
    let k = last_index(name, '.');
    if k <= 0 { name } else { name.take(k) }
}

/// The file stem of a path (`Path::file_stem`), when it has one and it is
/// valid Unicode. Trusted, for what holds on every platform: the stem is a
/// contiguous part of the path; and a path with no `\` or `:` that does
/// not start with `//` has, when the part after its last `/` is a name,
/// the stem of that name by std's documented rule. Which further
/// separators and prefixes a platform knows (so the stem of any other
/// path) is left unsaid.
#[verifier::external_body]
fn path_file_stem(path: &str) -> (r: Option<String>)
    ensures
        r matches Some(s) ==> is_part_of(path@, s@)
            && (has_plain_file_name(path@) ==> s@ == file_stem_rule(last_component(path@))),
        r is None ==> !has_plain_file_name(path@),
{
    std::path::Path::new(path).file_stem().and_then(|s| s.to_str()).map(|s| s.to_string())
}

/// The label of a library from its path and the path's file stem: the
/// stem, or the whole path when there is none.
pub fn label_from_stem(path: &str, stem: Option<String>) -> (s: String)
    ensures
        s@ == match stem {
            Some(t) => t@,
            None => path@,
        },
{
    match stem {
        Some(t) => t,
        None => String::from_str(path),
    }
}

/// The label of a library given by path: its file stem, or the whole path
/// when it has none.
pub fn file_stem_label(path: &str) -> (s: String)
    ensures
        has_plain_file_name(path@) ==> s@ == file_stem_rule(last_component(path@)),
        s@ == path@ || is_part_of(path@, s@),
{
    label_from_stem(path, path_file_stem(path))
}

/// The bitness of a library given by path: the given one, else the
/// detected one, else 64.
pub fn dll_device_bitness(given: Option<u8>, detected: Option<u8>) -> (b: u8)
    ensures
        b == match given {
            Some(g) => g,
            None => match detected {
                Some(d) => d,
                None => 64u8,
            },
        },
{
    match given {
        Some(g) => g,
        None => match detected {
            Some(d) => d,
            None => 64,
        },
    }
}

/// The device opened when a library path is given: named after the file,
/// CAN support as the protocol says, available.
pub fn device_for_dll(dll_path: &str, protocol_id: u32, bitness: u8) -> (d: DeviceInfo)
    ensures
        has_plain_file_name(dll_path@) ==> d.name@ == file_stem_rule(last_component(dll_path@)),
        d.name@ == dll_path@ || is_part_of(dll_path@, d.name@),
        d.vendor@.len() == 0,
        d.dll_path@ == dll_path@,
        d.can_iso15765 == (protocol_id == PROTOCOL_ISO15765),
        d.can_iso11898 == (protocol_id == PROTOCOL_CAN),
        d.compatible,
        d.bitness == bitness,
        d.available,
        d.unavailable_reason is None,
        d.api_version@.len() == 0,
{
    DeviceInfo {
        name: file_stem_label(dll_path),
        vendor: String::new(),
        dll_path: String::from_str(dll_path),
        can_iso15765: protocol_id == PROTOCOL_ISO15765,
        can_iso11898: protocol_id == PROTOCOL_CAN,
        compatible: true,
        bitness,
        available: true,
        unavailable_reason: None,
        api_version: String::new(),
    }
}

/// The device name to look for, or the error when neither a name nor a
/// library path was given.
pub fn require_device_name(device_name: Option<&str>) -> (r: Result<&str, String>)
    ensures
        match device_name {
            Some(n) => r == Ok::<&str, String>(n),
            None => r matches Err(e) && e@ == "Provide --device-name or --dll-path, or use --list"@,
        },
{
    match device_name {
        Some(n) => Ok(n),
        None => Err(String::from_str("Provide --device-name or --dll-path, or use --list")),
    }
}

/// Picks the first device with exactly this name.
pub fn find_device(devices: Vec<DeviceInfo>, name: &str) -> (r: Result<DeviceInfo, String>)
    ensures
        match r {
            Ok(d) => exists|k: int| 0 <= k < devices@.len() && devices@[k] == d && d.name@ == name@
                && forall|j: int| 0 <= j < k ==> devices@[j].name@ != name@,
            Err(e) => (forall|j: int| 0 <= j < devices@.len() ==> devices@[j].name@ != name@)
                && e@ == "J2534 device not found: "@ + name@,
        },
{
    let ghost all = devices@;
    let mut rest = devices;
    let mut k: usize = 0;
    while k < rest.len()
        invariant
            rest@ == all,
            all == devices@,
            k <= rest@.len(),
            forall|j: int| 0 <= j < k ==> all[j].name@ != name@,
        decreases rest@.len() - k,
    {
        if str_equals(rest[k].name.as_str(), name) {
            assert(all[k as int].name@ == name@);
            let d = rest.remove(k);
            assert(d == all[k as int]);
            assert(0 <= k < devices@.len() && devices@[k as int] == d && d.name@ == name@
                && forall|j: int| 0 <= j < k ==> devices@[j].name@ != name@);
            return Ok(d);
        }
        k = k + 1;
    }
    let mut e = String::from_str("J2534 device not found: ");
    push_str(&mut e, name);
    Err(e)
}

/// Where the PE header starts, or "not a PE file" when the DOS header
/// lacks the "MZ" magic.
pub fn dos_header_pe_offset(dos: &[u8]) -> (r: Result<u32, String>)
    requires
        dos@.len() >= DOS_HEADER_LEN,
    ensures
        match r {
            Ok(o) => pe_offset_of(dos@) == Some(o),
            Err(e) => pe_offset_of(dos@) is None && e@ == "not a PE file"@,
        },
{
    match pe_offset(dos) {
        Some(o) => Ok(o),
        None => Err(String::from_str("not a PE file")),
    }
}

/// The bitness a PE header declares, or why there is none.
pub fn pe_header_bitness(pe: &[u8]) -> (r: Result<u8, String>)
    requires
        pe@.len() >= PE_HEADER_LEN,
    ensures
        match pe_machine_of(pe@) {
            None => r matches Err(e) && e@ == "invalid PE signature"@,
            Some(m) => match machine_bits_of(m) {
                Some(b) => r == Ok::<u8, String>(b),
                None => r matches Err(e) && e@ == "unsupported PE machine 0x"@ + hex_pair((m / 0x100) as u8) + hex_pair((m % 0x100) as u8),
            },
        },
{
    match pe_machine(pe) {
        None => Err(String::from_str("invalid PE signature")),
        Some(m) => match machine_bits(m) {
            Some(b) => Ok(b),
            None => Err(unsupported_machine_error(m)),
        },
    }
}

/// Whether the capture has printed as many frames as it may.
pub fn reached_message_limit(captured: u64, max_messages: Option<u64>) -> (b: bool)
    ensures
        b == match max_messages {
            Some(limit) => captured >= limit,
            None => false,
        },
{
    match max_messages {
        Some(limit) => captured >= limit,
        None => false,
    }
}

/// How many frames of a read are printed: all of them, or no more than
/// the frames left of the budget.
pub fn frames_to_print(available: usize, captured: u64, max_messages: Option<u64>) -> (n: u64)
    ensures
        n == match max_messages {
            Some(limit) => {
                let left: int = if captured >= limit { 0 } else { limit - captured };
                if (available as int) < left { available as int } else { left }
            },
            None => available as int,
        },
{
    match max_messages {
        Some(limit) => {
            let left: u64 = if captured >= limit { 0 } else { limit - captured };
            if (available as u64) < left { available as u64 } else { left }
        },
        None => available as u64,
    }
}

} // verus!
