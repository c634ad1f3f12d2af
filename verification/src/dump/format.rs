//! Text output of the dump tool: hex byte strings, printable ASCII, the
//! candump-style frame line (after its timestamp) and the device list line.

use vstd::prelude::*;
use vstd::string::*;
use crate::text::{
    push_char, push_str, push_decimal, dec_digits, hex_compact, hex_spaced, hex_fixed, push_hex_fixed,
    push_hex_compact, push_hex_spaced,
};
use crate::protocol::{CanMessage, DeviceInfo};
use crate::j2534::{PASS_FILTER, BLOCK_FILTER, FLOW_CONTROL_FILTER};

verus! {

/// Bytes as consecutive uppercase hex pairs: `[0x7E, 0x01]` is `7E01`.
pub fn format_bytes_compact(bytes: &[u8]) -> (s: String)
    ensures
        s@ == hex_compact(bytes@),
{
    let mut s = String::new();
    push_hex_compact(&mut s, bytes);
    s
}

/// Bytes as uppercase hex pairs separated by spaces: `7E 01`.
pub fn format_bytes_spaced(bytes: &[u8]) -> (s: String)
    ensures
        s@ == hex_spaced(bytes@),
{
    let mut s = String::new();
    push_hex_spaced(&mut s, bytes);
    s
}

/// A byte shown as text: printable ASCII as itself, anything else as `.`.
pub open spec fn printable(b: u8) -> char {
    if 0x20 <= b <= 0x7E { (b as u32) as char } else { '.' }
}

/// The bytes shown as text, one character per byte.
pub open spec fn ascii_text(data: Seq<u8>) -> Seq<char> {
    Seq::new(data.len(), |i: int| printable(data[i]))
}

/// Renders bytes as printable ASCII, like `candump -a`.
pub fn ascii_render(data: &[u8]) -> (s: String)
    ensures
        s@ == ascii_text(data@),
{
    let mut s = String::new();
    let mut i: usize = 0;
    while i < data.len()
        invariant
            i <= data@.len(),
            s@ == ascii_text(data@.take(i as int)),
        decreases data@.len() - i,
    {
        let b = data[i];
        let c = if 0x20 <= b && b <= 0x7E { b as char } else { '.' };
        let ghost before = s@;
        push_char(&mut s, c);
        assert(ascii_text(data@.take(i + 1)) =~= before.push(printable(b)));
        i = i + 1;
    }
    assert(data@.take(data@.len() as int) =~= data@);
    s
}

/// The name of a filter type number.
pub open spec fn filter_type_text(filter_type: u32) -> Seq<char> {
    if filter_type == PASS_FILTER {
        "pass"@
    } else if filter_type == BLOCK_FILTER {
        "block"@
    } else if filter_type == FLOW_CONTROL_FILTER {
        "flow_control"@
    } else {
        "unknown"@
    }
}

/// Names a filter type number for the log.
pub fn filter_type_name(filter_type: u32) -> (s: &'static str)
    ensures
        s@ == filter_type_text(filter_type),
{
    if filter_type == PASS_FILTER {
        "pass"
    } else if filter_type == BLOCK_FILTER {
        "block"
    } else if filter_type == FLOW_CONTROL_FILTER {
        "flow_control"
    } else {
        "unknown"
    }
}

/// The identifier as candump prints it: eight hex digits of the 29-bit id,
/// or three of the 11-bit id.
pub open spec fn candump_id(arb_id: u32, extended: bool) -> Seq<char> {
    if extended {
        hex_fixed((arb_id & 0x1FFF_FFFFu32) as nat, 8)
    } else {
        hex_fixed((arb_id & 0x7FFu32) as nat, 3)
    }
}

/// The head of a candump-style line: `interface id#data`.
pub open spec fn candump_head(m: CanMessage, interface: Seq<char>) -> Seq<char> {
    interface + " "@ + candump_id(m.arb_id, m.extended) + "#"@ + hex_compact(m.data@)
}

/// The printable text of the payload, when asked for.
pub open spec fn ascii_part(m: CanMessage, ascii: bool) -> Seq<char> {
    if ascii { "  '"@ + ascii_text(m.data@) + "'"@ } else { Seq::empty() }
}

/// The raw J2534 fields, when asked for.
pub open spec fn raw_part(m: CanMessage, raw_details: bool) -> Seq<char> {
    if raw_details {
        "  [raw_arb=0x"@ + hex_fixed(m.raw_arb_id as nat, 8) + " rx_status=0x"@ + hex_fixed(m.rx_status as nat, 8)
            + " data_size="@ + dec_digits(m.data_size as nat) + "]"@
    } else {
        Seq::empty()
    }
}

/// The frame's ordinal, when given.
pub open spec fn ordinal_part(ordinal: Option<u64>) -> Seq<char> {
    match ordinal {
        Some(o) => "  ["@ + dec_digits(o as nat) + "]"@,
        None => Seq::empty(),
    }
}

/// A candump-style line after its timestamp: `interface id#data`, then
/// optionally the printable text, the raw J2534 fields, and the ordinal.
pub open spec fn candump_text(m: CanMessage, interface: Seq<char>, ascii: bool, raw_details: bool, ordinal: Option<u64>) -> Seq<char> {
    candump_head(m, interface) + ascii_part(m, ascii) + raw_part(m, raw_details) + ordinal_part(ordinal)
}

fn push_head(s: &mut String, msg: &CanMessage, interface: &str)
    ensures
        final(s)@ == old(s)@ + candump_head(*msg, interface@),
{
    push_str(s, interface);
    push_str(s, " ");
    if msg.extended {
        push_hex_fixed(s, msg.arb_id & 0x1FFF_FFFF, 8);
    } else {
        push_hex_fixed(s, msg.arb_id & 0x7FF, 3);
    }
    push_str(s, "#");
    push_hex_compact(s, msg.data.as_slice());
    assert(final(s)@ =~= old(s)@ + candump_head(*msg, interface@));
}

fn push_ascii(s: &mut String, msg: &CanMessage, ascii: bool)
    ensures
        final(s)@ == old(s)@ + ascii_part(*msg, ascii),
{
    if ascii {
        push_str(s, "  '");
        let text = ascii_render(msg.data.as_slice());
        push_str(s, text.as_str());
        push_str(s, "'");
    }
    assert(final(s)@ =~= old(s)@ + ascii_part(*msg, ascii));
}

fn push_raw(s: &mut String, msg: &CanMessage, raw_details: bool)
    ensures
        final(s)@ == old(s)@ + raw_part(*msg, raw_details),
{
    if raw_details {
        push_str(s, "  [raw_arb=0x");
        push_hex_fixed(s, msg.raw_arb_id, 8);
        push_str(s, " rx_status=0x");
        push_hex_fixed(s, msg.rx_status, 8);
        push_str(s, " data_size=");
        push_decimal(s, msg.data_size as u64);
        push_str(s, "]");
    }
    assert(final(s)@ =~= old(s)@ + raw_part(*msg, raw_details));
}

fn push_ordinal(s: &mut String, ordinal: Option<u64>)
    ensures
        final(s)@ == old(s)@ + ordinal_part(ordinal),
{
    match ordinal {
        Some(o) => {
            push_str(s, "  [");
            push_decimal(s, o);
            push_str(s, "]");
        },
        None => {},
    }
    assert(final(s)@ =~= old(s)@ + ordinal_part(ordinal));
}

/// Formats a frame as a candump-style line: `prefix` is the timestamp
/// column (empty when timestamps are off, and then the ordinal is given).
pub fn format_candump_line(msg: &CanMessage, prefix: &str, interface: &str, ascii: bool, raw_details: bool, ordinal: Option<u64>) -> (s: String)
    ensures
        s@ == prefix@ + candump_text(*msg, interface@, ascii, raw_details, ordinal),
{
    let mut s = String::from_str(prefix);
    push_head(&mut s, msg, interface);
    push_ascii(&mut s, msg, ascii);
    push_raw(&mut s, msg, raw_details);
    push_ordinal(&mut s, ordinal);
    assert(s@ =~= prefix@ + candump_text(*msg, interface@, ascii, raw_details, ordinal));
    s
}

/// The device list line for a device the bridge reported. The wire
/// description carries no protocol list, so the protocols column is `-`.
pub open spec fn device_text(d: DeviceInfo) -> Seq<char> {
    d.name@ + " | vendor="@ + d.vendor@ + " | bitness="@ + dec_digits(d.bitness as nat) + " | api="@
        + d.api_version@ + " | protocols=[-] | path="@ + d.dll_path@
        + if d.available {
            Seq::empty()
        } else {
            " [UNAVAILABLE: "@ + match d.unavailable_reason {
                Some(r) => r@,
                None => "unknown reason"@,
            } + "]"@
        }
}

/// Formats a device for `--list`.
pub fn device_line(d: &DeviceInfo) -> (s: String)
    ensures
        s@ == device_text(*d),
{
    let mut s = String::new();
    push_str(&mut s, d.name.as_str());
    push_str(&mut s, " | vendor=");
    push_str(&mut s, d.vendor.as_str());
    push_str(&mut s, " | bitness=");
    push_decimal(&mut s, d.bitness as u64);
    push_str(&mut s, " | api=");
    push_str(&mut s, d.api_version.as_str());
    push_str(&mut s, " | protocols=[-] | path=");
    push_str(&mut s, d.dll_path.as_str());
    if !d.available {
        push_str(&mut s, " [UNAVAILABLE: ");
        match &d.unavailable_reason {
            Some(r) => push_str(&mut s, r.as_str()),
            None => push_str(&mut s, "unknown reason"),
        }
        push_str(&mut s, "]");
    }
    assert(s@ =~= device_text(*d));
    s
}

} // verus!
