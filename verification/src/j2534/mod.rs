//! J2534 PassThru API: identifiers, status codes and their names, plus the
//! frame codec, echo tracking, read sessions, connection set-up, K-Line
//! initialisation and device-registry processing built on them.

pub mod device;
pub mod drain;
pub mod echo;
pub mod frame;
pub mod kline;
pub mod open;
pub mod write;

use vstd::prelude::*;
use vstd::string::*;
use crate::text::{dec_signed, push_signed, push_str, c_string, c_bytes, lossy_utf8, trimmed, trim_text};

verus! {

// Protocol identifiers.
pub const PROTOCOL_J1850VPW: u32 = 1;
pub const PROTOCOL_J1850PWM: u32 = 2;
pub const PROTOCOL_ISO9141: u32 = 3;
pub const PROTOCOL_ISO14230: u32 = 4;
pub const PROTOCOL_CAN: u32 = 5;
pub const PROTOCOL_ISO15765: u32 = 6;
pub const PROTOCOL_SCI_A_ENGINE: u32 = 7;
pub const PROTOCOL_SCI_A_TRANS: u32 = 8;
pub const PROTOCOL_SCI_B_ENGINE: u32 = 9;
pub const PROTOCOL_SCI_B_TRANS: u32 = 10;

// Connect flags.
pub const CAN_29BIT_ID: u32 = 0x100;
pub const ISO9141_NO_CHECKSUM: u32 = 0x200;
pub const CAN_ID_BOTH: u32 = 0x800;
pub const CAN_MIXED_CAPTURE_FLAGS: u32 = 0x900;
pub const ISO9141_K_LINE_ONLY: u32 = 0x1000;

// Transmit flags.
pub const ISO15765_FRAME_PAD: u32 = 0x0040;
pub const ISO15765_ADDR_TYPE: u32 = 0x0080;

// Filter types.
pub const PASS_FILTER: u32 = 1;
pub const BLOCK_FILTER: u32 = 2;
pub const FLOW_CONTROL_FILTER: u32 = 3;

// IOCTL identifiers.
pub const GET_CONFIG: u32 = 0x01;
pub const SET_CONFIG: u32 = 0x02;
pub const READ_VBATT: u32 = 0x03;
pub const FIVE_BAUD_INIT: u32 = 0x04;
pub const FAST_INIT: u32 = 0x05;
pub const CLEAR_TX_BUFFER: u32 = 0x07;
pub const CLEAR_RX_BUFFER: u32 = 0x08;
pub const CLEAR_PERIODIC_MSGS: u32 = 0x09;
pub const CLEAR_MSG_FILTERS: u32 = 0x0A;
pub const CLEAR_FUNCT_MSG_LOOKUP_TABLE: u32 = 0x0B;
pub const ADD_TO_FUNCT_MSG_LOOKUP_TABLE: u32 = 0x0C;
pub const DELETE_FROM_FUNCT_MSG_LOOKUP_TABLE: u32 = 0x0D;
pub const READ_PROG_VOLTAGE: u32 = 0x0E;

// Configuration parameters.
pub const DATA_RATE: u32 = 0x01;
pub const LOOPBACK: u32 = 0x03;
pub const NODE_ADDRESS: u32 = 0x04;
pub const NETWORK_LINE: u32 = 0x05;
pub const P1_MIN: u32 = 0x06;
pub const P1_MAX: u32 = 0x07;
pub const P2_MIN: u32 = 0x08;
pub const P2_MAX: u32 = 0x09;
pub const P3_MIN: u32 = 0x0A;
pub const P3_MAX: u32 = 0x0B;
pub const P4_MIN: u32 = 0x0C;
pub const P4_MAX: u32 = 0x0D;
pub const W1: u32 = 0x0E;
pub const W2: u32 = 0x0F;
pub const W3: u32 = 0x10;
pub const W4: u32 = 0x11;
pub const W5: u32 = 0x12;
pub const TIDLE: u32 = 0x13;
pub const TINIL: u32 = 0x14;
pub const TWUP: u32 = 0x15;
pub const PARITY: u32 = 0x16;
pub const BIT_SAMPLE_POINT: u32 = 0x17;
pub const SYNC_JUMP_WIDTH: u32 = 0x18;
pub const W0: u32 = 0x19;
pub const T1_MAX: u32 = 0x1A;
pub const T2_MAX: u32 = 0x1B;
pub const T4_MAX: u32 = 0x1C;
pub const T5_MAX: u32 = 0x1D;
pub const ISO15765_BS: u32 = 0x1E;
pub const ISO15765_STMIN: u32 = 0x1F;
pub const DATA_BITS: u32 = 0x20;
pub const FIVE_BAUD_MOD: u32 = 0x21;
pub const BS_TX: u32 = 0x22;
pub const STMIN_TX: u32 = 0x23;
pub const T3_MAX: u32 = 0x24;
pub const ISO15765_WFT_MAX: u32 = 0x25;

// Status codes.
pub const STATUS_NOERROR: i32 = 0x00;
pub const ERR_NOT_SUPPORTED: i32 = 0x01;
pub const ERR_INVALID_CHANNEL_ID: i32 = 0x02;
pub const ERR_INVALID_PROTOCOL_ID: i32 = 0x03;
pub const ERR_NULL_PARAMETER: i32 = 0x04;
pub const ERR_INVALID_IOCTL_VALUE: i32 = 0x05;
pub const ERR_INVALID_FLAGS: i32 = 0x06;
pub const ERR_FAILED: i32 = 0x07;
pub const ERR_DEVICE_NOT_CONNECTED: i32 = 0x08;
pub const ERR_TIMEOUT: i32 = 0x09;
pub const ERR_INVALID_MSG: i32 = 0x0A;
pub const ERR_INVALID_TIME_INTERVAL: i32 = 0x0B;
pub const ERR_EXCEEDED_LIMIT: i32 = 0x0C;
pub const ERR_INVALID_MSG_ID: i32 = 0x0D;
pub const ERR_DEVICE_IN_USE: i32 = 0x0E;
pub const ERR_INVALID_IOCTL_ID: i32 = 0x0F;
pub const ERR_BUFFER_EMPTY: i32 = 0x10;
pub const ERR_BUFFER_FULL: i32 = 0x11;
pub const ERR_BUFFER_OVERFLOW: i32 = 0x12;
pub const ERR_PIN_INVALID: i32 = 0x13;
pub const ERR_CHANNEL_IN_USE: i32 = 0x14;
pub const ERR_MSG_PROTOCOL_ID: i32 = 0x15;
pub const ERR_INVALID_FILTER_ID: i32 = 0x16;
pub const ERR_NO_FLOW_CONTROL: i32 = 0x17;
pub const ERR_NOT_UNIQUE: i32 = 0x18;
pub const ERR_INVALID_BAUDRATE: i32 = 0x19;
pub const ERR_INVALID_DEVICE_ID: i32 = 0x1A;

// Receive status and message type flags.
pub const RX_CAN_29BIT_ID: u32 = 0x100;
pub const TX_MSG_TYPE: u32 = 0x01;

/// Whether a protocol carries a 4-byte arbitration id in front of each frame.
pub open spec fn spec_is_can_protocol(protocol_id: u32) -> bool {
    protocol_id == PROTOCOL_CAN || protocol_id == PROTOCOL_ISO15765
}

/// CAN and ISO 15765 frames carry a 4-byte arbitration id in front of the payload.
pub fn is_can_protocol(protocol_id: u32) -> (b: bool)
    ensures
        b == spec_is_can_protocol(protocol_id),
{
    protocol_id == PROTOCOL_CAN || protocol_id == PROTOCOL_ISO15765
}

/// Whether a protocol is one of the K-Line protocols (ISO 9141, ISO 14230).
pub open spec fn spec_is_kline_protocol(protocol_id: u32) -> bool {
    protocol_id == PROTOCOL_ISO9141 || protocol_id == PROTOCOL_ISO14230
}

/// ISO 9141 and ISO 14230 run over the K-Line.
pub fn is_kline_protocol(protocol_id: u32) -> (b: bool)
    ensures
        b == spec_is_kline_protocol(protocol_id),
{
    protocol_id == PROTOCOL_ISO9141 || protocol_id == PROTOCOL_ISO14230
}

/// The symbolic name of a J2534 status code.
pub open spec fn error_code_name(code: i32) -> Seq<char> {
    if code == 0 {
        "STATUS_NOERROR"@
    } else if code == 1 {
        "ERR_NOT_SUPPORTED"@
    } else if code == 2 {
        "ERR_INVALID_CHANNEL_ID"@
    } else if code == 3 {
        "ERR_INVALID_PROTOCOL_ID"@
    } else if code == 4 {
        "ERR_NULL_PARAMETER"@
    } else if code == 5 {
        "ERR_INVALID_IOCTL_VALUE"@
    } else if code == 6 {
        "ERR_INVALID_FLAGS"@
    } else if code == 7 {
        "ERR_FAILED"@
    } else if code == 8 {
        "ERR_DEVICE_NOT_CONNECTED"@
    } else if code == 9 {
        "ERR_TIMEOUT"@
    } else if code == 10 {
        "ERR_INVALID_MSG"@
    } else if code == 11 {
        "ERR_INVALID_TIME_INTERVAL"@
    } else if code == 12 {
        "ERR_EXCEEDED_LIMIT"@
    } else if code == 13 {
        "ERR_INVALID_MSG_ID"@
    } else if code == 14 {
        "ERR_DEVICE_IN_USE"@
    } else if code == 15 {
        "ERR_INVALID_IOCTL_ID"@
    } else if code == 16 {
        "ERR_BUFFER_EMPTY"@
    } else if code == 17 {
        "ERR_BUFFER_FULL"@
    } else if code == 18 {
        "ERR_BUFFER_OVERFLOW"@
    } else if code == 19 {
        "ERR_PIN_INVALID"@
    } else if code == 20 {
        "ERR_CHANNEL_IN_USE"@
    } else if code == 21 {
        "ERR_MSG_PROTOCOL_ID"@
    } else if code == 22 {
        "ERR_INVALID_FILTER_ID"@
    } else if code == 23 {
        "ERR_NO_FLOW_CONTROL"@
    } else if code == 24 {
        "ERR_NOT_UNIQUE"@
    } else if code == 25 {
        "ERR_INVALID_BAUDRATE"@
    } else if code == 26 {
        "ERR_INVALID_DEVICE_ID"@
    } else {
        "UNKNOWN_ERROR"@
    }
}

/// Get error code description
pub fn error_code_to_string(code: i32) -> (s: &'static str)
    ensures
        s@ == error_code_name(code),
{
    if code == STATUS_NOERROR {
        "STATUS_NOERROR"
    } else if code == ERR_NOT_SUPPORTED {
        "ERR_NOT_SUPPORTED"
    } else if code == ERR_INVALID_CHANNEL_ID {
        "ERR_INVALID_CHANNEL_ID"
    } else if code == ERR_INVALID_PROTOCOL_ID {
        "ERR_INVALID_PROTOCOL_ID"
    } else if code == ERR_NULL_PARAMETER {
        "ERR_NULL_PARAMETER"
    } else if code == ERR_INVALID_IOCTL_VALUE {
        "ERR_INVALID_IOCTL_VALUE"
    } else if code == ERR_INVALID_FLAGS {
        "ERR_INVALID_FLAGS"
    } else if code == ERR_FAILED {
        "ERR_FAILED"
    } else if code == ERR_DEVICE_NOT_CONNECTED {
        "ERR_DEVICE_NOT_CONNECTED"
    } else if code == ERR_TIMEOUT {
        "ERR_TIMEOUT"
    } else if code == ERR_INVALID_MSG {
        "ERR_INVALID_MSG"
    } else if code == ERR_INVALID_TIME_INTERVAL {
        "ERR_INVALID_TIME_INTERVAL"
    } else if code == ERR_EXCEEDED_LIMIT {
        "ERR_EXCEEDED_LIMIT"
    } else if code == ERR_INVALID_MSG_ID {
        "ERR_INVALID_MSG_ID"
    } else if code == ERR_DEVICE_IN_USE {
        "ERR_DEVICE_IN_USE"
    } else if code == ERR_INVALID_IOCTL_ID {
        "ERR_INVALID_IOCTL_ID"
    } else if code == ERR_BUFFER_EMPTY {
        "ERR_BUFFER_EMPTY"
    } else if code == ERR_BUFFER_FULL {
        "ERR_BUFFER_FULL"
    } else if code == ERR_BUFFER_OVERFLOW {
        "ERR_BUFFER_OVERFLOW"
    } else if code == ERR_PIN_INVALID {
        "ERR_PIN_INVALID"
    } else if code == ERR_CHANNEL_IN_USE {
        "ERR_CHANNEL_IN_USE"
    } else if code == ERR_MSG_PROTOCOL_ID {
        "ERR_MSG_PROTOCOL_ID"
    } else if code == ERR_INVALID_FILTER_ID {
        "ERR_INVALID_FILTER_ID"
    } else if code == ERR_NO_FLOW_CONTROL {
        "ERR_NO_FLOW_CONTROL"
    } else if code == ERR_NOT_UNIQUE {
        "ERR_NOT_UNIQUE"
    } else if code == ERR_INVALID_BAUDRATE {
        "ERR_INVALID_BAUDRATE"
    } else if code == ERR_INVALID_DEVICE_ID {
        "ERR_INVALID_DEVICE_ID"
    } else {
        "UNKNOWN_ERROR"
    }
}

/// The display name of a J2534 protocol identifier.
pub open spec fn protocol_name(id: u32) -> Seq<char> {
    if id == 1 {
        "J1850VPW"@
    } else if id == 2 {
        "J1850PWM"@
    } else if id == 3 {
        "ISO9141"@
    } else if id == 4 {
        "ISO14230"@
    } else if id == 5 {
        "CAN"@
    } else if id == 6 {
        "ISO15765"@
    } else if id == 7 {
        "SCI_A_ENGINE"@
    } else if id == 8 {
        "SCI_A_TRANS"@
    } else if id == 9 {
        "SCI_B_ENGINE"@
    } else if id == 10 {
        "SCI_B_TRANS"@
    } else {
        "UNKNOWN"@
    }
}

/// Get protocol name from ID
pub fn protocol_id_to_string(id: u32) -> (s: &'static str)
    ensures
        s@ == protocol_name(id),
{
    if id == PROTOCOL_J1850VPW {
        "J1850VPW"
    } else if id == PROTOCOL_J1850PWM {
        "J1850PWM"
    } else if id == PROTOCOL_ISO9141 {
        "ISO9141"
    } else if id == PROTOCOL_ISO14230 {
        "ISO14230"
    } else if id == PROTOCOL_CAN {
        "CAN"
    } else if id == PROTOCOL_ISO15765 {
        "ISO15765"
    } else if id == PROTOCOL_SCI_A_ENGINE {
        "SCI_A_ENGINE"
    } else if id == PROTOCOL_SCI_A_TRANS {
        "SCI_A_TRANS"
    } else if id == PROTOCOL_SCI_B_ENGINE {
        "SCI_B_ENGINE"
    } else if id == PROTOCOL_SCI_B_TRANS {
        "SCI_B_TRANS"
    } else {
        "UNKNOWN"
    }
}

/// Version strings reported by a device.
#[derive(Debug, Clone)]
pub struct J2534VersionInfo {
    pub firmware_version: String,
    pub dll_version: String,
    pub api_version: String,
}

/// Raw outcome of a read or write: the status code and the frame count.
#[derive(Debug, Clone, Copy)]
pub struct RawIoResult {
    pub result: i32,
    pub num_msgs: u32,
}

/// Bridge-internal result of a full K-Line init sequence.
#[derive(Debug, Clone)]
pub struct KlineInitResult {
    pub init_method: String,
    pub detected_protocol: String,
    pub keyword_bytes: Vec<u8>,
    pub cc_received: bool,
    pub init_response: Vec<frame::CANMessage>,
}

/// A step of connection set-up, reported to the caller as it happens.
#[derive(Debug, Clone)]
pub struct J2534Progress {
    pub step: String,
    /// "pending" | "in_progress" | "success" | "error"
    pub status: String,
    pub message: Option<String>,
}

/// A status code followed by its name in parentheses: `7 (ERR_FAILED)`.
pub open spec fn code_and_name(code: i32) -> Seq<char> {
    dec_signed(code as int) + " ("@ + error_code_name(code) + ")"@
}

/// An error message: `lead` followed by the code and its name.
pub fn status_error(lead: &str, code: i32) -> (s: String)
    ensures
        s@ == lead@ + code_and_name(code),
{
    let mut s = String::from_str(lead);
    push_signed(&mut s, code as i64);
    push_str(&mut s, " (");
    push_str(&mut s, error_code_to_string(code));
    push_str(&mut s, ")");
    assert(s@ =~= lead@ + code_and_name(code));
    s
}

/// The outcome of a driver call that hands back a value: the value when
/// the call returned `STATUS_NOERROR`, else the error `lead` + code and name.
pub fn checked_value(result: i32, value: u32, lead: &str) -> (r: Result<u32, String>)
    ensures
        match r {
            Ok(v) => result == STATUS_NOERROR && v == value,
            Err(e) => result != STATUS_NOERROR && e@ == lead@ + code_and_name(result),
        },
{
    if result != STATUS_NOERROR {
        return Err(status_error(lead, result));
    }
    Ok(value)
}

/// The outcome of a driver call that hands back nothing: success exactly
/// when it returned `STATUS_NOERROR`, else the error `lead` + code and name.
pub fn checked_call(result: i32, lead: &str) -> (r: Result<(), String>)
    ensures
        match r {
            Ok(_) => result == STATUS_NOERROR,
            Err(e) => result != STATUS_NOERROR && e@ == lead@ + code_and_name(result),
        },
{
    if result != STATUS_NOERROR {
        return Err(status_error(lead, result));
    }
    Ok(())
}

/// Whether a driver call succeeded.
pub fn is_status_ok(result: i32) -> (b: bool)
    ensures
        b == (result == STATUS_NOERROR),
{
    result == STATUS_NOERROR
}

/// The message for a PassThru entry point the driver does not export.
pub open spec fn missing_function_text(function: Seq<char>, detail: Seq<char>) -> Seq<char> {
    "ERR_J2534_FUNC_NOT_FOUND: "@ + function + " - "@ + detail
}

/// Error for a PassThru entry point the driver does not export; `detail`
/// is the loader's description of the failure.
pub fn missing_function_error(function: &str, detail: &str) -> (s: String)
    ensures
        s@ == missing_function_text(function@, detail@),
{
    let mut s = String::from_str("ERR_J2534_FUNC_NOT_FOUND: ");
    push_str(&mut s, function);
    push_str(&mut s, " - ");
    push_str(&mut s, detail);
    assert(s@ =~= missing_function_text(function@, detail@));
    s
}

/// Read results that still deliver frames: no error, empty buffer, timeout.
pub open spec fn read_status_ok(result: i32) -> bool {
    result == STATUS_NOERROR || result == ERR_BUFFER_EMPTY || result == ERR_TIMEOUT
}

/// Whether a read result still delivers frames.
pub fn is_read_status_ok(result: i32) -> (b: bool)
    ensures
        b == read_status_ok(result),
{
    result == STATUS_NOERROR || result == ERR_BUFFER_EMPTY || result == ERR_TIMEOUT
}

/// The text of an optional string.
pub open spec fn opt_text(o: Option<String>) -> Option<Seq<char>> {
    match o {
        Some(m) => Some(m@),
        None => None,
    }
}

/// `lead`, the status code with its name, then the driver's last error
/// text when it has one.
pub open spec fn failure_text(lead: Seq<char>, code: i32, last: Option<Seq<char>>) -> Seq<char> {
    lead + code_and_name(code) + match last {
        Some(t) => " - "@ + t,
        None => Seq::empty(),
    }
}

/// Error for a failed call, with the driver's last error text when known.
pub fn failure_error(lead: &str, code: i32, last: Option<String>) -> (s: String)
    ensures
        s@ == failure_text(lead@, code, opt_text(last)),
{
    let mut s = status_error(lead, code);
    let ghost lt = opt_text(last);
    match last {
        Some(t) => {
            push_str(&mut s, " - ");
            push_str(&mut s, t.as_str());
        },
        None => {},
    }
    assert(s@ =~= failure_text(lead@, code, lt));
    s
}

/// The driver's last error text: none when the query failed or the text is
/// blank, otherwise the C string of the buffer without surrounding whitespace.
pub open spec fn last_error_of(result: i32, buffer: Seq<i8>) -> Option<Seq<char>> {
    if result != STATUS_NOERROR {
        None
    } else {
        let t = trimmed(lossy_utf8(c_bytes(buffer)));
        if t.len() == 0 { None } else { Some(t) }
    }
}

/// Interprets the outcome of PassThruGetLastError when the text is only a
/// detail of another error.
pub fn last_error_text(result: i32, buffer: &[i8]) -> (t: Option<String>)
    ensures
        opt_text(t) == last_error_of(result, buffer@),
{
    if result != STATUS_NOERROR {
        return None;
    }
    let raw = c_string(buffer);
    let t = trim_text(raw.as_str());
    if t.as_str().unicode_len() == 0 {
        None
    } else {
        Some(t)
    }
}

} // verus!
