//! Wire protocol between the host application and the bridge process:
//! requests, responses and the data they carry. Each message travels as one
//! JSON object per line; the JSON encoding itself lives with the I/O code.

use vstd::prelude::*;
use crate::j2534::frame::CanFrame;

verus! {

/// Request from the main app to the bridge
#[derive(Debug, Clone)]
pub enum Request {
    /// List available J2534 devices
    EnumerateDevices,
    /// Open a connection to a device.
    /// connect_flags: raw J2534 connect flags (0x800 = CAN_ID_BOTH, 0x100 = CAN_29BIT_ID, 0 = 11-bit only).
    /// Defaults to 0 if omitted.
    Open { dll_path: String, protocol_id: u32, baud_rate: u32, connect_flags: u32 },
    /// Close the current connection
    Close,
    /// Send a CAN message
    SendMessage { arb_id: u32, data: Vec<u8>, extended: bool },
    /// Send multiple CAN messages in a single PassThruWriteMsgs call
    SendMessagesBatch { messages: Vec<BatchMessage> },
    /// Send messages with a custom timeout and return raw result info
    WriteMessagesRaw { messages: Vec<BatchMessage>, timeout_ms: u32 },
    /// Read messages with drain loop for high-throughput capture.
    ReadMessages { timeout_ms: u32, batch_size: u32, max_drain_reads: u32 },
    /// Read messages including loopback echoes (for sanity testing)
    ReadMessagesWithLoopback { timeout_ms: u32 },
    /// Read messages and return raw J2534 result code + count (for spec testing)
    ReadMessagesRaw { timeout_ms: u32, max_msgs: u32 },
    /// Clear TX and RX buffers
    ClearBuffers,
    /// Read version information
    ReadVersion,
    /// Get last error string
    GetLastError,
    /// Read battery voltage
    ReadBatteryVoltage,
    /// Read programming voltage
    ReadProgrammingVoltage,
    /// Perform ISO/K-Line fast init and return the reply message
    FastInit { data: Vec<u8> },
    /// Perform ISO/K-Line five-baud init and return the reply message
    FiveBaudInit { data: Vec<u8> },
    /// Full K-Line autodetection and initialization (fast/slow/auto)
    KlineInit {
        init_mode: KlineInitMode,
        fast_init_data: Option<Vec<u8>>,
        five_baud_address: Option<Vec<u8>>,
        cc_timeout_ms: Option<u32>,
    },
    /// Start a periodic message
    StartPeriodicMessage { arb_id: u32, data: Vec<u8>, interval_ms: u32, extended: bool },
    /// Stop a periodic message
    StopPeriodicMessage { msg_id: u32 },
    /// Clear all periodic messages
    ClearPeriodicMessages,
    /// Add a message filter
    AddFilter { filter_type: String, mask: Vec<u8>, pattern: Vec<u8>, extended: bool },
    /// Add a message filter with raw mask/pattern sizes (for spec testing)
    AddFilterRaw { filter_type: String, mask: Vec<u8>, pattern: Vec<u8>, extended: bool },
    /// Remove a message filter
    RemoveFilter { filter_id: u32 },
    /// Clear all filters
    ClearFilters,
    /// Get a configuration parameter
    GetConfig { parameter: u32 },
    /// Set a configuration parameter
    SetConfig { parameter: u32, value: u32 },
    /// Get loopback setting
    GetLoopback,
    /// Set loopback setting
    SetLoopback { enabled: bool },
    /// Get current data rate
    GetDataRate,
    /// Shutdown the bridge process
    Shutdown,
}

/// Batch size used by `ReadMessages` when the request omits it.
pub fn default_batch_size() -> (n: u32)
    ensures
        n == 256,
{
    256
}

/// Drain-read count used by `ReadMessages` when the request omits it.
pub fn default_max_drain_reads() -> (n: u32)
    ensures
        n == 64,
{
    64
}

/// Protocol id assumed for a message that does not state one (CAN).
pub fn default_protocol_can() -> (n: u32)
    ensures
        n == 5,
{
    5
}

/// Response from the bridge to the main app
#[derive(Debug, Clone)]
pub enum Response {
    Success { data: ResponseData },
    Error { code: i32, message: String },
}

/// K-Line initialization mode
#[derive(Debug, Clone, Copy, PartialEq, Eq, Structural)]
pub enum KlineInitMode {
    Fast,
    Slow,
    Auto,
}

/// Result of a server-side KlineInit command
#[derive(Debug, Clone)]
pub struct KlineInitResult {
    /// Which method succeeded: "fast" or "slow"
    pub init_method: String,
    /// Detected protocol: "iso14230-fast", "iso9141", "iso14230-slow"
    pub detected_protocol: String,
    /// Keyword bytes from five-baud init (empty for fast init)
    pub keyword_bytes: Vec<u8>,
    /// Whether the ECU's 0xCC acknowledgment was received (slow init only)
    pub cc_received: bool,
    /// The init IOCTL response, plus any post-init frames (e.g. CC byte)
    pub init_response: Vec<CanMessage>,
}

/// Data payload for successful responses
#[derive(Debug, Clone)]
pub enum ResponseData {
    Empty,
    Devices(Vec<DeviceInfo>),
    Connected,
    Messages(Vec<CanMessage>),
    KlineInit(KlineInitResult),
    RawIo(RawIoResult),
    Version(VersionInfo),
    String(String),
    Number(u32),
    /// A floating-point value (a voltage in volts), carried as the IEEE-754
    /// bit pattern of the `f64`.
    Float(u64),
    Bool(bool),
}

/// Raw J2534 result payload
#[derive(Debug, Clone, Copy)]
pub struct RawIoResult {
    pub result: i32,
    pub num_msgs: u32,
}

/// J2534 device information
#[derive(Debug, Clone)]
pub struct DeviceInfo {
    pub name: String,
    pub vendor: String,
    pub dll_path: String,
    pub can_iso15765: bool,
    pub can_iso11898: bool,
    pub compatible: bool,
    pub bitness: u8,
    pub available: bool,
    pub unavailable_reason: Option<String>,
    pub api_version: String,
}

/// CAN / K-Line message
#[derive(Debug, Clone)]
pub struct CanMessage {
    pub timestamp_us: u64,
    pub arb_id: u32,
    pub extended: bool,
    pub data: Vec<u8>,
    pub raw_arb_id: u32,
    pub rx_status: u32,
    pub data_size: u32,
    /// J2534 protocol ID (5=CAN, 3=ISO9141, 4=ISO14230, etc.)
    pub protocol_id: u32,
}

impl View for CanMessage {
    type V = CanFrame;

    open spec fn view(&self) -> CanFrame {
        CanFrame {
            timestamp_us: self.timestamp_us,
            arb_id: self.arb_id,
            extended: self.extended,
            data: self.data@,
            raw_arb_id: self.raw_arb_id,
            rx_status: self.rx_status,
            data_size: self.data_size,
            protocol_id: self.protocol_id,
        }
    }
}

/// Models of a sequence of messages.
pub open spec fn can_views(v: Seq<CanMessage>) -> Seq<CanFrame> {
    v.map_values(|m: CanMessage| m@)
}

/// Message for batch sending
#[derive(Debug, Clone)]
pub struct BatchMessage {
    pub arb_id: u32,
    pub data: Vec<u8>,
    pub extended: bool,
}

/// Version information
#[derive(Debug, Clone)]
pub struct VersionInfo {
    pub firmware_version: String,
    pub dll_version: String,
    pub api_version: String,
}

/// Wrapper for messages that include an ID for request/response matching
#[derive(Debug, Clone)]
pub struct Message<T> {
    pub id: u64,
    pub payload: T,
}

impl Response {
    /// A successful response carrying `data`.
    pub fn ok(data: ResponseData) -> (r: Response)
        ensures
            r == (Response::Success { data }),
    {
        Response::Success { data }
    }

    /// A successful response without a payload.
    pub fn ok_none() -> (r: Response)
        ensures
            r == (Response::Success { data: ResponseData::Empty }),
    {
        Response::Success { data: ResponseData::Empty }
    }

    /// An error response with the given code and message.
    pub fn error(code: i32, message: String) -> (r: Response)
        ensures
            r == (Response::Error { code, message }),
    {
        Response::Error { code, message }
    }
}

} // verus!
