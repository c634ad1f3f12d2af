//! The bridge's I/O worker: its configuration, the receive buffer that the
//! pump fills and `ReadMessages` drains, and the mapping of requests onto
//! connection operations and of their outcomes onto responses.

use vstd::prelude::*;
use std::collections::VecDeque;
use crate::protocol::{
    CanMessage, can_views, VersionInfo, RawIoResult as ProtocolRawIoResult, KlineInitResult, Request, Response,
    ResponseData, BatchMessage, KlineInitMode,
};
use crate::j2534::{J2534VersionInfo, RawIoResult, KlineInitResult as J2534KlineInitResult, PASS_FILTER, BLOCK_FILTER, FLOW_CONTROL_FILTER};
use crate::j2534::frame::{CANMessage, CanFrame};
use crate::j2534::drain::{message_views, clamp};
use crate::text::str_equals;
use crate::dump::parse::{digit_value, digit_of};
use vstd::string::*;

verus! {

pub const DEFAULT_RX_CAPACITY: usize = 65_536;
pub const DEFAULT_POLL_INTERVAL_MS: u64 = 2;
pub const DEFAULT_PUMP_BATCH_SIZE: u32 = 256;
pub const DEFAULT_PUMP_MAX_DRAIN_READS: u32 = 16;
pub const MAX_BATCH_SIZE: usize = 256;
pub const MAX_DRAIN_READS: usize = 256;

/// Worker settings, from the environment or the defaults.
#[derive(Debug, Clone, Copy)]
pub struct WorkerConfig {
    pub rx_capacity: usize,
    pub poll_interval_ms: u64,
    pub pump_batch_size: u32,
    pub pump_max_drain_reads: u32,
}

impl WorkerConfig {
    /// Settings from optional overrides: the receive capacity and the poll
    /// interval are at least 1, the pump batch size and drain-read count are
    /// clamped to 1..=256; a missing value takes its default.
    pub fn from_env(
        rx_capacity: Option<usize>,
        poll_interval_ms: Option<u64>,
        pump_batch_size: Option<u32>,
        pump_max_drain_reads: Option<u32>,
    ) -> (c: WorkerConfig)
        ensures
            c.rx_capacity == (match rx_capacity { Some(v) => if v < 1 { 1 } else { v }, None => DEFAULT_RX_CAPACITY }),
            c.poll_interval_ms == (match poll_interval_ms { Some(v) => if v < 1 { 1 } else { v }, None => DEFAULT_POLL_INTERVAL_MS }),
            c.pump_batch_size == clamp(match pump_batch_size { Some(v) => v, None => DEFAULT_PUMP_BATCH_SIZE }, 1, 256),
            c.pump_max_drain_reads == clamp(match pump_max_drain_reads { Some(v) => v, None => DEFAULT_PUMP_MAX_DRAIN_READS }, 1, 256),
    {
        let cap = match rx_capacity { Some(v) => v, None => DEFAULT_RX_CAPACITY };
        let poll = match poll_interval_ms { Some(v) => v, None => DEFAULT_POLL_INTERVAL_MS };
        let batch = match pump_batch_size { Some(v) => v, None => DEFAULT_PUMP_BATCH_SIZE };
        let drain = match pump_max_drain_reads { Some(v) => v, None => DEFAULT_PUMP_MAX_DRAIN_READS };
        WorkerConfig {
            rx_capacity: if cap < 1 { 1 } else { cap },
            poll_interval_ms: if poll < 1 { 1 } else { poll },
            pump_batch_size: if batch < 1 { 1 } else if batch > 256 { 256 } else { batch },
            pump_max_drain_reads: if drain < 1 { 1 } else if drain > 256 { 256 } else { drain },
        }
    }
}

/// The decimal digits of a text read as a number, or `None` when some
/// character is not a decimal digit (empty text reads as 0).
pub open spec fn decimal_value(s: Seq<char>) -> Option<nat>
    decreases s.len(),
{
    if s.len() == 0 {
        Some(0)
    } else {
        match (decimal_value(s.drop_last()), digit_value(s.last(), 10)) {
            (Some(v), Some(d)) => Some(v * 10 + d),
            _ => None,
        }
    }
}

/// An unsigned integer as `str::parse` reads it for a type whose largest
/// value is `max`: one optional leading `+`, then one or more decimal
/// digits and nothing else, with a value of at most `max`.
pub open spec fn unsigned_text_value(s: Seq<char>, max: nat) -> Option<nat> {
    let body = if s.len() > 0 && s[0] == '+' { s.drop_first() } else { s };
    if body.len() == 0 {
        None
    } else {
        match decimal_value(body) {
            Some(v) => if v <= max { Some(v) } else { None },
            None => None,
        }
    }
}

/// A prefix of a text of digits is a text of digits, of no greater value.
proof fn lemma_decimal_prefix(s: Seq<char>, k: int)
    requires
        0 <= k <= s.len(),
        decimal_value(s) is Some,
    ensures
        decimal_value(s.take(k)) is Some,
        decimal_value(s.take(k))->0 <= decimal_value(s)->0,
    decreases s.len(),
{
    if k == s.len() {
        assert(s.take(k) =~= s);
    } else {
        lemma_decimal_prefix(s.drop_last(), k);
        assert(s.drop_last().take(k) =~= s.take(k));
    }
}

fn unsigned_from_text(s: &str, max: u64) -> (r: Option<u64>)
    ensures
        match r {
            Some(v) => unsigned_text_value(s@, max as nat) == Some(v as nat),
            None => unsigned_text_value(s@, max as nat) is None,
        },
{
    let n = s.unicode_len();
    let start: usize = if n > 0 && s.get_char(0) == '+' { 1 } else { 0 };
    let ghost body = s@.skip(start as int);
    assert(body =~= (if s@.len() > 0 && s@[0] == '+' { s@.drop_first() } else { s@ }));
    if start == n {
        return None;
    }
    let mut acc: u64 = 0;
    let mut i: usize = start;
    assert(body.take(0) =~= Seq::<char>::empty());
    while i < n
        invariant
            n == s@.len(),
            start <= i <= n,
            body == s@.skip(start as int),
            body == (if s@.len() > 0 && s@[0] == '+' { s@.drop_first() } else { s@ }),
            body.len() > 0,
            decimal_value(body.take(i - start)) == Some(acc as nat),
            acc <= max,
        decreases n - i,
    {
        let ghost k: int = i - start;
        assert(body.take(k + 1).drop_last() =~= body.take(k));
        assert(body.take(k + 1).last() == s@[i as int]);
        let c = s.get_char(i);
        match digit_of(c, 10) {
            None => {
                proof {
                    if decimal_value(body) is Some {
                        lemma_decimal_prefix(body, k + 1);
                    }
                }
                return None;
            },
            Some(d) => {
                let next: u128 = (acc as u128) * 10 + (d as u128);
                if next > max as u128 {
                    proof {
                        if decimal_value(body) is Some {
                            lemma_decimal_prefix(body, k + 1);
                        }
                    }
                    return None;
                }
                acc = next as u64;
            },
        }
        i = i + 1;
    }
    assert(body.take(n - start) =~= body);
    Some(acc)
}

/// A `u32` setting from the text of its environment variable, if set.
pub fn env_value_u32(text: Option<&str>) -> (r: Option<u32>)
    ensures
        r == match text {
            Some(t) => match unsigned_text_value(t@, u32::MAX as nat) {
                Some(v) => Some(v as u32),
                None => None,
            },
            None => None::<u32>,
        },
{
    match text {
        Some(t) => match unsigned_from_text(t, 0xFFFF_FFFF) {
            Some(v) => Some(v as u32),
            None => None,
        },
        None => None,
    }
}

/// A `u64` setting from the text of its environment variable, if set.
pub fn env_value_u64(text: Option<&str>) -> (r: Option<u64>)
    ensures
        r == match text {
            Some(t) => match unsigned_text_value(t@, u64::MAX as nat) {
                Some(v) => Some(v as u64),
                None => None,
            },
            None => None::<u64>,
        },
{
    match text {
        Some(t) => unsigned_from_text(t, 0xFFFF_FFFF_FFFF_FFFF),
        None => None,
    }
}

/// A `usize` setting from the text of its environment variable, if set.
pub fn env_value_usize(text: Option<&str>) -> (r: Option<usize>)
    ensures
        r == match text {
            Some(t) => match unsigned_text_value(t@, usize::MAX as nat) {
                Some(v) => Some(v as usize),
                None => None,
            },
            None => None::<usize>,
        },
{
    match text {
        Some(t) => match unsigned_from_text(t, usize::MAX as u64) {
            Some(v) => Some(v as usize),
            None => None,
        },
        None => None,
    }
}

/// Overflow statistics of the receive buffer.
#[derive(Debug, Clone, Copy)]
pub struct RxBufferStats {
    pub dropped_frames: u64,
    pub high_water_mark: usize,
}

impl Default for RxBufferStats {
    fn default() -> (s: Self)
        ensures
            s.dropped_frames == 0,
            s.high_water_mark == 0,
    {
        RxBufferStats { dropped_frames: 0, high_water_mark: 0 }
    }
}

/// Appending one message to a buffer of the given capacity: when the buffer
/// is exactly full its oldest message is dropped first.
pub open spec fn push_one(b: Seq<CanMessage>, capacity: nat, m: CanMessage) -> (Seq<CanMessage>, nat) {
    if b.len() == capacity {
        ((if b.len() > 0 { b.drop_first() } else { b }).push(m), 1)
    } else {
        (b.push(m), 0)
    }
}

/// Appending messages in order: the buffer after, and how many were dropped.
pub open spec fn push_fold(b: Seq<CanMessage>, capacity: nat, ms: Seq<CanMessage>) -> (Seq<CanMessage>, nat)
    decreases ms.len(),
{
    if ms.len() == 0 {
        (b, 0)
    } else {
        let (mid, d1) = push_fold(b, capacity, ms.drop_last());
        let (after, d2) = push_one(mid, capacity, ms.last());
        (after, d1 + d2)
    }
}

/// A drop count at which an overflow notice is due: the first drop and
/// every power of two.
pub open spec fn notice_due(d: u64) -> bool {
    d == 1 || (d != 0 && d & ((d - 1) as u64) == 0)
}

/// The drop counts in `(from, to]` at which a notice is due, in order.
pub open spec fn notices_between(from: nat, to: nat) -> Seq<u64>
    decreases to,
{
    if to <= from {
        Seq::empty()
    } else {
        let earlier = notices_between(from, (to - 1) as nat);
        if notice_due(to as u64) { earlier.push(to as u64) } else { earlier }
    }
}

fn is_notice_due(d: u64) -> (b: bool)
    ensures
        b == notice_due(d),
{
    d == 1 || (d != 0 && d & (d - 1) == 0)
}

/// Appends received messages to the receive buffer, dropping the oldest
/// message whenever the buffer is exactly full. Returns the drop counts at
/// which an overflow notice is due (the first drop and each power of two).
pub fn push_messages(
    rx_buffer: &mut VecDeque<CanMessage>,
    stats: &mut RxBufferStats,
    capacity: usize,
    messages: Vec<CanMessage>,
) -> (notices: Vec<u64>)
    requires
        old(stats).dropped_frames + messages@.len() <= u64::MAX,
        old(rx_buffer)@.len() + messages@.len() <= usize::MAX,
    ensures
        messages@.len() == 0 ==> final(rx_buffer)@ == old(rx_buffer)@ && *final(stats) == *old(stats) && notices@.len() == 0,
        messages@.len() > 0 ==> ({
            let (after, dropped) = push_fold(old(rx_buffer)@, capacity as nat, messages@);
            &&& final(rx_buffer)@ == after
            &&& final(stats).dropped_frames == old(stats).dropped_frames + dropped
            &&& final(stats).high_water_mark == (if old(stats).high_water_mark >= after.len() { old(stats).high_water_mark as int } else { after.len() as int })
            &&& notices@ == notices_between(old(stats).dropped_frames as nat, final(stats).dropped_frames as nat)
        }),
{
    let mut notices: Vec<u64> = Vec::new();
    if messages.len() == 0 {
        return notices;
    }
    let ghost ms = messages@;
    let ghost b0 = rx_buffer@;
    let ghost d0 = stats.dropped_frames;
    let mut stack: Vec<CanMessage> = Vec::new();
    let mut rest = messages;
    while rest.len() > 0
        invariant
            rest@.len() + stack@.len() == ms.len(),
            rest@ == ms.take(rest@.len() as int),
            forall|i: int| 0 <= i < stack@.len() ==> #[trigger] stack@[i] == ms[ms.len() - 1 - i],
        decreases rest@.len(),
    {
        let m = rest.pop().unwrap();
        stack.push(m);
        assert(rest@ =~= ms.take(rest@.len() as int));
    }
    let mut taken: usize = 0;
    while stack.len() > 0
        invariant
            taken + stack@.len() == ms.len(),
            forall|i: int| 0 <= i < stack@.len() ==> #[trigger] stack@[i] == ms[ms.len() - 1 - i],
            ({
                let (after, dropped) = push_fold(b0, capacity as nat, ms.take(taken as int));
                &&& rx_buffer@ == after
                &&& stats.dropped_frames == d0 + dropped
                &&& dropped <= taken
                &&& after.len() <= b0.len() + taken
            }),
            notices@ == notices_between(d0 as nat, stats.dropped_frames as nat),
            d0 + ms.len() <= u64::MAX,
            b0.len() + ms.len() <= usize::MAX,
            stats.high_water_mark == old(stats).high_water_mark,
        decreases stack@.len(),
    {
        let m = stack.pop().unwrap();
        assert(ms[taken as int] == m);
        assert(ms.take(taken + 1).drop_last() =~= ms.take(taken as int));
        assert(ms.take(taken + 1).last() == m);
        if rx_buffer.len() == capacity {
            let _ = rx_buffer.pop_front();
            stats.dropped_frames = stats.dropped_frames + 1;
            if is_notice_due(stats.dropped_frames) {
                notices.push(stats.dropped_frames);
            }
        }
        rx_buffer.push_back(m);
        taken = taken + 1;
    }
    assert(ms.take(taken as int) =~= ms);
    if rx_buffer.len() > stats.high_water_mark {
        stats.high_water_mark = rx_buffer.len();
    }
    notices
}

/// Messages beyond the capacity.
pub open spec fn excess(total: nat, capacity: nat) -> nat {
    if total > capacity { (total - capacity) as nat } else { 0 }
}

/// With a capacity of at least one and a buffer within it, appending
/// messages keeps the newest `capacity` messages of the buffer followed by
/// the new ones, in arrival order, and counts the others as dropped.
pub proof fn lemma_push_keeps_newest(b: Seq<CanMessage>, capacity: nat, ms: Seq<CanMessage>)
    requires
        capacity >= 1,
        b.len() <= capacity,
    ensures
        push_fold(b, capacity, ms) == ((b + ms).skip(excess((b + ms).len(), capacity) as int), excess((b + ms).len(), capacity)),
    decreases ms.len(),
{
    if ms.len() > 0 {
        let prev = ms.drop_last();
        lemma_push_keeps_newest(b, capacity, prev);
        let e = excess((b + prev).len(), capacity);
        let mid = (b + prev).skip(e as int);
        let x = ms.last();
        assert(b + ms =~= (b + prev).push(x));
        if mid.len() == capacity {
            assert(mid.drop_first().push(x) =~= (b + ms).skip((e + 1) as int));
        } else {
            assert(mid.push(x) =~= (b + ms).skip(0));
        }
    } else {
        assert(b + ms =~= b);
        assert(b.skip(0) =~= b);
    }
}

/// Takes up to `max_messages` messages from the front of the buffer.
pub fn drain_buffer(rx_buffer: &mut VecDeque<CanMessage>, max_messages: usize) -> (messages: Vec<CanMessage>)
    ensures
        ({
            let count = if old(rx_buffer)@.len() <= max_messages { old(rx_buffer)@.len() as int } else { max_messages as int };
            &&& messages@ == old(rx_buffer)@.take(count)
            &&& final(rx_buffer)@ == old(rx_buffer)@.skip(count)
        }),
{
    let count = if rx_buffer.len() <= max_messages { rx_buffer.len() } else { max_messages };
    let mut messages: Vec<CanMessage> = Vec::new();
    let mut i: usize = 0;
    while i < count
        invariant
            count <= old(rx_buffer)@.len(),
            i <= count,
            messages@ == old(rx_buffer)@.take(i as int),
            rx_buffer@ == old(rx_buffer)@.skip(i as int),
        decreases count - i,
    {
        let m = rx_buffer.pop_front().unwrap();
        messages.push(m);
        i = i + 1;
        assert(messages@ =~= old(rx_buffer)@.take(i as int));
        assert(rx_buffer@ =~= old(rx_buffer)@.skip(i as int));
    }
    messages
}

/// Messages a `ReadMessages` request may return: the batch size and the
/// drain-read count, each clamped to 1..=256, multiplied.
pub fn compute_read_limit(batch_size: u32, max_drain_reads: u32) -> (n: usize)
    ensures
        n == clamp(batch_size, 1, 256) * clamp(max_drain_reads, 1, 256),
        1 <= n <= 65536,
{
    let b: usize = if batch_size < 1 { 1 } else if batch_size > 256 { 256 } else { batch_size as usize };
    let d: usize = if max_drain_reads < 1 { 1 } else if max_drain_reads > 256 { 256 } else { max_drain_reads as usize };
    assert(1 <= b * d <= 65536) by (nonlinear_arith)
        requires
            1 <= b <= 256,
            1 <= d <= 256,
    ;
    b * d
}

/// The filter type named on the wire: `pass`, `block` or `flow_control`.
pub open spec fn filter_type_code(name: Seq<char>) -> Option<u32> {
    if name == "pass"@ {
        Some(PASS_FILTER)
    } else if name == "block"@ {
        Some(BLOCK_FILTER)
    } else if name == "flow_control"@ {
        Some(FLOW_CONTROL_FILTER)
    } else {
        None
    }
}

/// Parses the filter type of an `AddFilter` request.
pub fn parse_filter_type(filter_type: &str) -> (r: Result<u32, String>)
    ensures
        match r {
            Ok(code) => filter_type_code(filter_type@) == Some(code),
            Err(e) => filter_type_code(filter_type@).is_none() && e@ == "Invalid filter type"@,
        },
{
    if str_equals(filter_type, "pass") {
        Ok(PASS_FILTER)
    } else if str_equals(filter_type, "block") {
        Ok(BLOCK_FILTER)
    } else if str_equals(filter_type, "flow_control") {
        Ok(FLOW_CONTROL_FILTER)
    } else {
        Err(String::from_str("Invalid filter type"))
    }
}

/// A decoded frame as a wire message, field for field.
pub fn map_can_message(message: CANMessage) -> (m: CanMessage)
    ensures
        m@ == message@,
{
    CanMessage {
        timestamp_us: message.timestamp_us,
        arb_id: message.arb_id,
        extended: message.extended,
        data: message.data,
        raw_arb_id: message.raw_arb_id,
        rx_status: message.rx_status,
        data_size: message.data_size,
        protocol_id: message.protocol_id,
    }
}

/// Decoded frames as wire messages, in the same order.
pub fn map_messages(messages: Vec<CANMessage>) -> (out: Vec<CanMessage>)
    ensures
        can_views(out@) == message_views(messages@),
{
    let ghost ms = messages@;
    let mut rest = messages;
    let mut stack: Vec<CANMessage> = Vec::new();
    while rest.len() > 0
        invariant
            rest@.len() + stack@.len() == ms.len(),
            rest@ == ms.take(rest@.len() as int),
            forall|i: int| 0 <= i < stack@.len() ==> #[trigger] stack@[i] == ms[ms.len() - 1 - i],
        decreases rest@.len(),
    {
        let m = rest.pop().unwrap();
        stack.push(m);
        assert(rest@ =~= ms.take(rest@.len() as int));
    }
    let mut out: Vec<CanMessage> = Vec::new();
    while stack.len() > 0
        invariant
            out@.len() + stack@.len() == ms.len(),
            forall|i: int| 0 <= i < stack@.len() ==> #[trigger] stack@[i] == ms[ms.len() - 1 - i],
            can_views(out@) == message_views(ms.take(out@.len() as int)),
        decreases stack@.len(),
    {
        let m = stack.pop().unwrap();
        let ghost k = out@.len() as int;
        assert(ms[k] == m);
        let ghost before = out@;
        let mapped = map_can_message(m);
        out.push(mapped);
        assert(ms.take(k + 1) =~= ms.take(k).push(m));
        assert(can_views(out@) =~= can_views(before).push(mapped@));
        assert(message_views(ms.take(k + 1)) =~= message_views(ms.take(k)).push(m@));
    }
    assert(ms.take(ms.len() as int) =~= ms);
    out
}

/// Device version strings as a wire payload.
pub fn map_version_info(version: J2534VersionInfo) -> (v: VersionInfo)
    ensures
        v.firmware_version@ == version.firmware_version@,
        v.dll_version@ == version.dll_version@,
        v.api_version@ == version.api_version@,
{
    VersionInfo {
        firmware_version: version.firmware_version,
        dll_version: version.dll_version,
        api_version: version.api_version,
    }
}

/// A raw status/count pair as a wire payload.
pub fn map_raw_io(raw: RawIoResult) -> (r: ProtocolRawIoResult)
    ensures
        r.result == raw.result,
        r.num_msgs == raw.num_msgs,
{
    ProtocolRawIoResult { result: raw.result, num_msgs: raw.num_msgs }
}

/// A K-Line init result as a wire payload.
pub fn map_kline_init_result(result: J2534KlineInitResult) -> (r: KlineInitResult)
    ensures
        r.init_method@ == result.init_method@,
        r.detected_protocol@ == result.detected_protocol@,
        r.keyword_bytes@ == result.keyword_bytes@,
        r.cc_received == result.cc_received,
        can_views(r.init_response@) == message_views(result.init_response@),
{
    KlineInitResult {
        init_method: result.init_method,
        detected_protocol: result.detected_protocol,
        keyword_bytes: result.keyword_bytes,
        cc_received: result.cc_received,
        init_response: map_messages(result.init_response),
    }
}

/// A connection operation the worker performs for a request.
#[derive(Debug)]
pub enum WorkerOp {
    /// Wait up to `timeout_ms` for buffered frames, pump once, then answer
    /// with at most `max_messages` buffered frames.
    ReadBuffered { timeout_ms: u32, max_messages: usize },
    ReadWithLoopback { timeout_ms: u32 },
    ReadRaw { timeout_ms: u32, max_msgs: u32 },
    /// Clear the driver's buffers, and on success the receive buffer too.
    ClearBuffers,
    SendMessage { arb_id: u32, data: Vec<u8>, extended: bool },
    SendBatch { messages: Vec<BatchMessage> },
    WriteRaw { messages: Vec<BatchMessage>, timeout_ms: u32 },
    ReadVersion,
    GetLastError,
    ReadBatteryVoltage,
    ReadProgrammingVoltage,
    FastInit { data: Vec<u8> },
    FiveBaudInit { data: Vec<u8> },
    KlineInit {
        mode: &'static str,
        fast_init_data: Option<Vec<u8>>,
        five_baud_address: Option<Vec<u8>>,
        cc_timeout_ms: u32,
    },
    StartPeriodic { arb_id: u32, data: Vec<u8>, interval_ms: u32, extended: bool },
    StopPeriodic { msg_id: u32 },
    ClearPeriodic,
    AddFilter { filter_type: u32, mask: Vec<u8>, pattern: Vec<u8>, extended: bool },
    AddFilterRaw { filter_type: u32, mask: Vec<u8>, pattern: Vec<u8>, extended: bool },
    RemoveFilter { filter_id: u32 },
    ClearFilters,
    GetConfig { parameter: u32 },
    SetConfig { parameter: u32, value: u32 },
    GetLoopback,
    SetLoopback { enabled: bool },
    GetDataRate,
}

/// What the worker does with a request.
#[derive(Debug)]
pub enum WorkerStep {
    /// Answer at once and keep serving.
    Reply(Response),
    /// Answer and stop the worker.
    Finish(Response),
    /// Perform the operation, then answer with its outcome.
    Run(WorkerOp),
}

/// The mode name the connection's K-Line init takes.
pub open spec fn kline_mode_text(m: KlineInitMode) -> Seq<char> {
    match m {
        KlineInitMode::Fast => "fast"@,
        KlineInitMode::Slow => "slow"@,
        KlineInitMode::Auto => "auto"@,
    }
}

/// The mode name of a K-Line init mode.
pub fn kline_mode_name(m: KlineInitMode) -> (s: &'static str)
    ensures
        s@ == kline_mode_text(m),
{
    match m {
        KlineInitMode::Fast => "fast",
        KlineInitMode::Slow => "slow",
        KlineInitMode::Auto => "auto",
    }
}

/// An error response with code -1.
pub open spec fn failure(message: String) -> Response {
    Response::Error { code: -1i32, message }
}

/// The answer to an invalid filter type.
pub open spec fn is_filter_type_error(step: WorkerStep) -> bool {
    step matches WorkerStep::Reply(Response::Error { code, message }) && code == -1 && message@ == "Invalid filter type"@
}

/// Decides how the worker serves a request. Device enumeration and opening
/// belong to the control thread; closing and shutting down stop the worker;
/// everything else becomes one connection operation (an `AddFilter` with an
/// unknown filter type is answered at once).
pub fn plan_worker_request(request: Request) -> (step: WorkerStep)
    ensures
        match request {
            Request::EnumerateDevices | Request::Open { .. } => step matches WorkerStep::Reply(Response::Error { code, message })
                && code == -1 && message@ == "Request must be handled by the bridge control thread"@,
            Request::Close | Request::Shutdown => step == WorkerStep::Finish(Response::Success { data: ResponseData::Empty }),
            Request::ReadMessages { timeout_ms, batch_size, max_drain_reads } => step == WorkerStep::Run(WorkerOp::ReadBuffered {
                timeout_ms,
                max_messages: (clamp(batch_size, 1, 256) * clamp(max_drain_reads, 1, 256)) as usize,
            }),
            Request::ReadMessagesWithLoopback { timeout_ms } => step == WorkerStep::Run(WorkerOp::ReadWithLoopback { timeout_ms }),
            Request::ReadMessagesRaw { timeout_ms, max_msgs } => step == WorkerStep::Run(WorkerOp::ReadRaw { timeout_ms, max_msgs }),
            Request::ClearBuffers => step == WorkerStep::Run(WorkerOp::ClearBuffers),
            Request::SendMessage { arb_id, data, extended } => step == WorkerStep::Run(WorkerOp::SendMessage { arb_id, data, extended }),
            Request::SendMessagesBatch { messages } => step == WorkerStep::Run(WorkerOp::SendBatch { messages }),
            Request::WriteMessagesRaw { messages, timeout_ms } => step == WorkerStep::Run(WorkerOp::WriteRaw { messages, timeout_ms }),
            Request::ReadVersion => step == WorkerStep::Run(WorkerOp::ReadVersion),
            Request::GetLastError => step == WorkerStep::Run(WorkerOp::GetLastError),
            Request::ReadBatteryVoltage => step == WorkerStep::Run(WorkerOp::ReadBatteryVoltage),
            Request::ReadProgrammingVoltage => step == WorkerStep::Run(WorkerOp::ReadProgrammingVoltage),
            Request::FastInit { data } => step == WorkerStep::Run(WorkerOp::FastInit { data }),
            Request::FiveBaudInit { data } => step == WorkerStep::Run(WorkerOp::FiveBaudInit { data }),
            Request::KlineInit { init_mode, fast_init_data, five_baud_address, cc_timeout_ms } =>
                step matches WorkerStep::Run(WorkerOp::KlineInit { mode, fast_init_data: f, five_baud_address: a, cc_timeout_ms: t })
                && mode@ == kline_mode_text(init_mode) && f == fast_init_data && a == five_baud_address
                && t == (match cc_timeout_ms { Some(v) => v, None => 300u32 }),
            Request::StartPeriodicMessage { arb_id, data, interval_ms, extended } =>
                step == WorkerStep::Run(WorkerOp::StartPeriodic { arb_id, data, interval_ms, extended }),
            Request::StopPeriodicMessage { msg_id } => step == WorkerStep::Run(WorkerOp::StopPeriodic { msg_id }),
            Request::ClearPeriodicMessages => step == WorkerStep::Run(WorkerOp::ClearPeriodic),
            Request::AddFilter { filter_type, mask, pattern, extended } => match filter_type_code(filter_type@) {
                Some(code) => step == WorkerStep::Run(WorkerOp::AddFilter { filter_type: code, mask, pattern, extended }),
                None => is_filter_type_error(step),
            },
            Request::AddFilterRaw { filter_type, mask, pattern, extended } => match filter_type_code(filter_type@) {
                Some(code) => step == WorkerStep::Run(WorkerOp::AddFilterRaw { filter_type: code, mask, pattern, extended }),
                None => is_filter_type_error(step),
            },
            Request::RemoveFilter { filter_id } => step == WorkerStep::Run(WorkerOp::RemoveFilter { filter_id }),
            Request::ClearFilters => step == WorkerStep::Run(WorkerOp::ClearFilters),
            Request::GetConfig { parameter } => step == WorkerStep::Run(WorkerOp::GetConfig { parameter }),
            Request::SetConfig { parameter, value } => step == WorkerStep::Run(WorkerOp::SetConfig { parameter, value }),
            Request::GetLoopback => step == WorkerStep::Run(WorkerOp::GetLoopback),
            Request::SetLoopback { enabled } => step == WorkerStep::Run(WorkerOp::SetLoopback { enabled }),
            Request::GetDataRate => step == WorkerStep::Run(WorkerOp::GetDataRate),
        },
{
    match request {
        Request::EnumerateDevices | Request::Open { .. } => WorkerStep::Reply(
            Response::error(-1, String::from_str("Request must be handled by the bridge control thread"))),
        Request::Close | Request::Shutdown => WorkerStep::Finish(Response::ok_none()),
        Request::ReadMessages { timeout_ms, batch_size, max_drain_reads } => WorkerStep::Run(WorkerOp::ReadBuffered {
            timeout_ms,
            max_messages: compute_read_limit(batch_size, max_drain_reads),
        }),
        Request::ReadMessagesWithLoopback { timeout_ms } => WorkerStep::Run(WorkerOp::ReadWithLoopback { timeout_ms }),
        Request::ReadMessagesRaw { timeout_ms, max_msgs } => WorkerStep::Run(WorkerOp::ReadRaw { timeout_ms, max_msgs }),
        Request::ClearBuffers => WorkerStep::Run(WorkerOp::ClearBuffers),
        Request::SendMessage { arb_id, data, extended } => WorkerStep::Run(WorkerOp::SendMessage { arb_id, data, extended }),
        Request::SendMessagesBatch { messages } => WorkerStep::Run(WorkerOp::SendBatch { messages }),
        Request::WriteMessagesRaw { messages, timeout_ms } => WorkerStep::Run(WorkerOp::WriteRaw { messages, timeout_ms }),
        Request::ReadVersion => WorkerStep::Run(WorkerOp::ReadVersion),
        Request::GetLastError => WorkerStep::Run(WorkerOp::GetLastError),
        Request::ReadBatteryVoltage => WorkerStep::Run(WorkerOp::ReadBatteryVoltage),
        Request::ReadProgrammingVoltage => WorkerStep::Run(WorkerOp::ReadProgrammingVoltage),
        Request::FastInit { data } => WorkerStep::Run(WorkerOp::FastInit { data }),
        Request::FiveBaudInit { data } => WorkerStep::Run(WorkerOp::FiveBaudInit { data }),
        Request::KlineInit { init_mode, fast_init_data, five_baud_address, cc_timeout_ms } => WorkerStep::Run(WorkerOp::KlineInit {
            mode: kline_mode_name(init_mode),
            fast_init_data,
            five_baud_address,
            cc_timeout_ms: match cc_timeout_ms { Some(v) => v, None => 300 },
        }),
        Request::StartPeriodicMessage { arb_id, data, interval_ms, extended } =>
            WorkerStep::Run(WorkerOp::StartPeriodic { arb_id, data, interval_ms, extended }),
        Request::StopPeriodicMessage { msg_id } => WorkerStep::Run(WorkerOp::StopPeriodic { msg_id }),
        Request::ClearPeriodicMessages => WorkerStep::Run(WorkerOp::ClearPeriodic),
        Request::AddFilter { filter_type, mask, pattern, extended } => match parse_filter_type(filter_type.as_str()) {
            Ok(code) => WorkerStep::Run(WorkerOp::AddFilter { filter_type: code, mask, pattern, extended }),
            Err(e) => WorkerStep::Reply(Response::error(-1, e)),
        },
        Request::AddFilterRaw { filter_type, mask, pattern, extended } => match parse_filter_type(filter_type.as_str()) {
            Ok(code) => WorkerStep::Run(WorkerOp::AddFilterRaw { filter_type: code, mask, pattern, extended }),
            Err(e) => WorkerStep::Reply(Response::error(-1, e)),
        },
        Request::RemoveFilter { filter_id } => WorkerStep::Run(WorkerOp::RemoveFilter { filter_id }),
        Request::ClearFilters => WorkerStep::Run(WorkerOp::ClearFilters),
        Request::GetConfig { parameter } => WorkerStep::Run(WorkerOp::GetConfig { parameter }),
        Request::SetConfig { parameter, value } => WorkerStep::Run(WorkerOp::SetConfig { parameter, value }),
        Request::GetLoopback => WorkerStep::Run(WorkerOp::GetLoopback),
        Request::SetLoopback { enabled } => WorkerStep::Run(WorkerOp::SetLoopback { enabled }),
        Request::GetDataRate => WorkerStep::Run(WorkerOp::GetDataRate),
    }
}

/// The answer to an operation without a value.
pub fn reply_unit(outcome: Result<(), String>) -> (r: Response)
    ensures
        r == match outcome {
            Ok(()) => Response::Success { data: ResponseData::Empty },
            Err(e) => failure(e),
        },
{
    match outcome {
        Ok(()) => Response::ok_none(),
        Err(e) => Response::error(-1, e),
    }
}

/// The answer to an operation that yields a number (a count, an id, a
/// parameter value).
pub fn reply_number(outcome: Result<u32, String>) -> (r: Response)
    ensures
        r == match outcome {
            Ok(n) => Response::Success { data: ResponseData::Number(n) },
            Err(e) => failure(e),
        },
{
    match outcome {
        Ok(n) => Response::ok(ResponseData::Number(n)),
        Err(e) => Response::error(-1, e),
    }
}

/// The answer to an operation that yields a flag.
pub fn reply_flag(outcome: Result<bool, String>) -> (r: Response)
    ensures
        r == match outcome {
            Ok(b) => Response::Success { data: ResponseData::Bool(b) },
            Err(e) => failure(e),
        },
{
    match outcome {
        Ok(b) => Response::ok(ResponseData::Bool(b)),
        Err(e) => Response::error(-1, e),
    }
}

/// The answer to an operation that yields a text.
pub fn reply_text(outcome: Result<String, String>) -> (r: Response)
    ensures
        r == match outcome {
            Ok(t) => Response::Success { data: ResponseData::String(t) },
            Err(e) => failure(e),
        },
{
    match outcome {
        Ok(t) => Response::ok(ResponseData::String(t)),
        Err(e) => Response::error(-1, e),
    }
}

/// The answer to a voltage reading, given as the bit pattern of the volts.
pub fn reply_voltage(outcome: Result<u64, String>) -> (r: Response)
    ensures
        r == match outcome {
            Ok(bits) => Response::Success { data: ResponseData::Float(bits) },
            Err(e) => failure(e),
        },
{
    match outcome {
        Ok(bits) => Response::ok(ResponseData::Float(bits)),
        Err(e) => Response::error(-1, e),
    }
}

/// The answer to a raw read or write.
pub fn reply_raw_io(outcome: Result<RawIoResult, String>) -> (r: Response)
    ensures
        match outcome {
            Ok(raw) => r matches Response::Success { data: ResponseData::RawIo(p) } && p.result == raw.result && p.num_msgs == raw.num_msgs,
            Err(e) => r == failure(e),
        },
{
    match outcome {
        Ok(raw) => Response::ok(ResponseData::RawIo(map_raw_io(raw))),
        Err(e) => Response::error(-1, e),
    }
}

/// The answer to a version query.
pub fn reply_version(outcome: Result<J2534VersionInfo, String>) -> (r: Response)
    ensures
        match outcome {
            Ok(v) => r matches Response::Success { data: ResponseData::Version(p) }
                && p.firmware_version@ == v.firmware_version@ && p.dll_version@ == v.dll_version@
                && p.api_version@ == v.api_version@,
            Err(e) => r == failure(e),
        },
{
    match outcome {
        Ok(v) => Response::ok(ResponseData::Version(map_version_info(v))),
        Err(e) => Response::error(-1, e),
    }
}

/// The answer to a read: the frames, in order.
pub fn reply_messages(outcome: Result<Vec<CANMessage>, String>) -> (r: Response)
    ensures
        match outcome {
            Ok(ms) => r matches Response::Success { data: ResponseData::Messages(out) } && can_views(out@) == message_views(ms@),
            Err(e) => r == failure(e),
        },
{
    match outcome {
        Ok(ms) => Response::ok(ResponseData::Messages(map_messages(ms))),
        Err(e) => Response::error(-1, e),
    }
}

/// The answer to an init IOCTL: its reply frame alone.
pub fn reply_message(outcome: Result<CANMessage, String>) -> (r: Response)
    ensures
        match outcome {
            Ok(m) => r matches Response::Success { data: ResponseData::Messages(out) } && can_views(out@) == seq![m@],
            Err(e) => r == failure(e),
        },
{
    match outcome {
        Ok(m) => {
            let c = map_can_message(m);
            let ghost cv = c@;
            let out = vec![c];
            assert(can_views(out@) =~= seq![cv]);
            Response::ok(ResponseData::Messages(out))
        },
        Err(e) => Response::error(-1, e),
    }
}

/// The answer to a K-Line init.
pub fn reply_kline(outcome: Result<J2534KlineInitResult, String>) -> (r: Response)
    ensures
        match outcome {
            Ok(k) => r matches Response::Success { data: ResponseData::KlineInit(p) }
                && p.init_method@ == k.init_method@ && p.detected_protocol@ == k.detected_protocol@
                && p.keyword_bytes@ == k.keyword_bytes@ && p.cc_received == k.cc_received
                && can_views(p.init_response@) == message_views(k.init_response@),
            Err(e) => r == failure(e),
        },
{
    match outcome {
        Ok(k) => Response::ok(ResponseData::KlineInit(map_kline_init_result(k))),
        Err(e) => Response::error(-1, e),
    }
}

/// The answer to `ClearBuffers`: on success the receive buffer is emptied
/// too, on failure it keeps its frames.
pub fn reply_cleared(outcome: Result<(), String>, rx_buffer: &mut VecDeque<CanMessage>) -> (r: Response)
    ensures
        match outcome {
            Ok(()) => r == (Response::Success { data: ResponseData::Empty }) && final(rx_buffer)@.len() == 0,
            Err(e) => r == failure(e) && final(rx_buffer)@ == old(rx_buffer)@,
        },
{
    match outcome {
        Ok(()) => {
            rx_buffer.clear();
            Response::ok_none()
        },
        Err(e) => Response::error(-1, e),
    }
}

/// The answer to `ReadMessages`: at most `max_messages` buffered frames,
/// oldest first, taken out of the buffer.
pub fn reply_buffered(rx_buffer: &mut VecDeque<CanMessage>, max_messages: usize) -> (r: Response)
    ensures
        ({
            let count = if old(rx_buffer)@.len() <= max_messages { old(rx_buffer)@.len() as int } else { max_messages as int };
            &&& r matches Response::Success { data: ResponseData::Messages(ms) } && ms@ == old(rx_buffer)@.take(count)
            &&& final(rx_buffer)@ == old(rx_buffer)@.skip(count)
        }),
{
    let messages = drain_buffer(rx_buffer, max_messages);
    Response::ok(ResponseData::Messages(messages))
}

/// Length of one wait while `ReadMessages` waits for frames: the poll
/// interval or the time left, whichever is shorter, at least 1 ms.
pub fn wait_slice_ms(remaining_ms: u64, poll_interval_ms: u64) -> (n: u32)
    ensures
        n == ({
            let m = if remaining_ms < poll_interval_ms { remaining_ms } else { poll_interval_ms };
            (if m < 1 { 1u64 } else { m }) as u32
        }),
{
    let m = if remaining_ms < poll_interval_ms { remaining_ms } else { poll_interval_ms };
    let m = if m < 1 { 1 } else { m };
    m as u32
}

} // verus!
