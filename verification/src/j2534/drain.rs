//! Reading received frames: decoding one read's frames (skipping transmit
//! echoes) and the drain session that repeats reads until the driver's
//! buffer is empty.

use vstd::prelude::*;
use super::frame::{
    PassThruMsg, PassThruMsgView, CANMessage, CanFrame, can_frame_of, raw_frame_of, rx_extended,
    decode_can_frame, decode_raw_frame, is_rx_extended,
};
use super::echo::{SentLog, SentRecord, prune, first_echo, echo_of};
use super::{read_status_ok, is_read_status_ok, status_error, code_and_name, TX_MSG_TYPE};

verus! {

/// How the frames of one read are decoded.
#[derive(Debug, Clone, Copy, PartialEq, Eq, Structural)]
pub enum RxMode {
    /// The main channel: CAN layout for CAN protocols, raw bytes otherwise.
    /// With `include_loopback`, transmit echoes are kept.
    Primary { is_can: bool, include_loopback: bool },
    /// The dedicated 29-bit channel: CAN layout, always extended.
    Extended,
}

/// The frame is flagged by the driver as our own transmission.
pub open spec fn tx_flagged(m: PassThruMsgView) -> bool {
    m.rx_status & TX_MSG_TYPE != 0
}

/// Whether decoding `m` in this mode reads its data area (and so needs a
/// size within the data area).
pub open spec fn rx_reads_data(m: PassThruMsgView, mode: RxMode) -> bool {
    match mode {
        RxMode::Primary { is_can, include_loopback } => {
            &&& !(!include_loopback && tx_flagged(m))
            &&& if is_can { m.data_size >= 4 } else { m.data_size != 0 }
        },
        RxMode::Extended => !tx_flagged(m) && m.data_size >= 4,
    }
}

/// The frames of a read can be decoded in this mode.
pub open spec fn batch_decodable(frames: Seq<PassThruMsgView>, mode: RxMode) -> bool {
    forall|i: int| 0 <= i < frames.len() ==> {
        &&& (#[trigger] frames[i]).wf()
        &&& rx_reads_data(frames[i], mode) ==> frames[i].readable()
    }
}

/// Echo check on the log: whether the frame is an echo, and the log after.
pub open spec fn echo_step(log: Seq<SentRecord>, now: u64, arb_id: u32, data: Seq<u8>) -> (bool, Seq<SentRecord>) {
    let p = prune(now, log);
    if exists|k: int| first_echo(p, arb_id, data, k) {
        (true, p.remove(choose|k: int| first_echo(p, arb_id, data, k)))
    } else {
        (false, p)
    }
}

/// A CAN-layout frame, dropped when it is the echo of a sent frame.
pub open spec fn rx_can(f: CanFrame, log: Seq<SentRecord>, now: u64) -> (Seq<CanFrame>, Seq<SentRecord>) {
    let (echo, after) = echo_step(log, now, f.arb_id, f.data);
    if echo {
        (Seq::empty(), after)
    } else {
        (seq![f], after)
    }
}

/// Decoding of one received frame: the frames it yields and the log after.
pub open spec fn rx_one(m: PassThruMsgView, mode: RxMode, log: Seq<SentRecord>, now: u64) -> (Seq<CanFrame>, Seq<SentRecord>) {
    match mode {
        RxMode::Primary { is_can, include_loopback } => {
            if !include_loopback && tx_flagged(m) {
                (Seq::empty(), log)
            } else if is_can {
                if m.data_size < 4 {
                    (Seq::empty(), log)
                } else if include_loopback {
                    (seq![can_frame_of(m, rx_extended(m.rx_status))], log)
                } else {
                    rx_can(can_frame_of(m, rx_extended(m.rx_status)), log, now)
                }
            } else if m.data_size == 0 {
                (Seq::empty(), log)
            } else {
                (seq![raw_frame_of(m)], log)
            }
        },
        RxMode::Extended => {
            if tx_flagged(m) || m.data_size < 4 {
                (Seq::empty(), log)
            } else {
                rx_can(can_frame_of(m, true), log, now)
            }
        },
    }
}

/// Decoding of a read's frames in order.
pub open spec fn rx_fold(frames: Seq<PassThruMsgView>, mode: RxMode, log: Seq<SentRecord>, now: u64) -> (Seq<CanFrame>, Seq<SentRecord>)
    decreases frames.len(),
{
    if frames.len() == 0 {
        (Seq::empty(), log)
    } else {
        let (out, mid) = rx_fold(frames.drop_last(), mode, log, now);
        let (more, after) = rx_one(frames.last(), mode, mid, now);
        (out + more, after)
    }
}

/// Models of a sequence of frames.
pub open spec fn frame_views(v: Seq<PassThruMsg>) -> Seq<PassThruMsgView> {
    v.map_values(|m: PassThruMsg| m@)
}

/// Models of a sequence of decoded messages.
pub open spec fn message_views(v: Seq<CANMessage>) -> Seq<CanFrame> {
    v.map_values(|m: CANMessage| m@)
}

proof fn lemma_first_echo_unique(p: Seq<SentRecord>, arb_id: u32, data: Seq<u8>, k1: int, k2: int)
    requires
        first_echo(p, arb_id, data, k1),
        first_echo(p, arb_id, data, k2),
    ensures
        k1 == k2,
{
    if k1 < k2 {
        assert(!echo_of(p[k1], arb_id, data));
    } else if k2 < k1 {
        assert(!echo_of(p[k2], arb_id, data));
    }
}

fn echo_check(log: &mut SentLog, now: u64, frame: &CANMessage) -> (echo: bool)
    ensures
        (echo, final(log)@) == echo_step(old(log)@, now, frame.arb_id, frame.data@),
{
    let echo = log.take_echo(now, frame.arb_id, frame.data.as_slice());
    proof {
        let p = prune(now, old(log)@);
        if echo {
            let k = choose|k: int| first_echo(p, frame.arb_id, frame.data@, k) && log@ == p.remove(k);
            let c = choose|k: int| first_echo(p, frame.arb_id, frame.data@, k);
            lemma_first_echo_unique(p, frame.arb_id, frame.data@, k, c);
        }
    }
    echo
}

/// Decodes one frame, appending what it yields to `out`.
fn decode_one(m: &PassThruMsg, mode: RxMode, log: &mut SentLog, now: u64, out: &mut Vec<CANMessage>)
    requires
        m@.wf(),
        rx_reads_data(m@, mode) ==> m@.readable(),
    ensures
        ({
            let (more, after) = rx_one(m@, mode, old(log)@, now);
            &&& message_views(final(out)@) == message_views(old(out)@) + more
            &&& final(log)@ == after
        }),
{
    let ghost out0 = message_views(out@);
    match mode {
        RxMode::Primary { is_can, include_loopback } => {
            if !include_loopback && m.rx_status & TX_MSG_TYPE != 0 {
                assert(message_views(out@) =~= out0 + Seq::<CanFrame>::empty());
                return;
            }
            if is_can {
                if m.data_size < 4 {
                    assert(message_views(out@) =~= out0 + Seq::<CanFrame>::empty());
                    return;
                }
                let frame = decode_can_frame(m, is_rx_extended(m.rx_status));
                if include_loopback {
                    out.push(frame);
                    assert(message_views(out@) =~= out0 + seq![can_frame_of(m@, rx_extended(m.rx_status))]);
                    return;
                }
                let echo = echo_check(log, now, &frame);
                if echo {
                    assert(message_views(out@) =~= out0 + Seq::<CanFrame>::empty());
                } else {
                    let ghost f = frame@;
                    out.push(frame);
                    assert(message_views(out@) =~= out0 + seq![f]);
                }
            } else {
                if m.data_size == 0 {
                    assert(message_views(out@) =~= out0 + Seq::<CanFrame>::empty());
                    return;
                }
                let frame = decode_raw_frame(m);
                out.push(frame);
                assert(message_views(out@) =~= out0 + seq![raw_frame_of(m@)]);
            }
        },
        RxMode::Extended => {
            if m.rx_status & TX_MSG_TYPE != 0 || m.data_size < 4 {
                assert(message_views(out@) =~= out0 + Seq::<CanFrame>::empty());
                return;
            }
            let frame = decode_can_frame(m, true);
            let echo = echo_check(log, now, &frame);
            if echo {
                assert(message_views(out@) =~= out0 + Seq::<CanFrame>::empty());
            } else {
                let ghost f = frame@;
                out.push(frame);
                assert(message_views(out@) =~= out0 + seq![f]);
            }
        },
    }
}

fn reads_data(m: &PassThruMsg, mode: RxMode) -> (b: bool)
    ensures
        b == rx_reads_data(m@, mode),
{
    match mode {
        RxMode::Primary { is_can, include_loopback } => {
            !(!include_loopback && m.rx_status & TX_MSG_TYPE != 0)
                && if is_can { m.data_size >= 4 } else { m.data_size != 0 }
        },
        RxMode::Extended => !(m.rx_status & TX_MSG_TYPE != 0) && m.data_size >= 4,
    }
}

/// Whether the frames of a read can be decoded in this mode: each has its
/// full data area, and each frame that is read has a size within it.
pub fn is_batch_decodable(frames: &[PassThruMsg], mode: RxMode) -> (b: bool)
    ensures
        b == batch_decodable(frame_views(frames@), mode),
{
    let ghost views = frame_views(frames@);
    let mut i: usize = 0;
    while i < frames.len()
        invariant
            i <= frames@.len(),
            views == frame_views(frames@),
            forall|k: int| 0 <= k < i ==> {
                &&& (#[trigger] views[k]).wf()
                &&& rx_reads_data(views[k], mode) ==> views[k].readable()
            },
        decreases frames@.len() - i,
    {
        let m = &frames[i];
        assert(views[i as int] == m@);
        if m.data.len() != super::frame::PASSTHRU_DATA_LEN {
            return false;
        }
        if reads_data(m, mode) && m.data_size as usize > super::frame::PASSTHRU_DATA_LEN {
            return false;
        }
        i = i + 1;
    }
    true
}

/// Decodes the frames of one read in order, appending the resulting
/// messages to `out` and consuming echo entries from `log`.
pub fn decode_rx_batch(frames: &[PassThruMsg], mode: RxMode, log: &mut SentLog, now: u64, out: &mut Vec<CANMessage>)
    requires
        batch_decodable(frame_views(frames@), mode),
    ensures
        ({
            let (more, after) = rx_fold(frame_views(frames@), mode, old(log)@, now);
            &&& message_views(final(out)@) == message_views(old(out)@) + more
            &&& final(log)@ == after
        }),
{
    let ghost views = frame_views(frames@);
    let ghost out0 = message_views(out@);
    let mut i: usize = 0;
    while i < frames.len()
        invariant
            i <= frames@.len(),
            views == frame_views(frames@),
            batch_decodable(views, mode),
            ({
                let (more, after) = rx_fold(views.take(i as int), mode, old(log)@, now);
                &&& message_views(out@) == out0 + more
                &&& log@ == after
            }),
        decreases frames@.len() - i,
    {
        assert(views[i as int] == frames@[i as int]@);
        decode_one(&frames[i], mode, log, now, out);
        assert(views.take(i + 1).drop_last() =~= views.take(i as int));
        i = i + 1;
        proof {
            let (a, b) = rx_fold(views.take(i - 1), mode, old(log)@, now);
            let (c, d) = rx_one(views[i - 1], mode, b, now);
            assert(out0 + (a + c) =~= (out0 + a) + c);
        }
    }
    assert(views.take(frames@.len() as int) =~= views);
}

/// Number of frames asked for by a single read.
pub const SINGLE_READ_FRAMES: u32 = 16;

/// Frames asked for by a raw read: `max_msgs` clamped to 1..=64.
pub fn raw_read_count(max_msgs: u32) -> (n: u32)
    ensures
        n == (if max_msgs < 1 { 1 } else if max_msgs > 64 { 64 } else { max_msgs }),
{
    if max_msgs < 1 { 1 } else if max_msgs > 64 { 64 } else { max_msgs }
}

/// The error reported when a read fails.
pub open spec fn read_failed_text(result: i32) -> Seq<char> {
    "ERR_J2534_READ_FAILED: error code "@ + code_and_name(result)
}

/// Outcome of a single read of up to `SINGLE_READ_FRAMES` frames: an error
/// for a failing status, the decoded messages otherwise.
pub fn complete_single_read(
    result: i32,
    frames: &[PassThruMsg],
    is_can: bool,
    include_loopback: bool,
    log: &mut SentLog,
    now: u64,
) -> (r: Result<Vec<CANMessage>, String>)
    requires
        batch_decodable(frame_views(frames@), RxMode::Primary { is_can, include_loopback }),
    ensures
        match r {
            Ok(msgs) => read_status_ok(result) && {
                let (more, after) = rx_fold(frame_views(frames@), RxMode::Primary { is_can, include_loopback }, old(log)@, now);
                &&& message_views(msgs@) == more
                &&& final(log)@ == after
            },
            Err(e) => !read_status_ok(result) && e@ == read_failed_text(result) && final(log)@ == old(log)@,
        },
{
    if !is_read_status_ok(result) {
        return Err(status_error("ERR_J2534_READ_FAILED: error code ", result));
    }
    let mut out: Vec<CANMessage> = Vec::new();
    decode_rx_batch(frames, RxMode::Primary { is_can, include_loopback }, log, now, &mut out);
    assert(message_views(out@) =~= Seq::<CanFrame>::empty() + message_views(out@));
    Ok(out)
}

/// A read the session asks the driver for.
#[derive(Debug, Clone, Copy, PartialEq, Eq, Structural)]
pub struct ReadCall {
    pub channel_id: u32,
    pub max_msgs: u32,
    pub timeout_ms: u32,
}

/// Model of a drain session.
pub struct DrainState {
    pub channel_id: u32,
    pub channel_id_29bit: Option<u32>,
    pub is_can: bool,
    pub batch_size: u32,
    pub max_reads: u32,
    pub timeout_ms: u32,
    pub on_extended: bool,
    pub reads_done: u32,
    pub finished: bool,
    pub error: Option<Seq<char>>,
    pub messages: Seq<CanFrame>,
}

/// `x` clamped to `lo..=hi`.
pub open spec fn clamp(x: u32, lo: u32, hi: u32) -> u32 {
    if x < lo { lo } else if x > hi { hi } else { x }
}

/// The drain session's state right after it is created.
pub open spec fn drain_start(channel_id: u32, channel_id_29bit: Option<u32>, is_can: bool, timeout_ms: u32, batch_size: u32, max_drain_reads: u32) -> DrainState {
    DrainState {
        channel_id,
        channel_id_29bit,
        is_can,
        batch_size: clamp(batch_size, 1, 256),
        max_reads: clamp(max_drain_reads, 1, 256),
        timeout_ms,
        on_extended: false,
        reads_done: 0,
        finished: false,
        error: None,
        messages: Seq::empty(),
    }
}

/// The read an unfinished session asks for next: the first read of the main
/// channel waits up to the timeout, every other read does not wait.
pub open spec fn drain_next(s: DrainState) -> Option<ReadCall> {
    if s.finished {
        None
    } else if s.on_extended {
        Some(ReadCall { channel_id: s.channel_id_29bit.unwrap(), max_msgs: s.batch_size, timeout_ms: 0 })
    } else {
        Some(ReadCall {
            channel_id: s.channel_id,
            max_msgs: s.batch_size,
            timeout_ms: if s.reads_done == 0 { s.timeout_ms } else { 0 },
        })
    }
}

/// End of the current channel: go on with the 29-bit channel after the main
/// one when there is one, otherwise finish.
pub open spec fn drain_end_channel(s: DrainState) -> DrainState {
    if !s.on_extended && s.channel_id_29bit.is_some() {
        DrainState { on_extended: true, reads_done: 0, ..s }
    } else {
        DrainState { finished: true, ..s }
    }
}

/// How a session takes in the outcome of the read it asked for.
pub open spec fn drain_absorb(s: DrainState, result: i32, frames: Seq<PassThruMsgView>, log: Seq<SentRecord>, now: u64) -> (DrainState, Seq<SentRecord>) {
    let mode = if s.on_extended { RxMode::Extended } else { RxMode::Primary { is_can: s.is_can, include_loopback: false } };
    if !read_status_ok(result) {
        if !s.on_extended && s.reads_done == 0 {
            (DrainState { finished: true, error: Some(read_failed_text(result)), ..s }, log)
        } else {
            (drain_end_channel(s), log)
        }
    } else if frames.len() == 0 {
        (drain_end_channel(s), log)
    } else {
        let (more, after) = rx_fold(frames, mode, log, now);
        let t = DrainState { messages: s.messages + more, reads_done: (s.reads_done + 1) as u32, ..s };
        if frames.len() < s.batch_size || t.reads_done >= s.max_reads {
            (drain_end_channel(t), after)
        } else {
            (t, after)
        }
    }
}

/// Reads an unfinished session can still make: each taken-in read lowers it.
pub open spec fn drain_budget(s: DrainState) -> int {
    if s.finished {
        0
    } else if s.on_extended {
        s.max_reads - s.reads_done + 1
    } else {
        s.max_reads - s.reads_done + 1 + (if s.channel_id_29bit.is_some() { s.max_reads + 1 } else { 0int })
    }
}

/// Internal consistency of a session.
pub open spec fn drain_wf(s: DrainState) -> bool {
    &&& 1 <= s.batch_size <= 256
    &&& 1 <= s.max_reads <= 256
    &&& s.reads_done < s.max_reads || s.finished
    &&& s.on_extended ==> s.channel_id_29bit.is_some()
    &&& s.error.is_some() ==> s.finished
}

/// A high-throughput drain of the driver's receive buffer: the first read of
/// the main channel waits up to a timeout, then reads without waiting until a
/// read comes back short or empty or the read budget is spent; then the same
/// for the dedicated 29-bit channel, if any.
pub struct DrainSession {
    channel_id: u32,
    channel_id_29bit: Option<u32>,
    is_can: bool,
    batch_size: u32,
    max_reads: u32,
    timeout_ms: u32,
    on_extended: bool,
    reads_done: u32,
    finished: bool,
    error: Option<String>,
    messages: Vec<CANMessage>,
}

impl View for DrainSession {
    type V = DrainState;

    closed spec fn view(&self) -> DrainState {
        DrainState {
            channel_id: self.channel_id,
            channel_id_29bit: self.channel_id_29bit,
            is_can: self.is_can,
            batch_size: self.batch_size,
            max_reads: self.max_reads,
            timeout_ms: self.timeout_ms,
            on_extended: self.on_extended,
            reads_done: self.reads_done,
            finished: self.finished,
            error: match self.error {
                Some(e) => Some(e@),
                None => None,
            },
            messages: message_views(self.messages@),
        }
    }
}

fn clamp_u32(x: u32, lo: u32, hi: u32) -> (r: u32)
    requires
        lo <= hi,
    ensures
        r == clamp(x, lo, hi),
{
    if x < lo { lo } else if x > hi { hi } else { x }
}

impl DrainSession {
    /// Starts a drain of `channel_id` (and then `channel_id_29bit`), with
    /// `batch_size` and `max_drain_reads` clamped to 1..=256.
    pub fn new(channel_id: u32, channel_id_29bit: Option<u32>, is_can: bool, timeout_ms: u32, batch_size: u32, max_drain_reads: u32) -> (s: DrainSession)
        ensures
            s@ == drain_start(channel_id, channel_id_29bit, is_can, timeout_ms, batch_size, max_drain_reads),
            drain_wf(s@),
    {
        let s = DrainSession {
            channel_id,
            channel_id_29bit,
            is_can,
            batch_size: clamp_u32(batch_size, 1, 256),
            max_reads: clamp_u32(max_drain_reads, 1, 256),
            timeout_ms,
            on_extended: false,
            reads_done: 0,
            finished: false,
            error: None,
            messages: Vec::new(),
        };
        assert(message_views(s.messages@) =~= Seq::<CanFrame>::empty());
        s
    }

    /// The next read to make, or `None` once the session is finished.
    pub fn next_read(&self) -> (c: Option<ReadCall>)
        requires
            drain_wf(self@),
        ensures
            c == drain_next(self@),
    {
        if self.finished {
            None
        } else if self.on_extended {
            let ch = match self.channel_id_29bit {
                Some(ch) => ch,
                None => 0,
            };
            Some(ReadCall { channel_id: ch, max_msgs: self.batch_size, timeout_ms: 0 })
        } else {
            let t = if self.reads_done == 0 { self.timeout_ms } else { 0 };
            Some(ReadCall { channel_id: self.channel_id, max_msgs: self.batch_size, timeout_ms: t })
        }
    }

    fn end_channel(&mut self)
        requires
            !old(self).finished,
            drain_wf(old(self)@) || old(self).reads_done >= old(self).max_reads,
            1 <= old(self).batch_size <= 256,
            1 <= old(self).max_reads <= 256,
            old(self).on_extended ==> old(self).channel_id_29bit.is_some(),
            old(self).error.is_none(),
        ensures
            final(self)@ == drain_end_channel(old(self)@),
            drain_wf(final(self)@),
    {
        if !self.on_extended && self.channel_id_29bit.is_some() {
            self.on_extended = true;
            self.reads_done = 0;
        } else {
            self.finished = true;
        }
    }

    /// Takes in the outcome of the read asked for by `next_read`: the status
    /// and the frames the driver filled in.
    pub fn absorb(&mut self, result: i32, frames: &[PassThruMsg], log: &mut SentLog, now: u64)
        requires
            drain_wf(old(self)@),
            !old(self)@.finished,
            frames@.len() <= old(self)@.batch_size,
            batch_decodable(frame_views(frames@), if old(self)@.on_extended { RxMode::Extended } else { RxMode::Primary { is_can: old(self)@.is_can, include_loopback: false } }),
        ensures
            (final(self)@, final(log)@) == drain_absorb(old(self)@, result, frame_views(frames@), old(log)@, now),
            drain_wf(final(self)@),
    {
        if !is_read_status_ok(result) {
            if !self.on_extended && self.reads_done == 0 {
                self.error = Some(status_error("ERR_J2534_READ_FAILED: error code ", result));
                self.finished = true;
            } else {
                self.end_channel();
            }
            return;
        }
        if frames.len() == 0 {
            self.end_channel();
            return;
        }
        let mode = if self.on_extended { RxMode::Extended } else { RxMode::Primary { is_can: self.is_can, include_loopback: false } };
        decode_rx_batch(frames, mode, log, now, &mut self.messages);
        self.reads_done = self.reads_done + 1;
        if (frames.len() as u32) < self.batch_size || self.reads_done >= self.max_reads {
            self.end_channel();
        }
    }

    /// The messages gathered, or the error of a failed first read.
    pub fn finish(self) -> (r: Result<Vec<CANMessage>, String>)
        requires
            self@.finished,
        ensures
            match r {
                Ok(msgs) => self@.error.is_none() && message_views(msgs@) == self@.messages,
                Err(e) => self@.error == Some(e@),
            },
    {
        match self.error {
            Some(e) => Err(e),
            None => Ok(self.messages),
        }
    }
}

/// Every read taken in by an unfinished session lowers its budget, so a
/// session makes at most `max_reads` reads of each channel.
pub proof fn lemma_drain_budget_decreases(s: DrainState, result: i32, frames: Seq<PassThruMsgView>, log: Seq<SentRecord>, now: u64)
    requires
        drain_wf(s),
        !s.finished,
    ensures
        ({
            let (t, l) = drain_absorb(s, result, frames, log, now);
            &&& 0 <= drain_budget(t) < drain_budget(s)
            &&& drain_budget(s) <= 2 * (s.max_reads + 1)
        }),
{
}

/// Only the first read of the main channel waits for frames, and only a
/// failure of that read makes the session fail; gathered messages are never
/// dropped by a later read.
pub proof fn lemma_drain_errors_and_waits(s: DrainState, result: i32, frames: Seq<PassThruMsgView>, log: Seq<SentRecord>, now: u64)
    requires
        drain_wf(s),
        !s.finished,
    ensures
        ({
            let (t, l) = drain_absorb(s, result, frames, log, now);
            &&& (drain_next(s).unwrap().timeout_ms != 0 ==> !s.on_extended && s.reads_done == 0)
            &&& (t.error.is_some() <==> (!read_status_ok(result) && !s.on_extended && s.reads_done == 0))
            &&& t.messages.take(s.messages.len() as int) == s.messages
            &&& s.messages.len() <= t.messages.len()
        }),
{
    let (t, l) = drain_absorb(s, result, frames, log, now);
    assert(t.messages.take(s.messages.len() as int) =~= s.messages);
}

} // verus!
