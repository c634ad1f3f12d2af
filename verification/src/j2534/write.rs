//! The write side of a connection: frames for single, batch and raw
//! writes, the batch timeout, the record of what was written (for echo
//! suppression), filter frames, and the order in which a connection is
//! torn down.

use vstd::prelude::*;
use vstd::string::*;
use crate::protocol::BatchMessage;
use crate::text::{push_str, push_decimal, dec_digits, dec_signed, push_signed};
use super::frame::{
    PassThruMsg, PassThruMsgView, PASSTHRU_DATA_LEN, frame_of, tx_frame, tx_payload_len, id_tx_flags, min_nat,
    encode_tx_message, tx_payload_length, build_frame, tx_flags_for,
};
use super::drain::frame_views;
use super::echo::{SentLog, SentRecord, prune};
use super::{code_and_name, error_code_name, error_code_to_string, spec_is_can_protocol, is_can_protocol};

verus! {

/// Frames for a batch of messages, one per message, in order.
pub fn encode_batch(protocol_id: u32, messages: &[BatchMessage]) -> (v: Vec<PassThruMsg>)
    ensures
        frame_views(v@) == Seq::new(messages@.len(), |i: int| tx_frame(protocol_id, messages@[i].arb_id, messages@[i].data@, messages@[i].extended)),
{
    let mut v: Vec<PassThruMsg> = Vec::new();
    let mut i: usize = 0;
    while i < messages.len()
        invariant
            i <= messages@.len(),
            frame_views(v@) == Seq::new(i as nat, |k: int| tx_frame(protocol_id, messages@[k].arb_id, messages@[k].data@, messages@[k].extended)),
        decreases messages@.len() - i,
    {
        let m = &messages[i];
        let f = encode_tx_message(protocol_id, m.arb_id, m.data.as_slice(), m.extended);
        let ghost before = v@;
        v.push(f);
        assert(frame_views(v@) =~= frame_views(before).push(f@));
        assert(frame_views(v@) =~= Seq::new((i + 1) as nat, |k: int| tx_frame(protocol_id, messages@[k].arb_id, messages@[k].data@, messages@[k].extended)));
        i = i + 1;
    }
    v
}

/// Timeout of a batch write: 10 ms per message, at least 5 s.
pub fn batch_write_timeout(count: usize) -> (t: u32)
    requires
        count * 10 <= u32::MAX,
    ensures
        t == (if count * 10 > 5000 { count * 10 } else { 5000 }),
{
    let per = (count as u32) * 10;
    if per > 5000 { per } else { 5000 }
}

/// The error of a failed single write.
pub fn write_failed_error(result: i32) -> (s: String)
    ensures
        s@ == "ERR_J2534_WRITE_FAILED: error code "@ + dec_signed(result as int) + " ["@ + error_code_name(result) + "]"@,
{
    let mut s = String::from_str("ERR_J2534_WRITE_FAILED: error code ");
    push_signed(&mut s, result as i64);
    push_str(&mut s, " [");
    push_str(&mut s, error_code_to_string(result));
    push_str(&mut s, "]");
    s
}

/// The error of a failed batch write, with how many frames went out.
pub fn batch_write_failed_error(result: i32, written: u32, total: usize) -> (s: String)
    requires
        total <= u64::MAX,
    ensures
        s@ == "ERR_J2534_WRITE_FAILED: error code "@ + code_and_name(result) + ", sent "@ + dec_digits(written as nat)
            + "/"@ + dec_digits(total as nat) + " messages"@,
{
    let mut s = super::status_error("ERR_J2534_WRITE_FAILED: error code ", result);
    push_str(&mut s, ", sent ");
    push_decimal(&mut s, written as u64);
    push_str(&mut s, "/");
    push_decimal(&mut s, total as u64);
    push_str(&mut s, " messages");
    s
}

/// The outcome of a single write: success exactly when the driver
/// returned `STATUS_NOERROR`.
pub fn single_write_outcome(result: i32) -> (r: Result<(), String>)
    ensures
        match r {
            Ok(_) => result == super::STATUS_NOERROR,
            Err(e) => result != super::STATUS_NOERROR
                && e@ == "ERR_J2534_WRITE_FAILED: error code "@ + dec_signed(result as int) + " ["@ + error_code_name(result) + "]"@,
        },
{
    if result != super::STATUS_NOERROR {
        return Err(write_failed_error(result));
    }
    Ok(())
}

/// The timeout of a batch write, or `None` when the batch is empty: then
/// nothing is written and no frame counts as sent.
pub fn batch_write_plan(count: usize) -> (r: Option<u32>)
    requires
        count == 0 || count * 10 <= u32::MAX,
    ensures
        r == (if count == 0 { None } else { Some((if count * 10 > 5000 { count * 10 } else { 5000 }) as u32) }),
{
    if count == 0 {
        return None;
    }
    Some(batch_write_timeout(count))
}

/// The outcome of a batch write: the number of frames written when the
/// driver returned `STATUS_NOERROR`, else the error with how many went out.
pub fn batch_write_outcome(result: i32, written: u32, total: usize) -> (r: Result<u32, String>)
    requires
        total <= u64::MAX,
    ensures
        match r {
            Ok(n) => result == super::STATUS_NOERROR && n == written,
            Err(e) => result != super::STATUS_NOERROR
                && e@ == "ERR_J2534_WRITE_FAILED: error code "@ + code_and_name(result) + ", sent "@
                    + dec_digits(written as nat) + "/"@ + dec_digits(total as nat) + " messages"@,
        },
{
    if result != super::STATUS_NOERROR {
        return Err(batch_write_failed_error(result, written, total));
    }
    Ok(written)
}

/// A raw write of an empty batch answers at once: no error, no frames.
/// A batch with frames gets `None` and goes to the driver.
pub fn raw_write_of_nothing(count: usize) -> (r: Option<super::RawIoResult>)
    ensures
        match r {
            Some(res) => count == 0 && res.result == super::STATUS_NOERROR && res.num_msgs == 0,
            None => count > 0,
        },
{
    if count == 0 {
        return Some(super::RawIoResult { result: super::STATUS_NOERROR, num_msgs: 0 });
    }
    None
}

/// Payload bytes a single write remembers: what the frame kept.
pub open spec fn single_sent_len(protocol_id: u32, data_len: nat) -> nat {
    if spec_is_can_protocol(protocol_id) {
        min_nat(data_len, 8)
    } else {
        min_nat(data_len, PASSTHRU_DATA_LEN as nat)
    }
}

/// The log after a single write at time `now`.
pub open spec fn after_single_send(log: Seq<SentRecord>, now: u64, protocol_id: u32, arb_id: u32, data: Seq<u8>) -> Seq<SentRecord> {
    prune(now, log).push(SentRecord { arb_id, data: data.take(single_sent_len(protocol_id, data.len()) as int), timestamp: now })
}

/// Remembers a single written frame.
pub fn record_single_send(log: &mut SentLog, now: u64, protocol_id: u32, arb_id: u32, data: &[u8])
    ensures
        final(log)@ == after_single_send(old(log)@, now, protocol_id, arb_id, data@),
{
    let n: usize = if is_can_protocol(protocol_id) {
        if data.len() < 8 { data.len() } else { 8 }
    } else {
        if data.len() < PASSTHRU_DATA_LEN { data.len() } else { PASSTHRU_DATA_LEN }
    };
    let kept = super::frame::copy_range(data, 0, n);
    assert(kept@ =~= data@.take(n as int));
    log.record(now, arb_id, kept.as_slice());
}

/// The log after a batch write at time `now` of which the driver reports
/// the first messages as written: each is remembered with the payload its
/// frame carried (all of it for non-CAN protocols).
pub open spec fn after_batch(log: Seq<SentRecord>, now: u64, protocol_id: u32, ms: Seq<BatchMessage>) -> Seq<SentRecord>
    decreases ms.len(),
{
    if ms.len() == 0 {
        prune(now, log)
    } else {
        let m = ms.last();
        prune(now, after_batch(log, now, protocol_id, ms.drop_last())).push(
            SentRecord { arb_id: m.arb_id, data: m.data@.take(tx_payload_len(protocol_id, m.data@.len()) as int), timestamp: now })
    }
}

/// Remembers the frames of a batch or raw write that the driver reports
/// as written (`written` of them, at most all).
pub fn record_batch(log: &mut SentLog, now: u64, protocol_id: u32, messages: &[BatchMessage], written: u32)
    ensures
        final(log)@ == after_batch(old(log)@, now, protocol_id,
            messages@.take(if (written as int) < messages@.len() { written as int } else { messages@.len() as int })),
{
    let count: usize = if (written as usize) < messages.len() { written as usize } else { messages.len() };
    log.prune(now);
    assert(messages@.take(0) =~= Seq::<BatchMessage>::empty());
    let mut i: usize = 0;
    while i < count
        invariant
            count <= messages@.len(),
            i <= count,
            log@ == after_batch(old(log)@, now, protocol_id, messages@.take(i as int)),
        decreases count - i,
    {
        let m = &messages[i];
        let n = tx_payload_length(protocol_id, m.data.len());
        let kept = super::frame::copy_range(m.data.as_slice(), 0, n);
        assert(kept@ =~= m.data@.take(n as int));
        log.record(now, m.arb_id, kept.as_slice());
        assert(messages@.take(i + 1).drop_last() =~= messages@.take(i as int));
        i = i + 1;
    }
}

/// A filter mask or pattern in the standard layout: the first four bytes
/// (zero-padded), size 4.
pub open spec fn filter_frame(protocol_id: u32, bytes: Seq<u8>, extended: bool) -> PassThruMsgView {
    frame_of(protocol_id, id_tx_flags(extended), 4, bytes.take(min_nat(bytes.len(), 4) as int))
}

/// Lays out a filter mask or pattern in the standard layout.
pub fn filter_message(protocol_id: u32, bytes: &[u8], extended: bool) -> (m: PassThruMsg)
    ensures
        m@ == filter_frame(protocol_id, bytes@, extended),
{
    let keep = if bytes.len() < 4 { bytes.len() } else { 4 };
    build_frame(protocol_id, tx_flags_for(extended), 4, bytes, keep)
}

/// A filter mask or pattern in the raw layout: up to twelve bytes, its
/// size the number kept.
pub open spec fn raw_filter_frame(protocol_id: u32, bytes: Seq<u8>, extended: bool) -> PassThruMsgView {
    let n = min_nat(bytes.len(), 12);
    frame_of(protocol_id, id_tx_flags(extended), n as u32, bytes.take(n as int))
}

/// Lays out the mask and pattern of a raw filter; both must hold a byte.
pub fn raw_filter_messages(protocol_id: u32, mask: &[u8], pattern: &[u8], extended: bool) -> (r: Result<(PassThruMsg, PassThruMsg), String>)
    ensures
        match r {
            Ok((m, p)) => mask@.len() > 0 && pattern@.len() > 0 && m@ == raw_filter_frame(protocol_id, mask@, extended)
                && p@ == raw_filter_frame(protocol_id, pattern@, extended),
            Err(e) => (mask@.len() == 0 || pattern@.len() == 0)
                && e@ == "ERR_J2534_ADD_FILTER_FAILED: mask/pattern must be 1-12 bytes"@,
        },
{
    let mask_len = if mask.len() < 12 { mask.len() } else { 12 };
    let pattern_len = if pattern.len() < 12 { pattern.len() } else { 12 };
    if mask_len == 0 || pattern_len == 0 {
        return Err(String::from_str("ERR_J2534_ADD_FILTER_FAILED: mask/pattern must be 1-12 bytes"));
    }
    let m = build_frame(protocol_id, tx_flags_for(extended), mask_len as u32, mask, mask_len);
    let p = build_frame(protocol_id, tx_flags_for(extended), pattern_len as u32, pattern, pattern_len);
    Ok((m, p))
}

/// A driver call made when a connection is closed.
#[derive(Debug, Clone, Copy, PartialEq, Eq, Structural)]
pub enum TeardownCall {
    Disconnect { channel_id: u32 },
    Close { device_id: u32 },
}

/// The calls that close a connection: the 29-bit channel (if any) is
/// disconnected first, then the main channel, then the device is closed.
pub open spec fn teardown_calls(device_id: u32, channel_id: u32, channel_id_29bit: Option<u32>) -> Seq<TeardownCall> {
    match channel_id_29bit {
        Some(c) => seq![
            TeardownCall::Disconnect { channel_id: c },
            TeardownCall::Disconnect { channel_id },
            TeardownCall::Close { device_id },
        ],
        None => seq![TeardownCall::Disconnect { channel_id }, TeardownCall::Close { device_id }],
    }
}

/// Lists the calls that close a connection.
pub fn teardown(device_id: u32, channel_id: u32, channel_id_29bit: Option<u32>) -> (v: Vec<TeardownCall>)
    ensures
        v@ == teardown_calls(device_id, channel_id, channel_id_29bit),
{
    let mut v: Vec<TeardownCall> = Vec::new();
    match channel_id_29bit {
        Some(c) => v.push(TeardownCall::Disconnect { channel_id: c }),
        None => {},
    }
    v.push(TeardownCall::Disconnect { channel_id });
    v.push(TeardownCall::Close { device_id });
    assert(v@ =~= teardown_calls(device_id, channel_id, channel_id_29bit));
    v
}

} // verus!
