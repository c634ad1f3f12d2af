//! Bookkeeping of the loopback stress test: each sent frame carries a
//! marker and its sequence number; echoes read back are matched against the
//! frames still pending, and everything else counts as bus traffic.

use vstd::prelude::*;
use crate::protocol::CanMessage;
use crate::j2534::frame::{be_value, read_be, copy_range};
use crate::j2534::echo::bytes_equal;

verus! {

/// First byte of every stress-test payload.
pub const STRESS_MARKER: u8 = 0xA5;

/// The payload of stress frame `seq`: the marker, `seq` big-endian, then
/// three zero bytes.
pub open spec fn stress_bytes(seq: u32) -> Seq<u8> {
    seq![
        STRESS_MARKER,
        (seq / 0x1000000) as u8,
        ((seq / 0x10000) % 0x100) as u8,
        ((seq / 0x100) % 0x100) as u8,
        (seq % 0x100) as u8,
        0u8,
        0u8,
        0u8,
    ]
}

/// Builds the payload of stress frame `seq`.
pub fn stress_payload(seq: u32) -> (v: Vec<u8>)
    ensures
        v@ == stress_bytes(seq),
{
    let mut v: Vec<u8> = Vec::new();
    v.push(STRESS_MARKER);
    v.push((seq / 0x1000000) as u8);
    v.push(((seq / 0x10000) % 0x100) as u8);
    v.push(((seq / 0x100) % 0x100) as u8);
    v.push((seq % 0x100) as u8);
    v.push(0);
    v.push(0);
    v.push(0);
    assert(v@ =~= stress_bytes(seq));
    v
}

/// A frame read back is one of ours: our id and the marker first.
pub open spec fn is_stress_echo(m: CanMessage, tx_id: u32) -> bool {
    m.arb_id == tx_id && m.data@.len() > 0 && m.data@[0] == STRESS_MARKER
}

/// The sequence number an echo carries (`u32::MAX` when it is too short).
pub open spec fn echo_seq_of(data: Seq<u8>) -> u32 {
    if data.len() >= 5 { be_value(data.subrange(1, 5)) } else { u32::MAX }
}

/// Reads the sequence number of an echo.
pub fn echo_seq(data: &[u8]) -> (s: u32)
    ensures
        s == echo_seq_of(data@),
{
    if data.len() >= 5 { read_be(data, 1) } else { u32::MAX }
}

/// Model of the test's state.
pub struct StressState {
    /// Frames sent and not yet seen back, oldest first.
    pub pending: Seq<(u32, Seq<u8>)>,
    pub sent: nat,
    pub received: nat,
    pub matched: nat,
    pub mismatched: nat,
    pub bus_frames: nat,
}

/// Every echo is counted once, as matched or mismatched, and each matched
/// echo retired a frame that was sent.
pub open spec fn stress_wf(s: StressState) -> bool {
    &&& s.received == s.matched + s.mismatched
    &&& s.pending.len() + s.matched <= s.sent
}

/// `k` is the oldest pending frame with sequence number `seq`.
pub open spec fn first_pending(p: Seq<(u32, Seq<u8>)>, seq: u32, k: int) -> bool {
    0 <= k < p.len() && p[k].0 == seq && forall|j: int| 0 <= j < k ==> p[j].0 != seq
}

/// Some frame with sequence number `seq` is pending.
pub open spec fn is_pending(p: Seq<(u32, Seq<u8>)>, seq: u32) -> bool {
    exists|k: int| first_pending(p, seq, k)
}

/// The payload of the oldest pending frame with sequence number `seq`.
pub open spec fn pending_payload(p: Seq<(u32, Seq<u8>)>, seq: u32) -> Seq<u8> {
    p[choose|k: int| first_pending(p, seq, k)].1
}

/// `payload` is what the oldest pending frame with number `seq` carried.
pub open spec fn is_sent_payload(p: Seq<(u32, Seq<u8>)>, seq: u32, payload: Seq<u8>) -> bool {
    payload == pending_payload(p, seq)
}

/// An echo matches a sent payload: all eight bytes are the same.
pub open spec fn echo_matches(data: Seq<u8>, payload: Seq<u8>) -> bool {
    data.len() == 8 && data == payload
}

/// How a frame read back was judged.
#[derive(Debug)]
pub enum EchoVerdict {
    /// An echo of a pending frame, byte for byte.
    Matched,
    /// An echo of a pending frame with other bytes (the frame is retired).
    Mismatched { seq: u32, expected: Vec<u8> },
    /// An echo whose sequence number is not pending.
    Unexpected { seq: u32 },
    /// Other traffic on the bus.
    Bus,
}

/// The state after a frame is read back.
pub open spec fn observe_step(s: StressState, m: CanMessage, tx_id: u32) -> StressState {
    if is_stress_echo(m, tx_id) {
        let seq = echo_seq_of(m.data@);
        if exists|k: int| first_pending(s.pending, seq, k) {
            let k = choose|k: int| first_pending(s.pending, seq, k);
            let good = m.data@.len() == 8 && m.data@ == s.pending[k].1;
            StressState {
                pending: s.pending.remove(k),
                received: s.received + 1,
                matched: if good { s.matched + 1 } else { s.matched },
                mismatched: if good { s.mismatched } else { s.mismatched + 1 },
                ..s
            }
        } else {
            StressState { received: s.received + 1, mismatched: s.mismatched + 1, ..s }
        }
    } else {
        StressState { bus_frames: s.bus_frames + 1, ..s }
    }
}

fn find_pending(pending: &Vec<(u32, Vec<u8>)>, seq: u32) -> (r: Option<usize>)
    ensures
        match r {
            Some(i) => i < pending@.len() && pending@[i as int].0 == seq
                && forall|j: int| 0 <= j < i ==> pending@[j].0 != seq,
            None => forall|j: int| 0 <= j < pending@.len() ==> pending@[j].0 != seq,
        },
{
    let mut i: usize = 0;
    while i < pending.len()
        invariant
            i <= pending@.len(),
            forall|j: int| 0 <= j < i ==> pending@[j].0 != seq,
        decreases pending@.len() - i,
    {
        if pending[i].0 == seq {
            return Some(i);
        }
        i = i + 1;
    }
    None
}

/// The running stress test.
pub struct StressTracker {
    pending: Vec<(u32, Vec<u8>)>,
    sent: u32,
    received: u32,
    matched: u32,
    mismatched: u32,
    bus_frames: u64,
}

/// Models of pending frames.
pub open spec fn pending_views(v: Seq<(u32, Vec<u8>)>) -> Seq<(u32, Seq<u8>)> {
    v.map_values(|e: (u32, Vec<u8>)| (e.0, e.1@))
}

impl View for StressTracker {
    type V = StressState;

    closed spec fn view(&self) -> StressState {
        StressState {
            pending: pending_views(self.pending@),
            sent: self.sent as nat,
            received: self.received as nat,
            matched: self.matched as nat,
            mismatched: self.mismatched as nat,
            bus_frames: self.bus_frames as nat,
        }
    }
}

impl StressTracker {
    /// A test with nothing sent.
    pub fn new() -> (t: StressTracker)
        ensures
            t@ == (StressState { pending: Seq::empty(), sent: 0, received: 0, matched: 0, mismatched: 0, bus_frames: 0 }),
            stress_wf(t@),
    {
        let t = StressTracker { pending: Vec::new(), sent: 0, received: 0, matched: 0, mismatched: 0, bus_frames: 0 };
        assert(pending_views(t.pending@) =~= Seq::<(u32, Seq<u8>)>::empty());
        t
    }

    /// Records a sent frame.
    pub fn record_sent(&mut self, seq: u32, payload: Vec<u8>)
        requires
            stress_wf(old(self)@),
            old(self)@.sent < u32::MAX,
        ensures
            final(self)@ == (StressState { pending: old(self)@.pending.push((seq, payload@)), sent: old(self)@.sent + 1, ..old(self)@ }),
            stress_wf(final(self)@),
    {
        let ghost before = self.pending@;
        let ghost pv = payload@;
        self.pending.push((seq, payload));
        self.sent = self.sent + 1;
        assert(pending_views(self.pending@) =~= pending_views(before).push((seq, pv)));
    }

    /// Whether another frame can be counted without a counter overflowing.
    pub fn can_observe(&self) -> (b: bool)
        ensures
            b == (self@.received < u32::MAX && self@.matched < u32::MAX && self@.mismatched < u32::MAX
                && self@.bus_frames < u64::MAX),
    {
        self.received < u32::MAX && self.matched < u32::MAX && self.mismatched < u32::MAX && self.bus_frames < u64::MAX
    }

    /// Judges a frame read back and counts it.
    pub fn observe(&mut self, msg: &CanMessage, tx_id: u32) -> (v: EchoVerdict)
        requires
            stress_wf(old(self)@),
            old(self)@.received < u32::MAX,
            old(self)@.matched < u32::MAX,
            old(self)@.mismatched < u32::MAX,
            old(self)@.bus_frames < u64::MAX,
        ensures
            final(self)@ == observe_step(old(self)@, *msg, tx_id),
            stress_wf(final(self)@),
            v is Bus ==> !is_stress_echo(*msg, tx_id),
            v matches EchoVerdict::Unexpected { seq } ==> is_stress_echo(*msg, tx_id) && seq == echo_seq_of(msg.data@)
                && !is_pending(old(self)@.pending, seq),
            v is Matched ==> is_stress_echo(*msg, tx_id) && final(self)@.matched == old(self)@.matched + 1
                && final(self)@.pending.len() + 1 == old(self)@.pending.len()
                && is_pending(old(self)@.pending, echo_seq_of(msg.data@))
                && echo_matches(msg.data@, pending_payload(old(self)@.pending, echo_seq_of(msg.data@))),
            v matches EchoVerdict::Mismatched { seq, expected } ==> is_stress_echo(*msg, tx_id)
                && seq == echo_seq_of(msg.data@)
                && final(self)@.mismatched == old(self)@.mismatched + 1
                && final(self)@.pending.len() + 1 == old(self)@.pending.len()
                && is_pending(old(self)@.pending, seq)
                && is_sent_payload(old(self)@.pending, seq, expected@)
                && !echo_matches(msg.data@, expected@),
    {
        let ghost s0 = self@;
        if !(msg.arb_id == tx_id && msg.data.len() > 0 && msg.data[0] == STRESS_MARKER) {
            self.bus_frames = self.bus_frames + 1;
            return EchoVerdict::Bus;
        }
        self.received = self.received + 1;
        let seq = echo_seq(msg.data.as_slice());
        let ghost pv = pending_views(self.pending@);
        let found = find_pending(&self.pending, seq);
        if found.is_none() {
            proof {
                assert forall|k: int| !first_pending(s0.pending, seq, k) by {
                    if 0 <= k < s0.pending.len() {
                        assert(pv[k].0 != seq);
                    }
                }
            }
            self.mismatched = self.mismatched + 1;
            return EchoVerdict::Unexpected { seq };
        }
        let i = found.unwrap();
        proof {
            assert(first_pending(s0.pending, seq, i as int));
            let k = choose|k: int| first_pending(s0.pending, seq, k);
            if k < i {
                assert(pv[k].0 != seq);
            }
            if i < k {
                assert(pv[i as int].0 == seq);
            }
            assert(k == i);
        }
        let (_, expected) = self.pending.remove(i);
        assert(pending_views(self.pending@) =~= pv.remove(i as int));
        assert(expected@ == pv[i as int].1);
        let good = msg.data.len() == 8 && bytes_equal(msg.data.as_slice(), expected.as_slice());
        assert(first_pending(s0.pending, seq, i as int));
        assert(is_pending(s0.pending, seq));
        assert(pending_payload(s0.pending, seq) == s0.pending[i as int].1);
        if good {
            self.matched = self.matched + 1;
            assert(echo_matches(msg.data@, s0.pending[i as int].1));
            EchoVerdict::Matched
        } else {
            self.mismatched = self.mismatched + 1;
            assert(expected@ == s0.pending[i as int].1);
            assert(!echo_matches(msg.data@, expected@));
            assert(is_sent_payload(s0.pending, seq, expected@));
            EchoVerdict::Mismatched { seq, expected }
        }
    }

    /// Whether frames are still waiting for their echo.
    pub fn has_pending(&self) -> (b: bool)
        ensures
            b == (self@.pending.len() > 0),
    {
        proof {
            assert(pending_views(self.pending@).len() == self.pending@.len());
        }
        self.pending.len() > 0
    }

    /// Frames sent.
    pub fn sent(&self) -> (n: u32)
        ensures
            n == self@.sent,
    {
        self.sent
    }

    /// Echoes read back.
    pub fn received(&self) -> (n: u32)
        ensures
            n == self@.received,
    {
        self.received
    }

    /// Echoes that matched their frame.
    pub fn matched(&self) -> (n: u32)
        ensures
            n == self@.matched,
    {
        self.matched
    }

    /// Echoes that did not match, or matched no pending frame.
    pub fn mismatched(&self) -> (n: u32)
        ensures
            n == self@.mismatched,
    {
        self.mismatched
    }

    /// Other frames seen on the bus.
    pub fn bus_frames(&self) -> (n: u64)
        ensures
            n == self@.bus_frames,
    {
        self.bus_frames
    }

    /// Frames sent whose echo never came.
    pub fn lost(&self) -> (n: u32)
        requires
            self@.received <= self@.sent,
        ensures
            n == self@.sent - self@.received,
    {
        self.sent - self.received
    }

    /// The test passes when nothing was lost and nothing mismatched.
    pub fn passed(&self) -> (b: bool)
        requires
            self@.received <= self@.sent,
        ensures
            b == (self@.sent == self@.received && self@.mismatched == 0),
    {
        self.sent == self.received && self.mismatched == 0
    }
}

/// A passing test matched every frame it sent.
pub proof fn lemma_pass_means_all_matched(s: StressState)
    requires
        stress_wf(s),
        s.sent == s.received,
        s.mismatched == 0,
    ensures
        s.matched == s.sent,
        s.pending.len() == 0,
{
}

} // verus!
