//! Tracking of recently sent frames, so that a driver's echo of a frame we
//! sent is not reported as received traffic (some drivers do not flag their
//! transmit echoes). Entries expire after `ECHO_WINDOW_MS`; each entry
//! absorbs at most one echo.

use vstd::prelude::*;

verus! {

/// How long a sent frame is remembered, in milliseconds.
pub const ECHO_WINDOW_MS: u64 = 500;

/// Tracks a recently sent message for TX echo filtering.
/// `timestamp` is in milliseconds on a monotonic clock.
#[derive(Debug, Clone)]
pub struct SentMessage {
    pub arb_id: u32,
    pub data: Vec<u8>,
    pub timestamp: u64,
}

/// Mathematical model of a sent message.
pub struct SentRecord {
    pub arb_id: u32,
    pub data: Seq<u8>,
    pub timestamp: u64,
}

impl View for SentMessage {
    type V = SentRecord;

    open spec fn view(&self) -> SentRecord {
        SentRecord { arb_id: self.arb_id, data: self.data@, timestamp: self.timestamp }
    }
}

/// An entry sent at `timestamp` is still remembered at time `now`.
pub open spec fn is_fresh(now: u64, timestamp: u64) -> bool {
    timestamp + ECHO_WINDOW_MS > now
}

/// The entries still remembered at time `now`, in order.
pub open spec fn prune(now: u64, s: Seq<SentRecord>) -> Seq<SentRecord> {
    s.filter(|r: SentRecord| is_fresh(now, r.timestamp))
}

/// Whether an entry matches a received frame.
pub open spec fn echo_of(r: SentRecord, arb_id: u32, data: Seq<u8>) -> bool {
    r.arb_id == arb_id && r.data == data
}

/// `k` is the first entry of `s` that matches the frame.
pub open spec fn first_echo(s: Seq<SentRecord>, arb_id: u32, data: Seq<u8>, k: int) -> bool {
    &&& 0 <= k < s.len()
    &&& echo_of(s[k], arb_id, data)
    &&& forall|j: int| 0 <= j < k ==> !echo_of(#[trigger] s[j], arb_id, data)
}

/// No entry of `s` matches the frame.
pub open spec fn no_echo(s: Seq<SentRecord>, arb_id: u32, data: Seq<u8>) -> bool {
    forall|j: int| 0 <= j < s.len() ==> !echo_of(#[trigger] s[j], arb_id, data)
}

/// The recently sent messages, oldest first.
pub struct SentLog {
    entries: Vec<SentMessage>,
}

/// Models of a vector of sent messages.
pub open spec fn records(v: Seq<SentMessage>) -> Seq<SentRecord> {
    v.map_values(|m: SentMessage| m@)
}

impl View for SentLog {
    type V = Seq<SentRecord>;

    closed spec fn view(&self) -> Seq<SentRecord> {
        records(self.entries@)
    }
}

/// Byte-wise equality of two slices.
pub fn bytes_equal(a: &[u8], b: &[u8]) -> (eq: bool)
    ensures
        eq == (a@ == b@),
{
    if a.len() != b.len() {
        return false;
    }
    let mut i: usize = 0;
    while i < a.len()
        invariant
            a@.len() == b@.len(),
            i <= a@.len(),
            forall|j: int| 0 <= j < i ==> a@[j] == b@[j],
        decreases a.len() - i,
    {
        if a[i] != b[i] {
            return false;
        }
        i = i + 1;
    }
    assert(a@ =~= b@);
    true
}

fn fresh_at(now: u64, timestamp: u64) -> (b: bool)
    ensures
        b == is_fresh(now, timestamp),
{
    now < ECHO_WINDOW_MS || timestamp > now - ECHO_WINDOW_MS
}

impl SentLog {
    /// An empty log.
    pub fn new() -> (log: SentLog)
        ensures
            log@ == Seq::<SentRecord>::empty(),
    {
        let log = SentLog { entries: Vec::new() };
        assert(log@ =~= Seq::<SentRecord>::empty());
        log
    }

    /// Number of remembered entries.
    pub fn len(&self) -> (n: usize)
        ensures
            n == self@.len(),
    {
        self.entries.len()
    }

    /// Forgets the entries that have expired at time `now`.
    pub fn prune(&mut self, now: u64)
        ensures
            final(self)@ == prune(now, old(self)@),
    {
        let ghost orig = records(self.entries@);
        let ghost f = |r: SentRecord| is_fresh(now, r.timestamp);
        let mut i: usize = 0;
        let ghost mut j: int = 0;
        assert(orig.take(0).filter(f) =~= Seq::<SentRecord>::empty()) by {
            reveal_with_fuel(Seq::<_>::filter, 1);
        }
        assert(records(self.entries@) =~= orig.take(0).filter(f) + orig.skip(0));
        while i < self.entries.len()
            invariant
                0 <= j <= orig.len(),
                i == orig.take(j).filter(f).len(),
                records(self.entries@) == orig.take(j).filter(f) + orig.skip(j),
                self.entries@.len() == i + (orig.len() - j),
                f == (|r: SentRecord| is_fresh(now, r.timestamp)),
            decreases self.entries@.len() - i,
        {
            let ghost before = records(self.entries@);
            assert(orig.take(j + 1).drop_last() =~= orig.take(j));
            assert(before[i as int] == orig[j]);
            if fresh_at(now, self.entries[i].timestamp) {
                assert(orig.take(j + 1).filter(f) == orig.take(j).filter(f).push(orig[j])) by {
                    reveal_with_fuel(Seq::<_>::filter, 1);
                }
                i = i + 1;
                proof {
                    j = j + 1;
                }
                assert(records(self.entries@) =~= orig.take(j).filter(f) + orig.skip(j));
            } else {
                assert(orig.take(j + 1).filter(f) == orig.take(j).filter(f)) by {
                    reveal_with_fuel(Seq::<_>::filter, 1);
                }
                self.entries.remove(i);
                assert(records(self.entries@) =~= before.remove(i as int));
                assert(orig.skip(j) =~= seq![orig[j]] + orig.skip(j + 1));
                proof {
                    j = j + 1;
                }
                assert(records(self.entries@) =~= orig.take(j).filter(f) + orig.skip(j));
            }
        }
        assert(orig.take(j) =~= orig);
        assert(records(self.entries@) =~= prune(now, orig));
    }

    /// Remembers a frame sent at time `now`, after forgetting expired entries.
    pub fn record(&mut self, now: u64, arb_id: u32, data: &[u8])
        ensures
            final(self)@ == prune(now, old(self)@).push(SentRecord { arb_id, data: data@, timestamp: now }),
    {
        self.prune(now);
        let mut copy: Vec<u8> = Vec::new();
        super::frame::extend_range(&mut copy, data, 0, data.len());
        assert(copy@ =~= data@);
        let ghost before = records(self.entries@);
        self.entries.push(SentMessage { arb_id, data: copy, timestamp: now });
        assert(records(self.entries@) =~= before.push(SentRecord { arb_id, data: data@, timestamp: now }));
    }

    /// Whether a received frame is the echo of a remembered one. Expired
    /// entries are forgotten first; the first matching entry is consumed.
    pub fn take_echo(&mut self, now: u64, arb_id: u32, data: &[u8]) -> (echo: bool)
        ensures
            ({
                let p = prune(now, old(self)@);
                if echo {
                    exists|k: int| first_echo(p, arb_id, data@, k) && final(self)@ == p.remove(k)
                } else {
                    no_echo(p, arb_id, data@) && final(self)@ == p
                }
            }),
    {
        self.prune(now);
        let ghost p = records(self.entries@);
        let mut i: usize = 0;
        while i < self.entries.len()
            invariant
                p == records(self.entries@),
                p == prune(now, old(self)@),
                i <= p.len(),
                forall|j: int| 0 <= j < i ==> !echo_of(#[trigger] p[j], arb_id, data@),
            decreases self.entries@.len() - i,
        {
            assert(p[i as int] == self.entries@[i as int]@);
            if self.entries[i].arb_id == arb_id && bytes_equal(self.entries[i].data.as_slice(), data) {
                self.entries.remove(i);
                assert(records(self.entries@) =~= p.remove(i as int));
                assert(first_echo(p, arb_id, data@, i as int));
                assert(exists|k: int| first_echo(p, arb_id, data@, k) && records(self.entries@) =~= p.remove(k));
                return true;
            }
            i = i + 1;
        }
        false
    }
}

/// A frame remembered at time `sent_at` is recognised as an echo at any time
/// within the echo window, provided no earlier entry matches it.
pub proof fn lemma_recorded_frame_is_echo(log: Seq<SentRecord>, sent_at: u64, now: u64, arb_id: u32, data: Seq<u8>)
    requires
        sent_at <= now,
        now < sent_at + ECHO_WINDOW_MS,
        no_echo(prune(now, prune(sent_at, log)), arb_id, data),
    ensures
        ({
            let after = prune(sent_at, log).push(SentRecord { arb_id, data, timestamp: sent_at });
            let p = prune(now, after);
            first_echo(p, arb_id, data, p.len() - 1)
        }),
{
    let f = |r: SentRecord| is_fresh(now, r.timestamp);
    let before = prune(sent_at, log);
    let rec = SentRecord { arb_id, data, timestamp: sent_at };
    let after = before.push(rec);
    assert(after.drop_last() =~= before);
    assert(after.filter(f) == before.filter(f).push(rec)) by {
        reveal_with_fuel(Seq::<_>::filter, 1);
    }
}

} // verus!
