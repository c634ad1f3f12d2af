//! K-Line initialisation: fast init, five-baud (slow) init with the wait
//! for the ECU's 0xCC acknowledgement, and the automatic mode that falls
//! back from the first to the second. The driver calls and the clock stay
//! with the caller; these functions decide what to call and what the
//! outcome is.

use vstd::prelude::*;
use vstd::string::*;
use crate::text::push_str;
use super::frame::{
    PassThruMsg, PassThruMsgView, CANMessage, CanFrame, PASSTHRU_DATA_LEN, frame_of, build_frame,
    copy_range, copy_message, min_nat,
};
use super::drain::message_views;
use super::KlineInitResult;
use crate::text::str_equals;

verus! {

/// Fast-init request sent when none is given: StartCommunication to the
/// functional address.
pub const DEFAULT_FAST_INIT: [u8; 5] = [0xC1, 0x33, 0xF1, 0x81, 0x66];

/// Five-baud address used when none is given.
pub const DEFAULT_FIVE_BAUD_ADDRESS: u8 = 0x33;

/// Time allowed for the 0xCC acknowledgement after a slow init, when the
/// request does not say.
pub const DEFAULT_CC_TIMEOUT_MS: u32 = 300;

/// Each read while waiting for 0xCC: its timeout, batch size and read budget.
pub const CC_POLL_TIMEOUT_MS: u32 = 50;
pub const CC_POLL_BATCH_SIZE: u32 = 16;
pub const CC_POLL_MAX_READS: u32 = 1;

/// Size of the five-baud reply buffer handed to the driver.
pub const FIVE_BAUD_REPLY_LEN: usize = 16;

/// Model of a K-Line init result.
pub struct KlineInitView {
    pub init_method: Seq<char>,
    pub detected_protocol: Seq<char>,
    pub keyword_bytes: Seq<u8>,
    pub cc_received: bool,
    pub init_response: Seq<CanFrame>,
}

impl View for KlineInitResult {
    type V = KlineInitView;

    open spec fn view(&self) -> KlineInitView {
        KlineInitView {
            init_method: self.init_method@,
            detected_protocol: self.detected_protocol@,
            keyword_bytes: self.keyword_bytes@,
            cc_received: self.cc_received,
            init_response: message_views(self.init_response@),
        }
    }
}

/// The default fast-init request.
pub open spec fn default_fast_bytes() -> Seq<u8> {
    seq![0xC1u8, 0x33u8, 0xF1u8, 0x81u8, 0x66u8]
}

/// The default five-baud address.
pub open spec fn default_slow_bytes() -> Seq<u8> {
    seq![0x33u8]
}

/// The fast-init request frame: the bytes as they are, no flags.
pub open spec fn fast_init_frame(protocol_id: u32, data: Seq<u8>) -> PassThruMsgView {
    frame_of(protocol_id, 0, data.len() as u32, data)
}

/// Lays out the fast-init request.
pub fn fast_init_message(protocol_id: u32, data: &[u8]) -> (m: PassThruMsg)
    requires
        data@.len() <= PASSTHRU_DATA_LEN,
    ensures
        m@ == fast_init_frame(protocol_id, data@),
{
    let m = build_frame(protocol_id, 0, data.len() as u32, data, data.len());
    assert(data@.take(data@.len() as int) =~= data@);
    m
}

/// The reply of a five-baud init: the bytes the driver reported, at most
/// the buffer's size, as a frame without identifier.
pub open spec fn five_baud_frame(reply: Seq<u8>, num_of_bytes: u32, protocol_id: u32) -> CanFrame {
    let n = min_nat(num_of_bytes as nat, reply.len());
    CanFrame {
        timestamp_us: 0,
        arb_id: 0,
        extended: false,
        data: reply.take(n as int),
        raw_arb_id: 0,
        rx_status: 0,
        data_size: n as u32,
        protocol_id,
    }
}

/// Builds the reply of a five-baud init from the driver's reply buffer and
/// the byte count it reported.
pub fn five_baud_reply(reply: &[u8], num_of_bytes: u32, protocol_id: u32) -> (c: CANMessage)
    requires
        reply@.len() <= u32::MAX,
    ensures
        c@ == five_baud_frame(reply@, num_of_bytes, protocol_id),
{
    let n: usize = if (num_of_bytes as usize) < reply.len() { num_of_bytes as usize } else { reply.len() };
    let data = copy_range(reply, 0, n);
    assert(reply@.subrange(0, n as int) =~= reply@.take(n as int));
    CANMessage {
        timestamp_us: 0,
        arb_id: 0,
        extended: false,
        data,
        raw_arb_id: 0,
        rx_status: 0,
        data_size: n as u32,
        protocol_id,
    }
}

/// Keyword bytes that name ISO 9141: 08 08 or 94 94.
pub open spec fn is_iso9141_keywords(kw: Seq<u8>) -> bool {
    kw.len() >= 2 && ((kw[0] == 0x08 && kw[1] == 0x08) || (kw[0] == 0x94 && kw[1] == 0x94))
}

/// Protocol named by the keyword bytes of a five-baud init: 08 08 and
/// 94 94 are ISO 9141; anything else, a short reply included, is ISO 14230.
pub open spec fn keyword_protocol(kw: Seq<u8>) -> Seq<char> {
    if is_iso9141_keywords(kw) { "iso9141"@ } else { "iso14230-slow"@ }
}

/// Classifies the keyword bytes of a five-baud init.
pub fn classify_keywords(kw: &[u8]) -> (p: &'static str)
    ensures
        p@ == keyword_protocol(kw@),
{
    if kw.len() >= 2 && ((kw[0] == 0x08 && kw[1] == 0x08) || (kw[0] == 0x94 && kw[1] == 0x94)) {
        "iso9141"
    } else {
        "iso14230-slow"
    }
}

/// Which init to run.
#[derive(Debug, Clone)]
pub enum KlineAttempt {
    /// Fast init with this request.
    Fast(Vec<u8>),
    /// Five-baud init to this address.
    Slow(Vec<u8>),
}

/// The init to run first, and the five-baud address to fall back to when a
/// fast init fails (automatic mode only).
#[derive(Debug, Clone)]
pub struct KlinePlan {
    pub first: KlineAttempt,
    pub fallback: Option<Vec<u8>>,
}

/// Model of an attempt.
pub enum AttemptView {
    Fast(Seq<u8>),
    Slow(Seq<u8>),
}

/// Model of a plan.
pub struct PlanView {
    pub first: AttemptView,
    pub fallback: Option<Seq<u8>>,
}

impl View for KlinePlan {
    type V = PlanView;

    open spec fn view(&self) -> PlanView {
        PlanView {
            first: match self.first {
                KlineAttempt::Fast(d) => AttemptView::Fast(d@),
                KlineAttempt::Slow(a) => AttemptView::Slow(a@),
            },
            fallback: match self.fallback {
                Some(a) => Some(a@),
                None => None,
            },
        }
    }
}

/// The given bytes, or the default when none are given.
pub open spec fn or_default(given: Option<Seq<u8>>, default: Seq<u8>) -> Seq<u8> {
    match given {
        Some(b) => b,
        None => default,
    }
}

/// The bytes of an optional slice.
pub open spec fn opt_bytes(o: Option<&[u8]>) -> Option<Seq<u8>> {
    match o {
        Some(b) => Some(b@),
        None => None,
    }
}

/// The plan for a mode name: "fast", "slow" or "auto".
pub open spec fn kline_plan(mode: Seq<char>, fast: Option<Seq<u8>>, slow: Option<Seq<u8>>) -> Result<PlanView, Seq<char>> {
    if mode == "fast"@ {
        Ok(PlanView { first: AttemptView::Fast(or_default(fast, default_fast_bytes())), fallback: None })
    } else if mode == "slow"@ {
        Ok(PlanView { first: AttemptView::Slow(or_default(slow, default_slow_bytes())), fallback: None })
    } else if mode == "auto"@ {
        Ok(PlanView {
            first: AttemptView::Fast(or_default(fast, default_fast_bytes())),
            fallback: Some(or_default(slow, default_slow_bytes())),
        })
    } else {
        Err("Unknown kline init mode: "@ + mode)
    }
}

/// The plan sends what the caller gives: in every mode whose first attempt
/// is a fast init, that init sends exactly the given fast-init bytes, and
/// the request `C1 33 F1 81 66` only when none are given; a five-baud
/// attempt or fallback goes to the given address, or 0x33 when none is
/// given. "fast" plans a fast init alone, "slow" a five-baud init alone,
/// "auto" a fast init falling back to a five-baud init, and any other mode
/// is refused.
pub proof fn lemma_kline_plan_uses_given_bytes(mode: Seq<char>, fast: Option<Seq<u8>>, slow: Option<Seq<u8>>)
    ensures
        kline_plan(mode, fast, slow) matches Ok(p) ==> {
            &&& (p.first matches AttemptView::Fast(d) ==> d == match fast {
                Some(b) => b,
                None => seq![0xC1u8, 0x33u8, 0xF1u8, 0x81u8, 0x66u8],
            })
            &&& (p.first matches AttemptView::Slow(a) ==> a == match slow { Some(b) => b, None => seq![0x33u8] })
            &&& (p.fallback matches Some(a) ==> a == match slow { Some(b) => b, None => seq![0x33u8] })
        },
        mode == "fast"@ ==> (kline_plan(mode, fast, slow) matches Ok(p) && p.first is Fast && p.fallback is None),
        mode == "slow"@ ==> (kline_plan(mode, fast, slow) matches Ok(p) && p.first is Slow && p.fallback is None),
        mode == "auto"@ ==> (kline_plan(mode, fast, slow) matches Ok(p) && p.first is Fast && p.fallback is Some),
        (kline_plan(mode, fast, slow) is Ok) <==> (mode == "fast"@ || mode == "slow"@ || mode == "auto"@),
{
    reveal_strlit("fast");
    reveal_strlit("slow");
    reveal_strlit("auto");
    assert("fast"@[0] != "slow"@[0] && "fast"@[0] != "auto"@[0] && "slow"@[0] != "auto"@[0]);
}

fn bytes_or(given: Option<&[u8]>, default: &[u8]) -> (v: Vec<u8>)
    ensures
        v@ == match given {
            Some(b) => b@,
            None => default@,
        },
{
    let src = match given {
        Some(b) => b,
        None => default,
    };
    copy_range(src, 0, src.len())
}

/// Decides which init to run for a mode name.
pub fn plan_kline_init(mode: &str, fast_init_data: Option<&[u8]>, five_baud_address: Option<&[u8]>) -> (r: Result<KlinePlan, String>)
    ensures
        match r {
            Ok(p) => kline_plan(mode@, opt_bytes(fast_init_data), opt_bytes(five_baud_address)) == Ok::<PlanView, Seq<char>>(p@),
            Err(e) => kline_plan(mode@, opt_bytes(fast_init_data), opt_bytes(five_baud_address)) == Err::<PlanView, Seq<char>>(e@),
        },
{
    let default_fast: [u8; 5] = DEFAULT_FAST_INIT;
    let default_slow: [u8; 1] = [DEFAULT_FIVE_BAUD_ADDRESS];
    assert(default_fast@ =~= default_fast_bytes());
    assert(default_slow@ =~= default_slow_bytes());
    if str_equals(mode, "fast") {
        Ok(KlinePlan { first: KlineAttempt::Fast(bytes_or(fast_init_data, default_fast.as_slice())), fallback: None })
    } else if str_equals(mode, "slow") {
        Ok(KlinePlan { first: KlineAttempt::Slow(bytes_or(five_baud_address, default_slow.as_slice())), fallback: None })
    } else if str_equals(mode, "auto") {
        Ok(KlinePlan {
            first: KlineAttempt::Fast(bytes_or(fast_init_data, default_fast.as_slice())),
            fallback: Some(bytes_or(five_baud_address, default_slow.as_slice())),
        })
    } else {
        let mut e = String::from_str("Unknown kline init mode: ");
        push_str(&mut e, mode);
        Err(e)
    }
}

/// The result of a successful fast init.
pub open spec fn fast_result(resp: CanFrame) -> KlineInitView {
    KlineInitView {
        init_method: "fast"@,
        detected_protocol: "iso14230-fast"@,
        keyword_bytes: Seq::empty(),
        cc_received: false,
        init_response: seq![resp],
    }
}

/// What follows a fast init.
#[derive(Debug)]
pub enum AfterFastInit {
    /// The init succeeded.
    Done(KlineInitResult),
    /// The init failed and there is nothing to fall back to.
    Failed(String),
    /// The init failed: log the warning, then run a five-baud init.
    FallBack { warning: String, address: Vec<u8> },
}

/// Decides what follows a fast init, given its outcome and the fallback of
/// the plan.
pub fn after_fast_init(outcome: Result<CANMessage, String>, fallback: Option<Vec<u8>>) -> (r: AfterFastInit)
    ensures
        match outcome {
            Ok(resp) => r matches AfterFastInit::Done(res) && res@ == fast_result(resp@),
            Err(e) => match fallback {
                Some(a) => r matches AfterFastInit::FallBack { warning, address }
                    && warning@ == "[j2534] kline_init auto: fast init failed: "@ + e@
                    && address@ == a@,
                None => r matches AfterFastInit::Failed(f) && f@ == e@,
            },
        },
{
    match outcome {
        Ok(resp) => {
            let ghost rv = resp@;
            let res = KlineInitResult {
                init_method: String::from_str("fast"),
                detected_protocol: String::from_str("iso14230-fast"),
                keyword_bytes: Vec::new(),
                cc_received: false,
                init_response: vec![resp],
            };
            assert(res@.init_response =~= seq![rv]);
            AfterFastInit::Done(res)
        },
        Err(e) => match fallback {
            Some(address) => {
                let mut warning = String::from_str("[j2534] kline_init auto: fast init failed: ");
                push_str(&mut warning, e.as_str());
                AfterFastInit::FallBack { warning, address }
            },
            None => AfterFastInit::Failed(e),
        },
    }
}

/// A frame carries the acknowledgement byte 0xCC.
pub open spec fn has_cc(f: CanFrame) -> bool {
    f.data.contains(0xCCu8)
}

/// Some frame carries 0xCC.
pub open spec fn any_cc(fs: Seq<CanFrame>) -> bool {
    exists|i: int| 0 <= i < fs.len() && #[trigger] has_cc(fs[i])
}

/// Model of the wait for 0xCC after a five-baud init.
pub struct CcWaitView {
    pub init: CanFrame,
    pub extra: Seq<CanFrame>,
    pub cc_received: bool,
    pub stopped: bool,
}

/// The result of a slow init: the keyword bytes, the protocol they name,
/// whether 0xCC came, and the init reply followed by every frame read.
pub open spec fn slow_result(w: CcWaitView) -> KlineInitView {
    KlineInitView {
        init_method: "slow"@,
        detected_protocol: keyword_protocol(w.init.data),
        keyword_bytes: w.init.data,
        cc_received: w.cc_received,
        init_response: seq![w.init] + w.extra,
    }
}

/// The wait for 0xCC after a five-baud init. The caller reads (with
/// `CC_POLL_*`) while time remains and `absorb` asks for more.
pub struct CcWait {
    init: CANMessage,
    extra: Vec<CANMessage>,
    cc_received: bool,
    stopped: bool,
}

impl View for CcWait {
    type V = CcWaitView;

    closed spec fn view(&self) -> CcWaitView {
        CcWaitView {
            init: self.init@,
            extra: message_views(self.extra@),
            cc_received: self.cc_received,
            stopped: self.stopped,
        }
    }
}

fn frame_has_cc(m: &CANMessage) -> (b: bool)
    ensures
        b == has_cc(m@),
{
    let n = m.data.len();
    let mut i: usize = 0;
    while i < n
        invariant
            n == m.data@.len(),
            i <= n,
            forall|j: int| 0 <= j < i ==> m.data@[j] != 0xCCu8,
        decreases n - i,
    {
        if m.data[i] == 0xCC {
            assert(m.data@[i as int] == 0xCCu8);
            return true;
        }
        i = i + 1;
    }
    false
}

impl CcWait {
    /// Starts the wait with the five-baud reply.
    pub fn new(init: CANMessage) -> (w: CcWait)
        ensures
            w@ == (CcWaitView { init: init@, extra: Seq::empty(), cc_received: false, stopped: false }),
    {
        let w = CcWait { init, extra: Vec::new(), cc_received: false, stopped: false };
        assert(message_views(w.extra@) =~= Seq::<CanFrame>::empty());
        w
    }

    /// Takes the outcome of one read. Frames are kept in the order read;
    /// a failed read ends the wait. Returns whether to read again (no 0xCC
    /// yet and no failure).
    pub fn absorb(&mut self, read: Result<Vec<CANMessage>, String>) -> (more: bool)
        requires
            !old(self)@.cc_received,
            !old(self)@.stopped,
        ensures
            match read {
                Ok(ms) => {
                    &&& final(self)@.extra == old(self)@.extra + message_views(ms@)
                    &&& final(self)@.cc_received == any_cc(message_views(ms@))
                    &&& !final(self)@.stopped
                },
                Err(_) => final(self)@.extra == old(self)@.extra && !final(self)@.cc_received && final(self)@.stopped,
            },
            final(self)@.init == old(self)@.init,
            more == (!final(self)@.cc_received && !final(self)@.stopped),
    {
        match read {
            Ok(ms) => {
                let ghost mv = message_views(ms@);
                let ghost start = message_views(self.extra@);
                let mut found = false;
                let mut i: usize = 0;
                let n = ms.len();
                while i < n
                    invariant
                        n == ms@.len(),
                        i <= n,
                        mv == message_views(ms@),
                        message_views(self.extra@) == start + mv.take(i as int),
                        found == any_cc(mv.take(i as int)),
                        self.init == old(self).init,
                        self.cc_received == old(self).cc_received,
                        self.stopped == old(self).stopped,
                    decreases n - i,
                {
                    let m = copy_message(&ms[i]);
                    let c = frame_has_cc(&m);
                    let ghost before = self.extra@;
                    self.extra.push(m);
                    proof {
                        assert(mv.take(i + 1) =~= mv.take(i as int).push(mv[i as int]));
                        assert(message_views(self.extra@) =~= message_views(before).push(mv[i as int]));
                        if c {
                            assert(has_cc(mv.take(i + 1)[i as int]));
                        }
                        if found {
                            let k = choose|k: int| 0 <= k < mv.take(i as int).len() && #[trigger] has_cc(mv.take(i as int)[k]);
                            assert(has_cc(mv.take(i + 1)[k]));
                        }
                        if any_cc(mv.take(i + 1)) {
                            let k = choose|k: int| 0 <= k < mv.take(i + 1).len() && #[trigger] has_cc(mv.take(i + 1)[k]);
                            if k < i {
                                assert(has_cc(mv.take(i as int)[k]));
                            }
                        }
                    }
                    found = found || c;
                    i = i + 1;
                }
                assert(mv.take(n as int) =~= mv);
                self.cc_received = found;
                !found
            },
            Err(_) => {
                self.stopped = true;
                false
            },
        }
    }

    /// The result of the slow init.
    pub fn finish(self) -> (r: KlineInitResult)
        ensures
            r@ == slow_result(self@),
    {
        let ghost w = self@;
        let keyword_bytes = copy_range(self.init.data.as_slice(), 0, self.init.data.len());
        assert(keyword_bytes@ =~= w.init.data);
        let detected = classify_keywords(keyword_bytes.as_slice());
        let mut init_response: Vec<CANMessage> = vec![self.init];
        let mut extra = self.extra;
        init_response.append(&mut extra);
        assert(message_views(init_response@) =~= seq![w.init] + w.extra);
        KlineInitResult {
            init_method: String::from_str("slow"),
            detected_protocol: String::from_str(detected),
            keyword_bytes,
            cc_received: self.cc_received,
            init_response,
        }
    }
}

} // verus!
