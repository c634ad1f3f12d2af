//! The host side of the bridge: the pipe name, where to look for the bridge
//! executable, and how each kind of reply is read back into a result. The
//! process, the pipe and the JSON encoding stay with the caller.

use vstd::prelude::*;
use vstd::string::*;
use crate::protocol::{
    Request, Response, ResponseData, Message, BatchMessage, CanMessage, DeviceInfo, VersionInfo,
    RawIoResult, KlineInitResult,
};
use crate::text::{push_str, push_decimal, dec_digits, trim_text, trimmed};
use crate::worker::filter_type_code;
use crate::j2534::{PASS_FILTER, BLOCK_FILTER, FLOW_CONTROL_FILTER};

verus! {

/// The pipe a client instance uses: `\\.\pipe\j2534-bridge-<pid>-<instance>`.
pub open spec fn pipe_name_text(pid: u32, instance: u64) -> Seq<char> {
    "\\\\.\\pipe\\j2534-bridge-"@ + dec_digits(pid as nat) + "-"@ + dec_digits(instance as nat)
}

/// Names the pipe of a client instance of this process.
pub fn pipe_name(pid: u32, instance: u64) -> (s: String)
    ensures
        s@ == pipe_name_text(pid, instance),
{
    let mut s = String::from_str("\\\\.\\pipe\\j2534-bridge-");
    push_decimal(&mut s, pid as u64);
    push_str(&mut s, "-");
    push_decimal(&mut s, instance);
    s
}

/// File name of the bridge executable for a bitness.
pub open spec fn bridge_name_text(bitness: u8) -> Seq<char> {
    if bitness == 32 { "j2534-bridge-32.exe"@ } else { "j2534-bridge-64.exe"@ }
}

/// The bridge executable's file name.
pub fn bridge_file_name(bitness: u8) -> (s: &'static str)
    ensures
        s@ == bridge_name_text(bitness),
{
    if bitness == 32 { "j2534-bridge-32.exe" } else { "j2534-bridge-64.exe" }
}

/// Target triple of development builds for a bitness.
pub open spec fn triple_text(bitness: u8) -> Seq<char> {
    if bitness == 32 { "i686-pc-windows-msvc"@ } else { "x86_64-pc-windows-msvc"@ }
}

/// The target triple of development builds.
pub fn target_triple(bitness: u8) -> (s: &'static str)
    ensures
        s@ == triple_text(bitness),
{
    if bitness == 32 { "i686-pc-windows-msvc" } else { "x86_64-pc-windows-msvc" }
}

/// How a candidate is announced on the error stream before it is tried.
#[derive(Debug, Clone, Copy, PartialEq, Eq, Structural)]
pub enum Announce {
    Quiet,
    PublishedDev,
    Dev,
}

/// A place the bridge executable may be: the executable's directory
/// `up` levels higher, joined with `parts`.
#[derive(Debug, Clone)]
pub struct BridgeCandidate {
    pub up: usize,
    pub parts: Vec<String>,
    pub announce: Announce,
}

/// Model of a candidate.
pub struct CandidateView {
    pub up: nat,
    pub parts: Seq<Seq<char>>,
    pub announce: Announce,
}

/// Texts of a sequence of strings.
pub open spec fn part_texts(v: Seq<String>) -> Seq<Seq<char>> {
    v.map_values(|s: String| s@)
}

impl View for BridgeCandidate {
    type V = CandidateView;

    open spec fn view(&self) -> CandidateView {
        CandidateView { up: self.up as nat, parts: part_texts(self.parts@), announce: self.announce }
    }
}

/// Models of a list of candidates.
pub open spec fn candidate_views(v: Seq<BridgeCandidate>) -> Seq<CandidateView> {
    v.map_values(|c: BridgeCandidate| c@)
}

/// A candidate's model.
pub open spec fn cand(up: nat, parts: Seq<Seq<char>>, announce: Announce) -> CandidateView {
    CandidateView { up, parts, announce }
}

/// The development build candidates for one build type.
pub open spec fn build_candidates(bitness: u8, process_bits: u8, build: Seq<char>) -> Seq<CandidateView> {
    let exe = "j2534-bridge.exe"@;
    let t = triple_text(bitness);
    (if process_bits == bitness { seq![cand(1, seq![build, exe], Announce::Dev)] } else { Seq::empty() })
        + seq![
            cand(1, seq![t, build, exe], Announce::Dev),
            cand(4, seq!["j2534-bridge"@, "target"@, t, build, exe], Announce::Dev),
            cand(2, seq!["j2534-bridge"@, "target"@, t, build, exe], Announce::Dev),
            cand(5, seq!["j2534-bridge"@, "target"@, t, build, exe], Announce::Dev),
        ]
}

/// Every place the bridge executable is looked for, in order: beside the
/// program, in its resources directory, the published development copies,
/// then debug and release development builds (the native build only when
/// the bitness is this process's own).
pub open spec fn bridge_candidates(bitness: u8, process_bits: u8) -> Seq<CandidateView> {
    let name = bridge_name_text(bitness);
    seq![
        cand(0, seq![name], Announce::Quiet),
        cand(0, seq!["resources"@, name], Announce::Quiet),
        cand(3, seq!["bin"@, name], Announce::PublishedDev),
        cand(4, seq!["src-tauri"@, "bin"@, name], Announce::PublishedDev),
    ] + build_candidates(bitness, process_bits, "debug"@) + build_candidates(bitness, process_bits, "release"@)
}

fn strings(parts: &[&str]) -> (v: Vec<String>)
    ensures
        part_texts(v@) == Seq::new(parts@.len(), |i: int| parts@[i]@),
{
    let mut v: Vec<String> = Vec::new();
    let mut i: usize = 0;
    while i < parts.len()
        invariant
            i <= parts@.len(),
            part_texts(v@) == Seq::new(i as nat, |k: int| parts@[k]@),
        decreases parts@.len() - i,
    {
        let ghost before = v@;
        let t = String::from_str(parts[i]);
        v.push(t);
        assert(part_texts(v@) =~= part_texts(before).push(parts@[i as int]@));
        assert(part_texts(v@) =~= Seq::new((i + 1) as nat, |k: int| parts@[k]@));
        i = i + 1;
    }
    v
}

fn push_candidate(out: &mut Vec<BridgeCandidate>, up: usize, parts: &[&str], announce: Announce)
    ensures
        candidate_views(final(out)@) == candidate_views(old(out)@).push(
            cand(up as nat, Seq::new(parts@.len(), |i: int| parts@[i]@), announce)),
{
    let ghost before = out@;
    let c = BridgeCandidate { up, parts: strings(parts), announce };
    out.push(c);
    assert(candidate_views(out@) =~= candidate_views(before).push(c@));
}

fn push_build_candidates(out: &mut Vec<BridgeCandidate>, bitness: u8, process_bits: u8, build: &str)
    ensures
        candidate_views(final(out)@) == candidate_views(old(out)@) + build_candidates(bitness, process_bits, build@),
{
    let ghost o = candidate_views(out@);
    let exe = "j2534-bridge.exe";
    let t = target_triple(bitness);
    if process_bits == bitness {
        let p = [build, exe];
        assert(Seq::new(2, |i: int| p@[i]@) =~= seq![build@, exe@]);
        push_candidate(out, 1, p.as_slice(), Announce::Dev);
    }
    let p3 = [t, build, exe];
    assert(Seq::new(3, |i: int| p3@[i]@) =~= seq![t@, build@, exe@]);
    push_candidate(out, 1, p3.as_slice(), Announce::Dev);
    let p5 = ["j2534-bridge", "target", t, build, exe];
    assert(Seq::new(5, |i: int| p5@[i]@) =~= seq!["j2534-bridge"@, "target"@, t@, build@, exe@]);
    push_candidate(out, 4, p5.as_slice(), Announce::Dev);
    push_candidate(out, 2, p5.as_slice(), Announce::Dev);
    push_candidate(out, 5, p5.as_slice(), Announce::Dev);
    assert(candidate_views(out@) =~= o + build_candidates(bitness, process_bits, build@));
}

/// Lists where to look for the bridge executable of a bitness, given this
/// process's own bitness.
pub fn bridge_search_path(bitness: u8, process_bits: u8) -> (v: Vec<BridgeCandidate>)
    ensures
        candidate_views(v@) == bridge_candidates(bitness, process_bits),
{
    let mut v: Vec<BridgeCandidate> = Vec::new();
    let name = bridge_file_name(bitness);
    let p1 = [name];
    assert(Seq::new(1, |i: int| p1@[i]@) =~= seq![name@]);
    push_candidate(&mut v, 0, p1.as_slice(), Announce::Quiet);
    let p2 = ["resources", name];
    assert(Seq::new(2, |i: int| p2@[i]@) =~= seq!["resources"@, name@]);
    push_candidate(&mut v, 0, p2.as_slice(), Announce::Quiet);
    let p3 = ["bin", name];
    assert(Seq::new(2, |i: int| p3@[i]@) =~= seq!["bin"@, name@]);
    push_candidate(&mut v, 3, p3.as_slice(), Announce::PublishedDev);
    let p4 = ["src-tauri", "bin", name];
    assert(Seq::new(3, |i: int| p4@[i]@) =~= seq!["src-tauri"@, "bin"@, name@]);
    push_candidate(&mut v, 4, p4.as_slice(), Announce::PublishedDev);
    push_build_candidates(&mut v, bitness, process_bits, "debug");
    push_build_candidates(&mut v, bitness, process_bits, "release");
    assert(candidate_views(v@) =~= bridge_candidates(bitness, process_bits));
    v
}

/// The name used on the wire for a filter type number.
pub open spec fn filter_type_label_text(filter_type: u32) -> Option<Seq<char>> {
    if filter_type == PASS_FILTER {
        Some("pass"@)
    } else if filter_type == BLOCK_FILTER {
        Some("block"@)
    } else if filter_type == FLOW_CONTROL_FILTER {
        Some("flow_control"@)
    } else {
        None
    }
}

/// Names a filter type for an `AddFilter` request.
pub fn filter_type_label(filter_type: u32) -> (r: Result<&'static str, String>)
    ensures
        match r {
            Ok(s) => filter_type_label_text(filter_type) == Some(s@),
            Err(e) => filter_type_label_text(filter_type) is None && e@ == "Invalid filter type"@,
        },
{
    if filter_type == PASS_FILTER {
        Ok("pass")
    } else if filter_type == BLOCK_FILTER {
        Ok("block")
    } else if filter_type == FLOW_CONTROL_FILTER {
        Ok("flow_control")
    } else {
        Err(String::from_str("Invalid filter type"))
    }
}

/// The filter types the client can name are exactly those the worker
/// accepts, and each name reads back as the number it was made from.
pub proof fn lemma_filter_type_roundtrip(filter_type: u32)
    ensures
        match filter_type_label_text(filter_type) {
            Some(name) => filter_type_code(name) == Some(filter_type),
            None => filter_type != PASS_FILTER && filter_type != BLOCK_FILTER && filter_type != FLOW_CONTROL_FILTER,
        },
{
    reveal_strlit("pass");
    reveal_strlit("block");
    reveal_strlit("flow_control");
    assert("pass"@.len() == 4);
    assert("block"@.len() == 5);
    assert("flow_control"@.len() == 12);
}

/// Messages of a batch, field for field.
pub fn batch_messages(messages: Vec<(u32, Vec<u8>, bool)>) -> (v: Vec<BatchMessage>)
    ensures
        v@.len() == messages@.len(),
        forall|i: int| 0 <= i < v@.len() ==> {
            &&& (#[trigger] v@[i]).arb_id == messages@[i].0
            &&& v@[i].data == messages@[i].1
            &&& v@[i].extended == messages@[i].2
        },
{
    let ghost ms = messages@;
    let mut rest = messages;
    let mut stack: Vec<(u32, Vec<u8>, bool)> = Vec::new();
    while rest.len() > 0
        invariant
            rest@.len() + stack@.len() == ms.len(),
            rest@ == ms.take(rest@.len() as int),
            forall|k: int| 0 <= k < stack@.len() ==> #[trigger] stack@[k] == ms[ms.len() - 1 - k],
        decreases rest@.len(),
    {
        let m = rest.pop().unwrap();
        stack.push(m);
        assert(rest@ =~= ms.take(rest@.len() as int));
    }
    let mut v: Vec<BatchMessage> = Vec::new();
    while stack.len() > 0
        invariant
            v@.len() + stack@.len() == ms.len(),
            forall|k: int| 0 <= k < stack@.len() ==> #[trigger] stack@[k] == ms[ms.len() - 1 - k],
            forall|i: int| 0 <= i < v@.len() ==> {
                &&& (#[trigger] v@[i]).arb_id == ms[i].0
                &&& v@[i].data == ms[i].1
                &&& v@[i].extended == ms[i].2
            },
        decreases stack@.len(),
    {
        let (arb_id, data, extended) = stack.pop().unwrap();
        v.push(BatchMessage { arb_id, data, extended });
    }
    v
}

/// Model of the client's side of the exchange: whether its pipe is open,
/// and the id its next request gets.
pub struct SessionView {
    pub connected: bool,
    pub next_id: u64,
}

/// The id after `id` (the counter wraps like `AtomicU64::fetch_add`).
pub open spec fn following_id(id: u64) -> u64 {
    if id == u64::MAX { 0 } else { (id + 1) as u64 }
}

/// One request: on an open pipe it takes the next id and the counter moves
/// on; on a closed pipe nothing changes and there is no id.
pub open spec fn request_step(s: SessionView) -> (SessionView, Option<u64>) {
    if s.connected {
        (SessionView { connected: true, next_id: following_id(s.next_id) }, Some(s.next_id))
    } else {
        (s, None)
    }
}

/// The client's request counter and pipe state. Ids start at 1.
pub struct ClientSession {
    connected: bool,
    next_id: u64,
}

impl View for ClientSession {
    type V = SessionView;

    closed spec fn view(&self) -> SessionView {
        SessionView { connected: self.connected, next_id: self.next_id }
    }
}

impl ClientSession {
    /// A session with no pipe yet, whose first request gets id 1.
    pub fn new() -> (s: ClientSession)
        ensures
            s@ == (SessionView { connected: false, next_id: 1 }),
    {
        ClientSession { connected: false, next_id: 1 }
    }

    /// The pipe to the bridge is open.
    pub fn connect(&mut self)
        ensures
            final(self)@ == (SessionView { connected: true, next_id: old(self)@.next_id }),
    {
        self.connected = true;
    }

    /// The pipe to the bridge is closed; the counter is kept.
    pub fn disconnect(&mut self)
        ensures
            final(self)@ == (SessionView { connected: false, next_id: old(self)@.next_id }),
    {
        self.connected = false;
    }

    /// Whether the pipe is open.
    pub fn is_connected(&self) -> (b: bool)
        ensures
            b == self@.connected,
    {
        self.connected
    }

    /// Starts a request: its id, or "Bridge not connected" when the pipe
    /// is closed.
    pub fn begin_request(&mut self) -> (r: Result<u64, String>)
        ensures
            final(self)@ == request_step(old(self)@).0,
            match r {
                Ok(id) => request_step(old(self)@).1 == Some(id),
                Err(e) => request_step(old(self)@).1 is None && e@ == "Bridge not connected"@,
            },
    {
        if !self.connected {
            return Err(String::from_str("Bridge not connected"));
        }
        let id = self.next_id;
        self.next_id = if id == u64::MAX { 0 } else { id + 1 };
        Ok(id)
    }
}

/// Requests on an open pipe get consecutive ids: each one more than the
/// id of the request before it (until the counter wraps).
pub proof fn lemma_request_ids_consecutive(s: SessionView)
    requires
        s.connected,
        s.next_id < u64::MAX,
    ensures
        request_step(s).1 == Some(s.next_id),
        request_step(request_step(s).0).1 == Some((s.next_id + 1) as u64),
        request_step(s).0.connected,
{
}

/// What a reply to the request with id `expected` gives: its payload when
/// it carries that id, else the id-mismatch error.
pub open spec fn reply_outcome(expected: u64, reply: Message<Response>) -> Result<Response, Seq<char>> {
    if reply.id == expected {
        Ok(reply.payload)
    } else {
        Err("Response ID mismatch: expected "@ + dec_digits(expected as nat) + ", got "@ + dec_digits(reply.id as nat))
    }
}

/// The session after `n` requests.
pub open spec fn after_requests(s: SessionView, n: nat) -> SessionView
    decreases n,
{
    if n == 0 { s } else { request_step(after_requests(s, (n - 1) as nat)).0 }
}

proof fn lemma_after_requests(n: nat)
    requires
        n < u64::MAX,
    ensures
        after_requests(SessionView { connected: true, next_id: 1 }, n) == (SessionView { connected: true, next_id: (n + 1) as u64 }),
    decreases n,
{
    if n > 0 {
        lemma_after_requests((n - 1) as nat);
    }
}

/// On a connection opened by a new session, the `k`-th request gets id
/// `k`, and a reply to it is taken exactly when it carries id `k`: then
/// its payload is the result, otherwise the id-mismatch error.
pub proof fn lemma_kth_request(k: nat, reply: Message<Response>)
    requires
        1 <= k < u64::MAX,
    ensures
        request_step(after_requests(SessionView { connected: true, next_id: 1 }, (k - 1) as nat)).1 == Some(k as u64),
        (reply_outcome(k as u64, reply) is Ok) <==> reply.id == k,
        reply.id == k ==> reply_outcome(k as u64, reply) == Ok::<Response, Seq<char>>(reply.payload),
{
    lemma_after_requests((k - 1) as nat);
}

/// The reply carries the id of the request it answers; otherwise the
/// exchange is out of step.
pub fn check_reply_id(expected: u64, reply: Message<Response>) -> (r: Result<Response, String>)
    ensures
        match r {
            Ok(p) => reply_outcome(expected, reply) == Ok::<Response, Seq<char>>(p),
            Err(e) => reply_outcome(expected, reply) == Err::<Response, Seq<char>>(e@),
        },
{
    if reply.id == expected {
        Ok(reply.payload)
    } else {
        let mut e = String::from_str("Response ID mismatch: expected ");
        push_decimal(&mut e, expected);
        push_str(&mut e, ", got ");
        push_decimal(&mut e, reply.id);
        Err(e)
    }
}

/// A reply line that says the bridge is gone: nothing was read, or only
/// whitespace.
pub fn is_dead_reply(bytes_read: usize, line: &str) -> (b: bool)
    ensures
        b == (bytes_read == 0 || trimmed(line@).len() == 0),
{
    if bytes_read == 0 {
        return true;
    }
    let t = trim_text(line);
    t.as_str().unicode_len() == 0
}

/// The error text a failed reply carries.
pub open spec fn error_text(r: Response) -> Seq<char> {
    match r {
        Response::Error { message, .. } => message@,
        _ => Seq::empty(),
    }
}

/// Reads a reply that carries no value: any success is `Ok(())`.
pub fn expect_unit(reply: Response) -> (r: Result<(), String>)
    ensures
        match reply {
            Response::Success { .. } => r is Ok,
            Response::Error { message, .. } => r matches Err(e) && e == message,
        },
{
    match reply {
        Response::Success { .. } => Ok(()),
        Response::Error { message, .. } => Err(message),
    }
}

/// Reads a device list; a success of another kind lists nothing.
pub fn expect_devices(reply: Response) -> (r: Result<Vec<DeviceInfo>, String>)
    ensures
        match reply {
            Response::Success { data: ResponseData::Devices(d) } => r == Ok::<Vec<DeviceInfo>, String>(d),
            Response::Success { .. } => r matches Ok(d) && d@.len() == 0,
            Response::Error { message, .. } => r == Err::<Vec<DeviceInfo>, String>(message),
        },
{
    match reply {
        Response::Success { data: ResponseData::Devices(d) } => Ok(d),
        Response::Success { .. } => Ok(Vec::new()),
        Response::Error { message, .. } => Err(message),
    }
}

/// Reads a list of frames; a success of another kind lists nothing.
pub fn expect_messages(reply: Response) -> (r: Result<Vec<CanMessage>, String>)
    ensures
        match reply {
            Response::Success { data: ResponseData::Messages(m) } => r == Ok::<Vec<CanMessage>, String>(m),
            Response::Success { .. } => r matches Ok(m) && m@.len() == 0,
            Response::Error { message, .. } => r == Err::<Vec<CanMessage>, String>(message),
        },
{
    match reply {
        Response::Success { data: ResponseData::Messages(m) } => Ok(m),
        Response::Success { .. } => Ok(Vec::new()),
        Response::Error { message, .. } => Err(message),
    }
}

/// Reads a text; a success of another kind is the empty text.
pub fn expect_text(reply: Response) -> (r: Result<String, String>)
    ensures
        match reply {
            Response::Success { data: ResponseData::String(s) } => r == Ok::<String, String>(s),
            Response::Success { .. } => r matches Ok(s) && s@.len() == 0,
            Response::Error { message, .. } => r == Err::<String, String>(message),
        },
{
    match reply {
        Response::Success { data: ResponseData::String(s) } => Ok(s),
        Response::Success { .. } => Ok(String::new()),
        Response::Error { message, .. } => Err(message),
    }
}

/// The error for a success of the wrong kind.
pub open spec fn is_unexpected<T>(r: Result<T, String>) -> bool {
    r matches Err(e) && e@ == "Unexpected response type"@
}

/// Reads a number.
pub fn expect_number(reply: Response) -> (r: Result<u32, String>)
    ensures
        match reply {
            Response::Success { data: ResponseData::Number(n) } => r == Ok::<u32, String>(n),
            Response::Success { .. } => is_unexpected(r),
            Response::Error { message, .. } => r == Err::<u32, String>(message),
        },
{
    match reply {
        Response::Success { data: ResponseData::Number(n) } => Ok(n),
        Response::Success { .. } => Err(String::from_str("Unexpected response type")),
        Response::Error { message, .. } => Err(message),
    }
}

/// Reads a flag.
pub fn expect_flag(reply: Response) -> (r: Result<bool, String>)
    ensures
        match reply {
            Response::Success { data: ResponseData::Bool(b) } => r == Ok::<bool, String>(b),
            Response::Success { .. } => is_unexpected(r),
            Response::Error { message, .. } => r == Err::<bool, String>(message),
        },
{
    match reply {
        Response::Success { data: ResponseData::Bool(b) } => Ok(b),
        Response::Success { .. } => Err(String::from_str("Unexpected response type")),
        Response::Error { message, .. } => Err(message),
    }
}

/// Reads a voltage, as the bit pattern of the volts.
pub fn expect_voltage(reply: Response) -> (r: Result<u64, String>)
    ensures
        match reply {
            Response::Success { data: ResponseData::Float(bits) } => r == Ok::<u64, String>(bits),
            Response::Success { .. } => is_unexpected(r),
            Response::Error { message, .. } => r == Err::<u64, String>(message),
        },
{
    match reply {
        Response::Success { data: ResponseData::Float(bits) } => Ok(bits),
        Response::Success { .. } => Err(String::from_str("Unexpected response type")),
        Response::Error { message, .. } => Err(message),
    }
}

/// Reads a raw status/count pair.
pub fn expect_raw_io(reply: Response) -> (r: Result<RawIoResult, String>)
    ensures
        match reply {
            Response::Success { data: ResponseData::RawIo(raw) } => r == Ok::<RawIoResult, String>(raw),
            Response::Success { .. } => is_unexpected(r),
            Response::Error { message, .. } => r == Err::<RawIoResult, String>(message),
        },
{
    match reply {
        Response::Success { data: ResponseData::RawIo(raw) } => Ok(raw),
        Response::Success { .. } => Err(String::from_str("Unexpected response type")),
        Response::Error { message, .. } => Err(message),
    }
}

/// Reads version strings.
pub fn expect_version(reply: Response) -> (r: Result<VersionInfo, String>)
    ensures
        match reply {
            Response::Success { data: ResponseData::Version(v) } => r == Ok::<VersionInfo, String>(v),
            Response::Success { .. } => is_unexpected(r),
            Response::Error { message, .. } => r == Err::<VersionInfo, String>(message),
        },
{
    match reply {
        Response::Success { data: ResponseData::Version(v) } => Ok(v),
        Response::Success { .. } => Err(String::from_str("Unexpected response type")),
        Response::Error { message, .. } => Err(message),
    }
}

/// Reads a K-Line init result.
pub fn expect_kline(reply: Response) -> (r: Result<KlineInitResult, String>)
    ensures
        match reply {
            Response::Success { data: ResponseData::KlineInit(k) } => r == Ok::<KlineInitResult, String>(k),
            Response::Success { .. } => is_unexpected(r),
            Response::Error { message, .. } => r == Err::<KlineInitResult, String>(message),
        },
{
    match reply {
        Response::Success { data: ResponseData::KlineInit(k) } => Ok(k),
        Response::Success { .. } => Err(String::from_str("Unexpected response type")),
        Response::Error { message, .. } => Err(message),
    }
}

/// Reads the reply frame of an init IOCTL: the first frame of the list;
/// an empty list is an error naming the IOCTL (`what`).
pub fn expect_init_reply(reply: Response, what: &str) -> (r: Result<CanMessage, String>)
    ensures
        match reply {
            Response::Success { data: ResponseData::Messages(m) } => if m@.len() > 0 {
                r == Ok::<CanMessage, String>(m@[0])
            } else {
                r matches Err(e) && e@ == "No "@ + what@ + " response message returned"@
            },
            Response::Success { .. } => is_unexpected(r),
            Response::Error { message, .. } => r == Err::<CanMessage, String>(message),
        },
{
    match reply {
        Response::Success { data: ResponseData::Messages(m) } => {
            if m.len() > 0 {
                let mut m = m;
                let ghost m0 = m@;
                let first = m.remove(0);
                assert(first == m0[0]);
                Ok(first)
            } else {
                let mut e = String::from_str("No ");
                push_str(&mut e, what);
                push_str(&mut e, " response message returned");
                Err(e)
            }
        },
        Response::Success { .. } => Err(String::from_str("Unexpected response type")),
        Response::Error { message, .. } => Err(message),
    }
}

} // verus!
