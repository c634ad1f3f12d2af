//! K-Line work of the dump tool: which init to run, the framing of a
//! post-init request (ISO 9141 three-byte header, or ISO 14230 short
//! header) with its checksum, and the TesterPresent keepalive.

use vstd::prelude::*;
use vstd::string::*;
use crate::protocol::KlineInitMode;
use crate::j2534::{PROTOCOL_ISO9141, PROTOCOL_ISO14230, is_kline_protocol, spec_is_kline_protocol};
use crate::text::str_equals;
use super::parse::{hex_outcome, hex_result, HexOutcome, parse_hex_bytes, parse_u32, u32_option};

verus! {

/// The `--kline-init-mode` choice.
#[derive(Debug, Clone, Copy, PartialEq, Eq, Structural)]
pub enum KlineInitChoice {
    Off,
    Fast,
    Slow,
    Auto,
}

/// The init used when none is chosen: fast for ISO 14230, five-baud for
/// ISO 9141, none otherwise.
pub open spec fn default_init(protocol_id: u32) -> KlineInitChoice {
    if protocol_id == PROTOCOL_ISO14230 {
        KlineInitChoice::Fast
    } else if protocol_id == PROTOCOL_ISO9141 {
        KlineInitChoice::Slow
    } else {
        KlineInitChoice::Off
    }
}

/// Chooses the init for a protocol.
pub fn default_kline_init_mode(protocol_id: u32) -> (m: KlineInitChoice)
    ensures
        m == default_init(protocol_id),
{
    if protocol_id == PROTOCOL_ISO14230 {
        KlineInitChoice::Fast
    } else if protocol_id == PROTOCOL_ISO9141 {
        KlineInitChoice::Slow
    } else {
        KlineInitChoice::Off
    }
}

/// Sum of the bytes modulo 256.
pub open spec fn checksum(bytes: Seq<u8>) -> u8
    decreases bytes.len(),
{
    if bytes.len() == 0 {
        0
    } else {
        ((checksum(bytes.drop_last()) + bytes.last()) % 256) as u8
    }
}

/// The header a request is framed with: target, source and tester for
/// ISO 9141; for ISO 14230 the format byte `C0 | length`, target and source.
pub open spec fn kline_header(protocol_id: u32, len: nat, target: u8, source: u8, iso_target: u8, iso_source: u8, iso_tester: u8) -> Seq<u8> {
    if protocol_id == PROTOCOL_ISO9141 {
        seq![iso_target, iso_source, iso_tester]
    } else {
        seq![(0xC0 + len) as u8, target, source]
    }
}

/// A framed K-Line request: header, payload, then the checksum of both.
/// ISO 14230 short headers hold at most 15 payload bytes.
pub open spec fn kline_frame(protocol_id: u32, payload: Seq<u8>, target: u8, source: u8, iso_target: u8, iso_source: u8, iso_tester: u8) -> Result<Seq<u8>, Seq<char>> {
    if protocol_id == PROTOCOL_ISO9141 || (protocol_id == PROTOCOL_ISO14230 && payload.len() <= 0x0F) {
        let body = kline_header(protocol_id, payload.len(), target, source, iso_target, iso_source, iso_tester) + payload;
        Ok(body.push(checksum(body)))
    } else if protocol_id == PROTOCOL_ISO14230 {
        Err("KWP payload too long for short-header framing"@)
    } else {
        Err("K-Line framing requested for non-K-Line protocol"@)
    }
}

/// Frames a post-init K-Line request.
pub fn build_kline_frame(
    protocol_id: u32,
    payload: &[u8],
    target: u8,
    source: u8,
    iso_target: u8,
    iso_source: u8,
    iso_tester: u8,
) -> (r: Result<Vec<u8>, String>)
    ensures
        match r {
            Ok(f) => kline_frame(protocol_id, payload@, target, source, iso_target, iso_source, iso_tester) == Ok::<Seq<u8>, Seq<char>>(f@),
            Err(e) => kline_frame(protocol_id, payload@, target, source, iso_target, iso_source, iso_tester) == Err::<Seq<u8>, Seq<char>>(e@),
        },
{
    let mut frame: Vec<u8> = Vec::new();
    if protocol_id == PROTOCOL_ISO9141 {
        frame.push(iso_target);
        frame.push(iso_source);
        frame.push(iso_tester);
        assert(frame@ =~= kline_header(protocol_id, payload@.len(), target, source, iso_target, iso_source, iso_tester));
    } else if protocol_id == PROTOCOL_ISO14230 {
        if payload.len() > 0x0F {
            return Err(String::from_str("KWP payload too long for short-header framing"));
        }
        let len = payload.len() as u8;
        assert(0xC0u8 | (len & 0x0Fu8) == 0xC0 + len) by (bit_vector)
            requires
                len <= 0x0F,
        ;
        frame.push(0xC0 | (len & 0x0F));
        frame.push(target);
        frame.push(source);
        assert(frame@ =~= kline_header(protocol_id, payload@.len(), target, source, iso_target, iso_source, iso_tester));
    } else {
        return Err(String::from_str("K-Line framing requested for non-K-Line protocol"));
    }
    let ghost header = frame@;
    let mut i: usize = 0;
    while i < payload.len()
        invariant
            i <= payload@.len(),
            frame@ == header + payload@.take(i as int),
        decreases payload@.len() - i,
    {
        frame.push(payload[i]);
        i = i + 1;
        assert(frame@ =~= header + payload@.take(i as int));
    }
    assert(payload@.take(payload@.len() as int) =~= payload@);
    let mut sum: u8 = 0;
    let mut k: usize = 0;
    while k < frame.len()
        invariant
            k <= frame@.len(),
            sum == checksum(frame@.take(k as int)),
        decreases frame@.len() - k,
    {
        assert(frame@.take(k + 1).drop_last() =~= frame@.take(k as int));
        sum = ((sum as u16 + frame[k] as u16) % 256) as u8;
        k = k + 1;
    }
    assert(frame@.take(frame@.len() as int) =~= frame@);
    frame.push(sum);
    Ok(frame)
}

/// The checksum byte closes the frame: the last byte of every framed
/// request is the sum, modulo 256, of all bytes before it.
pub proof fn lemma_frame_ends_with_checksum(protocol_id: u32, payload: Seq<u8>, target: u8, source: u8, iso_target: u8, iso_source: u8, iso_tester: u8)
    requires
        kline_frame(protocol_id, payload, target, source, iso_target, iso_source, iso_tester) is Ok,
    ensures
        ({
            let f = kline_frame(protocol_id, payload, target, source, iso_target, iso_source, iso_tester)->Ok_0;
            &&& f.len() == payload.len() + 4
            &&& f.last() == checksum(f.drop_last())
            &&& f.subrange(3, f.len() - 1) == payload
        }),
{
    let body = kline_header(protocol_id, payload.len(), target, source, iso_target, iso_source, iso_tester) + payload;
    let f = body.push(checksum(body));
    assert(f.drop_last() =~= body);
    assert(f.subrange(3, f.len() - 1) =~= payload);
}

/// The init to ask the bridge for, with the request bytes given on the
/// command line (absent ones take the bridge's defaults).
#[derive(Debug, Clone)]
pub struct KlineInitRequest {
    pub mode: KlineInitMode,
    pub fast_init_data: Option<Vec<u8>>,
    pub five_baud_address: Option<Vec<u8>>,
}

/// The hex options read without the slicing panic.
pub open spec fn init_hex_ok(fast: Option<Seq<char>>, slow: Option<Seq<char>>) -> bool {
    &&& fast matches Some(f) ==> !(hex_outcome(f) is Splits)
    &&& (fast matches Some(f) ==> hex_result(f) is Ok) ==> (slow matches Some(a) ==> !(hex_outcome(a) is Splits))
}

/// The text of an optional string slice.
pub open spec fn opt_str(o: Option<&str>) -> Option<Seq<char>> {
    match o {
        Some(s) => Some(s@),
        None => None,
    }
}

/// The bytes of an optional vector.
pub open spec fn opt_vec(o: Option<Vec<u8>>) -> Option<Seq<u8>> {
    match o {
        Some(v) => Some(v@),
        None => None,
    }
}

fn parse_optional_hex(text: Option<&str>) -> (r: Result<Option<Vec<u8>>, String>)
    requires
        text matches Some(t) ==> !(hex_outcome(t@) is Splits),
    ensures
        match text {
            None => r matches Ok(None),
            Some(t) => match hex_result(t@) {
                Ok(b) => r matches Ok(Some(v)) && v@ == b,
                Err(e) => r matches Err(m) && m@ == e,
            },
        },
{
    match text {
        None => Ok(None),
        Some(t) => {
            let v = parse_hex_bytes(t)?;
            Ok(Some(v))
        },
    }
}

/// Decides the K-Line init to run: the chosen mode or the protocol's
/// default; `None` means no init. The hex options are parsed (fast init
/// data first); a parse error is returned.
pub fn kline_init_request(
    choice: Option<KlineInitChoice>,
    protocol_id: u32,
    fast_init: Option<&str>,
    five_baud_init: Option<&str>,
) -> (r: Result<Option<KlineInitRequest>, String>)
    requires
        init_hex_ok(opt_str(fast_init), opt_str(five_baud_init)),
    ensures
        ({
            let mode = match choice { Some(m) => m, None => default_init(protocol_id) };
            if mode == KlineInitChoice::Off {
                r matches Ok(None)
            } else {
                match (opt_str(fast_init), opt_str(five_baud_init)) {
                    (Some(f), _) if hex_result(f) is Err => r matches Err(e) && Err::<Seq<u8>, Seq<char>>(e@) == hex_result(f),
                    (_, Some(a)) if hex_result(a) is Err => r matches Err(e) && Err::<Seq<u8>, Seq<char>>(e@) == hex_result(a),
                    (f, a) => r matches Ok(Some(q)) && q.mode == (match mode {
                        KlineInitChoice::Fast => KlineInitMode::Fast,
                        KlineInitChoice::Slow => KlineInitMode::Slow,
                        _ => KlineInitMode::Auto,
                    }) && opt_vec(q.fast_init_data) == (match f { Some(t) => Some(hex_result(t)->Ok_0), None => None })
                        && opt_vec(q.five_baud_address) == (match a { Some(t) => Some(hex_result(t)->Ok_0), None => None }),
                }
            }
        }),
{
    let mode = match choice {
        Some(m) => m,
        None => default_kline_init_mode(protocol_id),
    };
    let protocol_mode = match mode {
        KlineInitChoice::Off => return Ok(None),
        KlineInitChoice::Fast => KlineInitMode::Fast,
        KlineInitChoice::Slow => KlineInitMode::Slow,
        KlineInitChoice::Auto => KlineInitMode::Auto,
    };
    let fast_init_data = parse_optional_hex(fast_init)?;
    let five_baud_address = parse_optional_hex(five_baud_init)?;
    Ok(Some(KlineInitRequest { mode: protocol_mode, fast_init_data, five_baud_address }))
}

/// Whether to warn that a slow init got no 0xCC acknowledgement.
pub fn needs_cc_warning(cc_received: bool, init_method: &str) -> (b: bool)
    ensures
        b == (!cc_received && init_method@ == "slow"@),
{
    !cc_received && str_equals(init_method, "slow")
}

/// The addressing options of a K-Line request, as given on the command line.
#[derive(Debug, Clone)]
pub struct KlineAddressing {
    pub target: String,
    pub source: String,
    pub iso_target: String,
    pub iso_source: String,
    pub iso_tester: String,
}

/// A post-init request: the payload parsed from hex, each address parsed
/// as an integer and cut to its low byte, then framed. The first error is
/// returned.
pub open spec fn post_init_frame(protocol_id: u32, request: Seq<char>, a: KlineAddressing) -> Result<(Seq<u8>, Seq<u8>), Seq<char>> {
    match hex_result(request) {
        Err(e) => Err(e),
        Ok(payload) => match (u32_option(a.target@), u32_option(a.source@), u32_option(a.iso_target@),
            u32_option(a.iso_source@), u32_option(a.iso_tester@)) {
            (Err(e), _, _, _, _) => Err(e),
            (Ok(_), Err(e), _, _, _) => Err(e),
            (Ok(_), Ok(_), Err(e), _, _) => Err(e),
            (Ok(_), Ok(_), Ok(_), Err(e), _) => Err(e),
            (Ok(_), Ok(_), Ok(_), Ok(_), Err(e)) => Err(e),
            (Ok(t), Ok(s), Ok(it), Ok(is), Ok(ite)) => match kline_frame(protocol_id, payload, t as u8, s as u8, it as u8, is as u8, ite as u8) {
                Ok(f) => Ok((payload, f)),
                Err(e) => Err(e),
            },
        },
    }
}

/// Builds a post-init request; returns the payload and the framed bytes.
pub fn build_post_init_request(protocol_id: u32, request: &str, a: &KlineAddressing) -> (r: Result<(Vec<u8>, Vec<u8>), String>)
    requires
        !(hex_outcome(request@) is Splits),
    ensures
        match r {
            Ok((p, f)) => post_init_frame(protocol_id, request@, *a) == Ok::<(Seq<u8>, Seq<u8>), Seq<char>>((p@, f@)),
            Err(e) => post_init_frame(protocol_id, request@, *a) == Err::<(Seq<u8>, Seq<u8>), Seq<char>>(e@),
        },
{
    let payload = parse_hex_bytes(request)?;
    let target = parse_u32(a.target.as_str())?;
    let source = parse_u32(a.source.as_str())?;
    let iso_target = parse_u32(a.iso_target.as_str())?;
    let iso_source = parse_u32(a.iso_source.as_str())?;
    let iso_tester = parse_u32(a.iso_tester.as_str())?;
    let frame = build_kline_frame(protocol_id, payload.as_slice(), target as u8, source as u8, iso_target as u8,
        iso_source as u8, iso_tester as u8)?;
    Ok((payload, frame))
}

/// An address option, or its default when it does not parse.
pub open spec fn address_or(text: Seq<char>, default: u32) -> u8 {
    match u32_option(text) {
        Ok(v) => v as u8,
        Err(_) => default as u8,
    }
}

fn parse_address_or(text: &str, default: u32) -> (b: u8)
    ensures
        b == address_or(text@, default),
{
    match parse_u32(text) {
        Ok(v) => v as u8,
        Err(_) => default as u8,
    }
}

/// The TesterPresent keepalive sent during capture: only when an interval
/// is set and the protocol is K-Line; addresses that do not parse take
/// their defaults (33, F1, 68, 6A, F1).
pub open spec fn keepalive_bytes(keepalive_ms: u64, protocol_id: u32, a: KlineAddressing) -> Option<Seq<u8>> {
    if keepalive_ms > 0 && spec_is_kline_protocol(protocol_id) {
        match kline_frame(protocol_id, seq![0x3Eu8], address_or(a.target@, 0x33), address_or(a.source@, 0xF1),
            address_or(a.iso_target@, 0x68), address_or(a.iso_source@, 0x6A), address_or(a.iso_tester@, 0xF1)) {
            Ok(f) => Some(f),
            Err(_) => None,
        }
    } else {
        None
    }
}

/// Builds the keepalive frame, if one is to be sent.
pub fn keepalive_frame(keepalive_ms: u64, protocol_id: u32, a: &KlineAddressing) -> (r: Option<Vec<u8>>)
    ensures
        opt_vec(r) == keepalive_bytes(keepalive_ms, protocol_id, *a),
{
    if keepalive_ms > 0 && is_kline_protocol(protocol_id) {
        let target = parse_address_or(a.target.as_str(), 0x33);
        let source = parse_address_or(a.source.as_str(), 0xF1);
        let iso_target = parse_address_or(a.iso_target.as_str(), 0x68);
        let iso_source = parse_address_or(a.iso_source.as_str(), 0x6A);
        let iso_tester = parse_address_or(a.iso_tester.as_str(), 0xF1);
        let present: [u8; 1] = [0x3E];
        assert(present@ =~= seq![0x3Eu8]);
        match build_kline_frame(protocol_id, present.as_slice(), target, source, iso_target, iso_source, iso_tester) {
            Ok(f) => Some(f),
            Err(_) => None,
        }
    } else {
        None
    }
}

} // verus!
