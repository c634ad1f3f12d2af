//! The PASSTHRU_MSG frame: how outgoing requests are laid out in it and how
//! received frames are decoded into messages.

use vstd::prelude::*;
use super::{spec_is_can_protocol, is_can_protocol, CAN_29BIT_ID, RX_CAN_29BIT_ID};

verus! {

/// Size of the data area of a PASSTHRU_MSG.
pub const PASSTHRU_DATA_LEN: usize = 4128;

/// The PASSTHRU_MSG structure. `data` always holds `PASSTHRU_DATA_LEN` bytes.
#[derive(Debug, Clone)]
pub struct PassThruMsg {
    pub protocol_id: u32,
    pub rx_status: u32,
    pub tx_flags: u32,
    pub timestamp: u32,
    pub data_size: u32,
    pub extra_data_index: u32,
    pub data: Vec<u8>,
}

/// Mathematical model of a PASSTHRU_MSG.
pub struct PassThruMsgView {
    pub protocol_id: u32,
    pub rx_status: u32,
    pub tx_flags: u32,
    pub timestamp: u32,
    pub data_size: u32,
    pub extra_data_index: u32,
    pub data: Seq<u8>,
}

impl View for PassThruMsg {
    type V = PassThruMsgView;

    open spec fn view(&self) -> PassThruMsgView {
        PassThruMsgView {
            protocol_id: self.protocol_id,
            rx_status: self.rx_status,
            tx_flags: self.tx_flags,
            timestamp: self.timestamp,
            data_size: self.data_size,
            extra_data_index: self.extra_data_index,
            data: self.data@,
        }
    }
}

impl PassThruMsgView {
    /// The data area has its fixed size.
    pub open spec fn wf(self) -> bool {
        self.data.len() == PASSTHRU_DATA_LEN
    }

    /// The frame can be decoded: its size field lies within the data area.
    pub open spec fn readable(self) -> bool {
        self.wf() && self.data_size <= PASSTHRU_DATA_LEN
    }
}

/// `n` zero bytes.
pub open spec fn zeros(n: nat) -> Seq<u8> {
    Seq::new(n, |i: int| 0u8)
}

/// `bytes` followed by zeros up to the size of the data area.
pub open spec fn padded(bytes: Seq<u8>) -> Seq<u8> {
    bytes + zeros((PASSTHRU_DATA_LEN - bytes.len()) as nat)
}

/// A frame carrying `bytes` (padded), with the given header fields and all
/// other header fields zero.
pub open spec fn frame_of(protocol_id: u32, tx_flags: u32, data_size: u32, bytes: Seq<u8>) -> PassThruMsgView {
    PassThruMsgView {
        protocol_id,
        rx_status: 0,
        tx_flags,
        timestamp: 0,
        data_size,
        extra_data_index: 0,
        data: padded(bytes),
    }
}

/// Big-endian bytes of a 32-bit value.
pub open spec fn be_bytes(x: u32) -> Seq<u8> {
    seq![
        (x / 0x1000000) as u8,
        ((x / 0x10000) % 0x100) as u8,
        ((x / 0x100) % 0x100) as u8,
        (x % 0x100) as u8,
    ]
}

/// The 32-bit value of four big-endian bytes.
pub open spec fn be_value(b: Seq<u8>) -> u32 {
    (b[0] * 0x1000000 + b[1] * 0x10000 + b[2] * 0x100 + b[3]) as u32
}

/// The smaller of two naturals.
pub open spec fn min_nat(a: nat, b: nat) -> nat {
    if a <= b { a } else { b }
}

/// Transmit flags for a frame with a standard or extended identifier.
pub open spec fn id_tx_flags(extended: bool) -> u32 {
    if extended { CAN_29BIT_ID } else { 0 }
}

/// An outgoing frame: for CAN protocols the arbitration id (big-endian)
/// followed by at most 8 payload bytes; for other protocols the payload
/// itself, cut to the data area.
pub open spec fn tx_frame(protocol_id: u32, arb_id: u32, data: Seq<u8>, extended: bool) -> PassThruMsgView {
    if spec_is_can_protocol(protocol_id) {
        let n = min_nat(data.len(), 8);
        frame_of(protocol_id, id_tx_flags(extended), (4 + n) as u32, be_bytes(arb_id) + data.take(n as int))
    } else {
        let n = min_nat(data.len(), PASSTHRU_DATA_LEN as nat);
        frame_of(protocol_id, 0, n as u32, data.take(n as int))
    }
}

/// Number of payload bytes an outgoing frame keeps of `data`.
pub open spec fn tx_payload_len(protocol_id: u32, data_len: nat) -> nat {
    if spec_is_can_protocol(protocol_id) {
        min_nat(data_len, 8)
    } else {
        data_len
    }
}

/// A periodic frame always uses the CAN layout: id then at most 8 bytes.
pub open spec fn periodic_frame(protocol_id: u32, arb_id: u32, data: Seq<u8>, extended: bool) -> PassThruMsgView {
    let n = min_nat(data.len(), 8);
    frame_of(protocol_id, id_tx_flags(extended), (4 + n) as u32, be_bytes(arb_id) + data.take(n as int))
}

/// A decoded frame (the `CANMessage` of the J2534 layer).
#[derive(Debug, Clone)]
pub struct CANMessage {
    pub timestamp_us: u64,
    pub arb_id: u32,
    pub extended: bool,
    pub data: Vec<u8>,
    pub raw_arb_id: u32,
    pub rx_status: u32,
    pub data_size: u32,
    /// J2534 protocol ID (5=CAN, 3=ISO9141, 4=ISO14230, etc.)
    pub protocol_id: u32,
}

/// Mathematical model of a decoded frame.
pub struct CanFrame {
    pub timestamp_us: u64,
    pub arb_id: u32,
    pub extended: bool,
    pub data: Seq<u8>,
    pub raw_arb_id: u32,
    pub rx_status: u32,
    pub data_size: u32,
    pub protocol_id: u32,
}

impl View for CANMessage {
    type V = CanFrame;

    open spec fn view(&self) -> CanFrame {
        CanFrame {
            timestamp_us: self.timestamp_us,
            arb_id: self.arb_id,
            extended: self.extended,
            data: self.data@,
            raw_arb_id: self.raw_arb_id,
            rx_status: self.rx_status,
            data_size: self.data_size,
            protocol_id: self.protocol_id,
        }
    }
}

/// Whether the receive status marks a 29-bit identifier.
pub open spec fn rx_extended(rx_status: u32) -> bool {
    rx_status & RX_CAN_29BIT_ID != 0
}

/// A CAN frame: id from the first four bytes, payload after them.
pub open spec fn can_frame_of(m: PassThruMsgView, extended: bool) -> CanFrame {
    let arb = be_value(m.data.take(4));
    CanFrame {
        timestamp_us: m.timestamp as u64,
        arb_id: arb,
        extended,
        data: m.data.subrange(4, m.data_size as int),
        raw_arb_id: arb,
        rx_status: m.rx_status,
        data_size: m.data_size,
        protocol_id: m.protocol_id,
    }
}

/// A raw (K-Line) frame: every byte is payload, no identifier.
pub open spec fn raw_frame_of(m: PassThruMsgView) -> CanFrame {
    CanFrame {
        timestamp_us: m.timestamp as u64,
        arb_id: 0,
        extended: false,
        data: m.data.take(m.data_size as int),
        raw_arb_id: 0,
        rx_status: m.rx_status,
        data_size: m.data_size,
        protocol_id: m.protocol_id,
    }
}

/// Decoding of a received frame: CAN layout when the protocol is a CAN
/// protocol and the frame holds at least an id, raw bytes otherwise.
pub open spec fn decode_frame(m: PassThruMsgView) -> CanFrame {
    if spec_is_can_protocol(m.protocol_id) && m.data_size >= 4 {
        can_frame_of(m, rx_extended(m.rx_status))
    } else {
        raw_frame_of(m)
    }
}

/// A vector of `n` zero bytes.
pub fn zeroed(n: usize) -> (v: Vec<u8>)
    ensures
        v@ == zeros(n as nat),
{
    let mut v: Vec<u8> = Vec::new();
    while v.len() < n
        invariant
            v.len() <= n,
            v@ == zeros(v.len() as nat),
        decreases n - v.len(),
    {
        v.push(0);
        assert(v@ =~= zeros(v.len() as nat));
    }
    v
}

/// Appends `bytes[from..to]` to `out`.
pub fn extend_range(out: &mut Vec<u8>, bytes: &[u8], from: usize, to: usize)
    requires
        from <= to <= bytes@.len(),
    ensures
        final(out)@ == old(out)@ + bytes@.subrange(from as int, to as int),
{
    let mut i = from;
    while i < to
        invariant
            from <= i <= to <= bytes@.len(),
            out@ == old(out)@ + bytes@.subrange(from as int, i as int),
        decreases to - i,
    {
        out.push(bytes[i]);
        i = i + 1;
        assert(out@ =~= old(out)@ + bytes@.subrange(from as int, i as int));
    }
}

/// Pads `bytes` with zeros up to the size of the data area.
pub fn pad_data(bytes: &mut Vec<u8>)
    requires
        old(bytes)@.len() <= PASSTHRU_DATA_LEN,
    ensures
        final(bytes)@ == padded(old(bytes)@),
{
    while bytes.len() < PASSTHRU_DATA_LEN
        invariant
            old(bytes)@.len() <= bytes@.len() <= PASSTHRU_DATA_LEN,
            bytes@ == old(bytes)@ + zeros((bytes@.len() - old(bytes)@.len()) as nat),
        decreases PASSTHRU_DATA_LEN - bytes.len(),
    {
        bytes.push(0);
        assert(bytes@ =~= old(bytes)@ + zeros((bytes@.len() - old(bytes)@.len()) as nat));
    }
}

/// Appends the big-endian bytes of `x`.
pub fn push_be(out: &mut Vec<u8>, x: u32)
    ensures
        final(out)@ == old(out)@ + be_bytes(x),
{
    out.push((x / 0x1000000) as u8);
    out.push(((x / 0x10000) % 0x100) as u8);
    out.push(((x / 0x100) % 0x100) as u8);
    out.push((x % 0x100) as u8);
    assert(final(out)@ =~= old(out)@ + be_bytes(x));
}

/// Reads four big-endian bytes at `at`.
pub fn read_be(bytes: &[u8], at: usize) -> (x: u32)
    requires
        at + 4 <= bytes@.len(),
    ensures
        x == be_value(bytes@.subrange(at as int, at + 4)),
{
    let b0 = bytes[at] as u32;
    let b1 = bytes[at + 1] as u32;
    let b2 = bytes[at + 2] as u32;
    let b3 = bytes[at + 3] as u32;
    b0 * 0x1000000 + b1 * 0x10000 + b2 * 0x100 + b3
}

impl Default for PassThruMsg {
    fn default() -> (m: Self)
        ensures
            m@ == frame_of(0, 0, 0, Seq::empty()),
    {
        let data = zeroed(PASSTHRU_DATA_LEN);
        assert(data@ =~= padded(Seq::empty()));
        PassThruMsg {
            protocol_id: 0,
            rx_status: 0,
            tx_flags: 0,
            timestamp: 0,
            data_size: 0,
            extra_data_index: 0,
            data,
        }
    }
}

/// A frame with the given header fields whose data area starts with the
/// first `keep` bytes of `bytes`.
pub fn build_frame(protocol_id: u32, tx_flags: u32, data_size: u32, bytes: &[u8], keep: usize) -> (m: PassThruMsg)
    requires
        keep <= bytes@.len(),
        keep <= PASSTHRU_DATA_LEN,
    ensures
        m@ == frame_of(protocol_id, tx_flags, data_size, bytes@.take(keep as int)),
{
    let mut data: Vec<u8> = Vec::new();
    extend_range(&mut data, bytes, 0, keep);
    pad_data(&mut data);
    assert(bytes@.subrange(0, keep as int) =~= bytes@.take(keep as int));
    PassThruMsg { protocol_id, rx_status: 0, tx_flags, timestamp: 0, data_size, extra_data_index: 0, data }
}

/// A frame whose data area starts with the big-endian id followed by the
/// first `keep` bytes of `bytes`.
fn build_id_frame(protocol_id: u32, tx_flags: u32, arb_id: u32, bytes: &[u8], keep: usize) -> (m: PassThruMsg)
    requires
        keep <= bytes@.len(),
        keep <= 8,
    ensures
        m@ == frame_of(protocol_id, tx_flags, (4 + keep) as u32, be_bytes(arb_id) + bytes@.take(keep as int)),
{
    let mut data: Vec<u8> = Vec::new();
    push_be(&mut data, arb_id);
    extend_range(&mut data, bytes, 0, keep);
    pad_data(&mut data);
    assert(bytes@.subrange(0, keep as int) =~= bytes@.take(keep as int));
    assert(data@.len() == PASSTHRU_DATA_LEN);
    PassThruMsg {
        protocol_id,
        rx_status: 0,
        tx_flags,
        timestamp: 0,
        data_size: (4 + keep) as u32,
        extra_data_index: 0,
        data,
    }
}

/// Transmit flags for a standard or extended identifier.
pub fn tx_flags_for(extended: bool) -> (f: u32)
    ensures
        f == id_tx_flags(extended),
{
    if extended { CAN_29BIT_ID } else { 0 }
}

/// Lays out an outgoing message (used by single, batch and raw writes).
pub fn encode_tx_message(protocol_id: u32, arb_id: u32, data: &[u8], extended: bool) -> (m: PassThruMsg)
    ensures
        m@ == tx_frame(protocol_id, arb_id, data@, extended),
{
    if is_can_protocol(protocol_id) {
        let keep = if data.len() < 8 { data.len() } else { 8 };
        build_id_frame(protocol_id, tx_flags_for(extended), arb_id, data, keep)
    } else {
        let keep = if data.len() < PASSTHRU_DATA_LEN { data.len() } else { PASSTHRU_DATA_LEN };
        build_frame(protocol_id, 0, keep as u32, data, keep)
    }
}

/// Lays out a periodic message: always the CAN layout.
pub fn encode_periodic_message(protocol_id: u32, arb_id: u32, data: &[u8], extended: bool) -> (m: PassThruMsg)
    ensures
        m@ == periodic_frame(protocol_id, arb_id, data@, extended),
{
    let keep = if data.len() < 8 { data.len() } else { 8 };
    build_id_frame(protocol_id, tx_flags_for(extended), arb_id, data, keep)
}

/// Number of payload bytes of `data` that an outgoing frame keeps.
pub fn tx_payload_length(protocol_id: u32, data_len: usize) -> (n: usize)
    ensures
        n == tx_payload_len(protocol_id, data_len as nat),
{
    if is_can_protocol(protocol_id) {
        if data_len < 8 { data_len } else { 8 }
    } else {
        data_len
    }
}

/// Copies `bytes[from..to]` into a new vector.
pub fn copy_range(bytes: &[u8], from: usize, to: usize) -> (v: Vec<u8>)
    requires
        from <= to <= bytes@.len(),
    ensures
        v@ == bytes@.subrange(from as int, to as int),
{
    let mut v: Vec<u8> = Vec::new();
    extend_range(&mut v, bytes, from, to);
    assert(v@ =~= bytes@.subrange(from as int, to as int));
    v
}

/// A copy of a decoded frame.
pub fn copy_message(m: &CANMessage) -> (c: CANMessage)
    ensures
        c@ == m@,
{
    let data = copy_range(m.data.as_slice(), 0, m.data.len());
    assert(m.data@.subrange(0, m.data@.len() as int) =~= m.data@);
    CANMessage {
        timestamp_us: m.timestamp_us,
        arb_id: m.arb_id,
        extended: m.extended,
        data,
        raw_arb_id: m.raw_arb_id,
        rx_status: m.rx_status,
        data_size: m.data_size,
        protocol_id: m.protocol_id,
    }
}

/// Decodes a frame in the CAN layout (id, then payload).
pub fn decode_can_frame(msg: &PassThruMsg, extended: bool) -> (c: CANMessage)
    requires
        msg@.readable(),
        msg.data_size >= 4,
    ensures
        c@ == can_frame_of(msg@, extended),
{
    let arb_id = read_be(msg.data.as_slice(), 0);
    assert(msg.data@.subrange(0, 4) =~= msg.data@.take(4));
    let data = copy_range(msg.data.as_slice(), 4, msg.data_size as usize);
    CANMessage {
        timestamp_us: msg.timestamp as u64,
        arb_id,
        extended,
        data,
        raw_arb_id: arb_id,
        rx_status: msg.rx_status,
        data_size: msg.data_size,
        protocol_id: msg.protocol_id,
    }
}

/// Decodes a frame whose bytes are all payload.
pub fn decode_raw_frame(msg: &PassThruMsg) -> (c: CANMessage)
    requires
        msg@.readable(),
    ensures
        c@ == raw_frame_of(msg@),
{
    let data = copy_range(msg.data.as_slice(), 0, msg.data_size as usize);
    assert(msg.data@.subrange(0, msg.data_size as int) =~= msg.data@.take(msg.data_size as int));
    CANMessage {
        timestamp_us: msg.timestamp as u64,
        arb_id: 0,
        extended: false,
        data,
        raw_arb_id: 0,
        rx_status: msg.rx_status,
        data_size: msg.data_size,
        protocol_id: msg.protocol_id,
    }
}

/// Whether the receive status marks a 29-bit identifier.
pub fn is_rx_extended(rx_status: u32) -> (b: bool)
    ensures
        b == rx_extended(rx_status),
{
    rx_status & RX_CAN_29BIT_ID != 0
}

/// Decodes a received frame (the reply of an init IOCTL, for instance).
pub fn passthru_msg_to_can_message(msg: &PassThruMsg) -> (c: CANMessage)
    requires
        msg@.readable(),
    ensures
        c@ == decode_frame(msg@),
{
    if is_can_protocol(msg.protocol_id) && msg.data_size >= 4 {
        decode_can_frame(msg, is_rx_extended(msg.rx_status))
    } else {
        decode_raw_frame(msg)
    }
}

/// The big-endian encoding of a 32-bit value is read back unchanged.
pub proof fn lemma_be_roundtrip(x: u32)
    ensures
        be_value(be_bytes(x)) == x,
        be_bytes(x).len() == 4,
{
    let b = be_bytes(x);
    assert(b[0] == x / 0x1000000);
    assert(b[1] == (x / 0x10000) % 0x100);
    assert(b[2] == (x / 0x100) % 0x100);
    assert(b[3] == x % 0x100);
    assert((x / 0x1000000) * 0x1000000 + ((x / 0x10000) % 0x100) * 0x10000
        + ((x / 0x100) % 0x100) * 0x100 + x % 0x100 == x) by (nonlinear_arith);
}

/// A frame laid out for sending decodes back to what was sent: the same
/// protocol, for CAN protocols the same identifier, and the payload bytes the
/// frame kept, whatever receive status and timestamp the driver adds.
pub proof fn lemma_tx_frame_decodes(protocol_id: u32, arb_id: u32, data: Seq<u8>, extended: bool, rx_status: u32, timestamp: u32)
    ensures
        ({
            let sent = tx_frame(protocol_id, arb_id, data, extended);
            let received = PassThruMsgView { rx_status, timestamp, ..sent };
            let decoded = decode_frame(received);
            let n = tx_payload_len(protocol_id, data.len());
            &&& received.readable()
            &&& decoded.protocol_id == protocol_id
            &&& decoded.data == data.take(min_nat(n, PASSTHRU_DATA_LEN as nat) as int)
            &&& decoded.arb_id == (if spec_is_can_protocol(protocol_id) { arb_id } else { 0 })
            &&& decoded.extended == (spec_is_can_protocol(protocol_id) && rx_extended(rx_status))
            &&& decoded.timestamp_us == timestamp
        }),
{
    let sent = tx_frame(protocol_id, arb_id, data, extended);
    let received = PassThruMsgView { rx_status, timestamp, ..sent };
    if spec_is_can_protocol(protocol_id) {
        let n = min_nat(data.len(), 8);
        let bytes = be_bytes(arb_id) + data.take(n as int);
        lemma_be_roundtrip(arb_id);
        assert(received.data.take(4) =~= be_bytes(arb_id));
        assert(received.data.subrange(4, received.data_size as int) =~= data.take(n as int));
    } else {
        let n = min_nat(data.len(), PASSTHRU_DATA_LEN as nat);
        assert(received.data.take(received.data_size as int) =~= data.take(n as int));
    }
}


/// A periodic message goes out as its identifier, big-endian, followed by
/// at most eight payload bytes, under the protocol asked for, and flagged
/// as a 29-bit frame (`CAN_29BIT_ID`) exactly when an extended identifier
/// is asked for; for CAN protocols it is the very frame a send of the same
/// message lays out.
pub proof fn lemma_periodic_frame_layout(protocol_id: u32, arb_id: u32, data: Seq<u8>, extended: bool)
    ensures
        ({
            let f = periodic_frame(protocol_id, arb_id, data, extended);
            let n: int = if data.len() < 8 { data.len() as int } else { 8 };
            &&& f.tx_flags == (if extended { CAN_29BIT_ID } else { 0u32 })
            &&& f.protocol_id == protocol_id
            &&& f.data_size == 4 + n
            &&& be_value(f.data.take(4)) == arb_id
            &&& f.data.subrange(4, 4 + n) == data.take(n)
            &&& f.rx_status == 0 && f.timestamp == 0 && f.extra_data_index == 0
            &&& (spec_is_can_protocol(protocol_id) ==> f == tx_frame(protocol_id, arb_id, data, extended))
        }),
{
    let f = periodic_frame(protocol_id, arb_id, data, extended);
    let n: int = if data.len() < 8 { data.len() as int } else { 8 };
    lemma_be_roundtrip(arb_id);
    assert(f.data.take(4) =~= be_bytes(arb_id));
    assert(f.data.subrange(4, 4 + n) =~= data.take(n));
}
} // verus!
