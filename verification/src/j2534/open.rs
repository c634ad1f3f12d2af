//! Connection set-up as a sequence of driver calls: load the library, open
//! the device, connect the channel, install pass-all filters, optionally open
//! a dedicated 29-bit channel, and turn loopback off. The sequence decides;
//! the caller performs each driver call and reports its outcome.

use vstd::prelude::*;
use vstd::string::*;
use crate::text::{dec_digits, push_decimal, push_str};
use super::frame::{PassThruMsg, PassThruMsgView, frame_of, build_frame, tx_flags_for, id_tx_flags};
use super::{
    J2534Progress, code_and_name, status_error, missing_function_text, missing_function_error,
    opt_text, failure_text, failure_error,
    spec_is_can_protocol, spec_is_kline_protocol, is_can_protocol, is_kline_protocol,
    CAN_29BIT_ID, CAN_ID_BOTH, CAN_MIXED_CAPTURE_FLAGS, STATUS_NOERROR,
};

verus! {

/// The channels an opened connection uses.
#[derive(Debug, Clone, Copy, PartialEq, Eq, Structural)]
pub struct OpenedChannels {
    pub device_id: u32,
    pub channel_id: u32,
    pub channel_id_29bit: Option<u32>,
    pub protocol_id: u32,
}

/// What the caller must do next.
#[derive(Debug)]
pub enum OpenAction {
    /// Report a progress step to the caller's callback.
    Report(J2534Progress),
    /// Print a warning on the error stream.
    Warn(String),
    /// Load the driver library; answer `Loaded` or `Unavailable`.
    LoadLibrary,
    /// PassThruOpen; answer `Status` with the device id, or `Unavailable`.
    OpenDevice,
    /// PassThruConnect; answer `Status` with the channel id, or `Unavailable`.
    Connect { device_id: u32, protocol_id: u32, flags: u32, baud_rate: u32 },
    /// PassThruStartMsgFilter with a pass filter; answer `Status`, or `Unavailable`.
    StartPassFilter { channel_id: u32, mask: PassThruMsg, pattern: PassThruMsg },
    /// PassThruGetLastError; answer `LastError`.
    ReadLastError,
    /// PassThruDisconnect if the driver exports it; no answer.
    Disconnect { channel_id: u32 },
    /// PassThruClose if the driver exports it; no answer.
    CloseDevice { device_id: u32 },
    /// Look up PassThruConnect and PassThruStartMsgFilter, then connect a
    /// 29-bit channel; answer `Status` with the channel id, or `Unavailable`
    /// when either entry point is missing.
    ConnectExtended { device_id: u32, protocol_id: u32, flags: u32, baud_rate: u32 },
    /// Set LOOPBACK to 0 on the channel; answer `LoopbackSet`.
    SetLoopbackOff { channel_id: u32 },
    /// Read LOOPBACK on the channel; answer `LoopbackRead`.
    GetLoopback { channel_id: u32 },
    /// The connection could not be opened.
    Fail(String),
    /// The connection is open.
    Done(OpenedChannels),
}

/// Outcome of the call the caller was asked to make.
#[derive(Debug)]
pub enum OpenEvent {
    /// The library loaded.
    Loaded,
    /// The library or an entry point is missing; the loader's message.
    Unavailable(String),
    /// A PassThru call returned `result`; `id` is the id it produced, if any.
    Status { result: i32, id: u32 },
    /// The driver's last error text, when it has one.
    LastError(Option<String>),
    /// Outcome of turning loopback off.
    LoopbackSet(Result<(), String>),
    /// Outcome of reading loopback back.
    LoopbackRead(Result<bool, String>),
}

/// Where the sequence stands: which answer it waits for.
#[derive(Debug, Clone, Copy, PartialEq, Eq, Structural)]
pub enum OpenPhase {
    AwaitLoad,
    AwaitOpen,
    AwaitConnect,
    AwaitLastError { result: i32 },
    AwaitKlineFilter,
    AwaitCanFilter,
    AwaitExtendedFilter,
    AwaitExtendedConnect,
    AwaitExtendedChannelFilter { channel_id: u32 },
    AwaitLoopbackSet,
    AwaitLoopbackRead,
    Ended,
}

/// Model of a progress report.
pub struct ProgressView {
    pub step: Seq<char>,
    pub status: Seq<char>,
    pub message: Option<Seq<char>>,
}

impl View for J2534Progress {
    type V = ProgressView;

    open spec fn view(&self) -> ProgressView {
        ProgressView {
            step: self.step@,
            status: self.status@,
            message: opt_text(self.message),
        }
    }
}

/// Model of an action.
pub enum OpenStep {
    Report(ProgressView),
    Warn(Seq<char>),
    LoadLibrary,
    OpenDevice,
    Connect { device_id: u32, protocol_id: u32, flags: u32, baud_rate: u32 },
    StartPassFilter { channel_id: u32, mask: PassThruMsgView, pattern: PassThruMsgView },
    ReadLastError,
    Disconnect { channel_id: u32 },
    CloseDevice { device_id: u32 },
    ConnectExtended { device_id: u32, protocol_id: u32, flags: u32, baud_rate: u32 },
    SetLoopbackOff { channel_id: u32 },
    GetLoopback { channel_id: u32 },
    Fail(Seq<char>),
    Done(OpenedChannels),
}

impl View for OpenAction {
    type V = OpenStep;

    open spec fn view(&self) -> OpenStep {
        match self {
            OpenAction::Report(p) => OpenStep::Report(p@),
            OpenAction::Warn(w) => OpenStep::Warn(w@),
            OpenAction::LoadLibrary => OpenStep::LoadLibrary,
            OpenAction::OpenDevice => OpenStep::OpenDevice,
            OpenAction::Connect { device_id, protocol_id, flags, baud_rate } =>
                OpenStep::Connect { device_id: *device_id, protocol_id: *protocol_id, flags: *flags, baud_rate: *baud_rate },
            OpenAction::StartPassFilter { channel_id, mask, pattern } =>
                OpenStep::StartPassFilter { channel_id: *channel_id, mask: mask@, pattern: pattern@ },
            OpenAction::ReadLastError => OpenStep::ReadLastError,
            OpenAction::Disconnect { channel_id } => OpenStep::Disconnect { channel_id: *channel_id },
            OpenAction::CloseDevice { device_id } => OpenStep::CloseDevice { device_id: *device_id },
            OpenAction::ConnectExtended { device_id, protocol_id, flags, baud_rate } =>
                OpenStep::ConnectExtended { device_id: *device_id, protocol_id: *protocol_id, flags: *flags, baud_rate: *baud_rate },
            OpenAction::SetLoopbackOff { channel_id } => OpenStep::SetLoopbackOff { channel_id: *channel_id },
            OpenAction::GetLoopback { channel_id } => OpenStep::GetLoopback { channel_id: *channel_id },
            OpenAction::Fail(e) => OpenStep::Fail(e@),
            OpenAction::Done(c) => OpenStep::Done(*c),
        }
    }
}

/// Models of a sequence of actions.
pub open spec fn steps_of(v: Seq<OpenAction>) -> Seq<OpenStep> {
    v.map_values(|a: OpenAction| a@)
}

/// Model of the sequence's state.
pub struct OpenState {
    pub phase: OpenPhase,
    pub dll_path: Seq<char>,
    pub protocol_id: u32,
    pub baud_rate: u32,
    pub connect_flags: u32,
    pub device_id: u32,
    pub channel_id: u32,
    pub channel_id_29bit: Option<u32>,
    pub loopback_set: Option<Result<(), Seq<char>>>,
}

/// The answer an action in this phase calls for.
pub open spec fn event_fits(phase: OpenPhase, e: OpenEvent) -> bool {
    match phase {
        OpenPhase::AwaitLoad => e is Loaded || e is Unavailable,
        OpenPhase::AwaitOpen | OpenPhase::AwaitConnect | OpenPhase::AwaitKlineFilter
            | OpenPhase::AwaitCanFilter | OpenPhase::AwaitExtendedConnect => e is Status || e is Unavailable,
        OpenPhase::AwaitExtendedFilter | OpenPhase::AwaitExtendedChannelFilter { .. } => e is Status,
        OpenPhase::AwaitLastError { .. } => e is LastError,
        OpenPhase::AwaitLoopbackSet => e is LoopbackSet,
        OpenPhase::AwaitLoopbackRead => e is LoopbackRead,
        _ => false,
    }
}

/// A progress report.
pub open spec fn report(step: Seq<char>, status: Seq<char>, message: Option<Seq<char>>) -> OpenStep {
    OpenStep::Report(ProgressView { step, status, message })
}

/// A pass-all filter frame: `size` zero bytes.
pub open spec fn pass_all(protocol_id: u32, tx_flags: u32, size: u32) -> PassThruMsgView {
    frame_of(protocol_id, tx_flags, size, Seq::empty())
}

/// The second (29-bit) pass-all filter is installed on the main channel
/// when 29-bit ids are asked for, unless the mixed-capture flags are used.
pub open spec fn wants_extended_filter(flags: u32) -> bool {
    flags & CAN_29BIT_ID != 0 && flags != CAN_MIXED_CAPTURE_FLAGS
}

/// "ON" or "OFF".
pub open spec fn on_off(state: bool) -> Seq<char> {
    if state { "ON"@ } else { "OFF"@ }
}

/// The report of the loopback step.
pub open spec fn loopback_text(set: Result<(), Seq<char>>, read: Result<bool, Seq<char>>) -> Seq<char> {
    match (set, read) {
        (Ok(()), Ok(state)) => "Loopback reported "@ + on_off(state),
        (Ok(()), Err(e)) => "Loopback set ok; readback failed: "@ + e,
        (Err(e), Ok(state)) => "Loopback set failed: "@ + e + "; device reports "@ + on_off(state),
        (Err(e), Err(e2)) => "Loopback set failed: "@ + e + "; readback failed: "@ + e2,
    }
}

/// The error of a failed connect, with the driver's last error when it has one.
pub open spec fn connect_failed_text(result: i32, last: Option<Seq<char>>) -> Seq<char> {
    failure_text("ERR_J2534_CONNECT_FAILED: error code "@, result, last)
}

/// What follows the filter stage: the 29-bit channel when `CAN_ID_BOTH`
/// was asked for, otherwise the loopback stage.
pub open spec fn after_filters(s: OpenState) -> (OpenState, Seq<OpenStep>) {
    if s.connect_flags == CAN_ID_BOTH {
        (
            OpenState { phase: OpenPhase::AwaitExtendedConnect, ..s },
            seq![OpenStep::ConnectExtended { device_id: s.device_id, protocol_id: s.protocol_id, flags: CAN_29BIT_ID, baud_rate: s.baud_rate }],
        )
    } else {
        loopback_stage(s)
    }
}

/// The loopback stage: report it, then turn loopback off.
pub open spec fn loopback_stage(s: OpenState) -> (OpenState, Seq<OpenStep>) {
    (
        OpenState { phase: OpenPhase::AwaitLoopbackSet, ..s },
        seq![
            report("loopback"@, "in_progress"@, Some("Disabling loopback (if supported)"@)),
            OpenStep::SetLoopbackOff { channel_id: s.channel_id },
        ],
    )
}

/// The filter stage after the channel is connected.
pub open spec fn filter_stage(s: OpenState) -> (OpenState, Seq<OpenStep>) {
    if spec_is_kline_protocol(s.protocol_id) {
        (
            OpenState { phase: OpenPhase::AwaitKlineFilter, ..s },
            seq![OpenStep::StartPassFilter {
                channel_id: s.channel_id,
                mask: pass_all(s.protocol_id, 0, 1),
                pattern: pass_all(s.protocol_id, 0, 1),
            }],
        )
    } else if spec_is_can_protocol(s.protocol_id) {
        (
            OpenState { phase: OpenPhase::AwaitCanFilter, ..s },
            seq![OpenStep::StartPassFilter {
                channel_id: s.channel_id,
                mask: pass_all(s.protocol_id, 0, 4),
                pattern: pass_all(s.protocol_id, 0, 4),
            }],
        )
    } else {
        after_filters(s)
    }
}

/// One step of the sequence: the state after the answer, and the actions
/// to perform (notifications first, then at most one call or the end).
pub open spec fn open_resume(s: OpenState, e: OpenEvent) -> (OpenState, Seq<OpenStep>) {
    match s.phase {
        OpenPhase::AwaitLoad => match e {
            OpenEvent::Unavailable(msg) => (
                OpenState { phase: OpenPhase::Ended, ..s },
                seq![OpenStep::Fail("ERR_J2534_DLL_LOAD: "@ + msg@)],
            ),
            _ => (
                OpenState { phase: OpenPhase::AwaitOpen, ..s },
                seq![
                    report("load_dll"@, "success"@, None),
                    report("open_device"@, "in_progress"@, None),
                    OpenStep::OpenDevice,
                ],
            ),
        },
        OpenPhase::AwaitOpen => match e {
            OpenEvent::Status { result, id } => if result != STATUS_NOERROR {
                (
                    OpenState { phase: OpenPhase::Ended, ..s },
                    seq![OpenStep::Fail("ERR_J2534_OPEN_FAILED: error code "@ + code_and_name(result))],
                )
            } else {
                (
                    OpenState { phase: OpenPhase::AwaitConnect, device_id: id, ..s },
                    seq![
                        report("open_device"@, "success"@, Some("Device ID: "@ + dec_digits(id as nat))),
                        report("connect_channel"@, "in_progress"@, Some("Baud rate: "@ + dec_digits(s.baud_rate as nat) + " bps"@)),
                        OpenStep::Connect { device_id: id, protocol_id: s.protocol_id, flags: s.connect_flags, baud_rate: s.baud_rate },
                    ],
                )
            },
            OpenEvent::Unavailable(msg) => (
                OpenState { phase: OpenPhase::Ended, ..s },
                seq![OpenStep::Fail(missing_function_text("PassThruOpen"@, msg@))],
            ),
            _ => (s, Seq::empty()),
        },
        OpenPhase::AwaitConnect => match e {
            OpenEvent::Status { result, id } => if result != STATUS_NOERROR {
                (OpenState { phase: OpenPhase::AwaitLastError { result }, ..s }, seq![OpenStep::ReadLastError])
            } else {
                let t = OpenState { channel_id: id, ..s };
                let needs = spec_is_can_protocol(s.protocol_id) || spec_is_kline_protocol(s.protocol_id);
                let (u, rest) = filter_stage(t);
                (
                    u,
                    seq![
                        report("connect_channel"@, "success"@, Some("Channel ID: "@ + dec_digits(id as nat))),
                        report("set_filter"@, if needs { "in_progress"@ } else { "success"@ },
                            if needs { None } else { Some("Skipped (not required for this protocol)"@) }),
                    ] + rest,
                )
            },
            OpenEvent::Unavailable(msg) => (
                OpenState { phase: OpenPhase::Ended, ..s },
                seq![OpenStep::Fail(missing_function_text("PassThruConnect"@, msg@))],
            ),
            _ => (s, Seq::empty()),
        },
        OpenPhase::AwaitLastError { result } => match e {
            OpenEvent::LastError(last) => (
                OpenState { phase: OpenPhase::Ended, ..s },
                seq![
                    OpenStep::CloseDevice { device_id: s.device_id },
                    OpenStep::Fail(connect_failed_text(result, opt_text(last))),
                ],
            ),
            _ => (s, Seq::empty()),
        },
        OpenPhase::AwaitKlineFilter => match e {
            OpenEvent::Status { result, id } => {
                let warn = if result != STATUS_NOERROR {
                    seq![OpenStep::Warn("[j2534] Warning: K-Line pass-all filter failed: "@ + code_and_name(result) + ". RX may not work."@)]
                } else {
                    Seq::empty()
                };
                let (u, rest) = after_filters(s);
                (u, warn + seq![report("set_filter"@, "success"@, Some("K-Line pass-all filter"@))] + rest)
            },
            OpenEvent::Unavailable(msg) => (
                OpenState { phase: OpenPhase::Ended, ..s },
                seq![OpenStep::Fail(missing_function_text("PassThruStartMsgFilter"@, msg@))],
            ),
            _ => (s, Seq::empty()),
        },
        OpenPhase::AwaitCanFilter => match e {
            OpenEvent::Status { result, id } => if result != STATUS_NOERROR {
                (
                    OpenState { phase: OpenPhase::Ended, ..s },
                    seq![
                        OpenStep::Disconnect { channel_id: s.channel_id },
                        OpenStep::CloseDevice { device_id: s.device_id },
                        OpenStep::Fail("ERR_J2534_FILTER_FAILED: error code "@ + code_and_name(result)),
                    ],
                )
            } else if wants_extended_filter(s.connect_flags) {
                (
                    OpenState { phase: OpenPhase::AwaitExtendedFilter, ..s },
                    seq![OpenStep::StartPassFilter {
                        channel_id: s.channel_id,
                        mask: pass_all(s.protocol_id, CAN_29BIT_ID, 4),
                        pattern: pass_all(s.protocol_id, CAN_29BIT_ID, 4),
                    }],
                )
            } else {
                let (u, rest) = after_filters(s);
                (u, seq![report("set_filter"@, "success"@, None)] + rest)
            },
            OpenEvent::Unavailable(msg) => (
                OpenState { phase: OpenPhase::Ended, ..s },
                seq![OpenStep::Fail(missing_function_text("PassThruStartMsgFilter"@, msg@))],
            ),
            _ => (s, Seq::empty()),
        },
        OpenPhase::AwaitExtendedFilter => match e {
            OpenEvent::Status { result, id } => {
                let warn = if result != STATUS_NOERROR {
                    seq![OpenStep::Warn("[j2534] Warning: 29-bit pass filter failed: "@ + code_and_name(result) + ". Extended frames may not be received."@)]
                } else {
                    Seq::empty()
                };
                let (u, rest) = after_filters(s);
                (u, warn + seq![report("set_filter"@, "success"@, None)] + rest)
            },
            _ => (s, Seq::empty()),
        },
        OpenPhase::AwaitExtendedConnect => match e {
            OpenEvent::Status { result, id } => if result != STATUS_NOERROR {
                let (u, rest) = loopback_stage(s);
                (u, seq![OpenStep::Warn("[j2534] Could not open 29-bit channel: "@ + code_and_name(result) + " \u{2014} relying on CAN_ID_BOTH"@)] + rest)
            } else {
                (
                    OpenState { phase: OpenPhase::AwaitExtendedChannelFilter { channel_id: id }, ..s },
                    seq![OpenStep::StartPassFilter {
                        channel_id: id,
                        mask: pass_all(s.protocol_id, CAN_29BIT_ID, 4),
                        pattern: pass_all(s.protocol_id, CAN_29BIT_ID, 4),
                    }],
                )
            },
            OpenEvent::Unavailable(msg) => loopback_stage(s),
            _ => (s, Seq::empty()),
        },
        OpenPhase::AwaitExtendedChannelFilter { channel_id } => match e {
            OpenEvent::Status { result, id } => {
                let warn = if result != STATUS_NOERROR {
                    seq![OpenStep::Warn("[j2534] 29-bit channel filter failed: "@ + code_and_name(result))]
                } else {
                    Seq::empty()
                };
                let t = OpenState { channel_id_29bit: Some(channel_id), ..s };
                let (u, rest) = loopback_stage(t);
                (u, warn + seq![OpenStep::Warn("[j2534] Opened dedicated 29-bit channel (id="@ + dec_digits(channel_id as nat) + ")"@)] + rest)
            },
            _ => (s, Seq::empty()),
        },
        OpenPhase::AwaitLoopbackSet => match e {
            OpenEvent::LoopbackSet(r) => (
                OpenState {
                    phase: OpenPhase::AwaitLoopbackRead,
                    loopback_set: Some(match r { Ok(()) => Ok(()), Err(m) => Err(m@) }),
                    ..s
                },
                seq![OpenStep::GetLoopback { channel_id: s.channel_id }],
            ),
            _ => (s, Seq::empty()),
        },
        OpenPhase::AwaitLoopbackRead => match e {
            OpenEvent::LoopbackRead(r) => (
                OpenState { phase: OpenPhase::Ended, ..s },
                seq![
                    report("loopback"@, "success"@, Some(loopback_text(
                        s.loopback_set.unwrap(),
                        match r { Ok(b) => Ok(b), Err(m) => Err(m@) },
                    ))),
                    report("complete"@, "success"@, Some("Connection established"@)),
                    OpenStep::Done(OpenedChannels {
                        device_id: s.device_id,
                        channel_id: s.channel_id,
                        channel_id_29bit: s.channel_id_29bit,
                        protocol_id: s.protocol_id,
                    }),
                ],
            ),
            _ => (s, Seq::empty()),
        },
        _ => (s, Seq::empty()),
    }
}


/// Well-formed states: the outcome of turning loopback off is known once
/// the sequence waits for the readback.
pub open spec fn open_wf(s: OpenState) -> bool {
    &&& s.phase is AwaitLoopbackRead ==> s.loopback_set is Some
    &&& (s.channel_id_29bit is Some || s.phase is AwaitExtendedConnect || s.phase is AwaitExtendedChannelFilter)
        ==> s.connect_flags == CAN_ID_BOTH
}

/// The first state: waiting for the library to load.
pub open spec fn open_initial(dll_path: Seq<char>, protocol_id: u32, baud_rate: u32, connect_flags: u32) -> OpenState {
    OpenState {
        phase: OpenPhase::AwaitLoad,
        dll_path,
        protocol_id,
        baud_rate,
        connect_flags,
        device_id: 0,
        channel_id: 0,
        channel_id_29bit: None,
        loopback_set: None,
    }
}

/// The connection set-up sequence for one device.
pub struct OpenSequence {
    phase: OpenPhase,
    dll_path: String,
    protocol_id: u32,
    baud_rate: u32,
    connect_flags: u32,
    device_id: u32,
    channel_id: u32,
    channel_id_29bit: Option<u32>,
    loopback_set: Option<Result<(), String>>,
}

impl View for OpenSequence {
    type V = OpenState;

    closed spec fn view(&self) -> OpenState {
        OpenState {
            phase: self.phase,
            dll_path: self.dll_path@,
            protocol_id: self.protocol_id,
            baud_rate: self.baud_rate,
            connect_flags: self.connect_flags,
            device_id: self.device_id,
            channel_id: self.channel_id,
            channel_id_29bit: self.channel_id_29bit,
            loopback_set: match self.loopback_set {
                Some(Ok(())) => Some(Ok(())),
                Some(Err(m)) => Some(Err(m@)),
                None => None,
            },
        }
    }
}

fn emit(out: &mut Vec<OpenAction>, a: OpenAction)
    ensures
        steps_of(final(out)@) == steps_of(old(out)@).push(a@),
{
    let ghost before = out@;
    let ghost av = a@;
    out.push(a);
    assert(steps_of(out@) =~= steps_of(before).push(av));
}

fn emit_report(out: &mut Vec<OpenAction>, step: &str, status: &str, message: Option<String>)
    ensures
        steps_of(final(out)@) == steps_of(old(out)@).push(report(step@, status@, opt_text(message))),
{
    let p = J2534Progress { step: String::from_str(step), status: String::from_str(status), message };
    emit(out, OpenAction::Report(p));
}

fn emit_fail(out: &mut Vec<OpenAction>, e: String)
    ensures
        steps_of(final(out)@) == steps_of(old(out)@).push(OpenStep::Fail(e@)),
{
    emit(out, OpenAction::Fail(e));
}

fn emit_warn(out: &mut Vec<OpenAction>, w: String)
    ensures
        steps_of(final(out)@) == steps_of(old(out)@).push(OpenStep::Warn(w@)),
{
    emit(out, OpenAction::Warn(w));
}

/// A pass-all filter frame.
fn pass_all_frame(protocol_id: u32, tx_flags: u32, size: u32) -> (m: PassThruMsg)
    ensures
        m@ == pass_all(protocol_id, tx_flags, size),
{
    let empty: Vec<u8> = Vec::new();
    let m = build_frame(protocol_id, tx_flags, size, empty.as_slice(), 0);
    assert(empty@.take(0) =~= Seq::<u8>::empty());
    m
}

fn emit_pass_filter(out: &mut Vec<OpenAction>, channel_id: u32, protocol_id: u32, tx_flags: u32, size: u32)
    ensures
        steps_of(final(out)@) == steps_of(old(out)@).push(OpenStep::StartPassFilter {
            channel_id,
            mask: pass_all(protocol_id, tx_flags, size),
            pattern: pass_all(protocol_id, tx_flags, size),
        }),
{
    let mask = pass_all_frame(protocol_id, tx_flags, size);
    let pattern = pass_all_frame(protocol_id, tx_flags, size);
    emit(out, OpenAction::StartPassFilter { channel_id, mask, pattern });
}

/// `lead`, the status code with its name, then `tail`.
fn status_text(lead: &str, code: i32, tail: &str) -> (s: String)
    ensures
        s@ == lead@ + code_and_name(code) + tail@,
{
    let mut s = status_error(lead, code);
    push_str(&mut s, tail);
    s
}

impl OpenSequence {
    /// Starts the sequence: report that the library is being loaded, then
    /// load it.
    pub fn begin(dll_path: String, protocol_id: u32, baud_rate: u32, connect_flags: u32) -> (r: (OpenSequence, Vec<OpenAction>))
        ensures
            r.0@ == open_initial(dll_path@, protocol_id, baud_rate, connect_flags),
            open_wf(r.0@),
            steps_of(r.1@) == seq![
                report("load_dll"@, "in_progress"@, Some(dll_path@)),
                OpenStep::LoadLibrary,
            ],
    {
        let mut out: Vec<OpenAction> = Vec::new();
        let shown = dll_path.clone();
        emit_report(&mut out, "load_dll", "in_progress", Some(shown));
        emit(&mut out, OpenAction::LoadLibrary);
        let seq = OpenSequence {
            phase: OpenPhase::AwaitLoad,
            dll_path,
            protocol_id,
            baud_rate,
            connect_flags,
            device_id: 0,
            channel_id: 0,
            channel_id_29bit: None,
            loopback_set: None,
        };
        assert(steps_of(out@) =~= seq![
            report("load_dll"@, "in_progress"@, Some(seq.dll_path@)),
            OpenStep::LoadLibrary,
        ]);
        (seq, out)
    }

    /// Whether the sequence has ended (with `Fail` or `Done`).
    pub fn is_finished(&self) -> (b: bool)
        ensures
            b == (self@.phase is Ended),
    {
        match self.phase {
            OpenPhase::Ended => true,
            _ => false,
        }
    }

    fn loopback_stage(&mut self, out: &mut Vec<OpenAction>)
        ensures
            final(self)@ == loopback_stage(old(self)@).0,
            steps_of(final(out)@) == steps_of(old(out)@) + loopback_stage(old(self)@).1,
    {
        let ghost o = steps_of(out@);
        emit_report(out, "loopback", "in_progress", Some(String::from_str("Disabling loopback (if supported)")));
        emit(out, OpenAction::SetLoopbackOff { channel_id: self.channel_id });
        self.phase = OpenPhase::AwaitLoopbackSet;
        assert(steps_of(out@) =~= o + loopback_stage(old(self)@).1);
    }

    fn after_filters(&mut self, out: &mut Vec<OpenAction>)
        ensures
            final(self)@ == after_filters(old(self)@).0,
            steps_of(final(out)@) == steps_of(old(out)@) + after_filters(old(self)@).1,
    {
        if self.connect_flags == CAN_ID_BOTH {
            let ghost o = steps_of(out@);
            emit(out, OpenAction::ConnectExtended {
                device_id: self.device_id,
                protocol_id: self.protocol_id,
                flags: CAN_29BIT_ID,
                baud_rate: self.baud_rate,
            });
            self.phase = OpenPhase::AwaitExtendedConnect;
            assert(steps_of(out@) =~= o + after_filters(old(self)@).1);
        } else {
            self.loopback_stage(out);
        }
    }

    fn filter_stage(&mut self, out: &mut Vec<OpenAction>)
        ensures
            final(self)@ == filter_stage(old(self)@).0,
            steps_of(final(out)@) == steps_of(old(out)@) + filter_stage(old(self)@).1,
    {
        let ghost o = steps_of(out@);
        if is_kline_protocol(self.protocol_id) {
            emit_pass_filter(out, self.channel_id, self.protocol_id, 0, 1);
            self.phase = OpenPhase::AwaitKlineFilter;
            assert(steps_of(out@) =~= o + filter_stage(old(self)@).1);
        } else if is_can_protocol(self.protocol_id) {
            emit_pass_filter(out, self.channel_id, self.protocol_id, 0, 4);
            self.phase = OpenPhase::AwaitCanFilter;
            assert(steps_of(out@) =~= o + filter_stage(old(self)@).1);
        } else {
            self.after_filters(out);
        }
    }

    fn on_load(&mut self, event: OpenEvent) -> (actions: Vec<OpenAction>)
        requires
            old(self)@.phase is AwaitLoad,
        ensures
            (final(self)@, steps_of(actions@)) == open_resume(old(self)@, event),
    {
        let mut out: Vec<OpenAction> = Vec::new();
        match event {
            OpenEvent::Unavailable(msg) => {
                let mut e = String::from_str("ERR_J2534_DLL_LOAD: ");
                push_str(&mut e, msg.as_str());
                emit_fail(&mut out, e);
                self.phase = OpenPhase::Ended;
            },
            _ => {
                emit_report(&mut out, "load_dll", "success", None);
                emit_report(&mut out, "open_device", "in_progress", None);
                emit(&mut out, OpenAction::OpenDevice);
                self.phase = OpenPhase::AwaitOpen;
            },
        }
        assert(steps_of(out@) =~= open_resume(old(self)@, event).1);
        out
    }

    fn on_open(&mut self, event: OpenEvent) -> (actions: Vec<OpenAction>)
        requires
            old(self)@.phase is AwaitOpen,
        ensures
            (final(self)@, steps_of(actions@)) == open_resume(old(self)@, event),
    {
        let mut out: Vec<OpenAction> = Vec::new();
        match event {
            OpenEvent::Status { result, id } => {
                if result != STATUS_NOERROR {
                    emit_fail(&mut out, status_error("ERR_J2534_OPEN_FAILED: error code ", result));
                    self.phase = OpenPhase::Ended;
                } else {
                    let mut m1 = String::from_str("Device ID: ");
                    push_decimal(&mut m1, id as u64);
                    emit_report(&mut out, "open_device", "success", Some(m1));
                    let mut m2 = String::from_str("Baud rate: ");
                    push_decimal(&mut m2, self.baud_rate as u64);
                    push_str(&mut m2, " bps");
                    emit_report(&mut out, "connect_channel", "in_progress", Some(m2));
                    emit(&mut out, OpenAction::Connect {
                        device_id: id,
                        protocol_id: self.protocol_id,
                        flags: self.connect_flags,
                        baud_rate: self.baud_rate,
                    });
                    self.device_id = id;
                    self.phase = OpenPhase::AwaitConnect;
                }
            },
            OpenEvent::Unavailable(msg) => {
                emit_fail(&mut out, missing_function_error("PassThruOpen", msg.as_str()));
                self.phase = OpenPhase::Ended;
            },
            _ => {},
        }
        assert(steps_of(out@) =~= open_resume(old(self)@, event).1);
        out
    }

    fn on_connect(&mut self, event: OpenEvent) -> (actions: Vec<OpenAction>)
        requires
            old(self)@.phase is AwaitConnect,
        ensures
            (final(self)@, steps_of(actions@)) == open_resume(old(self)@, event),
    {
        let mut out: Vec<OpenAction> = Vec::new();
        match event {
            OpenEvent::Status { result, id } => {
                if result != STATUS_NOERROR {
                    emit(&mut out, OpenAction::ReadLastError);
                    self.phase = OpenPhase::AwaitLastError { result };
                } else {
                    let needs = is_can_protocol(self.protocol_id) || is_kline_protocol(self.protocol_id);
                    let mut m = String::from_str("Channel ID: ");
                    push_decimal(&mut m, id as u64);
                    emit_report(&mut out, "connect_channel", "success", Some(m));
                    if needs {
                        emit_report(&mut out, "set_filter", "in_progress", None);
                    } else {
                        emit_report(&mut out, "set_filter", "success",
                            Some(String::from_str("Skipped (not required for this protocol)")));
                    }
                    self.channel_id = id;
                    let ghost o = steps_of(out@);
                    let ghost t = self@;
                    self.filter_stage(&mut out);
                    assert(steps_of(out@) == o + filter_stage(t).1);
                }
            },
            OpenEvent::Unavailable(msg) => {
                emit_fail(&mut out, missing_function_error("PassThruConnect", msg.as_str()));
                self.phase = OpenPhase::Ended;
            },
            _ => {},
        }
        assert(steps_of(out@) =~= open_resume(old(self)@, event).1);
        out
    }

    fn on_last_error(&mut self, event: OpenEvent, result: i32) -> (actions: Vec<OpenAction>)
        requires
            old(self)@.phase == (OpenPhase::AwaitLastError { result }),
        ensures
            (final(self)@, steps_of(actions@)) == open_resume(old(self)@, event),
    {
        let mut out: Vec<OpenAction> = Vec::new();
        match event {
            OpenEvent::LastError(last) => {
                emit(&mut out, OpenAction::CloseDevice { device_id: self.device_id });
                emit_fail(&mut out, failure_error("ERR_J2534_CONNECT_FAILED: error code ", result, last));
                self.phase = OpenPhase::Ended;
            },
            _ => {},
        }
        assert(steps_of(out@) =~= open_resume(old(self)@, event).1);
        out
    }

    fn on_kline_filter(&mut self, event: OpenEvent) -> (actions: Vec<OpenAction>)
        requires
            old(self)@.phase is AwaitKlineFilter,
        ensures
            (final(self)@, steps_of(actions@)) == open_resume(old(self)@, event),
    {
        let mut out: Vec<OpenAction> = Vec::new();
        match event {
            OpenEvent::Status { result, id } => {
                if result != STATUS_NOERROR {
                    emit_warn(&mut out, status_text("[j2534] Warning: K-Line pass-all filter failed: ", result, ". RX may not work."));
                }
                emit_report(&mut out, "set_filter", "success", Some(String::from_str("K-Line pass-all filter")));
                self.after_filters(&mut out);
            },
            OpenEvent::Unavailable(msg) => {
                emit_fail(&mut out, missing_function_error("PassThruStartMsgFilter", msg.as_str()));
                self.phase = OpenPhase::Ended;
            },
            _ => {},
        }
        assert(steps_of(out@) =~= open_resume(old(self)@, event).1);
        out
    }

    fn on_can_filter(&mut self, event: OpenEvent) -> (actions: Vec<OpenAction>)
        requires
            old(self)@.phase is AwaitCanFilter,
        ensures
            (final(self)@, steps_of(actions@)) == open_resume(old(self)@, event),
    {
        let mut out: Vec<OpenAction> = Vec::new();
        match event {
            OpenEvent::Status { result, id } => {
                if result != STATUS_NOERROR {
                    emit(&mut out, OpenAction::Disconnect { channel_id: self.channel_id });
                    emit(&mut out, OpenAction::CloseDevice { device_id: self.device_id });
                    emit_fail(&mut out, status_error("ERR_J2534_FILTER_FAILED: error code ", result));
                    self.phase = OpenPhase::Ended;
                } else if self.connect_flags & CAN_29BIT_ID != 0 && self.connect_flags != CAN_MIXED_CAPTURE_FLAGS {
                    emit_pass_filter(&mut out, self.channel_id, self.protocol_id, CAN_29BIT_ID, 4);
                    self.phase = OpenPhase::AwaitExtendedFilter;
                } else {
                    emit_report(&mut out, "set_filter", "success", None);
                    self.after_filters(&mut out);
                }
            },
            OpenEvent::Unavailable(msg) => {
                emit_fail(&mut out, missing_function_error("PassThruStartMsgFilter", msg.as_str()));
                self.phase = OpenPhase::Ended;
            },
            _ => {},
        }
        assert(steps_of(out@) =~= open_resume(old(self)@, event).1);
        out
    }

    fn on_extended_filter(&mut self, event: OpenEvent) -> (actions: Vec<OpenAction>)
        requires
            old(self)@.phase is AwaitExtendedFilter,
        ensures
            (final(self)@, steps_of(actions@)) == open_resume(old(self)@, event),
    {
        let mut out: Vec<OpenAction> = Vec::new();
        match event {
            OpenEvent::Status { result, id } => {
                if result != STATUS_NOERROR {
                    emit_warn(&mut out, status_text("[j2534] Warning: 29-bit pass filter failed: ", result,
                        ". Extended frames may not be received."));
                }
                emit_report(&mut out, "set_filter", "success", None);
                self.after_filters(&mut out);
            },
            _ => {},
        }
        assert(steps_of(out@) =~= open_resume(old(self)@, event).1);
        out
    }

    fn on_extended_connect(&mut self, event: OpenEvent) -> (actions: Vec<OpenAction>)
        requires
            old(self)@.phase is AwaitExtendedConnect,
        ensures
            (final(self)@, steps_of(actions@)) == open_resume(old(self)@, event),
    {
        let mut out: Vec<OpenAction> = Vec::new();
        match event {
            OpenEvent::Status { result, id } => {
                if result != STATUS_NOERROR {
                    emit_warn(&mut out, status_text("[j2534] Could not open 29-bit channel: ", result,
                        " \u{2014} relying on CAN_ID_BOTH"));
                    self.loopback_stage(&mut out);
                } else {
                    emit_pass_filter(&mut out, id, self.protocol_id, CAN_29BIT_ID, 4);
                    self.phase = OpenPhase::AwaitExtendedChannelFilter { channel_id: id };
                }
            },
            OpenEvent::Unavailable(msg) => {
                self.loopback_stage(&mut out);
            },
            _ => {},
        }
        assert(steps_of(out@) =~= open_resume(old(self)@, event).1);
        out
    }

    fn on_extended_channel_filter(&mut self, event: OpenEvent, channel_id: u32) -> (actions: Vec<OpenAction>)
        requires
            old(self)@.phase == (OpenPhase::AwaitExtendedChannelFilter { channel_id }),
        ensures
            (final(self)@, steps_of(actions@)) == open_resume(old(self)@, event),
    {
        let mut out: Vec<OpenAction> = Vec::new();
        match event {
            OpenEvent::Status { result, id } => {
                if result != STATUS_NOERROR {
                    emit_warn(&mut out, status_error("[j2534] 29-bit channel filter failed: ", result));
                }
                let mut w = String::from_str("[j2534] Opened dedicated 29-bit channel (id=");
                push_decimal(&mut w, channel_id as u64);
                push_str(&mut w, ")");
                emit_warn(&mut out, w);
                self.channel_id_29bit = Some(channel_id);
                self.loopback_stage(&mut out);
            },
            _ => {},
        }
        assert(steps_of(out@) =~= open_resume(old(self)@, event).1);
        out
    }

    fn on_loopback_set(&mut self, event: OpenEvent) -> (actions: Vec<OpenAction>)
        requires
            old(self)@.phase is AwaitLoopbackSet,
        ensures
            (final(self)@, steps_of(actions@)) == open_resume(old(self)@, event),
    {
        let mut out: Vec<OpenAction> = Vec::new();
        match event {
            OpenEvent::LoopbackSet(r) => {
                self.loopback_set = Some(r);
                emit(&mut out, OpenAction::GetLoopback { channel_id: self.channel_id });
                self.phase = OpenPhase::AwaitLoopbackRead;
            },
            _ => {},
        }
        assert(steps_of(out@) =~= open_resume(old(self)@, event).1);
        out
    }

    fn on_loopback_read(&mut self, event: OpenEvent) -> (actions: Vec<OpenAction>)
        requires
            old(self)@.phase is AwaitLoopbackRead,
            old(self)@.loopback_set is Some,
        ensures
            (final(self)@, steps_of(actions@)) == open_resume(old(self)@, event),
    {
        let mut out: Vec<OpenAction> = Vec::new();
        match event {
            OpenEvent::LoopbackRead(r) => {
                let text = match (&self.loopback_set, r) {
                    (Some(Ok(())), Ok(state)) => {
                        let mut t = String::from_str("Loopback reported ");
                        push_str(&mut t, if state { "ON" } else { "OFF" });
                        t
                    },
                    (Some(Ok(())), Err(e2)) => {
                        let mut t = String::from_str("Loopback set ok; readback failed: ");
                        push_str(&mut t, e2.as_str());
                        t
                    },
                    (Some(Err(e)), Ok(state)) => {
                        let mut t = String::from_str("Loopback set failed: ");
                        push_str(&mut t, e.as_str());
                        push_str(&mut t, "; device reports ");
                        push_str(&mut t, if state { "ON" } else { "OFF" });
                        t
                    },
                    (Some(Err(e)), Err(e2)) => {
                        let mut t = String::from_str("Loopback set failed: ");
                        push_str(&mut t, e.as_str());
                        push_str(&mut t, "; readback failed: ");
                        push_str(&mut t, e2.as_str());
                        t
                    },
                    (None, _) => String::new(),
                };
                emit_report(&mut out, "loopback", "success", Some(text));
                emit_report(&mut out, "complete", "success", Some(String::from_str("Connection established")));
                emit(&mut out, OpenAction::Done(OpenedChannels {
                    device_id: self.device_id,
                    channel_id: self.channel_id,
                    channel_id_29bit: self.channel_id_29bit,
                    protocol_id: self.protocol_id,
                }));
                self.phase = OpenPhase::Ended;
            },
            _ => {},
        }
        assert(steps_of(out@) =~= open_resume(old(self)@, event).1);
        out
    }

    /// Feeds the outcome of the last requested call into the sequence and
    /// returns what to do next: notifications first, then at most one
    /// driver call, or the end (`Fail` or `Done`).
    pub fn resume(&mut self, event: OpenEvent) -> (actions: Vec<OpenAction>)
        requires
            open_wf(old(self)@),
            event_fits(old(self)@.phase, event),
        ensures
            open_wf(final(self)@),
            (final(self)@, steps_of(actions@)) == open_resume(old(self)@, event),
    {
        let out = match self.phase {
            OpenPhase::AwaitLoad => self.on_load(event),
            OpenPhase::AwaitOpen => self.on_open(event),
            OpenPhase::AwaitConnect => self.on_connect(event),
            OpenPhase::AwaitLastError { result } => self.on_last_error(event, result),
            OpenPhase::AwaitKlineFilter => self.on_kline_filter(event),
            OpenPhase::AwaitCanFilter => self.on_can_filter(event),
            OpenPhase::AwaitExtendedFilter => self.on_extended_filter(event),
            OpenPhase::AwaitExtendedConnect => self.on_extended_connect(event),
            OpenPhase::AwaitExtendedChannelFilter { channel_id } => self.on_extended_channel_filter(event, channel_id),
            OpenPhase::AwaitLoopbackSet => self.on_loopback_set(event),
            OpenPhase::AwaitLoopbackRead => self.on_loopback_read(event),
            OpenPhase::Ended => Vec::new(),
        };
        proof { lemma_open_keeps_wf(old(self)@, event); }
        out
    }
}

/// Every step keeps the state well formed.
pub proof fn lemma_open_keeps_wf(s: OpenState, e: OpenEvent)
    requires
        open_wf(s),
        event_fits(s.phase, e),
    ensures
        open_wf(open_resume(s, e).0),
{
}

/// How far the sequence is from its end.
pub open spec fn phase_rank(p: OpenPhase) -> nat {
    match p {
        OpenPhase::AwaitLoad => 12,
        OpenPhase::AwaitOpen => 11,
        OpenPhase::AwaitConnect => 10,
        OpenPhase::AwaitLastError { .. } => 9,
        OpenPhase::AwaitKlineFilter => 8,
        OpenPhase::AwaitCanFilter => 8,
        OpenPhase::AwaitExtendedFilter => 7,
        OpenPhase::AwaitExtendedConnect => 5,
        OpenPhase::AwaitExtendedChannelFilter { .. } => 4,
        OpenPhase::AwaitLoopbackSet => 2,
        OpenPhase::AwaitLoopbackRead => 1,
        OpenPhase::Ended => 0,
    }
}

/// The sequence always moves towards its end: every answer it expects
/// brings it strictly closer, so it ends after at most twelve answers.
pub proof fn lemma_open_progresses(s: OpenState, e: OpenEvent)
    requires
        event_fits(s.phase, e),
    ensures
        phase_rank(open_resume(s, e).0.phase) < phase_rank(s.phase),
{
}

/// The sequence has ended exactly when its last action is `Fail` or `Done`.
pub proof fn lemma_open_ends_with_outcome(s: OpenState, e: OpenEvent)
    requires
        open_wf(s),
        event_fits(s.phase, e),
    ensures
        ({
            let (t, steps) = open_resume(s, e);
            &&& steps.len() > 0
            &&& (t.phase is Ended) <==> (steps.last() is Fail || steps.last() is Done)
            &&& forall|i: int| 0 <= i < steps.len() - 1 ==> !(#[trigger] steps[i] is Fail) && !(steps[i] is Done)
        }),
{
}

/// A failed connect reads the driver's last error, then closes the device
/// and fails with both the status and that text.
pub proof fn lemma_connect_failure_closes_device(s: OpenState, result: i32, id: u32, last: Option<String>)
    requires
        s.phase is AwaitConnect,
        result != STATUS_NOERROR,
    ensures
        ({
            let (t, steps) = open_resume(s, OpenEvent::Status { result, id });
            &&& steps == seq![OpenStep::ReadLastError]
            &&& open_resume(t, OpenEvent::LastError(last)).1 == seq![
                OpenStep::CloseDevice { device_id: s.device_id },
                OpenStep::Fail(connect_failed_text(result, opt_text(last))),
            ]
            &&& open_resume(t, OpenEvent::LastError(last)).0.phase is Ended
        }),
{
}

/// A refused CAN pass-all filter disconnects the channel and closes the
/// device before failing.
pub proof fn lemma_can_filter_failure_releases(s: OpenState, result: i32, id: u32)
    requires
        s.phase is AwaitCanFilter,
        result != STATUS_NOERROR,
    ensures
        open_resume(s, OpenEvent::Status { result, id }).1 == seq![
            OpenStep::Disconnect { channel_id: s.channel_id },
            OpenStep::CloseDevice { device_id: s.device_id },
            OpenStep::Fail("ERR_J2534_FILTER_FAILED: error code "@ + code_and_name(result)),
        ],
        open_resume(s, OpenEvent::Status { result, id }).0.phase is Ended,
{
}

/// A dedicated 29-bit channel is only ever opened, and only ever handed
/// out, when `CAN_ID_BOTH` was asked for.
pub proof fn lemma_extended_channel_needs_id_both(s: OpenState, e: OpenEvent)
    requires
        open_wf(s),
        event_fits(s.phase, e),
    ensures
        forall|i: int| 0 <= i < open_resume(s, e).1.len() ==> {
            let step = #[trigger] open_resume(s, e).1[i];
            &&& step is ConnectExtended ==> s.connect_flags == CAN_ID_BOTH
            &&& (step matches OpenStep::Done(c) && c.channel_id_29bit is Some) ==> s.connect_flags == CAN_ID_BOTH
        },
{
}


/// Until the dedicated 29-bit channel's filter answers, no 29-bit channel
/// is held.
pub open spec fn no_29bit_channel_yet(s: OpenState) -> bool {
    phase_rank(s.phase) >= 4 ==> s.channel_id_29bit is None
}

/// The sequence starts without a 29-bit channel, and no step before the
/// 29-bit channel's filter answer gives it one.
pub proof fn lemma_no_29bit_channel_yet(dll_path: Seq<char>, protocol_id: u32, baud_rate: u32, connect_flags: u32,
    s: OpenState, e: OpenEvent)
    requires
        no_29bit_channel_yet(s),
    ensures
        no_29bit_channel_yet(open_initial(dll_path, protocol_id, baud_rate, connect_flags)),
        no_29bit_channel_yet(open_resume(s, e).0),
{
}

/// A refused or unavailable 29-bit channel never fails the open: the
/// sequence goes on to turn loopback off on the main channel, with no
/// failure or completion on the way, and once loopback is set and read
/// back it completes on the main channel with the 29-bit channel it held
/// before (none, in a sequence that started with `begin`).
pub proof fn lemma_extended_connect_failure_continues(s: OpenState, e: OpenEvent, set: OpenEvent, read: OpenEvent)
    requires
        s.phase is AwaitExtendedConnect,
        e is Unavailable || (e matches OpenEvent::Status { result, .. } && result != STATUS_NOERROR),
        set is LoopbackSet,
        read is LoopbackRead,
    ensures
        open_resume(s, e).0.phase is AwaitLoopbackSet,
        open_resume(s, e).0.device_id == s.device_id,
        open_resume(s, e).0.channel_id == s.channel_id,
        open_resume(s, e).0.channel_id_29bit == s.channel_id_29bit,
        open_resume(s, e).1.len() > 0,
        open_resume(s, e).1.last() == (OpenStep::SetLoopbackOff { channel_id: s.channel_id }),
        forall|k: int| 0 <= k < open_resume(s, e).1.len()
            ==> !(#[trigger] open_resume(s, e).1[k] is Fail) && !(open_resume(s, e).1[k] is Done),
        open_resume(open_resume(open_resume(s, e).0, set).0, read).1.last() == (OpenStep::Done(OpenedChannels {
            device_id: s.device_id,
            channel_id: s.channel_id,
            channel_id_29bit: s.channel_id_29bit,
            protocol_id: s.protocol_id,
        })),
{
    let steps = open_resume(s, e).1;
    assert forall|k: int| 0 <= k < steps.len() implies !(#[trigger] steps[k] is Fail) && !(steps[k] is Done) by {
        match e {
            OpenEvent::Status { result, id } => {
                assert(k == 0 || k == 1 || k == 2);
            },
            _ => {
                assert(k == 0 || k == 1);
            },
        }
    }
}
} // verus!
