//! The bridge process's control thread: which requests it answers itself,
//! which open or stop the worker, which it forwards, and what it answers
//! when a request line cannot be parsed or its handling panics.

use vstd::prelude::*;
use vstd::string::*;
use crate::protocol::{Request, Response, ResponseData, DeviceInfo, Message};
use crate::j2534::device::{J2534Device, DeviceView, device_views};
use crate::text::{push_str, str_equals, ascii_lower, to_ascii_lower};

verus! {

/// Whether a value of `J2534_BRIDGE_VERBOSE` turns verbose logging on:
/// "1", or "true" in any letter case.
pub open spec fn verbose_value(v: Seq<char>) -> bool {
    v == "1"@ || (v.len() == 4 && ascii_lower(v[0]) == 't' && ascii_lower(v[1]) == 'r'
        && ascii_lower(v[2]) == 'u' && ascii_lower(v[3]) == 'e')
}

/// Whether the verbose setting (absent when the variable is unset or not
/// Unicode) turns verbose logging on.
pub fn is_verbose(setting: Option<&str>) -> (b: bool)
    ensures
        b == match setting {
            Some(v) => verbose_value(v@),
            None => false,
        },
{
    match setting {
        None => false,
        Some(v) => {
            if str_equals(v, "1") {
                return true;
            }
            proof { reveal_strlit("1"); }
            if v.unicode_len() != 4 {
                return false;
            }
            to_ascii_lower(v.get_char(0)) == 't' && to_ascii_lower(v.get_char(1)) == 'r'
                && to_ascii_lower(v.get_char(2)) == 'u' && to_ascii_lower(v.get_char(3)) == 'e'
        },
    }
}

/// Entry point of the bridge where the named-pipe transport is not
/// available: the bridge only serves Windows.
pub fn run_bridge(pipe_name: &str) -> (r: Result<(), String>)
    ensures
        r matches Err(e) && e@ == "J2534 bridge is only supported on Windows"@,
{
    Err(String::from_str("J2534 bridge is only supported on Windows"))
}

/// What the control thread does with a request.
#[derive(Debug)]
pub enum ControlStep {
    /// Answer at once.
    Reply(Response),
    /// List the installed devices and answer with them.
    Enumerate,
    /// Start a worker on this device; answer `Connected`, or the error.
    Spawn { dll_path: String, protocol_id: u32, baud_rate: u32, connect_flags: u32 },
    /// Hand this closing request (`Close` or `Shutdown`) to the worker,
    /// answer with its reply, then join and drop the worker.
    Stop(Request),
    /// Hand the request to the worker and answer with its reply.
    Forward(Request),
}

/// An error response with code -1 and the given text.
pub open spec fn refusal(r: Response, text: Seq<char>) -> bool {
    r matches Response::Error { code, message } && code == -1 && message@ == text
}

/// Routes a request, given whether a worker (an open connection) exists.
/// Without a worker, closing and shutting down succeed with nothing to do
/// and every worker request is refused with "Not connected"; with one,
/// a second `Open` is refused with "Already connected".
pub fn route_request(request: Request, connected: bool) -> (step: ControlStep)
    ensures
        match request {
            Request::EnumerateDevices => step is Enumerate,
            Request::Open { dll_path, protocol_id, baud_rate, connect_flags } => if connected {
                step matches ControlStep::Reply(r) && refusal(r, "Already connected"@)
            } else {
                step == ControlStep::Spawn { dll_path, protocol_id, baud_rate, connect_flags }
            },
            Request::Close | Request::Shutdown => if connected {
                step == ControlStep::Stop(request)
            } else {
                step == ControlStep::Reply(Response::Success { data: ResponseData::Empty })
            },
            _ => if connected {
                step == ControlStep::Forward(request)
            } else {
                step matches ControlStep::Reply(r) && refusal(r, "Not connected"@)
            },
        },
{
    match request {
        Request::EnumerateDevices => ControlStep::Enumerate,
        Request::Open { dll_path, protocol_id, baud_rate, connect_flags } => {
            if connected {
                ControlStep::Reply(Response::error(-1, String::from_str("Already connected")))
            } else {
                ControlStep::Spawn { dll_path, protocol_id, baud_rate, connect_flags }
            }
        },
        Request::Close => {
            if connected { ControlStep::Stop(Request::Close) } else { ControlStep::Reply(Response::ok_none()) }
        },
        Request::Shutdown => {
            if connected { ControlStep::Stop(Request::Shutdown) } else { ControlStep::Reply(Response::ok_none()) }
        },
        other => {
            if connected {
                ControlStep::Forward(other)
            } else {
                ControlStep::Reply(Response::error(-1, String::from_str("Not connected")))
            }
        },
    }
}

/// The answer to `Open` once the worker started or failed to.
pub fn spawn_reply(outcome: Result<(), String>) -> (r: Response)
    ensures
        r == match outcome {
            Ok(()) => Response::Success { data: ResponseData::Connected },
            Err(e) => Response::Error { code: -1i32, message: e },
        },
{
    match outcome {
        Ok(()) => Response::ok(ResponseData::Connected),
        Err(e) => Response::error(-1, e),
    }
}

/// The answer to a request handed to the worker, and whether the worker
/// must be dropped: a worker that could not answer is gone.
pub fn worker_reply(outcome: Result<Response, String>) -> (r: (Response, bool))
    ensures
        r == match outcome {
            Ok(resp) => (resp, false),
            Err(e) => (Response::Error { code: -1i32, message: e }, true),
        },
{
    match outcome {
        Ok(resp) => (resp, false),
        Err(e) => (Response::error(-1, e), true),
    }
}

/// The answer to a request line that is not a valid message: id 0 and
/// "Parse error: " followed by the parser's description.
pub fn parse_error_reply(description: &str) -> (m: Message<Response>)
    ensures
        m.id == 0,
        m.payload matches Response::Error { code, message } && code == -1 && message@ == "Parse error: "@ + description@,
{
    let mut text = String::from_str("Parse error: ");
    push_str(&mut text, description);
    Message { id: 0, payload: Response::error(-1, text) }
}

/// The answer when handling a request panicked (inside a driver, most
/// likely): code -999 and the panic's text, when it has one.
pub fn panic_reply(panic_text: Option<&str>) -> (r: Response)
    ensures
        r matches Response::Error { code, message } && code == -999 && message@ == "J2534 DLL caused panic: "@ + match panic_text {
            Some(t) => t@,
            None => "Unknown panic"@,
        },
{
    let mut text = String::from_str("J2534 DLL caused panic: ");
    match panic_text {
        Some(t) => push_str(&mut text, t),
        None => push_str(&mut text, "Unknown panic"),
    }
    Response::error(-999, text)
}

/// Whether the bridge stops reading requests after answering this one.
pub fn ends_session(request: &Request) -> (b: bool)
    ensures
        b == (*request is Shutdown),
{
    match request {
        Request::Shutdown => true,
        _ => false,
    }
}

/// The wire description of an installed device.
pub open spec fn info_matches(i: DeviceInfo, d: DeviceView) -> bool {
    &&& i.name@ == d.name
    &&& i.vendor@ == d.vendor
    &&& i.dll_path@ == d.dll_path
    &&& i.can_iso15765 == d.can_iso15765
    &&& i.can_iso11898 == d.can_iso11898
    &&& i.compatible == d.compatible
    &&& i.bitness == d.bitness
    &&& i.available == d.available
    &&& match i.unavailable_reason { Some(r) => d.unavailable_reason == Some(r@), None => d.unavailable_reason is None }
    &&& i.api_version@ == d.api_version
}

/// Describes an installed device on the wire.
pub fn device_info(d: J2534Device) -> (i: DeviceInfo)
    ensures
        info_matches(i, d@),
{
    DeviceInfo {
        name: d.name,
        vendor: d.vendor,
        dll_path: d.dll_path,
        can_iso15765: d.can_iso15765,
        can_iso11898: d.can_iso11898,
        compatible: d.compatible,
        bitness: d.bitness,
        available: d.available,
        unavailable_reason: d.unavailable_reason,
        api_version: d.api_version,
    }
}

/// The answer to `EnumerateDevices`: every device, in order.
pub fn devices_reply(devices: Vec<J2534Device>) -> (r: Response)
    ensures
        r matches Response::Success { data: ResponseData::Devices(infos) } && infos@.len() == devices@.len()
            && forall|k: int| 0 <= k < infos@.len() ==> info_matches(#[trigger] infos@[k], device_views(devices@)[k]),
{
    let ghost dv = device_views(devices@);
    let mut rest = devices;
    let mut stack: Vec<J2534Device> = Vec::new();
    while rest.len() > 0
        invariant
            rest@.len() + stack@.len() == dv.len(),
            device_views(rest@) == dv.take(rest@.len() as int),
            forall|k: int| 0 <= k < stack@.len() ==> #[trigger] stack@[k]@ == dv[dv.len() - 1 - k],
        decreases rest@.len(),
    {
        let ghost before = rest@;
        let d = rest.pop().unwrap();
        assert(before[before.len() - 1] == d);
        assert(device_views(before)[before.len() - 1] == d@);
        stack.push(d);
        assert(device_views(rest@) =~= dv.take(rest@.len() as int));
    }
    let mut infos: Vec<DeviceInfo> = Vec::new();
    while stack.len() > 0
        invariant
            infos@.len() + stack@.len() == dv.len(),
            forall|k: int| 0 <= k < stack@.len() ==> #[trigger] stack@[k]@ == dv[dv.len() - 1 - k],
            forall|k: int| 0 <= k < infos@.len() ==> info_matches(#[trigger] infos@[k], dv[k]),
        decreases stack@.len(),
    {
        let d = stack.pop().unwrap();
        let ghost k = infos@.len() as int;
        assert(d@ == dv[k]);
        infos.push(device_info(d));
    }
    Response::ok(ResponseData::Devices(infos))
}

} // verus!
