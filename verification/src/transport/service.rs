//! Names of the shared-memory services behind the IPC and emergency
//! channels.
//!
//! A channel called `name` is two publish-subscribe services,
//! `laic/{ipc|emergency}/{name}/c2s` (client to server) and
//! `laic/{ipc|emergency}/{name}/s2c` (server to client). Each side
//! subscribes to the direction it receives and publishes on the other.
use vstd::prelude::*;
use vstd::string::StringExecFns;

use iceoryx2::service::service_name::{ServiceName, ServiceNameError};

use crate::error::{LaicError, TransportError};

verus! {

#[verifier::external_type_specification]
#[verifier::external_body]
pub struct ExServiceName(ServiceName);

/// Why iceoryx2 refuses a service name.
#[derive(Clone, Copy, Debug, PartialEq, Eq, Structural)]
pub enum ServiceNameFault {
    /// Empty, or holding a character outside ASCII or a NUL.
    InvalidContent,
    /// Longer than 255 bytes in UTF-8.
    ExceedsMaximumLength,
}

/// The number of bytes `c` takes in UTF-8.
pub open spec fn utf8_width(c: char) -> nat {
    if (c as u32) < 0x80 {
        1
    } else if (c as u32) < 0x800 {
        2
    } else if (c as u32) < 0x10000 {
        3
    } else {
        4
    }
}

/// The number of bytes `s` takes in UTF-8.
pub open spec fn utf8_len(s: Seq<char>) -> nat
    decreases s.len(),
{
    if s.len() == 0 {
        0
    } else {
        utf8_len(s.drop_last()) + utf8_width(s.last())
    }
}

/// Longest service name iceoryx2 takes, in bytes.
pub const MAX_SERVICE_NAME_LEN: usize = 255;

/// Whether iceoryx2 refuses `s` as a service name, and why: empty names
/// and names with a NUL or a non-ASCII character have invalid content,
/// except that a name over 255 bytes is refused for its length first.
pub open spec fn service_name_fault(s: Seq<char>) -> Option<ServiceNameFault> {
    if s.len() == 0 {
        Some(ServiceNameFault::InvalidContent)
    } else if utf8_len(s) > MAX_SERVICE_NAME_LEN {
        Some(ServiceNameFault::ExceedsMaximumLength)
    } else if exists|i: int| 0 <= i < s.len() && ((s[i] as u32) >= 0x80 || s[i] == '\0') {
        Some(ServiceNameFault::InvalidContent)
    } else {
        None
    }
}

/// The characters an iceoryx2 service name holds.
pub uninterp spec fn service_name_chars(n: ServiceName) -> Seq<char>;

/// Converts `name` into an iceoryx2 [`ServiceName`] with the
/// `TryInto<ServiceName>` impl of `&str` (`ServiceName::__internal_new`).
/// Trusted: that it refuses exactly the names `service_name_fault` gives a
/// fault for, with that fault, as its source shows (an emptiness check, then
/// the 255-byte capacity check and the byte check of `StaticString`), and
/// that a name it returns holds exactly the characters of `name`.
#[verifier::external_body]
fn to_service_name(name: &str) -> (r: Result<ServiceName, ServiceNameFault>)
    ensures
        r is Ok <==> service_name_fault(name@) is None,
        r matches Err(f) ==> service_name_fault(name@) == Some(f),
        r matches Ok(n) ==> service_name_chars(n) == name@,
{
    let converted: Result<ServiceName, ServiceNameError> = name.try_into();
    match converted {
        Ok(n) => Ok(n),
        Err(ServiceNameError::InvalidContent) => Err(ServiceNameFault::InvalidContent),
        Err(ServiceNameError::ExceedsMaximumLength) => Err(ServiceNameFault::ExceedsMaximumLength),
    }
}

/// The transport a channel belongs to.
#[derive(Clone, Copy, Debug, PartialEq, Eq, Structural)]
pub enum ChannelKind {
    /// The message transport (`laic/ipc/...`).
    Ipc,
    /// The emergency channel (`laic/emergency/...`).
    Emergency,
}

/// The path segment of a channel kind.
pub open spec fn kind_segment(kind: ChannelKind) -> Seq<char> {
    match kind {
        ChannelKind::Ipc => "ipc"@,
        ChannelKind::Emergency => "emergency"@,
    }
}

/// The direction a side subscribes to: the server receives client-to-server.
pub open spec fn subscribe_direction(server: bool) -> Seq<char> {
    if server {
        "c2s"@
    } else {
        "s2c"@
    }
}

/// The direction a side publishes on: the other one.
pub open spec fn publish_direction(server: bool) -> Seq<char> {
    subscribe_direction(!server)
}

/// The service path `laic/{kind}/{name}/{direction}`.
pub open spec fn service_path(kind: ChannelKind, name: Seq<char>, direction: Seq<char>) -> Seq<
    char,
> {
    "laic/"@ + kind_segment(kind) + "/"@ + name + "/"@ + direction
}

/// How a fault is written in error details.
pub open spec fn fault_text(f: ServiceNameFault) -> Seq<char> {
    match f {
        ServiceNameFault::InvalidContent => "InvalidContent"@,
        ServiceNameFault::ExceedsMaximumLength => "ExceedsMaximumLength"@,
    }
}

/// `e` is the connection failure reported for the refused service `path`.
pub open spec fn invalid_name_error(e: LaicError, path: Seq<char>, f: ServiceNameFault) -> bool {
    e matches LaicError::Transport(TransportError::ConnectionFailed { detail }) && detail@
        == "invalid service name '"@ + path + "': "@ + fault_text(f)
}

fn build_path(kind: ChannelKind, name: &str, server: bool, subscribe: bool) -> (r: String)
    ensures
        r@ == service_path(kind, name@, if subscribe == server {
            "c2s"@
        } else {
            "s2c"@
        }),
{
    let mut path = String::from_str("laic/");
    proof {
        reveal_strlit("laic/");
        reveal_strlit("ipc");
        reveal_strlit("emergency");
        reveal_strlit("/");
        reveal_strlit("c2s");
        reveal_strlit("s2c");
    }
    match kind {
        ChannelKind::Ipc => path.append("ipc"),
        ChannelKind::Emergency => path.append("emergency"),
    }
    path.append("/");
    path.append(name);
    path.append("/");
    if subscribe == server {
        path.append("c2s");
    } else {
        path.append("s2c");
    }
    path
}

fn invalid_name(path: &String, f: ServiceNameFault) -> (r: LaicError)
    ensures
        invalid_name_error(r, path@, f),
{
    let mut detail = String::from_str("invalid service name '");
    detail.append(path.as_str());
    detail.append("': ");
    match f {
        ServiceNameFault::InvalidContent => detail.append("InvalidContent"),
        ServiceNameFault::ExceedsMaximumLength => detail.append("ExceedsMaximumLength"),
    }
    proof {
        reveal_strlit("InvalidContent");
        reveal_strlit("ExceedsMaximumLength");
    }
    LaicError::Transport(TransportError::ConnectionFailed { detail })
}

/// The services one side of channel `name` subscribes to and publishes on,
/// in that order: the server subscribes to `c2s` and publishes on `s2c`,
/// the client the other way round. A path iceoryx2 refuses is reported as
/// a connection failure naming it, the subscribed one checked first.
pub fn service_names(kind: ChannelKind, name: &str, server: bool) -> (r: Result<
    (ServiceName, ServiceName),
    LaicError,
>)
    ensures
        ({
            let sub = service_path(kind, name@, subscribe_direction(server));
            let publ = service_path(kind, name@, publish_direction(server));
            &&& r is Ok <==> (service_name_fault(sub) is None && service_name_fault(publ) is None)
            &&& service_name_fault(sub) matches Some(f) ==> (r matches Err(e) && invalid_name_error(
                e,
                sub,
                f,
            ))
            &&& service_name_fault(sub) is None ==> (service_name_fault(publ) matches Some(f) ==> (
            r matches Err(e) && invalid_name_error(e, publ, f)))
            &&& r matches Ok((s, p)) ==> service_name_chars(s) == sub && service_name_chars(p) == publ
        }),
{
    let sub_path = build_path(kind, name, server, true);
    let pub_path = build_path(kind, name, server, false);
    let sub = match to_service_name(sub_path.as_str()) {
        Ok(n) => n,
        Err(f) => return Err(invalid_name(&sub_path, f)),
    };
    let publ = match to_service_name(pub_path.as_str()) {
        Ok(n) => n,
        Err(f) => return Err(invalid_name(&pub_path, f)),
    };
    Ok((sub, publ))
}

/// The two sides of a channel meet and never hear themselves: the service
/// the server subscribes to is the one the client publishes on and the
/// other way round, and a side's two services are distinct.
pub proof fn lemma_sides_meet(kind: ChannelKind, name: Seq<char>)
    ensures
        service_path(kind, name, subscribe_direction(true)) == service_path(
            kind,
            name,
            publish_direction(false),
        ),
        service_path(kind, name, publish_direction(true)) == service_path(
            kind,
            name,
            subscribe_direction(false),
        ),
        service_path(kind, name, subscribe_direction(true)) != service_path(
            kind,
            name,
            publish_direction(true),
        ),
{
    reveal_strlit("c2s");
    reveal_strlit("s2c");
    let a = service_path(kind, name, "c2s"@);
    let b = service_path(kind, name, "s2c"@);
    assert(a.len() == b.len());
    assert(a[a.len() - 1] == 's');
    assert(b[b.len() - 1] == 'c');
}

/// The emergency channel is isolated from the message transport: no
/// emergency service has the name of an IPC service, whatever the channel
/// names and directions.
pub proof fn lemma_emergency_isolated(
    name: Seq<char>,
    direction: Seq<char>,
    other_name: Seq<char>,
    other_direction: Seq<char>,
)
    ensures
        service_path(ChannelKind::Emergency, name, direction) != service_path(
            ChannelKind::Ipc,
            other_name,
            other_direction,
        ),
{
    reveal_strlit("laic/");
    reveal_strlit("ipc");
    reveal_strlit("emergency");
    let a = service_path(ChannelKind::Emergency, name, direction);
    let b = service_path(ChannelKind::Ipc, other_name, other_direction);
    assert(a[5] == 'e');
    assert(b[5] == 'i');
}

} // verus!
