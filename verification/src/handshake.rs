//! Minimal trust-domain handshake, run over an established QUIC connection.
//!
//! mTLS proves the certificate chain; this handshake gives LAIC a
//! protocol-level place to confirm each peer's trust domain. The client
//! sends a `Hello`, the server answers with a `HelloAck` that either accepts
//! (fresh server nonce and session id) or rejects with an explicit code, and
//! both sides end with the same session or a protocol error.
//!
//! This module holds every decision of the exchange; moving the messages
//! over the connection and their protobuf encoding is the caller's part.
//! Nonces and session ids are handshake-local freshness markers inside an
//! mTLS-protected channel, not authentication secrets.
use vstd::prelude::*;
use vstd::string::StringExecFns;

use crate::error::{LaicError, ProtocolError};
use crate::protocol::constants::{MsgType, PayloadFormat, Qos, VERSION};
use crate::protocol::message::{fresh_header, Message};
use crate::text::{dec_digits, hex_padded, push_decimal, push_hex_padded};

verus! {

/// Length of handshake nonces and session ids, in bytes.
pub const HANDSHAKE_TOKEN_LEN: usize = 16;

/// Client → server greeting.
#[derive(Clone, Debug, PartialEq)]
pub struct TrustDomainHello {
    /// Protocol version the client speaks.
    pub protocol_version: u32,
    /// The client's trust domain.
    pub trust_domain: String,
    /// Client freshness marker, to be echoed by the server.
    pub client_nonce: Vec<u8>,
}

/// Server → client answer: acceptance (`rejection_code == 0`) with session
/// material, or a rejection carrying the protocol error code.
#[derive(Clone, Debug, PartialEq)]
pub struct TrustDomainHelloAck {
    /// Protocol version the server speaks.
    pub protocol_version: u32,
    /// The server's trust domain.
    pub trust_domain: String,
    /// Echo of the client nonce.
    pub client_nonce: Vec<u8>,
    /// Server freshness marker; empty on rejection.
    pub server_nonce: Vec<u8>,
    /// Handshake identifier; empty on rejection.
    pub session_id: Vec<u8>,
    /// `0` on acceptance, else the code of the server-side error.
    pub rejection_code: u32,
    /// On a trust-domain rejection, the domain the server expected.
    pub rejected_expected_remote_trust_domain: Option<String>,
}

/// Client-side configuration for the trust-domain handshake.
#[derive(Clone, Debug, PartialEq, Eq)]
pub struct ClientHandshakeConfig {
    local_trust_domain: String,
    expected_remote_trust_domain: Option<String>,
    protocol_version: u16,
}

/// Server-side configuration for the trust-domain handshake.
#[derive(Clone, Debug, PartialEq, Eq)]
pub struct ServerHandshakeConfig {
    local_trust_domain: String,
    expected_remote_trust_domain: Option<String>,
    protocol_version: u16,
}

/// Successful outcome of the handshake: trust-domain metadata plus
/// handshake-local freshness markers.
#[derive(Clone, Debug, PartialEq, Eq)]
pub struct TrustDomainSession {
    protocol_version: u16,
    local_trust_domain: String,
    remote_trust_domain: String,
    client_nonce: [u8; 16],
    server_nonce: [u8; 16],
    session_id: [u8; 16],
}

/// What the server sends back for a hello, and how the server side ends.
#[derive(Debug)]
pub struct ServerReply {
    /// The `HelloAck` to send to the client.
    pub ack: TrustDomainHelloAck,
    /// The server's own outcome, reported after the ack is sent.
    pub outcome: Result<TrustDomainSession, LaicError>,
}

// ---------------------------------------------------------------------------
// Spec views
// ---------------------------------------------------------------------------

/// An optional string, by its characters.
pub open spec fn opt_view(o: Option<String>) -> Option<Seq<char>> {
    match o {
        Some(s) => Some(s@),
        None => None,
    }
}

impl ClientHandshakeConfig {
    /// The local trust domain.
    pub closed spec fn spec_local(&self) -> Seq<char> {
        self.local_trust_domain@
    }

    /// The trust domain expected from the server, if any.
    pub closed spec fn spec_expected(&self) -> Option<Seq<char>> {
        opt_view(self.expected_remote_trust_domain)
    }

    /// The protocol version this endpoint speaks.
    pub closed spec fn spec_version(&self) -> u16 {
        self.protocol_version
    }
}

impl ServerHandshakeConfig {
    /// The local trust domain.
    pub closed spec fn spec_local(&self) -> Seq<char> {
        self.local_trust_domain@
    }

    /// The trust domain expected from clients, if any.
    pub closed spec fn spec_expected(&self) -> Option<Seq<char>> {
        opt_view(self.expected_remote_trust_domain)
    }

    /// The protocol version this endpoint speaks.
    pub closed spec fn spec_version(&self) -> u16 {
        self.protocol_version
    }
}

impl TrustDomainSession {
    /// Negotiated protocol version.
    pub closed spec fn spec_version(&self) -> u16 {
        self.protocol_version
    }

    /// Local trust domain.
    pub closed spec fn spec_local(&self) -> Seq<char> {
        self.local_trust_domain@
    }

    /// Remote trust domain observed from the peer.
    pub closed spec fn spec_remote(&self) -> Seq<char> {
        self.remote_trust_domain@
    }

    /// Client nonce.
    pub closed spec fn spec_client_nonce(&self) -> Seq<u8> {
        self.client_nonce@
    }

    /// Server nonce.
    pub closed spec fn spec_server_nonce(&self) -> Seq<u8> {
        self.server_nonce@
    }

    /// Session id.
    pub closed spec fn spec_session_id(&self) -> Seq<u8> {
        self.session_id@
    }
}

// ---------------------------------------------------------------------------
// Error shapes
// ---------------------------------------------------------------------------

/// `e` reports a malformed handshake payload with this detail text.
pub open spec fn payload_error(e: LaicError, text: Seq<char>) -> bool {
    e matches LaicError::Protocol(ProtocolError::InvalidHandshakePayload { detail }) && detail@
        == text
}

/// `e` reports a trust-domain mismatch between these domains.
pub open spec fn mismatch_error(e: LaicError, expected: Seq<char>, actual: Seq<char>) -> bool {
    e matches LaicError::Protocol(ProtocolError::TrustDomainMismatch { expected: x, actual: y })
        && x@ == expected && y@ == actual
}

/// `e` reports an unsupported handshake version.
pub open spec fn version_error(e: LaicError, expected: u16, actual: u16) -> bool {
    e == LaicError::Protocol(ProtocolError::UnsupportedHandshakeVersion { expected, actual })
}

// ---------------------------------------------------------------------------
// Individual checks: when each passes, and what it reports when not
// ---------------------------------------------------------------------------

/// A trust domain is acceptable when it is not empty.
pub open spec fn domain_ok(value: Seq<char>) -> bool {
    value.len() > 0
}

/// The error for an empty trust domain in the field named `field`.
pub open spec fn domain_err(field: Seq<char>, e: LaicError) -> bool {
    payload_error(e, field + " must not be empty"@)
}

/// The peer's version must equal the local one.
pub open spec fn version_ok(expected: u16, actual: u32) -> bool {
    actual == expected as u32
}

/// The error for a peer version that differs from the local one.
pub open spec fn version_err(expected: u16, actual: u32, e: LaicError) -> bool {
    if actual > u16::MAX {
        payload_error(e, "protocol_version "@ + dec_digits(actual as nat) + " exceeds u16"@)
    } else {
        version_error(e, expected, actual as u16)
    }
}

/// A reported domain passes when nothing is expected or it is the expected one.
pub open spec fn expected_ok(expected: Option<Seq<char>>, actual: Seq<char>) -> bool {
    match expected {
        Some(x) => x == actual,
        None => true,
    }
}

/// The error for a reported domain other than the expected one.
pub open spec fn expected_err(expected: Option<Seq<char>>, actual: Seq<char>, e: LaicError) -> bool {
    match expected {
        Some(x) => mismatch_error(e, x, actual),
        None => false,
    }
}

/// A token field must hold exactly 16 bytes.
pub open spec fn token_ok(bytes: Seq<u8>) -> bool {
    bytes.len() == 16
}

/// The error for a token field named `field` of the wrong length.
pub open spec fn token_err(field: Seq<char>, bytes: Seq<u8>, e: LaicError) -> bool {
    payload_error(e, field + " must be 16 bytes, got "@ + dec_digits(bytes.len()))
}

/// An ack is well shaped: an acceptance carries session material and no
/// rejection explanation; a rejection carries no session material.
pub open spec fn ack_shape_ok(ack: TrustDomainHelloAck) -> bool {
    if ack.rejection_code == 0 {
        ack.rejected_expected_remote_trust_domain is None && token_ok(ack.server_nonce@)
            && token_ok(ack.session_id@)
    } else {
        ack.server_nonce@.len() == 0 && ack.session_id@.len() == 0
    }
}

/// The error for the first shape fault of an ack.
pub open spec fn ack_shape_err(ack: TrustDomainHelloAck, e: LaicError) -> bool {
    if ack.rejection_code == 0 {
        if ack.rejected_expected_remote_trust_domain is Some {
            payload_error(e, "hello_ack success must not include rejection explanation"@)
        } else if !token_ok(ack.server_nonce@) {
            token_err("server_nonce"@, ack.server_nonce@, e)
        } else {
            token_err("session_id"@, ack.session_id@, e)
        }
    } else if ack.server_nonce@.len() != 0 {
        payload_error(e, "hello_ack rejection must not include server_nonce"@)
    } else {
        payload_error(e, "hello_ack rejection must not include session_id"@)
    }
}

/// An ack passes the client's rejection check when it is a well-shaped
/// acceptance.
pub open spec fn ack_accepted(ack: TrustDomainHelloAck) -> bool {
    ack_shape_ok(ack) && ack.rejection_code == 0
}

/// The error the client reports for an ack that is malformed or rejects it.
pub open spec fn ack_rejection_err(
    version: u16,
    local: Seq<char>,
    ack: TrustDomainHelloAck,
    e: LaicError,
) -> bool {
    let code = ack.rejection_code;
    if !ack_shape_ok(ack) {
        ack_shape_err(ack, e)
    } else if code == 0x0308 {
        if ack.protocol_version > u16::MAX {
            payload_error(
                e,
                "hello_ack rejection echoed protocol_version "@ + dec_digits(
                    ack.protocol_version as nat,
                ) + " outside u16"@,
            )
        } else if ack.protocol_version == version as u32 {
            payload_error(e, "hello_ack rejected protocol version but echoed a matching version"@)
        } else {
            version_error(e, version, ack.protocol_version as u16)
        }
    } else if code == 0x0309 {
        match ack.rejected_expected_remote_trust_domain {
            Some(x) => mismatch_error(e, x@, local),
            None => payload_error(
                e,
                "hello_ack trust-domain rejection omitted expected remote domain"@,
            ),
        }
    } else if code == 0x030B {
        payload_error(e, "server rejected client hello as malformed"@)
    } else {
        payload_error(
            e,
            "unknown hello_ack rejection code 0x"@ + hex_padded(code as nat, 4),
        )
    }
}

/// The server accepts a hello: non-empty domain, same version, expected domain.
pub open spec fn peer_hello_ok(cfg: ServerHandshakeConfig, hello: TrustDomainHello) -> bool {
    &&& domain_ok(hello.trust_domain@)
    &&& version_ok(cfg.spec_version(), hello.protocol_version)
    &&& expected_ok(cfg.spec_expected(), hello.trust_domain@)
}

/// The error the server reports for the first fault of a hello.
pub open spec fn peer_hello_err(
    cfg: ServerHandshakeConfig,
    hello: TrustDomainHello,
    e: LaicError,
) -> bool {
    if !domain_ok(hello.trust_domain@) {
        domain_err("hello trust_domain"@, e)
    } else if !version_ok(cfg.spec_version(), hello.protocol_version) {
        version_err(cfg.spec_version(), hello.protocol_version, e)
    } else {
        expected_err(cfg.spec_expected(), hello.trust_domain@, e)
    }
}

/// The hello that a client with `cfg` sends with nonce `nonce`.
pub open spec fn client_hello_fields(
    cfg: ClientHandshakeConfig,
    nonce: [u8; 16],
    hello: TrustDomainHello,
) -> bool {
    &&& hello.protocol_version == cfg.spec_version() as u32
    &&& hello.trust_domain@ == cfg.spec_local()
    &&& hello.client_nonce@ == nonce@
}

/// The client accepts an ack answering its hello with nonce `nonce`.
pub open spec fn client_accepts(
    cfg: ClientHandshakeConfig,
    nonce: [u8; 16],
    ack: TrustDomainHelloAck,
) -> bool {
    &&& version_ok(cfg.spec_version(), ack.protocol_version)
    &&& domain_ok(ack.trust_domain@)
    &&& expected_ok(cfg.spec_expected(), ack.trust_domain@)
    &&& ack_accepted(ack)
    &&& token_ok(ack.client_nonce@)
    &&& ack.client_nonce@ == nonce@
}

/// The error the client reports for the first fault of an ack.
pub open spec fn client_finish_err(
    cfg: ClientHandshakeConfig,
    nonce: [u8; 16],
    ack: TrustDomainHelloAck,
    e: LaicError,
) -> bool {
    if !version_ok(cfg.spec_version(), ack.protocol_version) {
        version_err(cfg.spec_version(), ack.protocol_version, e)
    } else if !domain_ok(ack.trust_domain@) {
        domain_err("hello_ack trust_domain"@, e)
    } else if !expected_ok(cfg.spec_expected(), ack.trust_domain@) {
        expected_err(cfg.spec_expected(), ack.trust_domain@, e)
    } else if !ack_accepted(ack) {
        ack_rejection_err(cfg.spec_version(), cfg.spec_local(), ack, e)
    } else if !token_ok(ack.client_nonce@) {
        token_err("client_nonce"@, ack.client_nonce@, e)
    } else {
        e == LaicError::Protocol(ProtocolError::HandshakeNonceMismatch)
    }
}

/// The session fields agreed by the handshake.
pub open spec fn session_is(
    s: TrustDomainSession,
    version: u16,
    local: Seq<char>,
    remote: Seq<char>,
    client_nonce: Seq<u8>,
    server_nonce: Seq<u8>,
    session_id: Seq<u8>,
) -> bool {
    &&& s.spec_version() == version
    &&& s.spec_local() == local
    &&& s.spec_remote() == remote
    &&& s.spec_client_nonce() == client_nonce
    &&& s.spec_server_nonce() == server_nonce
    &&& s.spec_session_id() == session_id
}

/// The acceptance ack the server sends for a hello it accepts.
pub open spec fn acceptance_ack(
    cfg: ServerHandshakeConfig,
    hello: TrustDomainHello,
    server_nonce: [u8; 16],
    session_id: [u8; 16],
    ack: TrustDomainHelloAck,
) -> bool {
    &&& ack.protocol_version == cfg.spec_version() as u32
    &&& ack.trust_domain@ == cfg.spec_local()
    &&& ack.client_nonce@ == hello.client_nonce@
    &&& ack.server_nonce@ == server_nonce@
    &&& ack.session_id@ == session_id@
    &&& ack.rejection_code == 0
    &&& ack.rejected_expected_remote_trust_domain is None
}

/// The rejection ack the server sends when it refuses a hello with `e`.
pub open spec fn rejection_ack(
    cfg: ServerHandshakeConfig,
    hello: TrustDomainHello,
    e: LaicError,
    ack: TrustDomainHelloAck,
) -> bool {
    &&& ack.protocol_version == cfg.spec_version() as u32
    &&& ack.trust_domain@ == cfg.spec_local()
    &&& ack.client_nonce@ == hello.client_nonce@
    &&& ack.server_nonce@.len() == 0
    &&& ack.session_id@.len() == 0
    &&& ack.rejection_code == e.spec_code() as u32
    &&& opt_view(ack.rejected_expected_remote_trust_domain) == rejected_domain(e)
}

/// The domain a rejection names as expected: only for a trust-domain mismatch.
pub open spec fn rejected_domain(e: LaicError) -> Option<Seq<char>> {
    match e {
        LaicError::Protocol(ProtocolError::TrustDomainMismatch { expected, .. }) => Some(
            expected@,
        ),
        _ => None,
    }
}

// ---------------------------------------------------------------------------
// Configurations and session accessors
// ---------------------------------------------------------------------------

fn owned_opt(o: Option<&str>) -> (r: Option<String>)
    ensures
        opt_view(r) == match o {
            Some(s) => Some(s@),
            None => None::<Seq<char>>,
        },
{
    match o {
        Some(s) => Some(String::from_str(s)),
        None => None,
    }
}

fn borrowed_opt(o: &Option<String>) -> (r: Option<&str>)
    ensures
        match r {
            Some(s) => Some(s@),
            None => None::<Seq<char>>,
        } == opt_view(*o),
{
    match o {
        Some(s) => Some(s.as_str()),
        None => None,
    }
}

fn clone_string(s: &String) -> (r: String)
    ensures
        r@ == s@,
{
    s.clone()
}

impl ClientHandshakeConfig {
    /// Create a config speaking the crate's current protocol version.
    pub fn new(local_trust_domain: &str, expected_remote: Option<&str>) -> (r: Self)
        ensures
            r.spec_local() == local_trust_domain@,
            r.spec_expected() == match expected_remote {
                Some(s) => Some(s@),
                None => None::<Seq<char>>,
            },
            r.spec_version() == VERSION,
    {
        ClientHandshakeConfig {
            local_trust_domain: String::from_str(local_trust_domain),
            expected_remote_trust_domain: owned_opt(expected_remote),
            protocol_version: VERSION,
        }
    }

    /// Override the protocol version (to exercise compatibility failures).
    pub fn with_protocol_version(self, protocol_version: u16) -> (r: Self)
        ensures
            r.spec_local() == self.spec_local(),
            r.spec_expected() == self.spec_expected(),
            r.spec_version() == protocol_version,
    {
        ClientHandshakeConfig { protocol_version, ..self }
    }

    /// The local trust domain this client announces.
    pub fn local_trust_domain(&self) -> (r: &str)
        ensures
            r@ == self.spec_local(),
    {
        self.local_trust_domain.as_str()
    }
}

impl ServerHandshakeConfig {
    /// Create a config speaking the crate's current protocol version.
    pub fn new(local_trust_domain: &str, expected_remote: Option<&str>) -> (r: Self)
        ensures
            r.spec_local() == local_trust_domain@,
            r.spec_expected() == match expected_remote {
                Some(s) => Some(s@),
                None => None::<Seq<char>>,
            },
            r.spec_version() == VERSION,
    {
        ServerHandshakeConfig {
            local_trust_domain: String::from_str(local_trust_domain),
            expected_remote_trust_domain: owned_opt(expected_remote),
            protocol_version: VERSION,
        }
    }

    /// Override the protocol version (to exercise compatibility failures).
    pub fn with_protocol_version(self, protocol_version: u16) -> (r: Self)
        ensures
            r.spec_local() == self.spec_local(),
            r.spec_expected() == self.spec_expected(),
            r.spec_version() == protocol_version,
    {
        ServerHandshakeConfig { protocol_version, ..self }
    }
}

impl TrustDomainSession {
    /// Negotiated LAIC protocol version.
    pub fn protocol_version(&self) -> (r: u16)
        ensures
            r == self.spec_version(),
    {
        self.protocol_version
    }

    /// Local trust-domain name used in this handshake.
    pub fn local_trust_domain(&self) -> (r: &str)
        ensures
            r@ == self.spec_local(),
    {
        self.local_trust_domain.as_str()
    }

    /// Remote trust-domain name observed from the peer.
    pub fn remote_trust_domain(&self) -> (r: &str)
        ensures
            r@ == self.spec_remote(),
    {
        self.remote_trust_domain.as_str()
    }

    /// Echoed handshake-local freshness marker, not an authentication secret.
    pub fn client_nonce(&self) -> (r: &[u8; 16])
        ensures
            r@ == self.spec_client_nonce(),
    {
        &self.client_nonce
    }

    /// Server-generated handshake-local freshness marker.
    pub fn server_nonce(&self) -> (r: &[u8; 16])
        ensures
            r@ == self.spec_server_nonce(),
    {
        &self.server_nonce
    }

    /// Minimal handshake identifier, not a session secret.
    pub fn session_id(&self) -> (r: &[u8; 16])
        ensures
            r@ == self.spec_session_id(),
    {
        &self.session_id
    }
}

// ---------------------------------------------------------------------------
// Checks
// ---------------------------------------------------------------------------

fn payload_err(detail: String) -> (r: LaicError)
    ensures
        payload_error(r, detail@),
{
    LaicError::Protocol(ProtocolError::InvalidHandshakePayload { detail })
}

fn same_text(a: &str, b: &str) -> (r: bool)
    ensures
        r == (a@ == b@),
{
    String::from_str(a) == String::from_str(b)
}

/// Check that a trust domain named `field` is not empty.
pub fn validate_trust_domain(field: &str, value: &str) -> (r: Result<(), LaicError>)
    ensures
        r is Ok <==> domain_ok(value@),
        r matches Err(e) ==> domain_err(field@, e),
{
    if value.unicode_len() == 0 {
        let mut detail = String::from_str(field);
        detail.append(" must not be empty");
        return Err(payload_err(detail));
    }
    Ok(())
}

/// Check that the peer speaks the `expected` protocol version.
pub fn validate_protocol_version(expected: u16, actual: u32) -> (r: Result<(), LaicError>)
    ensures
        r is Ok <==> version_ok(expected, actual),
        r matches Err(e) ==> version_err(expected, actual, e),
{
    if actual > 0xFFFF {
        let mut detail = String::from_str("protocol_version ");
        push_decimal(&mut detail, actual as u64);
        detail.append(" exceeds u16");
        return Err(payload_err(detail));
    }
    let actual_version = actual as u16;
    if actual_version != expected {
        return Err(
            LaicError::Protocol(
                ProtocolError::UnsupportedHandshakeVersion { expected, actual: actual_version },
            ),
        );
    }
    Ok(())
}

/// Check that the domain a peer reports is the expected one, if any.
pub fn validate_expected_domain(expected: Option<&str>, actual: &str) -> (r: Result<
    (),
    LaicError,
>)
    ensures
        ({
            let exp = match expected {
                Some(s) => Some(s@),
                None => None::<Seq<char>>,
            };
            &&& r is Ok <==> expected_ok(exp, actual@)
            &&& r matches Err(e) ==> expected_err(exp, actual@, e)
        }),
{
    if let Some(expected_domain) = expected {
        if !same_text(expected_domain, actual) {
            return Err(
                LaicError::Protocol(
                    ProtocolError::TrustDomainMismatch {
                        expected: String::from_str(expected_domain),
                        actual: String::from_str(actual),
                    },
                ),
            );
        }
    }
    Ok(())
}

/// Read a 16-byte token from the field named `field`.
pub fn decode_token(field: &str, bytes: &[u8]) -> (r: Result<[u8; 16], LaicError>)
    ensures
        r is Ok <==> token_ok(bytes@),
        r matches Ok(t) ==> t@ == bytes@,
        r matches Err(e) ==> token_err(field@, bytes@, e),
{
    if bytes.len() != HANDSHAKE_TOKEN_LEN {
        let mut detail = String::from_str(field);
        detail.append(" must be 16 bytes, got ");
        push_decimal(&mut detail, bytes.len() as u64);
        return Err(payload_err(detail));
    }
    let token: [u8; 16] = [
        bytes[0],
        bytes[1],
        bytes[2],
        bytes[3],
        bytes[4],
        bytes[5],
        bytes[6],
        bytes[7],
        bytes[8],
        bytes[9],
        bytes[10],
        bytes[11],
        bytes[12],
        bytes[13],
        bytes[14],
        bytes[15],
    ];
    assert(token@ =~= bytes@);
    Ok(token)
}

/// Check the shape of an ack: an acceptance carries a 16-byte server nonce
/// and session id and no rejection explanation; a rejection carries no
/// session material.
pub fn validate_ack_shape(ack: &TrustDomainHelloAck) -> (r: Result<(), LaicError>)
    ensures
        r is Ok <==> ack_shape_ok(*ack),
        r matches Err(e) ==> ack_shape_err(*ack, e),
{
    if ack.rejection_code == 0 {
        if ack.rejected_expected_remote_trust_domain.is_some() {
            return Err(
                payload_err(
                    String::from_str("hello_ack success must not include rejection explanation"),
                ),
            );
        }
        let _ = decode_token("server_nonce", ack.server_nonce.as_slice())?;
        let _ = decode_token("session_id", ack.session_id.as_slice())?;
        return Ok(());
    }
    if ack.server_nonce.len() != 0 {
        return Err(
            payload_err(String::from_str("hello_ack rejection must not include server_nonce")),
        );
    }
    if ack.session_id.len() != 0 {
        return Err(
            payload_err(String::from_str("hello_ack rejection must not include session_id")),
        );
    }
    Ok(())
}

/// Turn a well-formed rejection ack into the matching client-side protocol
/// error; a well-shaped acceptance passes.
pub fn validate_ack_rejection(config: &ClientHandshakeConfig, ack: &TrustDomainHelloAck) -> (r:
    Result<(), LaicError>)
    ensures
        r is Ok <==> ack_accepted(*ack),
        r matches Err(e) ==> ack_rejection_err(config.spec_version(), config.spec_local(), *ack, e),
{
    validate_ack_shape(ack)?;
    let code = ack.rejection_code;
    if code == 0 {
        Ok(())
    } else if code == 0x0308 {
        if ack.protocol_version > 0xFFFF {
            let mut detail = String::from_str("hello_ack rejection echoed protocol_version ");
            push_decimal(&mut detail, ack.protocol_version as u64);
            detail.append(" outside u16");
            return Err(payload_err(detail));
        }
        let actual_version = ack.protocol_version as u16;
        if actual_version == config.protocol_version {
            return Err(
                payload_err(
                    String::from_str(
                        "hello_ack rejected protocol version but echoed a matching version",
                    ),
                ),
            );
        }
        Err(
            LaicError::Protocol(
                ProtocolError::UnsupportedHandshakeVersion {
                    expected: config.protocol_version,
                    actual: actual_version,
                },
            ),
        )
    } else if code == 0x0309 {
        match &ack.rejected_expected_remote_trust_domain {
            Some(expected) => Err(
                LaicError::Protocol(
                    ProtocolError::TrustDomainMismatch {
                        expected: clone_string(expected),
                        actual: clone_string(&config.local_trust_domain),
                    },
                ),
            ),
            None => Err(
                payload_err(
                    String::from_str(
                        "hello_ack trust-domain rejection omitted expected remote domain",
                    ),
                ),
            ),
        }
    } else if code == 0x030B {
        Err(payload_err(String::from_str("server rejected client hello as malformed")))
    } else {
        let mut detail = String::from_str("unknown hello_ack rejection code 0x");
        push_hex_padded(&mut detail, code as u64, 4);
        Err(payload_err(detail))
    }
}

/// Check a client's hello against the server configuration: non-empty
/// domain, same protocol version, expected domain if one is configured.
pub fn validate_peer_hello(config: &ServerHandshakeConfig, hello: &TrustDomainHello) -> (r:
    Result<(), LaicError>)
    ensures
        r is Ok <==> peer_hello_ok(*config, *hello),
        r matches Err(e) ==> peer_hello_err(*config, *hello, e),
{
    validate_trust_domain("hello trust_domain", hello.trust_domain.as_str())?;
    validate_protocol_version(config.protocol_version, hello.protocol_version)?;
    validate_expected_domain(
        borrowed_opt(&config.expected_remote_trust_domain),
        hello.trust_domain.as_str(),
    )
}

/// The domain a server-side rejection names as expected: the expected
/// domain of a trust-domain mismatch, nothing otherwise.
pub fn handshake_rejected_expected_domain(err: &LaicError) -> (r: Option<String>)
    ensures
        opt_view(r) == rejected_domain(*err),
{
    match err {
        LaicError::Protocol(ProtocolError::TrustDomainMismatch { expected, .. }) => Some(
            clone_string(expected),
        ),
        _ => None,
    }
}

// ---------------------------------------------------------------------------
// Control-message envelope
// ---------------------------------------------------------------------------

/// A handshake control message: `CONTROL` type, protobuf payload, high
/// priority (a sender preference only; receivers do not check it).
pub fn control_message(msg_id: u64, payload: Vec<u8>) -> (r: Message)
    requires
        payload@.len() <= u32::MAX,
    ensures
        r.spec_header() == fresh_header(0x0002, msg_id, 1, 1, payload@.len()),
        r.spec_payload() == payload@,
{
    Message::new(MsgType::control(), msg_id, PayloadFormat::Protobuf, Qos::High, payload)
}

/// Check the envelope of a received handshake message: it must be a
/// `CONTROL` message carrying a protobuf payload.
pub fn check_control_envelope(message: &Message) -> (r: Result<(), LaicError>)
    ensures
        message.spec_header().msg_type != 0x0002 ==> r == Err::<(), LaicError>(
            LaicError::Protocol(
                ProtocolError::UnexpectedMessageType {
                    expected: 0x0002,
                    actual: message.spec_header().msg_type,
                },
            ),
        ),
        message.spec_header().msg_type == 0x0002 && message.spec_header().payload_format != 1
            ==> r == Err::<(), LaicError>(
            LaicError::Protocol(
                ProtocolError::UnexpectedPayloadFormat {
                    expected: 1,
                    actual: message.spec_header().payload_format,
                },
            ),
        ),
        r is Ok <==> message.spec_header().msg_type == 0x0002
            && message.spec_header().payload_format == 1,
{
    let msg_type = message.msg_type().as_u16();
    if msg_type != 0x0002 {
        return Err(
            LaicError::Protocol(
                ProtocolError::UnexpectedMessageType { expected: 0x0002, actual: msg_type },
            ),
        );
    }
    let actual_format = message.header().payload_format;
    if actual_format != PayloadFormat::Protobuf.as_u8() {
        return Err(
            LaicError::Protocol(
                ProtocolError::UnexpectedPayloadFormat { expected: 1, actual: actual_format },
            ),
        );
    }
    Ok(())
}

/// The protocol error for a handshake payload that passed the envelope
/// check but failed to decode: decode failures belong to the handshake
/// payload contract (`0x030B`).
pub fn handshake_decode_error(err: &LaicError) -> (r: LaicError)
    ensures
        payload_error(r, "handshake protobuf decode failed: "@ + err.display()),
{
    let mut detail = String::from_str("handshake protobuf decode failed: ");
    let text = err.to_string();
    detail.append(text.as_str());
    payload_err(detail)
}

// ---------------------------------------------------------------------------
// Handshake steps
// ---------------------------------------------------------------------------

/// Big-endian bytes of a `u128`.
pub open spec fn be128(v: u128) -> Seq<u8> {
    seq![
        (v >> 120u128) as u8,
        (v >> 112u128) as u8,
        (v >> 104u128) as u8,
        (v >> 96u128) as u8,
        (v >> 88u128) as u8,
        (v >> 80u128) as u8,
        (v >> 72u128) as u8,
        (v >> 64u128) as u8,
        (v >> 56u128) as u8,
        (v >> 48u128) as u8,
        (v >> 40u128) as u8,
        (v >> 32u128) as u8,
        (v >> 24u128) as u8,
        (v >> 16u128) as u8,
        (v >> 8u128) as u8,
        v as u8,
    ]
}

/// A fresh handshake token from a wall-clock reading in nanoseconds and a
/// process-wide counter: the big-endian bytes of `nanos ^ (counter << 64)`.
pub fn handshake_token(nanos: u128, counter: u64) -> (r: [u8; 16])
    ensures
        r@ == be128(nanos ^ ((counter as u128) << 64u128)),
{
    let v: u128 = nanos ^ ((counter as u128) << 64u128);
    let r: [u8; 16] = [
        (v >> 120u128) as u8,
        (v >> 112u128) as u8,
        (v >> 104u128) as u8,
        (v >> 96u128) as u8,
        (v >> 88u128) as u8,
        (v >> 80u128) as u8,
        (v >> 72u128) as u8,
        (v >> 64u128) as u8,
        (v >> 56u128) as u8,
        (v >> 48u128) as u8,
        (v >> 40u128) as u8,
        (v >> 32u128) as u8,
        (v >> 24u128) as u8,
        (v >> 16u128) as u8,
        (v >> 8u128) as u8,
        v as u8,
    ];
    assert(r@ =~= be128(v));
    r
}

/// Tokens drawn with different counter values differ, whatever the clock
/// reads, as long as the reading fits in 64 bits: the token's first 8 bytes
/// are then the counter, big-endian, and its last 8 the clock reading.
pub proof fn lemma_tokens_distinct(nanos1: u128, counter1: u64, nanos2: u128, counter2: u64)
    requires
        nanos1 < 0x1_0000_0000_0000_0000u128,
        nanos2 < 0x1_0000_0000_0000_0000u128,
        counter1 != counter2,
    ensures
        be128(nanos1 ^ ((counter1 as u128) << 64u128)) != be128(
            nanos2 ^ ((counter2 as u128) << 64u128),
        ),
{
    let c1 = counter1 as u128;
    let c2 = counter2 as u128;
    let v1 = nanos1 ^ (c1 << 64u128);
    let v2 = nanos2 ^ (c2 << 64u128);
    assert(v1 >> 64u128 == c1) by (bit_vector)
        requires
            nanos1 < 0x1_0000_0000_0000_0000u128,
            c1 < 0x1_0000_0000_0000_0000u128,
            v1 == nanos1 ^ (c1 << 64u128),
    ;
    assert(v2 >> 64u128 == c2) by (bit_vector)
        requires
            nanos2 < 0x1_0000_0000_0000_0000u128,
            c2 < 0x1_0000_0000_0000_0000u128,
            v2 == nanos2 ^ (c2 << 64u128),
    ;
    if be128(v1) == be128(v2) {
        assert(be128(v1)[0] == be128(v2)[0]);
        assert(be128(v1)[1] == be128(v2)[1]);
        assert(be128(v1)[2] == be128(v2)[2]);
        assert(be128(v1)[3] == be128(v2)[3]);
        assert(be128(v1)[4] == be128(v2)[4]);
        assert(be128(v1)[5] == be128(v2)[5]);
        assert(be128(v1)[6] == be128(v2)[6]);
        assert(be128(v1)[7] == be128(v2)[7]);
        assert(v1 >> 64u128 == v2 >> 64u128) by (bit_vector)
            requires
                (v1 >> 120u128) as u8 == (v2 >> 120u128) as u8,
                (v1 >> 112u128) as u8 == (v2 >> 112u128) as u8,
                (v1 >> 104u128) as u8 == (v2 >> 104u128) as u8,
                (v1 >> 96u128) as u8 == (v2 >> 96u128) as u8,
                (v1 >> 88u128) as u8 == (v2 >> 88u128) as u8,
                (v1 >> 80u128) as u8 == (v2 >> 80u128) as u8,
                (v1 >> 72u128) as u8 == (v2 >> 72u128) as u8,
                (v1 >> 64u128) as u8 == (v2 >> 64u128) as u8,
        ;
    }
}

/// First client step: check the local configuration and build the hello.
pub fn client_hello(config: &ClientHandshakeConfig, client_nonce: [u8; 16]) -> (r: Result<
    TrustDomainHello,
    LaicError,
>)
    ensures
        r is Ok <==> domain_ok(config.spec_local()),
        r matches Err(e) ==> domain_err("client hello trust_domain"@, e),
        r matches Ok(h) ==> client_hello_fields(*config, client_nonce, h),
{
    validate_trust_domain("client hello trust_domain", config.local_trust_domain.as_str())?;
    let mut nonce: Vec<u8> = Vec::new();
    let mut i: usize = 0;
    while i < HANDSHAKE_TOKEN_LEN
        invariant
            0 <= i <= 16,
            nonce@ == client_nonce@.subrange(0, i as int),
        decreases 16 - i,
    {
        nonce.push(client_nonce[i]);
        i = i + 1;
    }
    assert(nonce@ =~= client_nonce@);
    Ok(
        TrustDomainHello {
            protocol_version: config.protocol_version as u32,
            trust_domain: clone_string(&config.local_trust_domain),
            client_nonce: nonce,
        },
    )
}

/// Last client step: validate the server's ack against the configuration
/// and the nonce sent, and build the session.
///
/// Checks, in order: version, non-empty and expected server domain, ack
/// shape and rejection code, then the echoed client nonce.
pub fn client_finish(
    config: ClientHandshakeConfig,
    client_nonce: [u8; 16],
    ack: &TrustDomainHelloAck,
) -> (r: Result<TrustDomainSession, LaicError>)
    ensures
        r is Ok <==> client_accepts(config, client_nonce, *ack),
        r matches Err(e) ==> client_finish_err(config, client_nonce, *ack, e),
        r matches Ok(s) ==> session_is(
            s,
            config.spec_version(),
            config.spec_local(),
            ack.trust_domain@,
            client_nonce@,
            ack.server_nonce@,
            ack.session_id@,
        ),
{
    validate_protocol_version(config.protocol_version, ack.protocol_version)?;
    validate_trust_domain("hello_ack trust_domain", ack.trust_domain.as_str())?;
    validate_expected_domain(
        borrowed_opt(&config.expected_remote_trust_domain),
        ack.trust_domain.as_str(),
    )?;
    validate_ack_rejection(&config, ack)?;
    let echoed = decode_token("client_nonce", ack.client_nonce.as_slice())?;
    if !same_token(&echoed, &client_nonce) {
        return Err(LaicError::Protocol(ProtocolError::HandshakeNonceMismatch));
    }
    let server_nonce = decode_token("server_nonce", ack.server_nonce.as_slice())?;
    let session_id = decode_token("session_id", ack.session_id.as_slice())?;
    Ok(
        TrustDomainSession {
            protocol_version: config.protocol_version,
            local_trust_domain: config.local_trust_domain,
            remote_trust_domain: clone_string(&ack.trust_domain),
            client_nonce,
            server_nonce,
            session_id,
        },
    )
}

fn same_token(a: &[u8; 16], b: &[u8; 16]) -> (r: bool)
    ensures
        r == (a@ == b@),
{
    let mut i: usize = 0;
    while i < 16
        invariant
            0 <= i <= 16,
            forall|j: int| 0 <= j < i ==> a@[j] == b@[j],
        decreases 16 - i,
    {
        if a[i] != b[i] {
            return false;
        }
        i = i + 1;
    }
    assert(a@ =~= b@);
    true
}

/// First server step, before any hello is read: the local trust domain
/// must not be empty.
pub fn server_preflight(config: &ServerHandshakeConfig) -> (r: Result<(), LaicError>)
    ensures
        r is Ok <==> domain_ok(config.spec_local()),
        r matches Err(e) ==> domain_err("server hello_ack trust_domain"@, e),
{
    validate_trust_domain("server hello_ack trust_domain", config.local_trust_domain.as_str())
}

fn bytes_of(t: &[u8; 16]) -> (r: Vec<u8>)
    ensures
        r@ == t@,
{
    let mut v: Vec<u8> = Vec::new();
    let mut i: usize = 0;
    while i < 16
        invariant
            0 <= i <= 16,
            v@ == t@.subrange(0, i as int),
        decreases 16 - i,
    {
        v.push(t[i]);
        i = i + 1;
    }
    assert(v@ =~= t@);
    v
}

/// Server step for a received hello: decide, and build the ack to send.
///
/// A hello whose client nonce is not 16 bytes is refused outright (no ack).
/// Otherwise the server accepts with the given fresh nonce and session id,
/// or sends a pure refusal ack carrying the error code (and, for a
/// trust-domain mismatch, the domain it expected) and ends with that error.
pub fn server_respond(
    config: ServerHandshakeConfig,
    hello: &TrustDomainHello,
    server_nonce: [u8; 16],
    session_id: [u8; 16],
) -> (r: Result<ServerReply, LaicError>)
    ensures
        r is Ok <==> token_ok(hello.client_nonce@),
        r matches Err(e) ==> token_err("client_nonce"@, hello.client_nonce@, e),
        r matches Ok(reply) ==> {
            &&& reply.outcome is Ok <==> peer_hello_ok(config, *hello)
            &&& reply.outcome matches Ok(s) ==> {
                &&& acceptance_ack(config, *hello, server_nonce, session_id, reply.ack)
                &&& session_is(
                    s,
                    config.spec_version(),
                    config.spec_local(),
                    hello.trust_domain@,
                    hello.client_nonce@,
                    server_nonce@,
                    session_id@,
                )
            }
            &&& reply.outcome matches Err(e) ==> {
                &&& peer_hello_err(config, *hello, e)
                &&& rejection_ack(config, *hello, e, reply.ack)
            }
        },
{
    let client_nonce = decode_token("client_nonce", hello.client_nonce.as_slice())?;
    match validate_peer_hello(&config, hello) {
        Ok(()) => {
            let ack = TrustDomainHelloAck {
                protocol_version: config.protocol_version as u32,
                trust_domain: clone_string(&config.local_trust_domain),
                client_nonce: bytes_of(&client_nonce),
                server_nonce: bytes_of(&server_nonce),
                session_id: bytes_of(&session_id),
                rejection_code: 0,
                rejected_expected_remote_trust_domain: None,
            };
            let session = TrustDomainSession {
                protocol_version: config.protocol_version,
                local_trust_domain: config.local_trust_domain,
                remote_trust_domain: clone_string(&hello.trust_domain),
                client_nonce,
                server_nonce,
                session_id,
            };
            Ok(ServerReply { ack, outcome: Ok(session) })
        },
        Err(err) => {
            let code = err.code().as_u16();
            let ack = TrustDomainHelloAck {
                protocol_version: config.protocol_version as u32,
                trust_domain: clone_string(&config.local_trust_domain),
                client_nonce: bytes_of(&client_nonce),
                server_nonce: Vec::new(),
                session_id: Vec::new(),
                rejection_code: code as u32,
                rejected_expected_remote_trust_domain: handshake_rejected_expected_domain(&err),
            };
            Ok(ServerReply { ack, outcome: Err(err) })
        },
    }
}

// ---------------------------------------------------------------------------
// Laws of the exchange
// ---------------------------------------------------------------------------

/// Both sides agree on a completed handshake: when the server accepts the
/// client's hello and the client expects the server's domain (or nothing),
/// the client accepts the server's ack, and the two sessions mirror each
/// other — same version, nonces and session id; each side's remote domain
/// is the other side's local domain.
pub proof fn lemma_handshake_agreement(
    c: ClientHandshakeConfig,
    s: ServerHandshakeConfig,
    client_nonce: [u8; 16],
    hello: TrustDomainHello,
    server_nonce: [u8; 16],
    session_id: [u8; 16],
    ack: TrustDomainHelloAck,
    client_session: TrustDomainSession,
    server_session: TrustDomainSession,
)
    requires
        client_hello_fields(c, client_nonce, hello),
        domain_ok(s.spec_local()),
        peer_hello_ok(s, hello),
        acceptance_ack(s, hello, server_nonce, session_id, ack),
        expected_ok(c.spec_expected(), s.spec_local()),
        session_is(
            server_session,
            s.spec_version(),
            s.spec_local(),
            hello.trust_domain@,
            hello.client_nonce@,
            server_nonce@,
            session_id@,
        ),
        session_is(
            client_session,
            c.spec_version(),
            c.spec_local(),
            ack.trust_domain@,
            client_nonce@,
            ack.server_nonce@,
            ack.session_id@,
        ),
    ensures
        client_accepts(c, client_nonce, ack),
        client_session.spec_version() == server_session.spec_version(),
        client_session.spec_local() == server_session.spec_remote(),
        client_session.spec_remote() == server_session.spec_local(),
        client_session.spec_client_nonce() == server_session.spec_client_nonce(),
        client_session.spec_server_nonce() == server_session.spec_server_nonce(),
        client_session.spec_session_id() == server_session.spec_session_id(),
{
}

/// A refusal reaches the client as the same protocol error: when the server
/// refuses a client's hello with `e`, the client does not accept the
/// rejection ack, and whatever error it reports carries `e`'s code.
pub proof fn lemma_rejection_reported(
    c: ClientHandshakeConfig,
    s: ServerHandshakeConfig,
    client_nonce: [u8; 16],
    hello: TrustDomainHello,
    e: LaicError,
    ack: TrustDomainHelloAck,
    client_error: LaicError,
)
    requires
        domain_ok(c.spec_local()),
        client_hello_fields(c, client_nonce, hello),
        domain_ok(s.spec_local()),
        !peer_hello_ok(s, hello),
        peer_hello_err(s, hello, e),
        rejection_ack(s, hello, e, ack),
        client_finish_err(c, client_nonce, ack, client_error),
    ensures
        !client_accepts(c, client_nonce, ack),
        client_error.spec_code() == e.spec_code(),
{
}

} // verus!
