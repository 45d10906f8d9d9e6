//! Transport authenticator: credential dispatch before any network work,
//! and classification of the transport's outcome afterwards.
//!
//! Planning inspects the host record alone.  A password method without a
//! non-empty password, or a key method without a key-file path, is a
//! configuration error raised before the application dials anything; an
//! unknown method likewise.  Once the application has dialed, shaken hands
//! and authenticated, the completion step turns what the transport
//! reported into a session or into an error that keeps the transport,
//! handshake and authentication outcomes apart.

use vstd::prelude::*;
use vstd::string::*;
use crate::records::Server;
use crate::session::Session;

verus! {

/// The credential the application must present, as the method demands.
#[derive(Debug)]
pub enum Credential {
    Password(String),
    KeyFile(String),
}

/// Why a session could not be established.
#[derive(Debug)]
pub enum AuthError {
    /// The password method was chosen but no non-empty password is set.
    MissingPassword,
    /// The key method was chosen but no key-file path is set.
    MissingKeyPath,
    /// The record names a method this system does not know.
    UnsupportedMethod,
    /// The host could not be reached.
    ConnectionFailed(String),
    /// The connection opened but the protocol handshake failed.
    HandshakeFailed(String),
    /// The server answered the credential with an error.
    AuthenticationFailed(String),
    /// No transport error occurred, yet the transport does not report an
    /// authenticated state.
    AuthenticationRejected,
}

impl AuthError {
    /// The human-readable error text handed to the caller.
    pub fn message(&self) -> (r: String)
        ensures
            *self is MissingPassword ==> r@
                == "missing credential: the password method requires a password"@,
            *self is MissingKeyPath ==> r@
                == "missing credential: the key method requires a key-file path"@,
            *self is UnsupportedMethod ==> r@ == "unsupported authentication method"@,
            *self matches AuthError::ConnectionFailed(e) ==> r@ == "connection failed: "@ + e@,
            *self matches AuthError::HandshakeFailed(e) ==> r@ == "handshake failed: "@ + e@,
            *self matches AuthError::AuthenticationFailed(e) ==> r@ == "authentication failed: "@
                + e@,
            *self is AuthenticationRejected ==> r@ == "authentication rejected by the server"@,
    {
        match self {
            AuthError::MissingPassword => String::from_str(
                "missing credential: the password method requires a password",
            ),
            AuthError::MissingKeyPath => String::from_str(
                "missing credential: the key method requires a key-file path",
            ),
            AuthError::UnsupportedMethod => String::from_str("unsupported authentication method"),
            AuthError::ConnectionFailed(e) => {
                let mut s = String::from_str("connection failed: ");
                s.append(e.as_str());
                s
            },
            AuthError::HandshakeFailed(e) => {
                let mut s = String::from_str("handshake failed: ");
                s.append(e.as_str());
                s
            },
            AuthError::AuthenticationFailed(e) => {
                let mut s = String::from_str("authentication failed: ");
                s.append(e.as_str());
                s
            },
            AuthError::AuthenticationRejected => String::from_str(
                "authentication rejected by the server",
            ),
        }
    }
}

/// Everything the application needs to dial and authenticate one session.
#[derive(Debug)]
pub struct AuthPlan {
    pub host: String,
    pub port: u16,
    pub username: String,
    pub credential: Credential,
}

/// The record chooses the password method.
pub open spec fn password_method(method: Seq<char>) -> bool {
    method == "password"@
}

/// The record chooses the key method.
pub open spec fn key_method(method: Seq<char>) -> bool {
    method == "key"@
}

/// The record carries the credential its method requires.
pub open spec fn auth_config_ok(server: Server) -> bool {
    if password_method(server.auth_method@) {
        server.password matches Some(p) && p@.len() > 0
    } else if key_method(server.auth_method@) {
        server.ssh_key_path is Some
    } else {
        false
    }
}

/// The configuration error a record is refused with.
pub open spec fn auth_config_error(server: Server) -> AuthError {
    if password_method(server.auth_method@) {
        AuthError::MissingPassword
    } else if key_method(server.auth_method@) {
        AuthError::MissingKeyPath
    } else {
        AuthError::UnsupportedMethod
    }
}

/// Checks the record's method and credential and builds the dial plan.
/// A record whose method lacks its credential — or names an unknown
/// method — is refused here, before any network connection is attempted.
pub fn plan_authentication(server: &Server) -> (r: Result<AuthPlan, AuthError>)
    ensures
        r is Ok <==> auth_config_ok(*server),
        r matches Ok(p) ==> {
            &&& p.host == server.ip
            &&& p.port == server.ssh_port
            &&& p.username == server.ssh_user
            &&& password_method(server.auth_method@) ==> (p.credential matches
                Credential::Password(pw) && Some(pw) == server.password)
            &&& key_method(server.auth_method@) ==> (p.credential matches Credential::KeyFile(k)
                && Some(k) == server.ssh_key_path)
        },
        r matches Err(e) ==> e == auth_config_error(*server),
{
    proof {
        reveal_strlit("password");
        reveal_strlit("key");
        assert("password"@.len() != "key"@.len());
    }
    let is_password = server.auth_method.eq(&String::from_str("password"));
    let is_key = server.auth_method.eq(&String::from_str("key"));
    if is_password {
        match &server.password {
            Some(p) => {
                if p.as_str().is_empty() {
                    Err(AuthError::MissingPassword)
                } else {
                    Ok(
                        AuthPlan {
                            host: server.ip.clone(),
                            port: server.ssh_port,
                            username: server.ssh_user.clone(),
                            credential: Credential::Password(p.clone()),
                        },
                    )
                }
            },
            None => Err(AuthError::MissingPassword),
        }
    } else if is_key {
        match &server.ssh_key_path {
            Some(k) => Ok(
                AuthPlan {
                    host: server.ip.clone(),
                    port: server.ssh_port,
                    username: server.ssh_user.clone(),
                    credential: Credential::KeyFile(k.clone()),
                },
            ),
            None => Err(AuthError::MissingKeyPath),
        }
    } else {
        Err(AuthError::UnsupportedMethod)
    }
}

/// What the application's dial-handshake-authenticate sequence reported.
#[derive(Debug)]
pub enum TransportEvent {
    /// The connection could not be opened.
    ConnectFailed(String),
    /// The connection opened but the protocol handshake failed.
    HandshakeFailed(String),
    /// The handshake succeeded but the credential was answered with an
    /// error.
    AuthFailed(String),
    /// The sequence ran without a transport error; `authenticated` is the
    /// state the transport reports afterwards, and `transport` the handle
    /// the application holds for the connection.
    Established { authenticated: bool, transport: u64 },
}

/// Turns the transport's report into a session or an error, keeping the
/// connection, handshake and authentication outcomes apart.  A transport
/// that ran without error but does not report an authenticated state is
/// refused as rejected — the silent-failure case.
pub fn complete_authentication(id: String, event: TransportEvent) -> (r: Result<
    Session,
    AuthError,
>)
    ensures
        event matches TransportEvent::ConnectFailed(e) ==> r == Err::<Session, AuthError>(
            AuthError::ConnectionFailed(e),
        ),
        event matches TransportEvent::HandshakeFailed(e) ==> r == Err::<Session, AuthError>(
            AuthError::HandshakeFailed(e),
        ),
        event matches TransportEvent::AuthFailed(e) ==> r == Err::<Session, AuthError>(
            AuthError::AuthenticationFailed(e),
        ),
        event matches TransportEvent::Established { authenticated: false, .. } ==> r == Err::<
            Session,
            AuthError,
        >(AuthError::AuthenticationRejected),
        event matches TransportEvent::Established { authenticated: true, transport } ==> (
        r matches Ok(s) && s.id == id && s.transport == transport && s.shell is None),
{
    match event {
        TransportEvent::ConnectFailed(e) => Err(AuthError::ConnectionFailed(e)),
        TransportEvent::HandshakeFailed(e) => Err(AuthError::HandshakeFailed(e)),
        TransportEvent::AuthFailed(e) => Err(AuthError::AuthenticationFailed(e)),
        TransportEvent::Established { authenticated, transport } => {
            if authenticated {
                Ok(Session { id, transport, shell: None })
            } else {
                Err(AuthError::AuthenticationRejected)
            }
        },
    }
}

/// The cheap, human-traceable session identifier: host and timestamp,
/// joined with a dash.  Uniqueness is best-effort; the registry replaces
/// on collision.
pub fn session_id(host: &str, timestamp: &str) -> (r: String)
    ensures
        r@ == host@ + "-"@ + timestamp@,
{
    let mut s = String::from_str(host);
    s.append("-");
    s.append(timestamp);
    proof {
        assert(s@ =~= host@ + "-"@ + timestamp@);
    }
    s
}

} // verus!
