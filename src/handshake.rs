//! The startup handshake: transport-security negotiation, startup,
//! authentication, then session parameters until the server is ready.
use vstd::prelude::*;
use crate::connection::Connection;
use crate::error::Error;
use crate::message::{BackendMessage, CancelData, FrontendMessage};

verus! {

/// Whether to ask the server for transport security.
#[derive(Clone, Copy, PartialEq, Eq, Structural, Debug)]
pub enum TlsMode {
    /// Never ask.
    Disable,
    /// Ask, and go on in plain text if the server refuses.
    Prefer,
    /// Ask, and fail if the server refuses.
    Require,
}

/// How the stream goes on after the server answered a security request.
#[derive(Clone, Copy, PartialEq, Eq, Structural, Debug)]
pub enum TlsStep {
    /// Continue unencrypted.
    Plaintext,
    /// Upgrade the stream before the startup message.
    Upgrade,
}

/// What the handshake needs to know of the session it opens.
pub struct ConnectParams {
    pub user: String,
    pub password: Option<String>,
    pub database: Option<String>,
}

/// Where a handshake stands.
#[derive(Clone, Copy, PartialEq, Eq, Structural, Debug)]
pub enum HandshakePhase {
    /// Waiting for the server's answer to the security request.
    NegotiatingTls,
    /// The startup message is next.
    Startup,
    /// Answering authentication requests.
    Authenticating,
    /// Collecting parameters and the cancellation key until ready.
    Authenticated,
    /// Over, ready or failed.
    Done,
}

/// What the handshake asks of its driver after a server message.
pub enum HandshakeStep {
    Send(FrontendMessage),
    Wait,
    Ready(Connection),
    Failed(Error),
}

/// The server's answer to a security request, under `mode`: an acceptance
/// upgrades the stream; a refusal goes on in plain text under `Prefer` and
/// fails under `Require`.
pub fn negotiate_tls(mode: TlsMode, accepted: bool) -> (r: Result<TlsStep, Error>)
    ensures
        accepted ==> r == Ok::<TlsStep, Error>(TlsStep::Upgrade),
        !accepted && mode != TlsMode::Require ==> r == Ok::<TlsStep, Error>(TlsStep::Plaintext),
        !accepted && mode == TlsMode::Require ==> r matches Err(Error::TlsUnavailable),
{
    if accepted {
        Ok(TlsStep::Upgrade)
    } else if mode == TlsMode::Require {
        Err(Error::TlsUnavailable)
    } else {
        Ok(TlsStep::Plaintext)
    }
}

/// The salted MD5 password response for a user, password and salt.
pub uninterp spec fn md5_password(user: Seq<char>, password: Seq<char>, salt: Seq<u8>) -> Seq<char>;

/// Relies on postgres_protocol::authentication::md5_hash, whose result
/// depends on the user name, the password and the salt alone.
#[verifier::external_body]
fn md5_response(user: &str, password: &str, salt: [u8; 4]) -> (r: String)
    ensures
        r@ == md5_password(user@, password@, salt@),
{
    postgres_protocol::authentication::md5_hash(user.as_bytes(), password.as_bytes(), salt)
}

fn copy_string(s: &String) -> (r: String)
    ensures
        r@ == s@,
{
    String::from_str(s.as_str())
}

fn copy_option(s: &Option<String>) -> (r: Option<String>)
    ensures
        match (r, *s) {
            (Some(a), Some(b)) => a@ == b@,
            (None, None) => true,
            _ => false,
        },
{
    match s {
        Some(v) => Some(copy_string(v)),
        None => None,
    }
}

/// The driver of one handshake.
pub struct Handshake {
    params: ConnectParams,
    tls: TlsMode,
    phase: HandshakePhase,
    parameters: Vec<(String, String)>,
    cancel_data: Option<CancelData>,
}

/// Starts a handshake: with security asked for, the driver sends a security
/// request first; without, the startup message.
pub fn connect(params: ConnectParams, tls: TlsMode) -> (r: Handshake)
    ensures
        r.phase() == if tls == TlsMode::Disable { HandshakePhase::Startup } else { HandshakePhase::NegotiatingTls },
        r.tls_mode() == tls,
        r.user_view() == params.user@,
        r.password_view() == params.password,
        r.parameters_view().len() == 0,
        r.cancel_view() is None,
{
    let phase = if tls == TlsMode::Disable { HandshakePhase::Startup } else { HandshakePhase::NegotiatingTls };
    Handshake { params, tls, phase, parameters: Vec::new(), cancel_data: None }
}

impl Handshake {
    pub closed spec fn phase(&self) -> HandshakePhase {
        self.phase
    }

    pub closed spec fn tls_mode(&self) -> TlsMode {
        self.tls
    }

    pub closed spec fn user_view(&self) -> Seq<char> {
        self.params.user@
    }

    pub closed spec fn password_view(&self) -> Option<String> {
        self.params.password
    }

    pub closed spec fn database_view(&self) -> Option<String> {
        self.params.database
    }

    pub closed spec fn parameters_view(&self) -> Seq<(String, String)> {
        self.parameters@
    }

    pub closed spec fn cancel_view(&self) -> Option<CancelData> {
        self.cancel_data
    }

    /// The first message to send: a security request, or the startup message
    /// where none is asked for.
    pub fn security_request(&self) -> (r: Option<FrontendMessage>)
        ensures
            self.phase() == HandshakePhase::NegotiatingTls ==> r == Some(FrontendMessage::SslRequest),
            self.phase() != HandshakePhase::NegotiatingTls ==> r is None,
    {
        if self.phase == HandshakePhase::NegotiatingTls {
            Some(FrontendMessage::SslRequest)
        } else {
            None
        }
    }

    /// The server answered the security request.
    pub fn on_tls_response(&mut self, accepted: bool) -> (r: Result<TlsStep, Error>)
        requires
            old(self).phase() == HandshakePhase::NegotiatingTls,
        ensures
            r == negotiate_tls_spec(old(self).tls_mode(), accepted),
            r is Ok ==> final(self).phase() == HandshakePhase::Startup,
            r is Err ==> final(self).phase() == HandshakePhase::Done,
            final(self).tls_mode() == old(self).tls_mode(),
            final(self).user_view() == old(self).user_view(),
            final(self).password_view() == old(self).password_view(),
            final(self).parameters_view() == old(self).parameters_view(),
            final(self).cancel_view() == old(self).cancel_view(),
    {
        let r = negotiate_tls(self.tls, accepted);
        self.phase = if r.is_ok() { HandshakePhase::Startup } else { HandshakePhase::Done };
        r
    }

    /// The startup message, with the user and database.
    pub fn startup(&mut self) -> (r: FrontendMessage)
        requires
            old(self).phase() == HandshakePhase::Startup,
        ensures
            match r {
                FrontendMessage::Startup { user, database } => user@ == old(self).user_view()
                    && match (database, old(self).database_view()) {
                        (Some(a), Some(b)) => a@ == b@,
                        (None, None) => true,
                        _ => false,
                    },
                _ => false,
            },
            final(self).phase() == HandshakePhase::Authenticating,
            final(self).tls_mode() == old(self).tls_mode(),
            final(self).user_view() == old(self).user_view(),
            final(self).password_view() == old(self).password_view(),
            final(self).parameters_view() == old(self).parameters_view(),
            final(self).cancel_view() == old(self).cancel_view(),
    {
        self.phase = HandshakePhase::Authenticating;
        FrontendMessage::Startup { user: copy_string(&self.params.user), database: copy_option(&self.params.database) }
    }

    fn answer(&mut self, response: String) -> (r: HandshakeStep)
        ensures
            r matches HandshakeStep::Send(FrontendMessage::Password { password }) && password@ == response@,
            *final(self) == *old(self),
    {
        HandshakeStep::Send(FrontendMessage::Password { password: response })
    }

    fn fail(&mut self, e: Error) -> (r: HandshakeStep)
        ensures
            r == HandshakeStep::Failed(e),
            final(self).phase() == HandshakePhase::Done,
            final(self).params == old(self).params,
            final(self).tls == old(self).tls,
            final(self).parameters == old(self).parameters,
            final(self).cancel_data == old(self).cancel_data,
    {
        self.phase = HandshakePhase::Done;
        HandshakeStep::Failed(e)
    }

    /// Takes one server message while authenticating or collecting session
    /// data. A server error fails the handshake with that error; a message
    /// that the phase does not allow fails it with a protocol error.
    pub fn handle(&mut self, msg: BackendMessage) -> (r: HandshakeStep)
        requires
            old(self).phase() == HandshakePhase::Authenticating || old(self).phase() == HandshakePhase::Authenticated,
        ensures
            final(self).user_view() == old(self).user_view(),
            final(self).password_view() == old(self).password_view(),
            final(self).tls_mode() == old(self).tls_mode(),
            r is Failed ==> final(self).phase() == HandshakePhase::Done,
            old(self).phase() == HandshakePhase::Authenticating ==> match msg {
                BackendMessage::AuthenticationCleartextPassword => match old(self).password_view() {
                    Some(p) => (r matches HandshakeStep::Send(FrontendMessage::Password { password }) && password@ == p@)
                        && final(self).phase() == HandshakePhase::Authenticating,
                    None => r matches HandshakeStep::Failed(Error::MissingPassword),
                },
                BackendMessage::AuthenticationMd5Password { salt } => match old(self).password_view() {
                    Some(p) => (r matches HandshakeStep::Send(FrontendMessage::Password { password })
                        && password@ == md5_password(old(self).user_view(), p@, salt@))
                        && final(self).phase() == HandshakePhase::Authenticating,
                    None => r matches HandshakeStep::Failed(Error::MissingPassword),
                },
                BackendMessage::AuthenticationOk => r is Wait && final(self).phase() == HandshakePhase::Authenticated
                    && final(self).parameters_view() == old(self).parameters_view()
                    && final(self).cancel_view() == old(self).cancel_view(),
                BackendMessage::AuthenticationOther => r matches HandshakeStep::Failed(Error::UnsupportedAuthentication),
                BackendMessage::ErrorResponse(e) => r == HandshakeStep::Failed(Error::Db(e)),
                _ => r matches HandshakeStep::Failed(Error::UnexpectedMessage),
            },
            old(self).phase() == HandshakePhase::Authenticated ==> match msg {
                BackendMessage::ParameterStatus { name, value } => r is Wait
                    && final(self).phase() == HandshakePhase::Authenticated
                    && final(self).parameters_view() == old(self).parameters_view().push((name, value))
                    && final(self).cancel_view() == old(self).cancel_view(),
                BackendMessage::BackendKeyData { process_id, secret_key } => r is Wait
                    && final(self).phase() == HandshakePhase::Authenticated
                    && final(self).parameters_view() == old(self).parameters_view()
                    && final(self).cancel_view() == Some(CancelData { process_id, secret_key }),
                BackendMessage::NoticeResponse(_) => r is Wait
                    && final(self).phase() == HandshakePhase::Authenticated
                    && final(self).parameters_view() == old(self).parameters_view()
                    && final(self).cancel_view() == old(self).cancel_view(),
                BackendMessage::ReadyForQuery => match old(self).cancel_view() {
                    Some(c) => r matches HandshakeStep::Ready(conn) && conn.wf()
                        && conn.parameters_view() == old(self).parameters_view()
                        && conn.cancel_data_view() == c
                        && conn.pending_view().len() == 0
                        && conn.outbox_view().len() == 0
                        && conn.next_id_view() == 0
                        && !conn.is_closed()
                        && final(self).phase() == HandshakePhase::Done,
                    None => r matches HandshakeStep::Failed(Error::UnexpectedMessage),
                },
                BackendMessage::ErrorResponse(e) => r == HandshakeStep::Failed(Error::Db(e)),
                _ => r matches HandshakeStep::Failed(Error::UnexpectedMessage),
            },
    {
        if self.phase == HandshakePhase::Authenticating {
            match msg {
                BackendMessage::AuthenticationCleartextPassword => match &self.params.password {
                    Some(p) => {
                        let response = copy_string(p);
                        self.answer(response)
                    },
                    None => self.fail(Error::MissingPassword),
                },
                BackendMessage::AuthenticationMd5Password { salt } => match &self.params.password {
                    Some(p) => {
                        let response = md5_response(self.params.user.as_str(), p.as_str(), salt);
                        self.answer(response)
                    },
                    None => self.fail(Error::MissingPassword),
                },
                BackendMessage::AuthenticationOk => {
                    self.phase = HandshakePhase::Authenticated;
                    HandshakeStep::Wait
                },
                BackendMessage::AuthenticationOther => self.fail(Error::UnsupportedAuthentication),
                BackendMessage::ErrorResponse(e) => self.fail(Error::Db(e)),
                _ => self.fail(Error::UnexpectedMessage),
            }
        } else {
            match msg {
                BackendMessage::ParameterStatus { name, value } => {
                    self.parameters.push((name, value));
                    HandshakeStep::Wait
                },
                BackendMessage::BackendKeyData { process_id, secret_key } => {
                    self.cancel_data = Some(CancelData { process_id, secret_key });
                    HandshakeStep::Wait
                },
                BackendMessage::NoticeResponse(_) => HandshakeStep::Wait,
                BackendMessage::ReadyForQuery => match self.cancel_data {
                    Some(c) => {
                        let mut parameters: Vec<(String, String)> = Vec::new();
                        std::mem::swap(&mut parameters, &mut self.parameters);
                        self.phase = HandshakePhase::Done;
                        HandshakeStep::Ready(Connection::new(parameters, c))
                    },
                    None => self.fail(Error::UnexpectedMessage),
                },
                BackendMessage::ErrorResponse(e) => self.fail(Error::Db(e)),
                _ => self.fail(Error::UnexpectedMessage),
            }
        }
    }
}

/// What `negotiate_tls` returns.
pub open spec fn negotiate_tls_spec(mode: TlsMode, accepted: bool) -> Result<TlsStep, Error> {
    if accepted {
        Ok(TlsStep::Upgrade)
    } else if mode == TlsMode::Require {
        Err(Error::TlsUnavailable)
    } else {
        Ok(TlsStep::Plaintext)
    }
}

/// A cancellation: sent over a new connection of its own, after the same
/// security negotiation as a handshake, and never answered.
pub struct CancelQuery {
    pub tls: TlsMode,
    pub message: FrontendMessage,
}

impl CancelQuery {
    /// The security request to send first, where the mode asks for one.
    pub fn security_request(&self) -> (r: Option<FrontendMessage>)
        ensures
            self.tls != TlsMode::Disable ==> r == Some(FrontendMessage::SslRequest),
            self.tls == TlsMode::Disable ==> r is None,
    {
        if self.tls != TlsMode::Disable {
            Some(FrontendMessage::SslRequest)
        } else {
            None
        }
    }
}

/// The cancellation of the request that the session with `cancel_data` runs.
pub fn cancel_query(tls: TlsMode, cancel_data: CancelData) -> (r: CancelQuery)
    ensures
        r.tls == tls,
        r.message == (FrontendMessage::CancelRequest {
            process_id: cancel_data.process_id,
            secret_key: cancel_data.secret_key,
        }),
{
    CancelQuery {
        tls,
        message: FrontendMessage::CancelRequest { process_id: cancel_data.process_id, secret_key: cancel_data.secret_key },
    }
}

} // verus!
