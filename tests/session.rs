use tokio_postgres::error::{DbError, Error};
use tokio_postgres::handshake::{negotiate_tls, TlsStep};
use tokio_postgres::message::{BackendMessage, FrontendMessage};
use tokio_postgres::request::Response;
use tokio_postgres::{connect, Client, ConnectParams, HandshakeStep, TlsMode, TransactionOutcome};

fn params(password: Option<&str>) -> ConnectParams {
    ConnectParams {
        user: "alice".to_string(),
        password: password.map(|p| p.to_string()),
        database: Some("db".to_string()),
    }
}

#[test]
fn prefer_falls_back_to_plaintext() {
    let mut h = connect(params(None), TlsMode::Prefer);
    assert!(matches!(h.security_request(), Some(FrontendMessage::SslRequest)));
    assert_eq!(h.on_tls_response(false).unwrap(), TlsStep::Plaintext);
    let startup = h.startup();
    assert!(matches!(&startup, FrontendMessage::Startup { user, database: Some(d) } if user == "alice" && d == "db"));
    assert!(matches!(h.handle(BackendMessage::AuthenticationOk), HandshakeStep::Wait));
    assert!(matches!(h.handle(BackendMessage::BackendKeyData { process_id: 5, secret_key: 6 }), HandshakeStep::Wait));
    assert!(matches!(
        h.handle(BackendMessage::ParameterStatus { name: "server_version".to_string(), value: "10.4".to_string() }),
        HandshakeStep::Wait
    ));
    match h.handle(BackendMessage::ReadyForQuery) {
        HandshakeStep::Ready(c) => {
            assert_eq!(c.parameter("server_version"), Some("10.4"));
            assert_eq!(c.cancel_data().process_id, 5);
            assert_eq!(c.cancel_data().secret_key, 6);
        }
        _ => panic!("handshake did not finish"),
    }
}

#[test]
fn tls_negotiation_outcomes() {
    assert!(matches!(negotiate_tls(TlsMode::Require, false), Err(Error::TlsUnavailable)));
    assert_eq!(negotiate_tls(TlsMode::Require, true).unwrap(), TlsStep::Upgrade);
    assert_eq!(negotiate_tls(TlsMode::Prefer, true).unwrap(), TlsStep::Upgrade);
    let h = connect(params(None), TlsMode::Disable);
    assert!(h.security_request().is_none());
    let mut h = connect(params(None), TlsMode::Require);
    assert!(matches!(h.on_tls_response(false), Err(Error::TlsUnavailable)));
}

#[test]
fn md5_challenge_is_answered_with_salted_hash() {
    let mut h = connect(params(Some("secret")), TlsMode::Disable);
    h.startup();
    match h.handle(BackendMessage::AuthenticationMd5Password { salt: [1, 2, 3, 4] }) {
        HandshakeStep::Send(FrontendMessage::Password { password }) => {
            assert_eq!(password, "md598a0412b9c31436fc53776e863350083");
        }
        _ => panic!("no password sent"),
    }
}

#[test]
fn cleartext_challenge_sends_password() {
    let mut h = connect(params(Some("secret")), TlsMode::Disable);
    h.startup();
    assert!(matches!(
        h.handle(BackendMessage::AuthenticationCleartextPassword),
        HandshakeStep::Send(FrontendMessage::Password { password }) if password == "secret"
    ));
}

#[test]
fn handshake_failures_are_distinguished() {
    let mut h = connect(params(None), TlsMode::Disable);
    h.startup();
    assert!(matches!(h.handle(BackendMessage::AuthenticationCleartextPassword), HandshakeStep::Failed(Error::MissingPassword)));
    let mut h = connect(params(None), TlsMode::Disable);
    h.startup();
    assert!(matches!(h.handle(BackendMessage::AuthenticationOther), HandshakeStep::Failed(Error::UnsupportedAuthentication)));
    let mut h = connect(params(Some("x")), TlsMode::Disable);
    h.startup();
    let e = DbError { severity: "FATAL".to_string(), code: "28P01".to_string(), message: "bad password".to_string() };
    assert!(matches!(h.handle(BackendMessage::ErrorResponse(e)), HandshakeStep::Failed(Error::Db(d)) if d.code == "28P01"));
    let mut h = connect(params(None), TlsMode::Disable);
    h.startup();
    assert!(matches!(h.handle(BackendMessage::ReadyForQuery), HandshakeStep::Failed(Error::UnexpectedMessage)));
    let mut h = connect(params(None), TlsMode::Disable);
    h.startup();
    h.handle(BackendMessage::AuthenticationOk);
    assert!(matches!(h.handle(BackendMessage::ReadyForQuery), HandshakeStep::Failed(Error::UnexpectedMessage)));
}

#[test]
fn transaction_commits_on_success() {
    let mut client = Client::new();
    let mut t = client.transaction::<u32, String>();
    assert_eq!(t.begin().query, "BEGIN");
    assert!(t.on_begin(Ok(Response::Done)).is_none());
    assert_eq!(t.on_work(Ok(7)).query, "COMMIT");
    assert!(matches!(t.on_finish(Ok(Response::Done)), TransactionOutcome::Committed(7)));
}

#[test]
fn transaction_rolls_back_with_the_work_error() {
    let mut client = Client::new();
    let mut t = client.transaction::<u32, String>();
    t.on_begin(Ok(Response::Done));
    assert_eq!(t.on_work(Err("work failed".to_string())).query, "ROLLBACK");
    assert!(matches!(t.on_finish(Err(Error::Disconnected)), TransactionOutcome::WorkFailed(e) if e == "work failed"));
    let mut t = client.transaction::<u32, String>();
    t.on_begin(Ok(Response::Done));
    t.on_work(Err("again".to_string()));
    assert!(matches!(t.on_finish(Ok(Response::Done)), TransactionOutcome::WorkFailed(e) if e == "again"));
}

#[test]
fn transaction_bracket_failures_abort() {
    let mut client = Client::new();
    let mut t = client.transaction::<u32, String>();
    assert!(matches!(t.on_begin(Err(Error::Disconnected)), Some(TransactionOutcome::Failed(Error::Disconnected))));
    let mut t = client.transaction::<u32, String>();
    t.on_begin(Ok(Response::Done));
    t.on_work(Ok(1));
    assert!(matches!(t.on_finish(Err(Error::Closed)), TransactionOutcome::Failed(Error::Closed)));
}
