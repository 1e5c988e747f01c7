//! Protocol messages in decoded form, as the codec hands them over.
use vstd::prelude::*;
use crate::error::DbError;

verus! {

/// A result column: its name and the type's object id.
#[derive(Debug)]
pub struct Column {
    pub name: String,
    pub type_oid: u32,
}

/// An asynchronous notification raised by `NOTIFY`.
#[derive(Debug)]
pub struct Notification {
    pub process_id: i32,
    pub channel: String,
    pub payload: String,
}

/// The key that a later cancellation request must carry.
#[derive(Clone, Copy, PartialEq, Eq, Structural, Debug)]
pub struct CancelData {
    pub process_id: i32,
    pub secret_key: i32,
}

/// A message from the server.
#[derive(Debug)]
pub enum BackendMessage {
    AuthenticationOk,
    AuthenticationCleartextPassword,
    AuthenticationMd5Password { salt: [u8; 4] },
    /// Any other authentication request (SASL, GSS, ...).
    AuthenticationOther,
    ParameterStatus { name: String, value: String },
    BackendKeyData { process_id: i32, secret_key: i32 },
    ReadyForQuery,
    ParseComplete,
    BindComplete,
    ParameterDescription { types: Vec<u32> },
    RowDescription { columns: Vec<Column> },
    NoData,
    DataRow { values: Vec<Option<Vec<u8>>> },
    CommandComplete { tag: String },
    EmptyQueryResponse,
    ErrorResponse(DbError),
    NoticeResponse(DbError),
    NotificationResponse(Notification),
    CopyOutResponse,
    CopyData { data: Vec<u8> },
    CopyDone,
}

/// A message to the server.
#[derive(Debug)]
pub enum FrontendMessage {
    SslRequest,
    Startup { user: String, database: Option<String> },
    Password { password: String },
    Parse { name: String, query: String, param_types: Vec<u32> },
    DescribeStatement { name: String },
    Bind { statement: String, params: Vec<Option<Vec<u8>>> },
    Execute,
    Sync,
    Query { query: String },
    CancelRequest { process_id: i32, secret_key: i32 },
    Terminate,
}

} // verus!
