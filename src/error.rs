//! Errors that the engine reports to the owner of a request.
use vstd::prelude::*;

verus! {

/// Diagnostic fields of an error or notice that the server sent.
#[derive(Debug)]
pub struct DbError {
    pub severity: String,
    pub code: String,
    pub message: String,
}

/// What went wrong with a request or with the connection.
#[derive(Debug)]
pub enum Error {
    /// The transport failed or the server closed it.
    Disconnected,
    /// A message arrived that the protocol does not allow at this point.
    UnexpectedMessage,
    /// The connection has already failed; it takes no new requests.
    Closed,
    /// The server reported an error for this request.
    Db(DbError),
    /// Transport security was required and the server refused it.
    TlsUnavailable,
    /// The server asked for a password and none was given.
    MissingPassword,
    /// The server asked for an authentication method that is not supported.
    UnsupportedAuthentication,
    /// A column index outside the row.
    ColumnIndex,
    /// The requested type does not match the column's type.
    WrongType,
    /// The bytes of a value are not a valid encoding of its type.
    InvalidValue,
}

} // verus!
