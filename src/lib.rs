//! Client-side engine of a PostgreSQL wire-protocol driver, written without I/O:
//! callers hand it decoded server messages and it tells them what to send and
//! which pending request each message resolves.
pub mod client;
pub mod connection;
pub mod error;
pub mod handshake;
pub mod message;
pub mod naming;
pub mod request;
pub mod tag;
pub mod transaction;
pub mod value;

pub use client::{Client, Row, Statement};
pub use connection::{AsyncMessage, BatchExecute, Connection, CopyOut, Event, Execute, Prepare, Query, Request};
pub use error::{DbError, Error};
pub use handshake::{cancel_query, connect, CancelQuery, ConnectParams, Handshake, HandshakeStep, TlsMode};
pub use message::{BackendMessage, CancelData, Column, FrontendMessage, Notification};
pub use naming::next_statement;
pub use transaction::{Transaction, TransactionOutcome};
