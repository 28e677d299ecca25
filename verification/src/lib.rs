//! The logic of a byte stream that hyper drives over either of two kinds of transport.
//!
//! A [`HyperStream`] owns a completion-based transport of the runtime, plain or TLS-encrypted, or
//! a poll-based transport that is compatible with the futures IO traits. The crate performs no IO.
//! Each poll method returns an [`Action`]: the transport to poll, lent out for as long as the poll
//! takes, and the request to make of it. [`complete_read`] turns the transport's answer to a read
//! into a hyper cursor into that of the stream, and moves the cursor; [`complete_poll`] does so for
//! every other request.

pub mod action;
pub mod answer;
pub mod cursor;
pub mod stream;

pub use crate::action::{
    Action, ControlRequest, ErrorKind, Poll, ReadRequest, StreamError, Transport, WriteRequest,
};
pub use crate::answer::{complete_poll, complete_read};
pub use crate::stream::HyperStream;
