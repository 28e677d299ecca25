//! What a stream asks of its transport, and what comes back.

use vstd::prelude::*;

verus! {

/// The two kinds of transport under a stream.
#[derive(Debug)]
pub enum Transport<M, C> {
    /// A completion-based transport of the runtime.
    Compio(M),
    /// A poll-based transport that is compatible with the futures IO traits.
    Compat(C),
}

/// One request to make of one transport.
#[derive(Debug)]
pub struct Action<T, Q> {
    /// The transport to poll.
    pub transport: T,
    /// What to ask of it.
    pub request: Q,
}

/// A request to read, together with where the bytes go.
#[derive(Debug)]
pub enum ReadRequest<B, V> {
    /// Read into one buffer.
    Contiguous(B),
    /// Read into several buffers.
    Vectored(V),
}

/// A request to write, together with where the bytes are.
#[derive(Debug)]
pub enum WriteRequest<B, V> {
    /// Write from one buffer.
    Contiguous(B),
    /// Write from several buffers.
    Vectored(V),
}

/// A request that moves no bytes of the caller.
#[derive(Debug, Clone, Copy, PartialEq, Eq, Structural)]
pub enum ControlRequest {
    /// Flush what has been written.
    Flush,
    /// Close the writing side.
    Close,
}

/// The answer to a request.
#[derive(Debug, PartialEq, Eq)]
pub enum Poll<T> {
    /// The request is done.
    Ready(T),
    /// The request has to be made again later.
    Pending,
}

/// The kinds of the errors that a stream raises itself.
#[derive(Debug, Clone, Copy, PartialEq, Eq, Structural)]
pub enum ErrorKind {
    /// A transport handed back data that cannot be right.
    InvalidData,
}

/// The error of a stream.
#[derive(Debug, PartialEq, Eq)]
pub enum StreamError<E> {
    /// An error of the transport, as it came.
    Transport(E),
    /// An error that the stream raises itself.
    Raised {
        /// Its kind.
        kind: ErrorKind,
        /// Its text.
        message: &'static str,
    },
}

} // verus!
