//! The stream itself.

use hyper::rt::ReadBufCursor;
use vstd::prelude::*;

use crate::action::{Action, ControlRequest, ReadRequest, Transport, WriteRequest};
#[allow(unused_imports)]
use crate::action::{Poll, StreamError};
#[allow(unused_imports)]
use crate::answer::complete_read;

verus! {

/// A transport of the runtime.
struct CompioStream<M> {
    io: M,
    is_tls: bool,
}

/// A futures-compatible transport.
struct CompatStream<C> {
    io: C,
    is_write_vectored: bool,
}

enum HyperStreamInner<M, C> {
    Compio(Box<CompioStream<M>>),
    Compat(CompatStream<C>),
}

/// A stream for hyper, over a transport `M` of the runtime or a futures-compatible transport `C`.
pub struct HyperStream<M, C> {
    inner: HyperStreamInner<M, C>,
}

/// What a stream is, as far as its callers can tell.
pub struct StreamView<M, C> {
    /// The transport, in its present state.
    pub transport: Transport<M, C>,
    /// Whether the transport encrypts.
    pub tls: bool,
    /// Whether the transport writes several buffers at once efficiently.
    pub write_vectored: bool,
}

impl<M, C> StreamView<M, C> {
    /// This stream, with its transport in another state.
    pub open spec fn with_transport(self, transport: Transport<M, C>) -> StreamView<M, C> {
        StreamView { transport, tls: self.tls, write_vectored: self.write_vectored }
    }

    /// What holds of every stream: a futures-compatible transport does not encrypt, and a transport
    /// of the runtime writes several buffers at once efficiently.
    pub open spec fn well_formed(self) -> bool {
        match self.transport {
            Transport::Compio(_) => self.write_vectored,
            Transport::Compat(_) => !self.tls,
        }
    }
}

impl<M, C> View for HyperStream<M, C> {
    type V = StreamView<M, C>;

    closed spec fn view(&self) -> StreamView<M, C> {
        match self.inner {
            HyperStreamInner::Compio(stream) => StreamView {
                transport: Transport::Compio(stream.io),
                tls: stream.is_tls,
                write_vectored: true,
            },
            HyperStreamInner::Compat(stream) => StreamView {
                transport: Transport::Compat(stream.io),
                tls: false,
                write_vectored: stream.is_write_vectored,
            },
        }
    }
}

/// A stream was `before` when it lent out its transport in the state `lent`, and is `after` once
/// the borrower has given it back in the state `returned`: the borrower got the very transport, and
/// nothing but the state of the transport has changed.
pub open spec fn lends<M, C>(
    before: StreamView<M, C>,
    lent: Transport<M, C>,
    returned: Transport<M, C>,
    after: StreamView<M, C>,
) -> bool {
    &&& lent == before.transport
    &&& (returned is Compat) == (lent is Compat)
    &&& after == before.with_transport(returned)
}

impl<M, C> HyperStream<M, C> {
    /// Creates a stream over a transport of the runtime that does not encrypt.
    pub fn new_plain(io: M) -> (stream: Self)
        ensures
            stream@ == (StreamView::<M, C> {
                transport: Transport::Compio(io),
                tls: false,
                write_vectored: true,
            }),
    {
        HyperStream {
            inner: HyperStreamInner::Compio(Box::new(CompioStream { io, is_tls: false })),
        }
    }

    /// Creates a stream over a futures-compatible transport that does not encrypt.
    ///
    /// `is_write_vectored` must report whether the transport writes several buffers at once
    /// efficiently.
    pub fn new_plain_compat(io: C, is_write_vectored: bool) -> (stream: Self)
        ensures
            stream@ == (StreamView::<M, C> {
                transport: Transport::Compat(io),
                tls: false,
                write_vectored: is_write_vectored,
            }),
    {
        HyperStream { inner: HyperStreamInner::Compat(CompatStream { io, is_write_vectored }) }
    }

    /// Creates a stream over a transport of the runtime that encrypts.
    pub fn new_tls(io: M) -> (stream: Self)
        ensures
            stream@ == (StreamView::<M, C> {
                transport: Transport::Compio(io),
                tls: true,
                write_vectored: true,
            }),
    {
        HyperStream {
            inner: HyperStreamInner::Compio(Box::new(CompioStream { io, is_tls: true })),
        }
    }

    /// Whether the stream is TLS-encrypted.
    pub fn is_tls(&self) -> (answer: bool)
        ensures
            answer == self@.tls,
    {
        match &self.inner {
            HyperStreamInner::Compio(stream) => stream.is_tls,
            HyperStreamInner::Compat(_) => false,
        }
    }

    /// Whether the stream's transport is a futures-compatible one.
    pub fn uses_compat_io(&self) -> (answer: bool)
        ensures
            answer == (self@.transport is Compat),
    {
        matches!(self.inner, HyperStreamInner::Compat(_))
    }

    /// Whether the stream writes several buffers at once efficiently.
    pub fn is_write_vectored(&self) -> (answer: bool)
        ensures
            answer == self@.write_vectored,
    {
        match &self.inner {
            HyperStreamInner::Compio(_) => true,
            HyperStreamInner::Compat(stream) => stream.is_write_vectored,
        }
    }

    /// Returns the negotiated ALPN protocol.
    ///
    /// `session_alpn` asks a TLS transport for the protocol of its session. It is called only
    /// where the stream is TLS-encrypted: without a handshake nothing was negotiated.
    pub fn negotiated_alpn<'a, A, F: FnOnce(&'a M) -> Option<A>>(
        &'a self,
        session_alpn: F,
    ) -> (protocol: Option<A>)
        requires
            self@ matches StreamView { transport: Transport::Compio(io), tls: true, .. }
                ==> call_requires(session_alpn, (&io,)),
        ensures
            match self@ {
                StreamView { transport: Transport::Compio(io), tls: true, .. } => call_ensures(
                    session_alpn,
                    (&io,),
                    protocol,
                ),
                _ => protocol is None,
            },
    {
        match &self.inner {
            HyperStreamInner::Compio(stream) => if stream.is_tls {
                session_alpn(&stream.io)
            } else {
                None
            },
            HyperStreamInner::Compat(_) => None,
        }
    }

    /// Lends out the transport.
    fn transport_mut(&mut self) -> (transport: Transport<&mut M, &mut C>)
        ensures
            match transport {
                Transport::Compio(io) => lends(
                    old(self)@,
                    Transport::Compio(*io),
                    Transport::Compio(*final(io)),
                    final(self)@,
                ),
                Transport::Compat(io) => lends(
                    old(self)@,
                    Transport::Compat(*io),
                    Transport::Compat(*final(io)),
                    final(self)@,
                ),
            },
    {
        match &mut self.inner {
            HyperStreamInner::Compio(stream) => Transport::Compio(&mut stream.io),
            HyperStreamInner::Compat(stream) => Transport::Compat(&mut stream.io),
        }
    }

    /// Starts a read into the unfilled part of a hyper cursor's buffer, which
    /// [`complete_read`](crate::complete_read) ends.
    pub fn poll_read_cursor<'a, V>(
        &'a mut self,
        cursor: &'a mut ReadBufCursor<'_>,
    ) -> (action: Action<Transport<&'a mut M, &'a mut C>, ReadRequest<&'a mut [u8], V>>)
        ensures
            match action.transport {
                Transport::Compio(io) => lends(
                    old(self)@,
                    Transport::Compio(*io),
                    Transport::Compio(*final(io)),
                    final(self)@,
                ),
                Transport::Compat(io) => lends(
                    old(self)@,
                    Transport::Compat(*io),
                    Transport::Compat(*final(io)),
                    final(self)@,
                ),
            },
            action.request matches ReadRequest::Contiguous(buf) && {
                &&& buf@ == crate::cursor::contents(*old(cursor)).unfilled
                &&& final(buf)@.len() == buf@.len()
                &&& crate::cursor::contents(*final(cursor)) == crate::cursor::contents(
                    *old(cursor),
                ).overwrite(final(buf)@)
                &&& buf@ == crate::cursor::unfilled(*old(cursor))
                &&& crate::cursor::filled(*final(cursor)) == crate::cursor::filled(*old(cursor))
                &&& crate::cursor::unfilled(*final(cursor)) == final(buf)@
            },
    {
        let buf = cursor.initialize_unfilled();
        Action { transport: self.transport_mut(), request: ReadRequest::Contiguous(buf) }
    }

    /// Reads into one buffer.
    pub fn poll_read<'a, B, V>(&'a mut self, buf: B) -> (action: Action<
        Transport<&'a mut M, &'a mut C>,
        ReadRequest<B, V>,
    >)
        ensures
            match action.transport {
                Transport::Compio(io) => lends(
                    old(self)@,
                    Transport::Compio(*io),
                    Transport::Compio(*final(io)),
                    final(self)@,
                ),
                Transport::Compat(io) => lends(
                    old(self)@,
                    Transport::Compat(*io),
                    Transport::Compat(*final(io)),
                    final(self)@,
                ),
            },
            action.request == ReadRequest::<B, V>::Contiguous(buf),
    {
        Action { transport: self.transport_mut(), request: ReadRequest::Contiguous(buf) }
    }

    /// Reads into several buffers.
    pub fn poll_read_vectored<'a, B, V>(&'a mut self, bufs: V) -> (action: Action<
        Transport<&'a mut M, &'a mut C>,
        ReadRequest<B, V>,
    >)
        ensures
            match action.transport {
                Transport::Compio(io) => lends(
                    old(self)@,
                    Transport::Compio(*io),
                    Transport::Compio(*final(io)),
                    final(self)@,
                ),
                Transport::Compat(io) => lends(
                    old(self)@,
                    Transport::Compat(*io),
                    Transport::Compat(*final(io)),
                    final(self)@,
                ),
            },
            action.request == ReadRequest::<B, V>::Vectored(bufs),
    {
        Action { transport: self.transport_mut(), request: ReadRequest::Vectored(bufs) }
    }

    /// Writes from one buffer.
    pub fn poll_write<'a, B, V>(&'a mut self, buf: B) -> (action: Action<
        Transport<&'a mut M, &'a mut C>,
        WriteRequest<B, V>,
    >)
        ensures
            match action.transport {
                Transport::Compio(io) => lends(
                    old(self)@,
                    Transport::Compio(*io),
                    Transport::Compio(*final(io)),
                    final(self)@,
                ),
                Transport::Compat(io) => lends(
                    old(self)@,
                    Transport::Compat(*io),
                    Transport::Compat(*final(io)),
                    final(self)@,
                ),
            },
            action.request == WriteRequest::<B, V>::Contiguous(buf),
    {
        Action { transport: self.transport_mut(), request: WriteRequest::Contiguous(buf) }
    }

    /// Writes from several buffers, whether or not the transport does so efficiently.
    pub fn poll_write_vectored<'a, B, V>(&'a mut self, bufs: V) -> (action: Action<
        Transport<&'a mut M, &'a mut C>,
        WriteRequest<B, V>,
    >)
        ensures
            match action.transport {
                Transport::Compio(io) => lends(
                    old(self)@,
                    Transport::Compio(*io),
                    Transport::Compio(*final(io)),
                    final(self)@,
                ),
                Transport::Compat(io) => lends(
                    old(self)@,
                    Transport::Compat(*io),
                    Transport::Compat(*final(io)),
                    final(self)@,
                ),
            },
            action.request == WriteRequest::<B, V>::Vectored(bufs),
    {
        Action { transport: self.transport_mut(), request: WriteRequest::Vectored(bufs) }
    }

    /// Flushes what has been written.
    pub fn poll_flush(&mut self) -> (action: Action<
        Transport<&mut M, &mut C>,
        ControlRequest,
    >)
        ensures
            match action.transport {
                Transport::Compio(io) => lends(
                    old(self)@,
                    Transport::Compio(*io),
                    Transport::Compio(*final(io)),
                    final(self)@,
                ),
                Transport::Compat(io) => lends(
                    old(self)@,
                    Transport::Compat(*io),
                    Transport::Compat(*final(io)),
                    final(self)@,
                ),
            },
            action.request == ControlRequest::Flush,
    {
        Action { transport: self.transport_mut(), request: ControlRequest::Flush }
    }

    /// Closes the stream.
    pub fn poll_close(&mut self) -> (action: Action<
        Transport<&mut M, &mut C>,
        ControlRequest,
    >)
        ensures
            match action.transport {
                Transport::Compio(io) => lends(
                    old(self)@,
                    Transport::Compio(*io),
                    Transport::Compio(*final(io)),
                    final(self)@,
                ),
                Transport::Compat(io) => lends(
                    old(self)@,
                    Transport::Compat(*io),
                    Transport::Compat(*final(io)),
                    final(self)@,
                ),
            },
            action.request == ControlRequest::Close,
    {
        Action { transport: self.transport_mut(), request: ControlRequest::Close }
    }

    /// Shuts the stream down, which closes it.
    pub fn poll_shutdown(&mut self) -> (action: Action<
        Transport<&mut M, &mut C>,
        ControlRequest,
    >)
        ensures
            match action.transport {
                Transport::Compio(io) => lends(
                    old(self)@,
                    Transport::Compio(*io),
                    Transport::Compio(*final(io)),
                    final(self)@,
                ),
                Transport::Compat(io) => lends(
                    old(self)@,
                    Transport::Compat(*io),
                    Transport::Compat(*final(io)),
                    final(self)@,
                ),
            },
            action.request == ControlRequest::Close,
    {
        self.poll_close()
    }
}

/// Every stream is well-formed: one that is TLS-encrypted never uses a futures-compatible
/// transport, and one that uses a transport of the runtime always writes vectored.
pub proof fn stream_is_well_formed<M, C>(stream: HyperStream<M, C>)
    ensures
        stream@.well_formed(),
        stream@.tls ==> !(stream@.transport is Compat),
        !stream@.write_vectored ==> stream@.transport is Compat,
{
}

/// Whatever a borrower does with the transport, the stream answers as before whether it is
/// encrypted, which kind of transport it uses, and whether it writes vectored; and it stays
/// well-formed.
pub proof fn polling_keeps_the_kind<M, C>(
    before: StreamView<M, C>,
    lent: Transport<M, C>,
    returned: Transport<M, C>,
    after: StreamView<M, C>,
)
    requires
        lends(before, lent, returned, after),
    ensures
        after.tls == before.tls,
        after.write_vectored == before.write_vectored,
        (after.transport is Compat) == (before.transport is Compat),
        before.well_formed() ==> after.well_formed(),
{
}

/// Two polls in a row get the same transport: the second finds it as the first left it.
pub proof fn polls_share_the_transport<M, C>(
    start: StreamView<M, C>,
    lent_first: Transport<M, C>,
    returned_first: Transport<M, C>,
    between: StreamView<M, C>,
    lent_second: Transport<M, C>,
    returned_second: Transport<M, C>,
    end: StreamView<M, C>,
)
    requires
        lends(start, lent_first, returned_first, between),
        lends(between, lent_second, returned_second, end),
    ensures
        lent_second == returned_first,
        lends(start, lent_first, returned_second, end),
{
}

/// A borrower gets the transport that the stream holds, and the stream then holds what the borrower
/// gives back.
pub proof fn the_transport_is_lent_and_returned<M, C>(
    before: StreamView<M, C>,
    lent: Transport<M, C>,
    returned: Transport<M, C>,
    after: StreamView<M, C>,
)
    requires
        lends(before, lent, returned, after),
    ensures
        lent == before.transport,
        after.transport == returned,
{
}

/// How a stream was made decides what it answers about itself: it is encrypted exactly where it was
/// made from an encrypted transport, uses futures-compatible IO exactly where it was made from such
/// a transport, and writes vectored unless such a transport was said not to.
pub proof fn the_constructor_decides<M, C>(
    io: M,
    compat_io: C,
    said_vectored: bool,
    plain: HyperStream<M, C>,
    tls: HyperStream<M, C>,
    compat: HyperStream<M, C>,
    stream: HyperStream<M, C>,
    is_tls: bool,
    uses_compat_io: bool,
    is_write_vectored: bool,
)
    requires
        call_ensures(HyperStream::<M, C>::new_plain, (io,), plain),
        call_ensures(HyperStream::<M, C>::new_tls, (io,), tls),
        call_ensures(HyperStream::<M, C>::new_plain_compat, (compat_io, said_vectored), compat),
        stream == plain || stream == tls || stream == compat,
        call_ensures(HyperStream::<M, C>::is_tls, (&stream,), is_tls),
        call_ensures(HyperStream::<M, C>::uses_compat_io, (&stream,), uses_compat_io),
        call_ensures(HyperStream::<M, C>::is_write_vectored, (&stream,), is_write_vectored),
    ensures
        is_tls <==> stream == tls,
        uses_compat_io <==> stream == compat,
        is_write_vectored <==> (stream == compat ==> said_vectored),
{
}

/// A stream that was made from an encrypted transport has the protocol of that transport's session;
/// one that was made from any other has none.
pub proof fn the_constructor_decides_the_protocol<'a, M, C, A, F: FnOnce(&'a M) -> Option<A>>(
    io: M,
    compat_io: C,
    said_vectored: bool,
    stream: &'a HyperStream<M, C>,
    session_alpn: F,
    protocol: Option<A>,
)
    requires
        call_ensures(HyperStream::<M, C>::negotiated_alpn::<A, F>, (stream, session_alpn), protocol),
    ensures
        call_ensures(HyperStream::<M, C>::new_tls, (io,), *stream) ==> call_ensures(
            session_alpn,
            (&io,),
            protocol,
        ),
        call_ensures(HyperStream::<M, C>::new_plain, (io,), *stream) ==> protocol is None,
        call_ensures(HyperStream::<M, C>::new_plain_compat, (compat_io, said_vectored), *stream)
            ==> protocol is None,
{
}

/// A whole read, over both of its calls: the stream lends the transport that it was made from and
/// the unfilled part of the buffer; what the transport leaves there, as far as it reports it, is
/// filled behind what was filled before. A read that does not succeed fills nothing.
pub proof fn a_read_fills_what_the_transport_left<M, C, V, E>(
    io: M,
    stream: &mut HyperStream<M, C>,
    start: &mut ReadBufCursor<'_>,
    action: Action<Transport<&mut M, &mut C>, ReadRequest<&mut [u8], V>>,
    end: &mut ReadBufCursor<'_>,
    polled: Poll<Result<usize, E>>,
    answer: Poll<Result<(), StreamError<E>>>,
)
    requires
        call_ensures(HyperStream::<M, C>::new_plain, (io,), *old(stream)) || call_ensures(
            HyperStream::<M, C>::new_tls,
            (io,),
            *old(stream),
        ),
        call_ensures(HyperStream::<M, C>::poll_read_cursor::<V>, (stream, start), action),
        *old(end) == *final(start),
        call_ensures(complete_read::<E>, (end, polled), answer),
    ensures
        action.transport matches Transport::Compio(lent) && *lent == io,
        action.request matches ReadRequest::Contiguous(buf) && {
            &&& buf@ == crate::cursor::unfilled(*old(start))
            &&& answer == Poll::<Result<(), StreamError<E>>>::Ready(Ok(())) <==> (
            polled matches Poll::Ready(Ok(n)) && n <= buf@.len())
            &&& crate::cursor::filled(*final(end)) == crate::cursor::filled(*old(start)) + (
            if answer == Poll::<Result<(), StreamError<E>>>::Ready(Ok(())) {
                final(buf)@.take((polled->0)->Ok_0 as int)
            } else {
                Seq::empty()
            })
            &&& crate::cursor::filled(*final(end)).len() + crate::cursor::unfilled(
                *final(end),
            ).len() == crate::cursor::filled(*old(start)).len() + crate::cursor::unfilled(
                *old(start),
            ).len()
        },
{
}

/// A read asks the transport that the stream was made from to read into the caller's buffer.
pub proof fn a_read_asks_for_its_buffer<M, C, B, V>(
    io: M,
    compat_io: C,
    said_vectored: bool,
    stream: &mut HyperStream<M, C>,
    buf: B,
    action: Action<Transport<&mut M, &mut C>, ReadRequest<B, V>>,
)
    requires
        call_ensures(HyperStream::<M, C>::poll_read::<B, V>, (stream, buf), action),
    ensures
        action.request == ReadRequest::<B, V>::Contiguous(buf),
        call_ensures(HyperStream::<M, C>::new_plain, (io,), *old(stream)) || call_ensures(
            HyperStream::<M, C>::new_tls,
            (io,),
            *old(stream),
        ) ==> (action.transport matches Transport::Compio(lent) && *lent == io),
        call_ensures(
            HyperStream::<M, C>::new_plain_compat,
            (compat_io, said_vectored),
            *old(stream),
        ) ==> (action.transport matches Transport::Compat(lent) && *lent == compat_io),
{
}

/// A vectored read asks the transport that the stream was made from to read into the buffers given.
pub proof fn a_vectored_read_asks_for_its_buffers<M, C, B, V>(
    io: M,
    compat_io: C,
    said_vectored: bool,
    stream: &mut HyperStream<M, C>,
    bufs: V,
    action: Action<Transport<&mut M, &mut C>, ReadRequest<B, V>>,
)
    requires
        call_ensures(HyperStream::<M, C>::poll_read_vectored::<B, V>, (stream, bufs), action),
    ensures
        action.request == ReadRequest::<B, V>::Vectored(bufs),
        call_ensures(HyperStream::<M, C>::new_plain, (io,), *old(stream)) || call_ensures(
            HyperStream::<M, C>::new_tls,
            (io,),
            *old(stream),
        ) ==> (action.transport matches Transport::Compio(lent) && *lent == io),
        call_ensures(
            HyperStream::<M, C>::new_plain_compat,
            (compat_io, said_vectored),
            *old(stream),
        ) ==> (action.transport matches Transport::Compat(lent) && *lent == compat_io),
{
}

/// A write asks the transport that the stream was made from to write the caller's buffer.
pub proof fn a_write_asks_for_its_buffer<M, C, B, V>(
    io: M,
    compat_io: C,
    said_vectored: bool,
    stream: &mut HyperStream<M, C>,
    buf: B,
    action: Action<Transport<&mut M, &mut C>, WriteRequest<B, V>>,
)
    requires
        call_ensures(HyperStream::<M, C>::poll_write::<B, V>, (stream, buf), action),
    ensures
        action.request == WriteRequest::<B, V>::Contiguous(buf),
        call_ensures(HyperStream::<M, C>::new_plain, (io,), *old(stream)) || call_ensures(
            HyperStream::<M, C>::new_tls,
            (io,),
            *old(stream),
        ) ==> (action.transport matches Transport::Compio(lent) && *lent == io),
        call_ensures(
            HyperStream::<M, C>::new_plain_compat,
            (compat_io, said_vectored),
            *old(stream),
        ) ==> (action.transport matches Transport::Compat(lent) && *lent == compat_io),
{
}

/// A vectored write asks the transport that the stream was made from to write the buffers given.
pub proof fn a_vectored_write_asks_for_its_buffers<M, C, B, V>(
    io: M,
    compat_io: C,
    said_vectored: bool,
    stream: &mut HyperStream<M, C>,
    bufs: V,
    action: Action<Transport<&mut M, &mut C>, WriteRequest<B, V>>,
)
    requires
        call_ensures(HyperStream::<M, C>::poll_write_vectored::<B, V>, (stream, bufs), action),
    ensures
        action.request == WriteRequest::<B, V>::Vectored(bufs),
        call_ensures(HyperStream::<M, C>::new_plain, (io,), *old(stream)) || call_ensures(
            HyperStream::<M, C>::new_tls,
            (io,),
            *old(stream),
        ) ==> (action.transport matches Transport::Compio(lent) && *lent == io),
        call_ensures(
            HyperStream::<M, C>::new_plain_compat,
            (compat_io, said_vectored),
            *old(stream),
        ) ==> (action.transport matches Transport::Compat(lent) && *lent == compat_io),
{
}

/// A flush asks the transport that the stream was made from to flush.
pub proof fn a_flush_flushes_the_transport<M, C>(
    io: M,
    compat_io: C,
    said_vectored: bool,
    stream: &mut HyperStream<M, C>,
    action: Action<Transport<&mut M, &mut C>, ControlRequest>,
)
    requires
        call_ensures(HyperStream::<M, C>::poll_flush, (stream,), action),
    ensures
        action.request == ControlRequest::Flush,
        call_ensures(HyperStream::<M, C>::new_plain, (io,), *old(stream)) || call_ensures(
            HyperStream::<M, C>::new_tls,
            (io,),
            *old(stream),
        ) ==> (action.transport matches Transport::Compio(lent) && *lent == io),
        call_ensures(
            HyperStream::<M, C>::new_plain_compat,
            (compat_io, said_vectored),
            *old(stream),
        ) ==> (action.transport matches Transport::Compat(lent) && *lent == compat_io),
{
}

/// A close asks the transport that the stream was made from to close.
pub proof fn a_close_closes_the_transport<M, C>(
    io: M,
    compat_io: C,
    said_vectored: bool,
    stream: &mut HyperStream<M, C>,
    action: Action<Transport<&mut M, &mut C>, ControlRequest>,
)
    requires
        call_ensures(HyperStream::<M, C>::poll_close, (stream,), action),
    ensures
        action.request == ControlRequest::Close,
        call_ensures(HyperStream::<M, C>::new_plain, (io,), *old(stream)) || call_ensures(
            HyperStream::<M, C>::new_tls,
            (io,),
            *old(stream),
        ) ==> (action.transport matches Transport::Compio(lent) && *lent == io),
        call_ensures(
            HyperStream::<M, C>::new_plain_compat,
            (compat_io, said_vectored),
            *old(stream),
        ) ==> (action.transport matches Transport::Compat(lent) && *lent == compat_io),
{
}

/// A shutdown asks the transport that the stream was made from to close.
pub proof fn a_shutdown_closes_the_transport<M, C>(
    io: M,
    compat_io: C,
    said_vectored: bool,
    stream: &mut HyperStream<M, C>,
    action: Action<Transport<&mut M, &mut C>, ControlRequest>,
)
    requires
        call_ensures(HyperStream::<M, C>::poll_shutdown, (stream,), action),
    ensures
        action.request == ControlRequest::Close,
        call_ensures(HyperStream::<M, C>::new_plain, (io,), *old(stream)) || call_ensures(
            HyperStream::<M, C>::new_tls,
            (io,),
            *old(stream),
        ) ==> (action.transport matches Transport::Compio(lent) && *lent == io),
        call_ensures(
            HyperStream::<M, C>::new_plain_compat,
            (compat_io, said_vectored),
            *old(stream),
        ) ==> (action.transport matches Transport::Compat(lent) && *lent == compat_io),
{
}

} // verus!
