use std::io;
use std::pin::Pin;
use std::task::Context;

use compio::io::util::Null;
use compio::tls::MaybeTlsStream;
use cyper_core::{
    complete_poll, complete_read, Action, ControlRequest, ErrorKind, HyperStream, Poll, ReadRequest,
    StreamError, Transport, WriteRequest,
};
use futures_util::{AsyncRead, AsyncWrite};

type TaskPoll<T> = std::task::Poll<T>;

/// A transport that claims one byte more than fits.
struct OverreportingIo;

impl AsyncRead for OverreportingIo {
    fn poll_read(
        self: Pin<&mut Self>,
        _cx: &mut Context<'_>,
        buf: &mut [u8],
    ) -> TaskPoll<io::Result<usize>> {
        TaskPoll::Ready(Ok(buf.len() + 1))
    }
}

impl AsyncWrite for OverreportingIo {
    fn poll_write(
        self: Pin<&mut Self>,
        _cx: &mut Context<'_>,
        buf: &[u8],
    ) -> TaskPoll<io::Result<usize>> {
        TaskPoll::Ready(Ok(buf.len()))
    }

    fn poll_flush(self: Pin<&mut Self>, _cx: &mut Context<'_>) -> TaskPoll<io::Result<()>> {
        TaskPoll::Ready(Ok(()))
    }

    fn poll_close(self: Pin<&mut Self>, _cx: &mut Context<'_>) -> TaskPoll<io::Result<()>> {
        TaskPoll::Ready(Ok(()))
    }
}

/// A transport that keeps count of what it was asked, and reads from a script.
#[derive(Debug, Default, PartialEq)]
struct ScriptedIo {
    input: Vec<u8>,
    read: usize,
    written: Vec<u8>,
    flushes: usize,
    closes: usize,
}

impl ScriptedIo {
    fn new(input: &[u8]) -> Self {
        ScriptedIo {
            input: input.to_vec(),
            ..ScriptedIo::default()
        }
    }

    /// Reads at most `limit` bytes.
    fn read_at_most(&mut self, buf: &mut [u8], limit: usize) -> usize {
        let n = (self.input.len() - self.read).min(buf.len()).min(limit);
        buf[..n].copy_from_slice(&self.input[self.read..self.read + n]);
        self.read += n;
        n
    }

    fn control(&mut self, request: ControlRequest) {
        match request {
            ControlRequest::Flush => self.flushes += 1,
            ControlRequest::Close => self.closes += 1,
        }
    }
}

/// Two transports of one type, so that only the variant tells them apart.
type ScriptedStream = HyperStream<ScriptedIo, ScriptedIo>;

fn only<T>(transport: Transport<T, T>) -> T {
    match transport {
        Transport::Compio(io) => io,
        Transport::Compat(io) => io,
    }
}

/// Makes one read into `cursor`, of which the transport delivers at most `limit` bytes.
fn read_into(
    stream: &mut ScriptedStream,
    cursor: &mut hyper::rt::ReadBufCursor<'_>,
    limit: usize,
) -> Poll<Result<(), StreamError<()>>> {
    let action: Action<_, ReadRequest<&mut [u8], ()>> = stream.poll_read_cursor(cursor);
    let n = match action.request {
        ReadRequest::Contiguous(buf) => only(action.transport).read_at_most(buf, limit),
        ReadRequest::Vectored(()) => panic!("a cursor has one buffer"),
    };
    complete_read(cursor, Poll::Ready(Ok(n)))
}

fn into_poll<T>(polled: TaskPoll<T>) -> Poll<T> {
    match polled {
        TaskPoll::Ready(value) => Poll::Ready(value),
        TaskPoll::Pending => Poll::Pending,
    }
}

#[test]
fn rejects_reads_larger_than_the_destination_buffer() {
    let mut stream =
        HyperStream::<MaybeTlsStream<Null>, OverreportingIo>::new_plain_compat(OverreportingIo, false);
    let mut bytes = [0; 8];
    let mut read_buf = hyper::rt::ReadBuf::new(&mut bytes);
    let mut cx = Context::from_waker(futures_util::task::noop_waker_ref());

    let mut cursor = read_buf.unfilled();
    let action: Action<_, ReadRequest<&mut [u8], &mut [io::IoSliceMut<'_>]>> =
        stream.poll_read_cursor(&mut cursor);
    let polled = match (action.transport, action.request) {
        (Transport::Compio(io), ReadRequest::Contiguous(buf)) => {
            Pin::new(io).poll_read(&mut cx, buf)
        }
        (Transport::Compio(io), ReadRequest::Vectored(bufs)) => {
            Pin::new(io).poll_read_vectored(&mut cx, bufs)
        }
        (Transport::Compat(io), ReadRequest::Contiguous(buf)) => {
            Pin::new(io).poll_read(&mut cx, buf)
        }
        (Transport::Compat(io), ReadRequest::Vectored(bufs)) => {
            Pin::new(io).poll_read_vectored(&mut cx, bufs)
        }
    };
    assert!(matches!(polled, TaskPoll::Ready(Ok(9))));
    let result = complete_read(&mut cursor, into_poll(polled));

    assert!(matches!(
        result,
        Poll::Ready(Err(StreamError::Raised {
            kind: ErrorKind::InvalidData,
            message: "stream reported more bytes than the read buffer can hold",
        }))
    ));
    assert_eq!(cursor.remaining(), 8);
    assert!(read_buf.filled().is_empty());
}

#[test]
fn overreported_bytes_stay_unfilled() {
    let mut bytes = [7; 4];
    let mut read_buf = hyper::rt::ReadBuf::new(&mut bytes);
    let mut cursor = read_buf.unfilled();
    let answer = complete_read(&mut cursor, Poll::Ready(Ok::<usize, ()>(usize::MAX)));
    assert_eq!(
        answer,
        Poll::Ready(Err(StreamError::Raised {
            kind: ErrorKind::InvalidData,
            message: "stream reported more bytes than the read buffer can hold",
        }))
    );
    assert_eq!(cursor.initialize_unfilled(), &[7, 7, 7, 7]);
    assert!(read_buf.filled().is_empty());
}

#[test]
fn a_read_that_fills_the_buffer_is_accepted() {
    let mut stream = ScriptedStream::new_plain(ScriptedIo::new(b"abcdef"));
    let mut bytes = [0; 4];
    let mut read_buf = hyper::rt::ReadBuf::new(&mut bytes);
    let mut cursor = read_buf.unfilled();
    assert_eq!(read_into(&mut stream, &mut cursor, 4), Poll::Ready(Ok(())));
    assert_eq!(cursor.remaining(), 0);
    assert_eq!(read_into(&mut stream, &mut cursor, 4), Poll::Ready(Ok(())));
    assert_eq!(read_buf.filled(), b"abcd");
}

#[test]
fn reads_arrive_one_behind_the_other() {
    for mut stream in [
        ScriptedStream::new_plain(ScriptedIo::new(b"hello world")),
        ScriptedStream::new_tls(ScriptedIo::new(b"hello world")),
        ScriptedStream::new_plain_compat(ScriptedIo::new(b"hello world"), false),
    ] {
        let mut bytes = [0; 8];
        let mut read_buf = hyper::rt::ReadBuf::new(&mut bytes);
        let mut cursor = read_buf.unfilled();
        assert_eq!(read_into(&mut stream, &mut cursor, 2), Poll::Ready(Ok(())));
        assert_eq!(cursor.remaining(), 6);
        assert_eq!(read_into(&mut stream, &mut cursor, 3), Poll::Ready(Ok(())));
        assert_eq!(cursor.remaining(), 3);
        assert_eq!(read_into(&mut stream, &mut cursor, 100), Poll::Ready(Ok(())));
        assert_eq!(cursor.remaining(), 0);
        assert_eq!(read_buf.filled(), b"hello wo");
    }
}

#[test]
fn end_of_input_moves_nothing() {
    let mut stream = ScriptedStream::new_plain(ScriptedIo::new(b""));
    let mut bytes = [0; 3];
    let mut read_buf = hyper::rt::ReadBuf::new(&mut bytes);
    let mut cursor = read_buf.unfilled();
    assert_eq!(read_into(&mut stream, &mut cursor, 3), Poll::Ready(Ok(())));
    assert_eq!(cursor.remaining(), 3);
    assert!(read_buf.filled().is_empty());
}

#[test]
fn an_uninitialized_buffer_is_read_into() {
    let mut stream = ScriptedStream::new_plain_compat(ScriptedIo::new(b"xyz"), true);
    let mut bytes = [std::mem::MaybeUninit::uninit(); 5];
    let mut read_buf = hyper::rt::ReadBuf::uninit(&mut bytes);
    let mut cursor = read_buf.unfilled();
    {
        let action: Action<_, ReadRequest<&mut [u8], ()>> = stream.poll_read_cursor(&mut cursor);
        assert!(matches!(
            action.request,
            ReadRequest::Contiguous(buf) if *buf == [0, 0, 0, 0, 0]
        ));
    }
    assert_eq!(read_into(&mut stream, &mut cursor, 5), Poll::Ready(Ok(())));
    assert_eq!(cursor.remaining(), 2);
    assert_eq!(cursor.initialize_unfilled(), &[0, 0]);
    assert_eq!(read_buf.filled(), b"xyz");
}

#[test]
fn the_transport_gets_the_unfilled_part() {
    let mut stream = ScriptedStream::new_plain(ScriptedIo::new(b""));
    let mut bytes = *b"abcdef";
    let mut read_buf = hyper::rt::ReadBuf::new(&mut bytes);
    let mut cursor = read_buf.unfilled();
    cursor.put_slice(b"XY");
    let action: Action<_, ReadRequest<&mut [u8], ()>> = stream.poll_read_cursor(&mut cursor);
    match action.request {
        ReadRequest::Contiguous(buf) => {
            assert_eq!(buf, b"cdef");
            buf[0] = b'Z';
        }
        ReadRequest::Vectored(()) => panic!("a cursor has one buffer"),
    }
    assert_eq!(cursor.initialize_unfilled(), b"Zdef");
    assert_eq!(
        complete_read(&mut cursor, Poll::Ready(Ok::<usize, ()>(1))),
        Poll::Ready(Ok(()))
    );
    assert_eq!(read_buf.filled(), b"XYZ");
}

#[test]
fn a_pending_read_stays_pending() {
    let mut bytes = [1; 3];
    let mut read_buf = hyper::rt::ReadBuf::new(&mut bytes);
    let mut cursor = read_buf.unfilled();
    assert_eq!(
        complete_read::<()>(&mut cursor, Poll::Pending),
        Poll::Pending
    );
    assert_eq!(cursor.remaining(), 3);
    assert!(read_buf.filled().is_empty());
}

#[test]
fn an_error_of_the_transport_comes_through() {
    let mut bytes = [1; 3];
    let mut read_buf = hyper::rt::ReadBuf::new(&mut bytes);
    let mut cursor = read_buf.unfilled();
    let error = io::Error::new(io::ErrorKind::ConnectionReset, "reset by peer");
    match complete_read(&mut cursor, Poll::Ready(Err(error))) {
        Poll::Ready(Err(StreamError::Transport(error))) => {
            assert_eq!(error.kind(), io::ErrorKind::ConnectionReset);
            assert_eq!(error.to_string(), "reset by peer");
        }
        _ => panic!("the error is lost"),
    }
    assert_eq!(cursor.remaining(), 3);
    assert!(read_buf.filled().is_empty());
}

#[test]
fn constructors_fix_the_kind() {
    let plain = ScriptedStream::new_plain(ScriptedIo::default());
    assert!(!plain.is_tls());
    assert!(!plain.uses_compat_io());
    assert!(plain.is_write_vectored());

    let tls = ScriptedStream::new_tls(ScriptedIo::default());
    assert!(tls.is_tls());
    assert!(!tls.uses_compat_io());
    assert!(tls.is_write_vectored());

    for is_write_vectored in [false, true] {
        let compat = ScriptedStream::new_plain_compat(ScriptedIo::default(), is_write_vectored);
        assert!(!compat.is_tls());
        assert!(compat.uses_compat_io());
        assert_eq!(compat.is_write_vectored(), is_write_vectored);
    }
}

#[test]
fn a_plain_transport_of_the_runtime_agrees() {
    let io = MaybeTlsStream::new_plain(compio::io::util::null());
    let io_is_tls = io.is_tls();
    let stream = HyperStream::<_, OverreportingIo>::new_plain(io);
    assert_eq!(stream.is_tls(), io_is_tls);
    assert!(stream.negotiated_alpn(|io| io.negotiated_alpn()).is_none());
}

#[test]
fn polling_keeps_the_kind() {
    for mut stream in [
        ScriptedStream::new_plain(ScriptedIo::new(b"abc")),
        ScriptedStream::new_tls(ScriptedIo::new(b"abc")),
        ScriptedStream::new_plain_compat(ScriptedIo::new(b"abc"), false),
        ScriptedStream::new_plain_compat(ScriptedIo::new(b"abc"), true),
    ] {
        let kind = |stream: &ScriptedStream| {
            (
                stream.is_tls(),
                stream.uses_compat_io(),
                stream.is_write_vectored(),
            )
        };
        let before = kind(&stream);
        *only(stream.poll_flush().transport) = ScriptedIo::new(b"other");
        assert_eq!(kind(&stream), before);
        assert_eq!(only(stream.poll_close().transport).input, b"other");
        assert_eq!(kind(&stream), before);
    }
}

#[test]
fn only_an_encrypted_stream_has_a_protocol() {
    let tls = ScriptedStream::new_tls(ScriptedIo::new(b"h2"));
    assert_eq!(
        tls.negotiated_alpn(|io| Some(io.input.as_slice())),
        Some(&b"h2"[..])
    );
    assert_eq!(tls.negotiated_alpn(|_| None::<Vec<u8>>), None);

    let plain = ScriptedStream::new_plain(ScriptedIo::new(b"h2"));
    assert_eq!(plain.negotiated_alpn(|io| Some(io.input.as_slice())), None);

    let compat = ScriptedStream::new_plain_compat(ScriptedIo::new(b"h2"), true);
    assert_eq!(compat.negotiated_alpn(|io| Some(io.input.as_slice())), None);
}

#[test]
fn requests_go_to_the_transport_that_the_stream_holds() {
    let mut compio = ScriptedStream::new_plain(ScriptedIo::new(b"m"));
    assert!(matches!(compio.poll_read::<_, ()>(()).transport, Transport::Compio(io) if io.input == b"m"));
    assert!(matches!(compio.poll_read_vectored::<(), _>(()).transport, Transport::Compio(_)));
    assert!(matches!(compio.poll_write::<_, ()>(()).transport, Transport::Compio(_)));
    assert!(matches!(compio.poll_write_vectored::<(), _>(()).transport, Transport::Compio(_)));
    assert!(matches!(compio.poll_flush().transport, Transport::Compio(_)));
    assert!(matches!(compio.poll_close().transport, Transport::Compio(_)));
    assert!(matches!(compio.poll_shutdown().transport, Transport::Compio(_)));

    let mut compat = ScriptedStream::new_plain_compat(ScriptedIo::new(b"c"), false);
    assert!(matches!(compat.poll_read::<_, ()>(()).transport, Transport::Compat(io) if io.input == b"c"));
    assert!(matches!(compat.poll_read_vectored::<(), _>(()).transport, Transport::Compat(_)));
    assert!(matches!(compat.poll_write::<_, ()>(()).transport, Transport::Compat(_)));
    assert!(matches!(compat.poll_write_vectored::<(), _>(()).transport, Transport::Compat(_)));
    assert!(matches!(compat.poll_flush().transport, Transport::Compat(_)));
    assert!(matches!(compat.poll_close().transport, Transport::Compat(_)));
    assert!(matches!(compat.poll_shutdown().transport, Transport::Compat(_)));
}

#[test]
fn requests_carry_the_buffers_of_the_caller() {
    let mut stream = ScriptedStream::new_plain_compat(ScriptedIo::new(b"abc"), false);

    let mut buf = [0; 2];
    let action: Action<_, ReadRequest<&mut [u8], ()>> = stream.poll_read(&mut buf[..]);
    match action.request {
        ReadRequest::Contiguous(buf) => assert_eq!(only(action.transport).read_at_most(buf, 9), 2),
        ReadRequest::Vectored(()) => panic!("one buffer was given"),
    }
    assert_eq!(&buf, b"ab");

    let mut tail = [0; 1];
    let mut bufs = [io::IoSliceMut::new(&mut tail)];
    let action: Action<_, ReadRequest<(), &mut [io::IoSliceMut<'_>]>> =
        stream.poll_read_vectored(&mut bufs[..]);
    match action.request {
        ReadRequest::Vectored(bufs) => {
            assert_eq!(only(action.transport).read_at_most(&mut bufs[0], 9), 1)
        }
        ReadRequest::Contiguous(()) => panic!("several buffers were given"),
    }
    assert_eq!(&tail, b"c");

    let action: Action<_, WriteRequest<&[u8], ()>> = stream.poll_write(&b"xy"[..]);
    match action.request {
        WriteRequest::Contiguous(buf) => only(action.transport).written.extend_from_slice(buf),
        WriteRequest::Vectored(()) => panic!("one buffer was given"),
    }

    let bufs = [io::IoSlice::new(b"z"), io::IoSlice::new(b"!")];
    let action: Action<_, WriteRequest<(), &[io::IoSlice<'_>]>> =
        stream.poll_write_vectored(&bufs[..]);
    match action.request {
        WriteRequest::Vectored(bufs) => {
            let io = only(action.transport);
            for buf in bufs {
                io.written.extend_from_slice(buf);
            }
        }
        WriteRequest::Contiguous(()) => panic!("several buffers were given"),
    }
    assert_eq!(only(stream.poll_flush().transport).written, b"xyz!");
}

#[test]
fn shutting_down_closes() {
    let mut stream = ScriptedStream::new_tls(ScriptedIo::default());
    let action = stream.poll_flush();
    assert_eq!(action.request, ControlRequest::Flush);
    only(action.transport).control(action.request);
    let action = stream.poll_shutdown();
    assert_eq!(action.request, ControlRequest::Close);
    only(action.transport).control(action.request);
    let action = stream.poll_close();
    assert_eq!(action.request, ControlRequest::Close);
    only(action.transport).control(action.request);
    let io = only(stream.poll_flush().transport);
    assert_eq!((io.flushes, io.closes), (1, 2));
}

#[test]
fn other_answers_pass_unchanged() {
    assert_eq!(complete_poll::<usize, ()>(Poll::Pending), Poll::Pending);
    assert_eq!(
        complete_poll(Poll::Ready(Ok::<usize, ()>(usize::MAX))),
        Poll::Ready(Ok(usize::MAX))
    );
    assert_eq!(
        complete_poll(Poll::Ready(Err::<(), &str>("broken"))),
        Poll::Ready(Err(StreamError::Transport("broken")))
    );
}

#[test]
fn a_whole_read_keeps_the_buffer() {
    for (polled, filled) in [
        (Poll::Pending, &b"XY"[..]),
        (Poll::Ready(Err("broken")), &b"XY"[..]),
        (Poll::Ready(Ok(0)), &b"XY"[..]),
        (Poll::Ready(Ok(3)), &b"XYzzz"[..]),
        (Poll::Ready(Ok(4)), &b"XYzzzz"[..]),
        (Poll::Ready(Ok(5)), &b"XY"[..]),
    ] {
        let refused = polled == Poll::Ready(Ok(5));
        let mut stream = ScriptedStream::new_plain(ScriptedIo::default());
        let mut bytes = [0; 6];
        let mut read_buf = hyper::rt::ReadBuf::new(&mut bytes);
        let mut cursor = read_buf.unfilled();
        cursor.put_slice(b"XY");
        let action: Action<_, ReadRequest<&mut [u8], ()>> = stream.poll_read_cursor(&mut cursor);
        match action.request {
            ReadRequest::Contiguous(buf) => buf.fill(b'z'),
            ReadRequest::Vectored(()) => panic!("a cursor has one buffer"),
        }
        let answer = complete_read(&mut cursor, polled);
        assert_eq!(
            matches!(answer, Poll::Ready(Err(StreamError::Raised { .. }))),
            refused
        );
        let remaining = cursor.remaining();
        assert_eq!(read_buf.filled(), filled);
        assert_eq!(filled.len() + remaining, 6);
    }
}
