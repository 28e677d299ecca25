//! What a stream makes of the answers of its transport.

use hyper::rt::ReadBufCursor;
use vstd::prelude::*;
use vstd::slice::slice_subrange;

use crate::action::{ErrorKind, Poll, StreamError};
use crate::cursor::Contents;

verus! {

/// The answer of the stream to any request but a read into a cursor, where the transport answered
/// `polled`: the same, the number of transferred bytes included.
pub open spec fn poll_answer<T, E>(polled: Poll<Result<T, E>>) -> Poll<
    Result<T, StreamError<E>>,
> {
    match polled {
        Poll::Pending => Poll::Pending,
        Poll::Ready(Err(error)) => Poll::Ready(Err(StreamError::Transport(error))),
        Poll::Ready(Ok(value)) => Poll::Ready(Ok(value)),
    }
}

/// The error of a read whose transport claims more bytes than it was given room for.
pub open spec fn overreported<E>() -> StreamError<E> {
    StreamError::Raised {
        kind: ErrorKind::InvalidData,
        message: "stream reported more bytes than the read buffer can hold",
    }
}

/// The answer of the stream to a read into a cursor, where the transport answered `polled` and was
/// given room for `capacity` bytes.
pub open spec fn read_answer<E>(polled: Poll<Result<usize, E>>, capacity: nat) -> Poll<
    Result<(), StreamError<E>>,
> {
    match polled {
        Poll::Pending => Poll::Pending,
        Poll::Ready(Err(error)) => Poll::Ready(Err(StreamError::Transport(error))),
        Poll::Ready(Ok(n)) => if n <= capacity {
            Poll::Ready(Ok(()))
        } else {
            Poll::Ready(Err(overreported()))
        },
    }
}

/// The buffer after a read, where it held `before` when the transport answered `polled`. The
/// cursor moves over the bytes that were read, and only where the transport reports a number that
/// fits.
pub open spec fn read_contents<E>(polled: Poll<Result<usize, E>>, before: Contents) -> Contents {
    match polled {
        Poll::Ready(Ok(n)) if n <= before.unfilled.len() => before.advance(n as int),
        _ => before,
    }
}

/// Ends any request but a read into a cursor: passes on what the transport answered.
///
/// A number of bytes is passed on as it came, also where it is larger than the buffer that the
/// request carried.
pub fn complete_poll<T, E>(polled: Poll<Result<T, E>>) -> (answer: Poll<Result<T, StreamError<E>>>)
    ensures
        answer == poll_answer(polled),
        answer is Pending <==> polled is Pending,
        polled matches Poll::Ready(Ok(value)) ==> answer == Poll::<
            Result<T, StreamError<E>>,
        >::Ready(Ok(value)),
        polled matches Poll::Ready(Err(error)) ==> answer == Poll::<
            Result<T, StreamError<E>>,
        >::Ready(Err(StreamError::Transport(error))),
{
    match polled {
        Poll::Pending => Poll::Pending,
        Poll::Ready(Err(error)) => Poll::Ready(Err(StreamError::Transport(error))),
        Poll::Ready(Ok(value)) => Poll::Ready(Ok(value)),
    }
}

/// Ends a read into the unfilled part of `cursor`'s buffer.
///
/// `polled` is what the transport answered: the number of bytes that it has put at the start of
/// the unfilled part. The cursor is moved over them. A number that is larger than the unfilled
/// part is an error, and the cursor stays where it is.
pub fn complete_read<E>(
    cursor: &mut ReadBufCursor<'_>,
    polled: Poll<Result<usize, E>>,
) -> (answer: Poll<Result<(), StreamError<E>>>)
    ensures
        answer == read_answer(polled, crate::cursor::contents(*old(cursor)).unfilled.len()),
        crate::cursor::contents(*final(cursor)) == read_contents(
            polled,
            crate::cursor::contents(*old(cursor)),
        ),
        answer is Pending <==> polled is Pending,
        polled matches Poll::Ready(Err(error)) ==> answer == Poll::<
            Result<(), StreamError<E>>,
        >::Ready(Err(StreamError::Transport(error))),
        polled matches Poll::Ready(Ok(n)) ==> if n <= crate::cursor::unfilled(*old(cursor)).len() {
            &&& answer == Poll::<Result<(), StreamError<E>>>::Ready(Ok(()))
            &&& crate::cursor::filled(*final(cursor)) == crate::cursor::filled(*old(cursor))
                + crate::cursor::unfilled(*old(cursor)).take(n as int)
            &&& crate::cursor::unfilled(*final(cursor)) == crate::cursor::unfilled(
                *old(cursor),
            ).skip(n as int)
        } else {
            &&& answer matches Poll::Ready(Err(StreamError::Raised { kind, message }))
            &&& kind == ErrorKind::InvalidData
            &&& message == "stream reported more bytes than the read buffer can hold"
        },
        answer != Poll::<Result<(), StreamError<E>>>::Ready(Ok(())) ==> {
            &&& crate::cursor::filled(*final(cursor)) == crate::cursor::filled(*old(cursor))
            &&& crate::cursor::unfilled(*final(cursor)) == crate::cursor::unfilled(*old(cursor))
        },
{
    match polled {
        Poll::Pending => Poll::Pending,
        Poll::Ready(Err(error)) => Poll::Ready(Err(StreamError::Transport(error))),
        Poll::Ready(Ok(n)) => {
            let unfilled = cursor.initialize_unfilled();
            if n > unfilled.len() {
                return Poll::Ready(
                    Err(
                        StreamError::Raised {
                            kind: ErrorKind::InvalidData,
                            message: "stream reported more bytes than the read buffer can hold",
                        },
                    ),
                );
            }
            let mut bytes: Vec<u8> = Vec::with_capacity(n);
            bytes.extend_from_slice(slice_subrange(unfilled, 0, n));
            assert(bytes@ =~= crate::cursor::contents(*old(cursor)).unfilled.take(n as int));
            cursor.put_slice(bytes.as_slice());
            Poll::Ready(Ok(()))
        },
    }
}

/// No read changes the size of the buffer, and none touches what was filled before it.
pub proof fn read_keeps_the_buffer<E>(polled: Poll<Result<usize, E>>, before: Contents)
    ensures
        read_contents(polled, before).size() == before.size(),
        read_contents(polled, before).filled.len() + read_contents(polled, before).unfilled.len()
            == before.filled.len() + before.unfilled.len(),
        before.filled.is_prefix_of(read_contents(polled, before).filled),
{
}

/// A read, from the loan of the unfilled part to its end, keeps the size of the buffer and what was
/// filled before it, and is measured against the room that there was when it began. This holds
/// whatever the transport leaves in the part that it was lent, and whatever it answers.
pub proof fn whole_read_keeps_the_buffer<E>(
    before: Contents,
    written: Seq<u8>,
    polled: Poll<Result<usize, E>>,
)
    requires
        written.len() == before.unfilled.len(),
    ensures
        ({
            let lent = before.overwrite(written);
            let after = read_contents(polled, lent);
            &&& after.size() == before.size()
            &&& before.filled.is_prefix_of(after.filled)
            &&& read_answer(polled, lent.unfilled.len()) == read_answer(
                polled,
                before.unfilled.len(),
            )
        }),
{
}

/// A read that does not succeed leaves the cursor where it was.
pub proof fn failed_read_moves_nothing<E>(polled: Poll<Result<usize, E>>, before: Contents)
    requires
        read_answer(polled, before.unfilled.len()) != Poll::<Result<(), StreamError<E>>>::Ready(
            Ok(()),
        ),
    ensures
        read_contents(polled, before) == before,
{
}

/// A read is refused for the number of its bytes exactly where the transport reports more of them
/// than it was given room for.
pub proof fn overreport_is_refused<E>(polled: Poll<Result<usize, E>>, capacity: nat)
    ensures
        read_answer(polled, capacity) == Poll::<Result<(), StreamError<E>>>::Ready(
            Err(overreported()),
        ) <==> (polled matches Poll::Ready(Ok(n)) && n > capacity),
{
}

/// A read delivers what the transport has written: where it leaves `written` in the unfilled part
/// and reports `n` bytes of it, just these are filled behind what was filled before.
pub proof fn read_delivers_what_was_written<E>(before: Contents, written: Seq<u8>, n: usize)
    requires
        written.len() == before.unfilled.len(),
        n <= written.len(),
    ensures
        read_answer::<E>(Poll::Ready(Ok(n)), written.len()) == Poll::<
            Result<(), StreamError<E>>,
        >::Ready(Ok(())),
        read_contents::<E>(Poll::Ready(Ok(n)), before.overwrite(written)) == (Contents {
            filled: before.filled + written.take(n as int),
            unfilled: written.skip(n as int),
        }),
{
}

/// Two reads in a row deliver their bytes one behind the other.
pub proof fn reads_deliver_in_order<E>(
    before: Contents,
    first: Seq<u8>,
    n: usize,
    second: Seq<u8>,
    m: usize,
)
    requires
        first.len() == before.unfilled.len(),
        n <= first.len(),
        second.len() == first.len() - n,
        m <= second.len(),
    ensures
        ({
            let between = read_contents::<E>(Poll::Ready(Ok(n)), before.overwrite(first));
            let after = read_contents::<E>(Poll::Ready(Ok(m)), between.overwrite(second));
            &&& after.filled == before.filled + first.take(n as int) + second.take(m as int)
            &&& after.unfilled == second.skip(m as int)
        }),
{
}

/// A read into a cursor has to wait exactly where the transport has to wait, however much room
/// there is, and a read that waits changes nothing.
pub proof fn cursor_read_waits_with_the_transport<E>(
    cursor: &mut ReadBufCursor<'_>,
    polled: Poll<Result<usize, E>>,
    answer: Poll<Result<(), StreamError<E>>>,
)
    requires
        call_ensures(complete_read::<E>, (cursor, polled), answer),
    ensures
        answer is Pending <==> polled is Pending,
        polled is Pending ==> {
            &&& crate::cursor::filled(*final(cursor)) == crate::cursor::filled(*old(cursor))
            &&& crate::cursor::unfilled(*final(cursor)) == crate::cursor::unfilled(*old(cursor))
        },
{
}

/// A read into a cursor fails with an error of the transport exactly where the transport failed
/// with this very error, however much room there is, and it then changes nothing.
pub proof fn cursor_read_fails_with_the_transport<E>(
    cursor: &mut ReadBufCursor<'_>,
    polled: Poll<Result<usize, E>>,
    answer: Poll<Result<(), StreamError<E>>>,
    error: E,
)
    requires
        call_ensures(complete_read::<E>, (cursor, polled), answer),
    ensures
        answer == Poll::<Result<(), StreamError<E>>>::Ready(Err(StreamError::Transport(error)))
            <==> polled == Poll::<Result<usize, E>>::Ready(Err(error)),
        polled == Poll::<Result<usize, E>>::Ready(Err(error)) ==> {
            &&& crate::cursor::filled(*final(cursor)) == crate::cursor::filled(*old(cursor))
            &&& crate::cursor::unfilled(*final(cursor)) == crate::cursor::unfilled(*old(cursor))
        },
{
}

/// A read into a cursor succeeds exactly where the transport reports a number of bytes for which
/// there is room. Just so many bytes are then filled, and they are those that the transport left at
/// the start of the unfilled part; no byte behind them changes.
pub proof fn cursor_read_succeeds_with_the_transport<E>(
    cursor: &mut ReadBufCursor<'_>,
    polled: Poll<Result<usize, E>>,
    answer: Poll<Result<(), StreamError<E>>>,
)
    requires
        call_ensures(complete_read::<E>, (cursor, polled), answer),
    ensures
        answer is Ready && answer->0 is Ok <==> (polled matches Poll::Ready(Ok(n)) && n
            <= crate::cursor::unfilled(*old(cursor)).len()),
        answer is Ready && answer->0 is Ok ==> {
            &&& crate::cursor::filled(*final(cursor)).len() == crate::cursor::filled(
                *old(cursor),
            ).len() + (polled->0)->Ok_0
            &&& crate::cursor::filled(*final(cursor)) + crate::cursor::unfilled(*final(cursor))
                == crate::cursor::filled(*old(cursor)) + crate::cursor::unfilled(*old(cursor))
        },
{
    if let Poll::Ready(Ok(n)) = polled {
        let unfilled = crate::cursor::unfilled(*old(cursor));
        if n <= unfilled.len() {
            assert(unfilled.take(n as int) + unfilled.skip(n as int) =~= unfilled);
        }
    }
}

/// A read into a cursor raises an error of its own exactly where the transport reports more bytes
/// than there is room for. The error says so, and nothing changes.
pub proof fn cursor_read_raises_only_overreports<E>(
    cursor: &mut ReadBufCursor<'_>,
    polled: Poll<Result<usize, E>>,
    answer: Poll<Result<(), StreamError<E>>>,
)
    requires
        call_ensures(complete_read::<E>, (cursor, polled), answer),
    ensures
        (answer matches Poll::Ready(Err(StreamError::Raised { .. }))) <==> (polled matches Poll::Ready(
            Ok(n),
        ) && n > crate::cursor::unfilled(*old(cursor)).len()),
        answer matches Poll::Ready(Err(StreamError::Raised { kind, message })) ==> {
            &&& kind == ErrorKind::InvalidData
            &&& message@ == "stream reported more bytes than the read buffer can hold"@
            &&& crate::cursor::filled(*final(cursor)) == crate::cursor::filled(*old(cursor))
            &&& crate::cursor::unfilled(*final(cursor)) == crate::cursor::unfilled(*old(cursor))
        },
{
}

/// The answer to a read depends on nothing but the transport's answer and the room: the same for
/// two cursors with equal room, whatever their bytes are.
pub proof fn cursor_reads_agree_on_equal_room<E>(
    one: &mut ReadBufCursor<'_>,
    other: &mut ReadBufCursor<'_>,
    polled: Poll<Result<usize, E>>,
    one_answer: Poll<Result<(), StreamError<E>>>,
    other_answer: Poll<Result<(), StreamError<E>>>,
)
    requires
        call_ensures(complete_read::<E>, (one, polled), one_answer),
        call_ensures(complete_read::<E>, (other, polled), other_answer),
        crate::cursor::unfilled(*old(one)).len() == crate::cursor::unfilled(*old(other)).len(),
    ensures
        one_answer == other_answer,
{
}

/// Any other request has to wait exactly where the transport has to wait.
pub proof fn request_waits_with_the_transport<T, E>(
    polled: Poll<Result<T, E>>,
    answer: Poll<Result<T, StreamError<E>>>,
)
    requires
        call_ensures(complete_poll::<T, E>, (polled,), answer),
    ensures
        answer is Pending <==> polled is Pending,
{
}

/// Any other request succeeds with a value exactly where the transport succeeded with this value.
pub proof fn request_succeeds_with_the_transport<T, E>(
    polled: Poll<Result<T, E>>,
    answer: Poll<Result<T, StreamError<E>>>,
    value: T,
)
    requires
        call_ensures(complete_poll::<T, E>, (polled,), answer),
    ensures
        answer == Poll::<Result<T, StreamError<E>>>::Ready(Ok(value)) <==> polled == Poll::<
            Result<T, E>,
        >::Ready(Ok(value)),
{
}

/// Any other request fails with an error of the transport exactly where the transport failed with
/// this error, and it never raises one of its own.
pub proof fn request_fails_with_the_transport<T, E>(
    polled: Poll<Result<T, E>>,
    answer: Poll<Result<T, StreamError<E>>>,
    error: E,
)
    requires
        call_ensures(complete_poll::<T, E>, (polled,), answer),
    ensures
        answer == Poll::<Result<T, StreamError<E>>>::Ready(Err(StreamError::Transport(error)))
            <==> polled == Poll::<Result<T, E>>::Ready(Err(error)),
        !(answer matches Poll::Ready(Err(StreamError::Raised { .. }))),
{
}

/// Two answers of the transport that differ are answered differently: nothing of an answer is lost.
pub proof fn requests_tell_answers_apart<T, E>(
    one: Poll<Result<T, E>>,
    one_answer: Poll<Result<T, StreamError<E>>>,
    other: Poll<Result<T, E>>,
    other_answer: Poll<Result<T, StreamError<E>>>,
)
    requires
        call_ensures(complete_poll::<T, E>, (one,), one_answer),
        call_ensures(complete_poll::<T, E>, (other,), other_answer),
    ensures
        one_answer == other_answer <==> one == other,
{
}

} // verus!
