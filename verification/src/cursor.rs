//! The part of hyper's read cursor that a stream uses.
//!
//! A cursor stands in a bounded buffer. The bytes before it are filled. The bytes behind it are
//! not, and their number is what the buffer can still take.

use hyper::rt::ReadBufCursor;
use vstd::prelude::*;

verus! {

/// The cursor of hyper, which nothing here looks into.
#[verifier::external_type_specification]
#[verifier::external_body]
pub struct ExReadBufCursor<'buf>(ReadBufCursor<'buf>);

/// The bytes that are filled.
pub uninterp spec fn filled(cursor: ReadBufCursor<'_>) -> Seq<u8>;

/// The bytes that are not filled yet, up to the end of the buffer. A byte that was never
/// initialized counts as zero.
pub uninterp spec fn unfilled(cursor: ReadBufCursor<'_>) -> Seq<u8>;

/// [`ReadBufCursor::initialize_unfilled`] lends out the whole unfilled part of the buffer. It
/// writes a zero over each byte of it that was never initialized, and changes no other byte. It
/// does not move the cursor: what the borrower leaves in the slice is still unfilled. The borrower
/// can change the bytes of the slice, but not their number.
pub assume_specification<'buf, 'slice>[ ReadBufCursor::<'buf>::initialize_unfilled ](
    cursor: &'slice mut ReadBufCursor<'buf>,
) -> (slice: &'slice mut [u8])
    ensures
        slice@ == unfilled(*old(cursor)),
        final(slice)@.len() == slice@.len(),
        filled(*final(cursor)) == filled(*old(cursor)),
        unfilled(*final(cursor)) == final(slice)@,
;

/// [`ReadBufCursor::put_slice`] copies `src` to the start of the unfilled part and moves the
/// cursor behind it. It panics where `src` does not fit.
pub assume_specification<'buf>[ ReadBufCursor::<'buf>::put_slice ](
    cursor: &mut ReadBufCursor<'buf>,
    src: &[u8],
)
    requires
        src@.len() <= unfilled(*old(cursor)).len(),
    ensures
        filled(*final(cursor)) == filled(*old(cursor)) + src@,
        unfilled(*final(cursor)) == unfilled(*old(cursor)).skip(src@.len() as int),
;

/// What a buffer holds on either side of its cursor.
#[verifier::ext_equal]
pub struct Contents {
    /// The bytes before the cursor.
    pub filled: Seq<u8>,
    /// The bytes behind the cursor.
    pub unfilled: Seq<u8>,
}

impl Contents {
    /// The size of the buffer.
    pub open spec fn size(self) -> nat {
        self.filled.len() + self.unfilled.len()
    }

    /// The contents once the cursor has moved over the next `n` bytes.
    pub open spec fn advance(self, n: int) -> Contents {
        Contents { filled: self.filled + self.unfilled.take(n), unfilled: self.unfilled.skip(n) }
    }

    /// The contents once `bytes` have been written over the unfilled part.
    pub open spec fn overwrite(self, bytes: Seq<u8>) -> Contents {
        Contents { filled: self.filled, unfilled: bytes }
    }
}

/// What the buffer of `cursor` holds.
pub open spec fn contents(cursor: ReadBufCursor<'_>) -> Contents {
    Contents { filled: filled(cursor), unfilled: unfilled(cursor) }
}

} // verus!
