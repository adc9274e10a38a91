//! The in-memory stream of the `mockstream` crate: bytes pushed to be read
//! come out of its reads in order, and bytes written to it pile up until they
//! are popped.
use vstd::prelude::*;

use mockstream::MockStream;

verus! {

#[verifier::external_type_specification]
#[verifier::external_body]
pub struct ExMockStream(MockStream);

/// The bytes written to a stream and not yet popped.
pub uninterp spec fn mock_written(s: MockStream) -> Seq<u8>;

/// The bytes pushed to a stream and not yet read.
pub uninterp spec fn mock_unread(s: MockStream) -> Seq<u8>;

/// `MockStream::new` makes a stream with nothing to read and nothing written.
pub assume_specification[ MockStream::new ]() -> (s: MockStream)
    ensures
        mock_written(s) == Seq::<u8>::empty(),
        mock_unread(s) == Seq::<u8>::empty(),
;

/// `MockStream::push_bytes_to_read` appends the bytes to those still to be
/// read; what was written is untouched.
pub assume_specification[ MockStream::push_bytes_to_read ](s: &mut MockStream, bytes: &[u8])
    ensures
        mock_unread(*final(s)) == mock_unread(*old(s)) + bytes@,
        mock_written(*final(s)) == mock_written(*old(s)),
;

/// `MockStream::pop_bytes_written` hands out every byte written since the last
/// pop and empties the written buffer; what is still to be read is untouched.
pub assume_specification[ MockStream::pop_bytes_written ](s: &mut MockStream) -> (r: Vec<u8>)
    ensures
        r@ == mock_written(*old(s)),
        mock_written(*final(s)) == Seq::<u8>::empty(),
        mock_unread(*final(s)) == mock_unread(*old(s)),
;

} // verus!
