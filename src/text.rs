//! UTF-8 checking of the bytes of a foreign text buffer.

use vstd::prelude::*;
use vstd::utf8::*;

verus! {

/// The first `k` bytes of `b` are the longest prefix of `b` that is
/// well-formed UTF-8.
pub open spec fn longest_valid_prefix(b: Seq<u8>, k: int) -> bool {
    &&& 0 <= k <= b.len()
    &&& valid_utf8(b.subrange(0, k))
    &&& forall|j: int| k < j <= b.len() ==> !#[trigger] valid_utf8(b.subrange(0, j))
}

/// Why a byte sequence is not UTF-8 text.
#[derive(Clone, Copy, Debug, PartialEq, Eq, Structural)]
pub struct TextEncodingError {
    /// Length of the longest well-formed prefix: the offset of the first
    /// malformed sequence.
    pub valid_up_to: usize,
    /// Length of the malformed sequence at that offset, or `None` where the
    /// input ends in the middle of a sequence.
    pub error_len: Option<usize>,
}

impl TextEncodingError {
    /// The error accounts for `b` not being UTF-8: it gives the longest valid
    /// prefix, and either the length of the malformed sequence that follows or
    /// `None` where only 1 to 3 bytes of an unfinished sequence follow.
    pub open spec fn describes_failure_of(&self, b: Seq<u8>) -> bool {
        &&& longest_valid_prefix(b, self.valid_up_to as int)
        &&& self.error_len matches Some(n) ==> 1 <= n && self.valid_up_to + n <= b.len()
        &&& self.error_len is None ==> b.len() - 3 <= self.valid_up_to < b.len()
    }
}

/// Relies on `core::str::from_utf8`, and on `Utf8Error::valid_up_to` and
/// `Utf8Error::error_len` to carry its error over: `Ok` exactly for
/// well-formed UTF-8; otherwise the longest valid prefix, and either the
/// length of the bad sequence after it or `None` with 1 to 3 bytes left.
#[verifier::external_body]
pub(crate) fn check_utf8(b: &[u8]) -> (r: Result<(), TextEncodingError>)
    ensures
        r is Ok <==> valid_utf8(b@),
        r matches Err(e) ==> e.describes_failure_of(b@),
{
    match core::str::from_utf8(b) {
        Ok(_) => Ok(()),
        Err(e) => Err(TextEncodingError { valid_up_to: e.valid_up_to(), error_len: e.error_len() }),
    }
}

} // verus!
