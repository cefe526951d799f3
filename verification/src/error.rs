//! Diagnostics.  A single uniform representation covers lexical errors
//! (malformed tokens) and syntactic errors (grammar violations): a message,
//! the byte offset of the problem, and the length of the offending span.
//!
//! Errors are accumulated, never raised: every parse yields a best-effort
//! tree together with a (possibly empty) ordered error list.

use vstd::prelude::*;

verus! {

/// One diagnostic: a message and the byte span it refers to.
#[derive(Debug, Clone, PartialEq, Eq, Hash)]
pub struct Error {
    pub message: String,
    pub offset: u32,
    pub length: u32,
}

impl Error {
    /// An error is well formed for a source of length `src_len` when its
    /// span lies inside the source: `0 <= offset <= offset + length <=
    /// src_len`.
    pub open spec fn wf(self, src_len: int) -> bool {
        self.offset + self.length <= src_len
    }

    /// Build an error for the given span.
    pub fn new(message: String, offset: u32, length: u32) -> (r: Error)
        ensures
            r.message@ == message@,
            r.offset == offset,
            r.length == length,
    {
        Error { message, offset, length }
    }
}

/// Every error in the first `n` is well formed for a source of length
/// `src_len`.
pub open spec fn errors_wf(s: Seq<Error>, src_len: int) -> bool {
    forall|i: int| 0 <= i < s.len() ==> #[trigger] s[i].wf(src_len)
}

} // verus!
