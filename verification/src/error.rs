//! The ways a decode can fail.

use vstd::prelude::*;

verus! {

/// Every fallible step of the decoder reports one of these kinds.
///
/// The first three mark structural corruption of the input bytes; the last,
/// `UnsupportedFormat`, is a normal outcome for well-formed files whose
/// variant (non-IEEE floats, several subfiles, per-subfile X arrays) this
/// decoder deliberately does not turn into vectors.  Callers batch-processing
/// many files are expected to report the error and move on.
#[derive(Debug, PartialEq, Eq, Structural, Clone, Copy)]
pub enum DecodeError {
    /// The buffer ends before a field or an array is complete.
    Truncated,
    /// The version byte is neither of the two known values.
    UnknownVersion,
    /// An X/Y/Z unit byte falls outside its closed code table.
    UnknownUnitCode,
    /// A structurally valid file of a variant not decoded into vectors.
    UnsupportedFormat,
}

} // verus!
