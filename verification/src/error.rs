//! The errors a parse can end in. Serialisation is total and has no error.

use vstd::prelude::*;

verus! {

/// Why a parse failed. Every failure is returned to the caller as a value;
/// no entry point of the library panics.
///
/// In the variants that carry lengths, `expected` is the number of bytes the
/// failing check needed and `actual` the number it found.
#[derive(Debug, PartialEq, Eq, Clone, Copy)]
pub enum ProtocolError {
    /// The buffer holds no bytes at all, so not even a command tag can be read.
    EmptyBuffer,
    /// The buffer starts with the read-command tag but is shorter than a
    /// read-request header.
    ReadHeaderTooShort { expected: usize, actual: usize },
    /// The buffer starts with the write-command tag but is shorter than a
    /// write-request header.
    WriteHeaderTooShort { expected: usize, actual: usize },
    /// A write frame's declared lengths ask for more payload bytes than the
    /// buffer holds, either because the buffer is shorter than the declared
    /// total length or because the declared payload overruns the buffer.
    PayloadTooShort { expected: usize, actual: usize },
    /// A field decode was asked to read past the end of its source slice.
    /// The header parsers check lengths first, so they never return this.
    MalformedFieldWidth,
}

} // verus!
