//! Descriptors: how failed system calls are reported, and which flags a descriptor gets.

use nix::fcntl::OFlag;
use vstd::prelude::*;

use crate::error::ErrorKind;

verus! {

/// A failed system call, as the `nix` crate tells it.
#[derive(Debug, Copy, Clone, PartialEq, Eq, Structural)]
pub enum NixError {
    /// The system's error number.
    Sys { errno: i32 },
    InvalidPath,
    InvalidUtf8,
    UnsupportedOperation,
}

/// A failed system call, as it is reported: by its sort alone, or by the system's error
/// number.
#[derive(Debug, Copy, Clone, PartialEq, Eq, Structural)]
pub enum IoError {
    Kind { kind: ErrorKind },
    Os { errno: i32 },
}

/// How `err` is reported, where `enotsup` is the system's number for an operation that is
/// not supported.
pub open spec fn io_error(err: NixError, enotsup: i32) -> IoError {
    match err {
        NixError::Sys { errno } => IoError::Os { errno },
        NixError::InvalidPath => IoError::Kind { kind: ErrorKind::InvalidInput },
        NixError::InvalidUtf8 => IoError::Kind { kind: ErrorKind::InvalidInput },
        NixError::UnsupportedOperation => IoError::Os { errno: enotsup },
    }
}

/// How `err` is reported, where `enotsup` is the system's number for an operation that is
/// not supported.
pub fn nix_error_to_io_error(err: NixError, enotsup: i32) -> (reported: IoError)
    ensures
        reported == io_error(err, enotsup),
{
    match err {
        NixError::InvalidUtf8 | NixError::InvalidPath => IoError::Kind {
            kind: ErrorKind::InvalidInput,
        },
        NixError::UnsupportedOperation => IoError::Os { errno: enotsup },
        NixError::Sys { errno } => IoError::Os { errno },
    }
}

/// What is left of the status flags `bits` without the bits that are not flags of an open
/// file on the platform that the library is built for.
pub uninterp spec fn known_flags(bits: i32) -> i32;

/// All the bits that are flags of an open file.
pub open spec fn all_flags() -> i32 {
    known_flags(!0i32)
}

/// Calls `OFlag::from_bits_truncate`, which drops the bits that do not correspond to flags:
/// it masks every value with the same bits, those of all flags. Which bits those are is
/// left unsaid: the platform settles it.
#[verifier::external_body]
fn truncate_flags(bits: i32) -> (kept: i32)
    ensures
        kept == known_flags(bits),
        kept == bits & all_flags(),
{
    OFlag::from_bits_truncate(bits).bits()
}

/// The status flags `kept` with the bits of `non_block` added.
pub fn add_non_block(kept: i32, non_block: i32) -> (set: i32)
    ensures
        set == kept | non_block,
{
    kept | non_block
}

/// The flags among `flags`, with `non_block` set.
pub open spec fn non_block_flags(flags: i32, non_block: i32) -> i32 {
    (flags & all_flags()) | non_block
}

/// The status flags that make a descriptor with the flags `flags` one that does not block,
/// where `non_block` is the flag that says so.
pub fn set_non_block(flags: i32, non_block: i32) -> (set: i32)
    ensures
        set == known_flags(flags) | non_block,
        set == non_block_flags(flags, non_block),
{
    add_non_block(truncate_flags(flags), non_block)
}

/// A failure that has a number is reported by that number, whatever the number; an operation
/// that is not supported is reported as a failure with the system's number for that; and a path
/// or text that will not do is reported as invalid input.
pub proof fn numbers_are_reported_as_they_are(errno: i32, enotsup: i32)
    ensures
        io_error(NixError::Sys { errno }, enotsup) == (IoError::Os { errno }),
        io_error(NixError::UnsupportedOperation, enotsup) == io_error(
            NixError::Sys { errno: enotsup },
            errno,
        ),
        io_error(NixError::InvalidPath, enotsup) == (IoError::Kind {
            kind: ErrorKind::InvalidInput,
        }),
        io_error(NixError::InvalidUtf8, enotsup) == io_error(NixError::InvalidPath, errno),
{
}

/// The flag is set, every flag that was there before is still there, and no other bit is set
/// that was not.
pub proof fn non_block_is_set(flags: i32, non_block: i32)
    ensures
        flags & all_flags() & !non_block_flags(flags, non_block) == 0,
        non_block_flags(flags, non_block) & !(all_flags() | non_block) == 0,
        non_block_flags(flags, non_block) & non_block == non_block,
        non_block_flags(flags, non_block) & !(flags | non_block) == 0,
{
    let all = all_flags();
    assert(flags & all & !((flags & all) | non_block) == 0) by (bit_vector);
    assert(((flags & all) | non_block) & !(all | non_block) == 0) by (bit_vector);
    assert(((flags & all) | non_block) & non_block == non_block) by (bit_vector);
    assert(((flags & all) | non_block) & !(flags | non_block) == 0) by (bit_vector);
}

/// A descriptor that has been made one that does not block keeps its flags when that is done
/// again.
pub proof fn non_block_twice_is_once(flags: i32, non_block: i32)
    ensures
        non_block_flags(non_block_flags(flags, non_block), non_block) == non_block_flags(
            flags,
            non_block,
        ),
{
    let all = all_flags();
    assert((((flags & all) | non_block) & all) | non_block == (flags & all) | non_block)
        by (bit_vector);
}

} // verus!
