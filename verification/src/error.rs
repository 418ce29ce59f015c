//! What sort of failure is reported.

use vstd::prelude::*;

verus! {

/// The sorts of I/O failure that the proxy reports or tells apart. Every sort that has no
/// variant of its own counts as `Other`.
#[derive(Debug, Clone, Copy, PartialEq, Eq, Structural)]
pub enum ErrorKind {
    InvalidInput,
    ConnectionAborted,
    WouldBlock,
    Other,
}

} // verus!
