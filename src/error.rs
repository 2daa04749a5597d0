//! The library's errors.
use vstd::prelude::*;

verus! {

/// Why a step of a connection failed.
#[derive(PartialEq, Eq, Structural, Clone, Copy, Debug)]
pub enum Error {
    /// The transport failed: the connection is lost.
    NetworkError,
    /// A line was not one of the protocol's commands.
    SerdeError,
    /// The transport delivered something that is not a line of text.
    CodecError,
}

} // verus!
