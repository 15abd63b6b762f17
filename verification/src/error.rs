//! Failures of a session with the terminal.

use vstd::prelude::*;

verus! {

/// `std::io::Error`, the failure of a channel. It is carried through as it
/// comes, and nothing is known of what it holds.
#[verifier::external_type_specification]
#[verifier::external_body]
pub struct ExIoError(std::io::Error);

/// Why an operation on the terminal failed.
#[derive(Debug)]
pub enum Error {
    /// A character has no videotex representation.
    Unmappable,
    /// A byte of an answer is not the one that the exchange calls for.
    ProtocolViolation,
    /// The awaited byte did not show up within the retry budget.
    Timeout,
    /// A byte, or a mark and its base, stands for no member of the set it was read for.
    UnknownCode,
    /// A speed answer carries a status byte that names no line rate.
    UnknownBaudrate,
    /// No candidate line rate got an answer.
    Exhausted,
    /// The channel itself failed.
    Io(std::io::Error),
}

} // verus!
