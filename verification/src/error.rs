//! Why a store request was turned down.

use vstd::prelude::*;

verus! {

/// The reasons for which a request fails. Each one ends the request before
/// anything is written.
#[derive(Clone, Copy, Debug, PartialEq, Eq, Structural)]
pub enum StoreError {
    /// The request names no account.
    MissingAccount,
    /// The first account belongs to another program.
    IncorrectOwner,
    /// The first account's data buffer has fewer than four bytes.
    BufferTooSmall,
    /// The instruction payload is not exactly four bytes long.
    MalformedPayload,
}

} // verus!
