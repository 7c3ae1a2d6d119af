//! Outcomes of host operations, and the decoding of the host's outcome codes.

use vstd::prelude::*;
use crate::types::Address;

verus! {

/// Why a copy out of a host-owned buffer was refused.
#[derive(Debug, Clone, Copy, PartialEq, Eq)]
pub enum Error {
    /// The requested range reaches past the end of the source.
    OutOfBoundsCopy,
}

/// The outcome of a call into another contract.
#[derive(Debug, Clone, Copy, PartialEq, Eq)]
pub enum CallResult {
    Successful,
    Failure,
    Revert,
}

/// The outcome of creating a contract.  Only a successful creation carries
/// the address of the new contract.
#[derive(Debug, Clone, Copy, PartialEq, Eq)]
pub enum CreateResult {
    Successful(Address),
    Failure,
    Revert,
}

impl CallResult {
    /// Decodes the code the host returned from a call.
    ///
    /// The codes 0, 1 and 2 are the only ones the host interface defines.  Any
    /// other code is a breach of that interface and decodes to nothing, so
    /// that it can never pass for one of the three outcomes.
    pub fn from_code(code: u32) -> (res: Option<CallResult>)
        ensures
            code == 0 <==> res == Some(CallResult::Successful),
            code == 1 <==> res == Some(CallResult::Failure),
            code == 2 <==> res == Some(CallResult::Revert),
            code > 2 <==> res is None,
    {
        if code == 0 {
            Some(CallResult::Successful)
        } else if code == 1 {
            Some(CallResult::Failure)
        } else if code == 2 {
            Some(CallResult::Revert)
        } else {
            None
        }
    }
}

impl CreateResult {
    /// Decodes the code the host returned from a creation, together with the
    /// address slot the host was given to fill.
    ///
    /// The slot is read only when the code reports success.  A code outside
    /// 0, 1 and 2 is a breach of the host interface and decodes to nothing.
    pub fn from_code(code: u32, address: Address) -> (res: Option<CreateResult>)
        ensures
            code == 0 <==> res == Some(CreateResult::Successful(address)),
            code == 1 <==> res == Some(CreateResult::Failure),
            code == 2 <==> res == Some(CreateResult::Revert),
            code > 2 <==> res is None,
    {
        if code == 0 {
            Some(CreateResult::Successful(address))
        } else if code == 1 {
            Some(CreateResult::Failure)
        } else if code == 2 {
            Some(CreateResult::Revert)
        } else {
            None
        }
    }
}

} // verus!
