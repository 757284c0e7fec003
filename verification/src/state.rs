//! The persisted record and the plain-value picture of the accounts around it.
//!
//! The host runtime owns addresses, balances and access flags. The instructions
//! only ever read a handful of those facts, so each account is modelled by the
//! facts that matter: whether it may be written, whether its owner signed, what
//! it holds.

use vstd::prelude::*;

verus! {

/// Bytes reserved for the record when it is created. Far more than the one
/// counter needs; kept so that existing deployments stay readable.
pub const SPACE: u64 = 9000;

/// The record: how many tickets have been bought so far.
#[derive(Clone, Copy, Debug, PartialEq, Eq, Structural)]
pub struct BaseAccount {
    pub total_tickets: u64,
}

/// A handle to the storage cell that holds the record.
#[derive(Clone, Copy, Debug, PartialEq, Eq, Structural)]
pub struct Account {
    /// Whether the caller passed the cell as writable.
    pub is_writable: bool,
    /// Bytes reserved for the cell.
    pub space: u64,
    /// The record stored in the cell.
    pub data: BaseAccount,
}

/// The party that pays for a new cell.
#[derive(Clone, Copy, Debug, PartialEq, Eq, Structural)]
pub struct Signer {
    /// Whether this party signed the request.
    pub is_signer: bool,
    /// Whether the caller passed this party as writable, so that the host
    /// may charge it.
    pub is_writable: bool,
    /// The party's balance. The instructions read it and never change it.
    pub lamports: u64,
}

/// Why a request was turned down. A request that is turned down changes
/// nothing.
#[derive(Clone, Copy, Debug, PartialEq, Eq, Structural)]
pub enum ProgramError {
    /// The cell could not be created: one already exists at that place, or
    /// the payer cannot afford it.
    AllocationFailed,
    /// The caller lacks the right to make the change: the payer did not sign
    /// or was not passed as writable, or the record was not passed as
    /// writable.
    Unauthorized,
    /// The counter already stands at the largest value a `u64` can hold.
    Overflow,
}

impl Account {
    /// The cell as it stands right after it was created: writable, `SPACE`
    /// bytes wide, counter at zero.
    pub open spec fn fresh() -> Account {
        Account { is_writable: true, space: SPACE, data: BaseAccount { total_tickets: 0 } }
    }
}

impl Signer {
    /// The payer signed and was passed as writable.
    pub open spec fn authorized(self) -> bool {
        self.is_signer && self.is_writable
    }
}

} // verus!
