//! The two instructions: create the record, and count one more ticket.
//!
//! Each instruction takes the accounts it was handed, decides whether the
//! request stands, and either applies it whole or leaves every account as it
//! found it. What it decides and what it leaves behind are given by the spec
//! functions `outcome` and `after` of the accounts, so that a sequence of
//! requests can be reasoned about without running any of them.

use vstd::prelude::*;
use crate::state::{Account, BaseAccount, ProgramError, Signer, SPACE};

verus! {

/// The accounts handed to `start_stuff_off`.
#[derive(Clone, Copy, Debug, PartialEq, Eq)]
pub struct StartStuffOff {
    /// The cell the record is to live in: `None` while nothing has been
    /// created there.
    pub base_account: Option<Account>,
    /// The party that pays for the cell.
    pub user: Signer,
    /// What the host charges for a cell of `SPACE` bytes.
    pub rent: u64,
}

/// The accounts handed to `buy_ticket`.
#[derive(Clone, Copy, Debug, PartialEq, Eq, Structural)]
pub struct BuyTicket {
    /// The cell that holds the record.
    pub base_account: Account,
}

impl StartStuffOff {
    /// Whether the request stands, and if not, why. The payer's rights are
    /// looked at first, then the cell and the payer's balance.
    pub open spec fn outcome(self) -> Result<(), ProgramError> {
        if !self.user.authorized() {
            Err(ProgramError::Unauthorized)
        } else if self.base_account.is_some() || self.user.lamports < self.rent {
            Err(ProgramError::AllocationFailed)
        } else {
            Ok(())
        }
    }

    /// The accounts once the request has been dealt with: on success a fresh
    /// cell with the counter at zero, else the accounts as they were. The
    /// payer and the rent are only ever read: charging the payer is the
    /// host's work.
    pub open spec fn after(self) -> StartStuffOff {
        if self.outcome().is_ok() {
            StartStuffOff { base_account: Some(Account::fresh()), user: self.user, rent: self.rent }
        } else {
            self
        }
    }
}

impl BuyTicket {
    /// Whether the request stands, and if not, why. The right to write is
    /// looked at first, then the room left in the counter.
    pub open spec fn outcome(self) -> Result<(), ProgramError> {
        if !self.base_account.is_writable {
            Err(ProgramError::Unauthorized)
        } else if self.base_account.data.total_tickets == u64::MAX {
            Err(ProgramError::Overflow)
        } else {
            Ok(())
        }
    }

    /// The accounts once the request has been dealt with: on success the same
    /// cell with the counter one higher, else the accounts as they were.
    pub open spec fn after(self) -> BuyTicket {
        if self.outcome().is_ok() {
            BuyTicket {
                base_account: Account {
                    is_writable: self.base_account.is_writable,
                    space: self.base_account.space,
                    data: BaseAccount {
                        total_tickets: (self.base_account.data.total_tickets + 1) as u64,
                    },
                },
            }
        } else {
            self
        }
    }
}

/// Creates the record and sets its counter to zero.
///
/// Turned down as `Unauthorized` when the payer did not sign or was not
/// passed as writable; otherwise as `AllocationFailed` when a cell already
/// exists or the payer's balance is below the rent. On success the cell is `SPACE` bytes
/// wide and writable and holds a counter of zero. A request that is turned
/// down changes nothing, and no request changes the payer or the rent: the
/// record is the only thing ever written.
pub fn start_stuff_off(ctx: &mut StartStuffOff) -> (r: Result<(), ProgramError>)
    ensures
        r == old(ctx).outcome(),
        *final(ctx) == old(ctx).after(),
        r.is_ok() ==> final(ctx).base_account == Some(Account::fresh()),
        r.is_ok() ==> final(ctx).base_account.unwrap().data.total_tickets == 0,
        r.is_err() ==> *final(ctx) == *old(ctx),
        final(ctx).user == old(ctx).user,
        final(ctx).rent == old(ctx).rent,
{
    if !(ctx.user.is_signer && ctx.user.is_writable) {
        return Err(ProgramError::Unauthorized);
    }
    if ctx.base_account.is_some() || ctx.user.lamports < ctx.rent {
        return Err(ProgramError::AllocationFailed);
    }
    ctx.base_account = Some(
        Account { is_writable: true, space: SPACE, data: BaseAccount { total_tickets: 0 } },
    );
    Ok(())
}

/// Counts one more ticket on the record.
///
/// Turned down as `Unauthorized` when the cell was not passed as writable;
/// otherwise as `Overflow` when the counter already stands at `u64::MAX`. On
/// success the counter is exactly one higher and nothing else has changed. A
/// request that is turned down changes nothing, so the counter never goes
/// down.
pub fn buy_ticket(ctx: &mut BuyTicket) -> (r: Result<(), ProgramError>)
    ensures
        r == old(ctx).outcome(),
        *final(ctx) == old(ctx).after(),
        r.is_ok() ==> final(ctx).base_account.data.total_tickets
            == old(ctx).base_account.data.total_tickets + 1,
        r.is_err() ==> *final(ctx) == *old(ctx),
        final(ctx).base_account.data.total_tickets >= old(ctx).base_account.data.total_tickets,
{
    if !ctx.base_account.is_writable {
        return Err(ProgramError::Unauthorized);
    }
    if ctx.base_account.data.total_tickets == u64::MAX {
        return Err(ProgramError::Overflow);
    }
    ctx.base_account.data.total_tickets = ctx.base_account.data.total_tickets + 1;
    Ok(())
}

} // verus!
