//! What holds of every run of the instructions, proved over their `outcome`
//! and `after`.

use vstd::prelude::*;
use crate::instructions::{BuyTicket, StartStuffOff};
use crate::state::{Account, ProgramError};

verus! {

impl BuyTicket {
    /// The accounts after `n` requests in a row, each made on what the one
    /// before left behind.
    pub open spec fn after_n(self, n: nat) -> BuyTicket
        decreases n,
    {
        if n == 0 {
            self
        } else {
            self.after_n((n - 1) as nat).after()
        }
    }

    /// Every one of the first `n` requests in a row stands.
    pub open spec fn all_ok(self, n: nat) -> bool
        decreases n,
    {
        n == 0 || (self.all_ok((n - 1) as nat) && self.after_n((n - 1) as nat).outcome().is_ok())
    }
}

/// A request that stands leaves a record whose counter is exactly zero.
pub proof fn lemma_start_sets_zero(ctx: StartStuffOff)
    requires
        ctx.outcome().is_ok(),
    ensures
        ctx.after().base_account.is_some(),
        ctx.after().base_account.unwrap().data.total_tickets == 0,
{
}

/// Whether or not the request stands, the payer and the rent are left exactly
/// as they came: the record is the only thing a request ever writes.
pub proof fn lemma_start_writes_only_the_record(ctx: StartStuffOff)
    ensures
        ctx.after().user == ctx.user,
        ctx.after().rent == ctx.rent,
        ctx.outcome().is_err() ==> ctx.after().base_account == ctx.base_account,
{
}

/// Once a cell exists, every further request to create it is turned down and
/// changes nothing, whoever pays and whatever the rent. From a payer with the
/// right to pay, the reason given is `AllocationFailed`.
pub proof fn lemma_start_twice_rejected(first: StartStuffOff, second: StartStuffOff)
    requires
        first.outcome().is_ok(),
        second.base_account == first.after().base_account,
    ensures
        second.outcome().is_err(),
        second.after() == second,
        second.user.authorized() ==> second.outcome() == Err::<(), ProgramError>(
            ProgramError::AllocationFailed,
        ),
        first.after().outcome() == Err::<(), ProgramError>(ProgramError::AllocationFailed),
{
}

/// `n` requests in a row all stand exactly when there are none, or the cell
/// is writable and the counter has room for `n` more. When they do, the
/// counter has gone up by exactly `n` and nothing else has changed.
pub proof fn lemma_buy_n(ctx: BuyTicket, n: nat)
    ensures
        ctx.all_ok(n) <==> (n == 0 || (ctx.base_account.is_writable
            && ctx.base_account.data.total_tickets + n <= u64::MAX)),
        ctx.all_ok(n) ==> ctx.after_n(n).base_account.data.total_tickets
            == ctx.base_account.data.total_tickets + n,
        ctx.after_n(n).base_account.is_writable == ctx.base_account.is_writable,
        ctx.after_n(n).base_account.space == ctx.base_account.space,
    decreases n,
{
    if n > 0 {
        lemma_buy_n(ctx, (n - 1) as nat);
    }
}

/// After the record is created and `n` purchases in a row have all stood, the
/// counter is exactly `n`.
pub proof fn lemma_count_after_start(start: StartStuffOff, n: nat)
    requires
        start.outcome().is_ok(),
        (BuyTicket { base_account: start.after().base_account.unwrap() }).all_ok(n),
    ensures
        (BuyTicket { base_account: start.after().base_account.unwrap() }).after_n(
            n,
        ).base_account.data.total_tickets == n,
{
    lemma_buy_n(BuyTicket { base_account: Account::fresh() }, n);
}

/// However many requests are made, and whether or not they stand, the counter
/// never ends below where it began.
pub proof fn lemma_counter_never_decreases(ctx: BuyTicket, n: nat)
    ensures
        ctx.after_n(n).base_account.data.total_tickets >= ctx.base_account.data.total_tickets,
    decreases n,
{
    if n > 0 {
        lemma_counter_never_decreases(ctx, (n - 1) as nat);
    }
}

} // verus!
