use vstd::prelude::*;

use crate::address::Address;
use crate::errors::Error;

verus! {

/// The ledger collaborator's reply to a point-in-time balance read.
#[derive(Debug, PartialEq, Eq, Clone, Copy)]
pub enum LedgerReply {
    /// The account's balance at the requested time.
    Amount { amount: u128 },
    /// The account never appeared in the ledger at or before the requested
    /// time (distinguished from a balance of zero).
    NotFound,
    /// The requested time exceeds the ledger's current finalized chain time.
    NotFinalized,
    /// The ledger could not be reached.
    Unavailable,
}

/// A validated point-in-time balance: an address, its non-negative amount,
/// and the chain time the amount was read at. Immutable once produced, and
/// produced only by `query_balance_at`.
#[derive(Debug, PartialEq, Eq)]
pub struct BalanceSnapshot {
    address: Address,
    amount: u128,
    as_of: u64,
}

impl BalanceSnapshot {
    /// The bytes of the address the snapshot belongs to.
    pub closed spec fn spec_address(&self) -> Seq<u8> {
        self.address@
    }

    /// The balance amount.
    pub closed spec fn spec_amount(&self) -> u128 {
        self.amount
    }

    /// The chain time the balance was read at.
    pub closed spec fn spec_as_of(&self) -> u64 {
        self.as_of
    }

    /// The address the snapshot belongs to.
    pub fn address(&self) -> (r: &Address)
        ensures
            r@ == self.spec_address(),
    {
        &self.address
    }

    /// The balance amount.
    pub fn amount(&self) -> (r: u128)
        ensures
            r == self.spec_amount(),
    {
        self.amount
    }

    /// The chain time the balance was read at.
    pub fn as_of(&self) -> (r: u64)
        ensures
            r == self.spec_as_of(),
    {
        self.as_of
    }
}

/// Validates the ledger's reply to a balance read of `address` at exactly
/// `time` and produces the snapshot. The read itself is a single attempt
/// performed by the caller; nothing is retried here, since re-querying is
/// the caller's decision. A reply that the time is not finalized is
/// surfaced as `TimeNotYetFinalized` (retryable once chain time advances),
/// an absent account as `AccountNotFound` with the address, and a
/// connectivity failure as `TransportUnavailable`.
pub fn query_balance_at(address: Address, time: u64, reply: LedgerReply) -> (r: Result<
    BalanceSnapshot,
    Error,
>)
    ensures
        r is Ok <==> reply is Amount,
        reply matches LedgerReply::Amount { amount } ==> ({
            &&& r matches Ok(s)
            &&& s.spec_address() == address@
            &&& s.spec_amount() == amount
            &&& s.spec_as_of() == time
        }),
        reply is NotFound ==> r == Err::<BalanceSnapshot, Error>(
            (Error::AccountNotFound { address }),
        ),
        reply is NotFinalized ==> r == Err::<BalanceSnapshot, Error>(
            (Error::TimeNotYetFinalized { address, requested: time }),
        ),
        reply is Unavailable ==> r == Err::<BalanceSnapshot, Error>(Error::TransportUnavailable),
{
    match reply {
        LedgerReply::Amount { amount } => Ok(BalanceSnapshot { address, amount, as_of: time }),
        LedgerReply::NotFound => Err(Error::AccountNotFound { address }),
        LedgerReply::NotFinalized => Err(Error::TimeNotYetFinalized { address, requested: time }),
        LedgerReply::Unavailable => Err(Error::TransportUnavailable),
    }
}

} // verus!
