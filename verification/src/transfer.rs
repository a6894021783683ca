//! Which amounts move between the escrow's custody and the parties.

use vstd::prelude::*;
use crate::types::{Address, EscrowRecord, Holder, Transfer};

verus! {

/// The movement of the principal out of custody to the record's target.
pub open spec fn principal_payout(record: EscrowRecord) -> Transfer {
    Transfer {
        asset: record.asset,
        from: Holder::Custody,
        to: Holder::Party(record.target_address),
        amount: record.amount,
    }
}

/// The movement of the safety deposit out of custody to `recipient`.
pub open spec fn deposit_payout(record: EscrowRecord, recipient: Address) -> Transfer {
    Transfer {
        asset: record.asset,
        from: Holder::Custody,
        to: Holder::Party(recipient),
        amount: record.safety_deposit,
    }
}

/// The movement of the principal out of custody back to the party that the
/// role of the record names.
pub open spec fn principal_refund(record: EscrowRecord) -> Transfer {
    Transfer {
        asset: record.asset,
        from: Holder::Custody,
        to: Holder::Party(record.return_address()),
        amount: record.amount,
    }
}

/// The movement of the principal into custody, from the party that would get
/// it back on cancellation.
pub open spec fn principal_lock(record: EscrowRecord) -> Transfer {
    Transfer {
        asset: record.asset,
        from: Holder::Party(record.return_address()),
        to: Holder::Custody,
        amount: record.amount,
    }
}

/// The movement of the safety deposit into custody, from the counterparty.
pub open spec fn deposit_lock(record: EscrowRecord) -> Transfer {
    Transfer {
        asset: record.asset,
        from: Holder::Party(record.counterparty),
        to: Holder::Custody,
        amount: record.safety_deposit,
    }
}

/// Whether the record is destination-side: its target is its owner.
pub fn is_destination_side(record: &EscrowRecord) -> (r: bool)
    ensures
        r == record.destination_side(),
{
    record.target_address.same_as(&record.owner)
}

/// The party that the principal returns to on cancellation: the counterparty
/// of a destination-side record, the owner of a source-side one.
pub fn return_address(record: &EscrowRecord) -> (r: Address)
    ensures
        r == record.return_address(),
        record.target_address == record.owner ==> r == record.counterparty,
        record.target_address != record.owner ==> r == record.owner,
{
    if is_destination_side(record) {
        record.counterparty
    } else {
        record.owner
    }
}

/// Moves the principal from custody to the target address.
pub fn payout_principal(record: &EscrowRecord) -> (t: Transfer)
    ensures
        t == principal_payout(*record),
{
    Transfer {
        asset: record.asset,
        from: Holder::Custody,
        to: Holder::Party(record.target_address),
        amount: record.amount,
    }
}

/// Moves the safety deposit from custody to `recipient`.
pub fn payout_safety_deposit(record: &EscrowRecord, recipient: Address) -> (t: Transfer)
    ensures
        t == deposit_payout(*record, recipient),
{
    Transfer {
        asset: record.asset,
        from: Holder::Custody,
        to: Holder::Party(recipient),
        amount: record.safety_deposit,
    }
}

/// Moves the principal from custody back to the return address.
pub fn refund_principal(record: &EscrowRecord) -> (t: Transfer)
    ensures
        t == principal_refund(*record),
        record.target_address == record.owner ==> t.to == Holder::Party(record.counterparty),
        record.target_address != record.owner ==> t.to == Holder::Party(record.owner),
{
    Transfer {
        asset: record.asset,
        from: Holder::Custody,
        to: Holder::Party(return_address(record)),
        amount: record.amount,
    }
}

/// Moves the principal into custody when the escrow is created.
pub fn lock_principal(record: &EscrowRecord) -> (t: Transfer)
    ensures
        t == principal_lock(*record),
{
    Transfer {
        asset: record.asset,
        from: Holder::Party(return_address(record)),
        to: Holder::Custody,
        amount: record.amount,
    }
}

/// Moves the safety deposit into custody when a destination-side escrow is
/// created.
pub fn lock_safety_deposit(record: &EscrowRecord) -> (t: Transfer)
    ensures
        t == deposit_lock(*record),
{
    Transfer {
        asset: record.asset,
        from: Holder::Party(record.counterparty),
        to: Holder::Custody,
        amount: record.safety_deposit,
    }
}

} // verus!
