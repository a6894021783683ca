//! The decisions of the escrow state machine on one record.
//!
//! Every terminating operation runs the same checks in the same order: the
//! record exists, it is not completed, the phase is the required one, the
//! caller may act, and, for claims, the secret opens the hashlock. The first
//! check that fails names the error.

use vstd::prelude::*;
use crate::hashlock::{digest_matches, Preimage};
use crate::timelock::{classify, derived, phase_at};
use crate::transfer::{
    deposit_lock, deposit_payout, is_destination_side, lock_principal, lock_safety_deposit,
    payout_principal, payout_safety_deposit, principal_lock, principal_payout, principal_refund,
    refund_principal,
};
use crate::types::{
    Address, Caller, EscrowConfig, EscrowError, EscrowRecord, EscrowTerms, Event, Phase,
    Settlement,
};

verus! {

/// The four operations that bring an escrow to its end.
#[derive(Clone, Copy, Debug, PartialEq, Eq, Structural)]
pub enum Operation {
    ClaimExclusive,
    ClaimPublic,
    CancelExclusive,
    CancelPublic,
}

impl Operation {
    /// Claims release the principal to the target; the others refund it.
    pub open spec fn is_claim(self) -> bool {
        self == Operation::ClaimExclusive || self == Operation::ClaimPublic
    }

    /// Exclusive operations are open to the original counterparty alone.
    pub open spec fn is_exclusive(self) -> bool {
        self == Operation::ClaimExclusive || self == Operation::CancelExclusive
    }
}

/// The error, if any, of asking for `op` while the escrow is in `phase`.
pub open spec fn phase_error(op: Operation, phase: Phase) -> Option<EscrowError> {
    match op {
        Operation::ClaimExclusive => match phase {
            Phase::Finality => Some(EscrowError::FinalityLockActive),
            Phase::Exclusive => None,
            Phase::PublicWithdraw => Some(EscrowError::ExclusivePeriodExpired),
            Phase::Cancellable => Some(EscrowError::ExclusivePeriodExpired),
        },
        Operation::ClaimPublic => match phase {
            Phase::Finality => Some(EscrowError::FinalityLockActive),
            Phase::Exclusive => Some(EscrowError::OnlyResolver),
            Phase::PublicWithdraw => None,
            Phase::Cancellable => Some(EscrowError::CancellationNotAllowed),
        },
        Operation::CancelExclusive => match phase {
            Phase::Cancellable => None,
            _ => Some(EscrowError::CancellationNotAllowed),
        },
        Operation::CancelPublic => match phase {
            Phase::Cancellable => None,
            _ => Some(EscrowError::CancellationNotAllowed),
        },
    }
}

/// Whether `now` lies in the grace window that opens at `cancellation_end`
/// and lasts `grace`, in which a public cancellation is still reserved to the
/// counterparty.
pub open spec fn in_grace(record: EscrowRecord, now: u64, grace: u64) -> bool {
    record.cancellation_end <= now < record.cancellation_end + grace
}

/// Whether `op` at `now` is open to the original counterparty alone.
pub open spec fn reserved(op: Operation, record: EscrowRecord, now: u64, grace: u64) -> bool {
    op.is_exclusive() || (op == Operation::CancelPublic && in_grace(record, now, grace))
}

/// The error, if any, of `caller` asking for `op`: a stranger where the
/// operation is reserved, or a caller whose authorization is not established.
pub open spec fn caller_error(
    op: Operation,
    record: EscrowRecord,
    now: u64,
    caller: Caller,
    grace: u64,
) -> Option<EscrowError> {
    if reserved(op, record, now, grace) && caller.address != record.counterparty {
        Some(EscrowError::OnlyResolver)
    } else if !caller.authorized {
        Some(EscrowError::Unauthorized)
    } else {
        None
    }
}

/// The first four checks, in their fixed order: existence, completion, phase,
/// caller. The record comes back where all of them pass.
pub open spec fn screened(
    op: Operation,
    record: Option<EscrowRecord>,
    now: u64,
    caller: Caller,
    grace: u64,
) -> Result<EscrowRecord, EscrowError> {
    match record {
        None => Err(EscrowError::NotFound),
        Some(rec) => {
            if rec.completed {
                Err(EscrowError::AlreadyCompleted)
            } else {
                match phase_error(
                    op,
                    phase_at(now, rec.finality_end, rec.exclusive_end, rec.cancellation_end),
                ) {
                    Some(e) => Err(e),
                    None => match caller_error(op, rec, now, caller, grace) {
                        Some(e) => Err(e),
                        None => Ok(rec),
                    },
                }
            }
        },
    }
}

/// The party that the safety deposit goes to: the original counterparty for
/// an exclusive operation, the acting caller for a public one.
pub open spec fn deposit_recipient(op: Operation, record: EscrowRecord, actor: Address) -> Address {
    if op.is_exclusive() {
        record.counterparty
    } else {
        actor
    }
}

/// What a successful claim by `actor` with `secret` comes to.
pub open spec fn claimed(
    op: Operation,
    record: EscrowRecord,
    actor: Address,
    secret: [u8; 32],
) -> Settlement {
    Settlement {
        record: record.closed(),
        principal: principal_payout(record),
        deposit: Some(deposit_payout(record, deposit_recipient(op, record, actor))),
        event: if op.is_exclusive() {
            Event::ClaimedExclusive { actor, secret }
        } else {
            Event::ClaimedPublic { actor, secret }
        },
    }
}

/// What a successful cancellation by `actor` comes to.
pub open spec fn cancelled(op: Operation, record: EscrowRecord, actor: Address) -> Settlement {
    Settlement {
        record: record.closed(),
        principal: principal_refund(record),
        deposit: Some(deposit_payout(record, deposit_recipient(op, record, actor))),
        event: if op.is_exclusive() {
            Event::CancelledExclusive { actor }
        } else {
            Event::CancelledPublic { actor }
        },
    }
}

/// The outcome of `op` on `record` at `now`, asked for by `caller`, with the
/// preimage that the caller's secret gave, if it had the right width.
pub open spec fn outcome(
    op: Operation,
    record: Option<EscrowRecord>,
    now: u64,
    caller: Caller,
    grace: u64,
    preimage: Option<Preimage>,
) -> Result<Settlement, EscrowError> {
    match screened(op, record, now, caller, grace) {
        Err(e) => Err(e),
        Ok(rec) => {
            if op.is_claim() {
                match preimage {
                    Some(p) => {
                        if p.digest == rec.hashlock {
                            Ok(claimed(op, rec, caller.address, p.secret))
                        } else {
                            Err(EscrowError::InvalidSecret)
                        }
                    },
                    None => Err(EscrowError::InvalidSecret),
                }
            } else {
                Ok(cancelled(op, rec, caller.address))
            }
        },
    }
}

/// The record that `terms` open at `now`, or the first error of validating
/// them: the amount, then the safety deposit, then the durations.
pub open spec fn opened(terms: EscrowTerms, now: u64, config: EscrowConfig) -> Result<
    EscrowRecord,
    EscrowError,
> {
    if terms.amount <= 0 {
        Err(EscrowError::InvalidAmount)
    } else if terms.safety_deposit <= 0 || terms.safety_deposit < config.min_safety_deposit {
        Err(EscrowError::InsufficientSafetyDeposit)
    } else {
        match derived(
            now,
            terms.finality_duration,
            terms.exclusive_duration,
            terms.cancellation_duration,
        ) {
            Err(e) => Err(e),
            Ok(t) => Ok(
                EscrowRecord {
                    id: terms.id,
                    owner: terms.owner,
                    counterparty: terms.counterparty,
                    target_address: terms.target_address,
                    amount: terms.amount,
                    safety_deposit: terms.safety_deposit,
                    asset: terms.asset,
                    hashlock: terms.hashlock,
                    finality_end: t.finality_end,
                    exclusive_end: t.exclusive_end,
                    cancellation_end: t.cancellation_end,
                    completed: false,
                },
            ),
        }
    }
}

/// What the creation of `record` comes to: the principal moves into custody,
/// for a destination-side record the safety deposit too.
pub open spec fn created(record: EscrowRecord) -> Settlement {
    Settlement {
        record,
        principal: principal_lock(record),
        deposit: if record.destination_side() {
            Some(deposit_lock(record))
        } else {
            None
        },
        event: if record.destination_side() {
            Event::DestinationCreated {
                owner: record.owner,
                counterparty: record.counterparty,
                amount: record.amount,
                safety_deposit: record.safety_deposit,
            }
        } else {
            Event::SourceCreated {
                owner: record.owner,
                counterparty: record.counterparty,
                amount: record.amount,
                safety_deposit: record.safety_deposit,
            }
        },
    }
}

/// The outcome of asking for a creation with `terms` at `now`, where
/// `last_nonce` is the last nonce of the owner and `taken` says whether a
/// record lies under the identifier already.
///
/// The checks run in this order: the counterparty's authorization, the
/// owner's nonce, the amount, the safety deposit, the durations, and that the
/// identifier is free. The first that fails names the error.
pub open spec fn creation(
    terms: EscrowTerms,
    now: u64,
    config: EscrowConfig,
    authorized: bool,
    last_nonce: u64,
    taken: bool,
) -> Result<Settlement, EscrowError> {
    if !authorized {
        Err(EscrowError::Unauthorized)
    } else if terms.nonce <= last_nonce {
        Err(EscrowError::InvalidNonce)
    } else {
        match opened(terms, now, config) {
            Err(e) => Err(e),
            Ok(record) => {
                if taken {
                    Err(EscrowError::AlreadyExists)
                } else {
                    Ok(created(record))
                }
            },
        }
    }
}

/// Validates `terms` and derives the record that they open at `now`.
pub fn open_escrow(terms: &EscrowTerms, now: u64, config: &EscrowConfig) -> (r: Result<
    EscrowRecord,
    EscrowError,
>)
    ensures
        r == opened(*terms, now, *config),
        r matches Ok(rec) ==> rec.is_valid() && !rec.completed && rec.id == terms.id && now
            <= rec.finality_end,
{
    if terms.amount <= 0 {
        return Err(EscrowError::InvalidAmount);
    }
    if terms.safety_deposit <= 0 || terms.safety_deposit < config.min_safety_deposit {
        return Err(EscrowError::InsufficientSafetyDeposit);
    }
    match crate::timelock::derive(
        now,
        terms.finality_duration,
        terms.exclusive_duration,
        terms.cancellation_duration,
    ) {
        Err(e) => Err(e),
        Ok(t) => Ok(
            EscrowRecord {
                id: terms.id,
                owner: terms.owner,
                counterparty: terms.counterparty,
                target_address: terms.target_address,
                amount: terms.amount,
                safety_deposit: terms.safety_deposit,
                asset: terms.asset,
                hashlock: terms.hashlock,
                finality_end: t.finality_end,
                exclusive_end: t.exclusive_end,
                cancellation_end: t.cancellation_end,
                completed: false,
            },
        ),
    }
}

/// Settles a creation: what moves into custody, and the event.
pub fn settle_creation(record: &EscrowRecord) -> (s: Settlement)
    ensures
        s == created(*record),
{
    let destination = is_destination_side(record);
    Settlement {
        record: *record,
        principal: lock_principal(record),
        deposit: if destination {
            Some(lock_safety_deposit(record))
        } else {
            None
        },
        event: if destination {
            Event::DestinationCreated {
                owner: record.owner,
                counterparty: record.counterparty,
                amount: record.amount,
                safety_deposit: record.safety_deposit,
            }
        } else {
            Event::SourceCreated {
                owner: record.owner,
                counterparty: record.counterparty,
                amount: record.amount,
                safety_deposit: record.safety_deposit,
            }
        },
    }
}

/// Decides a creation: `authorized` says whether the counterparty's
/// authorization is established, `last_nonce` is the owner's last nonce, and
/// `taken` whether the identifier is in use.
pub fn create(
    terms: &EscrowTerms,
    now: u64,
    config: &EscrowConfig,
    authorized: bool,
    last_nonce: u64,
    taken: bool,
) -> (r: Result<Settlement, EscrowError>)
    ensures
        r == creation(*terms, now, *config, authorized, last_nonce, taken),
        r matches Ok(s) ==> s.record.is_valid() && !s.record.completed && s.record.id == terms.id,
{
    if !authorized {
        return Err(EscrowError::Unauthorized);
    }
    if terms.nonce <= last_nonce {
        return Err(EscrowError::InvalidNonce);
    }
    match open_escrow(terms, now, config) {
        Err(e) => Err(e),
        Ok(record) => {
            if taken {
                Err(EscrowError::AlreadyExists)
            } else {
                Ok(settle_creation(&record))
            }
        },
    }
}

/// Checks that `phase` is the one that `op` needs.
pub fn check_phase(op: Operation, phase: Phase) -> (r: Result<(), EscrowError>)
    ensures
        r == match phase_error(op, phase) {
            Some(e) => Err::<(), EscrowError>(e),
            None => Ok::<(), EscrowError>(()),
        },
{
    match op {
        Operation::ClaimExclusive => match phase {
            Phase::Finality => Err(EscrowError::FinalityLockActive),
            Phase::Exclusive => Ok(()),
            Phase::PublicWithdraw => Err(EscrowError::ExclusivePeriodExpired),
            Phase::Cancellable => Err(EscrowError::ExclusivePeriodExpired),
        },
        Operation::ClaimPublic => match phase {
            Phase::Finality => Err(EscrowError::FinalityLockActive),
            Phase::Exclusive => Err(EscrowError::OnlyResolver),
            Phase::PublicWithdraw => Ok(()),
            Phase::Cancellable => Err(EscrowError::CancellationNotAllowed),
        },
        Operation::CancelExclusive | Operation::CancelPublic => match phase {
            Phase::Cancellable => Ok(()),
            _ => Err(EscrowError::CancellationNotAllowed),
        },
    }
}

/// Whether `op` is an exclusive operation.
pub fn is_exclusive(op: Operation) -> (r: bool)
    ensures
        r == op.is_exclusive(),
{
    match op {
        Operation::ClaimExclusive | Operation::CancelExclusive => true,
        _ => false,
    }
}

/// Checks that `caller` may ask for `op` on `record` at `now`.
pub fn check_caller(
    op: Operation,
    record: &EscrowRecord,
    now: u64,
    caller: &Caller,
    grace: u64,
) -> (r: Result<(), EscrowError>)
    ensures
        r == match caller_error(op, *record, now, *caller, grace) {
            Some(e) => Err::<(), EscrowError>(e),
            None => Ok::<(), EscrowError>(()),
        },
{
    let only_counterparty = match op {
        Operation::ClaimExclusive | Operation::CancelExclusive => true,
        Operation::ClaimPublic => false,
        Operation::CancelPublic => now >= record.cancellation_end && now
            - record.cancellation_end < grace,
    };
    if only_counterparty && !caller.address.same_as(&record.counterparty) {
        Err(EscrowError::OnlyResolver)
    } else if !caller.authorized {
        Err(EscrowError::Unauthorized)
    } else {
        Ok(())
    }
}

/// Runs the first four checks in their fixed order and hands the record back
/// where all of them pass.
pub fn screen(
    op: Operation,
    record: Option<EscrowRecord>,
    now: u64,
    caller: &Caller,
    grace: u64,
) -> (r: Result<EscrowRecord, EscrowError>)
    ensures
        r == screened(op, record, now, *caller, grace),
{
    let rec = match record {
        Some(rec) => rec,
        None => {
            return Err(EscrowError::NotFound);
        },
    };
    if rec.completed {
        return Err(EscrowError::AlreadyCompleted);
    }
    let phase = classify(now, rec.finality_end, rec.exclusive_end, rec.cancellation_end);
    match check_phase(op, phase) {
        Err(e) => {
            return Err(e);
        },
        Ok(()) => {},
    }
    match check_caller(op, &rec, now, caller, grace) {
        Err(e) => Err(e),
        Ok(()) => Ok(rec),
    }
}

/// The record with its completion flag set.
pub fn close(record: &EscrowRecord) -> (r: EscrowRecord)
    ensures
        r == record.closed(),
{
    EscrowRecord {
        id: record.id,
        owner: record.owner,
        counterparty: record.counterparty,
        target_address: record.target_address,
        amount: record.amount,
        safety_deposit: record.safety_deposit,
        asset: record.asset,
        hashlock: record.hashlock,
        finality_end: record.finality_end,
        exclusive_end: record.exclusive_end,
        cancellation_end: record.cancellation_end,
        completed: true,
    }
}

/// Settles a claim: the principal goes to the target, the safety deposit to
/// the counterparty or, for a public claim, to the caller.
pub fn settle_claim(op: Operation, record: &EscrowRecord, actor: Address, secret: [u8; 32]) -> (s:
    Settlement)
    ensures
        s == claimed(op, *record, actor, secret),
{
    let exclusive = is_exclusive(op);
    let recipient = if exclusive {
        record.counterparty
    } else {
        actor
    };
    Settlement {
        record: close(record),
        principal: payout_principal(record),
        deposit: Some(payout_safety_deposit(record, recipient)),
        event: if exclusive {
            Event::ClaimedExclusive { actor, secret }
        } else {
            Event::ClaimedPublic { actor, secret }
        },
    }
}

/// Settles a cancellation: the principal goes back by the role of the record,
/// the safety deposit to the counterparty or, for a public cancellation, to
/// the caller.
pub fn settle_cancel(op: Operation, record: &EscrowRecord, actor: Address) -> (s: Settlement)
    ensures
        s == cancelled(op, *record, actor),
{
    let exclusive = is_exclusive(op);
    let recipient = if exclusive {
        record.counterparty
    } else {
        actor
    };
    Settlement {
        record: close(record),
        principal: refund_principal(record),
        deposit: Some(payout_safety_deposit(record, recipient)),
        event: if exclusive {
            Event::CancelledExclusive { actor }
        } else {
            Event::CancelledPublic { actor }
        },
    }
}

/// Decides one terminating operation on the record as it was fetched.
///
/// `preimage` is the caller's secret with its digest, or `None` where the
/// secret did not have the required width; cancellations ignore it.
pub fn terminate(
    op: Operation,
    record: Option<EscrowRecord>,
    now: u64,
    caller: &Caller,
    grace: u64,
    preimage: Option<Preimage>,
) -> (r: Result<Settlement, EscrowError>)
    ensures
        r == outcome(op, record, now, *caller, grace, preimage),
{
    let rec = match screen(op, record, now, caller, grace) {
        Ok(rec) => rec,
        Err(e) => {
            return Err(e);
        },
    };
    match op {
        Operation::ClaimExclusive | Operation::ClaimPublic => match preimage {
            Some(p) => {
                if digest_matches(&p.digest, &rec.hashlock) {
                    Ok(settle_claim(op, &rec, caller.address, p.secret))
                } else {
                    Err(EscrowError::InvalidSecret)
                }
            },
            None => Err(EscrowError::InvalidSecret),
        },
        Operation::CancelExclusive | Operation::CancelPublic => Ok(
            settle_cancel(op, &rec, caller.address),
        ),
    }
}

} // verus!
