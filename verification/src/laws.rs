//! What holds of the escrow state machine on every input.

use vstd::prelude::*;
use crate::bytes::{array_of, lemma_array_of_bytes};
use crate::escrow::{create_step, extend_step, sound, terminate_step};
use crate::hashlock::{preimage_of, sha256_of, Preimage};
use crate::lifecycle::{claimed, opened, outcome, screened, Operation};
use crate::registry::RegistryState;
use crate::timelock::{derived, phase_at};
use crate::types::{
    Address, Caller, EscrowConfig, EscrowError, EscrowRecord, EscrowTerms, Holder, Phase, Settlement,
};

verus! {

/// Derived watermarks never decrease: `now <= finality_end <= exclusive_end
/// <= cancellation_end`, and two neighbours are equal only where the
/// duration between them is zero.
pub proof fn law_watermarks_ordered(now: u64, d1: u64, d2: u64, d3: u64)
    ensures
        derived(now, d1, d2, d3) matches Ok(t) ==> {
            &&& now <= t.finality_end <= t.exclusive_end <= t.cancellation_end
            &&& (now == t.finality_end <==> d1 == 0)
            &&& (t.finality_end == t.exclusive_end <==> d2 == 0)
            &&& (t.exclusive_end == t.cancellation_end <==> d3 == 0)
        },
{
}

/// A record that creation opens meets the record invariants, is not
/// completed, and is in its finality phase at the moment of creation
/// whenever the finality duration is not zero.
pub proof fn law_opened_valid(terms: EscrowTerms, now: u64, config: EscrowConfig)
    ensures
        opened(terms, now, config) matches Ok(rec) ==> {
            &&& rec.is_valid()
            &&& !rec.completed
            &&& rec.id == terms.id
            &&& rec.hashlock == terms.hashlock
            &&& (terms.finality_duration > 0 ==> phase_at(
                now,
                rec.finality_end,
                rec.exclusive_end,
                rec.cancellation_end,
            ) == Phase::Finality)
        },
{
}

/// An operation asked for strictly before the watermark that it needs fails
/// with the matching phase error: a claim before `finality_end` with
/// `FinalityLockActive`, a public claim from there up to `exclusive_end` with
/// `OnlyResolver`, a cancellation before `cancellation_end` with
/// `CancellationNotAllowed`.
pub proof fn law_too_early(
    op: Operation,
    record: EscrowRecord,
    now: u64,
    caller: Caller,
    grace: u64,
    preimage: Option<Preimage>,
)
    requires
        !record.completed,
    ensures
        op.is_claim() && now < record.finality_end ==> outcome(
            op,
            Some(record),
            now,
            caller,
            grace,
            preimage,
        ) == Err::<Settlement, EscrowError>(EscrowError::FinalityLockActive),
        op == Operation::ClaimPublic && record.finality_end <= now < record.exclusive_end
            ==> outcome(op, Some(record), now, caller, grace, preimage) == Err::<
            Settlement,
            EscrowError,
        >(EscrowError::OnlyResolver),
        !op.is_claim() && now < record.cancellation_end ==> outcome(
            op,
            Some(record),
            now,
            caller,
            grace,
            preimage,
        ) == Err::<Settlement, EscrowError>(EscrowError::CancellationNotAllowed),
{
}

/// Once a record is completed, every claim and every cancellation on it
/// fails with `AlreadyCompleted`, at any time, for any caller and any secret.
pub proof fn law_terminal(
    op: Operation,
    record: EscrowRecord,
    now: u64,
    caller: Caller,
    grace: u64,
    preimage: Option<Preimage>,
)
    requires
        record.completed,
    ensures
        outcome(op, Some(record), now, caller, grace, preimage) == Err::<Settlement, EscrowError>(
            EscrowError::AlreadyCompleted,
        ),
{
}

/// After one terminating operation has succeeded on an identifier, the record
/// under it is completed, and every later terminating operation on that
/// identifier fails with `AlreadyCompleted` and changes nothing.
pub proof fn law_completed_once(
    state: RegistryState,
    config: EscrowConfig,
    id: [u8; 32],
    first: Operation,
    first_now: u64,
    first_caller: Caller,
    first_preimage: Option<Preimage>,
    later: Operation,
    later_now: u64,
    later_caller: Caller,
    later_preimage: Option<Preimage>,
)
    requires
        sound(state),
        terminate_step(state, config, first, id, first_now, first_caller, first_preimage).1 is Ok,
    ensures
        ({
            let after = terminate_step(
                state,
                config,
                first,
                id,
                first_now,
                first_caller,
                first_preimage,
            ).0;
            &&& after.record(id) matches Some(rec) && rec.completed
            &&& terminate_step(after, config, later, id, later_now, later_caller, later_preimage)
                == (after, Err::<Settlement, EscrowError>(EscrowError::AlreadyCompleted))
        }),
{
    assert(state.escrows.contains_key(id));
}

/// A terminating operation never removes a record and changes at most the
/// one under its identifier, and of that only the completion flag, from
/// false to true: identifiers, parties, amounts and hashlocks stay as they
/// were created. Nonces, expiries and the creation count stay too.
pub proof fn law_terminate_frame(
    state: RegistryState,
    config: EscrowConfig,
    op: Operation,
    id: [u8; 32],
    now: u64,
    caller: Caller,
    preimage: Option<Preimage>,
)
    requires
        sound(state),
    ensures
        ({
            let step = terminate_step(state, config, op, id, now, caller, preimage);
            &&& sound(step.0)
            &&& step.0.escrows.dom() == state.escrows.dom()
            &&& step.0.expiries == state.expiries
            &&& step.0.nonces == state.nonces
            &&& step.0.created == state.created
            &&& step.1 is Err ==> step.0 == state
            &&& forall|j: [u8; 32]| #[trigger]
                state.escrows.contains_key(j) ==> {
                    ||| step.0.escrows[j] == state.escrows[j]
                    ||| (j == id && step.1 is Ok && !state.escrows[j].completed
                        && step.0.escrows[j] == state.escrows[j].closed())
                }
        }),
{
    let step = terminate_step(state, config, op, id, now, caller, preimage);
    if step.1 is Ok {
        assert(state.escrows.contains_key(id));
        assert(step.0.escrows.dom() =~= state.escrows.dom());
    }
}

/// A creation never touches a record that is already stored; where it
/// succeeds, the identifier was free, the new record lies under it, the
/// owner's last nonce is the one supplied, and the count goes up by one
/// exactly for a source-side record. Where it fails, nothing changes.
pub proof fn law_create_frame(
    state: RegistryState,
    config: EscrowConfig,
    terms: EscrowTerms,
    now: u64,
    authorized: bool,
)
    requires
        sound(state),
    ensures
        ({
            let step = create_step(state, config, terms, now, authorized);
            &&& sound(step.0)
            &&& step.1 is Err ==> step.0 == state
            &&& forall|j: [u8; 32]| #[trigger]
                state.escrows.contains_key(j) ==> step.0.escrows.contains_key(j)
                    && step.0.escrows[j] == state.escrows[j]
            &&& step.1 matches Ok(s) ==> {
                &&& !state.escrows.contains_key(terms.id)
                &&& step.0.record(terms.id) == Some(s.record)
                &&& opened(terms, now, config) == Ok::<EscrowRecord, EscrowError>(s.record)
                &&& step.0.last_nonce(terms.owner) == terms.nonce
                &&& terms.nonce > state.last_nonce(terms.owner)
                &&& step.0.created == if s.record.destination_side() {
                    state.created
                } else {
                    state.created + 1
                }
            }
        }),
{
}

/// A creation succeeds exactly when the counterparty is authorized, the
/// nonce is strictly greater than the owner's last one, the terms are valid
/// and the identifier is free.
pub proof fn law_create_succeeds(
    state: RegistryState,
    config: EscrowConfig,
    terms: EscrowTerms,
    now: u64,
    authorized: bool,
)
    ensures
        create_step(state, config, terms, now, authorized).1 is Ok <==> {
            &&& authorized
            &&& terms.nonce > state.last_nonce(terms.owner)
            &&& opened(terms, now, config) is Ok
            &&& !state.escrows.contains_key(terms.id)
        },
{
}

/// Nonce replay: after a creation with nonce `N` has succeeded, an authorized
/// creation for the same owner with a nonce of at most `N` fails with
/// `InvalidNonce` and changes nothing, whatever else it asks for; with a
/// greater nonce it succeeds exactly when its terms are valid and its
/// identifier is free.
pub proof fn law_nonce_replay(
    state: RegistryState,
    config: EscrowConfig,
    first: EscrowTerms,
    first_now: u64,
    second: EscrowTerms,
    second_now: u64,
)
    requires
        create_step(state, config, first, first_now, true).1 is Ok,
        second.owner == first.owner,
    ensures
        ({
            let after = create_step(state, config, first, first_now, true).0;
            &&& after.last_nonce(first.owner) == first.nonce
            &&& second.nonce <= first.nonce ==> create_step(
                after,
                config,
                second,
                second_now,
                true,
            ) == (after, Err::<Settlement, EscrowError>(EscrowError::InvalidNonce))
            &&& second.nonce > first.nonce ==> (create_step(
                after,
                config,
                second,
                second_now,
                true,
            ).1 is Ok <==> opened(second, second_now, config) is Ok && !after.escrows.contains_key(
                second.id,
            ))
        }),
{
}

/// Hash exactness: a claim that has passed the checks on existence,
/// completion, phase and caller succeeds exactly when a preimage is given
/// and its digest equals the hashlock; in every other case it fails with
/// `InvalidSecret`.
pub proof fn law_hash_exactness(
    op: Operation,
    record: EscrowRecord,
    now: u64,
    caller: Caller,
    grace: u64,
    preimage: Option<Preimage>,
)
    requires
        op.is_claim(),
        screened(op, Some(record), now, caller, grace) is Ok,
    ensures
        ({
            let opens = preimage matches Some(p) && p.digest == record.hashlock;
            let r = outcome(op, Some(record), now, caller, grace, preimage);
            &&& opens <==> r is Ok
            &&& opens ==> r == Ok::<Settlement, EscrowError>(
                claimed(op, record, caller.address, preimage.unwrap().secret),
            )
            &&& !opens ==> r == Err::<Settlement, EscrowError>(EscrowError::InvalidSecret)
        }),
{
}

/// Hash exactness in terms of the secret: where the digest of a secret has
/// the digest width, the preimage taken from the secret opens the hashlock
/// exactly when the secret has the required width and its SHA-256 digest
/// equals the hashlock byte for byte.
pub proof fn law_secret_exactness(secret: Seq<u8>, hashlock: [u8; 32])
    ensures
        secret.len() != 32 ==> preimage_of(secret) is None,
        secret.len() == 32 ==> preimage_of(secret) is Some,
        sha256_of(secret).len() == 32 ==> ((preimage_of(secret) matches Some(p) && p.digest
            == hashlock) <==> (secret.len() == 32 && sha256_of(secret) == hashlock@)),
{
    if sha256_of(secret).len() == 32 && secret.len() == 32 {
        let d = array_of(sha256_of(secret));
        lemma_array_of_bytes(sha256_of(secret));
        if sha256_of(secret) == hashlock@ {
            assert(d@ =~= hashlock@);
            assert(d =~= hashlock);
        }
    }
}

/// Role-dependent refund: a cancellation returns the principal from custody
/// to the counterparty where the record's target is its owner, and to the
/// owner where it is not.
pub proof fn law_refund_by_role(
    op: Operation,
    record: EscrowRecord,
    now: u64,
    caller: Caller,
    grace: u64,
    preimage: Option<Preimage>,
)
    requires
        !op.is_claim(),
    ensures
        outcome(op, Some(record), now, caller, grace, preimage) matches Ok(s) ==> {
            &&& s.principal.from == Holder::Custody
            &&& s.principal.amount == record.amount
            &&& record.target_address == record.owner ==> s.principal.to == Holder::Party(
                record.counterparty,
            )
            &&& record.target_address != record.owner ==> s.principal.to == Holder::Party(
                record.owner,
            )
        },
{
}

/// A claim pays the principal to the target address, and the safety deposit
/// to the original counterparty where the claim is exclusive and to the
/// acting caller where it is public.
pub proof fn law_claim_pays(
    op: Operation,
    record: EscrowRecord,
    now: u64,
    caller: Caller,
    grace: u64,
    preimage: Option<Preimage>,
)
    requires
        op.is_claim(),
    ensures
        outcome(op, Some(record), now, caller, grace, preimage) matches Ok(s) ==> {
            &&& s.principal.to == Holder::Party(record.target_address)
            &&& s.principal.amount == record.amount
            &&& s.deposit matches Some(d) && d.amount == record.safety_deposit && d.to
                == Holder::Party(
                if op == Operation::ClaimExclusive {
                    record.counterparty
                } else {
                    caller.address
                },
            )
            &&& s.record.completed
        },
{
}

/// Exclusive-window exclusivity: a public claim strictly before
/// `exclusive_end` fails for every caller, also with the right secret; from
/// `exclusive_end` up to `cancellation_end` the same claim by any authorized
/// caller with the right secret succeeds and pays the safety deposit to
/// that caller.
pub proof fn law_exclusive_window(
    record: EscrowRecord,
    now: u64,
    caller: Caller,
    grace: u64,
    preimage: Option<Preimage>,
)
    requires
        record.is_valid(),
    ensures
        now < record.exclusive_end ==> outcome(
            Operation::ClaimPublic,
            Some(record),
            now,
            caller,
            grace,
            preimage,
        ) is Err,
        (preimage matches Some(p) && p.digest == record.hashlock && !record.completed
            && record.exclusive_end <= now < record.cancellation_end && caller.authorized)
            ==> outcome(Operation::ClaimPublic, Some(record), now, caller, grace, preimage) == Ok::<
            Settlement,
            EscrowError,
        >(claimed(Operation::ClaimPublic, record, caller.address, preimage.unwrap().secret)),
{
}

/// In the exclusive window nobody but the original counterparty can bring
/// an escrow to its end: every terminating operation by another caller
/// fails there.
pub proof fn law_counterparty_alone(
    op: Operation,
    record: EscrowRecord,
    now: u64,
    caller: Caller,
    grace: u64,
    preimage: Option<Preimage>,
)
    requires
        record.is_valid(),
        record.finality_end <= now < record.exclusive_end,
        caller.address != record.counterparty,
    ensures
        outcome(op, Some(record), now, caller, grace, preimage) is Err,
{
}

/// A public cancellation inside the grace window is reserved to the
/// counterparty; once the window is over every authorized caller may cancel.
pub proof fn law_cancellation_grace(
    record: EscrowRecord,
    now: u64,
    caller: Caller,
    grace: u64,
)
    requires
        record.is_valid(),
        !record.completed,
        now >= record.cancellation_end,
    ensures
        ({
            let r = outcome(Operation::CancelPublic, Some(record), now, caller, grace, None);
            &&& (now - record.cancellation_end < grace && caller.address != record.counterparty)
                ==> r == Err::<Settlement, EscrowError>(EscrowError::OnlyResolver)
            &&& (now - record.cancellation_end >= grace && caller.authorized) ==> r is Ok
            &&& (caller.address == record.counterparty && caller.authorized) ==> r is Ok
        }),
{
}

/// Extending an expiry changes no record, no nonce and not the count, and
/// never moves an expiry back.
pub proof fn law_extend_frame(state: RegistryState, id: [u8; 32], new_expiry: u64)
    ensures
        ({
            let step = extend_step(state, id, new_expiry);
            &&& step.0.escrows == state.escrows
            &&& step.0.nonces == state.nonces
            &&& step.0.created == state.created
            &&& step.1 is Err <==> !state.expiries.contains_key(id)
            &&& step.1 is Err ==> step.0 == state
            &&& step.1 matches Ok(e) ==> e >= state.expiries[id] && e >= new_expiry
                && step.0.expiry(id) == Some(e)
        }),
{
}

/// One request to the contract, of any kind.
pub enum Request {
    Create { terms: EscrowTerms, now: u64, authorized: bool },
    Terminate { op: Operation, id: [u8; 32], now: u64, caller: Caller, preimage: Option<Preimage> },
    Extend { id: [u8; 32], new_expiry: u64 },
}

/// The state after one request.
pub open spec fn after(state: RegistryState, config: EscrowConfig, request: Request)
    -> RegistryState {
    match request {
        Request::Create { terms, now, authorized } => create_step(
            state,
            config,
            terms,
            now,
            authorized,
        ).0,
        Request::Terminate { op, id, now, caller, preimage } => terminate_step(
            state,
            config,
            op,
            id,
            now,
            caller,
            preimage,
        ).0,
        Request::Extend { id, new_expiry } => extend_step(state, id, new_expiry).0,
    }
}

/// The state after a sequence of requests, served one after the other.
pub open spec fn after_all(state: RegistryState, config: EscrowConfig, requests: Seq<Request>)
    -> RegistryState
    decreases requests.len(),
{
    if requests.len() == 0 {
        state
    } else {
        after(after_all(state, config, requests.drop_last()), config, requests.last())
    }
}

/// What one request leaves as it was: every stored record stays under its
/// identifier with all that it was created with, and at most its completion
/// flag goes from false to true; no owner's last nonce goes down, no expiry
/// moves back, and the creation count does not fall.
pub proof fn law_request_frame(
    state: RegistryState,
    config: EscrowConfig,
    request: Request,
    id: [u8; 32],
    owner: Address,
)
    requires
        sound(state),
    ensures
        ({
            let next = after(state, config, request);
            &&& sound(next)
            &&& next.last_nonce(owner) >= state.last_nonce(owner)
            &&& next.created >= state.created
            &&& state.escrows.contains_key(id) ==> {
                &&& next.escrows.contains_key(id)
                &&& (next.escrows[id] == state.escrows[id] || (!state.escrows[id].completed
                    && next.escrows[id] == state.escrows[id].closed()))
            }
            &&& state.expiries.contains_key(id) ==> next.expiries.contains_key(id)
                && next.expiries[id] >= state.expiries[id]
        }),
{
    match request {
        Request::Create { terms, now, authorized } => {
            law_create_frame(state, config, terms, now, authorized);
        },
        Request::Terminate { op, id: target, now, caller, preimage } => {
            law_terminate_frame(state, config, op, target, now, caller, preimage);
        },
        Request::Extend { id: target, new_expiry } => {
            law_extend_frame(state, target, new_expiry);
        },
    }
}

/// Completion is final: once the record under an identifier is completed, no
/// sequence of requests changes it again, so every later claim and every
/// later cancellation on it fails with `AlreadyCompleted`.
pub proof fn law_completion_is_final(
    state: RegistryState,
    config: EscrowConfig,
    requests: Seq<Request>,
    id: [u8; 32],
)
    requires
        sound(state),
        state.escrows.contains_key(id),
        state.escrows[id].completed,
    ensures
        sound(after_all(state, config, requests)),
        after_all(state, config, requests).record(id) == state.record(id),
    decreases requests.len(),
{
    if requests.len() > 0 {
        law_completion_is_final(state, config, requests.drop_last(), id);
        let before = after_all(state, config, requests.drop_last());
        law_request_frame(before, config, requests.last(), id, state.escrows[id].owner);
    }
}

/// A record keeps what it was created with through every sequence of
/// requests: its identifier, parties, amounts, asset, hashlock and
/// watermarks. Only its completion flag can change, and only to true.
pub proof fn law_record_is_kept(
    state: RegistryState,
    config: EscrowConfig,
    requests: Seq<Request>,
    id: [u8; 32],
)
    requires
        sound(state),
        state.escrows.contains_key(id),
    ensures
        ({
            let last = after_all(state, config, requests);
            &&& sound(last)
            &&& last.escrows.contains_key(id)
            &&& (last.escrows[id] == state.escrows[id] || (!state.escrows[id].completed
                && last.escrows[id] == state.escrows[id].closed()))
        }),
    decreases requests.len(),
{
    if requests.len() > 0 {
        law_record_is_kept(state, config, requests.drop_last(), id);
        let before = after_all(state, config, requests.drop_last());
        law_request_frame(before, config, requests.last(), id, state.escrows[id].owner);
    }
}

/// An owner's last nonce and the creation count never go down, whatever is
/// asked of the contract.
pub proof fn law_counters_grow(
    state: RegistryState,
    config: EscrowConfig,
    requests: Seq<Request>,
    owner: Address,
)
    requires
        sound(state),
    ensures
        sound(after_all(state, config, requests)),
        after_all(state, config, requests).last_nonce(owner) >= state.last_nonce(owner),
        after_all(state, config, requests).created >= state.created,
    decreases requests.len(),
{
    if requests.len() > 0 {
        law_counters_grow(state, config, requests.drop_last(), owner);
        let before = after_all(state, config, requests.drop_last());
        law_request_frame(before, config, requests.last(), arbitrary(), owner);
    }
}

} // verus!
