//! The escrow state machine over its registry.

use vstd::prelude::*;
use crate::hashlock::{preimage, preimage_of, Preimage};
use crate::lifecycle::{create, creation, outcome, terminate, Operation};
use crate::registry::{EscrowRegistry, RegistryState};
use crate::types::{
    Caller, EscrowConfig, EscrowError, EscrowRecord, EscrowTerms, Settlement,
};

verus! {

/// The expiry that a record gets when it is stored at `now`: `ttl` later, or
/// the largest representable time where that would not fit.
pub open spec fn refreshed(now: u64, ttl: u64) -> u64 {
    if now + ttl <= u64::MAX {
        (now + ttl) as u64
    } else {
        u64::MAX
    }
}

/// Every stored record meets the record invariants and lies under its own
/// identifier, and exactly the stored records have an expiry.
pub open spec fn sound(state: RegistryState) -> bool {
    &&& state.expiries.dom() =~= state.escrows.dom()
    &&& forall|id: [u8; 32]| #[trigger]
        state.escrows.contains_key(id) ==> state.escrows[id].is_valid() && state.escrows[id].id
            == id
}

/// The state and the result of asking for a creation with `terms` at `now`.
///
/// The outcome is that of [`creation`] on the owner's last nonce and on
/// whether the identifier is taken. Where it succeeds, the record is stored
/// with a refreshed expiry and the nonce becomes the owner's last one;
/// otherwise nothing changes.
pub open spec fn create_step(
    state: RegistryState,
    config: EscrowConfig,
    terms: EscrowTerms,
    now: u64,
    authorized: bool,
) -> (RegistryState, Result<Settlement, EscrowError>) {
    match creation(
        terms,
        now,
        config,
        authorized,
        state.last_nonce(terms.owner),
        state.escrows.contains_key(terms.id),
    ) {
        Err(e) => (state, Err(e)),
        Ok(s) => (
            state.with_new(s.record, refreshed(now, config.storage_ttl)).with_nonce(
                terms.owner,
                terms.nonce,
            ),
            Ok(s),
        ),
    }
}

/// The state and the result of asking for the terminating operation `op` on
/// the escrow under `id`. On success the record is stored as completed;
/// otherwise nothing changes.
pub open spec fn terminate_step(
    state: RegistryState,
    config: EscrowConfig,
    op: Operation,
    id: [u8; 32],
    now: u64,
    caller: Caller,
    preimage: Option<Preimage>,
) -> (RegistryState, Result<Settlement, EscrowError>) {
    match outcome(op, state.record(id), now, caller, config.cancellation_grace, preimage) {
        Err(e) => (state, Err(e)),
        Ok(s) => (state.with_record(s.record), Ok(s)),
    }
}

/// The state and the result of asking to extend the expiry under `id`.
pub open spec fn extend_step(state: RegistryState, id: [u8; 32], new_expiry: u64) -> (
    RegistryState,
    Result<u64, EscrowError>,
) {
    match state.expiry(id) {
        None => (state, Err(EscrowError::NotFound)),
        Some(e) => {
            let later = if new_expiry > e {
                new_expiry
            } else {
                e
            };
            (state.with_expiry(id, later), Ok(later))
        },
    }
}

/// The escrow contract: its configuration and everything it has stored.
pub struct StellarEscrow {
    config: EscrowConfig,
    registry: EscrowRegistry,
}

impl View for StellarEscrow {
    type V = RegistryState;

    closed spec fn view(&self) -> RegistryState {
        self.registry@
    }
}

impl StellarEscrow {
    /// The registry is well-formed and every stored record is sound.
    pub closed spec fn wf(&self) -> bool {
        self.registry.wf() && sound(self.registry@)
    }

    /// The configuration that the contract was made with.
    pub closed spec fn rules(&self) -> EscrowConfig {
        self.config
    }

    /// A well-formed contract stores only sound records.
    pub proof fn lemma_sound(&self)
        requires
            self.wf(),
        ensures
            sound(self@),
    {
    }

    /// A contract that has stored nothing yet.
    pub fn new(config: EscrowConfig) -> (r: StellarEscrow)
        ensures
            r.wf(),
            r.rules() == config,
            r@ == RegistryState::empty(),
    {
        StellarEscrow { config, registry: EscrowRegistry::new() }
    }

    /// The configuration that the contract was made with.
    pub fn config(&self) -> (c: EscrowConfig)
        ensures
            c == self.rules(),
    {
        self.config
    }

    /// Creates an escrow from `terms` at the time `now`.
    ///
    /// `authorized` says whether the counterparty's authorization has been
    /// established. A record whose target is its owner is destination-side,
    /// any other is source-side and is counted. Returns the stored record
    /// with the transfers into custody and the event, or the first error in
    /// the order of [`creation`], in which case nothing has changed.
    pub fn create_escrow(&mut self, terms: EscrowTerms, now: u64, authorized: bool) -> (r: Result<
        Settlement,
        EscrowError,
    >)
        requires
            old(self).wf(),
        ensures
            final(self).wf(),
            final(self).rules() == old(self).rules(),
            (final(self)@, r) == create_step(old(self)@, old(self).rules(), terms, now, authorized),
    {
        let last_nonce = self.registry.last_nonce(&terms.owner);
        let taken = self.registry.get(&terms.id).is_some();
        match create(&terms, now, &self.config, authorized, last_nonce, taken) {
            Err(e) => Err(e),
            Ok(s) => {
                let expiry = match now.checked_add(self.config.storage_ttl) {
                    Some(t) => t,
                    None => u64::MAX,
                };
                match self.registry.create(s.record, expiry) {
                    Err(e) => Err(e),
                    Ok(()) => {
                        self.registry.set_nonce(terms.owner, terms.nonce);
                        Ok(s)
                    },
                }
            },
        }
    }

    fn finish(
        &mut self,
        op: Operation,
        id: &[u8; 32],
        caller: &Caller,
        now: u64,
        preimage: Option<Preimage>,
    ) -> (r: Result<Settlement, EscrowError>)
        requires
            old(self).wf(),
        ensures
            final(self).wf(),
            final(self).rules() == old(self).rules(),
            (final(self)@, r) == terminate_step(
                old(self)@,
                old(self).rules(),
                op,
                *id,
                now,
                *caller,
                preimage,
            ),
    {
        let record = self.registry.get(id);
        match terminate(op, record, now, caller, self.config.cancellation_grace, preimage) {
            Err(e) => Err(e),
            Ok(s) => match self.registry.update(s.record) {
                Err(e) => Err(e),
                Ok(()) => Ok(s),
            },
        }
    }

    /// The exclusive claim: in the exclusive window the original counterparty
    /// reveals the secret, the principal goes to the target address and the
    /// safety deposit to the counterparty.
    ///
    /// The result is that of [`terminate_step`] for `ClaimExclusive` with the
    /// SHA-256 digest of `secret`; on any error nothing has changed.
    pub fn claim_by_resolver(&mut self, id: &[u8; 32], caller: Caller, now: u64, secret: &[u8]) -> (r:
        Result<Settlement, EscrowError>)
        requires
            old(self).wf(),
        ensures
            final(self).wf(),
            final(self).rules() == old(self).rules(),
            (final(self)@, r) == terminate_step(
                old(self)@,
                old(self).rules(),
                Operation::ClaimExclusive,
                *id,
                now,
                caller,
                preimage_of(secret@),
            ),
    {
        let opened = preimage(secret);
        self.finish(Operation::ClaimExclusive, id, &caller, now, opened)
    }

    /// The public claim: in the public window any authorized caller who
    /// knows the secret releases the principal to the target address and
    /// earns the safety deposit.
    ///
    /// The result is that of [`terminate_step`] for `ClaimPublic` with the
    /// SHA-256 digest of `secret`; on any error nothing has changed.
    pub fn claim_by_user(&mut self, id: &[u8; 32], caller: Caller, now: u64, secret: &[u8]) -> (r:
        Result<Settlement, EscrowError>)
        requires
            old(self).wf(),
        ensures
            final(self).wf(),
            final(self).rules() == old(self).rules(),
            (final(self)@, r) == terminate_step(
                old(self)@,
                old(self).rules(),
                Operation::ClaimPublic,
                *id,
                now,
                caller,
                preimage_of(secret@),
            ),
    {
        let opened = preimage(secret);
        self.finish(Operation::ClaimPublic, id, &caller, now, opened)
    }

    /// The exclusive cancellation: from `cancellation_end` on the original
    /// counterparty refunds the principal by the role of the record and
    /// takes the safety deposit back.
    pub fn cancel_by_resolver(&mut self, id: &[u8; 32], caller: Caller, now: u64) -> (r: Result<
        Settlement,
        EscrowError,
    >)
        requires
            old(self).wf(),
        ensures
            final(self).wf(),
            final(self).rules() == old(self).rules(),
            (final(self)@, r) == terminate_step(
                old(self)@,
                old(self).rules(),
                Operation::CancelExclusive,
                *id,
                now,
                caller,
                None,
            ),
    {
        self.finish(Operation::CancelExclusive, id, &caller, now, None)
    }

    /// The public cancellation: from `cancellation_end` on the counterparty,
    /// and once the grace window is over any authorized caller, refunds the
    /// principal by the role of the record and earns the safety deposit.
    pub fn cancel(&mut self, id: &[u8; 32], caller: Caller, now: u64) -> (r: Result<
        Settlement,
        EscrowError,
    >)
        requires
            old(self).wf(),
        ensures
            final(self).wf(),
            final(self).rules() == old(self).rules(),
            (final(self)@, r) == terminate_step(
                old(self)@,
                old(self).rules(),
                Operation::CancelPublic,
                *id,
                now,
                caller,
                None,
            ),
    {
        self.finish(Operation::CancelPublic, id, &caller, now, None)
    }

    /// The record under `id`, or `None` where there is none.
    pub fn get_escrow(&self, id: &[u8; 32]) -> (r: Option<EscrowRecord>)
        requires
            self.wf(),
        ensures
            r == self@.record(*id),
    {
        self.registry.get(id)
    }

    /// How many source-side escrows have been created.
    pub fn get_escrow_count(&self) -> (r: u64)
        ensures
            r == self@.created,
    {
        self.registry.creation_count()
    }

    /// The last nonce that `owner` has used; zero where there is none.
    pub fn last_nonce(&self, owner: &crate::types::Address) -> (r: u64)
        requires
            self.wf(),
        ensures
            r == self@.last_nonce(*owner),
    {
        self.registry.last_nonce(owner)
    }

    /// The expiry of the record under `id`, or `None` where there is none.
    pub fn expiry(&self, id: &[u8; 32]) -> (r: Option<u64>)
        requires
            self.wf(),
        ensures
            r == self@.expiry(*id),
    {
        self.registry.expiry(id)
    }

    /// Extends the storage expiry of the record under `id` to `new_expiry`
    /// where that is later, and returns the expiry that holds afterwards.
    /// No record, nonce or count changes.
    pub fn extend_expiry(&mut self, id: &[u8; 32], new_expiry: u64) -> (r: Result<u64, EscrowError>)
        requires
            old(self).wf(),
        ensures
            final(self).wf(),
            final(self).rules() == old(self).rules(),
            (final(self)@, r) == extend_step(old(self)@, *id, new_expiry),
    {
        self.registry.extend_expiry(id, new_expiry)
    }
}

} // verus!
