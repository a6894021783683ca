//! The data that the escrow protocol works on.

use vstd::prelude::*;
use crate::bytes::same_bytes;

verus! {

/// What a ledger address names.
#[derive(Clone, Copy, Debug, PartialEq, Eq, Structural)]
pub enum AddressKind {
    Account,
    Contract,
}

/// A party on the ledger: the kind of address and its thirty-two byte key.
#[derive(Clone, Copy, Debug, PartialEq, Eq)]
pub struct Address {
    pub kind: AddressKind,
    pub key: [u8; 32],
}

impl Address {
    /// True exactly when both addresses name the same party.
    pub fn same_as(&self, other: &Address) -> (r: bool)
        ensures
            r == (*self == *other),
    {
        let same_kind = match (self.kind, other.kind) {
            (AddressKind::Account, AddressKind::Account) => true,
            (AddressKind::Contract, AddressKind::Contract) => true,
            _ => false,
        };
        same_kind && same_bytes(&self.key, &other.key)
    }
}

/// Why an operation was turned down.
#[derive(Clone, Copy, Debug, PartialEq, Eq, Structural)]
pub enum EscrowError {
    /// No escrow is stored under the identifier.
    NotFound,
    /// An escrow is already stored under the identifier.
    AlreadyExists,
    /// The escrow has been claimed or cancelled before.
    AlreadyCompleted,
    /// The secret has the wrong width or its digest is not the hashlock.
    InvalidSecret,
    /// The principal is not strictly positive.
    InvalidAmount,
    /// The nonce is not strictly greater than the owner's last one.
    InvalidNonce,
    /// The safety deposit is not positive or is below the configured minimum.
    InsufficientSafetyDeposit,
    /// A watermark would lie beyond the largest representable time.
    InvalidDuration,
    /// The finality lock has not run out yet.
    FinalityLockActive,
    /// The counterparty's exclusive window is over.
    ExclusivePeriodExpired,
    /// The action needs a window that is not open at this time.
    CancellationNotAllowed,
    /// Only the original counterparty may act at this time.
    OnlyResolver,
    /// The acting party's authorization was not established. On the ledger
    /// this aborts the whole operation.
    Unauthorized,
}

/// The window of permitted actions that a point in time falls into.
#[derive(Clone, Copy, Debug, PartialEq, Eq, Structural)]
pub enum Phase {
    Finality,
    Exclusive,
    PublicWithdraw,
    Cancellable,
}

/// One escrow as it is stored under its identifier.
#[derive(Clone, Copy, Debug, PartialEq, Eq)]
pub struct EscrowRecord {
    pub id: [u8; 32],
    pub owner: Address,
    pub counterparty: Address,
    pub target_address: Address,
    pub amount: i128,
    pub safety_deposit: i128,
    /// `None` is the ledger's native asset.
    pub asset: Option<Address>,
    pub hashlock: [u8; 32],
    pub finality_end: u64,
    pub exclusive_end: u64,
    pub cancellation_end: u64,
    pub completed: bool,
}

impl EscrowRecord {
    /// The invariants of a stored record.
    pub open spec fn is_valid(self) -> bool {
        &&& self.amount > 0
        &&& self.safety_deposit > 0
        &&& self.finality_end <= self.exclusive_end <= self.cancellation_end
    }

    /// A record is destination-side exactly when its target is its owner.
    pub open spec fn destination_side(self) -> bool {
        self.target_address == self.owner
    }

    /// The party that gets the principal back on cancellation.
    pub open spec fn return_address(self) -> Address {
        if self.destination_side() {
            self.counterparty
        } else {
            self.owner
        }
    }

    /// The same record after its one terminal transition.
    pub open spec fn closed(self) -> EscrowRecord {
        EscrowRecord { completed: true, ..self }
    }
}

/// Where an amount is held: the escrow's custody or a party's own balance.
#[derive(Clone, Copy, Debug, PartialEq, Eq)]
pub enum Holder {
    Custody,
    Party(Address),
}

/// One movement of an asset that the ledger is to carry out.
#[derive(Clone, Copy, Debug, PartialEq, Eq)]
pub struct Transfer {
    /// `None` is the ledger's native asset.
    pub asset: Option<Address>,
    pub from: Holder,
    pub to: Holder,
    pub amount: i128,
}

/// What an operation announces once it has succeeded.
#[derive(Clone, Copy, Debug, PartialEq, Eq)]
pub enum Event {
    SourceCreated { owner: Address, counterparty: Address, amount: i128, safety_deposit: i128 },
    DestinationCreated { owner: Address, counterparty: Address, amount: i128, safety_deposit: i128 },
    ClaimedExclusive { actor: Address, secret: [u8; 32] },
    ClaimedPublic { actor: Address, secret: [u8; 32] },
    CancelledExclusive { actor: Address },
    CancelledPublic { actor: Address },
}

impl Event {
    /// The name under which the event is published.
    pub open spec fn name_of(self) -> Seq<char> {
        match self {
            Event::SourceCreated { .. } => "source-created"@,
            Event::DestinationCreated { .. } => "destination-created"@,
            Event::ClaimedExclusive { .. } => "claimed-exclusive"@,
            Event::ClaimedPublic { .. } => "claimed-public"@,
            Event::CancelledExclusive { .. } => "cancelled-exclusive"@,
            Event::CancelledPublic { .. } => "cancelled-public"@,
        }
    }

    /// The name under which the event is published.
    pub fn name(&self) -> (r: &'static str)
        ensures
            r@ == self.name_of(),
    {
        match self {
            Event::SourceCreated { .. } => "source-created",
            Event::DestinationCreated { .. } => "destination-created",
            Event::ClaimedExclusive { .. } => "claimed-exclusive",
            Event::ClaimedPublic { .. } => "claimed-public",
            Event::CancelledExclusive { .. } => "cancelled-exclusive",
            Event::CancelledPublic { .. } => "cancelled-public",
        }
    }
}

/// The outcome of a successful operation: the record as it is stored now, the
/// transfers that go with it, and the event to publish.
#[derive(Clone, Copy, Debug, PartialEq, Eq)]
pub struct Settlement {
    pub record: EscrowRecord,
    pub principal: Transfer,
    pub deposit: Option<Transfer>,
    pub event: Event,
}

/// What the parties agree on when an escrow is created.
#[derive(Clone, Copy, Debug, PartialEq, Eq)]
pub struct EscrowTerms {
    pub id: [u8; 32],
    pub owner: Address,
    pub counterparty: Address,
    pub target_address: Address,
    pub amount: i128,
    pub safety_deposit: i128,
    /// `None` is the ledger's native asset.
    pub asset: Option<Address>,
    pub hashlock: [u8; 32],
    pub finality_duration: u64,
    pub exclusive_duration: u64,
    pub cancellation_duration: u64,
    /// The owner's nonce for this creation.
    pub nonce: u64,
}

/// The choices that the protocol leaves to whoever deploys it.
#[derive(Clone, Copy, Debug, PartialEq, Eq)]
pub struct EscrowConfig {
    /// The least safety deposit that a creation must post. A deposit that is
    /// not strictly positive is turned down whatever this says.
    pub min_safety_deposit: i128,
    /// How long after `cancellation_end` a public cancellation stays
    /// reserved to the counterparty.
    pub cancellation_grace: u64,
    /// How long a record's storage is paid for when it is created.
    pub storage_ttl: u64,
}

/// The party that asks for an operation, and whether the ledger has verified
/// that the request is really theirs.
#[derive(Clone, Copy, Debug, PartialEq, Eq)]
pub struct Caller {
    pub address: Address,
    pub authorized: bool,
}

} // verus!
