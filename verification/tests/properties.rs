use sha2::{Digest, Sha256};
use stellar_escrow::escrow::StellarEscrow;
use stellar_escrow::types::{
    Address, AddressKind, Caller, EscrowConfig, EscrowError, EscrowRecord, EscrowTerms, Event,
    Holder,
};

const SECRET: [u8; 32] = [0x5e; 32];

fn account(byte: u8) -> Address {
    Address { kind: AddressKind::Account, key: [byte; 32] }
}

fn maker() -> Address {
    account(1)
}

fn resolver() -> Address {
    account(2)
}

fn stranger() -> Address {
    account(3)
}

fn signed(address: Address) -> Caller {
    Caller { address, authorized: true }
}

fn hashlock() -> [u8; 32] {
    Sha256::digest(SECRET).into()
}

fn contract(grace: u64) -> StellarEscrow {
    StellarEscrow::new(EscrowConfig {
        min_safety_deposit: 1,
        cancellation_grace: grace,
        storage_ttl: 10_000,
    })
}

/// A source-side escrow with the durations 10, 20 and 30.
fn source(id: u8, nonce: u64) -> EscrowTerms {
    EscrowTerms {
        id: [id; 32],
        owner: maker(),
        counterparty: resolver(),
        target_address: resolver(),
        amount: 1000,
        safety_deposit: 25,
        asset: None,
        hashlock: hashlock(),
        finality_duration: 10,
        exclusive_duration: 20,
        cancellation_duration: 30,
        nonce,
    }
}

/// The mirror escrow on the destination side: the owner is the target.
fn destination(id: u8, nonce: u64) -> EscrowTerms {
    EscrowTerms { target_address: maker(), ..source(id, nonce) }
}

#[test]
fn worked_scenario() {
    let mut c = contract(0);
    let created = c.create_escrow(source(1, 1), 100, true).unwrap();
    assert_eq!(created.record.finality_end, 110);
    assert_eq!(created.record.exclusive_end, 130);
    assert_eq!(created.record.cancellation_end, 160);
    assert_eq!(created.record.amount, 1000);
    assert!(!created.record.completed);

    let id = [1u8; 32];
    assert_eq!(
        c.claim_by_resolver(&id, signed(resolver()), 109, &SECRET),
        Err(EscrowError::FinalityLockActive)
    );
    assert!(!c.get_escrow(&id).unwrap().completed);

    let claimed = c.claim_by_resolver(&id, signed(resolver()), 115, &SECRET).unwrap();
    assert!(claimed.record.completed);
    assert!(c.get_escrow(&id).unwrap().completed);

    assert_eq!(
        c.claim_by_resolver(&id, signed(resolver()), 120, &SECRET),
        Err(EscrowError::AlreadyCompleted)
    );
}

#[test]
fn operations_before_their_watermark_fail_with_the_phase_error() {
    let mut c = contract(0);
    c.create_escrow(source(1, 1), 100, true).unwrap();
    let id = [1u8; 32];
    for now in [0u64, 100, 109] {
        assert_eq!(
            c.claim_by_resolver(&id, signed(resolver()), now, &SECRET),
            Err(EscrowError::FinalityLockActive)
        );
        assert_eq!(
            c.claim_by_user(&id, signed(stranger()), now, &SECRET),
            Err(EscrowError::FinalityLockActive)
        );
    }
    for now in [110u64, 129] {
        assert_eq!(
            c.claim_by_user(&id, signed(stranger()), now, &SECRET),
            Err(EscrowError::OnlyResolver)
        );
    }
    for now in [0u64, 109, 110, 129, 130, 159] {
        assert_eq!(
            c.cancel(&id, signed(resolver()), now),
            Err(EscrowError::CancellationNotAllowed)
        );
        assert_eq!(
            c.cancel_by_resolver(&id, signed(resolver()), now),
            Err(EscrowError::CancellationNotAllowed)
        );
    }
    assert!(!c.get_escrow(&id).unwrap().completed);
}

#[test]
fn operations_after_their_window_fail_with_the_phase_error() {
    let mut c = contract(0);
    c.create_escrow(source(1, 1), 100, true).unwrap();
    let id = [1u8; 32];
    for now in [130u64, 159, 160, 10_000] {
        assert_eq!(
            c.claim_by_resolver(&id, signed(resolver()), now, &SECRET),
            Err(EscrowError::ExclusivePeriodExpired)
        );
    }
    for now in [160u64, 10_000, u64::MAX] {
        assert_eq!(
            c.claim_by_user(&id, signed(stranger()), now, &SECRET),
            Err(EscrowError::CancellationNotAllowed)
        );
    }
}

#[test]
fn a_completed_escrow_refuses_everything() {
    let id = [1u8; 32];
    let mut c = contract(0);
    c.create_escrow(source(1, 1), 100, true).unwrap();
    c.claim_by_resolver(&id, signed(resolver()), 115, &SECRET).unwrap();
    let stored = c.get_escrow(&id);

    for now in [0u64, 109, 110, 129, 130, 159, 160, u64::MAX] {
        for who in [maker(), resolver(), stranger()] {
            for authorized in [true, false] {
                let caller = Caller { address: who, authorized };
                for secret in [&SECRET[..], &[0u8; 32][..], &[][..]] {
                    assert_eq!(
                        c.claim_by_resolver(&id, caller, now, secret),
                        Err(EscrowError::AlreadyCompleted)
                    );
                    assert_eq!(
                        c.claim_by_user(&id, caller, now, secret),
                        Err(EscrowError::AlreadyCompleted)
                    );
                }
                assert_eq!(c.cancel(&id, caller, now), Err(EscrowError::AlreadyCompleted));
                assert_eq!(
                    c.cancel_by_resolver(&id, caller, now),
                    Err(EscrowError::AlreadyCompleted)
                );
            }
        }
    }
    assert_eq!(c.get_escrow(&id), stored);
}

#[test]
fn a_cancelled_escrow_refuses_everything() {
    let id = [1u8; 32];
    let mut c = contract(0);
    c.create_escrow(source(1, 1), 100, true).unwrap();
    c.cancel(&id, signed(stranger()), 160).unwrap();
    assert_eq!(
        c.claim_by_resolver(&id, signed(resolver()), 115, &SECRET),
        Err(EscrowError::AlreadyCompleted)
    );
    assert_eq!(c.cancel(&id, signed(stranger()), 161), Err(EscrowError::AlreadyCompleted));
    assert_eq!(
        c.cancel_by_resolver(&id, signed(resolver()), 161),
        Err(EscrowError::AlreadyCompleted)
    );
}

#[test]
fn a_claim_succeeds_exactly_with_the_preimage() {
    let id = [1u8; 32];
    let mut c = contract(0);
    c.create_escrow(source(1, 1), 100, true).unwrap();

    for byte in 0..32 {
        for bit in 0..8 {
            let mut flipped = SECRET;
            flipped[byte] ^= 1 << bit;
            assert_eq!(
                c.claim_by_resolver(&id, signed(resolver()), 115, &flipped),
                Err(EscrowError::InvalidSecret)
            );
        }
    }
    assert_eq!(
        c.claim_by_resolver(&id, signed(resolver()), 115, &SECRET[..31]),
        Err(EscrowError::InvalidSecret)
    );
    assert_eq!(
        c.claim_by_resolver(&id, signed(resolver()), 115, &[0x5e; 33]),
        Err(EscrowError::InvalidSecret)
    );
    assert_eq!(
        c.claim_by_resolver(&id, signed(resolver()), 115, &hashlock()),
        Err(EscrowError::InvalidSecret)
    );
    assert!(!c.get_escrow(&id).unwrap().completed);

    let s = c.claim_by_resolver(&id, signed(resolver()), 115, &SECRET).unwrap();
    assert_eq!(s.event, Event::ClaimedExclusive { actor: resolver(), secret: SECRET });
}

#[test]
fn a_public_claim_fails_on_a_bad_secret_too() {
    let id = [1u8; 32];
    let mut c = contract(0);
    c.create_escrow(source(1, 1), 100, true).unwrap();
    let mut flipped = SECRET;
    flipped[31] ^= 0x80;
    assert_eq!(
        c.claim_by_user(&id, signed(stranger()), 140, &flipped),
        Err(EscrowError::InvalidSecret)
    );
    assert!(c.claim_by_user(&id, signed(stranger()), 140, &SECRET).is_ok());
}

#[test]
fn refund_goes_to_the_owner_of_a_source_side_escrow() {
    let id = [1u8; 32];
    let mut c = contract(0);
    c.create_escrow(source(1, 1), 100, true).unwrap();
    let s = c.cancel_by_resolver(&id, signed(resolver()), 160).unwrap();
    assert_eq!(s.principal.from, Holder::Custody);
    assert_eq!(s.principal.to, Holder::Party(maker()));
    assert_eq!(s.principal.amount, 1000);
    assert_eq!(s.deposit.unwrap().to, Holder::Party(resolver()));
    assert_eq!(s.deposit.unwrap().amount, 25);
}

#[test]
fn refund_goes_to_the_counterparty_of_a_destination_side_escrow() {
    let id = [1u8; 32];
    let mut c = contract(0);
    c.create_escrow(destination(1, 1), 100, true).unwrap();
    let s = c.cancel_by_resolver(&id, signed(resolver()), 160).unwrap();
    assert_eq!(s.principal.to, Holder::Party(resolver()));
    assert_eq!(s.principal.amount, 1000);

    c.create_escrow(destination(2, 2), 100, true).unwrap();
    let s = c.cancel(&[2u8; 32], signed(stranger()), 160).unwrap();
    assert_eq!(s.principal.to, Holder::Party(resolver()));
    assert_eq!(s.deposit.unwrap().to, Holder::Party(stranger()));
}

#[test]
fn the_exclusive_window_is_exclusive() {
    let id = [1u8; 32];
    let mut c = contract(0);
    c.create_escrow(source(1, 1), 100, true).unwrap();

    // Strictly before exclusive_end, even with the right secret.
    for now in [100u64, 110, 120, 129] {
        assert!(c.claim_by_user(&id, signed(stranger()), now, &SECRET).is_err());
        assert!(c.claim_by_resolver(&id, signed(stranger()), now, &SECRET).is_err());
    }
    assert_eq!(
        c.claim_by_resolver(&id, signed(stranger()), 120, &SECRET),
        Err(EscrowError::OnlyResolver)
    );
    assert!(!c.get_escrow(&id).unwrap().completed);

    // The identical call after exclusive_end and before cancellation_end.
    let s = c.claim_by_user(&id, signed(stranger()), 131, &SECRET).unwrap();
    assert_eq!(s.principal.to, Holder::Party(resolver()));
    assert_eq!(s.deposit.unwrap().to, Holder::Party(stranger()));
    assert_eq!(s.event, Event::ClaimedPublic { actor: stranger(), secret: SECRET });
    assert!(c.get_escrow(&id).unwrap().completed);
}

#[test]
fn the_public_window_opens_at_exclusive_end_and_closes_at_cancellation_end() {
    let mut c = contract(0);
    c.create_escrow(source(1, 1), 100, true).unwrap();
    c.create_escrow(source(2, 2), 100, true).unwrap();
    assert!(c.claim_by_user(&[1u8; 32], signed(stranger()), 130, &SECRET).is_ok());
    assert!(c.claim_by_user(&[2u8; 32], signed(stranger()), 159, &SECRET).is_ok());
}

#[test]
fn a_nonce_cannot_be_replayed() {
    let mut c = contract(0);
    c.create_escrow(source(1, 5), 100, true).unwrap();
    assert_eq!(c.last_nonce(&maker()), 5);

    // The same request again, and other requests with a nonce of at most 5.
    assert_eq!(c.create_escrow(source(1, 5), 100, true), Err(EscrowError::InvalidNonce));
    for nonce in [0u64, 1, 4, 5] {
        assert_eq!(c.create_escrow(source(2, nonce), 100, true), Err(EscrowError::InvalidNonce));
        assert_eq!(
            c.create_escrow(destination(3, nonce), 200, true),
            Err(EscrowError::InvalidNonce)
        );
    }
    assert_eq!(c.get_escrow(&[2u8; 32]), None);
    assert_eq!(c.get_escrow_count(), 1);
    assert_eq!(c.last_nonce(&maker()), 5);

    assert!(c.create_escrow(source(2, 6), 100, true).is_ok());
    assert_eq!(c.last_nonce(&maker()), 6);
    assert_eq!(c.create_escrow(source(3, 6), 100, true), Err(EscrowError::InvalidNonce));
}

#[test]
fn nonces_are_counted_per_owner() {
    let mut c = contract(0);
    c.create_escrow(source(1, 5), 100, true).unwrap();
    let other = EscrowTerms { owner: stranger(), ..source(2, 1) };
    assert!(c.create_escrow(other, 100, true).is_ok());
    assert_eq!(c.last_nonce(&maker()), 5);
    assert_eq!(c.last_nonce(&stranger()), 1);
    assert_eq!(c.last_nonce(&resolver()), 0);
}

#[test]
fn a_failed_creation_uses_no_nonce() {
    let mut c = contract(0);
    let invalid = EscrowTerms { amount: 0, ..source(1, 7) };
    assert_eq!(c.create_escrow(invalid, 100, true), Err(EscrowError::InvalidAmount));
    assert_eq!(c.create_escrow(source(1, 7), 100, false), Err(EscrowError::Unauthorized));
    assert_eq!(c.last_nonce(&maker()), 0);
    assert_eq!(c.get_escrow(&[1u8; 32]), None);
    assert_eq!(c.get_escrow_count(), 0);
    assert!(c.create_escrow(source(1, 7), 100, true).is_ok());
}

#[test]
fn creation_errors() {
    let mut c = StellarEscrow::new(EscrowConfig {
        min_safety_deposit: 20,
        cancellation_grace: 0,
        storage_ttl: 0,
    });
    assert_eq!(c.create_escrow(source(1, 1), 100, false), Err(EscrowError::Unauthorized));
    assert_eq!(c.create_escrow(source(1, 0), 100, true), Err(EscrowError::InvalidNonce));
    let free = EscrowTerms { amount: 0, ..source(1, 1) };
    assert_eq!(c.create_escrow(free, 100, true), Err(EscrowError::InvalidAmount));
    let cheap = EscrowTerms { safety_deposit: 19, ..source(1, 1) };
    assert_eq!(c.create_escrow(cheap, 100, true), Err(EscrowError::InsufficientSafetyDeposit));
    let endless = EscrowTerms { exclusive_duration: u64::MAX, ..source(1, 1) };
    assert_eq!(c.create_escrow(endless, 100, true), Err(EscrowError::InvalidDuration));
    assert!(c.create_escrow(source(1, 1), 100, true).is_ok());
    assert_eq!(c.create_escrow(source(1, 2), 100, true), Err(EscrowError::AlreadyExists));
    assert_eq!(c.last_nonce(&maker()), 1);
}

#[test]
fn only_source_side_creations_are_counted() {
    let mut c = contract(0);
    assert_eq!(c.get_escrow_count(), 0);
    c.create_escrow(destination(1, 1), 100, true).unwrap();
    assert_eq!(c.get_escrow_count(), 0);
    c.create_escrow(source(2, 2), 100, true).unwrap();
    assert_eq!(c.get_escrow_count(), 1);
    c.create_escrow(destination(3, 3), 100, true).unwrap();
    c.create_escrow(source(4, 4), 100, true).unwrap();
    assert_eq!(c.get_escrow_count(), 2);
    c.claim_by_resolver(&[2u8; 32], signed(resolver()), 115, &SECRET).unwrap();
    c.cancel(&[4u8; 32], signed(resolver()), 160).unwrap();
    assert_eq!(c.get_escrow_count(), 2);
}

#[test]
fn creation_moves_the_funds_into_custody() {
    let mut c = contract(0);
    let s = c.create_escrow(source(1, 1), 100, true).unwrap();
    assert_eq!(s.principal.from, Holder::Party(maker()));
    assert_eq!(s.principal.to, Holder::Custody);
    assert_eq!(s.principal.amount, 1000);
    assert_eq!(s.deposit, None);
    assert_eq!(
        s.event,
        Event::SourceCreated {
            owner: maker(),
            counterparty: resolver(),
            amount: 1000,
            safety_deposit: 25
        }
    );

    let s = c.create_escrow(destination(2, 2), 100, true).unwrap();
    assert_eq!(s.principal.from, Holder::Party(resolver()));
    assert_eq!(s.principal.to, Holder::Custody);
    let deposit = s.deposit.unwrap();
    assert_eq!(deposit.from, Holder::Party(resolver()));
    assert_eq!(deposit.to, Holder::Custody);
    assert_eq!(deposit.amount, 25);
    assert_eq!(
        s.event,
        Event::DestinationCreated {
            owner: maker(),
            counterparty: resolver(),
            amount: 1000,
            safety_deposit: 25
        }
    );
}

#[test]
fn a_failed_operation_changes_nothing() {
    let id = [1u8; 32];
    let mut c = contract(0);
    c.create_escrow(source(1, 1), 100, true).unwrap();
    let before: Option<EscrowRecord> = c.get_escrow(&id);

    assert!(c.claim_by_resolver(&id, signed(resolver()), 115, &[0u8; 32]).is_err());
    assert!(c.claim_by_resolver(&id, signed(stranger()), 115, &SECRET).is_err());
    assert!(c.claim_by_resolver(&id, Caller { address: resolver(), authorized: false }, 115, &SECRET)
        .is_err());
    assert!(c.claim_by_user(&id, signed(stranger()), 115, &SECRET).is_err());
    assert!(c.cancel(&id, signed(resolver()), 115).is_err());
    assert!(c.cancel_by_resolver(&id, signed(resolver()), 115).is_err());
    assert_eq!(c.claim_by_resolver(&[2u8; 32], signed(resolver()), 115, &SECRET),
        Err(EscrowError::NotFound));
    assert_eq!(c.cancel(&[2u8; 32], signed(resolver()), 160), Err(EscrowError::NotFound));

    assert_eq!(c.get_escrow(&id), before);
    assert_eq!(c.get_escrow(&[2u8; 32]), None);
    assert_eq!(c.get_escrow_count(), 1);
    assert_eq!(c.expiry(&id), Some(10_100));
}

#[test]
fn an_unauthorized_caller_is_told_so() {
    let id = [1u8; 32];
    let mut c = contract(0);
    c.create_escrow(source(1, 1), 100, true).unwrap();
    let resolver_unsigned = Caller { address: resolver(), authorized: false };
    let stranger_unsigned = Caller { address: stranger(), authorized: false };
    assert_eq!(
        c.claim_by_resolver(&id, resolver_unsigned, 115, &SECRET),
        Err(EscrowError::Unauthorized)
    );
    assert_eq!(
        c.claim_by_user(&id, stranger_unsigned, 140, &SECRET),
        Err(EscrowError::Unauthorized)
    );
    assert_eq!(c.cancel(&id, stranger_unsigned, 160), Err(EscrowError::Unauthorized));
    assert_eq!(c.cancel_by_resolver(&id, resolver_unsigned, 160), Err(EscrowError::Unauthorized));
    assert!(!c.get_escrow(&id).unwrap().completed);
}

#[test]
fn the_grace_window_reserves_public_cancellation() {
    let id = [1u8; 32];
    let mut c = contract(15);
    c.create_escrow(source(1, 1), 100, true).unwrap();
    for now in [160u64, 174] {
        assert_eq!(c.cancel(&id, signed(stranger()), now), Err(EscrowError::OnlyResolver));
        assert_eq!(c.cancel(&id, signed(maker()), now), Err(EscrowError::OnlyResolver));
    }
    let s = c.cancel(&id, signed(stranger()), 175).unwrap();
    assert_eq!(s.deposit.unwrap().to, Holder::Party(stranger()));
    assert_eq!(s.event, Event::CancelledPublic { actor: stranger() });

    c.create_escrow(source(2, 2), 100, true).unwrap();
    let s = c.cancel(&[2u8; 32], signed(resolver()), 160).unwrap();
    assert_eq!(s.deposit.unwrap().to, Holder::Party(resolver()));
}

#[test]
fn the_exclusive_cancellation_is_for_the_counterparty() {
    let id = [1u8; 32];
    let mut c = contract(0);
    c.create_escrow(source(1, 1), 100, true).unwrap();
    for now in [160u64, 1_000_000] {
        assert_eq!(
            c.cancel_by_resolver(&id, signed(stranger()), now),
            Err(EscrowError::OnlyResolver)
        );
        assert_eq!(
            c.cancel_by_resolver(&id, signed(maker()), now),
            Err(EscrowError::OnlyResolver)
        );
    }
    let s = c.cancel_by_resolver(&id, signed(resolver()), 160).unwrap();
    assert_eq!(s.event, Event::CancelledExclusive { actor: resolver() });
    assert!(s.record.completed);
}

#[test]
fn the_record_keeps_what_it_was_created_with() {
    let id = [1u8; 32];
    let mut c = contract(0);
    let created = c.create_escrow(source(1, 1), 100, true).unwrap().record;
    c.claim_by_resolver(&id, signed(resolver()), 115, &SECRET).unwrap();
    let stored = c.get_escrow(&id).unwrap();
    assert_eq!(stored, EscrowRecord { completed: true, ..created });
    assert_eq!(stored.hashlock, hashlock());
    assert_eq!(stored.id, id);
}

#[test]
fn expiry_is_refreshed_on_creation_and_saturates() {
    let mut c = contract(0);
    c.create_escrow(source(1, 1), 100, true).unwrap();
    assert_eq!(c.expiry(&[1u8; 32]), Some(10_100));
    let late = EscrowTerms {
        finality_duration: 0,
        exclusive_duration: 0,
        cancellation_duration: 0,
        ..source(2, 2)
    };
    c.create_escrow(late, u64::MAX - 3, true).unwrap();
    assert_eq!(c.expiry(&[2u8; 32]), Some(u64::MAX));
    assert_eq!(c.expiry(&[3u8; 32]), None);
    assert_eq!(c.config().storage_ttl, 10_000);
}
