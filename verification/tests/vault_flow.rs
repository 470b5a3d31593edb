use nft_vault_swap::identity::Identity;
use nft_vault_swap::rent::RENT_PER_DAY;
use nft_vault_swap::store::{LockAccount, LockStore};
use nft_vault_swap::vault::{
    initialize_vault, lock_nft, rent_due, unlock_nft, withdraw_rent, InitializeVault, LockNFT,
    NFTLocked, NFTUnlocked, RentWithdrawn, Transfer, UnlockNFT, Vault, VaultError, VaultState,
    WithdrawRent,
};

fn id(tag: u8) -> Identity {
    Identity::new([tag; 32])
}

fn ready(authority: Identity) -> VaultState {
    let mut state = VaultState::new();
    assert_eq!(initialize_vault(&mut state, &InitializeVault { authority }), Ok(()));
    state
}

fn lock_req(user: Identity, mint: Identity) -> LockNFT {
    LockNFT { user, mint, bump: 254, nft_transfer: Transfer::Completed }
}

fn unlock_req(user: Identity, mint: Identity) -> UnlockNFT {
    UnlockNFT {
        user,
        mint,
        rent_transfer: Transfer::Completed,
        nft_transfer: Transfer::Completed,
    }
}

fn withdraw_req(authority: Identity) -> WithdrawRent {
    WithdrawRent { authority, rent_transfer: Transfer::Completed }
}

fn balance(state: &VaultState) -> u64 {
    state.vault().unwrap().total_rent_collected
}

#[test]
fn new_vault_has_no_ledger_and_no_locks() {
    let state = VaultState::new();
    assert_eq!(state.vault(), None);
    assert_eq!(state.lock_count(), 0);
    assert_eq!(state.lock_account(&id(1), &id(2)), None);
}

#[test]
fn initialize_creates_empty_ledger() {
    let mut state = VaultState::new();
    let r = initialize_vault(&mut state, &InitializeVault { authority: id(7) });
    assert_eq!(r, Ok(()));
    assert_eq!(
        state.vault(),
        Some(Vault { authority: id(7), total_rent_collected: 0, bump: 0 })
    );
}

#[test]
fn initialize_twice_is_refused() {
    let mut state = ready(id(7));
    let r = initialize_vault(&mut state, &InitializeVault { authority: id(8) });
    assert_eq!(r, Err(VaultError::AlreadyInitialized));
    assert_eq!(state.vault().unwrap().authority, id(7));
}

#[test]
fn full_scenario_lock_unlock_withdraw() {
    let a = id(0xA);
    let d = id(0xD);
    let x = id(0x1);
    let mut state = ready(a);

    let locked = lock_nft(&mut state, &lock_req(d, x), 100_000, 0);
    assert_eq!(
        locked,
        Ok(NFTLocked { user: d, mint: x, lock_time: 0, unlock_time: 100_000 })
    );
    assert_eq!(
        state.lock_account(&d, &x),
        Some(LockAccount {
            user: d,
            mint: x,
            lock_time: 0,
            unlock_time: 100_000,
            rent_per_day: 10_000_000,
            bump: 254,
        })
    );

    let early = unlock_nft(&mut state, &unlock_req(d, x), 50_000);
    assert_eq!(early, Err(VaultError::NFTStillLocked));
    assert!(state.lock_account(&d, &x).is_some());
    assert_eq!(balance(&state), 0);

    let released = unlock_nft(&mut state, &unlock_req(d, x), 200_000);
    assert_eq!(
        released,
        Ok(NFTUnlocked { user: d, mint: x, unlock_time: 200_000, rent_paid: 30_000_000 })
    );
    assert_eq!(state.lock_account(&d, &x), None);
    assert_eq!(balance(&state), 30_000_000);

    let taken = withdraw_rent(&mut state, &withdraw_req(a), 30_000_000);
    assert_eq!(taken, Ok(RentWithdrawn { authority: a, amount: 30_000_000 }));
    assert_eq!(balance(&state), 0);

    let more = withdraw_rent(&mut state, &withdraw_req(a), 1);
    assert_eq!(more, Err(VaultError::InsufficientFunds));
    assert_eq!(balance(&state), 0);
}

#[test]
fn balance_is_rent_paid_less_rent_withdrawn() {
    let a = id(1);
    let d = id(2);
    let mut state = ready(a);
    let mut paid: u64 = 0;
    let mut taken: u64 = 0;

    for (n, held) in [1i64, 86_400, 200_000, 864_000].iter().enumerate() {
        let asset = id(100 + n as u8);
        assert!(lock_nft(&mut state, &lock_req(d, asset), 0, 1_000).is_ok());
        let event = unlock_nft(&mut state, &unlock_req(d, asset), 1_000 + held).unwrap();
        paid += event.rent_paid;
        assert_eq!(balance(&state), paid - taken);

        let part = event.rent_paid / 2;
        assert!(withdraw_rent(&mut state, &withdraw_req(a), part).is_ok());
        taken += part;
        assert_eq!(balance(&state), paid - taken);

        // refused requests move nothing
        assert!(withdraw_rent(&mut state, &withdraw_req(d), 1).is_err());
        assert!(unlock_nft(&mut state, &unlock_req(d, asset), 5_000).is_err());
        assert_eq!(balance(&state), paid - taken);
    }
    assert_eq!(paid, (1 + 2 + 3 + 11) * RENT_PER_DAY);
    assert_eq!(balance(&state), paid - taken);
}

#[test]
fn second_lock_on_locked_pair_is_refused_without_change() {
    let d = id(2);
    let x = id(3);
    let mut state = ready(id(1));
    assert!(lock_nft(&mut state, &lock_req(d, x), 500, 10).is_ok());
    let before = state.lock_account(&d, &x);

    let again = lock_nft(
        &mut state,
        &LockNFT { user: d, mint: x, bump: 7, nft_transfer: Transfer::Completed },
        9_999,
        20,
    );
    assert_eq!(again, Err(VaultError::RecordAlreadyExists));
    assert_eq!(state.lock_account(&d, &x), before);
    assert_eq!(state.lock_count(), 1);

    let rejected_too = lock_nft(
        &mut state,
        &LockNFT { user: d, mint: x, bump: 7, nft_transfer: Transfer::Rejected },
        1,
        20,
    );
    assert_eq!(rejected_too, Err(VaultError::RecordAlreadyExists));
}

#[test]
fn different_pairs_lock_independently() {
    let mut state = ready(id(1));
    assert!(lock_nft(&mut state, &lock_req(id(2), id(3)), 10, 0).is_ok());
    assert!(lock_nft(&mut state, &lock_req(id(2), id(4)), 10, 0).is_ok());
    assert!(lock_nft(&mut state, &lock_req(id(5), id(3)), 10, 0).is_ok());
    assert_eq!(state.lock_count(), 3);
    assert!(unlock_nft(&mut state, &unlock_req(id(2), id(4)), 10).is_ok());
    assert_eq!(state.lock_count(), 2);
    assert!(state.lock_account(&id(2), &id(3)).is_some());
    assert!(state.lock_account(&id(5), &id(3)).is_some());
    assert!(state.lock_account(&id(2), &id(4)).is_none());
}

#[test]
fn unlock_one_second_early_is_still_locked() {
    let d = id(2);
    let x = id(3);
    let mut state = ready(id(1));
    assert!(lock_nft(&mut state, &lock_req(d, x), 1_000, 5_000).is_ok());
    assert_eq!(
        unlock_nft(&mut state, &unlock_req(d, x), 5_999),
        Err(VaultError::NFTStillLocked)
    );
    assert!(state.lock_account(&d, &x).is_some());
    assert_eq!(balance(&state), 0);
    assert_eq!(
        unlock_nft(&mut state, &unlock_req(d, x), 6_000),
        Ok(NFTUnlocked { user: d, mint: x, unlock_time: 6_000, rent_paid: 10_000_000 })
    );
}

#[test]
fn unlock_then_lock_again_succeeds() {
    let d = id(2);
    let x = id(3);
    let mut state = ready(id(1));
    assert!(lock_nft(&mut state, &lock_req(d, x), 10, 0).is_ok());
    assert!(unlock_nft(&mut state, &unlock_req(d, x), 10).is_ok());
    assert_eq!(state.lock_account(&d, &x), None);
    assert_eq!(
        unlock_nft(&mut state, &unlock_req(d, x), 10),
        Err(VaultError::RecordNotFound)
    );

    let again = lock_nft(&mut state, &lock_req(d, x), 77, 1_000);
    assert_eq!(
        again,
        Ok(NFTLocked { user: d, mint: x, lock_time: 1_000, unlock_time: 1_077 })
    );
    assert_eq!(state.lock_account(&d, &x).unwrap().lock_time, 1_000);
}

#[test]
fn withdraw_by_stranger_is_unauthorized_for_any_amount() {
    let a = id(1);
    let d = id(2);
    let mut state = ready(a);
    assert!(lock_nft(&mut state, &lock_req(d, id(3)), 0, 0).is_ok());
    assert!(unlock_nft(&mut state, &unlock_req(d, id(3)), 0).is_ok());
    assert_eq!(balance(&state), 10_000_000);
    for amount in [0u64, 1, 10_000_000, 10_000_001, u64::MAX] {
        assert_eq!(
            withdraw_rent(&mut state, &withdraw_req(d), amount),
            Err(VaultError::Unauthorized)
        );
        assert_eq!(balance(&state), 10_000_000);
    }
    let mut near = [1u8; 32];
    near[31] = 0;
    assert_eq!(
        withdraw_rent(&mut state, &withdraw_req(Identity::new(near)), 1),
        Err(VaultError::Unauthorized)
    );
}

#[test]
fn withdraw_partial_then_rest() {
    let a = id(1);
    let d = id(2);
    let mut state = ready(a);
    assert!(lock_nft(&mut state, &lock_req(d, id(3)), 0, 0).is_ok());
    assert!(unlock_nft(&mut state, &unlock_req(d, id(3)), 0).is_ok());
    assert_eq!(
        withdraw_rent(&mut state, &withdraw_req(a), 4_000_000),
        Ok(RentWithdrawn { authority: a, amount: 4_000_000 })
    );
    assert_eq!(balance(&state), 6_000_000);
    assert_eq!(
        withdraw_rent(&mut state, &withdraw_req(a), 6_000_001),
        Err(VaultError::InsufficientFunds)
    );
    assert_eq!(
        withdraw_rent(&mut state, &withdraw_req(a), 0),
        Ok(RentWithdrawn { authority: a, amount: 0 })
    );
    assert!(withdraw_rent(&mut state, &withdraw_req(a), 6_000_000).is_ok());
    assert_eq!(balance(&state), 0);
}

#[test]
fn operations_before_initialize_are_refused() {
    let mut state = VaultState::new();
    assert_eq!(
        lock_nft(&mut state, &lock_req(id(2), id(3)), 10, 0),
        Err(VaultError::NotInitialized)
    );
    assert_eq!(
        unlock_nft(&mut state, &unlock_req(id(2), id(3)), 10),
        Err(VaultError::NotInitialized)
    );
    assert_eq!(
        withdraw_rent(&mut state, &withdraw_req(id(1)), 0),
        Err(VaultError::NotInitialized)
    );
    assert_eq!(state.vault(), None);
    assert_eq!(state.lock_count(), 0);
}

#[test]
fn rejected_transfers_fail_and_change_nothing() {
    let a = id(1);
    let d = id(2);
    let x = id(3);
    let mut state = ready(a);

    let no_asset = LockNFT { user: d, mint: x, bump: 1, nft_transfer: Transfer::Rejected };
    assert_eq!(lock_nft(&mut state, &no_asset, 10, 0), Err(VaultError::TransferFailed));
    assert_eq!(state.lock_count(), 0);

    assert!(lock_nft(&mut state, &lock_req(d, x), 10, 0).is_ok());
    let no_rent = UnlockNFT {
        user: d,
        mint: x,
        rent_transfer: Transfer::Rejected,
        nft_transfer: Transfer::Completed,
    };
    assert_eq!(unlock_nft(&mut state, &no_rent, 10), Err(VaultError::TransferFailed));
    let no_return = UnlockNFT {
        user: d,
        mint: x,
        rent_transfer: Transfer::Completed,
        nft_transfer: Transfer::Rejected,
    };
    assert_eq!(unlock_nft(&mut state, &no_return, 10), Err(VaultError::TransferFailed));
    assert!(state.lock_account(&d, &x).is_some());
    assert_eq!(balance(&state), 0);

    // still locked is reported before any transfer is looked at
    assert_eq!(unlock_nft(&mut state, &no_rent, 9), Err(VaultError::NFTStillLocked));

    assert!(unlock_nft(&mut state, &unlock_req(d, x), 10).is_ok());
    let stuck = WithdrawRent { authority: a, rent_transfer: Transfer::Rejected };
    assert_eq!(withdraw_rent(&mut state, &stuck, 5), Err(VaultError::TransferFailed));
    assert_eq!(balance(&state), 10_000_000);
    // too much is reported before the transfer is looked at
    assert_eq!(
        withdraw_rent(&mut state, &stuck, 10_000_001),
        Err(VaultError::InsufficientFunds)
    );
}

#[test]
fn lock_with_unlock_time_out_of_range_overflows() {
    let mut state = ready(id(1));
    assert_eq!(
        lock_nft(&mut state, &lock_req(id(2), id(3)), 1, i64::MAX),
        Err(VaultError::Overflow)
    );
    assert_eq!(
        lock_nft(&mut state, &lock_req(id(2), id(3)), -1, i64::MIN),
        Err(VaultError::Overflow)
    );
    assert_eq!(state.lock_count(), 0);
    assert_eq!(
        lock_nft(&mut state, &lock_req(id(2), id(3)), 0, i64::MAX),
        Ok(NFTLocked { user: id(2), mint: id(3), lock_time: i64::MAX, unlock_time: i64::MAX })
    );
}

#[test]
fn zero_and_negative_durations_release_at_once() {
    let d = id(2);
    let mut state = ready(id(1));
    assert_eq!(
        lock_nft(&mut state, &lock_req(d, id(3)), -500, 1_000),
        Ok(NFTLocked { user: d, mint: id(3), lock_time: 1_000, unlock_time: 500 })
    );
    assert_eq!(
        unlock_nft(&mut state, &unlock_req(d, id(3)), 1_000),
        Ok(NFTUnlocked { user: d, mint: id(3), unlock_time: 1_000, rent_paid: 10_000_000 })
    );
    assert!(lock_nft(&mut state, &lock_req(d, id(4)), 0, 1_000).is_ok());
    assert_eq!(
        unlock_nft(&mut state, &unlock_req(d, id(4)), 1_000),
        Ok(NFTUnlocked { user: d, mint: id(4), unlock_time: 1_000, rent_paid: 10_000_000 })
    );
}

#[test]
fn rent_too_large_to_charge_overflows() {
    let d = id(2);
    let x = id(3);
    let mut state = ready(id(1));
    assert!(lock_nft(&mut state, &lock_req(d, x), 0, 0).is_ok());
    assert_eq!(
        unlock_nft(&mut state, &unlock_req(d, x), i64::MAX),
        Err(VaultError::Overflow)
    );
    assert!(state.lock_account(&d, &x).is_some());
    assert_eq!(balance(&state), 0);
}

#[test]
fn ledger_that_cannot_hold_the_rent_overflows() {
    let d = id(2);
    let mut state = ready(id(1));
    // 1_700_000_000_000 days at 10_000_000 a day: 1.7e19, just under u64::MAX
    let long: i64 = 86_400 * 1_699_999_999_999;
    assert!(lock_nft(&mut state, &lock_req(d, id(3)), 0, 0).is_ok());
    assert!(lock_nft(&mut state, &lock_req(d, id(4)), 0, 0).is_ok());
    let first = unlock_nft(&mut state, &unlock_req(d, id(3)), long).unwrap();
    assert_eq!(first.rent_paid, 17_000_000_000_000_000_000);
    assert_eq!(
        unlock_nft(&mut state, &unlock_req(d, id(4)), long),
        Err(VaultError::Overflow)
    );
    assert!(state.lock_account(&d, &id(4)).is_some());
    assert_eq!(balance(&state), 17_000_000_000_000_000_000);
}

#[test]
fn rent_due_quotes_what_unlock_charges() {
    let record = LockAccount {
        user: id(2),
        mint: id(3),
        lock_time: 100,
        unlock_time: 200,
        rent_per_day: 10_000_000,
        bump: 0,
    };
    assert_eq!(rent_due(&record, 199), Err(VaultError::NFTStillLocked));
    assert_eq!(rent_due(&record, 200), Ok(10_000_000));
    assert_eq!(rent_due(&record, 100 + 86_399), Ok(10_000_000));
    assert_eq!(rent_due(&record, 100 + 86_400), Ok(20_000_000));
    assert_eq!(rent_due(&record, i64::MAX), Err(VaultError::Overflow));
}

#[test]
fn error_messages() {
    assert_eq!(VaultError::NFTStillLocked.message(), "NFT is still locked");
    assert_eq!(VaultError::InsufficientFunds.message(), "Insufficient funds in the vault");
    let all = [
        VaultError::NFTStillLocked,
        VaultError::InsufficientFunds,
        VaultError::AlreadyInitialized,
        VaultError::NotInitialized,
        VaultError::RecordAlreadyExists,
        VaultError::RecordNotFound,
        VaultError::TransferFailed,
        VaultError::Overflow,
        VaultError::Unauthorized,
    ];
    for (i, a) in all.iter().enumerate() {
        assert!(!a.message().is_empty());
        for b in all.iter().skip(i + 1) {
            assert_ne!(a.message(), b.message());
        }
    }
}

#[test]
fn vault_from_existing_ledger_and_record() {
    let d = id(2);
    let x = id(3);
    let mut locks = LockStore::new();
    assert!(locks.insert(LockAccount {
        user: d,
        mint: x,
        lock_time: 0,
        unlock_time: 10,
        rent_per_day: 10_000_000,
        bump: 3,
    }));
    let ledger = Vault { authority: id(1), total_rent_collected: 5, bump: 0 };
    let mut state = VaultState::from_parts(Some(ledger), locks);
    assert_eq!(state.vault(), Some(ledger));
    assert_eq!(state.lock_count(), 1);
    assert_eq!(
        unlock_nft(&mut state, &unlock_req(d, x), 86_400),
        Ok(NFTUnlocked { user: d, mint: x, unlock_time: 86_400, rent_paid: 20_000_000 })
    );
    assert_eq!(balance(&state), 20_000_005);
    assert_eq!(state.lock_count(), 0);
}

#[test]
fn release_before_deposit_time_still_pays_one_day() {
    let d = id(2);
    let x = id(3);
    let mut state = ready(id(1));
    assert_eq!(
        lock_nft(&mut state, &lock_req(d, x), -1_000, 1_000),
        Ok(NFTLocked { user: d, mint: x, lock_time: 1_000, unlock_time: 0 })
    );
    assert_eq!(
        unlock_nft(&mut state, &unlock_req(d, x), 500),
        Ok(NFTUnlocked { user: d, mint: x, unlock_time: 500, rent_paid: 10_000_000 })
    );
    assert_eq!(balance(&state), 10_000_000);
    assert_eq!(state.lock_account(&d, &x), None);

    // far before the deposit: still one day, never free and never refused
    assert!(lock_nft(&mut state, &lock_req(d, x), -10_000_000, 1_000).is_ok());
    assert_eq!(
        unlock_nft(&mut state, &unlock_req(d, x), -5_000_000),
        Ok(NFTUnlocked { user: d, mint: x, unlock_time: -5_000_000, rent_paid: 10_000_000 })
    );
    assert_eq!(balance(&state), 20_000_000);
}

#[test]
fn relock_after_unlock_is_like_a_first_lock() {
    let d = id(2);
    let x = id(3);
    for (duration, now) in [(77i64, 1_000i64), (0, 0), (-5, 9), (1, i64::MAX), (-1, i64::MIN)] {
        let mut used = ready(id(1));
        assert!(lock_nft(&mut used, &lock_req(d, x), 100, 5).is_ok());
        assert!(unlock_nft(&mut used, &unlock_req(d, x), 105).is_ok());
        let mut fresh = ready(id(1));

        let on_used = lock_nft(&mut used, &lock_req(d, x), duration, now);
        let on_fresh = lock_nft(&mut fresh, &lock_req(d, x), duration, now);
        assert_eq!(on_used, on_fresh);
        assert_eq!(used.lock_account(&d, &x), fresh.lock_account(&d, &x));
        match on_used {
            Ok(event) => {
                assert_eq!(
                    event,
                    NFTLocked { user: d, mint: x, lock_time: now, unlock_time: now + duration }
                );
                assert_eq!(
                    used.lock_account(&d, &x),
                    Some(LockAccount {
                        user: d,
                        mint: x,
                        lock_time: now,
                        unlock_time: now + duration,
                        rent_per_day: 10_000_000,
                        bump: 254,
                    })
                );
            }
            Err(e) => {
                assert_eq!(e, VaultError::Overflow);
                assert_eq!(used.lock_account(&d, &x), None);
            }
        }
    }
}
