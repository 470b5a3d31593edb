//! The vault accounting engine: initialize, lock, unlock and withdraw.
//!
//! The engine owns the ledger and the lock record store. It moves no asset
//! and no money itself: the host performs the transfers an operation calls
//! for and reports how each went, and the engine decides from that whether
//! the operation takes effect. An operation that fails changes nothing.

use vstd::prelude::*;
use crate::identity::Identity;
use crate::rent::{compute_rent, rent_chargeable, rent_owed, RENT_PER_DAY};
use crate::store::{LockAccount, LockKey, LockStore};

verus! {

/// The ledger: who may withdraw, and how much rent is there to withdraw.
#[derive(Clone, Copy, Debug, PartialEq, Eq)]
pub struct Vault {
    /// The identity permitted to withdraw rent. Set once, at initialization.
    pub authority: Identity,
    /// Rent collected by unlocks and not yet withdrawn.
    pub total_rent_collected: u64,
    /// Seed byte of the ledger's derived address.
    pub bump: u8,
}

/// Why an operation was refused.
#[derive(Clone, Copy, Debug, PartialEq, Eq, Structural)]
pub enum VaultError {
    /// Release was requested before the unlock time.
    NFTStillLocked,
    /// More was asked for than the ledger holds.
    InsufficientFunds,
    /// The ledger already exists.
    AlreadyInitialized,
    /// The ledger does not exist yet.
    NotInitialized,
    /// The pair already has a lock record.
    RecordAlreadyExists,
    /// The pair has no lock record.
    RecordNotFound,
    /// The host reported that a transfer was rejected.
    TransferFailed,
    /// A time, a rent or a balance does not fit its integer type.
    Overflow,
    /// The caller is not the ledger's authority.
    Unauthorized,
}

impl VaultError {
    /// The text that describes the refusal.
    pub open spec fn message_text(self) -> Seq<char> {
        match self {
            VaultError::NFTStillLocked => "NFT is still locked"@,
            VaultError::InsufficientFunds => "Insufficient funds in the vault"@,
            VaultError::AlreadyInitialized => "Vault is already initialized"@,
            VaultError::NotInitialized => "Vault is not initialized"@,
            VaultError::RecordAlreadyExists => "NFT is already locked"@,
            VaultError::RecordNotFound => "NFT is not locked"@,
            VaultError::TransferFailed => "Transfer failed"@,
            VaultError::Overflow => "Arithmetic overflow"@,
            VaultError::Unauthorized => "Signer is not the vault authority"@,
        }
    }

    /// A description of the refusal, for the caller to show.
    pub fn message(&self) -> (s: String)
        ensures
            s@ == self.message_text(),
    {
        match self {
            VaultError::NFTStillLocked => "NFT is still locked".to_owned(),
            VaultError::InsufficientFunds => "Insufficient funds in the vault".to_owned(),
            VaultError::AlreadyInitialized => "Vault is already initialized".to_owned(),
            VaultError::NotInitialized => "Vault is not initialized".to_owned(),
            VaultError::RecordAlreadyExists => "NFT is already locked".to_owned(),
            VaultError::RecordNotFound => "NFT is not locked".to_owned(),
            VaultError::TransferFailed => "Transfer failed".to_owned(),
            VaultError::Overflow => "Arithmetic overflow".to_owned(),
            VaultError::Unauthorized => "Signer is not the vault authority".to_owned(),
        }
    }
}

/// How a transfer that an operation calls for went, as reported by the host.
#[derive(Clone, Copy, Debug, PartialEq, Eq, Structural)]
pub enum Transfer {
    /// The transfer took place.
    Completed,
    /// The transfer was rejected and moved nothing.
    Rejected,
}

/// A request to create the ledger.
#[derive(Clone, Copy, Debug, PartialEq, Eq)]
pub struct InitializeVault {
    /// The signer of the request, who becomes the authority.
    pub authority: Identity,
}

/// A request to lock an asset.
#[derive(Clone, Copy, Debug, PartialEq, Eq)]
pub struct LockNFT {
    /// The depositor, signer of the request.
    pub user: Identity,
    /// The asset to lock.
    pub mint: Identity,
    /// Seed byte of the new record's derived address.
    pub bump: u8,
    /// Outcome of moving one unit of the asset from the depositor to the vault.
    pub nft_transfer: Transfer,
}

/// A request to release a locked asset.
#[derive(Clone, Copy, Debug, PartialEq, Eq)]
pub struct UnlockNFT {
    /// The depositor, signer of the request.
    pub user: Identity,
    /// The locked asset.
    pub mint: Identity,
    /// Outcome of moving the rent owed from the depositor to the ledger.
    pub rent_transfer: Transfer,
    /// Outcome of moving the asset from the vault back to the depositor.
    pub nft_transfer: Transfer,
}

/// A request to withdraw collected rent.
#[derive(Clone, Copy, Debug, PartialEq, Eq)]
pub struct WithdrawRent {
    /// The signer of the request.
    pub authority: Identity,
    /// Outcome of moving the amount from the ledger to the signer.
    pub rent_transfer: Transfer,
}

/// Emitted when an asset is locked.
#[derive(Clone, Copy, Debug, PartialEq, Eq)]
pub struct NFTLocked {
    pub user: Identity,
    pub mint: Identity,
    pub lock_time: i64,
    pub unlock_time: i64,
}

/// Emitted when an asset is released.
#[derive(Clone, Copy, Debug, PartialEq, Eq)]
pub struct NFTUnlocked {
    pub user: Identity,
    pub mint: Identity,
    pub unlock_time: i64,
    pub rent_paid: u64,
}

/// Emitted when rent is withdrawn.
#[derive(Clone, Copy, Debug, PartialEq, Eq)]
pub struct RentWithdrawn {
    pub authority: Identity,
    pub amount: u64,
}

/// The vault as contracts see it: the ledger, if it was created, and the
/// lock records by (depositor, asset).
pub struct VaultView {
    pub ledger: Option<Vault>,
    pub locks: Map<LockKey, LockAccount>,
}

impl VaultView {
    /// The vault before initialization: no ledger, nothing locked.
    pub open spec fn empty() -> VaultView {
        VaultView { ledger: None, locks: Map::empty() }
    }

    /// Rent available for withdrawal; zero while there is no ledger.
    pub open spec fn balance(self) -> int {
        match self.ledger {
            Some(v) => v.total_rent_collected as int,
            None => 0,
        }
    }

    /// Whether the pair currently has a lock record.
    pub open spec fn locked(self, user: Identity, mint: Identity) -> bool {
        self.locks.contains_key((user@, mint@))
    }
}

/// The vault: its ledger and its lock records.
pub struct VaultState {
    vault: Option<Vault>,
    locks: LockStore,
}

impl View for VaultState {
    type V = VaultView;

    closed spec fn view(&self) -> VaultView {
        VaultView { ledger: self.vault, locks: self.locks@ }
    }
}

// ---------------------------------------------------------------------
// initialize
// ---------------------------------------------------------------------
/// Why initialization is refused, if it is.
pub open spec fn initialize_error(pre: VaultView) -> Option<VaultError> {
    if pre.ledger is Some {
        Some(VaultError::AlreadyInitialized)
    } else {
        None
    }
}

/// The vault after an initialization request.
pub open spec fn initialize_effect(pre: VaultView, ctx: InitializeVault) -> VaultView {
    if initialize_error(pre) is None {
        VaultView {
            ledger: Some(Vault { authority: ctx.authority, total_rent_collected: 0, bump: 0 }),
            locks: pre.locks,
        }
    } else {
        pre
    }
}

// ---------------------------------------------------------------------
// lock
// ---------------------------------------------------------------------
/// Why a lock request is refused, if it is.
pub open spec fn lock_error(pre: VaultView, ctx: LockNFT, lock_duration: i64, now: i64) -> Option<
    VaultError,
> {
    if pre.ledger is None {
        Some(VaultError::NotInitialized)
    } else if pre.locked(ctx.user, ctx.mint) {
        Some(VaultError::RecordAlreadyExists)
    } else if ctx.nft_transfer is Rejected {
        Some(VaultError::TransferFailed)
    } else if now + lock_duration < i64::MIN || now + lock_duration > i64::MAX {
        Some(VaultError::Overflow)
    } else {
        None
    }
}

/// The record that a lock request made at `now` creates.
pub open spec fn lock_record(ctx: LockNFT, lock_duration: i64, now: i64) -> LockAccount {
    LockAccount {
        user: ctx.user,
        mint: ctx.mint,
        lock_time: now,
        unlock_time: (now + lock_duration) as i64,
        rent_per_day: RENT_PER_DAY,
        bump: ctx.bump,
    }
}

/// The vault after a lock request.
pub open spec fn lock_effect(pre: VaultView, ctx: LockNFT, lock_duration: i64, now: i64) -> VaultView {
    if lock_error(pre, ctx, lock_duration, now) is None {
        VaultView {
            ledger: pre.ledger,
            locks: pre.locks.insert((ctx.user@, ctx.mint@), lock_record(ctx, lock_duration, now)),
        }
    } else {
        pre
    }
}

/// What a lock request returns.
pub open spec fn lock_result(pre: VaultView, ctx: LockNFT, lock_duration: i64, now: i64) -> Result<
    NFTLocked,
    VaultError,
> {
    match lock_error(pre, ctx, lock_duration, now) {
        Some(e) => Err(e),
        None => Ok(
            NFTLocked {
                user: ctx.user,
                mint: ctx.mint,
                lock_time: now,
                unlock_time: (now + lock_duration) as i64,
            },
        ),
    }
}

// ---------------------------------------------------------------------
// unlock
// ---------------------------------------------------------------------
/// Rent owed on a record released at `current_time`.
pub open spec fn record_rent(record: LockAccount, current_time: i64) -> int {
    rent_owed(record.lock_time as int, current_time as int, record.rent_per_day as int)
}

/// Why a release of `record` at `current_time` cannot be charged, if so:
/// the hold period has not passed, or the rent does not fit.
pub open spec fn rent_error(record: LockAccount, current_time: i64) -> Option<VaultError> {
    if current_time < record.unlock_time {
        Some(VaultError::NFTStillLocked)
    } else if !rent_chargeable(
        record.lock_time as int,
        current_time as int,
        record.rent_per_day as int,
    ) {
        Some(VaultError::Overflow)
    } else {
        None
    }
}

/// Why an unlock request is refused, if it is.
pub open spec fn unlock_error(pre: VaultView, ctx: UnlockNFT, current_time: i64) -> Option<
    VaultError,
> {
    if pre.ledger is None {
        Some(VaultError::NotInitialized)
    } else if !pre.locked(ctx.user, ctx.mint) {
        Some(VaultError::RecordNotFound)
    } else {
        let record = pre.locks[(ctx.user@, ctx.mint@)];
        if rent_error(record, current_time) is Some {
            rent_error(record, current_time)
        } else if ctx.rent_transfer is Rejected {
            Some(VaultError::TransferFailed)
        } else if pre.balance() + record_rent(record, current_time) > u64::MAX {
            Some(VaultError::Overflow)
        } else if ctx.nft_transfer is Rejected {
            Some(VaultError::TransferFailed)
        } else {
            None
        }
    }
}

/// Rent that an unlock request pays: the rent owed on the pair's record
/// where the request succeeds, nothing where it is refused.
pub open spec fn unlock_rent(pre: VaultView, ctx: UnlockNFT, current_time: i64) -> int {
    if unlock_error(pre, ctx, current_time) is None {
        record_rent(pre.locks[(ctx.user@, ctx.mint@)], current_time)
    } else {
        0
    }
}

/// The vault after an unlock request.
pub open spec fn unlock_effect(pre: VaultView, ctx: UnlockNFT, current_time: i64) -> VaultView {
    if unlock_error(pre, ctx, current_time) is None {
        VaultView {
            ledger: Some(
                Vault {
                    authority: pre.ledger.unwrap().authority,
                    total_rent_collected: (pre.balance() + unlock_rent(pre, ctx, current_time)) as u64,
                    bump: pre.ledger.unwrap().bump,
                },
            ),
            locks: pre.locks.remove((ctx.user@, ctx.mint@)),
        }
    } else {
        pre
    }
}

/// What an unlock request returns.
pub open spec fn unlock_result(pre: VaultView, ctx: UnlockNFT, current_time: i64) -> Result<
    NFTUnlocked,
    VaultError,
> {
    match unlock_error(pre, ctx, current_time) {
        Some(e) => Err(e),
        None => Ok(
            NFTUnlocked {
                user: ctx.user,
                mint: pre.locks[(ctx.user@, ctx.mint@)].mint,
                unlock_time: current_time,
                rent_paid: unlock_rent(pre, ctx, current_time) as u64,
            },
        ),
    }
}

// ---------------------------------------------------------------------
// withdraw
// ---------------------------------------------------------------------
/// Why `amount` may not be paid out of `ledger` to the signer, if so: the
/// signer is not the authority, or the ledger holds less.
pub open spec fn payout_error(ledger: Vault, ctx: WithdrawRent, amount: u64) -> Option<
    VaultError,
> {
    if ctx.authority@ != ledger.authority@ {
        Some(VaultError::Unauthorized)
    } else if amount > ledger.total_rent_collected {
        Some(VaultError::InsufficientFunds)
    } else {
        None
    }
}

/// Why a withdrawal is refused, if it is.
pub open spec fn withdraw_error(pre: VaultView, ctx: WithdrawRent, amount: u64) -> Option<
    VaultError,
> {
    if pre.ledger is None {
        Some(VaultError::NotInitialized)
    } else if payout_error(pre.ledger.unwrap(), ctx, amount) is Some {
        payout_error(pre.ledger.unwrap(), ctx, amount)
    } else if ctx.rent_transfer is Rejected {
        Some(VaultError::TransferFailed)
    } else {
        None
    }
}

/// Amount that a withdrawal takes out of the ledger: the amount asked for
/// where the request succeeds, nothing where it is refused.
pub open spec fn withdrawn(pre: VaultView, ctx: WithdrawRent, amount: u64) -> int {
    if withdraw_error(pre, ctx, amount) is None {
        amount as int
    } else {
        0
    }
}

/// The vault after a withdrawal request.
pub open spec fn withdraw_effect(pre: VaultView, ctx: WithdrawRent, amount: u64) -> VaultView {
    if withdraw_error(pre, ctx, amount) is None {
        VaultView {
            ledger: Some(
                Vault {
                    authority: pre.ledger.unwrap().authority,
                    total_rent_collected: (pre.balance() - amount) as u64,
                    bump: pre.ledger.unwrap().bump,
                },
            ),
            locks: pre.locks,
        }
    } else {
        pre
    }
}

/// What a withdrawal request returns.
pub open spec fn withdraw_result(pre: VaultView, ctx: WithdrawRent, amount: u64) -> Result<
    RentWithdrawn,
    VaultError,
> {
    match withdraw_error(pre, ctx, amount) {
        Some(e) => Err(e),
        None => Ok(RentWithdrawn { authority: ctx.authority, amount }),
    }
}

// ---------------------------------------------------------------------
// the engine
// ---------------------------------------------------------------------
impl VaultState {
    /// The store holds at most one record per pair.
    pub closed spec fn wf(&self) -> bool {
        self.locks.wf()
    }

    /// Every lock record is stored under its own depositor and asset, and
    /// there are finitely many.
    pub proof fn lemma_keyed(&self)
        requires
            self.wf(),
        ensures
            self@.locks.dom().finite(),
            forall|k: LockKey| self@.locks.contains_key(k) ==> (#[trigger] self@.locks[k]).key() == k,
    {
        self.locks.lemma_keyed();
    }

    /// A vault with no ledger and nothing locked.
    pub fn new() -> (state: VaultState)
        ensures
            state.wf(),
            state@ == VaultView::empty(),
    {
        VaultState { vault: None, locks: LockStore::new() }
    }

    /// A vault made of a ledger and lock records that already exist, as a
    /// host that keeps them elsewhere hands them in.
    pub fn from_parts(vault: Option<Vault>, locks: LockStore) -> (state: VaultState)
        requires
            locks.wf(),
        ensures
            state.wf(),
            state@ == (VaultView { ledger: vault, locks: locks@ }),
    {
        VaultState { vault, locks }
    }

    /// The ledger, once it has been created.
    pub fn vault(&self) -> (r: Option<Vault>)
        ensures
            r == self@.ledger,
    {
        self.vault
    }

    /// The lock record of the pair, while the pair is locked.
    pub fn lock_account(&self, user: &Identity, mint: &Identity) -> (r: Option<LockAccount>)
        requires
            self.wf(),
        ensures
            r.is_some() == self@.locked(*user, *mint),
            r matches Some(record) ==> record == self@.locks[(user@, mint@)] && record.key() == (
                user@,
                mint@,
            ),
    {
        self.locks.find(user, mint)
    }

    /// Number of assets currently locked.
    pub fn lock_count(&self) -> (n: usize)
        requires
            self.wf(),
        ensures
            n == self@.locks.dom().len(),
    {
        self.locks.len()
    }
}

/// Rent to collect for releasing `record` at `current_time`.
///
/// Refused with `NFTStillLocked` before the record's unlock time, and with
/// `Overflow` where the rent does not fit an unsigned 64-bit amount.
pub fn rent_due(record: &LockAccount, current_time: i64) -> (r: Result<u64, VaultError>)
    ensures
        r == match rent_error(*record, current_time) {
            Some(e) => Err::<u64, VaultError>(e),
            None => Ok(record_rent(*record, current_time) as u64),
        },
        r is Ok ==> r.unwrap() == record_rent(*record, current_time),
{
    if current_time < record.unlock_time {
        return Err(VaultError::NFTStillLocked);
    }
    match compute_rent(record.lock_time, current_time, record.rent_per_day) {
        Some(rent) => Ok(rent),
        None => Err(VaultError::Overflow),
    }
}

/// Creates the ledger with the signer as authority and nothing collected.
///
/// Refused with `AlreadyInitialized` where the ledger exists.
pub fn initialize_vault(state: &mut VaultState, ctx: &InitializeVault) -> (r: Result<
    (),
    VaultError,
>)
    requires
        old(state).wf(),
    ensures
        final(state).wf(),
        r == match initialize_error(old(state)@) {
            Some(e) => Err::<(), VaultError>(e),
            None => Ok(()),
        },
        final(state)@ == initialize_effect(old(state)@, *ctx),
{
    if state.vault.is_some() {
        return Err(VaultError::AlreadyInitialized);
    }
    state.vault = Some(Vault { authority: ctx.authority, total_rent_collected: 0, bump: 0 });
    Ok(())
}

/// Locks the asset for the depositor: records the hold, beginning at `now`
/// and releasable from `now + lock_duration`.
///
/// Refused, with the vault unchanged, in this order: `NotInitialized` without
/// a ledger; `RecordAlreadyExists` where the pair is locked; `TransferFailed`
/// where the asset did not move; `Overflow` where the unlock time does not
/// fit a signed 64-bit timestamp.
pub fn lock_nft(state: &mut VaultState, ctx: &LockNFT, lock_duration: i64, now: i64) -> (r: Result<
    NFTLocked,
    VaultError,
>)
    requires
        old(state).wf(),
    ensures
        final(state).wf(),
        r == lock_result(old(state)@, *ctx, lock_duration, now),
        final(state)@ == lock_effect(old(state)@, *ctx, lock_duration, now),
{
    if state.vault.is_none() {
        return Err(VaultError::NotInitialized);
    }
    if state.locks.find(&ctx.user, &ctx.mint).is_some() {
        return Err(VaultError::RecordAlreadyExists);
    }
    match ctx.nft_transfer {
        Transfer::Rejected => {
            return Err(VaultError::TransferFailed);
        },
        Transfer::Completed => {},
    }
    let unlock_time = match now.checked_add(lock_duration) {
        Some(t) => t,
        None => {
            return Err(VaultError::Overflow);
        },
    };
    let record = LockAccount {
        user: ctx.user,
        mint: ctx.mint,
        lock_time: now,
        unlock_time,
        rent_per_day: RENT_PER_DAY,
        bump: ctx.bump,
    };
    state.locks.insert(record);
    Ok(NFTLocked { user: ctx.user, mint: ctx.mint, lock_time: now, unlock_time })
}

/// Releases the depositor's asset at `current_time`: collects the rent owed
/// into the ledger and deletes the lock record.
///
/// Refused, with the vault unchanged, in this order: `NotInitialized` without
/// a ledger; `RecordNotFound` where the pair is not locked; `NFTStillLocked`
/// before the unlock time; `Overflow` where the rent does not fit;
/// `TransferFailed` where the rent was not paid; `Overflow` where the ledger
/// cannot hold the rent; `TransferFailed` where the asset did not move back.
pub fn unlock_nft(state: &mut VaultState, ctx: &UnlockNFT, current_time: i64) -> (r: Result<
    NFTUnlocked,
    VaultError,
>)
    requires
        old(state).wf(),
    ensures
        final(state).wf(),
        r == unlock_result(old(state)@, *ctx, current_time),
        final(state)@ == unlock_effect(old(state)@, *ctx, current_time),
{
    let ledger = match state.vault {
        Some(v) => v,
        None => {
            return Err(VaultError::NotInitialized);
        },
    };
    let record = match state.locks.find(&ctx.user, &ctx.mint) {
        Some(record) => record,
        None => {
            return Err(VaultError::RecordNotFound);
        },
    };
    let rent = match rent_due(&record, current_time) {
        Ok(rent) => rent,
        Err(e) => {
            return Err(e);
        },
    };
    match ctx.rent_transfer {
        Transfer::Rejected => {
            return Err(VaultError::TransferFailed);
        },
        Transfer::Completed => {},
    }
    let total = match ledger.total_rent_collected.checked_add(rent) {
        Some(total) => total,
        None => {
            return Err(VaultError::Overflow);
        },
    };
    match ctx.nft_transfer {
        Transfer::Rejected => {
            return Err(VaultError::TransferFailed);
        },
        Transfer::Completed => {},
    }
    state.locks.remove(&ctx.user, &ctx.mint);
    state.vault = Some(
        Vault { authority: ledger.authority, total_rent_collected: total, bump: ledger.bump },
    );
    Ok(NFTUnlocked { user: ctx.user, mint: record.mint, unlock_time: current_time, rent_paid: rent })
}

/// Withdraws `amount` of the collected rent to the authority.
///
/// Refused, with the ledger unchanged, in this order: `NotInitialized`
/// without a ledger; `Unauthorized` where the signer is not the authority;
/// `InsufficientFunds` where `amount` exceeds what was collected;
/// `TransferFailed` where the money did not move.
pub fn withdraw_rent(state: &mut VaultState, ctx: &WithdrawRent, amount: u64) -> (r: Result<
    RentWithdrawn,
    VaultError,
>)
    requires
        old(state).wf(),
    ensures
        final(state).wf(),
        r == withdraw_result(old(state)@, *ctx, amount),
        final(state)@ == withdraw_effect(old(state)@, *ctx, amount),
{
    let ledger = match state.vault {
        Some(v) => v,
        None => {
            return Err(VaultError::NotInitialized);
        },
    };
    if !ctx.authority.same(&ledger.authority) {
        return Err(VaultError::Unauthorized);
    }
    if amount > ledger.total_rent_collected {
        return Err(VaultError::InsufficientFunds);
    }
    match ctx.rent_transfer {
        Transfer::Rejected => {
            return Err(VaultError::TransferFailed);
        },
        Transfer::Completed => {},
    }
    state.vault = Some(
        Vault {
            authority: ledger.authority,
            total_rent_collected: ledger.total_rent_collected - amount,
            bump: ledger.bump,
        },
    );
    Ok(RentWithdrawn { authority: ctx.authority, amount })
}

} // verus!
