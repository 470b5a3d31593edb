//! Transfer orders: what the host is to move for an operation.
//!
//! The vault moves nothing itself. For each operation it says which
//! transfers go with it: of what, how much, in which direction, and, where
//! the vault gives from its own custody, the seeds with which it signs.

use vstd::prelude::*;
use crate::identity::Identity;
use crate::seeds::{lock_account_seeds, lock_seeds, seed_bytes, vault_account_seeds, vault_seeds};
use crate::store::LockAccount;
use crate::vault::{
    payout_error, record_rent, rent_due, rent_error, LockNFT, Vault, VaultError, WithdrawRent,
};

verus! {

/// Which way a transfer goes.
#[derive(Clone, Copy, Debug, PartialEq, Eq, Structural)]
pub enum Direction {
    /// From the party into the vault's custody; the party signs.
    IntoVault,
    /// Out of the vault's custody to the party; the vault signs.
    OutOfVault,
}

/// One transfer for the host to make.
#[derive(Clone, Debug, PartialEq, Eq)]
pub struct TransferOrder {
    /// The asset to move, or `None` for rent money.
    pub asset: Option<Identity>,
    /// The depositor or the authority on the other side of the vault.
    pub party: Identity,
    pub direction: Direction,
    /// Units of the asset, or amount of money.
    pub amount: u64,
    /// The seeds the vault signs with; empty where the party signs.
    pub signer_seeds: Vec<Vec<u8>>,
}

/// A transfer order as contracts see it.
pub struct OrderView {
    pub asset: Option<Identity>,
    pub party: Identity,
    pub direction: Direction,
    pub amount: int,
    pub signer_seeds: Seq<Seq<u8>>,
}

impl View for TransferOrder {
    type V = OrderView;

    open spec fn view(&self) -> OrderView {
        OrderView {
            asset: self.asset,
            party: self.party,
            direction: self.direction,
            amount: self.amount as int,
            signer_seeds: seed_bytes(self.signer_seeds@),
        }
    }
}

/// The transfer of a lock: one unit of the asset, from the depositor.
pub open spec fn deposit_order(ctx: LockNFT) -> OrderView {
    OrderView {
        asset: Some(ctx.mint),
        party: ctx.user,
        direction: Direction::IntoVault,
        amount: 1,
        signer_seeds: Seq::empty(),
    }
}

/// The payment of an unlock: the rent owed on the record, from the depositor.
pub open spec fn rent_order(record: LockAccount, current_time: i64) -> OrderView {
    OrderView {
        asset: None,
        party: record.user,
        direction: Direction::IntoVault,
        amount: record_rent(record, current_time),
        signer_seeds: Seq::empty(),
    }
}

/// The release of an unlock: one unit of the asset, back to the depositor,
/// signed with the record's seeds.
pub open spec fn return_order(record: LockAccount) -> OrderView {
    OrderView {
        asset: Some(record.mint),
        party: record.user,
        direction: Direction::OutOfVault,
        amount: 1,
        signer_seeds: lock_seeds(record),
    }
}

/// The payout of a withdrawal: the amount, to the authority, signed with
/// the ledger's seeds.
pub open spec fn payout_order(ledger: Vault, amount: u64) -> OrderView {
    OrderView {
        asset: None,
        party: ledger.authority,
        direction: Direction::OutOfVault,
        amount: amount as int,
        signer_seeds: vault_seeds(ledger),
    }
}

/// The transfer that goes with a lock request.
pub fn lock_transfer(ctx: &LockNFT) -> (order: TransferOrder)
    ensures
        order@ == deposit_order(*ctx),
{
    let order = TransferOrder {
        asset: Some(ctx.mint),
        party: ctx.user,
        direction: Direction::IntoVault,
        amount: 1,
        signer_seeds: Vec::new(),
    };
    assert(seed_bytes(order.signer_seeds@) =~= Seq::<Seq<u8>>::empty());
    order
}

/// The transfers that go with releasing `record` at `current_time`: first
/// the rent, then the asset.
///
/// Refused with `NFTStillLocked` before the record's unlock time, and with
/// `Overflow` where the rent does not fit an unsigned 64-bit amount.
pub fn unlock_transfers(record: &LockAccount, current_time: i64) -> (r: Result<
    (TransferOrder, TransferOrder),
    VaultError,
>)
    ensures
        match rent_error(*record, current_time) {
            Some(e) => r == Err::<(TransferOrder, TransferOrder), VaultError>(e),
            None => r matches Ok((rent, asset)) && rent@ == rent_order(*record, current_time)
                && asset@ == return_order(*record),
        },
{
    let amount = match rent_due(record, current_time) {
        Ok(amount) => amount,
        Err(e) => {
            return Err(e);
        },
    };
    let rent = TransferOrder {
        asset: None,
        party: record.user,
        direction: Direction::IntoVault,
        amount,
        signer_seeds: Vec::new(),
    };
    assert(seed_bytes(rent.signer_seeds@) =~= Seq::<Seq<u8>>::empty());
    let asset = TransferOrder {
        asset: Some(record.mint),
        party: record.user,
        direction: Direction::OutOfVault,
        amount: 1,
        signer_seeds: lock_account_seeds(record),
    };
    Ok((rent, asset))
}

/// The transfer that goes with withdrawing `amount` from `ledger`.
///
/// Refused with `Unauthorized` where the signer is not the authority, else
/// with `InsufficientFunds` where the ledger holds less than `amount`.
pub fn withdraw_transfer(ledger: &Vault, ctx: &WithdrawRent, amount: u64) -> (r: Result<
    TransferOrder,
    VaultError,
>)
    ensures
        match payout_error(*ledger, *ctx, amount) {
            Some(e) => r == Err::<TransferOrder, VaultError>(e),
            None => r matches Ok(order) && order@ == payout_order(*ledger, amount),
        },
{
    if !ctx.authority.same(&ledger.authority) {
        return Err(VaultError::Unauthorized);
    }
    if amount > ledger.total_rent_collected {
        return Err(VaultError::InsufficientFunds);
    }
    Ok(
        TransferOrder {
            asset: None,
            party: ledger.authority,
            direction: Direction::OutOfVault,
            amount,
            signer_seeds: vault_account_seeds(ledger),
        },
    )
}

} // verus!
