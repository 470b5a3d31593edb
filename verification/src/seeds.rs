//! Address seeds: the byte strings from which the addresses of the ledger
//! and of each lock record are derived, and with which the vault signs for
//! the transfers it makes out of its own custody.

use vstd::prelude::*;
use crate::store::LockAccount;
use crate::vault::Vault;

verus! {

/// The tag that opens the seeds of every lock record: the bytes of `nft-lock`.
pub open spec fn lock_tag() -> Seq<u8> {
    seq![110u8, 102u8, 116u8, 45u8, 108u8, 111u8, 99u8, 107u8]
}

/// The tag that opens the seeds of the ledger: the bytes of `vault`.
pub open spec fn vault_tag() -> Seq<u8> {
    seq![118u8, 97u8, 117u8, 108u8, 116u8]
}

/// Seeds of a lock record: the tag, the depositor, the asset, the seed byte.
pub open spec fn lock_seeds(record: LockAccount) -> Seq<Seq<u8>> {
    seq![lock_tag(), record.user@, record.mint@, seq![record.bump]]
}

/// Seeds of the ledger: the tag and the seed byte.
pub open spec fn vault_seeds(vault: Vault) -> Seq<Seq<u8>> {
    seq![vault_tag(), seq![vault.bump]]
}

/// The byte strings of a list of seeds.
pub open spec fn seed_bytes(seeds: Seq<Vec<u8>>) -> Seq<Seq<u8>> {
    Seq::new(seeds.len(), |i: int| seeds[i]@)
}

/// The seeds with which the vault signs for the record's asset.
pub fn lock_account_seeds(record: &LockAccount) -> (seeds: Vec<Vec<u8>>)
    ensures
        seed_bytes(seeds@) == lock_seeds(*record),
{
    let mut tag: Vec<u8> = Vec::new();
    tag.push(110u8);
    tag.push(102u8);
    tag.push(116u8);
    tag.push(45u8);
    tag.push(108u8);
    tag.push(111u8);
    tag.push(99u8);
    tag.push(107u8);
    let mut bump: Vec<u8> = Vec::new();
    bump.push(record.bump);
    let mut seeds: Vec<Vec<u8>> = Vec::new();
    seeds.push(tag);
    seeds.push(record.user.to_vec());
    seeds.push(record.mint.to_vec());
    seeds.push(bump);
    proof {
        assert(seeds@[0]@ =~= lock_tag());
        assert(seeds@[3]@ =~= seq![record.bump]);
        assert(seed_bytes(seeds@) =~= lock_seeds(*record));
    }
    seeds
}

/// The seeds with which the vault signs for the ledger's money.
pub fn vault_account_seeds(vault: &Vault) -> (seeds: Vec<Vec<u8>>)
    ensures
        seed_bytes(seeds@) == vault_seeds(*vault),
{
    let mut tag: Vec<u8> = Vec::new();
    tag.push(118u8);
    tag.push(97u8);
    tag.push(117u8);
    tag.push(108u8);
    tag.push(116u8);
    let mut bump: Vec<u8> = Vec::new();
    bump.push(vault.bump);
    let mut seeds: Vec<Vec<u8>> = Vec::new();
    seeds.push(tag);
    seeds.push(bump);
    proof {
        assert(seeds@[0]@ =~= vault_tag());
        assert(seeds@[1]@ =~= seq![vault.bump]);
        assert(seed_bytes(seeds@) =~= vault_seeds(*vault));
    }
    seeds
}

} // verus!
