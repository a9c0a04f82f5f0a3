//! Account addresses and the deterministic derived authority.
//!
//! A custody sub-account is owned by its pool itself: no private key exists
//! for it, and authorization is proven by re-deriving the same address from
//! the pool's id plus a fixed label. `derive_vault_address` and
//! `derive_pool_authority` are that pure derivation; the binding and
//! authorization paths both call them, so a caller proves a capability by
//! presenting an address equal to the derivation, never a signature.

use vstd::prelude::*;

verus! {

/// A 256-bit account address, held as four 64-bit words.
#[derive(Clone, Copy, Debug, PartialEq, Eq, Structural)]
pub struct Address {
    pub w0: u64,
    pub w1: u64,
    pub w2: u64,
    pub w3: u64,
}

/// Which of a pool's two custody accounts an address names.
#[derive(Clone, Copy, Debug, PartialEq, Eq, Structural)]
pub enum VaultKind {
    /// The vault holding staked principal.
    Principal,
    /// The vault holding the reserve that pays yield.
    Reward,
}

/// Label word of a principal vault's derived address.
pub const PRINCIPAL_VAULT_LABEL: u64 = 1;

/// Label word of a reward vault's derived address.
pub const REWARD_VAULT_LABEL: u64 = 2;

/// Label word of a pool's own transfer authority.
pub const POOL_AUTHORITY_LABEL: u64 = 3;

/// The label word that marks a vault kind in a derived address.
pub open spec fn spec_vault_label(kind: VaultKind) -> u64 {
    match kind {
        VaultKind::Principal => PRINCIPAL_VAULT_LABEL,
        VaultKind::Reward => REWARD_VAULT_LABEL,
    }
}

/// The address of a pool's custody vault: a pure function of the fixed label
/// and the pool's id alone.
pub open spec fn spec_derive_vault_address(kind: VaultKind, pool_id: u64) -> Address {
    Address { w0: spec_vault_label(kind), w1: pool_id, w2: 0, w3: 0 }
}

/// The address of the authority that may move value out of a pool's vaults:
/// a pure function of the pool's id alone.
pub open spec fn spec_derive_pool_authority(pool_id: u64) -> Address {
    Address { w0: POOL_AUTHORITY_LABEL, w1: pool_id, w2: 0, w3: 0 }
}

/// Derives the address of one of a pool's custody vaults. Two calls with the
/// same inputs return the same address, so binding and authorization agree.
pub fn derive_vault_address(kind: VaultKind, pool_id: u64) -> (a: Address)
    ensures
        a == spec_derive_vault_address(kind, pool_id),
{
    let label: u64 = match kind {
        VaultKind::Principal => PRINCIPAL_VAULT_LABEL,
        VaultKind::Reward => REWARD_VAULT_LABEL,
    };
    Address { w0: label, w1: pool_id, w2: 0, w3: 0 }
}

/// Derives the transfer authority of a pool's vaults.
pub fn derive_pool_authority(pool_id: u64) -> (a: Address)
    ensures
        a == spec_derive_pool_authority(pool_id),
{
    Address { w0: POOL_AUTHORITY_LABEL, w1: pool_id, w2: 0, w3: 0 }
}

/// The derivation is injective: two vault addresses coincide exactly when
/// they were derived for the same kind of vault of the same pool. A caller
/// who presents the derived address of one pool's vault therefore never
/// passes the capability check of another.
pub proof fn lemma_derived_vault_addresses_injective(
    k1: VaultKind,
    id1: u64,
    k2: VaultKind,
    id2: u64,
)
    ensures
        spec_derive_vault_address(k1, id1) == spec_derive_vault_address(k2, id2) <==> (k1 == k2
            && id1 == id2),
{
}

} // verus!
