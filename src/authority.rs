//! The program-controlled signing identity that moves pooled funds.
//!
//! The identity is derived from a fixed label and the vault's address under
//! the program's id, together with a disambiguation value (the bump). A
//! `SignerCapability` is proof that a label, address and bump derive the
//! identity; it is consumed by the one operation that signs with it.
use vstd::prelude::*;

use crate::vault::VaultError;

verus! {

#[verifier::external_type_specification]
#[verifier::external_body]
pub struct ExPubkeyError(anchor_lang::solana_program::pubkey::PubkeyError);

/// The address derived from `seeds` under `program_id`, if the derivation
/// lands off the signing curve and the seeds are within the length limits.
pub uninterp spec fn program_address(seeds: Seq<Seq<u8>>, program_id: Seq<u8>) -> Option<Seq<u8>>;

/// The first off-curve address found by trying bumps from 255 downward
/// after `seeds`, with that bump.
pub uninterp spec fn bump_search(seeds: Seq<Seq<u8>>, program_id: Seq<u8>) -> Option<(Seq<u8>, u8)>;

/// The seeds that derive the signing identity of `vault`.
pub open spec fn authority_seeds(label: Seq<u8>, vault: Seq<u8>) -> Seq<Seq<u8>> {
    seq![label, vault]
}

/// The same seeds followed by the one-byte bump.
pub open spec fn signer_seeds(label: Seq<u8>, vault: Seq<u8>, bump: u8) -> Seq<Seq<u8>> {
    seq![label, vault, seq![bump]]
}

/// Relies on `Pubkey::create_program_address`: hashes the seeds and the
/// program id, and fails when the hash is a curve point or a seed is too long.
#[verifier::external_body]
fn create_program_address(label: &[u8], vault: &[u8; 32], bump: u8, program_id: &[u8; 32]) -> (r:
    Result<[u8; 32], anchor_lang::solana_program::pubkey::PubkeyError>)
    ensures
        r is Ok == program_address(signer_seeds(label@, vault@, bump), program_id@) is Some,
        r matches Ok(k) ==> program_address(signer_seeds(label@, vault@, bump), program_id@)
            == Some(k@),
{
    let id = anchor_lang::solana_program::pubkey::Pubkey::new_from_array(*program_id);
    let bump_seed = [bump];
    let seeds: [&[u8]; 3] = [label, vault.as_slice(), bump_seed.as_slice()];
    anchor_lang::solana_program::pubkey::Pubkey::create_program_address(&seeds, &id).map(
        |k| k.to_bytes(),
    )
}

/// Relies on `Pubkey::try_find_program_address`: returns the first bump for
/// which `create_program_address` on the seeds and that bump succeeds, with
/// the address it gives.
#[verifier::external_body]
fn try_find_program_address(label: &[u8], vault: &[u8; 32], program_id: &[u8; 32]) -> (r: Option<
    ([u8; 32], u8),
>)
    ensures
        r is Some == bump_search(authority_seeds(label@, vault@), program_id@) is Some,
        r matches Some(f) ==> bump_search(authority_seeds(label@, vault@), program_id@) == Some(
            (f.0@, f.1),
        ),
        r matches Some(f) ==> program_address(signer_seeds(label@, vault@, f.1), program_id@)
            == Some(f.0@),
{
    let id = anchor_lang::solana_program::pubkey::Pubkey::new_from_array(*program_id);
    let seeds: [&[u8]; 2] = [label, vault.as_slice()];
    anchor_lang::solana_program::pubkey::Pubkey::try_find_program_address(&seeds, &id).map(
        |(k, b)| (k.to_bytes(), b),
    )
}

/// Derives the signing identity of `vault` and its bump. The result depends
/// on the arguments alone, and the identity is always signable with the bump.
pub fn derive_authority(label: &[u8], vault: &[u8; 32], program_id: &[u8; 32]) -> (r: Result<
    ([u8; 32], u8),
    VaultError,
>)
    ensures
        r is Err <==> bump_search(authority_seeds(label@, vault@), program_id@) is None,
        r is Err ==> r == Err::<([u8; 32], u8), VaultError>(VaultError::DerivationExhausted),
        r matches Ok(f) ==> bump_search(authority_seeds(label@, vault@), program_id@) == Some(
            (f.0@, f.1),
        ),
        r matches Ok(f) ==> program_address(signer_seeds(label@, vault@, f.1), program_id@)
            == Some(f.0@),
{
    match try_find_program_address(label, vault, program_id) {
        Some(found) => Ok(found),
        None => Err(VaultError::DerivationExhausted),
    }
}

/// Authority to sign one set of outbound transfers for the vault.
#[derive(Debug)]
pub struct SignerCapability {
    label: Vec<u8>,
    vault: [u8; 32],
    bump: u8,
    authority: [u8; 32],
}

impl SignerCapability {
    pub closed spec fn label(&self) -> Seq<u8> {
        self.label@
    }

    pub closed spec fn vault(&self) -> Seq<u8> {
        self.vault@
    }

    pub closed spec fn bump(&self) -> u8 {
        self.bump
    }

    pub closed spec fn authority(&self) -> Seq<u8> {
        self.authority@
    }

    /// The signing identity this capability speaks for.
    pub fn authority_key(&self) -> (r: [u8; 32])
        ensures
            r@ == self.authority(),
    {
        self.authority
    }

    /// Gives up the capability for the seeds that sign as the identity:
    /// the label, the vault's address and the bump.
    pub fn into_seeds(self) -> (r: (Vec<u8>, [u8; 32], u8))
        ensures
            r.0@ == self.label(),
            r.1@ == self.vault(),
            r.2 == self.bump(),
    {
        (self.label, self.vault, self.bump)
    }
}

/// Whether two 32-byte identities are the same.
fn same_key(a: &[u8; 32], b: &[u8; 32]) -> (r: bool)
    ensures
        r == (a@ == b@),
{
    let mut i: usize = 0;
    while i < 32
        invariant
            i <= 32,
            a@.len() == 32,
            b@.len() == 32,
            forall|j: int| 0 <= j < i ==> a@[j] == b@[j],
        decreases 32 - i,
    {
        if a[i] != b[i] {
            return false;
        }
        i = i + 1;
    }
    assert(a@ =~= b@);
    true
}

/// An owned copy of a byte string.
fn copy_bytes(s: &[u8]) -> (r: Vec<u8>)
    ensures
        r@ == s@,
{
    let mut r: Vec<u8> = Vec::new();
    let mut i: usize = 0;
    while i < s.len()
        invariant
            i <= s@.len(),
            r@ == s@.subrange(0, i as int),
        decreases s@.len() - i,
    {
        r.push(s[i]);
        i = i + 1;
        assert(r@ =~= s@.subrange(0, i as int));
    }
    assert(r@ =~= s@);
    r
}

/// Checks that `label`, `vault` and `bump` derive `authority` under
/// `program_id`, and if so hands out the capability to sign as it.
pub fn sign_as(authority: &[u8; 32], bump: u8, label: &[u8], vault: &[u8; 32], program_id: &[u8; 32]) -> (r:
    Result<SignerCapability, VaultError>)
    ensures
        r is Ok <==> program_address(signer_seeds(label@, vault@, bump), program_id@) == Some(
            authority@,
        ),
        r is Err ==> r->Err_0 == VaultError::InvalidAuthority,
        r matches Ok(c) ==> c.label() == label@ && c.vault() == vault@ && c.bump() == bump
            && c.authority() == authority@,
{
    match create_program_address(label, vault, bump, program_id) {
        Ok(k) => {
            if same_key(&k, authority) {
                Ok(SignerCapability { label: copy_bytes(label), vault: *vault, bump, authority: *authority })
            } else {
                Err(VaultError::InvalidAuthority)
            }
        },
        Err(_) => Err(VaultError::InvalidAuthority),
    }
}

} // verus!
