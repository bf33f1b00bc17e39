//! Fingerprint derivation for the four keyword-based claim categories. The
//! collision-resistant hash itself is supplied by the host environment's
//! crypto primitives and is relied on, not reimplemented.

use vstd::prelude::*;

verus! {

/// The fingerprint a claimant and a claim payload derive: the SHA-256 digest
/// of the SCALE encoding of the `(claimant, content)` pair. The digest is a
/// function of those bytes alone, so identical caller and content always map
/// to the same fingerprint.
pub uninterp spec fn fingerprint_of(caller: Seq<u8>, content: Seq<u8>) -> Seq<u8>;

/// Relies on `ink::env::hash_encoded` with the `Sha2x256` hasher: it fills
/// the output buffer with the 32-byte SHA-256 digest of the SCALE encoding
/// of its argument, determined by the argument's bytes alone.
#[verifier::external_body]
pub(crate) fn derive_fingerprint(caller: &Vec<u8>, content: &Vec<u8>) -> (r: Vec<u8>)
    requires
        caller@.len() == 32,
    ensures
        r@ == fingerprint_of(caller@, content@),
        r@.len() == 32,
{
    let mut account = [0u8; 32];
    account.copy_from_slice(caller.as_slice());
    let encodable = (ink::primitives::AccountId::from(account), content.clone());
    let mut output = <ink::env::hash::Sha2x256 as ink::env::hash::HashOutput>::Type::default();
    ink::env::hash_encoded::<ink::env::hash::Sha2x256, _>(&encodable, &mut output);
    output.to_vec()
}

} // verus!
