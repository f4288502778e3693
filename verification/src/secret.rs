//! Acceptance of the shared secret that a card computed.
use vstd::prelude::*;

use crate::error::SmartcardError;
use crate::keys::{copy_key, key_of, Key};

verus! {

/// Whether every byte is zero.
pub open spec fn all_zero(bytes: Seq<u8>) -> bool {
    forall|i: int| 0 <= i < bytes.len() ==> bytes[i] == 0
}

/// `subtle::ConstantTimeEq::ct_eq` on two bytes, with the `subtle::Choice` it
/// returns turned into a `bool`. Claimed: the choice is set exactly when the
/// bytes are equal. That its running time is independent of the bytes is not
/// part of the claim.
#[verifier::external_body]
fn ct_eq(a: u8, b: u8) -> (equal: bool)
    ensures
        equal == (a == b),
{
    subtle::ConstantTimeEq::ct_eq(&a, &b).into()
}

/// Whether a shared secret consists of zero bytes only. Every byte is read,
/// whatever the earlier ones hold.
pub fn is_zero_secret(secret: &[u8]) -> (zero: bool)
    ensures
        zero == all_zero(secret@),
        zero <==> forall|i: int| 0 <= i < secret@.len() ==> secret@[i] == 0,
{
    let mut acc: u8 = 0;
    for i in 0..secret.len()
        invariant
            acc == 0 <==> all_zero(secret@.take(i as int)),
    {
        let byte: u8 = secret[i];
        assert((acc | byte) == 0 <==> (acc == 0 && byte == 0)) by (bit_vector);
        proof {
            let before = secret@.take(i as int);
            let after = secret@.take(i + 1);
            assert(after[i as int] == byte);
            assert(forall|j: int| 0 <= j < i ==> before[j] == after[j]);
        }
        acc = acc | byte;
    }
    assert(secret@.take(secret@.len() as int) =~= secret@);
    ct_eq(acc, 0)
}

/// What becomes of the bytes that a card returns for a Diffie-Hellman
/// operation: an all-zero answer is an error, any other is the shared secret.
pub open spec fn accepted(secret: Seq<u8>) -> Result<Key, SmartcardError> {
    if all_zero(secret) {
        Err(SmartcardError::ZeroSharedSecret)
    } else {
        Ok(key_of(secret))
    }
}

/// Whether bytes can be taken for the answer of a card: a secret that is not
/// all-zero has to have the length of a key.
pub open spec fn usable(secret: Seq<u8>) -> bool {
    all_zero(secret) || secret.len() == 32
}

/// Accepts or rejects the bytes that a card returned.
pub fn accept_shared_secret(secret: &[u8]) -> (result: Result<Key, SmartcardError>)
    requires
        usable(secret@),
    ensures
        result == accepted(secret@),
        result matches Ok(key) ==> key@ == secret@,
        result is Err <==> all_zero(secret@),
        (exists|i: int| 0 <= i < secret@.len() && secret@[i] != 0) ==> result is Ok,
        (forall|i: int| 0 <= i < secret@.len() ==> secret@[i] == 0) ==> result == Err::<
            Key,
            SmartcardError,
        >(SmartcardError::ZeroSharedSecret),
{
    if is_zero_secret(secret) {
        Err(SmartcardError::ZeroSharedSecret)
    } else {
        Ok(copy_key(secret))
    }
}

/// A secret is taken over unchanged if any of its bytes is set, wherever that
/// byte stands; only a secret without such a byte is refused, as zero.
pub proof fn law_only_zero_is_refused(secret: Seq<u8>)
    requires
        secret.len() == 32,
    ensures
        usable(secret),
        (exists|i: int| 0 <= i < 32 && secret[i] != 0) ==> (accepted(secret) matches Ok(key) && key@
            == secret),
        (forall|i: int| 0 <= i < 32 ==> secret[i] == 0) ==> accepted(secret) == Err::<
            Key,
            SmartcardError,
        >(SmartcardError::ZeroSharedSecret),
{
    crate::keys::lemma_key_of(secret);
}

/// Of other lengths, exactly the answers without a byte set can be taken.
pub proof fn law_usable_answers(secret: Seq<u8>)
    requires
        secret.len() != 32,
    ensures
        usable(secret) <==> forall|i: int| 0 <= i < secret.len() ==> secret[i] == 0,
{
}

} // verus!
