//! Key material: X25519 public and private keys, and 32-byte secrets.
use vstd::prelude::*;

verus! {

/// A 32-byte symmetric key or shared secret.
pub type Key = [u8; 32];

/// An X25519 public key.
#[derive(Clone, Copy, Debug, PartialEq, Eq)]
pub struct PublicKey(pub [u8; 32]);

/// An X25519 private key.
#[derive(Clone, Copy, PartialEq, Eq)]
pub struct StaticPrivateKey(pub [u8; 32]);

/// The array that holds the first 32 bytes of a sequence.
pub open spec fn key_of(bytes: Seq<u8>) -> Key {
    [
        bytes[0], bytes[1], bytes[2], bytes[3], bytes[4], bytes[5], bytes[6], bytes[7],
        bytes[8], bytes[9], bytes[10], bytes[11], bytes[12], bytes[13], bytes[14], bytes[15],
        bytes[16], bytes[17], bytes[18], bytes[19], bytes[20], bytes[21], bytes[22], bytes[23],
        bytes[24], bytes[25], bytes[26], bytes[27], bytes[28], bytes[29], bytes[30], bytes[31],
    ]
}

/// A 32-byte sequence is the content of the array made from it.
pub proof fn lemma_key_of(bytes: Seq<u8>)
    requires
        bytes.len() == 32,
    ensures
        key_of(bytes)@ == bytes,
{
    assert(key_of(bytes)@ =~= bytes);
}

/// Two keys with the same bytes are the same key.
pub proof fn lemma_key_ext(a: Key, b: Key)
    requires
        a@ == b@,
    ensures
        a == b,
{
    assert(a =~= b);
}

/// The private key that stands for the key on the card: thirty-two zero bytes.
pub open spec fn sentinel() -> Seq<u8> {
    Seq::new(32, |i: int| 0u8)
}

/// Placeholder private key. A Diffie-Hellman operation with it goes to the
/// smartcard; a random ephemeral key collides with it with probability 2^-256.
pub fn smartcard_sentinel() -> (key: StaticPrivateKey)
    ensures
        key.0@ == sentinel(),
        forall|i: int| 0 <= i < 32 ==> key.0@[i] == 0,
{
    let key = StaticPrivateKey([0u8; 32]);
    assert(key.0@ =~= sentinel());
    key
}

/// Byte-wise comparison of two keys.
pub fn same_key(a: &Key, b: &Key) -> (same: bool)
    ensures
        same == (a@ == b@),
        same == (*a == *b),
{
    for i in 0..32usize
        invariant
            forall|j: int| 0 <= j < i ==> a@[j] == b@[j],
    {
        if a[i] != b[i] {
            return false;
        }
    }
    proof {
        assert(a@ =~= b@);
        lemma_key_ext(*a, *b);
    }
    true
}

/// Copies 32 bytes into a key.
pub fn copy_key(bytes: &[u8]) -> (key: Key)
    requires
        bytes@.len() == 32,
    ensures
        key@ == bytes@,
        key == key_of(bytes@),
{
    let mut key: Key = [0u8; 32];
    for i in 0..32usize
        invariant
            bytes@.len() == 32,
            forall|j: int| 0 <= j < i ==> key@[j] == bytes@[j],
    {
        key[i] = bytes[i];
    }
    proof {
        assert(key@ =~= bytes@);
        lemma_key_of(bytes@);
        lemma_key_ext(key, key_of(bytes@));
    }
    key
}

/// The placeholder is told from every other key by its bytes alone: a key is
/// the placeholder exactly if none of its bytes is set.
pub proof fn law_placeholder_has_no_byte_set(key: StaticPrivateKey)
    ensures
        key.0@ == sentinel() <==> forall|i: int| 0 <= i < 32 ==> key.0@[i] == 0,
{
    if forall|i: int| 0 <= i < 32 ==> key.0@[i] == 0 {
        assert(key.0@ =~= sentinel());
    }
    assert(sentinel().len() == 32);
}

} // verus!
