//! OpenPGP cards: what is asked of them, what they answer, and the scans and
//! operations that are built from questions and answers.
//!
//! The machines in the submodules never touch a card. Each one names the next
//! question in `query`, and its driver puts that question to the PC/SC layer
//! and hands the answer to `step`.
use vstd::prelude::*;

use crate::keys::{copy_key, key_of, Key, PublicKey};
use crate::secret::{is_zero_secret, usable};

pub mod decipher;
pub mod init;
pub mod listing;
pub mod reconnect;
pub mod relations;

verus! {

/// A connected OpenPGP card with an X25519 decryption key.
#[derive(Debug, PartialEq, Eq)]
pub struct CardInfo {
    /// Application identifier of the card.
    pub ident: String,
    /// X25519 public key in the decryption slot.
    pub public_key: [u8; 32],
}

/// What is known of the card that holds the static private key.
pub struct CardHandle {
    /// Public key read from the decryption slot when the card was opened.
    pub cached_public_key: PublicKey,
    /// Application identifier, by which the card is found again.
    pub ident: String,
    /// The PIN that is presented in every transaction.
    pub pin: String,
}

/// A question to the PC/SC layer, or to the card of the current reader.
#[derive(Debug, PartialEq, Eq)]
pub enum CardQuery {
    /// List the readers.
    Enumerate,
    /// Move on to the next reader of the list.
    NextReader,
    /// Select the OpenPGP application of the card in the current reader.
    Connect,
    /// Start a transaction with the connected card.
    Transaction,
    /// Read the application identifier.
    Ident,
    /// Read the public key in the decryption slot.
    PublicKey,
    /// Present this user PIN.
    VerifyPin(String),
    /// Send this public key of a peer to the decryption slot.
    Decipher(Key),
}

/// Public key material in the decryption slot.
#[derive(Debug, PartialEq, Eq)]
pub enum KeyMaterial {
    /// An elliptic-curve key.
    Ecc {
        /// The object identifier of the curve, in its DER encoding without tag
        /// and length.
        oid: Vec<u8>,
        /// The public point, as the card encodes it.
        data: Vec<u8>,
    },
    /// A key of another kind.
    Other,
}

/// The answer to a [`CardQuery`].
#[derive(Debug, PartialEq, Eq)]
pub enum CardReply {
    /// The operation succeeded and returned nothing.
    Done,
    /// The list of readers is exhausted.
    NoMoreReaders,
    /// The application identifier.
    Ident(String),
    /// The public key material.
    Key(KeyMaterial),
    /// The bytes that the card computed.
    Secret(Vec<u8>),
    /// The operation failed, for the reason given.
    Failed(String),
}

impl CardQuery {
    /// Whether a reply answers this question.
    pub open spec fn answered_by(self, reply: CardReply) -> bool {
        match reply {
            CardReply::Failed(_) => true,
            CardReply::Done => self is Enumerate || self is NextReader || self is Connect
                || self is Transaction || self is VerifyPin,
            CardReply::NoMoreReaders => self is NextReader,
            CardReply::Ident(_) => self is Ident,
            CardReply::Key(_) => self is PublicKey,
            CardReply::Secret(bytes) => self is Decipher && usable(bytes@),
        }
    }

    /// Tests whether a reply answers this question.
    pub fn accepts(&self, reply: &CardReply) -> (ok: bool)
        ensures
            ok == self.answered_by(*reply),
            ok == (match *reply {
                CardReply::Failed(_) => true,
                CardReply::Done => match *self {
                    CardQuery::Enumerate => true,
                    CardQuery::NextReader => true,
                    CardQuery::Connect => true,
                    CardQuery::Transaction => true,
                    CardQuery::VerifyPin(_) => true,
                    _ => false,
                },
                CardReply::NoMoreReaders => *self is NextReader,
                CardReply::Ident(_) => *self is Ident,
                CardReply::Key(_) => *self is PublicKey,
                CardReply::Secret(bytes) => *self is Decipher && (bytes@.len() == 32 || forall|i: int|
                    0 <= i < bytes@.len() ==> bytes@[i] == 0),
            }),
    {
        match reply {
            CardReply::Failed(_) => true,
            CardReply::Done => match self {
                CardQuery::Enumerate | CardQuery::NextReader | CardQuery::Connect
                | CardQuery::Transaction | CardQuery::VerifyPin(_) => true,
                _ => false,
            },
            CardReply::NoMoreReaders => match self {
                CardQuery::NextReader => true,
                _ => false,
            },
            CardReply::Ident(_) => match self {
                CardQuery::Ident => true,
                _ => false,
            },
            CardReply::Key(_) => match self {
                CardQuery::PublicKey => true,
                _ => false,
            },
            CardReply::Secret(bytes) => match self {
                CardQuery::Decipher(_) => bytes.len() == 32 || is_zero_secret(bytes.as_slice()),
                _ => false,
            },
        }
    }
}

/// The object identifier by which a card names the curve of X25519:
/// 1.3.6.1.4.1.3029.1.5.1.
pub open spec fn x25519_oid() -> Seq<u8> {
    seq![0x2bu8, 0x06, 0x01, 0x04, 0x01, 0x97, 0x55, 0x01, 0x05, 0x01]
}

/// The X25519 public key in the decryption slot: an elliptic-curve key on the
/// curve of X25519, of exactly 32 bytes.
pub open spec fn x25519_key(material: KeyMaterial) -> Option<Key> {
    match material {
        KeyMaterial::Ecc { oid, data } => if oid@ == x25519_oid() && data@.len() == 32 {
            Some(key_of(data@))
        } else {
            None
        },
        KeyMaterial::Other => None,
    }
}

/// Tests whether an object identifier names the curve of X25519.
fn is_x25519_oid(oid: &[u8]) -> (same: bool)
    ensures
        same == (oid@ == x25519_oid()),
{
    let expected: [u8; 10] = [0x2b, 0x06, 0x01, 0x04, 0x01, 0x97, 0x55, 0x01, 0x05, 0x01];
    assert(expected@ =~= x25519_oid());
    if oid.len() != 10 {
        return false;
    }
    for i in 0..10usize
        invariant
            oid@.len() == 10,
            expected@ == x25519_oid(),
            forall|j: int| 0 <= j < i ==> oid@[j] == expected@[j],
    {
        if oid[i] != expected[i] {
            return false;
        }
    }
    assert(oid@ =~= x25519_oid());
    true
}

/// Extracts the X25519 public key from key material.
pub fn decryption_key(material: &KeyMaterial) -> (key: Option<Key>)
    ensures
        key == x25519_key(*material),
        key is Some <==> (material matches KeyMaterial::Ecc { oid, data } && oid@ == seq![
            0x2bu8,
            0x06,
            0x01,
            0x04,
            0x01,
            0x97,
            0x55,
            0x01,
            0x05,
            0x01,
        ] && data@.len() == 32),
        key matches Some(bytes) ==> (material matches KeyMaterial::Ecc { data, .. } && bytes@
            == data@),
{
    match material {
        KeyMaterial::Ecc { oid, data } => if is_x25519_oid(oid.as_slice()) && data.len() == 32 {
            Some(copy_key(data.as_slice()))
        } else {
            None
        },
        KeyMaterial::Other => None,
    }
}

/// What the card in one reader would answer to each question.
pub struct ReaderModel {
    /// Opening the reader.
    pub opened: Result<(), String>,
    /// Selecting the OpenPGP application.
    pub connected: Result<(), String>,
    /// Starting a transaction.
    pub transaction: Result<(), String>,
    /// The application identifier.
    pub ident: Result<String, String>,
    /// The key material in the decryption slot.
    pub key: Result<KeyMaterial, String>,
    /// The verdict on the PIN that is presented.
    pub pin: Result<(), String>,
}

/// All readers, and whether they can be listed at all.
pub struct ReadersModel {
    /// Listing the readers.
    pub enumerated: Result<(), String>,
    /// The readers, in the order in which they are listed.
    pub readers: Seq<ReaderModel>,
}

/// The reply that reports success or the reason of a failure.
pub open spec fn unit_reply(result: Result<(), String>) -> CardReply {
    match result {
        Ok(_) => CardReply::Done,
        Err(reason) => CardReply::Failed(reason),
    }
}

impl ReadersModel {
    /// The answer to a question when the first `next` readers were handed out.
    pub open spec fn reply(self, next: nat, query: CardQuery) -> CardReply {
        let current = self.readers[next - 1];
        match query {
            CardQuery::Enumerate => unit_reply(self.enumerated),
            CardQuery::NextReader => if next < self.readers.len() {
                unit_reply(self.readers[next as int].opened)
            } else {
                CardReply::NoMoreReaders
            },
            CardQuery::Connect => unit_reply(current.connected),
            CardQuery::Transaction => unit_reply(current.transaction),
            CardQuery::Ident => match current.ident {
                Ok(ident) => CardReply::Ident(ident),
                Err(reason) => CardReply::Failed(reason),
            },
            CardQuery::PublicKey => match current.key {
                Ok(material) => CardReply::Key(material),
                Err(reason) => CardReply::Failed(reason),
            },
            CardQuery::VerifyPin(_) => unit_reply(current.pin),
            CardQuery::Decipher(_) => arbitrary(),
        }
    }

    /// How many readers have been handed out after a question.
    pub open spec fn advance(self, next: nat, query: CardQuery) -> nat {
        if query is NextReader && next < self.readers.len() {
            next + 1
        } else {
            next
        }
    }
}

/// The readers answer every question that a scan can put.
pub proof fn law_readers_answer(world: ReadersModel, next: nat, query: CardQuery)
    requires
        !(query is Decipher),
    ensures
        query.answered_by(world.reply(next, query)),
{
}

/// Key material is an X25519 key by its curve and length alone, whatever its
/// bytes are, and the key has exactly those bytes.
pub proof fn law_every_key_on_the_curve_counts(oid: Vec<u8>, data: Vec<u8>)
    ensures
        ({
            let key = x25519_key(KeyMaterial::Ecc { oid, data });
            &&& key is Some <==> oid@ == seq![
                0x2bu8,
                0x06,
                0x01,
                0x04,
                0x01,
                0x97,
                0x55,
                0x01,
                0x05,
                0x01,
            ] && data@.len() == 32
            &&& key matches Some(bytes) ==> bytes@ == data@
        }),
        x25519_key(KeyMaterial::Other) is None,
{
    if data@.len() == 32 {
        crate::keys::lemma_key_of(data@);
    }
}

/// A failure answers every question, and every other reply only the questions
/// that ask for it.
pub proof fn law_replies_and_questions(
    query: CardQuery,
    reason: String,
    ident: String,
    material: KeyMaterial,
    bytes: Vec<u8>,
)
    ensures
        query.answered_by(CardReply::Failed(reason)),
        query.answered_by(CardReply::NoMoreReaders) <==> query is NextReader,
        query.answered_by(CardReply::Ident(ident)) <==> query is Ident,
        query.answered_by(CardReply::Key(material)) <==> query is PublicKey,
        bytes@.len() == 32 ==> (query.answered_by(CardReply::Secret(bytes)) <==> query is Decipher),
        query.answered_by(CardReply::Done) <==> !(query is Ident || query is PublicKey
            || query is Decipher),
{
}

} // verus!
