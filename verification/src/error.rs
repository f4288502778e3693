//! What can go wrong between the client and a smartcard.
use vstd::prelude::*;

verus! {

/// A failed smartcard operation.
#[derive(Debug, PartialEq, Eq)]
pub enum SmartcardError {
    /// No connected card carries the identifier.
    CardNotFound(String),
    /// The decryption slot holds no X25519 key.
    NoDecryptionKey,
    /// The card refused the PIN.
    PinFailed(String),
    /// The card refused the Diffie-Hellman operation.
    DhFailed(String),
    /// Talking to the card failed.
    CardError(String),
    /// The card returned an all-zero shared secret.
    ZeroSharedSecret,
}

impl SmartcardError {
    /// The text shown to the user.
    pub open spec fn text(self) -> Seq<char> {
        match self {
            SmartcardError::CardNotFound(ident) => "card not found: "@ + ident@,
            SmartcardError::NoDecryptionKey => "card does not have an X25519 decryption key"@,
            SmartcardError::PinFailed(cause) => "PIN verification failed: "@ + cause@,
            SmartcardError::DhFailed(cause) => "DH operation failed: "@ + cause@,
            SmartcardError::CardError(cause) => "card communication error: "@ + cause@,
            SmartcardError::ZeroSharedSecret =>
                "shared secret is zero (invalid peer public key)"@,
        }
    }

    /// Renders the error for the user.
    pub fn message(&self) -> (text: String)
        ensures
            text@ == self.text(),
            match self {
                SmartcardError::CardNotFound(ident) => text@ == "card not found: "@ + ident@,
                SmartcardError::NoDecryptionKey => text@
                    == "card does not have an X25519 decryption key"@,
                SmartcardError::PinFailed(cause) => text@ == "PIN verification failed: "@ + cause@,
                SmartcardError::DhFailed(cause) => text@ == "DH operation failed: "@ + cause@,
                SmartcardError::CardError(cause) => text@ == "card communication error: "@ + cause@,
                SmartcardError::ZeroSharedSecret => text@
                    == "shared secret is zero (invalid peer public key)"@,
            },
    {
        match self {
            SmartcardError::CardNotFound(ident) => "card not found: ".to_owned().concat(
                ident.as_str(),
            ),
            SmartcardError::NoDecryptionKey =>
                "card does not have an X25519 decryption key".to_owned(),
            SmartcardError::PinFailed(cause) => "PIN verification failed: ".to_owned().concat(
                cause.as_str(),
            ),
            SmartcardError::DhFailed(cause) => "DH operation failed: ".to_owned().concat(
                cause.as_str(),
            ),
            SmartcardError::CardError(cause) => "card communication error: ".to_owned().concat(
                cause.as_str(),
            ),
            SmartcardError::ZeroSharedSecret =>
                "shared secret is zero (invalid peer public key)".to_owned(),
        }
    }
}

/// The text of an error that has a cause ends with that cause, whatever it is,
/// and what stands in front of it depends on the kind of the error alone.
pub proof fn law_text_carries_its_cause(cause: String)
    ensures
        SmartcardError::CardNotFound(cause).text() == "card not found: "@ + cause@,
        SmartcardError::PinFailed(cause).text() == "PIN verification failed: "@ + cause@,
        SmartcardError::DhFailed(cause).text() == "DH operation failed: "@ + cause@,
        SmartcardError::CardError(cause).text() == "card communication error: "@ + cause@,
{
}

} // verus!
