//! Verified core of a WireGuard client whose static key may live on an
//! OpenPGP smartcard.
pub mod cache;
pub mod card;
pub mod config;
pub mod crypto;
pub mod device;
pub mod error;
pub mod keys;
pub mod net;
pub mod pin;
pub mod plan;
pub mod precompute;
pub mod report;
pub mod secret;
pub mod sync;
pub mod text;
pub mod tunnel;
pub mod up;

pub use cache::{cache_peer_ss, clear_peer_ss, SsCache};
pub use card::init::init_smartcard;
pub use card::listing::list_cards;
pub use card::{CardHandle, CardInfo};
pub use crypto::{CryptoError, DhRoute, DhStep, PubkeyRoute, SmartcardCrypto};
pub use error::SmartcardError;
pub use keys::{smartcard_sentinel, Key, PublicKey, StaticPrivateKey};
pub use secret::{accept_shared_secret, is_zero_secret};
pub use sync::SyncSessions;
pub use tunnel::run_tunnel;
