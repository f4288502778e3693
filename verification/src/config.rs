//! The configuration of a tunnel, as the configuration file gives it.
use vstd::prelude::*;

use crate::keys::Key;

verus! {

/// A UDP socket address.
#[derive(Clone, Copy, Debug, PartialEq, Eq)]
pub enum SocketEndpoint {
    /// An IPv4 address and port.
    V4 {
        /// The address.
        octets: [u8; 4],
        /// The port.
        port: u16,
    },
    /// An IPv6 address and port.
    V6 {
        /// The address.
        octets: [u8; 16],
        /// The port.
        port: u16,
        /// The flow information.
        flowinfo: u32,
        /// The scope of the address.
        scope_id: u32,
    },
}

/// Where the static private key of the interface is.
pub enum PrivateKeyConfig {
    /// In the configuration file.
    Software(Key),
    /// On the card with this identifier.
    Smartcard(String),
    /// On the first card with an X25519 decryption key.
    SmartcardAuto,
}

/// Settings for the use of a card.
pub struct SmartcardConfig {
    /// How the PIN is obtained: `prompt`, or `env:` and the name of a variable.
    pub pin_entry: String,
}

/// Settings of the local interface.
pub struct InterfaceConfig {
    /// Where the static private key is.
    pub private_key: PrivateKeyConfig,
    /// The UDP port to listen on.
    pub listen_port: Option<u16>,
    /// The address of the TUN device, with its prefix length.
    pub address: Option<String>,
    /// The maximum transmission unit of the TUN device.
    pub mtu: Option<i32>,
    /// Settings for the use of a card.
    pub smartcard: SmartcardConfig,
}

/// Settings of a peer.
pub struct PeerConfig {
    /// The static public key.
    pub public_key: Key,
    /// The preshared key, if there is one.
    pub preshared_key: Option<Key>,
    /// The address at which the peer is first tried.
    pub endpoint: Option<SocketEndpoint>,
    /// The prefixes that are routed to the peer.
    pub allowed_ips: Vec<String>,
}

/// The configuration of a tunnel.
pub struct Config {
    /// The local interface.
    pub interface: InterfaceConfig,
    /// The peers.
    pub peers: Vec<PeerConfig>,
}

} // verus!
