//! From the configuration to what is needed to bring a tunnel up.
use vstd::arithmetic::power2::pow2;
use vstd::prelude::*;

use crate::config::{Config, PeerConfig, SocketEndpoint};
use crate::keys::{Key, PublicKey};
use crate::net::{ipv4_net_parse, parse_ipv4_net, parse_ipv4_prefix, Ipv4Network};

verus! {

/// The UDP port that is used if the configuration names none.
pub const DEFAULT_LISTEN_PORT: u16 = 51820;

/// The MTU that is used if the configuration names none.
pub const DEFAULT_MTU: i32 = 1420;

/// Why a configuration cannot be brought up.
#[derive(Clone, Copy, Debug, PartialEq, Eq)]
pub enum UpError {
    /// The interface has no address.
    MissingAddress,
    /// The address of the interface is no IPv4 network.
    InvalidAddress,
    /// An allowed IP of a peer is no IPv4 prefix.
    InvalidAllowedIp,
}

impl UpError {
    /// The text shown to the user.
    pub open spec fn text(self) -> Seq<char> {
        match self {
            UpError::MissingAddress => "interface.address is required for tunnel mode"@,
            UpError::InvalidAddress => "invalid IP address syntax"@,
            UpError::InvalidAllowedIp => "invalid AllowedIP prefix"@,
        }
    }

    /// Renders the error for the user.
    pub fn message(&self) -> (text: &'static str)
        ensures
            text@ == self.text(),
            *self is MissingAddress ==> text@ == "interface.address is required for tunnel mode"@,
            *self is InvalidAddress ==> text@ == "invalid IP address syntax"@,
            *self is InvalidAllowedIp ==> text@ == "invalid AllowedIP prefix"@,
    {
        match self {
            UpError::MissingAddress => "interface.address is required for tunnel mode",
            UpError::InvalidAddress => "invalid IP address syntax",
            UpError::InvalidAllowedIp => "invalid AllowedIP prefix",
        }
    }
}

/// A peer, with its allowed IPs parsed.
pub struct PeerPlan {
    /// The static public key.
    pub public_key: PublicKey,
    /// The preshared key, if there is one.
    pub preshared_key: Option<Key>,
    /// The address at which the peer is first tried.
    pub endpoint: Option<SocketEndpoint>,
    /// The prefixes that are routed to the peer.
    pub allowed_ips: Vec<Ipv4Network>,
}

/// What is needed to bring a tunnel up.
pub struct TunnelPlan {
    /// The UDP port to listen on.
    pub listen_port: u16,
    /// The MTU of the TUN device.
    pub mtu: i32,
    /// The address of the TUN device.
    pub tun_addr: Ipv4Network,
    /// The peers, in the order of the configuration.
    pub peers: Vec<PeerPlan>,
    /// The allowed IPs of all peers, peer by peer.
    pub all_allowed_ips: Vec<Ipv4Network>,
    /// The endpoint of each peer.
    pub peer_endpoints: Vec<Option<SocketEndpoint>>,
}

/// What a TUN device is created with.
#[derive(Clone, Copy, Debug, PartialEq, Eq)]
pub struct DeviceSettings {
    /// The address, with its first octet in the most significant byte.
    pub address: u32,
    /// The netmask, likewise.
    pub netmask: u32,
    /// The maximum transmission unit.
    pub mtu: i32,
}

/// The value, or the default where the configuration names none.
pub open spec fn or_default<T>(value: Option<T>, default: T) -> T {
    match value {
        Some(v) => v,
        None => default,
    }
}

/// The elements of all lists, list by list.
pub open spec fn joined(lists: Seq<Seq<Ipv4Network>>) -> Seq<Ipv4Network> {
    lists.flatten()
}

/// Whether a peer of the plan is the configured peer with the prefixes `allowed`.
pub open spec fn plans_peer(plan: PeerPlan, config: PeerConfig, allowed: Seq<Ipv4Network>) -> bool {
    &&& plan.public_key == PublicKey(config.public_key)
    &&& plan.preshared_key == config.preshared_key
    &&& plan.endpoint == config.endpoint
    &&& plan.allowed_ips@ == allowed
}

impl TunnelPlan {
    /// Whether the plan is that of a configuration whose interface address and
    /// allowed IPs parse to `tun_addr` and `allowed`.
    pub open spec fn is_for(
        self,
        config: Config,
        tun_addr: Ipv4Network,
        allowed: Seq<Seq<Ipv4Network>>,
    ) -> bool {
        &&& self.listen_port == or_default(config.interface.listen_port, DEFAULT_LISTEN_PORT)
        &&& self.mtu == or_default(config.interface.mtu, DEFAULT_MTU)
        &&& self.tun_addr == tun_addr
        &&& self.peers@.len() == config.peers@.len()
        &&& forall|i: int|
            0 <= i < config.peers@.len() ==> plans_peer(
                #[trigger] self.peers@[i],
                config.peers@[i],
                allowed[i],
            )
        &&& self.all_allowed_ips@ == joined(allowed)
        &&& self.peer_endpoints@ == config.peers@.map_values(|peer: PeerConfig| peer.endpoint)
    }
}

/// The sequences held by a list of vectors.
pub open spec fn views(lists: Seq<Vec<Ipv4Network>>) -> Seq<Seq<Ipv4Network>> {
    lists.map_values(|list: Vec<Ipv4Network>| list@)
}

/// Puts a plan together from a configuration and its parsed addresses.
/// `allowed[i]` holds the parsed allowed IPs of peer `i`.
pub fn assemble(config: &Config, tun_addr: Ipv4Network, allowed: Vec<Vec<Ipv4Network>>) -> (plan:
    TunnelPlan)
    requires
        allowed@.len() == config.peers@.len(),
    ensures
        plan.is_for(*config, tun_addr, views(allowed@)),
        plan.peers@.len() == allowed@.len(),
        forall|i: int|
            0 <= i < allowed@.len() ==> (#[trigger] plan.peers@[i]).allowed_ips@ == allowed@[i]@
                && plan.peers@[i].public_key.0 == config.peers@[i].public_key
                && plan.peers@[i].preshared_key == config.peers@[i].preshared_key
                && plan.peers@[i].endpoint == config.peers@[i].endpoint,
{
    let ghost lists = views(allowed@);
    let mut peers: Vec<PeerPlan> = Vec::new();
    let mut all_allowed_ips: Vec<Ipv4Network> = Vec::new();
    let mut peer_endpoints: Vec<Option<SocketEndpoint>> = Vec::new();
    for i in 0..config.peers.len()
        invariant
            allowed@.len() == config.peers@.len(),
            lists == views(allowed@),
            peers@.len() == i,
            forall|j: int|
                0 <= j < i ==> plans_peer(#[trigger] peers@[j], config.peers@[j], lists[j]),
            all_allowed_ips@ == joined(lists.take(i as int)),
            peer_endpoints@ == config.peers@.take(i as int).map_values(
                |peer: PeerConfig| peer.endpoint,
            ),
    {
        let peer = &config.peers[i];
        let list = &allowed[i];
        let mut copy: Vec<Ipv4Network> = Vec::new();
        let ghost before = all_allowed_ips@;
        for j in 0..list.len()
            invariant
                copy@ == list@.take(j as int),
                all_allowed_ips@ == before + list@.take(j as int),
        {
            copy.push(list[j]);
            all_allowed_ips.push(list[j]);
            proof {
                assert(list@.take(j + 1) =~= list@.take(j as int).push(list@[j as int]));
            }
        }
        proof {
            assert(list@.take(list@.len() as int) =~= list@);
            let upto = lists.take(i + 1);
            assert(upto.drop_last() =~= lists.take(i as int));
            upto.lemma_flatten_and_flatten_alt_are_equivalent();
            lists.take(i as int).lemma_flatten_and_flatten_alt_are_equivalent();
        }
        peers.push(
            PeerPlan {
                public_key: PublicKey(peer.public_key),
                preshared_key: peer.preshared_key,
                endpoint: peer.endpoint,
                allowed_ips: copy,
            },
        );
        peer_endpoints.push(peer.endpoint);
        proof {
            assert(peer_endpoints@ =~= config.peers@.take(i + 1).map_values(
                |peer: PeerConfig| peer.endpoint,
            ));
        }
    }
    proof {
        assert(lists.take(config.peers@.len() as int) =~= lists);
        assert(config.peers@.take(config.peers@.len() as int) =~= config.peers@);
    }
    TunnelPlan {
        listen_port: config.interface.listen_port.unwrap_or(DEFAULT_LISTEN_PORT),
        mtu: config.interface.mtu.unwrap_or(DEFAULT_MTU),
        tun_addr,
        peers,
        all_allowed_ips,
        peer_endpoints,
    }
}

/// Whether every allowed IP of a peer is an IPv4 prefix.
pub open spec fn prefixes_parse(peer: PeerConfig) -> bool {
    forall|i: int|
        0 <= i < peer.allowed_ips@.len() ==> ipv4_net_parse(
            #[trigger] peer.allowed_ips@[i]@,
        ) is Some
}

/// The allowed IPs of a peer, with the bits behind the prefix set to zero.
pub open spec fn prefixes_of(peer: PeerConfig) -> Seq<Ipv4Network> {
    peer.allowed_ips@.map_values(|text: String| ipv4_net_parse(text@)->0.truncated())
}

/// Parses the allowed IPs of a peer.
pub fn parse_allowed_ips(peer: &PeerConfig) -> (prefixes: Result<Vec<Ipv4Network>, UpError>)
    ensures
        match prefixes {
            Ok(list) => prefixes_parse(*peer) && list@ == prefixes_of(*peer),
            Err(error) => !prefixes_parse(*peer) && error is InvalidAllowedIp,
        },
        prefixes is Err <==> exists|j: int|
            0 <= j < peer.allowed_ips@.len() && ipv4_net_parse(
                #[trigger] peer.allowed_ips@[j]@,
            ) is None,
        prefixes matches Ok(list) ==> {
            &&& list@.len() == peer.allowed_ips@.len()
            &&& forall|j: int|
                0 <= j < list@.len() ==> ipv4_net_parse(peer.allowed_ips@[j]@) is Some
                    && #[trigger] list@[j] == ipv4_net_parse(peer.allowed_ips@[j]@)->0.truncated()
        },
{
    let mut list: Vec<Ipv4Network> = Vec::new();
    for i in 0..peer.allowed_ips.len()
        invariant
            list@ == prefixes_of(*peer).take(i as int),
            forall|j: int|
                0 <= j < i ==> ipv4_net_parse(#[trigger] peer.allowed_ips@[j]@) is Some,
    {
        match parse_ipv4_prefix(peer.allowed_ips[i].as_str()) {
            Ok(prefix) => {
                list.push(prefix);
            },
            Err(_) => {
                return Err(UpError::InvalidAllowedIp);
            },
        }
        proof {
            assert(prefixes_of(*peer).take(i + 1) =~= prefixes_of(*peer).take(i as int).push(
                prefixes_of(*peer)[i as int],
            ));
        }
    }
    assert(prefixes_of(*peer).take(peer.allowed_ips@.len() as int) =~= prefixes_of(*peer));
    Ok(list)
}

impl TunnelPlan {
    /// Plans the tunnel of a configuration. The address of the interface is
    /// looked at before the allowed IPs of the peers.
    pub fn from_config(config: &Config) -> (result: Result<TunnelPlan, UpError>)
        ensures
            match config.interface.address {
                None => result == Err::<TunnelPlan, UpError>(UpError::MissingAddress),
                Some(text) => match ipv4_net_parse(text@) {
                    None => result == Err::<TunnelPlan, UpError>(UpError::InvalidAddress),
                    Some(tun_addr) => if forall|i: int|
                        0 <= i < config.peers@.len() ==> prefixes_parse(
                            #[trigger] config.peers@[i],
                        ) {
                        result matches Ok(plan) && plan.is_for(
                            *config,
                            tun_addr,
                            config.peers@.map_values(|peer: PeerConfig| prefixes_of(peer)),
                        )
                    } else {
                        result == Err::<TunnelPlan, UpError>(UpError::InvalidAllowedIp)
                    },
                },
            },
            result matches Ok(plan) ==> plan.tun_addr.well_formed(),
            result == Err::<TunnelPlan, UpError>(UpError::MissingAddress)
                <==> config.interface.address is None,
            result == Err::<TunnelPlan, UpError>(UpError::InvalidAddress) <==> (
            config.interface.address matches Some(text) && ipv4_net_parse(text@) is None),
            result matches Ok(plan) ==> {
                &&& config.interface.address matches Some(text)
                &&& ipv4_net_parse(text@) == Some(plan.tun_addr)
                &&& plan.listen_port == (match config.interface.listen_port {
                    Some(port) => port,
                    None => 51820,
                })
                &&& plan.mtu == (match config.interface.mtu {
                    Some(mtu) => mtu,
                    None => 1420,
                })
                &&& plan.peers@.len() == config.peers@.len()
                &&& plan.peer_endpoints@.len() == config.peers@.len()
                &&& forall|i: int|
                    0 <= i < config.peers@.len() ==> {
                        &&& (#[trigger] plan.peers@[i]).public_key.0 == config.peers@[i].public_key
                        &&& plan.peers@[i].preshared_key == config.peers@[i].preshared_key
                        &&& plan.peers@[i].endpoint == config.peers@[i].endpoint
                        &&& plan.peer_endpoints@[i] == config.peers@[i].endpoint
                        &&& plan.peers@[i].allowed_ips@.len() == config.peers@[i].allowed_ips@.len()
                    }
                &&& forall|i: int, j: int|
                    0 <= i < config.peers@.len() && 0 <= j < config.peers@[i].allowed_ips@.len() ==> {
                        &&& ipv4_net_parse(config.peers@[i].allowed_ips@[j]@) is Some
                        &&& #[trigger] plan.peers@[i].allowed_ips@[j] == ipv4_net_parse(
                            config.peers@[i].allowed_ips@[j]@,
                        )->0.truncated()
                    }
                &&& plan.all_allowed_ips@ == plan.peers@.map_values(
                    |peer: PeerPlan| peer.allowed_ips@,
                ).flatten()
            },
            result == Err::<TunnelPlan, UpError>(UpError::InvalidAllowedIp) <==> {
                &&& config.interface.address matches Some(text)
                &&& ipv4_net_parse(text@) is Some
                &&& exists|i: int, j: int|
                    0 <= i < config.peers@.len() && 0 <= j < config.peers@[i].allowed_ips@.len()
                        && ipv4_net_parse(#[trigger] config.peers@[i].allowed_ips@[j]@) is None
            },
    {
        let text = match &config.interface.address {
            Some(text) => text,
            None => {
                return Err(UpError::MissingAddress);
            },
        };
        let tun_addr = match parse_ipv4_net(text.as_str()) {
            Ok(net) => net,
            Err(_) => {
                return Err(UpError::InvalidAddress);
            },
        };
        let mut allowed: Vec<Vec<Ipv4Network>> = Vec::new();
        for i in 0..config.peers.len()
            invariant
                allowed@.len() == i,
                forall|j: int|
                    0 <= j < i ==> prefixes_parse(#[trigger] config.peers@[j]) && allowed@[j]@
                        == prefixes_of(config.peers@[j]),
                config.interface.address is Some,
                ipv4_net_parse(config.interface.address->0@) == Some(tun_addr),
        {
            match parse_allowed_ips(&config.peers[i]) {
                Ok(list) => {
                    allowed.push(list);
                },
                Err(error) => {
                    return Err(error);
                },
            }
        }
        assert(views(allowed@) =~= config.peers@.map_values(
            |peer: PeerConfig| prefixes_of(peer),
        ));
        let plan = assemble(config, tun_addr, allowed);
        proof {
            law_plan_takes_settings_over(plan, *config, tun_addr, views(allowed@));
        }
        Ok(plan)
    }

    /// The address that the UDP socket is bound to: the planned port, on all
    /// IPv4 addresses of the host.
    pub fn bind_address(&self) -> (endpoint: SocketEndpoint)
        ensures
            endpoint == (SocketEndpoint::V4 { octets: [0u8, 0u8, 0u8, 0u8], port: self.listen_port }),
    {
        SocketEndpoint::V4 { octets: [0, 0, 0, 0], port: self.listen_port }
    }

    /// What the TUN device is created with: the planned address itself, not
    /// that of its network, the netmask of the prefix, and the planned MTU.
    pub fn device(&self) -> (settings: DeviceSettings)
        requires
            self.tun_addr.well_formed(),
        ensures
            settings.address == self.tun_addr.addr,
            settings.netmask == 0x1_0000_0000 - self.tun_addr.size(),
            settings.mtu == self.mtu,
            settings.netmask == 0x1_0000_0000 - pow2((32 - self.tun_addr.prefix_len) as nat),
    {
        DeviceSettings {
            address: self.tun_addr.addr,
            netmask: self.tun_addr.netmask(),
            mtu: self.mtu,
        }
    }
}

/// A plan takes over every setting of its configuration, each independently of
/// all others: port and MTU, with their defaults where none is given, the
/// address, and of each peer, at its own place, the public key, the preshared
/// key, the endpoint and the prefixes. The prefixes of all peers are those of
/// the single peers, one after the other.
pub proof fn law_plan_takes_settings_over(
    plan: TunnelPlan,
    config: Config,
    tun_addr: Ipv4Network,
    allowed: Seq<Seq<Ipv4Network>>,
)
    requires
        plan.is_for(config, tun_addr, allowed),
        allowed.len() == config.peers@.len(),
    ensures
        plan.tun_addr == tun_addr,
        config.interface.listen_port matches Some(port) ==> plan.listen_port == port,
        config.interface.listen_port is None ==> plan.listen_port == 51820,
        config.interface.mtu matches Some(mtu) ==> plan.mtu == mtu,
        config.interface.mtu is None ==> plan.mtu == 1420,
        plan.peers@.len() == config.peers@.len(),
        plan.peer_endpoints@.len() == config.peers@.len(),
        forall|i: int|
            0 <= i < config.peers@.len() ==> {
                &&& (#[trigger] plan.peers@[i]).public_key.0 == config.peers@[i].public_key
                &&& plan.peers@[i].preshared_key == config.peers@[i].preshared_key
                &&& plan.peers@[i].endpoint == config.peers@[i].endpoint
                &&& plan.peers@[i].allowed_ips@ == allowed[i]
                &&& plan.peer_endpoints@[i] == config.peers@[i].endpoint
            },
        plan.all_allowed_ips@ == plan.peers@.map_values(
            |peer: PeerPlan| peer.allowed_ips@,
        ).flatten(),
{
    assert(plan.peers@.map_values(|peer: PeerPlan| peer.allowed_ips@) =~= allowed);
}

/// Every prefix of every peer is among those of all peers, and nothing else is.
pub proof fn law_all_prefixes_are_routed(lists: Seq<Seq<Ipv4Network>>, net: Ipv4Network)
    ensures
        joined(lists).contains(net) <==> exists|i: int, j: int|
            0 <= i < lists.len() && 0 <= j < lists[i].len() && #[trigger] lists[i][j] == net,
    decreases lists.len(),
{
    if lists.len() > 0 {
        let rest = lists.drop_first();
        let first = lists.first();
        assert(joined(lists) == first + joined(rest));
        law_all_prefixes_are_routed(rest, net);
        if joined(lists).contains(net) {
            let k = choose|k: int| 0 <= k < joined(lists).len() && joined(lists)[k] == net;
            if k < first.len() {
                assert(lists[0][k] == net);
            } else {
                assert(joined(rest)[k - first.len()] == net);
                let (i, j) = choose|i: int, j: int|
                    0 <= i < rest.len() && 0 <= j < rest[i].len() && #[trigger] rest[i][j] == net;
                assert(lists[i + 1][j] == net);
            }
        }
        if exists|i: int, j: int|
            0 <= i < lists.len() && 0 <= j < lists[i].len() && #[trigger] lists[i][j] == net {
            let (i, j) = choose|i: int, j: int|
                0 <= i < lists.len() && 0 <= j < lists[i].len() && #[trigger] lists[i][j] == net;
            if i == 0 {
                assert(joined(lists)[j] == net);
            } else {
                assert(rest[i - 1][j] == net);
                let k = choose|k: int| 0 <= k < joined(rest).len() && joined(rest)[k] == net;
                assert(joined(lists)[first.len() + k] == net);
            }
        }
    }
}

} // verus!
