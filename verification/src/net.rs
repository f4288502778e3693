//! IPv4 networks, and their textual notation.
use vstd::arithmetic::power2::{lemma2_to64, lemma_pow2_pos, lemma_pow2_strictly_increases, pow2};
use vstd::bits::lemma_u32_shl_is_mul;
use vstd::prelude::*;

verus! {

/// An IPv4 address with a prefix length.
#[derive(Clone, Copy, Debug, PartialEq, Eq)]
pub struct Ipv4Network {
    /// The address, with its first octet in the most significant byte.
    pub addr: u32,
    /// The number of leading bits that name the network.
    pub prefix_len: u8,
}

impl Ipv4Network {
    /// The prefix is at most as long as the address.
    pub open spec fn well_formed(self) -> bool {
        self.prefix_len <= 32
    }

    /// The number of addresses in the network.
    pub open spec fn size(self) -> nat {
        pow2((32 - self.prefix_len) as nat)
    }

    /// The network with all bits behind the prefix set to zero.
    pub open spec fn truncated(self) -> Ipv4Network {
        Ipv4Network {
            addr: (self.addr - self.addr as int % self.size() as int) as u32,
            prefix_len: self.prefix_len,
        }
    }

    /// The netmask: as many leading ones as the prefix is long, and zeros
    /// behind them.
    pub fn netmask(&self) -> (mask: u32)
        requires
            self.well_formed(),
        ensures
            mask == 0x1_0000_0000 - self.size(),
            mask == 0x1_0000_0000 - pow2((32 - self.prefix_len) as nat),
    {
        proof {
            lemma2_to64();
        }
        if self.prefix_len == 0 {
            0
        } else {
            let host_bits: u32 = 32 - self.prefix_len as u32;
            proof {
                lemma_pow2_pos(host_bits as nat);
                lemma_pow2_strictly_increases(host_bits as nat, 32);
                lemma_u32_shl_is_mul(1, host_bits);
            }
            0xffff_ffff - ((1u32 << host_bits) - 1)
        }
    }
}

/// `ipnet::AddrParseError`, which `ipnet` returns for text that is no network.
#[verifier::external_type_specification]
#[verifier::external_body]
pub struct ExAddrParseError(ipnet::AddrParseError);

/// `iptrie::IpPrefixError`, which `iptrie` returns for text that is no prefix.
#[verifier::external_type_specification]
#[verifier::external_body]
pub struct ExIpPrefixError(iptrie::IpPrefixError);

/// The network that `<ipnet::Ipv4Net as FromStr>::from_str` reads from a text,
/// if it accepts the text.
pub uninterp spec fn ipv4_net_parse(text: Seq<char>) -> Option<Ipv4Network>;

/// `<ipnet::Ipv4Net as FromStr>::from_str`, with address and prefix length
/// taken out of the result. Claimed: whether it succeeds and what it returns
/// depends on the text alone, and the prefix length is at most 32.
#[verifier::external_body]
pub(crate) fn parse_ipv4_net(text: &str) -> (net: Result<Ipv4Network, ipnet::AddrParseError>)
    ensures
        net is Ok <==> ipv4_net_parse(text@) is Some,
        net matches Ok(value) ==> ipv4_net_parse(text@) == Some(value) && value.well_formed(),
{
    let net: ipnet::Ipv4Net = text.parse()?;
    Ok(Ipv4Network { addr: net.addr().into(), prefix_len: net.prefix_len() })
}

/// `<iptrie::Ipv4Prefix as FromStr>::from_str`, with address and length taken
/// out of the result. Claimed: it accepts the texts that `ipnet::Ipv4Net`
/// accepts, and returns the same network with the bits behind the prefix set
/// to zero.
#[verifier::external_body]
pub(crate) fn parse_ipv4_prefix(text: &str) -> (prefix: Result<Ipv4Network, iptrie::IpPrefixError>)
    ensures
        prefix is Ok <==> ipv4_net_parse(text@) is Some,
        prefix matches Ok(value) ==> ipv4_net_parse(text@) is Some && value == ipv4_net_parse(
            text@,
        )->0.truncated() && value.well_formed(),
{
    let prefix: iptrie::Ipv4Prefix = text.parse()?;
    let addr = iptrie::IpPrefix::network(&prefix).into();
    Ok(Ipv4Network { addr, prefix_len: iptrie::IpPrefix::len(&prefix) })
}

/// Truncation leaves the prefix length alone, never raises the address, and
/// leaves no bit set behind the prefix, so that it changes nothing when it is
/// repeated.
pub proof fn law_truncation(net: Ipv4Network)
    requires
        net.well_formed(),
    ensures
        net.truncated().prefix_len == net.prefix_len,
        net.truncated().addr <= net.addr,
        net.truncated().addr as int % net.size() as int == 0,
        net.truncated().truncated() == net.truncated(),
{
    let size = net.size() as int;
    lemma_pow2_pos((32 - net.prefix_len) as nat);
    vstd::arithmetic::div_mod::lemma_fundamental_div_mod(net.addr as int, size);
    vstd::arithmetic::div_mod::lemma_mod_decreases(net.addr as nat, size as nat);
    let quotient = net.addr as int / size;
    assert(net.addr - net.addr as int % size == size * quotient);
    vstd::arithmetic::div_mod::lemma_mod_multiples_basic(quotient, size);
    assert(size * quotient == quotient * size) by (nonlinear_arith);
}

/// A truncated address is the one multiple of the size of the network that lies
/// at or below the address and less than that size away from it, the size being
/// two to the number of bits behind the prefix.
pub proof fn law_truncation_is_to_the_network(net: Ipv4Network)
    requires
        net.prefix_len <= 32,
    ensures
        ({
            let size = pow2((32 - net.prefix_len) as nat) as int;
            let to = net.truncated().addr as int;
            &&& to % size == 0
            &&& to <= net.addr < to + size
            &&& net.truncated().prefix_len == net.prefix_len
        }),
        net.size() == pow2((32 - net.prefix_len) as nat),
        net.prefix_len == 32 ==> net.truncated() == net,
        net.prefix_len == 0 ==> net.truncated().addr == 0,
{
    let size = pow2((32 - net.prefix_len) as nat) as int;
    law_truncation(net);
    lemma2_to64();
    lemma_pow2_pos((32 - net.prefix_len) as nat);
    vstd::arithmetic::div_mod::lemma_mod_bound(net.addr as int, size);
    vstd::arithmetic::div_mod::lemma_mod_decreases(net.addr as nat, size as nat);
    if net.prefix_len == 0 {
        vstd::arithmetic::div_mod::lemma_small_mod(net.addr as nat, size as nat);
    }
}

} // verus!
