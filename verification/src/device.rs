//! Packets on a TUN device.
//!
//! On BSD systems (macOS, FreeBSD, OpenBSD, NetBSD) a TUN device puts a 4-byte
//! address family header in front of every packet. On Linux there is none.
use vstd::prelude::*;

verus! {

/// The length of the address family header.
pub const HEADER_LEN: usize = 4;

/// `libc::AF_INET` and `libc::AF_INET6`, the numbers of the IPv4 and IPv6
/// address families. Claimed, of the systems that this library is for: the
/// first is 2, and the second is 10 (Linux), 24 (NetBSD, OpenBSD), 28 (FreeBSD)
/// or 30 (macOS). Which of the four it is depends on the system.
#[verifier::external_body]
fn address_families() -> (families: (u32, u32))
    ensures
        families.0 == 2,
        is_inet6(families.1),
{
    (libc::AF_INET as u32, libc::AF_INET6 as u32)
}

/// Whether a number is that of the IPv6 address family, on Linux, NetBSD and
/// OpenBSD, FreeBSD, or macOS.
pub open spec fn is_inet6(family: u32) -> bool {
    family == 10 || family == 24 || family == 28 || family == 30
}

/// Whether a packet is an IPv6 packet, by the version in its first half byte.
pub open spec fn is_ipv6(packet: Seq<u8>) -> bool {
    packet.len() > 0 && packet[0] / 16 == 6
}

/// The four bytes of a number, most significant first.
pub open spec fn big_endian(n: u32) -> Seq<u8> {
    seq![
        (n / 0x100_0000) as u8,
        (n / 0x1_0000 % 0x100) as u8,
        (n / 0x100 % 0x100) as u8,
        (n % 0x100) as u8,
    ]
}

/// The header in front of a packet, given the numbers of the address families:
/// the IPv6 family for an IPv6 packet, the IPv4 family for anything else.
pub open spec fn header_of(inet: u32, inet6: u32, packet: Seq<u8>) -> Seq<u8> {
    big_endian(if is_ipv6(packet) { inet6 } else { inet })
}

/// The header in front of a packet, given the numbers of the address families.
pub fn af_header(inet: u32, inet6: u32, packet: &[u8]) -> (header: [u8; 4])
    ensures
        header@ == header_of(inet, inet6, packet@),
        header@[0] * 0x100_0000 + header@[1] * 0x1_0000 + header@[2] * 0x100 + header@[3] == (
        if packet@.len() > 0 && packet@[0] / 16 == 6 {
            inet6
        } else {
            inet
        }),
{
    let v6 = if packet.len() > 0 {
        let first: u8 = packet[0];
        assert((first >> 4) == first / 16) by (bit_vector);
        (first >> 4) == 6
    } else {
        false
    };
    let n: u32 = if v6 { inet6 } else { inet };
    let header: [u8; 4] = [
        (n / 0x100_0000) as u8,
        (n / 0x1_0000 % 0x100) as u8,
        (n / 0x100 % 0x100) as u8,
        (n % 0x100) as u8,
    ];
    assert(header@ =~= big_endian(n));
    proof {
        lemma_big_endian_value(n);
    }
    header
}

/// The header that the operating system expects in front of a packet. The
/// number of the IPv6 address family is the one that the system uses.
pub fn af_header_for(packet: &[u8]) -> (header: [u8; 4])
    ensures
        !is_ipv6(packet@) ==> header@ == seq![0u8, 0u8, 0u8, 2u8],
        is_ipv6(packet@) ==> exists|inet6: u32|
            is_inet6(inet6) && header@ == #[trigger] big_endian(inet6),
        header@[0] == 0 && header@[1] == 0 && header@[2] == 0,
        packet@.len() > 0 && packet@[0] / 16 == 6 ==> header@[3] == 10 || header@[3] == 24
            || header@[3] == 28 || header@[3] == 30,
        packet@.len() == 0 || packet@[0] / 16 != 6 ==> header@[3] == 2,
{
    assert(big_endian(2) =~= seq![0u8, 0u8, 0u8, 2u8]);
    let (inet, inet6) = address_families();
    af_header(inet, inet6, packet)
}

/// The first part of a packet that holds any byte, given the lengths of the
/// parts: the one whose first byte is that of the packet.
pub fn first_part(lengths: &[usize]) -> (index: Option<usize>)
    ensures
        match index {
            Some(i) => {
                &&& i < lengths@.len()
                &&& lengths@[i as int] > 0
                &&& forall|j: int| 0 <= j < i ==> #[trigger] lengths@[j] == 0
            },
            None => forall|j: int| 0 <= j < lengths@.len() ==> #[trigger] lengths@[j] == 0,
        },
{
    for i in 0..lengths.len()
        invariant
            forall|j: int| 0 <= j < i ==> #[trigger] lengths@[j] == 0,
    {
        if lengths[i] > 0 {
            return Some(i);
        }
    }
    None
}

/// What an attempt to move bytes between a buffer and the device came to.
#[derive(Clone, Copy, Debug, PartialEq, Eq)]
pub enum IoOutcome {
    /// So many bytes were moved, a header included.
    Moved(usize),
    /// The operation failed.
    Failed,
    /// The device was not ready after all.
    WouldBlock,
}

/// How to go on after an attempt.
#[derive(Clone, Copy, Debug, PartialEq, Eq)]
pub enum IoStep {
    /// Report that so many bytes of the packet were moved.
    Complete(usize),
    /// Report the failure.
    Fail,
    /// Wait for the device to become ready, and try again.
    Retry,
}

/// The number of bytes of a packet among `moved` bytes.
pub open spec fn packet_bytes(framed: bool, moved: usize) -> usize {
    if !framed {
        moved
    } else if moved > HEADER_LEN {
        (moved - HEADER_LEN) as usize
    } else {
        0
    }
}

/// How to go on after an attempt on a device that puts a header in front of
/// packets (`framed`) or does not.
pub open spec fn after_attempt(framed: bool, outcome: IoOutcome) -> IoStep {
    match outcome {
        IoOutcome::Moved(moved) => IoStep::Complete(packet_bytes(framed, moved)),
        IoOutcome::Failed => IoStep::Fail,
        IoOutcome::WouldBlock => IoStep::Retry,
    }
}

/// How to go on after an attempt to read or write a packet.
pub fn io_step(framed: bool, outcome: IoOutcome) -> (step: IoStep)
    ensures
        step == after_attempt(framed, outcome),
        match outcome {
            IoOutcome::Moved(moved) => step matches IoStep::Complete(n) && if framed && moved > 4 {
                n + 4 == moved
            } else if framed {
                n == 0
            } else {
                n == moved
            },
            IoOutcome::Failed => step is Fail,
            IoOutcome::WouldBlock => step is Retry,
        },
{
    match outcome {
        IoOutcome::Moved(moved) => if !framed {
            IoStep::Complete(moved)
        } else if moved > HEADER_LEN {
            IoStep::Complete(moved - HEADER_LEN)
        } else {
            IoStep::Complete(0)
        },
        IoOutcome::Failed => IoStep::Fail,
        IoOutcome::WouldBlock => IoStep::Retry,
    }
}

/// A packet that crosses the device whole is reported with its own length,
/// with a header in front of it or without; what is cut off within the header
/// counts as nothing.
pub proof fn law_packet_length(packet: usize, cut: usize)
    requires
        packet + HEADER_LEN <= usize::MAX,
        cut <= HEADER_LEN,
    ensures
        after_attempt(true, IoOutcome::Moved((packet + HEADER_LEN) as usize)) == IoStep::Complete(
            packet,
        ),
        after_attempt(false, IoOutcome::Moved(packet)) == IoStep::Complete(packet),
        after_attempt(true, IoOutcome::Moved(cut)) == IoStep::Complete(0),
{
}

/// The header tells IPv6 packets from all others, as long as the address
/// families have different numbers.
pub proof fn law_header_tells_versions_apart(
    inet: u32,
    inet6: u32,
    one: Seq<u8>,
    other: Seq<u8>,
)
    requires
        inet != inet6,
    ensures
        header_of(inet, inet6, one) == header_of(inet, inet6, other) <==> is_ipv6(one) == is_ipv6(
            other,
        ),
{
    if is_ipv6(one) != is_ipv6(other) && big_endian(inet) == big_endian(inet6) {
        lemma_big_endian_value(inet);
        lemma_big_endian_value(inet6);
    }
}

/// The header of a packet that is handed over in parts is that of the first
/// part that holds any byte; without such a part it is that of no bytes at all.
pub proof fn law_header_of_parts(inet: u32, inet6: u32, parts: Seq<Seq<u8>>, first: Option<int>)
    requires
        match first {
            Some(i) => {
                &&& 0 <= i < parts.len()
                &&& parts[i].len() > 0
                &&& forall|j: int| 0 <= j < i ==> #[trigger] parts[j].len() == 0
            },
            None => forall|j: int| 0 <= j < parts.len() ==> #[trigger] parts[j].len() == 0,
        },
    ensures
        header_of(inet, inet6, parts.flatten()) == header_of(
            inet,
            inet6,
            match first {
                Some(i) => parts[i],
                None => Seq::empty(),
            },
        ),
    decreases parts.len(),
{
    if parts.len() > 0 {
        let rest = parts.drop_first();
        assert(parts.flatten() == parts.first() + rest.flatten());
        if parts[0].len() == 0 {
            assert(parts.flatten() =~= rest.flatten());
            assert forall|j: int| 0 <= j < rest.len() implies #[trigger] rest[j] == parts[j + 1] by {}
            match first {
                Some(i) => law_header_of_parts(inet, inet6, rest, Some(i - 1)),
                None => law_header_of_parts(inet, inet6, rest, None),
            }
        } else {
            assert(parts[0].len() > 0);
            assert(parts.flatten()[0] == parts[0][0]);
        }
    }
}

proof fn lemma_big_endian_value(n: u32)
    ensures
        n == big_endian(n)[0] * 0x100_0000 + big_endian(n)[1] * 0x1_0000 + big_endian(n)[2] * 0x100
            + big_endian(n)[3],
{
    assert(n / 0x100_0000 < 0x100) by (bit_vector);
    assert(n == (n / 0x100_0000) * 0x100_0000 + (n / 0x1_0000 % 0x100) * 0x1_0000 + (n / 0x100
        % 0x100) * 0x100 + n % 0x100) by (bit_vector);
}

/// The four bytes of a header, most significant first, are the number of the
/// IPv6 address family if the packet has a first byte whose upper half is six,
/// and that of the IPv4 family for every other packet.
pub proof fn law_header_names_the_family(inet: u32, inet6: u32, packet: Seq<u8>)
    ensures
        ({
            let header = header_of(inet, inet6, packet);
            let named = header[0] * 0x100_0000 + header[1] * 0x1_0000 + header[2] * 0x100
                + header[3];
            &&& header.len() == 4
            &&& packet.len() > 0 && packet[0] / 16 == 6 ==> named == inet6
            &&& packet.len() == 0 || packet[0] / 16 != 6 ==> named == inet
        }),
{
    lemma_big_endian_value(inet);
    lemma_big_endian_value(inet6);
}

/// A failure is reported and an attempt that came too early is repeated, with
/// a header in front of packets or without.
pub proof fn law_attempts_that_move_nothing(framed: bool)
    ensures
        after_attempt(framed, IoOutcome::Failed) is Fail,
        after_attempt(framed, IoOutcome::WouldBlock) is Retry,
{
}

} // verus!
