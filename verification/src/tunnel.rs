//! The life of a tunnel: set-up, the event loop, and shutdown.
//!
//! The tunnel itself performs nothing. Its phase says what is to be done next,
//! and the event that reports the outcome leads to the next phase.
use vstd::prelude::*;

verus! {

/// The length of the packet buffers.
pub const BUFFER_LEN: usize = 2048;

/// What is to be done next.
#[derive(Clone, Copy, Debug, PartialEq, Eq)]
pub enum TunnelPhase {
    /// Bind the UDP socket.
    BindSocket,
    /// Create the TUN device.
    CreateDevice,
    /// Prepare the TUN device for asynchronous use.
    WrapDevice,
    /// Set up the routes for the allowed IPs.
    SetUpRoutes,
    /// See whether a handshake with this peer can be initiated.
    Greet(usize),
    /// Send the handshake initiation to this peer.
    SendGreeting(usize),
    /// Watch for an interrupt signal.
    WatchInterrupt,
    /// Watch for a termination signal.
    WatchTerminate,
    /// Wait for a signal, the clock, a datagram or a packet.
    Wait,
    /// Let the sessions do what is due, once.
    Turn,
    /// Send the message that was due.
    SendMaintenance,
    /// Hand the datagram to the sessions.
    HandleDatagram,
    /// Hand so many bytes of the packet buffer, headroom included, to the sessions.
    HandlePacket(usize),
    /// Write the decrypted packet to the TUN device.
    WriteInbound,
    /// Send the encrypted packet to the peer.
    SendOutbound,
    /// Remove the routes.
    CleanUp,
    /// Nothing: the tunnel was shut down.
    Stopped,
    /// Nothing: an operation failed.
    Aborted,
}

/// What came of it.
#[derive(Clone, Copy, Debug, PartialEq, Eq)]
pub enum TunnelEvent {
    /// The operation succeeded.
    Succeeded,
    /// The operation, or the wait, failed.
    Failed,
    /// There is a handshake or maintenance message to send.
    MessageReady,
    /// There is nothing to send or write.
    Nothing,
    /// There is a decrypted packet to write.
    Inbound,
    /// There is an encrypted packet to send.
    Outbound,
    /// An interrupt or termination signal arrived.
    Signal,
    /// A second has passed.
    Tick,
    /// A datagram arrived.
    Datagram,
    /// A packet of so many bytes was read from the TUN device.
    Packet(usize),
}

/// What the sessions make of an attempt to send a message to a peer.
#[derive(Clone, Copy, Debug, PartialEq, Eq)]
pub enum SendOutcome {
    /// A handshake or maintenance message has to be sent first.
    Maintenance,
    /// The message itself could be sent.
    Other,
    /// Nothing can be sent.
    Failed,
}

/// What a greeting comes to: only a maintenance message is sent, and anything
/// else, a failure included, sends nothing and stops nothing.
pub fn greeting_event(outcome: SendOutcome) -> (event: TunnelEvent)
    ensures
        event == (match outcome {
            SendOutcome::Maintenance => TunnelEvent::MessageReady,
            SendOutcome::Other => TunnelEvent::Nothing,
            SendOutcome::Failed => TunnelEvent::Nothing,
        }),
{
    match outcome {
        SendOutcome::Maintenance => TunnelEvent::MessageReady,
        SendOutcome::Other => TunnelEvent::Nothing,
        SendOutcome::Failed => TunnelEvent::Nothing,
    }
}

/// A tunnel.
#[derive(Clone, Copy, Debug, PartialEq, Eq)]
pub struct Tunnel {
    /// The number of peers.
    pub peers: usize,
    /// The room that is kept free in front of packets from the TUN device.
    pub headroom: usize,
    /// What is to be done next.
    pub phase: TunnelPhase,
}

/// Starts a tunnel.
pub fn run_tunnel(peers: usize, headroom: usize) -> (tunnel: Tunnel)
    ensures
        tunnel == (Tunnel { peers, headroom, phase: TunnelPhase::BindSocket }),
        tunnel.well_formed(),
{
    Tunnel { peers, headroom, phase: TunnelPhase::BindSocket }
}

impl Tunnel {
    /// Whether an event can be the outcome of the current phase. A packet fits
    /// in its buffer, behind the headroom.
    pub open spec fn expects(self, event: TunnelEvent) -> bool {
        match self.phase {
            TunnelPhase::SetUpRoutes | TunnelPhase::CleanUp => event is Succeeded,
            TunnelPhase::Greet(_) | TunnelPhase::Turn => event is MessageReady || event is Nothing,
            TunnelPhase::Wait => match event {
                TunnelEvent::Signal | TunnelEvent::Tick | TunnelEvent::Datagram
                | TunnelEvent::Failed => true,
                TunnelEvent::Packet(len) => self.headroom + len <= BUFFER_LEN,
                _ => false,
            },
            TunnelPhase::HandleDatagram | TunnelPhase::HandlePacket(_) => event is Nothing
                || event is Inbound || event is Outbound,
            TunnelPhase::Stopped | TunnelPhase::Aborted => false,
            _ => event is Succeeded || event is Failed,
        }
    }

    /// The phase in which a peer is greeted; past the last peer, signals are
    /// next.
    pub open spec fn greeting(self, peer: int) -> TunnelPhase {
        if peer < self.peers {
            TunnelPhase::Greet(peer as usize)
        } else {
            TunnelPhase::WatchInterrupt
        }
    }

    /// The phase after an event.
    pub open spec fn next_phase(self, event: TunnelEvent) -> TunnelPhase {
        if event is Failed {
            TunnelPhase::Aborted
        } else {
            match self.phase {
                TunnelPhase::BindSocket => TunnelPhase::CreateDevice,
                TunnelPhase::CreateDevice => TunnelPhase::WrapDevice,
                TunnelPhase::WrapDevice => TunnelPhase::SetUpRoutes,
                TunnelPhase::SetUpRoutes => self.greeting(0),
                TunnelPhase::Greet(peer) => if event is MessageReady {
                    TunnelPhase::SendGreeting(peer)
                } else {
                    self.greeting(peer + 1)
                },
                TunnelPhase::SendGreeting(peer) => self.greeting(peer + 1),
                TunnelPhase::WatchInterrupt => TunnelPhase::WatchTerminate,
                TunnelPhase::WatchTerminate => TunnelPhase::Wait,
                TunnelPhase::Wait => match event {
                    TunnelEvent::Signal => TunnelPhase::CleanUp,
                    TunnelEvent::Tick => TunnelPhase::Turn,
                    TunnelEvent::Datagram => TunnelPhase::HandleDatagram,
                    TunnelEvent::Packet(len) => TunnelPhase::HandlePacket(
                        (self.headroom + len) as usize,
                    ),
                    _ => TunnelPhase::Wait,
                },
                TunnelPhase::Turn => if event is MessageReady {
                    TunnelPhase::SendMaintenance
                } else {
                    TunnelPhase::Wait
                },
                TunnelPhase::SendMaintenance => TunnelPhase::Turn,
                TunnelPhase::HandleDatagram | TunnelPhase::HandlePacket(_) => match event {
                    TunnelEvent::Inbound => TunnelPhase::WriteInbound,
                    TunnelEvent::Outbound => TunnelPhase::SendOutbound,
                    _ => TunnelPhase::Wait,
                },
                TunnelPhase::WriteInbound => TunnelPhase::Wait,
                TunnelPhase::SendOutbound => TunnelPhase::Wait,
                TunnelPhase::CleanUp => TunnelPhase::Stopped,
                TunnelPhase::Stopped => TunnelPhase::Stopped,
                TunnelPhase::Aborted => TunnelPhase::Aborted,
            }
        }
    }

    /// The tunnel after an event.
    pub open spec fn next(self, event: TunnelEvent) -> Tunnel {
        Tunnel { peers: self.peers, headroom: self.headroom, phase: self.next_phase(event) }
    }

    /// Only peers that exist are greeted, and only what fits in the packet
    /// buffer is handed to the sessions.
    pub open spec fn well_formed(self) -> bool {
        match self.phase {
            TunnelPhase::Greet(peer) => peer < self.peers,
            TunnelPhase::SendGreeting(peer) => peer < self.peers,
            TunnelPhase::HandlePacket(len) => self.headroom <= len <= BUFFER_LEN,
            _ => true,
        }
    }

    /// Tests whether an event can be the outcome of the current phase.
    pub fn accepts(&self, event: &TunnelEvent) -> (ok: bool)
        ensures
            ok == self.expects(*event),
    {
        match self.phase {
            TunnelPhase::SetUpRoutes | TunnelPhase::CleanUp => match event {
                TunnelEvent::Succeeded => true,
                _ => false,
            },
            TunnelPhase::Greet(_) | TunnelPhase::Turn => match event {
                TunnelEvent::MessageReady | TunnelEvent::Nothing => true,
                _ => false,
            },
            TunnelPhase::Wait => match event {
                TunnelEvent::Signal | TunnelEvent::Tick | TunnelEvent::Datagram
                | TunnelEvent::Failed => true,
                TunnelEvent::Packet(len) => self.headroom <= BUFFER_LEN && *len <= BUFFER_LEN
                    - self.headroom,
                _ => false,
            },
            TunnelPhase::HandleDatagram | TunnelPhase::HandlePacket(_) => match event {
                TunnelEvent::Nothing | TunnelEvent::Inbound | TunnelEvent::Outbound => true,
                _ => false,
            },
            TunnelPhase::Stopped | TunnelPhase::Aborted => false,
            _ => match event {
                TunnelEvent::Succeeded | TunnelEvent::Failed => true,
                _ => false,
            },
        }
    }

    fn greet_from(&self, peer: usize) -> (phase: TunnelPhase)
        ensures
            phase == self.greeting(peer as int),
    {
        if peer < self.peers {
            TunnelPhase::Greet(peer)
        } else {
            TunnelPhase::WatchInterrupt
        }
    }

    /// Takes an event into account.
    pub fn step(&self, event: TunnelEvent) -> (after: Tunnel)
        requires
            self.well_formed(),
            self.expects(event),
        ensures
            after == self.next(event),
            after.well_formed(),
    {
        let phase = match event {
            TunnelEvent::Failed => TunnelPhase::Aborted,
            _ => match self.phase {
                TunnelPhase::BindSocket => TunnelPhase::CreateDevice,
                TunnelPhase::CreateDevice => TunnelPhase::WrapDevice,
                TunnelPhase::WrapDevice => TunnelPhase::SetUpRoutes,
                TunnelPhase::SetUpRoutes => self.greet_from(0),
                TunnelPhase::Greet(peer) => match event {
                    TunnelEvent::MessageReady => TunnelPhase::SendGreeting(peer),
                    _ => self.greet_from(peer + 1),
                },
                TunnelPhase::SendGreeting(peer) => self.greet_from(peer + 1),
                TunnelPhase::WatchInterrupt => TunnelPhase::WatchTerminate,
                TunnelPhase::WatchTerminate => TunnelPhase::Wait,
                TunnelPhase::Wait => match event {
                    TunnelEvent::Signal => TunnelPhase::CleanUp,
                    TunnelEvent::Tick => TunnelPhase::Turn,
                    TunnelEvent::Datagram => TunnelPhase::HandleDatagram,
                    TunnelEvent::Packet(len) => TunnelPhase::HandlePacket(self.headroom + len),
                    _ => TunnelPhase::Wait,
                },
                TunnelPhase::Turn => match event {
                    TunnelEvent::MessageReady => TunnelPhase::SendMaintenance,
                    _ => TunnelPhase::Wait,
                },
                TunnelPhase::SendMaintenance => TunnelPhase::Turn,
                TunnelPhase::HandleDatagram | TunnelPhase::HandlePacket(_) => match event {
                    TunnelEvent::Inbound => TunnelPhase::WriteInbound,
                    TunnelEvent::Outbound => TunnelPhase::SendOutbound,
                    _ => TunnelPhase::Wait,
                },
                TunnelPhase::WriteInbound => TunnelPhase::Wait,
                TunnelPhase::SendOutbound => TunnelPhase::Wait,
                TunnelPhase::CleanUp => TunnelPhase::Stopped,
                TunnelPhase::Stopped => TunnelPhase::Stopped,
                TunnelPhase::Aborted => TunnelPhase::Aborted,
            },
        };
        Tunnel { peers: self.peers, headroom: self.headroom, phase }
    }
}

/// A signal ends the loop gracefully: the routes are removed, and then the
/// tunnel is stopped.
pub proof fn law_signal_removes_routes(tunnel: Tunnel)
    requires
        tunnel.phase is Wait,
    ensures
        tunnel.next(TunnelEvent::Signal).phase is CleanUp,
        tunnel.next(TunnelEvent::Signal).next(TunnelEvent::Succeeded).phase is Stopped,
{
}

/// There is no other way to a graceful end: only a signal leads to the removal
/// of the routes, and only their removal to a stopped tunnel.
pub proof fn law_graceful_end_only_by_signal(tunnel: Tunnel, event: TunnelEvent)
    requires
        tunnel.expects(event),
    ensures
        tunnel.next(event).phase is CleanUp ==> tunnel.phase is Wait && event is Signal,
        tunnel.next(event).phase is Stopped ==> tunnel.phase is CleanUp,
{
}

/// A failed operation aborts the tunnel at once, whatever it was.
pub proof fn law_failure_aborts(tunnel: Tunnel, event: TunnelEvent)
    requires
        tunnel.expects(event),
    ensures
        tunnel.next(event).phase is Aborted <==> event is Failed,
{
}

/// On a tick the sessions are turned until they have nothing left to send:
/// each message is sent, and only `Nothing` leads back to waiting.
pub proof fn law_turned_until_nothing_is_left(tunnel: Tunnel, event: TunnelEvent)
    requires
        tunnel.phase is Turn,
        tunnel.expects(event),
    ensures
        event is MessageReady ==> {
            &&& tunnel.next(event).phase is SendMaintenance
            &&& tunnel.next(event).next(TunnelEvent::Succeeded) == tunnel
        },
        tunnel.next(event).phase is Wait <==> event is Nothing,
{
}

/// The tunnel after a sequence of events.
pub open spec fn after_all(tunnel: Tunnel, events: Seq<TunnelEvent>) -> Tunnel
    decreases events.len(),
{
    if events.len() == 0 {
        tunnel
    } else {
        after_all(tunnel, events.drop_last()).next(events.last())
    }
}

/// Whether each event can be the outcome of the phase it meets.
pub open spec fn expects_all(tunnel: Tunnel, events: Seq<TunnelEvent>) -> bool
    decreases events.len(),
{
    events.len() > 0 ==> {
        &&& expects_all(tunnel, events.drop_last())
        &&& after_all(tunnel, events.drop_last()).expects(events.last())
    }
}

/// The peers greeted in the course of a sequence of events, in order.
pub open spec fn greeted(tunnel: Tunnel, events: Seq<TunnelEvent>) -> Seq<usize>
    decreases events.len(),
{
    if events.len() == 0 {
        Seq::empty()
    } else {
        let before = greeted(tunnel, events.drop_last());
        match after_all(tunnel, events.drop_last()).phase {
            TunnelPhase::Greet(peer) => before.push(peer),
            _ => before,
        }
    }
}

/// Whether a phase comes before the first greeting.
pub open spec fn sets_up(phase: TunnelPhase) -> bool {
    phase is BindSocket || phase is CreateDevice || phase is WrapDevice || phase is SetUpRoutes
}

/// The first so many peers.
pub open spec fn first_peers(count: nat) -> Seq<usize> {
    Seq::new(count, |i: int| i as usize)
}

/// The place of a phase among those of setting up.
pub open spec fn set_up_place(phase: TunnelPhase) -> int {
    match phase {
        TunnelPhase::BindSocket => 0,
        TunnelPhase::CreateDevice => 1,
        TunnelPhase::WrapDevice => 2,
        TunnelPhase::SetUpRoutes => 3,
        _ => 4,
    }
}

/// The socket is bound, the device is created and wrapped, and the routes are
/// set up, in this order and once each: every success leads to the next of
/// them, and none is ever come back to.
pub proof fn law_set_up_in_order_and_once(tunnel: Tunnel, event: TunnelEvent)
    requires
        tunnel.expects(event),
    ensures
        sets_up(tunnel.phase) && event is Succeeded ==> set_up_place(tunnel.next(event).phase)
            == set_up_place(tunnel.phase) + 1,
        sets_up(tunnel.next(event).phase) ==> sets_up(tunnel.phase) && event is Succeeded,
{
}

/// Every peer is greeted exactly once, in order, before the first event is
/// waited for: whenever a tunnel gets past its greetings without a failure,
/// all peers have been greeted.
pub proof fn law_every_peer_is_greeted_once(tunnel: Tunnel, events: Seq<TunnelEvent>)
    requires
        tunnel.phase is BindSocket,
        expects_all(tunnel, events),
    ensures
        ({
            let now = after_all(tunnel, events).phase;
            match now {
                TunnelPhase::Aborted => exists|count: nat|
                    count <= tunnel.peers && #[trigger] first_peers(count) == greeted(
                        tunnel,
                        events,
                    ),
                TunnelPhase::Greet(peer) => greeted(tunnel, events) == first_peers(peer as nat),
                TunnelPhase::SendGreeting(peer) => greeted(tunnel, events) == first_peers(
                    (peer + 1) as nat,
                ),
                _ => greeted(tunnel, events) == first_peers(
                    if sets_up(now) {
                        0
                    } else {
                        tunnel.peers as nat
                    },
                ),
            }
        }),
        after_all(tunnel, events).peers == tunnel.peers,
        after_all(tunnel, events).headroom == tunnel.headroom,
        after_all(tunnel, events).well_formed(),
    decreases events.len(),
{
    if events.len() == 0 {
        assert(first_peers(0) =~= Seq::empty());
    } else {
        law_every_peer_is_greeted_once(tunnel, events.drop_last());
        let before = after_all(tunnel, events.drop_last());
        match before.phase {
            TunnelPhase::Greet(peer) => {
                assert(first_peers(peer as nat).push(peer) =~= first_peers((peer + 1) as nat));
            },
            _ => {},
        }
        let seen = greeted(tunnel, events);
        if events.last() is Failed {
            assert(seen == first_peers(seen.len()));
        }
    }
}

/// Whatever the sessions make of a datagram from the network is carried out: a
/// message to send is sent next, a decrypted packet is written next, and only
/// where there is neither is the next event waited for.
pub proof fn law_verdict_on_a_datagram(tunnel: Tunnel, event: TunnelEvent)
    requires
        tunnel.phase is HandleDatagram,
        tunnel.expects(event),
    ensures
        tunnel.next(event).phase is SendOutbound <==> event is Outbound,
        tunnel.next(event).phase is WriteInbound <==> event is Inbound,
        tunnel.next(event).phase is Wait <==> event is Nothing,
        event is Outbound || event is Inbound || event is Nothing,
{
}

/// Whatever the sessions make of a packet from the TUN device is carried out,
/// in the same way as for a datagram, and whatever the length of the packet.
pub proof fn law_verdict_on_a_packet(tunnel: Tunnel, event: TunnelEvent)
    requires
        tunnel.phase is HandlePacket,
        tunnel.expects(event),
    ensures
        tunnel.next(event).phase is SendOutbound <==> event is Outbound,
        tunnel.next(event).phase is WriteInbound <==> event is Inbound,
        tunnel.next(event).phase is Wait <==> event is Nothing,
        event is Outbound || event is Inbound || event is Nothing,
{
}

/// While a tunnel waits, each event has its own consequence, whatever happened
/// before: a datagram is handed to the sessions, a packet is handed to them
/// with the room in front of it counted in, a tick turns them, and a signal
/// begins the shutdown.
pub proof fn law_every_event_is_acted_on(tunnel: Tunnel, len: usize)
    requires
        tunnel.phase is Wait,
    ensures
        tunnel.expects(TunnelEvent::Datagram),
        tunnel.next(TunnelEvent::Datagram).phase is HandleDatagram,
        tunnel.expects(TunnelEvent::Tick),
        tunnel.next(TunnelEvent::Tick).phase is Turn,
        tunnel.expects(TunnelEvent::Signal),
        tunnel.next(TunnelEvent::Signal).phase is CleanUp,
        tunnel.expects(TunnelEvent::Failed),
        tunnel.expects(TunnelEvent::Packet(len)) <==> tunnel.headroom + len <= 2048,
        tunnel.headroom + len <= 2048 ==> (tunnel.next(TunnelEvent::Packet(len)).phase matches
            TunnelPhase::HandlePacket(end) && end == tunnel.headroom + len),
{
}

/// A tunnel that has written or sent what the sessions returned waits for the
/// next event, so that it serves any number of datagrams and packets.
pub proof fn law_waits_again_after_each(tunnel: Tunnel)
    ensures
        tunnel.phase is WriteInbound || tunnel.phase is SendOutbound ==> {
            &&& tunnel.expects(TunnelEvent::Succeeded)
            &&& tunnel.next(TunnelEvent::Succeeded).phase is Wait
        },
        tunnel.phase is SendMaintenance ==> {
            &&& tunnel.expects(TunnelEvent::Succeeded)
            &&& tunnel.next(TunnelEvent::Succeeded).phase is Turn
        },
{
}

/// While a tunnel comes up, each success leads to the next thing to do; the
/// peers are greeted in order, each message for one of them is sent, and after
/// the last one the signals are watched. The number of peers and the headroom
/// never change.
pub proof fn law_way_up(tunnel: Tunnel, event: TunnelEvent)
    ensures
        tunnel.next(event).peers == tunnel.peers,
        tunnel.next(event).headroom == tunnel.headroom,
        ({
            let then = tunnel.next(TunnelEvent::Succeeded).phase;
            &&& tunnel.phase is BindSocket ==> then is CreateDevice
            &&& tunnel.phase is CreateDevice ==> then is WrapDevice
            &&& tunnel.phase is WrapDevice ==> then is SetUpRoutes
            &&& tunnel.phase is SetUpRoutes && tunnel.peers > 0 ==> then == TunnelPhase::Greet(0)
            &&& tunnel.phase is SetUpRoutes && tunnel.peers == 0 ==> then is WatchInterrupt
            &&& tunnel.phase is WatchInterrupt ==> then is WatchTerminate
            &&& tunnel.phase is WatchTerminate ==> then is Wait
            &&& tunnel.phase is CleanUp ==> then is Stopped
            &&& tunnel.phase matches TunnelPhase::SendGreeting(peer) ==> if peer + 1 < tunnel.peers {
                then matches TunnelPhase::Greet(later) && later == peer + 1
            } else {
                then is WatchInterrupt
            }
        }),
        tunnel.phase matches TunnelPhase::Greet(peer) ==> {
            let silent = tunnel.next(TunnelEvent::Nothing).phase;
            &&& tunnel.next(TunnelEvent::MessageReady).phase == TunnelPhase::SendGreeting(peer)
            &&& if peer + 1 < tunnel.peers {
                silent matches TunnelPhase::Greet(later) && later == peer + 1
            } else {
                silent is WatchInterrupt
            }
        },
{
}

/// What can come of each phase: things that are done either succeed or fail,
/// but routes are set up and removed without failing; the sessions, when they
/// are turned or greet a peer, have a message or nothing; and nothing comes of
/// a tunnel that is over.
pub proof fn law_outcomes_of_each_phase(tunnel: Tunnel, event: TunnelEvent)
    ensures
        tunnel.phase is SetUpRoutes || tunnel.phase is CleanUp ==> (tunnel.expects(event)
            <==> event is Succeeded),
        tunnel.phase is Greet || tunnel.phase is Turn ==> (tunnel.expects(event) <==> event is
            MessageReady || event is Nothing),
        tunnel.phase is HandleDatagram || tunnel.phase is HandlePacket ==> (tunnel.expects(event)
            <==> event is Nothing || event is Inbound || event is Outbound),
        tunnel.phase is Stopped || tunnel.phase is Aborted ==> !tunnel.expects(event),
        tunnel.phase is BindSocket || tunnel.phase is CreateDevice || tunnel.phase is WrapDevice
            || tunnel.phase is SendGreeting || tunnel.phase is WatchInterrupt || tunnel.phase is
            WatchTerminate || tunnel.phase is SendMaintenance || tunnel.phase is WriteInbound
            || tunnel.phase is SendOutbound ==> (tunnel.expects(event) <==> event is Succeeded
            || event is Failed),
        tunnel.phase is Wait && !(event is Packet) ==> (tunnel.expects(event) <==> event is Signal
            || event is Tick || event is Datagram || event is Failed),
{
}

} // verus!
