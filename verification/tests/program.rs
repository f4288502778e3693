use smartguard::config::{Config, InterfaceConfig, PeerConfig, PrivateKeyConfig};
use smartguard::config::{SmartcardConfig, SocketEndpoint};
use smartguard::device::{af_header, af_header_for, first_part, io_step, IoOutcome, IoStep};
use smartguard::net::Ipv4Network;
use smartguard::pin::{pin_from_variable, pin_source, PinError, PinSource};
use smartguard::plan::{assemble, parse_allowed_ips, DeviceSettings, TunnelPlan, UpError};
use smartguard::report::{card_entry, card_report, key_line, key_shown, peers_line};
use smartguard::report::public_key_line;
use smartguard::sync::into_sync;
use smartguard::text::decimal_text;
use smartguard::tunnel::{greeting_event, SendOutcome, Tunnel, TunnelEvent, TunnelPhase};
use smartguard::up::{card_ident, is_on_card, session_key, up_stages, BringUp, UpEvent, UpStage};
use smartguard::{run_tunnel, CardInfo, PublicKey};

fn text(s: &str) -> String {
    s.to_string()
}

fn net(a: u8, b: u8, c: u8, d: u8, prefix_len: u8) -> Ipv4Network {
    Ipv4Network { addr: u32::from_be_bytes([a, b, c, d]), prefix_len }
}

fn peer(key: u8, endpoint: Option<SocketEndpoint>, allowed: &[&str]) -> PeerConfig {
    PeerConfig {
        public_key: [key; 32],
        preshared_key: if key == 1 { Some([9; 32]) } else { None },
        endpoint,
        allowed_ips: allowed.iter().map(|s| s.to_string()).collect(),
    }
}

fn config(address: Option<&str>, peers: Vec<PeerConfig>) -> Config {
    Config {
        interface: InterfaceConfig {
            private_key: PrivateKeyConfig::SmartcardAuto,
            listen_port: None,
            address: address.map(|s| s.to_string()),
            mtu: None,
            smartcard: SmartcardConfig { pin_entry: text("prompt") },
        },
        peers,
    }
}

#[test]
fn plan_of_a_configuration() {
    let endpoint = SocketEndpoint::V4 { octets: [192, 0, 2, 1], port: 51820 };
    let plan = TunnelPlan::from_config(&config(
        Some("10.1.2.3/24"),
        vec![
            peer(1, Some(endpoint), &["10.1.2.3/8", "0.0.0.0/0"]),
            peer(2, None, &[]),
            peer(3, None, &["192.168.7.255/31"]),
        ],
    ))
    .ok()
    .unwrap();
    assert_eq!(plan.listen_port, 51820);
    assert_eq!(plan.mtu, 1420);
    assert_eq!(plan.tun_addr, net(10, 1, 2, 3, 24));
    assert_eq!(plan.peers.len(), 3);
    assert_eq!(plan.peers[0].public_key, PublicKey([1; 32]));
    assert_eq!(plan.peers[0].preshared_key, Some([9; 32]));
    assert_eq!(plan.peers[0].endpoint, Some(endpoint));
    assert_eq!(plan.peers[0].allowed_ips, vec![net(10, 0, 0, 0, 8), net(0, 0, 0, 0, 0)]);
    assert_eq!(plan.peers[1].preshared_key, None);
    assert_eq!(plan.peers[1].allowed_ips, vec![]);
    assert_eq!(
        plan.all_allowed_ips,
        vec![net(10, 0, 0, 0, 8), net(0, 0, 0, 0, 0), net(192, 168, 7, 254, 31)]
    );
    assert_eq!(plan.peer_endpoints, vec![Some(endpoint), None, None]);
}

#[test]
fn configured_port_and_mtu_are_kept() {
    let mut c = config(Some("10.0.0.1/32"), vec![]);
    c.interface.listen_port = Some(7);
    c.interface.mtu = Some(-1);
    let plan = TunnelPlan::from_config(&c).ok().unwrap();
    assert_eq!(plan.listen_port, 7);
    assert_eq!(plan.mtu, -1);
    assert_eq!(plan.tun_addr, net(10, 0, 0, 1, 32));
    assert!(plan.peers.is_empty());
}

#[test]
fn configurations_that_cannot_be_brought_up() {
    let bad = || vec![peer(1, None, &["10.0.0.0/8", "10.0.0.0"])];
    assert_eq!(TunnelPlan::from_config(&config(None, bad())).err(), Some(UpError::MissingAddress));
    for address in ["", "10.0.0.1", "10.0.0.1/33", "10.0.0/8", "::1/64", " 10.0.0.1/8"] {
        assert_eq!(
            TunnelPlan::from_config(&config(Some(address), bad())).err(),
            Some(UpError::InvalidAddress)
        );
    }
    assert_eq!(
        TunnelPlan::from_config(&config(Some("10.0.0.1/8"), bad())).err(),
        Some(UpError::InvalidAllowedIp)
    );
    assert_eq!(
        UpError::MissingAddress.message(),
        "interface.address is required for tunnel mode"
    );
    assert_eq!(UpError::InvalidAddress.message(), "invalid IP address syntax");
    assert_eq!(UpError::InvalidAllowedIp.message(), "invalid AllowedIP prefix");
}

#[test]
fn allowed_ips_of_a_peer() {
    assert_eq!(
        parse_allowed_ips(&peer(1, None, &["172.16.5.4/12"])),
        Ok(vec![net(172, 16, 0, 0, 12)])
    );
    assert_eq!(parse_allowed_ips(&peer(1, None, &["x"])), Err(UpError::InvalidAllowedIp));
}

#[test]
fn plan_is_assembled_peer_by_peer() {
    let c = config(None, vec![peer(1, None, &[]), peer(2, None, &[])]);
    let plan = assemble(
        &c,
        net(10, 0, 0, 1, 24),
        vec![vec![net(1, 0, 0, 0, 8), net(2, 0, 0, 0, 8)], vec![net(3, 0, 0, 0, 8)]],
    );
    assert_eq!(
        plan.all_allowed_ips,
        vec![net(1, 0, 0, 0, 8), net(2, 0, 0, 0, 8), net(3, 0, 0, 0, 8)]
    );
    assert_eq!(plan.peers[1].allowed_ips, vec![net(3, 0, 0, 0, 8)]);
}

#[test]
fn netmasks() {
    assert_eq!(net(0, 0, 0, 0, 0).netmask(), 0);
    assert_eq!(net(0, 0, 0, 0, 1).netmask(), 0x8000_0000);
    assert_eq!(net(10, 1, 2, 3, 20).netmask(), 0xffff_f000);
    assert_eq!(net(10, 1, 2, 3, 24).netmask(), 0xffff_ff00);
    assert_eq!(net(10, 1, 2, 3, 32).netmask(), 0xffff_ffff);
}

#[test]
fn pin_entry_methods() {
    assert_eq!(pin_source("prompt"), Ok(PinSource::Prompt));
    assert_eq!(pin_source("env:CARD_PIN"), Ok(PinSource::Environment(text("CARD_PIN"))));
    assert_eq!(pin_source("env:"), Ok(PinSource::Environment(text(""))));
    assert_eq!(pin_source("env:\u{e9}\u{4e2d}"), Ok(PinSource::Environment(text("\u{e9}\u{4e2d}"))));
    for entry in ["", "env", "Prompt", "prompt ", "ENV:X", "file:x"] {
        assert_eq!(pin_source(entry), Err(PinError::Unsupported(text(entry))));
    }
    assert_eq!(
        PinError::Unsupported(text("file:x")).message(),
        "unsupported pin_entry method: file:x"
    );
}

#[test]
fn pin_from_the_environment() {
    assert_eq!(pin_from_variable(text("P"), Some(text("1234"))), Ok(text("1234")));
    let missing = pin_from_variable(text("P"), None);
    assert_eq!(missing, Err(PinError::NotSet(text("P"))));
    assert_eq!(missing.unwrap_err().message(), "environment variable P not set");
}

#[test]
fn report_without_cards() {
    assert_eq!(
        card_report(&vec![]),
        "No OpenPGP smartcards with X25519 decryption keys found.\n\nMake sure:\n  - A smartcard reader is connected\n  - The card has an X25519 key in the decryption slot\n  - pcscd is running (Linux: systemctl start pcscd)\n"
    );
}

#[test]
fn report_of_cards() {
    let mut key = [0u8; 32];
    for i in 0..32 {
        key[i] = i as u8;
    }
    let cards = vec![
        CardInfo { ident: text("0006:00000001"), public_key: key },
        CardInfo { ident: text("b"), public_key: [0xff; 32] },
    ];
    assert_eq!(
        card_report(&cards),
        "Found 2 card(s):\n\n  Card:       0006:00000001\n  Public key: AAECAwQFBgcICQoLDA0ODxAREhMUFRYXGBkaGxwdHh8=\n\n  Card:       b\n  Public key: //////////////////////////////////////////8=\n\n"
    );
    assert_eq!(card_entry("x", "y"), "  Card:       x\n  Public key: y\n\n");
}

#[test]
fn lines_of_the_up_command() {
    assert_eq!(
        public_key_line(&[0; 32]),
        "Public key: AAAAAAAAAAAAAAAAAAAAAAAAAAAAAAAAAAAAAAAAAAA="
    );
    assert_eq!(key_shown("abc"), "Public key: abc");
    assert_eq!(peers_line(0), "0 peer(s) configured");
    assert_eq!(peers_line(12), "12 peer(s) configured");
    assert_eq!(key_line(&PrivateKeyConfig::Software([1; 32])), "Using software private key");
    assert_eq!(key_line(&PrivateKeyConfig::Smartcard(text("a"))), "Opening smartcard a...");
    assert_eq!(key_line(&PrivateKeyConfig::SmartcardAuto), "Auto-detecting smartcard...");
}

#[test]
fn decimal_numbers() {
    for n in [0usize, 7, 10, 99, 100, 1234567890, usize::MAX] {
        assert_eq!(decimal_text(n), n.to_string());
    }
}

#[test]
fn stages_of_the_up_command() {
    assert_eq!(
        up_stages(&PrivateKeyConfig::Software([1; 32])),
        vec![
            UpStage::LoadConfig,
            UpStage::PlanTunnel,
            UpStage::Announce,
            UpStage::DerivePublicKey,
            UpStage::ShowPublicKey,
            UpStage::BuildSessions,
            UpStage::RunTunnel,
        ]
    );
    let with_card = vec![
        UpStage::LoadConfig,
        UpStage::PlanTunnel,
        UpStage::Announce,
        UpStage::ObtainPin,
        UpStage::OpenCard,
        UpStage::ShowPublicKey,
        UpStage::BuildSessions,
        UpStage::Precompute,
        UpStage::RunTunnel,
    ];
    assert_eq!(up_stages(&PrivateKeyConfig::Smartcard(text("a"))), with_card);
    assert_eq!(up_stages(&PrivateKeyConfig::SmartcardAuto), with_card);
    assert_eq!(card_ident(&PrivateKeyConfig::Software([1; 32])), None);
    assert_eq!(card_ident(&PrivateKeyConfig::Smartcard(text("a"))), Some(text("a")));
    assert_eq!(card_ident(&PrivateKeyConfig::SmartcardAuto), Some(text("auto")));
    assert_eq!(session_key(&PrivateKeyConfig::Software([1; 32])).0, [1; 32]);
    assert_eq!(session_key(&PrivateKeyConfig::SmartcardAuto).0, [0; 32]);
}

#[test]
fn address_family_headers() {
    assert_eq!(af_header(2, 30, &[0x45, 0]), [0, 0, 0, 2]);
    assert_eq!(af_header(2, 30, &[0x60]), [0, 0, 0, 30]);
    assert_eq!(af_header(2, 30, &[0x6f]), [0, 0, 0, 30]);
    assert_eq!(af_header(2, 30, &[]), [0, 0, 0, 2]);
    assert_eq!(af_header(2, 30, &[0x06]), [0, 0, 0, 2]);
    assert_eq!(af_header(0x0102_0304, 0, &[0x45]), [1, 2, 3, 4]);
    let inet = (libc::AF_INET as u32).to_be_bytes();
    let inet6 = (libc::AF_INET6 as u32).to_be_bytes();
    assert_eq!(inet, [0, 0, 0, 2]);
    assert_eq!(af_header_for(&[0x45]), inet);
    assert_eq!(af_header_for(&[]), inet);
    assert_eq!(af_header_for(&[0x60]), inet6);
}

#[test]
fn moved_bytes() {
    assert_eq!(io_step(true, IoOutcome::Moved(0)), IoStep::Complete(0));
    assert_eq!(io_step(true, IoOutcome::Moved(4)), IoStep::Complete(0));
    assert_eq!(io_step(true, IoOutcome::Moved(5)), IoStep::Complete(1));
    assert_eq!(io_step(true, IoOutcome::Moved(1424)), IoStep::Complete(1420));
    assert_eq!(io_step(false, IoOutcome::Moved(3)), IoStep::Complete(3));
    assert_eq!(io_step(true, IoOutcome::Failed), IoStep::Fail);
    assert_eq!(io_step(false, IoOutcome::WouldBlock), IoStep::Retry);
}

fn play(mut tunnel: Tunnel, events: &[TunnelEvent]) -> Tunnel {
    for event in events {
        assert!(tunnel.accepts(event));
        tunnel = tunnel.step(*event);
    }
    tunnel
}

fn waiting(headroom: usize) -> Tunnel {
    let up = [
        TunnelEvent::Succeeded,
        TunnelEvent::Succeeded,
        TunnelEvent::Succeeded,
        TunnelEvent::Succeeded,
        TunnelEvent::Succeeded,
        TunnelEvent::Succeeded,
    ];
    let tunnel = play(run_tunnel(0, headroom), &up);
    assert_eq!(tunnel.phase, TunnelPhase::Wait);
    tunnel
}

#[test]
fn tunnel_comes_up_and_greets_every_peer() {
    let tunnel = run_tunnel(2, 16);
    assert_eq!(tunnel.phase, TunnelPhase::BindSocket);
    let s = TunnelEvent::Succeeded;
    let tunnel = play(tunnel, &[s, s, s, s]);
    assert_eq!(tunnel.phase, TunnelPhase::Greet(0));
    let tunnel = play(tunnel, &[TunnelEvent::MessageReady]);
    assert_eq!(tunnel.phase, TunnelPhase::SendGreeting(0));
    let tunnel = play(tunnel, &[s]);
    assert_eq!(tunnel.phase, TunnelPhase::Greet(1));
    let tunnel = play(tunnel, &[TunnelEvent::Nothing]);
    assert_eq!(tunnel.phase, TunnelPhase::WatchInterrupt);
    assert_eq!(play(tunnel, &[s, s]).phase, TunnelPhase::Wait);
}

#[test]
fn signal_cleans_up() {
    let tunnel = play(waiting(16), &[TunnelEvent::Signal]);
    assert_eq!(tunnel.phase, TunnelPhase::CleanUp);
    let tunnel = play(tunnel, &[TunnelEvent::Succeeded]);
    assert_eq!(tunnel.phase, TunnelPhase::Stopped);
    assert!(!tunnel.accepts(&TunnelEvent::Tick));
}

#[test]
fn failure_aborts() {
    assert_eq!(play(run_tunnel(1, 16), &[TunnelEvent::Failed]).phase, TunnelPhase::Aborted);
    assert_eq!(play(waiting(16), &[TunnelEvent::Failed]).phase, TunnelPhase::Aborted);
    let sending = play(waiting(16), &[TunnelEvent::Tick, TunnelEvent::MessageReady]);
    assert_eq!(play(sending, &[TunnelEvent::Failed]).phase, TunnelPhase::Aborted);
}

#[test]
fn tick_turns_until_nothing_is_left() {
    let s = TunnelEvent::Succeeded;
    let m = TunnelEvent::MessageReady;
    let tunnel = play(waiting(16), &[TunnelEvent::Tick, m, s, m, s]);
    assert_eq!(tunnel.phase, TunnelPhase::Turn);
    assert_eq!(play(tunnel, &[TunnelEvent::Nothing]).phase, TunnelPhase::Wait);
}

#[test]
fn packets_are_shuttled() {
    let tunnel = waiting(16);
    let s = TunnelEvent::Succeeded;
    let inbound = play(tunnel, &[TunnelEvent::Datagram, TunnelEvent::Inbound]);
    assert_eq!(inbound.phase, TunnelPhase::WriteInbound);
    assert_eq!(play(inbound, &[s]).phase, TunnelPhase::Wait);
    let packet = play(tunnel, &[TunnelEvent::Packet(100)]);
    assert_eq!(packet.phase, TunnelPhase::HandlePacket(116));
    let outbound = play(packet, &[TunnelEvent::Outbound]);
    assert_eq!(outbound.phase, TunnelPhase::SendOutbound);
    assert_eq!(play(outbound, &[s]).phase, TunnelPhase::Wait);
    assert_eq!(play(packet, &[TunnelEvent::Nothing]).phase, TunnelPhase::Wait);
    assert!(tunnel.accepts(&TunnelEvent::Packet(2032)));
    assert!(!tunnel.accepts(&TunnelEvent::Packet(2033)));
}

#[test]
fn synchronous_sessions_share_their_state() {
    let mut sync = into_sync(vec![1]);
    sync.as_mut().push(2);
    assert_eq!(sync.asynchronous, vec![1, 2]);
}

/// Brings a tunnel up, with one stage failing; returns what was carried out.
fn bring_up(on_card: bool, failing: Option<UpStage>) -> (Vec<UpStage>, Result<(), String>) {
    let mut state: BringUp<String> = BringUp::new();
    let mut carried_out = Vec::new();
    while let Some(stage) = state.next_stage() {
        carried_out.push(stage);
        let event = if failing == Some(stage) {
            UpEvent::Failed(format!("{:?}", stage))
        } else if stage == UpStage::LoadConfig {
            UpEvent::Loaded(on_card)
        } else {
            UpEvent::Succeeded
        };
        assert!(state.accepts(&event));
        state = state.step(event);
    }
    (carried_out, state.finish())
}

#[test]
fn first_failure_ends_the_up_command() {
    for key in [PrivateKeyConfig::Software([1; 32]), PrivateKeyConfig::SmartcardAuto] {
        let stages = up_stages(&key);
        let on_card = is_on_card(&key);
        assert_eq!(bring_up(on_card, None), (stages.clone(), Ok(())));
        for i in 0..stages.len() {
            let (carried_out, result) = bring_up(on_card, Some(stages[i]));
            assert_eq!(carried_out, stages[..i + 1].to_vec());
            assert_eq!(result, Err(format!("{:?}", stages[i])));
        }
    }
    let (carried_out, result) = bring_up(true, Some(UpStage::ObtainPin));
    assert!(!carried_out.contains(&UpStage::OpenCard));
    assert_eq!(result, Err(text("ObtainPin")));
    let start: BringUp<String> = BringUp::new();
    assert!(!start.accepts(&UpEvent::Succeeded));
    assert!(!start.step(UpEvent::Loaded(true)).accepts(&UpEvent::Loaded(true)));
}

#[test]
fn socket_and_device_of_a_plan() {
    let plan = TunnelPlan::from_config(&config(Some("10.8.0.1/24"), vec![])).ok().unwrap();
    assert_eq!(plan.bind_address(), SocketEndpoint::V4 { octets: [0; 4], port: 51820 });
    assert_eq!(
        plan.device(),
        DeviceSettings {
            address: u32::from_be_bytes([10, 8, 0, 1]),
            netmask: u32::from_be_bytes([255, 255, 255, 0]),
            mtu: 1420,
        }
    );
}

#[test]
fn first_part_of_a_packet() {
    assert_eq!(first_part(&[]), None);
    assert_eq!(first_part(&[0, 0]), None);
    assert_eq!(first_part(&[0, 3, 5]), Some(1));
    assert_eq!(first_part(&[1]), Some(0));
}

#[test]
fn greetings_never_fail() {
    assert_eq!(greeting_event(SendOutcome::Maintenance), TunnelEvent::MessageReady);
    assert_eq!(greeting_event(SendOutcome::Other), TunnelEvent::Nothing);
    assert_eq!(greeting_event(SendOutcome::Failed), TunnelEvent::Nothing);
}
