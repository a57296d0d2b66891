use theochallengers::advert::build_advert_plan;
use theochallengers::advert::build_advertisement;
use theochallengers::challenge::handle_challenge_body;
use theochallengers::challenge::ChallengePayload;
use theochallengers::challenge::ChallengeResponse;
use theochallengers::decimal::u16_to_dec;
use theochallengers::errors::DiscoveryError;
use theochallengers::peers::ipv4_text;
use theochallengers::peers::peer_from_resolved;
use theochallengers::peers::pick_address_index;
use theochallengers::peers::process_browse_event;
use theochallengers::peers::BrowseEvent;
use theochallengers::peers::IpCandidate;
use theochallengers::peers::PeerEvent;
use theochallengers::peers::ResolvedAdvert;
use theochallengers::session::commit_start;
use theochallengers::session::prepare_start;
use theochallengers::session::stop_transition;
use theochallengers::session::AppState;

#[test]
fn decimal_renders_zero() {
    assert_eq!(u16_to_dec(0), "0");
}

#[test]
fn decimal_renders_largest_port() {
    assert_eq!(u16_to_dec(65535), "65535");
}

#[test]
fn decimal_renders_plain_port() {
    assert_eq!(u16_to_dec(8080), "8080");
}

#[test]
fn ipv4_renders_dotted_quad() {
    assert_eq!(ipv4_text(192, 168, 0, 1), "192.168.0.1");
    assert_eq!(ipv4_text(10, 0, 0, 255), "10.0.0.255");
}

#[test]
fn advert_plan_has_exact_fields() {
    let plan = build_advert_plan("Alice", 4242, String::from("10.0.0.7"));
    assert_eq!(plan.service_type, "_theochallengers._tcp.local.");
    assert_eq!(plan.instance_name, "Alice_4242");
    assert_eq!(plan.hostname, "Alice_4242.local.");
    assert_eq!(plan.ip, "10.0.0.7");
    assert_eq!(plan.port, 4242);
    assert_eq!(plan.properties.len(), 2);
    assert_eq!(plan.properties[0].0, "nickname");
    assert_eq!(plan.properties[0].1, "Alice");
    assert_eq!(plan.properties[1].0, "port");
    assert_eq!(plan.properties[1].1, "4242");
}

#[test]
fn instance_names_differ_by_port() {
    let one = build_advert_plan("Alice", 1000, String::from("10.0.0.1"));
    let two = build_advert_plan("Alice", 1001, String::from("10.0.0.1"));
    assert_ne!(one.instance_name, two.instance_name);
}

#[test]
fn advertisement_builds_real_record() {
    let plan = build_advert_plan("Alice", 4242, String::from("192.168.1.5"));
    let record = build_advertisement(&plan).expect("a parseable address must yield a record");
    assert_eq!(record.get_port(), 4242);
    assert_eq!(record.get_fullname(), "Alice_4242._theochallengers._tcp.local.");
    assert_eq!(record.get_property_val_str("nickname"), Some("Alice"));
    assert_eq!(record.get_property_val_str("port"), Some("4242"));
}

#[test]
fn advertisement_rejects_unparseable_address() {
    let plan = build_advert_plan("Alice", 4242, String::from("not an address"));
    let err = build_advertisement(&plan).err().expect("an unparseable address must be refused");
    assert!(matches!(err, DiscoveryError::Advertisement(_)));
    assert!(!err.message().is_empty());
}

#[test]
fn well_formed_challenge_is_acknowledged_with_one_event() {
    let payload = ChallengePayload {
        from_player: String::from("Bob"),
        item_title: String::from("Quiz"),
        item_points: 10,
        message: String::from("go"),
    };
    let outcome = handle_challenge_body(Some(payload));
    match outcome.response {
        ChallengeResponse::Acknowledged(a) => assert_eq!(a, "OK"),
        ChallengeResponse::ClientError => panic!("a well-formed body must be acknowledged"),
    }
    let event = outcome.event.expect("a well-formed body must yield exactly one event");
    assert_eq!(event.from_player, "Bob");
    assert_eq!(event.item_title, "Quiz");
    assert_eq!(event.item_points, 10);
    assert_eq!(event.message, "go");
}

#[test]
fn malformed_challenge_gets_client_error_and_no_event() {
    let outcome = handle_challenge_body(None);
    assert!(matches!(outcome.response, ChallengeResponse::ClientError));
    assert!(outcome.event.is_none());
}

#[test]
fn selection_prefers_ipv4_over_ipv6() {
    let advert = ResolvedAdvert {
        fullname: String::from("Bob_5000._theochallengers._tcp.local."),
        port: 5000,
        addresses: vec![
            IpCandidate::Other { text: String::from("fe80::1") },
            IpCandidate::V4 { a: 192, b: 168, c: 0, d: 2 },
        ],
        nickname: Some(String::from("Bob")),
    };
    let peer = peer_from_resolved(advert).expect("an advertisement with addresses yields a peer");
    assert_eq!(peer.ip, "192.168.0.2");
}

#[test]
fn selection_falls_back_to_first_address() {
    let addrs = vec![
        IpCandidate::Other { text: String::from("fe80::1") },
        IpCandidate::Other { text: String::from("fe80::2") },
    ];
    assert_eq!(pick_address_index(&addrs), Some(0));
    assert_eq!(pick_address_index(&Vec::new()), None);
}

#[test]
fn missing_nickname_defaults_to_sentinel() {
    let advert = ResolvedAdvert {
        fullname: String::from("Bob_5000._theochallengers._tcp.local."),
        port: 5000,
        addresses: vec![IpCandidate::V4 { a: 10, b: 0, c: 0, d: 9 }],
        nickname: None,
    };
    let peer = peer_from_resolved(advert).expect("an advertisement with addresses yields a peer");
    assert_eq!(peer.nickname, "Unknown");
}

#[test]
fn advertisement_without_address_is_dropped() {
    let advert = ResolvedAdvert {
        fullname: String::from("Bob_5000._theochallengers._tcp.local."),
        port: 5000,
        addresses: Vec::new(),
        nickname: Some(String::from("Bob")),
    };
    assert!(peer_from_resolved(advert).is_none());
}

#[test]
fn withdrawal_becomes_peer_lost() {
    let event = BrowseEvent::Removed(String::from("Bob_5000._theochallengers._tcp.local."));
    match process_browse_event(event) {
        Some(PeerEvent::Lost(name)) => {
            assert_eq!(name, "Bob_5000._theochallengers._tcp.local.")
        }
        _ => panic!("a withdrawal must become a peer-lost event"),
    }
}

#[test]
fn other_browse_events_are_ignored() {
    assert!(process_browse_event(BrowseEvent::Other).is_none());
}

#[test]
fn stop_is_idempotent() {
    let mut state = AppState::new();

    let first = stop_transition(&mut state);
    assert!(!first.shutdown_advert);
    assert!(!first.abort_server);

    assert_eq!(commit_start(&mut state, 5000).ok(), Some(5000));
    assert!(state.active());
    assert_eq!(state.local_port, 5000);

    let second = stop_transition(&mut state);
    assert!(second.shutdown_advert);
    assert!(second.abort_server);
    assert!(!state.active());
    assert_eq!(state.local_port, 0);

    let third = stop_transition(&mut state);
    assert!(!third.shutdown_advert);
    assert!(!third.abort_server);
    assert!(!state.active());
}

#[test]
fn start_is_rejected_while_active() {
    let mut state = AppState::new();
    assert!(commit_start(&mut state, 4321).is_ok());
    let r = prepare_start(
        &state,
        "Alice",
        Ok(4444),
        Some(String::from("192.168.1.9")),
    );
    match r {
        Err(e) => {
            assert!(matches!(e, DiscoveryError::AlreadyActive));
            assert_eq!(e.message(), "Discovery already active");
        }
        Ok(_) => panic!("a start while active must be rejected"),
    }
    let again = commit_start(&mut state, 9999);
    assert!(again.is_err());
    assert_eq!(state.local_port, 4321);
}

#[test]
fn bind_failure_aborts_start_with_the_report() {
    let state = AppState::new();
    let r = prepare_start(
        &state,
        "Alice",
        Err(String::from("no ephemeral port available")),
        Some(String::from("192.168.1.9")),
    );
    match r {
        Err(e) => {
            assert!(matches!(e, DiscoveryError::Bind(_)));
            assert_eq!(e.message(), "no ephemeral port available");
        }
        Ok(_) => panic!("a bind failure must abort the start"),
    }
}

#[test]
fn missing_local_address_aborts_start() {
    let state = AppState::new();
    let r = prepare_start(&state, "Alice", Ok(4321), None);
    match r {
        Err(e) => {
            assert!(matches!(e, DiscoveryError::AddressResolution));
            assert_eq!(e.message(), "Failed to get local IP");
        }
        Ok(_) => panic!("a missing local address must abort the start"),
    }
}

#[test]
fn lock_error_has_its_message() {
    assert_eq!(DiscoveryError::Lock.message(), "Failed to lock state");
}

#[test]
fn start_browse_and_challenge_scenario() {
    // Alice starts and is told the bound port.
    let mut state = AppState::new();
    let plan = prepare_start(
        &state,
        "Alice",
        Ok(4321),
        Some(String::from("192.168.1.9")),
    )
    .expect("an idle start with a bound port and an address must proceed");
    assert_eq!(plan.port, 4321);
    assert_eq!(plan.advert.instance_name, "Alice_4321");
    assert_eq!(commit_start(&mut state, plan.port).ok(), Some(4321));

    // Bob's advertisement resolves; Alice observes a peer-found event with
    // Bob's nickname and port.
    let resolved = BrowseEvent::Resolved(ResolvedAdvert {
        fullname: String::from("Bob_5000._theochallengers._tcp.local."),
        port: 5000,
        addresses: vec![IpCandidate::V4 { a: 192, b: 168, c: 1, d: 7 }],
        nickname: Some(String::from("Bob")),
    });
    match process_browse_event(resolved) {
        Some(PeerEvent::Found(peer)) => {
            assert_eq!(peer.id, "Bob_5000._theochallengers._tcp.local.");
            assert_eq!(peer.nickname, "Bob");
            assert_eq!(peer.port, 5000);
            assert_eq!(peer.ip, "192.168.1.7");
            assert_eq!(peer.last_seen, 0);
        }
        _ => panic!("a resolved advertisement must become a peer-found event"),
    }

    // Bob posts a challenge; Alice's receiver acknowledges it and publishes
    // exactly that payload.
    let outcome = handle_challenge_body(Some(ChallengePayload {
        from_player: String::from("Bob"),
        item_title: String::from("Quiz"),
        item_points: 10,
        message: String::from("go"),
    }));
    match outcome.response {
        ChallengeResponse::Acknowledged(a) => assert_eq!(a, "OK"),
        ChallengeResponse::ClientError => panic!("a well-formed body must be acknowledged"),
    }
    let event = outcome.event.expect("exactly one challenge-received event is owed");
    assert_eq!(event.from_player, "Bob");
    assert_eq!(event.item_title, "Quiz");
    assert_eq!(event.item_points, 10);
    assert_eq!(event.message, "go");
}
