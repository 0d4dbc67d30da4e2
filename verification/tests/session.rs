use clcat::router::{
    add_explicit_peers, publish_to_all, remove_explicit_peers, subscribe_all, PublishOutcome,
};
use clcat::session::{
    failure_notices, handle_event, publish_line, startup_steps, Notice, SessionEvent, StartupStep,
    DEFAULT_QUIC_LISTEN, DEFAULT_TCP_LISTEN, HANDSHAKE_TIMEOUT_SECS, HEARTBEAT_INTERVAL_SECS,
};
use clcat::topic::{gossipsub_topics, topics_for, GossipTopic};
use clcat::fork::ForkName;
use libp2p::gossipsub::{
    Behaviour, Config, ConfigBuilder, MessageAuthenticity, MessageId, PublishError,
};
use libp2p::identity::Keypair;
use libp2p::{Multiaddr, PeerId};

fn router_with(config: Config) -> Behaviour {
    Behaviour::new(MessageAuthenticity::Signed(Keypair::generate_ed25519()), config).unwrap()
}

fn new_router() -> Behaviour {
    router_with(ConfigBuilder::default().build().unwrap())
}

fn subscribed(router: &Behaviour) -> Vec<String> {
    let mut names: Vec<String> = router.topics().map(|hash| hash.as_str().to_string()).collect();
    names.sort();
    names
}

fn sorted_names(topics: &[GossipTopic]) -> Vec<String> {
    let mut names: Vec<String> = topics.iter().map(|topic| topic.name()).collect();
    names.sort();
    names
}

fn queued_events(router: &Behaviour) -> usize {
    let shown = format!("{:?}", router);
    let at = shown.find("events: ").unwrap() + "events: ".len();
    let digits: String = shown[at..].chars().take_while(|c| c.is_ascii_digit()).collect();
    digits.parse().unwrap()
}

#[test]
fn timing_constants() {
    assert_eq!(HANDSHAKE_TIMEOUT_SECS, 20);
    assert_eq!(HEARTBEAT_INTERVAL_SECS, 10);
}

#[test]
fn default_listen_addresses_are_well_formed() {
    assert_eq!(DEFAULT_QUIC_LISTEN, "/ip4/0.0.0.0/udp/0/quic-v1");
    assert_eq!(DEFAULT_TCP_LISTEN, "/ip4/0.0.0.0/tcp/0");
    assert!(DEFAULT_QUIC_LISTEN.parse::<Multiaddr>().is_ok());
    assert!(DEFAULT_TCP_LISTEN.parse::<Multiaddr>().is_ok());
}

#[test]
fn startup_without_addresses_listens_on_the_defaults() {
    assert_eq!(
        startup_steps(&vec![], &vec![]),
        vec![
            StartupStep::Listen("/ip4/0.0.0.0/udp/0/quic-v1".to_string()),
            StartupStep::Listen("/ip4/0.0.0.0/tcp/0".to_string()),
        ]
    );
}

#[test]
fn startup_with_addresses_listens_then_dials() {
    let listen = vec!["/ip4/127.0.0.1/tcp/4001".to_string(), "/ip4/127.0.0.1/udp/4001/quic-v1".to_string()];
    let dial = vec!["/ip4/10.0.0.2/tcp/9000".to_string()];
    assert_eq!(
        startup_steps(&listen, &dial),
        vec![
            StartupStep::Listen("/ip4/127.0.0.1/tcp/4001".to_string()),
            StartupStep::Listen("/ip4/127.0.0.1/udp/4001/quic-v1".to_string()),
            StartupStep::Dial("/ip4/10.0.0.2/tcp/9000".to_string()),
        ]
    );
}

#[test]
fn startup_with_only_dial_addresses_does_not_listen() {
    let dial = vec!["/ip4/10.0.0.2/tcp/9000".to_string(), "/ip4/10.0.0.3/tcp/9000".to_string()];
    assert_eq!(
        startup_steps(&vec![], &dial),
        vec![
            StartupStep::Dial("/ip4/10.0.0.2/tcp/9000".to_string()),
            StartupStep::Dial("/ip4/10.0.0.3/tcp/9000".to_string()),
        ]
    );
}

#[test]
fn startup_with_only_listen_addresses_does_not_dial() {
    let listen = vec!["/ip4/127.0.0.1/tcp/4001".to_string()];
    assert_eq!(
        startup_steps(&listen, &vec![]),
        vec![StartupStep::Listen("/ip4/127.0.0.1/tcp/4001".to_string())]
    );
}

#[test]
fn subscribe_all_joins_every_topic() {
    let mut router = new_router();
    assert!(subscribed(&router).is_empty());
    assert!(subscribe_all(&mut router, &gossipsub_topics()).is_ok());
    assert_eq!(subscribed(&router), sorted_names(&gossipsub_topics()));
    assert_eq!(subscribed(&router).len(), 7);
}

#[test]
fn subscribing_again_succeeds_and_changes_nothing() {
    let mut router = new_router();
    assert!(subscribe_all(&mut router, &gossipsub_topics()).is_ok());
    let before = subscribed(&router);
    assert!(subscribe_all(&mut router, &gossipsub_topics()).is_ok());
    assert_eq!(subscribed(&router), before);
}

#[test]
fn subscribing_to_a_topic_twice_in_one_list_joins_it_once() {
    let mut router = new_router();
    let topic = gossipsub_topics()[0];
    assert!(subscribe_all(&mut router, &vec![topic, topic]).is_ok());
    assert_eq!(subscribed(&router), vec![topic.name()]);
}

#[test]
fn subscribing_to_more_topics_keeps_the_earlier_ones() {
    let mut router = new_router();
    assert!(subscribe_all(&mut router, &topics_for(ForkName::Base)).is_ok());
    assert!(subscribe_all(&mut router, &gossipsub_topics()).is_ok());
    let mut expected = sorted_names(&topics_for(ForkName::Base));
    expected.extend(sorted_names(&gossipsub_topics()));
    expected.sort();
    assert_eq!(subscribed(&router), expected);
}

#[test]
fn subscribing_to_no_topic_succeeds() {
    let mut router = new_router();
    assert!(subscribe_all(&mut router, &vec![]).is_ok());
    assert!(subscribed(&router).is_empty());
}

#[test]
fn a_router_without_a_mesh_accepts_and_keeps_no_topic() {
    let config = ConfigBuilder::default()
        .mesh_outbound_min(0)
        .mesh_n_low(0)
        .mesh_n(0)
        .mesh_n_high(0)
        .build()
        .unwrap();
    let mut router = router_with(config);
    assert!(subscribe_all(&mut router, &gossipsub_topics()).is_ok());
    assert!(subscribed(&router).is_empty());
}

#[test]
fn publish_without_peers_fails_on_every_topic() {
    let mut router = new_router();
    assert!(subscribe_all(&mut router, &gossipsub_topics()).is_ok());
    let topics = gossipsub_topics();
    let outcomes = publish_to_all(&mut router, &topics, b"hello");
    assert_eq!(outcomes.len(), topics.len());
    for (outcome, topic) in outcomes.iter().zip(topics.iter()) {
        assert_eq!(outcome.topic, *topic);
        assert!(matches!(outcome.result, Err(PublishError::InsufficientPeers)));
    }
}

#[test]
fn publish_line_without_peers_reports_every_topic_and_goes_on() {
    let mut router = new_router();
    assert!(subscribe_all(&mut router, &gossipsub_topics()).is_ok());
    for line in ["hello", "still here", ""] {
        let notices = publish_line(&mut router, line);
        assert_eq!(notices.len(), 7);
        for (notice, expected) in notices.iter().zip(gossipsub_topics().iter()) {
            match notice {
                Notice::PublishFailed { topic, error } => {
                    assert_eq!(topic, expected);
                    assert!(matches!(error, PublishError::InsufficientPeers));
                }
                _ => panic!("a publish failure was expected"),
            }
        }
    }
    assert_eq!(subscribed(&router), sorted_names(&gossipsub_topics()));
}

#[test]
fn publish_of_an_oversized_line_fails_as_too_large() {
    let mut router = new_router();
    let line = "x".repeat(200_000);
    let notices = publish_line(&mut router, &line);
    assert_eq!(notices.len(), 7);
    for notice in notices.iter() {
        assert!(matches!(
            notice,
            Notice::PublishFailed { error: PublishError::MessageTooLarge, .. }
        ));
    }
}

#[test]
fn failure_notices_keep_the_failures_in_order() {
    let topics = gossipsub_topics();
    let outcomes = vec![
        PublishOutcome { topic: topics[0], result: Err(PublishError::InsufficientPeers) },
        PublishOutcome { topic: topics[1], result: Ok(MessageId::from("1")) },
        PublishOutcome { topic: topics[2], result: Err(PublishError::Duplicate) },
        PublishOutcome { topic: topics[3], result: Ok(MessageId::from("2")) },
        PublishOutcome { topic: topics[4], result: Err(PublishError::MessageTooLarge) },
    ];
    let notices = failure_notices(outcomes);
    assert_eq!(notices.len(), 3);
    assert!(matches!(
        &notices[0],
        Notice::PublishFailed { topic, error: PublishError::InsufficientPeers } if *topic == topics[0]
    ));
    assert!(matches!(
        &notices[1],
        Notice::PublishFailed { topic, error: PublishError::Duplicate } if *topic == topics[2]
    ));
    assert!(matches!(
        &notices[2],
        Notice::PublishFailed { topic, error: PublishError::MessageTooLarge } if *topic == topics[4]
    ));
}

#[test]
fn failure_notices_of_no_failure_are_none() {
    let topics = gossipsub_topics();
    let outcomes = vec![
        PublishOutcome { topic: topics[0], result: Ok(MessageId::from("1")) },
        PublishOutcome { topic: topics[1], result: Ok(MessageId::from("2")) },
    ];
    assert!(failure_notices(outcomes).is_empty());
    assert!(failure_notices(Vec::new()).is_empty());
}

#[test]
fn adding_explicit_peers_asks_the_router_to_reach_each() {
    let mut router = new_router();
    assert_eq!(queued_events(&router), 0);
    add_explicit_peers(&mut router, &vec![PeerId::random(), PeerId::random()]);
    assert_eq!(queued_events(&router), 2);
    add_explicit_peers(&mut router, &vec![]);
    assert_eq!(queued_events(&router), 2);
}

#[test]
fn adding_then_removing_a_peer_leaves_the_router_usable() {
    let mut router = new_router();
    let peer = PeerId::random();
    add_explicit_peers(&mut router, &vec![peer]);
    remove_explicit_peers(&mut router, &vec![peer]);
    remove_explicit_peers(&mut router, &vec![peer, PeerId::random()]);
    assert!(subscribe_all(&mut router, &gossipsub_topics()).is_ok());
    assert_eq!(publish_line(&mut router, "hello").len(), 7);
}

#[test]
fn discovered_peers_are_reported_in_order() {
    let mut router = new_router();
    let first = PeerId::random();
    let second = PeerId::random();
    let notices = handle_event(&mut router, SessionEvent::PeersDiscovered(vec![first, second, first]));
    assert_eq!(notices.len(), 3);
    assert!(matches!(notices[0], Notice::PeerDiscovered(peer) if peer == first));
    assert!(matches!(notices[1], Notice::PeerDiscovered(peer) if peer == second));
    assert!(matches!(notices[2], Notice::PeerDiscovered(peer) if peer == first));
    assert_eq!(queued_events(&router), 3);
}

#[test]
fn expired_peers_are_reported_in_order() {
    let mut router = new_router();
    let first = PeerId::random();
    let second = PeerId::random();
    handle_event(&mut router, SessionEvent::PeersDiscovered(vec![first]));
    let notices = handle_event(&mut router, SessionEvent::PeersExpired(vec![second, first]));
    assert_eq!(notices.len(), 2);
    assert!(matches!(notices[0], Notice::PeerExpired(peer) if peer == second));
    assert!(matches!(notices[1], Notice::PeerExpired(peer) if peer == first));
    assert_eq!(queued_events(&router), 1);
}

#[test]
fn an_input_line_is_published_to_every_topic() {
    let mut router = new_router();
    let notices = handle_event(&mut router, SessionEvent::InputLine("hello".to_string()));
    assert_eq!(notices.len(), 7);
    for (notice, expected) in notices.iter().zip(gossipsub_topics().iter()) {
        assert!(matches!(
            notice,
            Notice::PublishFailed { topic, error: PublishError::InsufficientPeers } if topic == expected
        ));
    }
    let again = handle_event(&mut router, SessionEvent::InputLine("hello again".to_string()));
    assert_eq!(again.len(), 7);
}

#[test]
fn a_received_message_is_reported_with_its_text() {
    let mut router = new_router();
    let peer = PeerId::random();
    let notices = handle_event(
        &mut router,
        SessionEvent::MessageReceived {
            propagation_source: peer,
            message_id: MessageId::from("12345"),
            data: b"hello".to_vec(),
        },
    );
    assert_eq!(notices.len(), 1);
    match &notices[0] {
        Notice::GotMessage { text, id, peer: from } => {
            assert_eq!(text, "hello");
            assert_eq!(*id, MessageId::from("12345"));
            assert_eq!(*from, peer);
        }
        _ => panic!("a received message was expected"),
    }
    assert_eq!(queued_events(&router), 0);
}

#[test]
fn a_received_message_that_is_not_text_is_still_reported() {
    let mut router = new_router();
    let notices = handle_event(
        &mut router,
        SessionEvent::MessageReceived {
            propagation_source: PeerId::random(),
            message_id: MessageId::from("1"),
            data: vec![0xff, b'o', b'k'],
        },
    );
    assert!(matches!(&notices[0], Notice::GotMessage { text, .. } if text == "\u{fffd}ok"));
}

#[test]
fn a_new_listen_address_is_reported() {
    let mut router = new_router();
    let address: Multiaddr = "/ip4/192.168.1.7/tcp/40123".parse().unwrap();
    let notices = handle_event(&mut router, SessionEvent::NewListenAddr(address.clone()));
    assert_eq!(notices.len(), 1);
    assert!(matches!(&notices[0], Notice::Listening(on) if *on == address));
}

#[test]
fn other_events_are_passed_over() {
    let mut router = new_router();
    assert!(handle_event(&mut router, SessionEvent::Other).is_empty());
    assert!(subscribed(&router).is_empty());
    assert_eq!(queued_events(&router), 0);
}
