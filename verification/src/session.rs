//! The session: what the node does at start-up and with each event that
//! reaches it afterwards.
//!
//! The program around the library waits for events and hands them over one
//! at a time. Each is handled to completion: the router is told what the
//! event asks for, and what there is to report comes back as notices.

use crate::message::{lossy_text, payload_text};
use crate::router::{
    add_explicit_peers, explicit_peers, mesh_degree, peers_after_arrival, peers_after_expiry,
    publish_to_all, remove_explicit_peers, subscriptions, PublishOutcome,
};
use crate::topic::{gossipsub_topics, topics_of, GossipTopic};
use crate::fork::ForkName;
use libp2p::gossipsub::{Behaviour, MessageId, PublishError};
use libp2p::{Multiaddr, PeerId};
use vstd::prelude::*;

verus! {

/// A network address.
#[verifier::external_type_specification]
#[verifier::external_body]
pub struct ExMultiaddr(Multiaddr);

/// Seconds after which a handshake that has not completed is given up.
pub const HANDSHAKE_TIMEOUT_SECS: u64 = 20;

/// Seconds between two heartbeats of the router.
pub const HEARTBEAT_INTERVAL_SECS: u64 = 10;

/// Where the node listens for QUIC when it was told nothing: any interface,
/// a port of the system's choice.
pub const DEFAULT_QUIC_LISTEN: &'static str = "/ip4/0.0.0.0/udp/0/quic-v1";

/// Where the node listens for TCP when it was told nothing: any interface,
/// a port of the system's choice.
pub const DEFAULT_TCP_LISTEN: &'static str = "/ip4/0.0.0.0/tcp/0";

/// One thing to do with an address at start-up.
#[derive(Debug, PartialEq, Eq)]
pub enum StartupStep {
    Listen(String),
    Dial(String),
}

/// A start-up step, as contracts see it.
pub enum StartupStepView {
    Listen(Seq<char>),
    Dial(Seq<char>),
}

impl View for StartupStep {
    type V = StartupStepView;

    open spec fn view(&self) -> StartupStepView {
        match self {
            StartupStep::Listen(address) => StartupStepView::Listen(address@),
            StartupStep::Dial(address) => StartupStepView::Dial(address@),
        }
    }
}

/// The steps of a start-up: with no address at all, listen on the two
/// defaults, QUIC first; otherwise listen on each listen address, then dial
/// each dial address, in the order given.
pub open spec fn planned_steps(listen: Seq<String>, dial: Seq<String>) -> Seq<StartupStepView> {
    if listen.len() == 0 && dial.len() == 0 {
        seq![
            StartupStepView::Listen(DEFAULT_QUIC_LISTEN@),
            StartupStepView::Listen(DEFAULT_TCP_LISTEN@),
        ]
    } else {
        Seq::new(
            listen.len() + dial.len(),
            |i: int|
                if i < listen.len() {
                    StartupStepView::Listen(listen[i]@)
                } else {
                    StartupStepView::Dial(dial[i - listen.len()]@)
                },
        )
    }
}

/// The steps with which the node starts, given the addresses it was told to
/// listen on and to dial.
pub fn startup_steps(listen: &Vec<String>, dial: &Vec<String>) -> (steps: Vec<StartupStep>)
    ensures
        steps.len() == planned_steps(listen@, dial@).len(),
        forall|i: int| 0 <= i < steps.len() ==> (#[trigger] steps[i])@ == planned_steps(listen@, dial@)[i],
{
    let mut steps: Vec<StartupStep> = Vec::new();
    if listen.len() == 0 && dial.len() == 0 {
        steps.push(StartupStep::Listen(DEFAULT_QUIC_LISTEN.to_owned()));
        steps.push(StartupStep::Listen(DEFAULT_TCP_LISTEN.to_owned()));
        return steps;
    }
    let mut i: usize = 0;
    while i < listen.len()
        invariant
            i <= listen.len(),
            steps.len() == i,
            !(listen.len() == 0 && dial.len() == 0),
            forall|j: int| 0 <= j < i ==> (#[trigger] steps[j])@ == planned_steps(listen@, dial@)[j],
        decreases listen.len() - i,
    {
        steps.push(StartupStep::Listen(listen[i].clone()));
        i += 1;
    }
    let mut k: usize = 0;
    while k < dial.len()
        invariant
            k <= dial.len(),
            steps.len() == listen.len() + k,
            !(listen.len() == 0 && dial.len() == 0),
            forall|j: int| 0 <= j < steps.len() ==> (#[trigger] steps[j])@ == planned_steps(listen@, dial@)[j],
        decreases dial.len() - k,
    {
        steps.push(StartupStep::Dial(dial[k].clone()));
        k += 1;
    }
    steps
}

/// What reaches the node while it runs.
#[derive(Debug)]
pub enum SessionEvent {
    /// A line of the local input.
    InputLine(String),
    /// Peers were seen on the local network.
    PeersDiscovered(Vec<PeerId>),
    /// Peers seen earlier were not seen again in time.
    PeersExpired(Vec<PeerId>),
    /// The router accepted a message from the network.
    MessageReceived { propagation_source: PeerId, message_id: MessageId, data: Vec<u8> },
    /// The node now listens on one more address.
    NewListenAddr(Multiaddr),
    /// Anything else.
    Other,
}

/// What the node has to report after an event.
#[derive(Debug)]
pub enum Notice {
    /// A line could not be published to a topic.
    PublishFailed { topic: GossipTopic, error: PublishError },
    /// A peer was made an explicit peer.
    PeerDiscovered(PeerId),
    /// A peer is no longer an explicit peer.
    PeerExpired(PeerId),
    /// A message arrived: its payload as text, its identifier, who passed it on.
    GotMessage { text: String, id: MessageId, peer: PeerId },
    /// The node listens on an address.
    Listening(Multiaddr),
}

/// The notices of a round of publishing: one for each topic that failed, in
/// the order of the topics. A topic that took the line is not reported.
pub open spec fn failures(outcomes: Seq<PublishOutcome>) -> Seq<Notice>
    decreases outcomes.len(),
{
    if outcomes.len() == 0 {
        Seq::empty()
    } else {
        let earlier = failures(outcomes.drop_last());
        match outcomes.last().result {
            Err(error) => earlier.push(Notice::PublishFailed { topic: outcomes.last().topic, error }),
            Ok(_) => earlier,
        }
    }
}

/// Whether `outcomes` are those of one round over `topics`: one outcome for
/// each topic, in the order of the topics.
pub open spec fn is_round_over(outcomes: Seq<PublishOutcome>, topics: Seq<GossipTopic>) -> bool {
    &&& outcomes.len() == topics.len()
    &&& forall|i: int| 0 <= i < topics.len() ==> (#[trigger] outcomes[i]).topic == topics[i]
}

/// Whether `notices` are what `event` gives to report.
pub open spec fn reports(event: SessionEvent, notices: Seq<Notice>) -> bool {
    match event {
        SessionEvent::InputLine(_) => exists|outcomes: Seq<PublishOutcome>|
            #[trigger] is_round_over(outcomes, topics_of(ForkName::Capella)) && notices == failures(
                outcomes,
            ),
        SessionEvent::PeersDiscovered(peers) => notices == peers@.map_values(
            |peer: PeerId| Notice::PeerDiscovered(peer),
        ),
        SessionEvent::PeersExpired(peers) => notices == peers@.map_values(
            |peer: PeerId| Notice::PeerExpired(peer),
        ),
        SessionEvent::MessageReceived { propagation_source, message_id, data } => {
            &&& notices.len() == 1
            &&& notices[0] matches Notice::GotMessage { text, id, peer }
            &&& text@ == lossy_text(data@)
            &&& id == message_id
            &&& peer == propagation_source
        },
        SessionEvent::NewListenAddr(address) => notices == seq![Notice::Listening(address)],
        SessionEvent::Other => notices.len() == 0,
    }
}

/// The explicit peers that `event` leaves, given those before it.
pub open spec fn peers_after(event: SessionEvent, before: Set<PeerId>) -> Set<PeerId> {
    match event {
        SessionEvent::PeersDiscovered(peers) => peers_after_arrival(before, peers@),
        SessionEvent::PeersExpired(peers) => peers_after_expiry(before, peers@),
        _ => before,
    }
}

/// A round of publishing reports each topic that failed and no other: when
/// every topic failed, as it does while no peer is connected, there is one
/// notice for each topic, in the order of the topics; when none failed,
/// there is no notice.
pub proof fn lemma_failures_of_a_round(outcomes: Seq<PublishOutcome>)
    ensures
        failures(outcomes).len() <= outcomes.len(),
        (forall|i: int| 0 <= i < outcomes.len() ==> (#[trigger] outcomes[i]).result is Err) ==> {
            &&& failures(outcomes).len() == outcomes.len()
            &&& forall|i: int|
                0 <= i < outcomes.len() ==> #[trigger] failures(outcomes)[i] == (Notice::PublishFailed {
                    topic: outcomes[i].topic,
                    error: outcomes[i].result->Err_0,
                })
        },
        (forall|i: int| 0 <= i < outcomes.len() ==> (#[trigger] outcomes[i]).result is Ok)
            ==> failures(outcomes).len() == 0,
    decreases outcomes.len(),
{
    if outcomes.len() > 0 {
        let earlier = outcomes.drop_last();
        lemma_failures_of_a_round(earlier);
        assert forall|i: int| 0 <= i < earlier.len() implies (#[trigger] earlier[i]) == outcomes[i] by {}
        if forall|i: int| 0 <= i < outcomes.len() ==> (#[trigger] outcomes[i]).result is Err {
            assert forall|i: int| 0 <= i < earlier.len() implies (#[trigger] earlier[i]).result is Err by {
                assert(earlier[i] == outcomes[i]);
            }
            assert(outcomes.last() == outcomes[outcomes.len() - 1]);
        }
        if forall|i: int| 0 <= i < outcomes.len() ==> (#[trigger] outcomes[i]).result is Ok {
            assert forall|i: int| 0 <= i < earlier.len() implies (#[trigger] earlier[i]).result is Ok by {
                assert(earlier[i] == outcomes[i]);
            }
            assert(outcomes.last() == outcomes[outcomes.len() - 1]);
        }
    }
}

/// The notices of a round of publishing.
pub fn failure_notices(outcomes: Vec<PublishOutcome>) -> (notices: Vec<Notice>)
    ensures
        notices@ == failures(outcomes@),
    decreases outcomes.len(),
{
    let mut outcomes = outcomes;
    let ghost all = outcomes@;
    match outcomes.pop() {
        None => Vec::new(),
        Some(last) => {
            assert(outcomes@ == all.drop_last());
            let mut notices = failure_notices(outcomes);
            match last.result {
                Err(error) => {
                    notices.push(Notice::PublishFailed { topic: last.topic, error });
                },
                Ok(_) => {},
            }
            notices
        },
    }
}

/// Publishes a line of the local input to every topic of the node, and
/// reports the topics that did not take it. A topic that fails keeps no
/// other topic from its turn.
pub fn publish_line(router: &mut Behaviour, line: &str) -> (notices: Vec<Notice>)
    ensures
        explicit_peers(*final(router)) == explicit_peers(*old(router)),
        subscriptions(*final(router)) == subscriptions(*old(router)),
        mesh_degree(*final(router)) == mesh_degree(*old(router)),
        exists|outcomes: Seq<PublishOutcome>|
            #[trigger] is_round_over(outcomes, topics_of(ForkName::Capella)) && notices@ == failures(
                outcomes,
            ),
{
    let topics = gossipsub_topics();
    let outcomes = publish_to_all(router, &topics, line.as_bytes());
    assert(is_round_over(outcomes@, topics_of(ForkName::Capella)));
    failure_notices(outcomes)
}

/// One notice for each peer, in the order of the peers.
fn discovered_notices(peers: &Vec<PeerId>) -> (notices: Vec<Notice>)
    ensures
        notices@ == peers@.map_values(|peer: PeerId| Notice::PeerDiscovered(peer)),
{
    let mut notices: Vec<Notice> = Vec::new();
    let mut i: usize = 0;
    while i < peers.len()
        invariant
            i <= peers.len(),
            notices@ == peers@.take(i as int).map_values(|peer: PeerId| Notice::PeerDiscovered(peer)),
        decreases peers.len() - i,
    {
        notices.push(Notice::PeerDiscovered(peers[i]));
        assert(notices@ =~= peers@.take(i + 1).map_values(
            |peer: PeerId| Notice::PeerDiscovered(peer),
        ));
        i += 1;
    }
    assert(peers@.take(peers.len() as int) =~= peers@);
    notices
}

/// One notice for each peer, in the order of the peers.
fn expired_notices(peers: &Vec<PeerId>) -> (notices: Vec<Notice>)
    ensures
        notices@ == peers@.map_values(|peer: PeerId| Notice::PeerExpired(peer)),
{
    let mut notices: Vec<Notice> = Vec::new();
    let mut i: usize = 0;
    while i < peers.len()
        invariant
            i <= peers.len(),
            notices@ == peers@.take(i as int).map_values(|peer: PeerId| Notice::PeerExpired(peer)),
        decreases peers.len() - i,
    {
        notices.push(Notice::PeerExpired(peers[i]));
        assert(notices@ =~= peers@.take(i + 1).map_values(
            |peer: PeerId| Notice::PeerExpired(peer),
        ));
        i += 1;
    }
    assert(peers@.take(peers.len() as int) =~= peers@);
    notices
}

/// Handles one event to completion.
///
/// A line of input is published to every topic. Peers that were discovered
/// become explicit peers of the router; peers that expired cease to be. A
/// message received and a new listen address are reported and change
/// nothing. The subscriptions are never touched.
pub fn handle_event(router: &mut Behaviour, event: SessionEvent) -> (notices: Vec<Notice>)
    ensures
        explicit_peers(*final(router)) == peers_after(event, explicit_peers(*old(router))),
        subscriptions(*final(router)) == subscriptions(*old(router)),
        mesh_degree(*final(router)) == mesh_degree(*old(router)),
        reports(event, notices@),
{
    match event {
        SessionEvent::InputLine(line) => publish_line(router, line.as_str()),
        SessionEvent::PeersDiscovered(peers) => {
            add_explicit_peers(router, &peers);
            discovered_notices(&peers)
        },
        SessionEvent::PeersExpired(peers) => {
            remove_explicit_peers(router, &peers);
            expired_notices(&peers)
        },
        SessionEvent::MessageReceived { propagation_source, message_id, data } => {
            let text = payload_text(&data);
            let mut notices: Vec<Notice> = Vec::new();
            notices.push(Notice::GotMessage { text, id: message_id, peer: propagation_source });
            notices
        },
        SessionEvent::NewListenAddr(address) => {
            let mut notices: Vec<Notice> = Vec::new();
            notices.push(Notice::Listening(address));
            assert(notices@ =~= seq![Notice::Listening(address)]);
            notices
        },
        SessionEvent::Other => Vec::new(),
    }
}

} // verus!
