//! The pubsub router: the calls that the node makes into it, and what they
//! do to the two things the node keeps in it, its subscriptions and its
//! explicit peers.
//!
//! The router belongs to the networking library. What is said here of its
//! methods is taken on trust from that library's source; the loops around
//! them are verified against it.

use crate::error::{is_init_failure, CauseKind, ClCatError};
use crate::topic::{topic_name, GossipTopic};
use libp2p::gossipsub::{
    AllowAllSubscriptionFilter, Behaviour, IdentTopic, IdentityTransform, MessageId, PublishError,
    SubscriptionError,
};
use libp2p::PeerId;
use vstd::prelude::*;

verus! {

/// The identifier of a node.
#[verifier::external_type_specification]
#[verifier::external_body]
pub struct ExPeerId(PeerId);

/// The identifier that the router gives a message.
#[verifier::external_type_specification]
#[verifier::external_body]
pub struct ExMessageId(MessageId);

/// A failure of the router to publish.
#[verifier::external_type_specification]
#[verifier::external_body]
pub struct ExPublishError(PublishError);

/// The router's way with payloads: it leaves them as they are.
#[verifier::external_type_specification]
#[verifier::external_body]
pub struct ExIdentityTransform(IdentityTransform);

/// The router's way with subscriptions: it allows every topic.
#[verifier::external_type_specification]
#[verifier::external_body]
pub struct ExAllowAllSubscriptionFilter(AllowAllSubscriptionFilter);

/// The router.
#[verifier::external_type_specification]
#[verifier::external_body]
#[verifier::reject_recursive_types(D)]
#[verifier::reject_recursive_types(F)]
pub struct ExBehaviour<D, F>(Behaviour<D, F>);

/// The router's explicit peers: those it forwards to whatever their score.
pub uninterp spec fn explicit_peers(router: Behaviour) -> Set<PeerId>;

/// The names of the topics that the router is subscribed to.
pub uninterp spec fn subscriptions(router: Behaviour) -> Set<Seq<char>>;

/// The number of peers that the router was configured to keep in the mesh
/// of each topic.
pub uninterp spec fn mesh_degree(router: Behaviour) -> nat;

/// Calls `Behaviour::subscribe` with the topic of this name. The contract
/// claims: a topic already subscribed gives `Ok(false)` and changes nothing;
/// `Ok(false)` comes in that case only; an error leaves the subscriptions as
/// they were; `Ok(true)` adds no other topic than this one, and does add it
/// where the mesh degree is positive. The explicit peers and the mesh degree
/// are never touched.
#[verifier::external_body]
fn router_subscribe(router: &mut Behaviour, topic: &str) -> (r: Result<bool, SubscriptionError>)
    ensures
        explicit_peers(*final(router)) == explicit_peers(*old(router)),
        mesh_degree(*final(router)) == mesh_degree(*old(router)),
        subscriptions(*old(router)).contains(topic@) <==> r matches Ok(false),
        !(r matches Ok(true)) ==> subscriptions(*final(router)) == subscriptions(*old(router)),
        r matches Ok(true) ==> subscriptions(*final(router)) == subscriptions(*old(router))
            || subscriptions(*final(router)) == subscriptions(*old(router)).insert(topic@),
        r matches Ok(true) && mesh_degree(*old(router)) > 0 ==> subscriptions(*final(router))
            == subscriptions(*old(router)).insert(topic@),
{
    router.subscribe(&IdentTopic::new(topic))
}

/// Calls `Behaviour::publish` with the topic of this name and a copy of
/// `data`. Whether it succeeds depends on the peers connected at that
/// moment, of which the contract says nothing. It claims that the
/// subscriptions, the explicit peers and the mesh degree stay as they were.
#[verifier::external_body]
fn router_publish(router: &mut Behaviour, topic: &str, data: &[u8]) -> (r: Result<
    MessageId,
    PublishError,
>)
    ensures
        explicit_peers(*final(router)) == explicit_peers(*old(router)),
        subscriptions(*final(router)) == subscriptions(*old(router)),
        mesh_degree(*final(router)) == mesh_degree(*old(router)),
{
    router.publish(IdentTopic::new(topic), data)
}

/// Calls `Behaviour::add_explicit_peer`. The contract claims that the peer
/// is among the explicit peers afterwards and that nothing else changes in
/// them, in the subscriptions or in the mesh degree.
#[verifier::external_body]
fn router_add_explicit_peer(router: &mut Behaviour, peer: &PeerId)
    ensures
        explicit_peers(*final(router)) == explicit_peers(*old(router)).insert(*peer),
        subscriptions(*final(router)) == subscriptions(*old(router)),
        mesh_degree(*final(router)) == mesh_degree(*old(router)),
{
    router.add_explicit_peer(peer);
}

/// Calls `Behaviour::remove_explicit_peer`. The contract claims that the
/// peer is not among the explicit peers afterwards and that nothing else
/// changes in them, in the subscriptions or in the mesh degree.
#[verifier::external_body]
fn router_remove_explicit_peer(router: &mut Behaviour, peer: &PeerId)
    ensures
        explicit_peers(*final(router)) == explicit_peers(*old(router)).remove(*peer),
        subscriptions(*final(router)) == subscriptions(*old(router)),
        mesh_degree(*final(router)) == mesh_degree(*old(router)),
{
    router.remove_explicit_peer(peer);
}

/// The names of `topics`.
pub open spec fn names_of(topics: Seq<GossipTopic>) -> Set<Seq<char>> {
    Set::new(|name: Seq<char>| exists|i: int| 0 <= i < topics.len() && topic_name(topics[i]) == name)
}

/// The explicit peers once `arrived` have been added to `before`.
pub open spec fn peers_after_arrival(before: Set<PeerId>, arrived: Seq<PeerId>) -> Set<PeerId> {
    before.union(arrived.to_set())
}

/// The explicit peers once `expired` have been removed from `before`.
pub open spec fn peers_after_expiry(before: Set<PeerId>, expired: Seq<PeerId>) -> Set<PeerId> {
    before.difference(expired.to_set())
}

/// What came of publishing to one topic.
#[derive(Debug)]
pub struct PublishOutcome {
    pub topic: GossipTopic,
    pub result: Result<MessageId, PublishError>,
}

/// Subscribes the router to each of `topics` in turn and stops at the first
/// that the router refuses.
///
/// Topics that the router is already subscribed to are passed over, so
/// subscribing to the same topics again succeeds and changes nothing. No
/// other topic than these is ever added. Where every topic is accepted, and
/// the router keeps a mesh at all, it is subscribed to all of them
/// afterwards.
pub fn subscribe_all(router: &mut Behaviour, topics: &Vec<GossipTopic>) -> (r: Result<
    (),
    ClCatError,
>)
    ensures
        explicit_peers(*final(router)) == explicit_peers(*old(router)),
        mesh_degree(*final(router)) == mesh_degree(*old(router)),
        subscriptions(*old(router)).subset_of(subscriptions(*final(router))),
        subscriptions(*final(router)).subset_of(
            subscriptions(*old(router)).union(names_of(topics@)),
        ),
        names_of(topics@).subset_of(subscriptions(*old(router))) ==> r is Ok && subscriptions(
            *final(router),
        ) == subscriptions(*old(router)),
        r is Ok && mesh_degree(*old(router)) > 0 ==> subscriptions(*final(router))
            == subscriptions(*old(router)).union(names_of(topics@)),
        r matches Err(error) ==> is_init_failure(
            error@,
            "topic subscription failure"@,
            CauseKind::Subscription,
        ),
{
    let mut i: usize = 0;
    while i < topics.len()
        invariant
            i <= topics.len(),
            explicit_peers(*router) == explicit_peers(*old(router)),
            mesh_degree(*router) == mesh_degree(*old(router)),
            subscriptions(*old(router)).subset_of(subscriptions(*router)),
            subscriptions(*router).subset_of(
                subscriptions(*old(router)).union(names_of(topics@.take(i as int))),
            ),
            names_of(topics@).subset_of(subscriptions(*old(router))) ==> subscriptions(*router)
                == subscriptions(*old(router)),
            mesh_degree(*old(router)) > 0 ==> subscriptions(*router) == subscriptions(
                *old(router),
            ).union(names_of(topics@.take(i as int))),
        decreases topics.len() - i,
    {
        let name = topics[i].name();
        let ghost shorter = topics@.take(i as int);
        let ghost longer = topics@.take(i + 1);
        let ghost seen = names_of(shorter);
        let ghost seen_now = names_of(longer);
        proof {
            assert(longer[i as int] == topics@[i as int]);
            assert(seen_now.contains(name@));
            assert(names_of(topics@).contains(name@));
            assert forall|n: Seq<char>| seen.contains(n) implies seen_now.contains(n) by {
                let j = choose|j: int| 0 <= j < shorter.len() && topic_name(shorter[j]) == n;
                assert(longer[j] == shorter[j]);
            }
            assert forall|n: Seq<char>| seen_now.contains(n) implies seen.contains(n) || n
                == name@ by {
                let j = choose|j: int| 0 <= j < longer.len() && topic_name(longer[j]) == n;
                if j < i {
                    assert(shorter[j] == longer[j]);
                }
            }
            assert(seen_now =~= seen.insert(name@));
            assert forall|n: Seq<char>| seen_now.contains(n) implies names_of(topics@).contains(
                n,
            ) by {
                let j = choose|j: int| 0 <= j < longer.len() && topic_name(longer[j]) == n;
                assert(longer[j] == topics@[j]);
            }
        }
        match router_subscribe(router, name.as_str()) {
            Ok(_) => {
                proof {
                    if mesh_degree(*old(router)) > 0 {
                        assert(subscriptions(*router) =~= subscriptions(*old(router)).union(
                            seen_now,
                        ));
                    }
                }
            },
            Err(refusal) => {
                return Err(ClCatError::from(refusal));
            },
        }
        i += 1;
    }
    assert(topics@.take(topics.len() as int) =~= topics@);
    Ok(())
}

/// Publishes `payload` to each of `topics` in turn, whatever came of the
/// topics before: a failure on one topic keeps no later topic from its turn.
/// The outcomes are returned in the order of the topics, one for each.
pub fn publish_to_all(router: &mut Behaviour, topics: &Vec<GossipTopic>, payload: &[u8]) -> (outcomes:
    Vec<PublishOutcome>)
    ensures
        explicit_peers(*final(router)) == explicit_peers(*old(router)),
        subscriptions(*final(router)) == subscriptions(*old(router)),
        mesh_degree(*final(router)) == mesh_degree(*old(router)),
        outcomes.len() == topics.len(),
        forall|i: int| 0 <= i < topics.len() ==> (#[trigger] outcomes[i]).topic == topics[i],
{
    let mut outcomes: Vec<PublishOutcome> = Vec::new();
    let mut i: usize = 0;
    while i < topics.len()
        invariant
            i <= topics.len(),
            explicit_peers(*router) == explicit_peers(*old(router)),
            subscriptions(*router) == subscriptions(*old(router)),
            mesh_degree(*router) == mesh_degree(*old(router)),
            outcomes.len() == i,
            forall|j: int| 0 <= j < i ==> (#[trigger] outcomes[j]).topic == topics[j],
        decreases topics.len() - i,
    {
        let topic = topics[i];
        let name = topic.name();
        let result = router_publish(router, name.as_str(), payload);
        outcomes.push(PublishOutcome { topic, result });
        i += 1;
    }
    outcomes
}

/// Makes each of `peers` an explicit peer of the router. One that is
/// already explicit stays so.
pub fn add_explicit_peers(router: &mut Behaviour, peers: &Vec<PeerId>)
    ensures
        explicit_peers(*final(router)) == peers_after_arrival(explicit_peers(*old(router)), peers@),
        subscriptions(*final(router)) == subscriptions(*old(router)),
        mesh_degree(*final(router)) == mesh_degree(*old(router)),
{
    let mut i: usize = 0;
    assert(explicit_peers(*router) =~= peers_after_arrival(
        explicit_peers(*old(router)),
        peers@.take(0),
    ));
    while i < peers.len()
        invariant
            i <= peers.len(),
            explicit_peers(*router) == peers_after_arrival(
                explicit_peers(*old(router)),
                peers@.take(i as int),
            ),
            subscriptions(*router) == subscriptions(*old(router)),
            mesh_degree(*router) == mesh_degree(*old(router)),
        decreases peers.len() - i,
    {
        router_add_explicit_peer(router, &peers[i]);
        proof {
            lemma_take_one_more(peers@, i as int);
            assert(explicit_peers(*router) =~= peers_after_arrival(
                explicit_peers(*old(router)),
                peers@.take(i + 1),
            ));
        }
        i += 1;
    }
    assert(peers@.take(peers.len() as int) =~= peers@);
}

/// Takes each of `peers` out of the router's explicit peers. One that is
/// not explicit is passed over.
pub fn remove_explicit_peers(router: &mut Behaviour, peers: &Vec<PeerId>)
    ensures
        explicit_peers(*final(router)) == peers_after_expiry(explicit_peers(*old(router)), peers@),
        subscriptions(*final(router)) == subscriptions(*old(router)),
        mesh_degree(*final(router)) == mesh_degree(*old(router)),
{
    let mut i: usize = 0;
    assert(explicit_peers(*router) =~= peers_after_expiry(
        explicit_peers(*old(router)),
        peers@.take(0),
    ));
    while i < peers.len()
        invariant
            i <= peers.len(),
            explicit_peers(*router) == peers_after_expiry(
                explicit_peers(*old(router)),
                peers@.take(i as int),
            ),
            subscriptions(*router) == subscriptions(*old(router)),
            mesh_degree(*router) == mesh_degree(*old(router)),
        decreases peers.len() - i,
    {
        router_remove_explicit_peer(router, &peers[i]);
        proof {
            lemma_take_one_more(peers@, i as int);
            assert(explicit_peers(*router) =~= peers_after_expiry(
                explicit_peers(*old(router)),
                peers@.take(i + 1),
            ));
        }
        i += 1;
    }
    assert(peers@.take(peers.len() as int) =~= peers@);
}

/// The members of a prefix that is one longer are those of the prefix and
/// the item that was added.
proof fn lemma_take_one_more<T>(items: Seq<T>, i: int)
    requires
        0 <= i < items.len(),
    ensures
        items.take(i + 1).to_set() == items.take(i).to_set().insert(items[i]),
{
    let shorter = items.take(i);
    let longer = items.take(i + 1);
    assert forall|x: T| longer.to_set().contains(x) implies shorter.to_set().insert(
        items[i],
    ).contains(x) by {
        let j = choose|j: int| 0 <= j < longer.len() && longer[j] == x;
        if j < i {
            assert(shorter[j] == x);
        }
    }
    assert forall|x: T| shorter.to_set().insert(items[i]).contains(x) implies longer.to_set().contains(
        x,
    ) by {
        if x == items[i] {
            assert(longer[i] == x);
        } else {
            let j = choose|j: int| 0 <= j < shorter.len() && shorter[j] == x;
            assert(longer[j] == x);
        }
    }
    assert(longer.to_set() =~= shorter.to_set().insert(items[i]));
}

/// Peers that arrive and then expire leave the explicit peers as they were,
/// provided none of them was explicit before it arrived.
pub proof fn lemma_arrival_then_expiry(before: Set<PeerId>, peers: Seq<PeerId>)
    requires
        forall|i: int| 0 <= i < peers.len() ==> !before.contains(peers[i]),
    ensures
        peers_after_expiry(peers_after_arrival(before, peers), peers) == before,
{
    assert(peers_after_expiry(peers_after_arrival(before, peers), peers) =~= before);
}

/// Subscribing is idempotent: once the topics have been added to the
/// subscriptions they are all among them, and adding them again changes
/// nothing.
pub proof fn lemma_subscribing_again(before: Set<Seq<char>>, topics: Seq<GossipTopic>)
    ensures
        names_of(topics).subset_of(before.union(names_of(topics))),
        before.union(names_of(topics)).union(names_of(topics)) == before.union(names_of(topics)),
{
    assert(before.union(names_of(topics)).union(names_of(topics)) =~= before.union(
        names_of(topics),
    ));
}

} // verus!
