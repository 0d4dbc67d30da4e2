//! Topics: the channels that the node joins, one for each kind of message of
//! the fork it runs on.
//!
//! A topic is a kind, an encoding and the digest of a fork. On the wire it is
//! named `/eth2/<digest in hex>/<kind>/<encoding>`.

use crate::fork::{fork_digest, fork_rank, previous_fork, ForkDigest, ForkName};
use crate::text::{hex, lemma_hex_injective, lemma_hex_len, push_hex};
use vstd::prelude::*;

verus! {

/// What a topic carries.
#[derive(Clone, Copy, Debug, PartialEq, Eq, Structural)]
pub enum GossipKind {
    BeaconBlock,
    BeaconAggregateAndProof,
    VoluntaryExit,
    ProposerSlashing,
    AttesterSlashing,
    SignedContributionAndProof,
    BlsToExecutionChange,
}

/// How the payload of a topic is encoded. There is one scheme.
#[derive(Clone, Copy, Debug, PartialEq, Eq, Structural)]
pub enum GossipEncoding {
    SSZSnappy,
}

impl Default for GossipEncoding {
    fn default() -> (encoding: Self)
        ensures
            encoding == GossipEncoding::SSZSnappy,
    {
        GossipEncoding::SSZSnappy
    }
}

/// One channel of the gossip network.
#[derive(Clone, Copy, Debug, PartialEq, Eq)]
pub struct GossipTopic {
    pub encoding: GossipEncoding,
    pub fork_digest: [u8; 4],
    pub kind: GossipKind,
}

/// The kinds that `fork` brought in, in the order in which the protocol
/// lists them.
pub open spec fn fork_core_kinds(fork: ForkName) -> Seq<GossipKind> {
    match fork {
        ForkName::Base => seq![
            GossipKind::BeaconBlock,
            GossipKind::BeaconAggregateAndProof,
            GossipKind::VoluntaryExit,
            GossipKind::ProposerSlashing,
            GossipKind::AttesterSlashing,
        ],
        ForkName::Altair => seq![GossipKind::SignedContributionAndProof],
        ForkName::Merge => Seq::empty(),
        ForkName::Capella => seq![GossipKind::BlsToExecutionChange],
    }
}

/// The kinds that a node on `fork` follows: those that `fork` brought in,
/// then those of each earlier fork, the latest first.
pub open spec fn core_kinds(fork: ForkName) -> Seq<GossipKind>
    decreases fork_rank(fork),
{
    match previous_fork(fork) {
        None => fork_core_kinds(fork),
        Some(earlier) => fork_core_kinds(fork) + core_kinds(earlier),
    }
}

/// The topic of `kind` on `fork`.
pub open spec fn topic_of(kind: GossipKind, fork: ForkName) -> GossipTopic {
    GossipTopic { encoding: GossipEncoding::SSZSnappy, fork_digest: fork_digest(fork).0, kind }
}

/// The topics of a node on `fork`: one for each kind it follows, in the order
/// of the kinds.
pub open spec fn topics_of(fork: ForkName) -> Seq<GossipTopic> {
    core_kinds(fork).map_values(|kind: GossipKind| topic_of(kind, fork))
}

/// The name of a kind inside a topic's name.
pub open spec fn kind_name(kind: GossipKind) -> Seq<char> {
    match kind {
        GossipKind::BeaconBlock => "beacon_block"@,
        GossipKind::BeaconAggregateAndProof => "beacon_aggregate_and_proof"@,
        GossipKind::VoluntaryExit => "voluntary_exit"@,
        GossipKind::ProposerSlashing => "proposer_slashing"@,
        GossipKind::AttesterSlashing => "attester_slashing"@,
        GossipKind::SignedContributionAndProof => "sync_committee_contribution_and_proof"@,
        GossipKind::BlsToExecutionChange => "bls_to_execution_change"@,
    }
}

/// The name of an encoding inside a topic's name.
pub open spec fn encoding_name(encoding: GossipEncoding) -> Seq<char> {
    match encoding {
        GossipEncoding::SSZSnappy => "ssz_snappy"@,
    }
}

/// The name under which a topic is joined and published to.
pub open spec fn topic_name(topic: GossipTopic) -> Seq<char> {
    "/eth2/"@ + hex(topic.fork_digest@) + "/"@ + kind_name(topic.kind) + "/"@ + encoding_name(
        topic.encoding,
    )
}

impl GossipKind {
    /// The name of this kind inside a topic's name.
    pub fn name(&self) -> (r: &'static str)
        ensures
            r@ == kind_name(*self),
    {
        match self {
            GossipKind::BeaconBlock => "beacon_block",
            GossipKind::BeaconAggregateAndProof => "beacon_aggregate_and_proof",
            GossipKind::VoluntaryExit => "voluntary_exit",
            GossipKind::ProposerSlashing => "proposer_slashing",
            GossipKind::AttesterSlashing => "attester_slashing",
            GossipKind::SignedContributionAndProof => "sync_committee_contribution_and_proof",
            GossipKind::BlsToExecutionChange => "bls_to_execution_change",
        }
    }
}

impl GossipEncoding {
    /// The name of this encoding inside a topic's name.
    pub fn name(&self) -> (r: &'static str)
        ensures
            r@ == encoding_name(*self),
    {
        match self {
            GossipEncoding::SSZSnappy => "ssz_snappy",
        }
    }
}

impl GossipTopic {
    /// The topic of `kind`, encoded as `encoding`, on the fork of `fork_digest`.
    pub fn new(kind: GossipKind, encoding: GossipEncoding, fork_digest: [u8; 4]) -> (topic: Self)
        ensures
            topic.kind == kind,
            topic.encoding == encoding,
            topic.fork_digest == fork_digest,
    {
        GossipTopic { encoding, fork_digest, kind }
    }

    /// What the topic carries.
    pub fn kind(&self) -> (kind: GossipKind)
        ensures
            kind == self.kind,
    {
        self.kind
    }

    /// How the topic's payload is encoded.
    pub fn encoding(&self) -> (encoding: GossipEncoding)
        ensures
            encoding == self.encoding,
    {
        self.encoding
    }

    /// The name under which the topic is joined and published to.
    pub fn name(&self) -> (r: String)
        ensures
            r@ == topic_name(*self),
    {
        let mut r = String::new();
        r.append("/eth2/");
        push_hex(&mut r, self.fork_digest.as_slice());
        r.append("/");
        r.append(self.kind.name());
        r.append("/");
        r.append(self.encoding.name());
        assert(r@ =~= topic_name(*self));
        r
    }
}

/// The kinds that `fork` brought in.
pub fn fork_core_topics(fork: ForkName) -> (kinds: Vec<GossipKind>)
    ensures
        kinds@ == fork_core_kinds(fork),
{
    let mut kinds: Vec<GossipKind> = Vec::new();
    match fork {
        ForkName::Base => {
            kinds.push(GossipKind::BeaconBlock);
            kinds.push(GossipKind::BeaconAggregateAndProof);
            kinds.push(GossipKind::VoluntaryExit);
            kinds.push(GossipKind::ProposerSlashing);
            kinds.push(GossipKind::AttesterSlashing);
        },
        ForkName::Altair => {
            kinds.push(GossipKind::SignedContributionAndProof);
        },
        ForkName::Merge => {},
        ForkName::Capella => {
            kinds.push(GossipKind::BlsToExecutionChange);
        },
    }
    assert(kinds@ =~= fork_core_kinds(fork));
    kinds
}

/// The kinds that a node on `current_fork` follows.
pub fn core_topics_to_subscribe(current_fork: ForkName) -> (kinds: Vec<GossipKind>)
    ensures
        kinds@ == core_kinds(current_fork),
{
    let mut kinds = fork_core_topics(current_fork);
    let mut fork = current_fork;
    assert(kinds@ + earlier_kinds(fork) =~= core_kinds(current_fork));
    loop
        invariant
            kinds@ + earlier_kinds(fork) == core_kinds(current_fork),
        ensures
            kinds@ == core_kinds(current_fork),
        decreases fork_rank(fork),
    {
        match fork.previous_fork() {
            None => {
                assert(kinds@ + Seq::<GossipKind>::empty() =~= kinds@);
                break ;
            },
            Some(earlier) => {
                let ghost before = kinds@;
                let mut more = fork_core_topics(earlier);
                kinds.append(&mut more);
                assert(kinds@ + earlier_kinds(earlier) =~= before + earlier_kinds(fork));
                fork = earlier;
            },
        }
    }
    kinds
}

/// The topics of a node on `fork`, in the order of the kinds it follows.
pub fn topics_for(fork: ForkName) -> (topics: Vec<GossipTopic>)
    ensures
        topics@ == topics_of(fork),
{
    let kinds = core_topics_to_subscribe(fork);
    let digest = ForkDigest::from(fork);
    let mut topics: Vec<GossipTopic> = Vec::new();
    let mut i: usize = 0;
    while i < kinds.len()
        invariant
            i <= kinds.len(),
            kinds@ == core_kinds(fork),
            digest == fork_digest(fork),
            topics@ == topics_of(fork).take(i as int),
        decreases kinds.len() - i,
    {
        topics.push(GossipTopic::new(kinds[i], GossipEncoding::default(), digest.0));
        assert(topics@ =~= topics_of(fork).take(i + 1));
        i += 1;
    }
    assert(topics@ =~= topics_of(fork));
    topics
}

/// The topics of the fork that the node runs on.
pub fn gossipsub_topics() -> (topics: Vec<GossipTopic>)
    ensures
        topics@ == topics_of(ForkName::Capella),
{
    topics_for(crate::fork::default_fork())
}

/// The kinds of the forks before `fork`, the latest first.
pub open spec fn earlier_kinds(fork: ForkName) -> Seq<GossipKind> {
    match previous_fork(fork) {
        None => Seq::empty(),
        Some(earlier) => core_kinds(earlier),
    }
}

/// The kinds that a node follows on each fork, written out.
pub proof fn lemma_core_kinds_table()
    ensures
        core_kinds(ForkName::Base) == fork_core_kinds(ForkName::Base),
        core_kinds(ForkName::Altair) == seq![
            GossipKind::SignedContributionAndProof,
            GossipKind::BeaconBlock,
            GossipKind::BeaconAggregateAndProof,
            GossipKind::VoluntaryExit,
            GossipKind::ProposerSlashing,
            GossipKind::AttesterSlashing,
        ],
        core_kinds(ForkName::Merge) == core_kinds(ForkName::Altair),
        core_kinds(ForkName::Capella) == seq![
            GossipKind::BlsToExecutionChange,
            GossipKind::SignedContributionAndProof,
            GossipKind::BeaconBlock,
            GossipKind::BeaconAggregateAndProof,
            GossipKind::VoluntaryExit,
            GossipKind::ProposerSlashing,
            GossipKind::AttesterSlashing,
        ],
{
    reveal_with_fuel(core_kinds, 4);
    assert(core_kinds(ForkName::Altair) =~= seq![
        GossipKind::SignedContributionAndProof,
        GossipKind::BeaconBlock,
        GossipKind::BeaconAggregateAndProof,
        GossipKind::VoluntaryExit,
        GossipKind::ProposerSlashing,
        GossipKind::AttesterSlashing,
    ]);
    assert(core_kinds(ForkName::Merge) =~= core_kinds(ForkName::Altair));
    assert(core_kinds(ForkName::Capella) =~= seq![
        GossipKind::BlsToExecutionChange,
        GossipKind::SignedContributionAndProof,
        GossipKind::BeaconBlock,
        GossipKind::BeaconAggregateAndProof,
        GossipKind::VoluntaryExit,
        GossipKind::ProposerSlashing,
        GossipKind::AttesterSlashing,
    ]);
}

/// Whatever the fork, the node has topics to join; each carries the digest of
/// that fork; and no topic of one fork carries the digest of a topic of
/// another fork.
pub proof fn lemma_topics_of_forks(a: ForkName, b: ForkName)
    ensures
        topics_of(a).len() > 0,
        forall|i: int| 0 <= i < topics_of(a).len() ==> topics_of(a)[i].fork_digest == fork_digest(a).0,
        a != b ==> forall|i: int, j: int|
            0 <= i < topics_of(a).len() && 0 <= j < topics_of(b).len() ==> topics_of(a)[i].fork_digest
                != topics_of(b)[j].fork_digest,
{
    lemma_core_kinds_table();
    if a != b {
        crate::fork::lemma_fork_digests_distinct(a, b);
    }
}

/// No two kinds have the same name.
pub proof fn lemma_kind_names_distinct(a: GossipKind, b: GossipKind)
    requires
        kind_name(a) == kind_name(b),
    ensures
        a == b,
{
    reveal_strlit("beacon_block");
    reveal_strlit("beacon_aggregate_and_proof");
    reveal_strlit("voluntary_exit");
    reveal_strlit("proposer_slashing");
    reveal_strlit("attester_slashing");
    reveal_strlit("sync_committee_contribution_and_proof");
    reveal_strlit("bls_to_execution_change");
    assert("beacon_block"@.len() == 12);
    assert("beacon_aggregate_and_proof"@.len() == 26);
    assert("voluntary_exit"@.len() == 14);
    assert("proposer_slashing"@.len() == 17 && "proposer_slashing"@[0] == 'p');
    assert("attester_slashing"@.len() == 17 && "attester_slashing"@[0] == 'a');
    assert("sync_committee_contribution_and_proof"@.len() == 37);
    assert("bls_to_execution_change"@.len() == 23);
}

/// No two topics have the same name: a name stands for one kind, one
/// encoding and one digest.
pub proof fn lemma_topic_names_distinct(a: GossipTopic, b: GossipTopic)
    requires
        topic_name(a) == topic_name(b),
    ensures
        a == b,
{
    reveal_strlit("/eth2/");
    reveal_strlit("/");
    reveal_strlit("ssz_snappy");
    lemma_hex_len(a.fork_digest@);
    lemma_hex_len(b.fork_digest@);
    let name_a = topic_name(a);
    let name_b = topic_name(b);
    let hex_a = hex(a.fork_digest@);
    let hex_b = hex(b.fork_digest@);
    assert forall|i: int| 0 <= i < 8 implies hex_a[i] == hex_b[i] by {
        assert(name_a[6 + i] == hex_a[i]);
        assert(name_b[6 + i] == hex_b[i]);
    }
    assert(hex_a =~= hex_b);
    lemma_hex_injective(a.fork_digest@, b.fork_digest@);
    assert(a.fork_digest == b.fork_digest) by {
        assert(a.fork_digest@ =~= b.fork_digest@);
    }
    let kind_a = kind_name(a.kind);
    let kind_b = kind_name(b.kind);
    assert(name_a.len() == 26 + kind_a.len());
    assert(name_b.len() == 26 + kind_b.len());
    assert forall|i: int| 0 <= i < kind_a.len() implies kind_a[i] == kind_b[i] by {
        assert(name_a[15 + i] == kind_a[i]);
        assert(name_b[15 + i] == kind_b[i]);
    }
    assert(kind_a =~= kind_b);
    lemma_kind_names_distinct(a.kind, b.kind);
}

} // verus!
