//! The forks of the protocol and the digest that stands for each on the wire.

use vstd::prelude::*;

verus! {

/// A fork of the protocol. The set is closed: these four and no others.
#[derive(Clone, Copy, Debug, PartialEq, Eq, Structural)]
pub enum ForkName {
    Base,
    Altair,
    Merge,
    Capella,
}

/// The four bytes that name a fork inside every topic.
#[derive(Clone, Copy, Debug, PartialEq, Eq)]
pub struct ForkDigest(pub [u8; 4]);

/// The digest of each fork: a fixed table.
pub open spec fn fork_digest(fork: ForkName) -> ForkDigest {
    ForkDigest(
        match fork {
            ForkName::Base => [181u8, 48u8, 63u8, 42u8],
            ForkName::Altair => [175u8, 202u8, 171u8, 160u8],
            ForkName::Merge => [74u8, 38u8, 197u8, 139u8],
            ForkName::Capella => [187u8, 164u8, 218u8, 150u8],
        },
    )
}

/// The fork that came before `fork`, if it is not the first.
pub open spec fn previous_fork(fork: ForkName) -> Option<ForkName> {
    match fork {
        ForkName::Base => None,
        ForkName::Altair => Some(ForkName::Base),
        ForkName::Merge => Some(ForkName::Altair),
        ForkName::Capella => Some(ForkName::Merge),
    }
}

/// How many forks came before `fork`.
pub open spec fn fork_rank(fork: ForkName) -> nat {
    match fork {
        ForkName::Base => 0,
        ForkName::Altair => 1,
        ForkName::Merge => 2,
        ForkName::Capella => 3,
    }
}

impl ForkName {
    /// The fork that came before this one; `None` for the first.
    pub fn previous_fork(self) -> (r: Option<ForkName>)
        ensures
            r == previous_fork(self),
    {
        match self {
            ForkName::Base => None,
            ForkName::Altair => Some(ForkName::Base),
            ForkName::Merge => Some(ForkName::Altair),
            ForkName::Capella => Some(ForkName::Merge),
        }
    }
}

impl From<ForkName> for ForkDigest {
    fn from(value: ForkName) -> (digest: Self)
        ensures
            digest == fork_digest(value),
    {
        ForkDigest(
            match value {
                ForkName::Base => [181, 48, 63, 42],
                ForkName::Altair => [175, 202, 171, 160],
                ForkName::Merge => [74, 38, 197, 139],
                ForkName::Capella => [187, 164, 218, 150],
            },
        )
    }
}

impl vstd::std_specs::convert::FromSpecImpl<ForkName> for ForkDigest {
    open spec fn obeys_from_spec() -> bool {
        true
    }

    open spec fn from_spec(value: ForkName) -> Self {
        fork_digest(value)
    }
}

impl Default for ForkDigest {
    /// The digest of the fork that the node runs on.
    fn default() -> (digest: Self)
        ensures
            digest == fork_digest(ForkName::Capella),
    {
        ForkDigest::from(default_fork())
    }
}

/// The fork that the node runs on.
pub fn default_fork() -> (fork: ForkName)
    ensures
        fork == ForkName::Capella,
{
    ForkName::Capella
}

/// No two forks share a digest.
pub proof fn lemma_fork_digests_distinct(a: ForkName, b: ForkName)
    requires
        a != b,
    ensures
        fork_digest(a) != fork_digest(b),
        fork_digest(a).0@ != fork_digest(b).0@,
{
    let x = fork_digest(a).0;
    let y = fork_digest(b).0;
    assert(x[0] != y[0]);
    assert(x@[0] != y@[0]);
}

} // verus!
