//! Replication strategies: the closed set of strategy kinds, an ordered
//! fallback chain over them, and the sentinel strategy that never
//! succeeds. A chain always terminates in the sentinel: the sort engine
//! applies the sentinel's fixed error itself once the chain is exhausted,
//! so an empty configuration degenerates to the sentinel alone.

use vstd::prelude::*;

use crate::strings::str_eq;

verus! {

/// A way to replicate a file. `None` is the sentinel: it models
/// "replication disabled" and terminates every chain.
#[derive(Clone, Copy, Debug, PartialEq, Eq, Structural)]
pub enum ReplicatorKind {
    Sentinel,
    Copy,
    HardLink,
    SoftLink,
}

/// The textual name of each kind.
pub open spec fn spec_kind_name(k: ReplicatorKind) -> Seq<char> {
    match k {
        ReplicatorKind::Sentinel => "none"@,
        ReplicatorKind::Copy => "copy"@,
        ReplicatorKind::HardLink => "hardlink"@,
        ReplicatorKind::SoftLink => "softlink"@,
    }
}

/// The kind a string names, if any.
pub open spec fn spec_kind_of(s: Seq<char>) -> Option<ReplicatorKind> {
    if s == "copy"@ {
        Some(ReplicatorKind::Copy)
    } else if s == "hardlink"@ {
        Some(ReplicatorKind::HardLink)
    } else if s == "softlink"@ {
        Some(ReplicatorKind::SoftLink)
    } else if s == "none"@ {
        Some(ReplicatorKind::Sentinel)
    } else {
        None
    }
}

/// A failure to parse a strategy kind, with its message.
#[derive(Debug)]
pub struct ParseError(String);

impl ParseError {
    pub closed spec fn model(&self) -> Seq<char> {
        self.0@
    }

    pub fn message(&self) -> (r: &str)
        ensures
            r@ == self.model(),
    {
        self.0.as_str()
    }
}

impl ReplicatorKind {
    /// The name of this kind.
    pub fn name(&self) -> (r: &'static str)
        ensures
            r@ == spec_kind_name(*self),
    {
        match self {
            ReplicatorKind::Sentinel => "none",
            ReplicatorKind::Copy => "copy",
            ReplicatorKind::HardLink => "hardlink",
            ReplicatorKind::SoftLink => "softlink",
        }
    }

    /// Parses a kind from its name; any other string is rejected with a
    /// message naming it.
    pub fn parse(s: &str) -> (r: Result<ReplicatorKind, ParseError>)
        ensures
            match r {
                Ok(k) => spec_kind_of(s@) == Some(k),
                Err(e) => spec_kind_of(s@) is None && e.model() == "unknown replicator kind: "@
                    + s@,
            },
    {
        if str_eq(s, "copy") {
            Ok(ReplicatorKind::Copy)
        } else if str_eq(s, "hardlink") {
            Ok(ReplicatorKind::HardLink)
        } else if str_eq(s, "softlink") {
            Ok(ReplicatorKind::SoftLink)
        } else if str_eq(s, "none") {
            Ok(ReplicatorKind::Sentinel)
        } else {
            let mut m = "unknown replicator kind: ".to_owned();
            m.append(s);
            Err(ParseError(m))
        }
    }
}

/// An ordered chain of strategies, tried in turn. The implicit terminal
/// sentinel is not stored: once every stored strategy has failed, the
/// engine reports the sentinel's fixed error.
#[derive(Debug)]
pub struct ReplicatorWithFallback {
    strategies: Vec<ReplicatorKind>,
}

impl ReplicatorWithFallback {
    pub closed spec fn model(&self) -> Seq<ReplicatorKind> {
        self.strategies@
    }

    /// The chain that holds no strategy: the sentinel alone.
    pub fn empty() -> (r: Self)
        ensures
            r.model() == Seq::<ReplicatorKind>::empty(),
    {
        Self { strategies: Vec::new() }
    }

    /// A chain that tries `inner` first and falls back to `fallback`.
    pub fn new(inner: ReplicatorKind, fallback: ReplicatorWithFallback) -> (r: Self)
        ensures
            r.model() == seq![inner] + fallback.model(),
    {
        let mut strategies: Vec<ReplicatorKind> = Vec::new();
        strategies.push(inner);
        let n = fallback.strategies.len();
        let mut i: usize = 0;
        while i < n
            invariant
                i <= n,
                n == fallback.strategies@.len(),
                strategies@ =~= seq![inner] + fallback.strategies@.take(i as int),
            decreases n - i,
        {
            strategies.push(fallback.strategies[i]);
            assert(strategies@ =~= seq![inner] + fallback.strategies@.take(i + 1));
            i += 1;
        }
        assert(strategies@ =~= seq![inner] + fallback.strategies@);
        Self { strategies }
    }

    /// The chain that tries the given kinds in order.
    pub fn from_kinds(kinds: Vec<ReplicatorKind>) -> (r: Self)
        ensures
            r.model() == kinds@,
    {
        Self { strategies: kinds }
    }

    /// How many strategies the chain holds, the sentinel not counted.
    pub fn count(&self) -> (r: usize)
        ensures
            r == self.model().len(),
    {
        self.strategies.len()
    }

    /// The strategies of the chain, in order.
    pub fn kinds(&self) -> (r: &Vec<ReplicatorKind>)
        ensures
            r@ == self.model(),
    {
        &self.strategies
    }

    /// The strategy at one position of the chain.
    pub fn kind_at(&self, i: usize) -> (r: ReplicatorKind)
        requires
            i < self.model().len(),
        ensures
            r == self.model()[i as int],
    {
        self.strategies[i]
    }
}

/// The fixed error text of the sentinel strategy.
pub open spec fn spec_none_replicate_error() -> Seq<char> {
    "none replicator reached: replicate failed"@
}

/// The sentinel strategy: replication always fails with a fixed error.
#[derive(Debug, Default)]
pub struct NoneReplicator {}

impl NoneReplicator {
    /// The fixed error every replicate attempt of the sentinel raises.
    pub fn replicate_error() -> (r: String)
        ensures
            r@ == spec_none_replicate_error(),
    {
        "none replicator reached: replicate failed".to_owned()
    }

    /// Never succeeds.
    pub fn replicate(&self, src: &str, dst: &str) -> (r: Result<(), String>)
        ensures
            r matches Err(m) && m@ == spec_none_replicate_error(),
    {
        let _ = src;
        let _ = dst;
        Err(Self::replicate_error())
    }

    pub fn kind(&self) -> (r: ReplicatorKind)
        ensures
            r == ReplicatorKind::Sentinel,
    {
        ReplicatorKind::Sentinel
    }
}

} // verus!
