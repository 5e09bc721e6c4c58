//! The canonical model: the processor-independent vocabulary to which
//! every connector maps its own, and the directed graph of its lifecycle.

use vstd::prelude::*;

verus! {

/// Where the money of one payment attempt is, independent of any processor.
#[derive(Clone, Copy, Debug, PartialEq, Eq, Hash, Structural)]
pub enum CanonicalStatus {
    /// The attempt exists; no processor has answered yet.
    Created,
    /// The payer has to authenticate before the processor goes on.
    AuthenticationPending,
    /// The funds are reserved and await capture.
    Authorized,
    /// A part of the authorized amount is charged.
    PartialCharge,
    /// The processor has the payment and has not decided yet.
    Pending,
    /// The funds are charged. Terminal.
    Charged,
    /// The payment failed. Terminal.
    Failure,
    /// The authorization was cancelled. Terminal.
    Voided,
    /// The funds are in doubt, as when too little was paid. Terminal for
    /// the engine; only a person can settle it.
    Unresolved,
}

/// An amount of money: a whole number of the currency's smallest unit, and
/// the currency's three-letter code.
#[derive(Clone, Copy, Debug, PartialEq, Eq)]
pub struct Amount {
    pub minor_units: i64,
    pub currency: [u8; 3],
}

/// One arrow of the lifecycle graph.
///
/// The happy path is `Created`, `AuthenticationPending`, `Authorized`,
/// `Charged`. Authentication may fail; an authorization may be voided or
/// charged in part; a pending attempt settles as charged, failed or voided;
/// and every non-terminal status may become `Unresolved`. Nothing leaves a
/// terminal status, and nothing enters `Pending`: an attempt is pending only
/// if it was recorded so.
pub open spec fn edge(from: CanonicalStatus, to: CanonicalStatus) -> bool {
    match from {
        CanonicalStatus::Created => to == CanonicalStatus::AuthenticationPending || to
            == CanonicalStatus::Unresolved,
        CanonicalStatus::AuthenticationPending => to == CanonicalStatus::Authorized || to
            == CanonicalStatus::Failure || to == CanonicalStatus::Unresolved,
        CanonicalStatus::Authorized => to == CanonicalStatus::Charged || to
            == CanonicalStatus::Voided || to == CanonicalStatus::PartialCharge || to
            == CanonicalStatus::Unresolved,
        CanonicalStatus::PartialCharge => to == CanonicalStatus::Unresolved,
        CanonicalStatus::Pending => to == CanonicalStatus::Charged || to
            == CanonicalStatus::Failure || to == CanonicalStatus::Voided || to
            == CanonicalStatus::Unresolved,
        _ => false,
    }
}

/// A walk along one or more arrows of the graph.
pub open spec fn is_path(p: Seq<CanonicalStatus>) -> bool {
    &&& p.len() >= 2
    &&& forall|i: int| 0 <= i < p.len() - 1 ==> edge(#[trigger] p[i], p[i + 1])
}

/// `to` can be reached from `from` by following one or more arrows.
pub open spec fn reachable(from: CanonicalStatus, to: CanonicalStatus) -> bool {
    exists|p: Seq<CanonicalStatus>| #[trigger] is_path(p) && p[0] == from && p.last() == to
}

/// How far along the lifecycle a status is; every arrow raises it.
pub open spec fn progress(s: CanonicalStatus) -> nat {
    match s {
        CanonicalStatus::Created => 0,
        CanonicalStatus::Pending => 0,
        CanonicalStatus::AuthenticationPending => 1,
        CanonicalStatus::Authorized => 2,
        CanonicalStatus::PartialCharge => 3,
        _ => 4,
    }
}

/// The statuses that lie ahead of each status, written out: each status
/// with those that can be reached from it.
pub open spec fn lies_ahead(from: CanonicalStatus, to: CanonicalStatus) -> bool {
    match from {
        CanonicalStatus::Created => to != CanonicalStatus::Created && to
            != CanonicalStatus::Pending,
        CanonicalStatus::AuthenticationPending => to != CanonicalStatus::Created && to
            != CanonicalStatus::Pending && to != CanonicalStatus::AuthenticationPending,
        CanonicalStatus::Authorized => to == CanonicalStatus::Charged || to
            == CanonicalStatus::Voided || to == CanonicalStatus::PartialCharge || to
            == CanonicalStatus::Unresolved,
        CanonicalStatus::PartialCharge => to == CanonicalStatus::Unresolved,
        CanonicalStatus::Pending => to == CanonicalStatus::Charged || to
            == CanonicalStatus::Failure || to == CanonicalStatus::Voided || to
            == CanonicalStatus::Unresolved,
        _ => false,
    }
}

proof fn lemma_table_has_path(from: CanonicalStatus, to: CanonicalStatus)
    requires
        lies_ahead(from, to),
    ensures
        reachable(from, to),
    decreases 4 - progress(from),
{
    if edge(from, to) {
        let p = seq![from, to];
        assert(is_path(p));
        assert(p[0] == from && p.last() == to);
    } else {
        let next = if from == CanonicalStatus::Created {
            CanonicalStatus::AuthenticationPending
        } else {
            CanonicalStatus::Authorized
        };
        assert(edge(from, next) && lies_ahead(next, to));
        lemma_table_has_path(next, to);
        let q = choose|q: Seq<CanonicalStatus>| #[trigger]
            is_path(q) && q[0] == next && q.last() == to;
        let p = seq![from] + q;
        assert forall|i: int| 0 <= i < p.len() - 1 implies edge(#[trigger] p[i], p[i + 1]) by {
            if i > 0 {
                assert(p[i] == q[i - 1]);
                assert(p[i + 1] == q[i]);
            } else {
                assert(p[1] == q[0]);
            }
        }
        assert(is_path(p));
        assert(p[0] == from && p.last() == to);
    }
}

proof fn lemma_path_in_table(p: Seq<CanonicalStatus>)
    requires
        is_path(p),
    ensures
        lies_ahead(p[0], p.last()),
    decreases p.len(),
{
    assert(edge(p[0], p[1]));
    if p.len() > 2 {
        let q = p.subrange(1, p.len() as int);
        assert forall|i: int| 0 <= i < q.len() - 1 implies edge(#[trigger] q[i], q[i + 1]) by {
            assert(q[i] == p[i + 1]);
            assert(q[i + 1] == p[i + 2]);
            assert(edge(p[i + 1], p[i + 1 + 1]));
        }
        assert(is_path(q));
        lemma_path_in_table(q);
        assert(q[0] == p[1]);
        assert(q.last() == p.last());
    }
}

/// The written-out table is exactly reachability in the graph.
pub proof fn lemma_table_is_reachability(from: CanonicalStatus, to: CanonicalStatus)
    ensures
        lies_ahead(from, to) == reachable(from, to),
{
    if lies_ahead(from, to) {
        lemma_table_has_path(from, to);
    }
    if reachable(from, to) {
        let p = choose|p: Seq<CanonicalStatus>| #[trigger]
            is_path(p) && p[0] == from && p.last() == to;
        lemma_path_in_table(p);
    }
}

/// Reachability moves strictly forward: the graph has no cycle.
pub proof fn lemma_reachable_advances(from: CanonicalStatus, to: CanonicalStatus)
    requires
        reachable(from, to),
    ensures
        progress(from) < progress(to),
        from != to,
        !reachable(to, from),
{
    lemma_table_is_reachability(from, to);
    lemma_table_is_reachability(to, from);
}

/// Reachability composes: what can be reached in two steps can be reached.
pub proof fn lemma_reachable_transitive(a: CanonicalStatus, b: CanonicalStatus, c: CanonicalStatus)
    requires
        reachable(a, b),
        reachable(b, c),
    ensures
        reachable(a, c),
{
    lemma_table_is_reachability(a, b);
    lemma_table_is_reachability(b, c);
    lemma_table_is_reachability(a, c);
}

/// Nothing can be reached from a terminal status, and `Unresolved` from
/// every other.
pub proof fn lemma_terminal_is_final(from: CanonicalStatus, to: CanonicalStatus)
    ensures
        from.terminal() ==> !reachable(from, to),
        !from.terminal() ==> reachable(from, CanonicalStatus::Unresolved),
{
    lemma_table_is_reachability(from, to);
    lemma_table_is_reachability(from, CanonicalStatus::Unresolved);
}

impl CanonicalStatus {
    /// A terminal status has no further automatic transition.
    pub open spec fn terminal(self) -> bool {
        self == CanonicalStatus::Charged || self == CanonicalStatus::Failure || self
            == CanonicalStatus::Voided || self == CanonicalStatus::Unresolved
    }

    /// Whether no further automatic transition leaves this status.
    pub fn is_terminal(self) -> (r: bool)
        ensures
            r == self.terminal(),
    {
        match self {
            CanonicalStatus::Charged
            | CanonicalStatus::Failure
            | CanonicalStatus::Voided
            | CanonicalStatus::Unresolved => true,
            _ => false,
        }
    }

    /// Whether the graph has an arrow from this status straight to `to`.
    pub fn has_edge_to(self, to: CanonicalStatus) -> (r: bool)
        ensures
            r == edge(self, to),
    {
        match self {
            CanonicalStatus::Created => to == CanonicalStatus::AuthenticationPending || to
                == CanonicalStatus::Unresolved,
            CanonicalStatus::AuthenticationPending => to == CanonicalStatus::Authorized || to
                == CanonicalStatus::Failure || to == CanonicalStatus::Unresolved,
            CanonicalStatus::Authorized => to == CanonicalStatus::Charged || to
                == CanonicalStatus::Voided || to == CanonicalStatus::PartialCharge || to
                == CanonicalStatus::Unresolved,
            CanonicalStatus::PartialCharge => to == CanonicalStatus::Unresolved,
            CanonicalStatus::Pending => to == CanonicalStatus::Charged || to
                == CanonicalStatus::Failure || to == CanonicalStatus::Voided || to
                == CanonicalStatus::Unresolved,
            _ => false,
        }
    }

    /// Whether `to` lies ahead of this status in the graph, by one arrow or
    /// by several.
    pub fn can_reach(self, to: CanonicalStatus) -> (r: bool)
        ensures
            r == reachable(self, to),
    {
        proof {
            lemma_table_is_reachability(self, to);
        }
        match self {
            CanonicalStatus::Created => to != CanonicalStatus::Created && to
                != CanonicalStatus::Pending,
            CanonicalStatus::AuthenticationPending => to != CanonicalStatus::Created && to
                != CanonicalStatus::Pending && to != CanonicalStatus::AuthenticationPending,
            CanonicalStatus::Authorized => to == CanonicalStatus::Charged || to
                == CanonicalStatus::Voided || to == CanonicalStatus::PartialCharge || to
                == CanonicalStatus::Unresolved,
            CanonicalStatus::PartialCharge => to == CanonicalStatus::Unresolved,
            CanonicalStatus::Pending => to == CanonicalStatus::Charged || to
                == CanonicalStatus::Failure || to == CanonicalStatus::Voided || to
                == CanonicalStatus::Unresolved,
            _ => false,
        }
    }
}

} // verus!
