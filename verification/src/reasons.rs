//! The closed set of reasons a user can be staged for removal, and the
//! reason sets accumulated on a purge record.

use vstd::prelude::*;

verus! {

/// Why a user was staged for removal. The set of reasons is closed: a policy
/// toggles each check on or off, and a record accumulates the reasons that
/// fired.
#[derive(Clone, Copy, PartialEq, Eq, Structural, Debug, Hash)]
pub enum PurgeReason {
    /// The user's active flag is off while the policy checks it.
    ActiveStatus,
    /// The user has been inactive longer than the policy's threshold.
    LastActive,
    /// Another, earlier account has a near-identical email address.
    DuplicateEmail,
    /// Another, earlier account has a near-identical display name.
    DuplicateName,
}

/// A set of purge reasons. Reasons form a set, never a multiset: merging is
/// union, and union is idempotent and commutative.
#[derive(Clone, Copy, PartialEq, Eq, Structural, Debug)]
pub struct ReasonSet {
    pub active_status: bool,
    pub last_active: bool,
    pub duplicate_email: bool,
    pub duplicate_name: bool,
}

impl View for ReasonSet {
    type V = Set<PurgeReason>;

    open spec fn view(&self) -> Set<PurgeReason> {
        Set::new(|r: PurgeReason| self.spec_contains(r))
    }
}

impl ReasonSet {
    /// Whether the set holds the given reason.
    pub open spec fn spec_contains(&self, reason: PurgeReason) -> bool {
        match reason {
            PurgeReason::ActiveStatus => self.active_status,
            PurgeReason::LastActive => self.last_active,
            PurgeReason::DuplicateEmail => self.duplicate_email,
            PurgeReason::DuplicateName => self.duplicate_name,
        }
    }

    /// The union of two reason sets.
    pub open spec fn spec_union(self, other: ReasonSet) -> ReasonSet {
        ReasonSet {
            active_status: self.active_status || other.active_status,
            last_active: self.last_active || other.last_active,
            duplicate_email: self.duplicate_email || other.duplicate_email,
            duplicate_name: self.duplicate_name || other.duplicate_name,
        }
    }

    /// Whether the set is empty.
    pub open spec fn spec_is_empty(&self) -> bool {
        !self.active_status && !self.last_active && !self.duplicate_email && !self.duplicate_name
    }

    /// The empty reason set.
    pub fn empty() -> (r: ReasonSet)
        ensures
            r.spec_is_empty(),
            r == (ReasonSet {
                active_status: false,
                last_active: false,
                duplicate_email: false,
                duplicate_name: false,
            }),
    {
        ReasonSet { active_status: false, last_active: false, duplicate_email: false, duplicate_name: false }
    }

    /// Whether the set holds the given reason.
    pub fn contains(&self, reason: PurgeReason) -> (r: bool)
        ensures
            r == self.spec_contains(reason),
    {
        match reason {
            PurgeReason::ActiveStatus => self.active_status,
            PurgeReason::LastActive => self.last_active,
            PurgeReason::DuplicateEmail => self.duplicate_email,
            PurgeReason::DuplicateName => self.duplicate_name,
        }
    }

    /// Whether no reason is in the set.
    pub fn is_empty(&self) -> (r: bool)
        ensures
            r == self.spec_is_empty(),
    {
        !self.active_status && !self.last_active && !self.duplicate_email && !self.duplicate_name
    }

    /// The union of this set with another: no reason is ever dropped.
    pub fn union(&self, other: &ReasonSet) -> (r: ReasonSet)
        ensures
            r == self.spec_union(*other),
    {
        ReasonSet {
            active_status: self.active_status || other.active_status,
            last_active: self.last_active || other.last_active,
            duplicate_email: self.duplicate_email || other.duplicate_email,
            duplicate_name: self.duplicate_name || other.duplicate_name,
        }
    }

    /// The reasons in the set, in declaration order.
    pub fn to_vec(&self) -> (r: Vec<PurgeReason>)
        ensures
            forall|reason: PurgeReason| self.spec_contains(reason) <==> r@.contains(reason),
    {
        let mut out: Vec<PurgeReason> = Vec::new();
        if self.active_status {
            out.push(PurgeReason::ActiveStatus);
        }
        if self.last_active {
            out.push(PurgeReason::LastActive);
        }
        if self.duplicate_email {
            out.push(PurgeReason::DuplicateEmail);
        }
        if self.duplicate_name {
            out.push(PurgeReason::DuplicateName);
        }
        proof {
            assert forall|reason: PurgeReason| self.spec_contains(reason) implies out@.contains(
                reason,
            ) by {
                let target = match reason {
                    PurgeReason::ActiveStatus => 0int,
                    PurgeReason::LastActive => if self.active_status { 1int } else { 0int },
                    PurgeReason::DuplicateEmail => {
                        (if self.active_status { 1int } else { 0int }) + (if self.last_active { 1int } else { 0int })
                    },
                    PurgeReason::DuplicateName => {
                        (if self.active_status { 1int } else { 0int }) + (if self.last_active { 1int } else { 0int })
                            + (if self.duplicate_email { 1int } else { 0int })
                    },
                };
                assert(out@[target] == reason);
            }
        }
        out
    }
}

/// Union of reason sets is idempotent: merging a set into itself changes
/// nothing.
pub proof fn lemma_union_idempotent(a: ReasonSet)
    ensures
        a.spec_union(a) == a,
{
}

/// Union of reason sets is commutative: two independent checks may merge
/// their findings in either order.
pub proof fn lemma_union_commutative(a: ReasonSet, b: ReasonSet)
    ensures
        a.spec_union(b) == b.spec_union(a),
{
}

/// Union never loses a reason: every reason of either operand is in the
/// union.
pub proof fn lemma_union_no_loss(a: ReasonSet, b: ReasonSet, r: PurgeReason)
    ensures
        a.spec_contains(r) || b.spec_contains(r) <==> a.spec_union(b).spec_contains(r),
{
}

} // verus!
