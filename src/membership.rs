//! Voter configurations and the joint-consensus transition rule.
use std::collections::BTreeSet;
use vstd::prelude::*;

use crate::log_id::LogId;

verus! {

broadcast use vstd::std_specs::btree::group_btree_axioms;

/// A voter configuration: one voter set (uniform) or an old and a new voter
/// set (joint). Learners are not part of it: a leader tracks them by their
/// replication state alone.
#[derive(Debug, Clone)]
pub struct Membership {
    pub configs: Vec<BTreeSet<u64>>,
}

/// The membership that a log entry installed, with that entry's log id.
#[derive(Debug, Clone)]
pub struct EffectiveMembership {
    pub log_id: LogId,
    pub membership: Membership,
}

/// Every node of the voter sets of `c`, a uniform or joint configuration.
pub open spec fn union_of(c: Seq<Set<u64>>) -> Set<u64> {
    if c.len() == 1 {
        c[0]
    } else {
        c[0] + c[1]
    }
}

/// The rule for the next safe configuration towards `target`: from the last
/// voter set `V`, stay uniform on `V` when `target == V`, otherwise go joint
/// `(V, target)`.
pub open spec fn next_safe_of(c: Seq<Set<u64>>, target: Set<u64>) -> Seq<Set<u64>> {
    if target == c.last() {
        seq![c.last()]
    } else {
        seq![c.last(), target]
    }
}

/// Is `a` equal to `b` as a set.
pub fn set_eq(a: &BTreeSet<u64>, b: &BTreeSet<u64>) -> (r: bool)
    ensures
        r == (a@ == b@),
{
    let ab = is_subset(a, b);
    let ba = is_subset(b, a);
    proof {
        if ab && ba {
            assert(a@ =~= b@);
        }
    }
    ab && ba
}

/// Is every element of `a` in `b`.
pub fn is_subset(a: &BTreeSet<u64>, b: &BTreeSet<u64>) -> (r: bool)
    ensures
        r == a@.subset_of(b@),
{
    let ghost mut seen: Set<u64> = Set::empty();
    for x in it: a.iter()
        invariant
            it.seq().unref().to_set() == a@,
            seen.subset_of(b@),
            forall|y: u64| #[trigger] a@.contains(y) ==> seen.contains(y) || exists|k: int|
                it.index() <= k < it.seq().len() && *it.seq()[k] == y,
    {
        if !b.contains(x) {
            assert(it.seq().unref()[it.index() as int] == *x);
            assert(a@.contains(*x));
            return false;
        }
        proof {
            seen = seen.insert(*x);
        }
    }
    true
}

/// The union of two sets.
pub fn set_union(a: &BTreeSet<u64>, b: &BTreeSet<u64>) -> (r: BTreeSet<u64>)
    ensures
        r@ == a@ + b@,
{
    let mut r = a.clone();
    let ghost mut seen: Set<u64> = Set::empty();
    for x in it: b.iter()
        invariant
            it.seq().unref().to_set() == b@,
            seen.subset_of(b@),
            r@ == a@ + seen,
            forall|y: u64| #[trigger] b@.contains(y) ==> seen.contains(y) || exists|k: int|
                it.index() <= k < it.seq().len() && *it.seq()[k] == y,
    {
        assert(it.seq().unref()[it.index() as int] == *x);
        r.insert(*x);
        proof {
            seen = seen.insert(*x);
        }
        assert(r@ =~= a@ + seen);
    }
    assert(seen =~= b@);
    r
}

impl View for Membership {
    type V = Seq<Set<u64>>;

    open spec fn view(&self) -> Seq<Set<u64>> {
        self.configs@.map_values(|s: BTreeSet<u64>| s@)
    }
}

impl Membership {
    /// A uniform configuration has one voter set, a joint one two.
    pub open spec fn wf(&self) -> bool {
        1 <= self.configs.len() <= 2
    }

    /// Every voter of every active set.
    pub open spec fn all_nodes_spec(&self) -> Set<u64> {
        union_of(self@)
    }

    /// A uniform configuration over `members`.
    pub fn new_single(members: BTreeSet<u64>) -> (r: Membership)
        ensures
            r.wf(),
            r@ == seq![members@],
    {
        let mut configs: Vec<BTreeSet<u64>> = Vec::new();
        configs.push(members);
        let r = Membership { configs };
        assert(r@ =~= seq![r.configs[0]@]);
        r
    }

    /// A joint configuration of `old` and `new`.
    pub fn new_joint(old: BTreeSet<u64>, new: BTreeSet<u64>) -> (r: Membership)
        ensures
            r.wf(),
            r@ == seq![old@, new@],
    {
        let mut configs: Vec<BTreeSet<u64>> = Vec::new();
        configs.push(old);
        configs.push(new);
        let r = Membership { configs };
        assert(r@ =~= seq![r.configs[0]@, r.configs[1]@]);
        r
    }

    /// Whether this is a joint configuration.
    pub fn is_joint(&self) -> (r: bool)
        requires
            self.wf(),
        ensures
            r == (self@.len() == 2),
    {
        self.configs.len() == 2
    }

    /// Every voter of every active set.
    pub fn all_nodes(&self) -> (r: BTreeSet<u64>)
        requires
            self.wf(),
        ensures
            r@ == self.all_nodes_spec(),
    {
        if self.configs.len() == 1 {
            self.configs[0].clone()
        } else {
            set_union(&self.configs[0], &self.configs[1])
        }
    }

    /// Whether `id` is a voter in any active set.
    pub fn contains(&self, id: u64) -> (r: bool)
        requires
            self.wf(),
        ensures
            r == self.all_nodes_spec().contains(id),
    {
        let all = self.all_nodes();
        all.contains(&id)
    }

    /// The next configuration that can safely be committed on the way to
    /// `target`.
    pub fn next_safe(&self, target: BTreeSet<u64>) -> (r: Membership)
        requires
            self.wf(),
        ensures
            r.wf(),
            r@ == next_safe_of(self@, target@),
    {
        let last_i = self.configs.len() - 1;
        let last = self.configs[last_i].clone();
        assert(last@ == self@.last());
        if set_eq(&target, &last) {
            Membership::new_single(last)
        } else {
            Membership::new_joint(last, target)
        }
    }
}

/// Once `next_safe` reaches a uniform configuration, applying it again with
/// the same target changes nothing.
pub proof fn lemma_next_safe_fixed_point(m: Seq<Set<u64>>, target: Set<u64>)
    requires
        1 <= m.len() <= 2,
        next_safe_of(m, target).len() == 1,
    ensures
        next_safe_of(next_safe_of(m, target), target) == next_safe_of(m, target),
{
}

/// A pristine node that bootstrapped alone on `{s}` and then proposes the
/// voters `{s, a}` twice (once the first, joint, step has committed) ends on
/// the uniform configuration `{s, a}`.
pub proof fn lemma_bootstrap_then_change(s: u64, a: u64)
    ensures
        next_safe_of(next_safe_of(seq![set![s]], set![s, a]), set![s, a]) == seq![set![s, a]],
{
    let t = set![s, a];
    let first = next_safe_of(seq![set![s]], t);
    assert(first.last() == t);
}

} // verus!
