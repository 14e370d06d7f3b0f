//! Which checkpoints a retention policy removes: those older than its
//! maximum age, and those of a workflow beyond its maximum count.
use vstd::prelude::*;
use crate::collections::{sorted_texts, views, OrderedMap};
use crate::workflows::checkpointing::models::CheckpointMetadata;
use crate::workflows::checkpointing::time::{epoch_nanos, span_in_bounds, TimeDelta, Timestamp};

verus! {

/// How old checkpoints may grow, and how many of a workflow are kept.
#[derive(Debug, Clone, Copy)]
pub struct RetentionPolicy {
    pub max_age: Option<TimeDelta>,
    pub max_count: Option<usize>,
}

impl Default for RetentionPolicy {
    /// Seven days, and ten checkpoints.
    fn default() -> (r: Self)
        ensures
            r.max_age == Some(TimeDelta::of_seconds(604800int)),
            r.max_count == Some(10usize),
    {
        proof {
            assert(span_in_bounds(604800int));
        }
        RetentionPolicy { max_age: Some(TimeDelta::days(7)), max_count: Some(10) }
    }
}

/// What a cleanup did: how many checkpoints it deleted, and how many
/// times the policy was found broken.
#[derive(Debug, Clone, Copy, PartialEq, Eq)]
pub struct CleanupMetrics {
    pub deleted_count: usize,
    pub policy_violations: usize,
}

impl Default for CleanupMetrics {
    fn default() -> (r: Self)
        ensures
            r.deleted_count == 0,
            r.policy_violations == 0,
    {
        CleanupMetrics { deleted_count: 0, policy_violations: 0 }
    }
}

impl CleanupMetrics {
    /// Counts one more deleted checkpoint.
    pub fn count_deletion(&mut self)
        requires
            old(self).deleted_count < usize::MAX,
        ensures
            final(self).deleted_count == old(self).deleted_count + 1,
            final(self).policy_violations == old(self).policy_violations,
    {
        self.deleted_count = self.deleted_count + 1;
    }
}

/// A checkpoint taken at `t` is older than `max_age` at `now`.
pub open spec fn too_old(now: Timestamp, t: Timestamp, max_age: TimeDelta) -> bool {
    epoch_nanos(now) - epoch_nanos(t) > max_age.spec_seconds() * 1_000_000_000
}

/// The number of the first `n` checkpoints that belong to workflow `id`.
pub open spec fn count_upto(s: Seq<CheckpointMetadata>, n: int, id: Seq<char>) -> nat
    decreases n,
{
    if n <= 0 {
        0
    } else {
        count_upto(s, n - 1, id) + (if s[n - 1].workflow_id@ == id { 1nat } else { 0nat })
    }
}

/// How many rules of the policy the checkpoint at `j` breaks: being too
/// old, and having at least the maximum count of checkpoints of its
/// workflow before it.
pub open spec fn entry_violations(
    s: Seq<CheckpointMetadata>,
    j: int,
    now: Timestamp,
    p: RetentionPolicy,
) -> nat {
    (match p.max_age {
        Some(a) => if too_old(now, s[j].checkpoint_time, a) { 1nat } else { 0nat },
        None => 0nat,
    }) + (match p.max_count {
        Some(c) => if count_upto(s, j, s[j].workflow_id@) >= c { 1nat } else { 0nat },
        None => 0nat,
    })
}

/// The violations among the first `n` checkpoints.
pub open spec fn violations_upto(
    s: Seq<CheckpointMetadata>,
    n: int,
    now: Timestamp,
    p: RetentionPolicy,
) -> nat
    decreases n,
{
    if n <= 0 {
        0
    } else {
        violations_upto(s, n - 1, now, p) + entry_violations(s, n - 1, now, p)
    }
}

/// The workflows that have a checkpoint among the first `n` breaking the
/// policy.
pub open spec fn marked_upto(
    s: Seq<CheckpointMetadata>,
    n: int,
    now: Timestamp,
    p: RetentionPolicy,
) -> Set<Seq<char>> {
    Set::new(
        |id: Seq<char>|
            exists|j: int|
                0 <= j < n && #[trigger] s[j].workflow_id@ == id && entry_violations(s, j, now, p) > 0,
    )
}

/// What a cleanup removes: the workflows whose checkpoints are deleted, in
/// increasing order and each once, and the number of violations found.
#[derive(Debug)]
pub struct CleanupPlan {
    pub to_delete: Vec<String>,
    pub policy_violations: usize,
}

/// Among the first `n` checkpoints, at most `n` belong to one workflow.
proof fn lemma_count_upto_bound(s: Seq<CheckpointMetadata>, n: int, id: Seq<char>)
    requires
        n >= 0,
    ensures
        count_upto(s, n, id) <= n,
    decreases n,
{
    if n > 0 {
        lemma_count_upto_bound(s, n - 1, id);
    }
}

/// Among the first `n` checkpoints, at most two violations each.
proof fn lemma_violations_bound(s: Seq<CheckpointMetadata>, n: int, now: Timestamp, p: RetentionPolicy)
    requires
        n >= 0,
    ensures
        violations_upto(s, n, now, p) <= 2 * n,
    decreases n,
{
    if n > 0 {
        lemma_violations_bound(s, n - 1, now, p);
    }
}

/// Whether a checkpoint taken at `t` is older than `max_age` at `now`.
fn is_too_old(now: Timestamp, t: Timestamp, max_age: TimeDelta) -> (r: bool)
    ensures
        r == too_old(now, t, max_age),
{
    let age: i128 = (now.secs as i128 - t.secs as i128) * 1_000_000_000 + (now.nanos as i128
        - t.nanos as i128);
    let limit: i128 = (max_age.num_seconds() as i128) * 1_000_000_000;
    age > limit
}

/// The plan of a cleanup of `checkpoints` at `now` under `policy`: every
/// workflow with a checkpoint that breaks the policy is deleted, and each
/// broken rule of each checkpoint is counted.
pub fn plan_cleanup(
    checkpoints: &Vec<CheckpointMetadata>,
    now: Timestamp,
    policy: &RetentionPolicy,
) -> (r: CleanupPlan)
    requires
        checkpoints@.len() <= usize::MAX / 2,
    ensures
        r.policy_violations == violations_upto(checkpoints@, checkpoints@.len() as int, now, *policy),
        sorted_texts(views(r.to_delete@)),
        views(r.to_delete@).to_set() == marked_upto(
            checkpoints@,
            checkpoints@.len() as int,
            now,
            *policy,
        ),
{
    let ghost s = checkpoints@;
    let ghost p = *policy;
    let mut counts: OrderedMap<usize> = OrderedMap::new();
    let mut marked: OrderedMap<bool> = OrderedMap::new();
    let mut violations: usize = 0;
    let mut i: usize = 0;
    proof {
        assert(marked@.dom() =~= marked_upto(s, 0, now, p));
    }
    while i < checkpoints.len()
        invariant
            s == checkpoints@,
            p == *policy,
            i <= s.len(),
            s.len() <= usize::MAX / 2,
            forall|id: Seq<char>| #[trigger]
                counts@.contains_key(id) ==> counts@[id] == count_upto(s, i as int, id),
            forall|id: Seq<char>| !counts@.contains_key(id) ==> #[trigger] count_upto(s, i as int, id)
                == 0,
            violations == violations_upto(s, i as int, now, p),
            marked@.dom() == marked_upto(s, i as int, now, p),
        decreases s.len() - i,
    {
        let m = &checkpoints[i];
        let id = m.workflow_id.as_str();
        let seen: usize = match counts.get(id) {
            Some(c) => *c,
            None => 0,
        };
        assert(seen == count_upto(s, i as int, id@));
        let mut v: usize = 0;
        match policy.max_age {
            Some(a) => {
                if is_too_old(now, m.checkpoint_time, a) {
                    v = v + 1;
                }
            },
            None => {},
        }
        match policy.max_count {
            Some(c) => {
                if seen >= c {
                    v = v + 1;
                }
            },
            None => {},
        }
        assert(v == entry_violations(s, i as int, now, p));
        proof {
            lemma_violations_bound(s, i as int, now, p);
            lemma_count_upto_bound(s, i as int, id@);
        }
        violations = violations + v;
        let ghost marked_before = marked@;
        if v > 0 {
            marked.insert(id.to_string(), true);
        }
        let ghost counts_before = counts@;
        counts.insert(id.to_string(), seen + 1);
        proof {
            let n = i + 1;
            assert forall|q: Seq<char>| #[trigger] counts@.contains_key(q) implies counts@[q]
                == count_upto(s, n as int, q) by {
                assert(count_upto(s, n as int, q) == count_upto(s, i as int, q) + (if s[i as int].workflow_id@
                    == q { 1nat } else { 0nat }));
            }
            assert forall|q: Seq<char>| !counts@.contains_key(q) implies #[trigger] count_upto(
                s,
                n as int,
                q,
            ) == 0 by {
                assert(count_upto(s, n as int, q) == count_upto(s, i as int, q) + (if s[i as int].workflow_id@
                    == q { 1nat } else { 0nat }));
            }
            assert forall|q: Seq<char>| #[trigger] marked@.dom().contains(q) == marked_upto(s, n as int, now, p).contains(q) by {
                if marked_upto(s, n as int, now, p).contains(q) {
                    let j = choose|j: int|
                        0 <= j < n && #[trigger] s[j].workflow_id@ == q && entry_violations(s, j, now, p) > 0;
                    if j < i {
                        assert(marked_upto(s, i as int, now, p).contains(q));
                    }
                }
                if marked_before.dom().contains(q) {
                    assert(marked_upto(s, i as int, now, p).contains(q));
                    let j = choose|j: int|
                        0 <= j < i && #[trigger] s[j].workflow_id@ == q && entry_violations(s, j, now, p) > 0;
                    assert(s[j].workflow_id@ == q);
                }
                if v > 0 && q == id@ {
                    assert(s[i as int].workflow_id@ == q);
                }
            }
            assert(marked@.dom() =~= marked_upto(s, n as int, now, p));
        }
        i = i + 1;
    }
    let entries = marked.entries();
    let mut to_delete: Vec<String> = Vec::new();
    let mut k: usize = 0;
    while k < entries.len()
        invariant
            k <= entries@.len(),
            crate::collections::entry_keys(entries@) == marked.spec_keys(),
            views(to_delete@) == marked.spec_keys().take(k as int),
        decreases entries@.len() - k,
    {
        let ghost before = views(to_delete@);
        let key = entries[k].0.clone();
        assert(key@ == marked.spec_keys()[k as int]);
        to_delete.push(key);
        assert(views(to_delete@) =~= before.push(key@));
        assert(marked.spec_keys().take(k + 1) =~= marked.spec_keys().take(k as int).push(
            marked.spec_keys()[k as int],
        ));
        k = k + 1;
    }
    assert(marked.spec_keys().take(entries@.len() as int) =~= marked.spec_keys());
    CleanupPlan { to_delete, policy_violations: violations }
}

/// Among the first `n` checkpoints, a workflow with more than `c` of them
/// has one that comes after `c` others of its own.
proof fn lemma_occurrence_beyond(s: Seq<CheckpointMetadata>, n: int, id: Seq<char>, c: nat)
    requires
        0 <= n <= s.len(),
        count_upto(s, n, id) > c,
    ensures
        exists|j: int| 0 <= j < n && #[trigger] s[j].workflow_id@ == id && count_upto(s, j, id) >= c,
    decreases n,
{
    if count_upto(s, n - 1, id) > c {
        lemma_occurrence_beyond(s, n - 1, id, c);
        let j = choose|j: int| 0 <= j < n - 1 && #[trigger] s[j].workflow_id@ == id && count_upto(s, j, id) >= c;
        assert(s[j].workflow_id@ == id);
    } else {
        assert(s[n - 1].workflow_id@ == id);
    }
}

/// A workflow with more checkpoints than the policy keeps is cleaned up.
pub proof fn lemma_too_many_checkpoints_removed(
    s: Seq<CheckpointMetadata>,
    now: Timestamp,
    p: RetentionPolicy,
    id: Seq<char>,
)
    requires
        p.max_count is Some,
        count_upto(s, s.len() as int, id) > p.max_count->0,
    ensures
        marked_upto(s, s.len() as int, now, p).contains(id),
{
    let c = p.max_count->0;
    lemma_occurrence_beyond(s, s.len() as int, id, c as nat);
    let j = choose|j: int| 0 <= j < s.len() && #[trigger] s[j].workflow_id@ == id && count_upto(s, j, id) >= c;
    assert(entry_violations(s, j, now, p) > 0);
    assert(s[j].workflow_id@ == id);
}

/// A workflow with a checkpoint older than the policy's maximum age is
/// cleaned up.
pub proof fn lemma_old_checkpoint_removed(
    s: Seq<CheckpointMetadata>,
    now: Timestamp,
    p: RetentionPolicy,
    j: int,
)
    requires
        0 <= j < s.len(),
        p.max_age is Some,
        too_old(now, s[j].checkpoint_time, p.max_age->0),
    ensures
        marked_upto(s, s.len() as int, now, p).contains(s[j].workflow_id@),
{
    assert(entry_violations(s, j, now, p) > 0);
}

/// A workflow none of whose checkpoints breaks the policy is kept.
pub proof fn lemma_compliant_workflow_kept(
    s: Seq<CheckpointMetadata>,
    now: Timestamp,
    p: RetentionPolicy,
    id: Seq<char>,
)
    requires
        forall|j: int| 0 <= j < s.len() && #[trigger] s[j].workflow_id@ == id ==> entry_violations(s, j, now, p) == 0,
    ensures
        !marked_upto(s, s.len() as int, now, p).contains(id),
{
}

} // verus!
