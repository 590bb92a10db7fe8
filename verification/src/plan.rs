//! The controller's orchestration plan.
//!
//! For a pipeline of `n` stages the controller performs, for each
//! stage index `i` in order: create pipe link `i` (unless `i` is the
//! last stage), spawn the stage's process, and close both descriptors
//! of link `i - 1` (unless `i` is the first stage) — the controller
//! never carries pipeline payload, so keeping those descriptors open
//! would prevent downstream stages from observing end-of-stream.  The
//! plan below is that exact ordered list of operations; an executor
//! performs them one at a time and aborts the remainder of the plan on
//! the first pipe-creation or spawn failure.

use vstd::prelude::*;

verus! {

/// One operation of the controller, in plan order.
#[derive(Debug, Clone, Copy, PartialEq, Eq, Structural)]
pub enum Op {
    /// Create pipe link `link`, before the stage that writes it is
    /// spawned.
    CreateLink { link: usize },
    /// Spawn the process of stage `stage`.
    SpawnStage { stage: usize },
    /// Close both descriptors of link `link` in the controller, once
    /// the two stages adjacent to the link have been spawned.
    CloseLinkInParent { link: usize },
}

/// The operations the controller performs for stage `i` of `n`.
pub open spec fn spec_stage_ops(i: int, n: int) -> Seq<Op> {
    (if i < n - 1 {
        seq![Op::CreateLink { link: i as usize }]
    } else {
        Seq::empty()
    }) + seq![Op::SpawnStage { stage: i as usize }] + (if i > 0 {
        seq![Op::CloseLinkInParent { link: (i - 1) as usize }]
    } else {
        Seq::empty()
    })
}

/// The operations for the first `i` stages of a pipeline of `n`.
pub open spec fn spec_plan_upto(i: int, n: int) -> Seq<Op>
    decreases i,
{
    if i <= 0 {
        Seq::empty()
    } else {
        spec_plan_upto(i - 1, n) + spec_stage_ops(i - 1, n)
    }
}

/// The controller's whole plan for a pipeline of `n` stages.
pub open spec fn spec_plan(n: int) -> Seq<Op> {
    spec_plan_upto(n, n)
}

/// How many spawn operations a plan holds.
pub open spec fn spec_count_spawns(plan: Seq<Op>) -> nat
    decreases plan.len(),
{
    if plan.len() == 0 {
        0
    } else {
        spec_count_spawns(plan.drop_last()) + (if plan.last() is SpawnStage {
            1nat
        } else {
            0nat
        })
    }
}

/// How many pipe-creation operations a plan holds.
pub open spec fn spec_count_creates(plan: Seq<Op>) -> nat
    decreases plan.len(),
{
    if plan.len() == 0 {
        0
    } else {
        spec_count_creates(plan.drop_last()) + (if plan.last() is CreateLink {
            1nat
        } else {
            0nat
        })
    }
}

/// How many times a plan spawns stage `s`.
pub open spec fn spec_count_spawns_of(plan: Seq<Op>, s: usize) -> nat
    decreases plan.len(),
{
    if plan.len() == 0 {
        0
    } else {
        spec_count_spawns_of(plan.drop_last(), s) + (if plan.last() == (Op::SpawnStage {
            stage: s,
        }) {
            1nat
        } else {
            0nat
        })
    }
}

/// How many times a plan creates link `l`.
pub open spec fn spec_count_creates_of(plan: Seq<Op>, l: usize) -> nat
    decreases plan.len(),
{
    if plan.len() == 0 {
        0
    } else {
        spec_count_creates_of(plan.drop_last(), l) + (if plan.last() == (Op::CreateLink {
            link: l,
        }) {
            1nat
        } else {
            0nat
        })
    }
}

/// How many times a plan closes link `l` in the controller.
pub open spec fn spec_count_closes_of(plan: Seq<Op>, l: usize) -> nat
    decreases plan.len(),
{
    if plan.len() == 0 {
        0
    } else {
        spec_count_closes_of(plan.drop_last(), l) + (if plan.last() == (Op::CloseLinkInParent {
            link: l,
        }) {
            1nat
        } else {
            0nat
        })
    }
}

proof fn lemma_count_spawns_distributes(a: Seq<Op>, b: Seq<Op>)
    ensures
        spec_count_spawns(a + b) == spec_count_spawns(a) + spec_count_spawns(b),
    decreases b.len(),
{
    if b.len() == 0 {
        assert(a + b =~= a);
    } else {
        lemma_count_spawns_distributes(a, b.drop_last());
        assert((a + b).drop_last() =~= a + b.drop_last());
        assert((a + b).last() == b.last());
    }
}

proof fn lemma_count_creates_distributes(a: Seq<Op>, b: Seq<Op>)
    ensures
        spec_count_creates(a + b) == spec_count_creates(a) + spec_count_creates(b),
    decreases b.len(),
{
    if b.len() == 0 {
        assert(a + b =~= a);
    } else {
        lemma_count_creates_distributes(a, b.drop_last());
        assert((a + b).drop_last() =~= a + b.drop_last());
        assert((a + b).last() == b.last());
    }
}

proof fn lemma_count_closes_distributes(a: Seq<Op>, b: Seq<Op>, l: usize)
    ensures
        spec_count_closes_of(a + b, l) == spec_count_closes_of(a, l) + spec_count_closes_of(b, l),
    decreases b.len(),
{
    if b.len() == 0 {
        assert(a + b =~= a);
    } else {
        lemma_count_closes_distributes(a, b.drop_last(), l);
        assert((a + b).drop_last() =~= a + b.drop_last());
        assert((a + b).last() == b.last());
    }
}

proof fn lemma_count_spawns_of_distributes(a: Seq<Op>, b: Seq<Op>, s: usize)
    ensures
        spec_count_spawns_of(a + b, s) == spec_count_spawns_of(a, s) + spec_count_spawns_of(b, s),
    decreases b.len(),
{
    if b.len() == 0 {
        assert(a + b =~= a);
    } else {
        lemma_count_spawns_of_distributes(a, b.drop_last(), s);
        assert((a + b).drop_last() =~= a + b.drop_last());
        assert((a + b).last() == b.last());
    }
}

proof fn lemma_count_creates_of_distributes(a: Seq<Op>, b: Seq<Op>, l: usize)
    ensures
        spec_count_creates_of(a + b, l) == spec_count_creates_of(a, l) + spec_count_creates_of(
            b,
            l,
        ),
    decreases b.len(),
{
    if b.len() == 0 {
        assert(a + b =~= a);
    } else {
        lemma_count_creates_of_distributes(a, b.drop_last(), l);
        assert((a + b).drop_last() =~= a + b.drop_last());
        assert((a + b).last() == b.last());
    }
}

proof fn lemma_plan_upto_counts(i: int, n: int, l: usize, s: usize)
    requires
        1 <= n <= usize::MAX,
        0 <= i <= n,
    ensures
        spec_count_spawns(spec_plan_upto(i, n)) == i,
        spec_count_creates(spec_plan_upto(i, n)) == if i < n {
            i
        } else {
            n - 1
        },
        spec_count_closes_of(spec_plan_upto(i, n), l) == if l + 1 < i {
            1nat
        } else {
            0nat
        },
        spec_count_spawns_of(spec_plan_upto(i, n), s) == if (s as int) < i {
            1nat
        } else {
            0nat
        },
        spec_count_creates_of(spec_plan_upto(i, n), l) == if (l as int) < i && (l as int) < n
            - 1 {
            1nat
        } else {
            0nat
        },
    decreases i,
{
    if i > 0 {
        lemma_plan_upto_counts(i - 1, n, l, s);
        let ops = spec_stage_ops(i - 1, n);
        lemma_count_spawns_distributes(spec_plan_upto(i - 1, n), ops);
        lemma_count_creates_distributes(spec_plan_upto(i - 1, n), ops);
        lemma_count_closes_distributes(spec_plan_upto(i - 1, n), ops, l);
        lemma_count_spawns_of_distributes(spec_plan_upto(i - 1, n), ops, s);
        lemma_count_creates_of_distributes(spec_plan_upto(i - 1, n), ops, l);
        lemma_stage_ops_counts(i - 1, n, l, s);
    }
}

proof fn lemma_stage_ops_counts(i: int, n: int, l: usize, s: usize)
    requires
        1 <= n <= usize::MAX,
        0 <= i < n,
    ensures
        spec_count_spawns(spec_stage_ops(i, n)) == 1,
        spec_count_creates(spec_stage_ops(i, n)) == if i < n - 1 {
            1nat
        } else {
            0nat
        },
        spec_count_closes_of(spec_stage_ops(i, n), l) == if i > 0 && l == i - 1 {
            1nat
        } else {
            0nat
        },
        spec_count_spawns_of(spec_stage_ops(i, n), s) == if s == i {
            1nat
        } else {
            0nat
        },
        spec_count_creates_of(spec_stage_ops(i, n), l) == if i < n - 1 && l == i {
            1nat
        } else {
            0nat
        },
{
    let ops = spec_stage_ops(i, n);
    reveal_with_fuel(spec_count_spawns, 4);
    reveal_with_fuel(spec_count_creates, 4);
    reveal_with_fuel(spec_count_closes_of, 4);
    reveal_with_fuel(spec_count_spawns_of, 4);
    reveal_with_fuel(spec_count_creates_of, 4);
    if i < n - 1 && i > 0 {
        assert(ops =~= seq![
            Op::CreateLink { link: i as usize },
            Op::SpawnStage { stage: i as usize },
            Op::CloseLinkInParent { link: (i - 1) as usize },
        ]);
        assert(ops.drop_last().drop_last() =~= seq![Op::CreateLink { link: i as usize }]);
    } else if i < n - 1 {
        assert(ops =~= seq![
            Op::CreateLink { link: i as usize },
            Op::SpawnStage { stage: i as usize },
        ]);
        assert(ops.drop_last() =~= seq![Op::CreateLink { link: i as usize }]);
    } else if i > 0 {
        assert(ops =~= seq![
            Op::SpawnStage { stage: i as usize },
            Op::CloseLinkInParent { link: (i - 1) as usize },
        ]);
        assert(ops.drop_last() =~= seq![Op::SpawnStage { stage: i as usize }]);
    } else {
        assert(ops =~= seq![Op::SpawnStage { stage: i as usize }]);
    }
}

/// For a pipeline of `n` stages the plan spawns each stage exactly
/// once — `n` processes in all — creates each of the `n - 1` pipe
/// links exactly once, and closes each of those links exactly once in
/// the controller; no other stage is spawned and no other link is
/// created or closed.
pub proof fn lemma_plan_counts(n: int)
    requires
        1 <= n <= usize::MAX,
    ensures
        spec_count_spawns(spec_plan(n)) == n,
        spec_count_creates(spec_plan(n)) == n - 1,
        forall|s: usize|
            #[trigger] spec_count_spawns_of(spec_plan(n), s) == if (s as int) < n {
                1nat
            } else {
                0nat
            },
        forall|l: usize|
            #[trigger] spec_count_creates_of(spec_plan(n), l) == if (l as int) < n - 1 {
                1nat
            } else {
                0nat
            },
        forall|l: usize|
            #[trigger] spec_count_closes_of(spec_plan(n), l) == if l + 1 < n {
                1nat
            } else {
                0nat
            },
{
    assert forall|l: usize| true implies #[trigger] spec_count_closes_of(spec_plan(n), l) == (if l
        + 1 < n {
        1nat
    } else {
        0nat
    }) by {
        lemma_plan_upto_counts(n, n, l, 0);
    }
    assert forall|l: usize| true implies #[trigger] spec_count_creates_of(spec_plan(n), l) == (if (
    l as int) < n - 1 {
        1nat
    } else {
        0nat
    }) by {
        lemma_plan_upto_counts(n, n, l, 0);
    }
    assert forall|s: usize| true implies #[trigger] spec_count_spawns_of(spec_plan(n), s) == (if (
    s as int) < n {
        1nat
    } else {
        0nat
    }) by {
        lemma_plan_upto_counts(n, n, 0, s);
    }
    lemma_plan_upto_counts(n, n, 0, 0);
}

proof fn lemma_plan_upto_prefix(i1: int, i2: int, n: int)
    requires
        0 <= i1 <= i2 <= n,
    ensures
        spec_plan_upto(i1, n).len() + (i2 - i1) <= spec_plan_upto(i2, n).len(),
        forall|k: int|
            0 <= k < spec_plan_upto(i1, n).len() ==> spec_plan_upto(i2, n)[k] == spec_plan_upto(
                i1,
                n,
            )[k],
    decreases i2 - i1,
{
    if i2 > i1 {
        lemma_plan_upto_prefix(i1, i2 - 1, n);
        assert(spec_stage_ops(i2 - 1, n).len() >= 1);
    }
}

/// In the plan, the controller's close of link `l` comes before the
/// spawn of every stage that sits beyond the two stages adjacent to
/// the link: a stage spawned later can never inherit a descriptor of
/// link `l`.
pub proof fn lemma_parent_close_precedes_later_spawn(n: int, l: int, j: int)
    requires
        1 <= n <= usize::MAX,
        0 <= l,
        l + 2 <= j < n,
    ensures
        exists|a: int, b: int|
            0 <= a < b < spec_plan(n).len() && spec_plan(n)[a] == (Op::CloseLinkInParent {
                link: l as usize,
            }) && spec_plan(n)[b] == (Op::SpawnStage { stage: j as usize }),
{
    let close_op = Op::CloseLinkInParent { link: l as usize };
    let spawn_op = Op::SpawnStage { stage: j as usize };
    let grp = spec_stage_ops(l + 1, n);
    assert(grp.last() == close_op);
    lemma_plan_upto_prefix(0, l + 2, n);
    let a = spec_plan_upto(l + 2, n).len() - 1;
    assert(spec_plan_upto(l + 2, n) == spec_plan_upto(l + 1, n) + grp);
    assert(spec_plan_upto(l + 2, n)[a] == close_op);

    let grp2 = spec_stage_ops(j, n);
    let off: int = if j < n - 1 {
        1
    } else {
        0
    };
    assert(grp2[off] == spawn_op);
    let b = spec_plan_upto(j, n).len() + off;
    assert(spec_plan_upto(j + 1, n) == spec_plan_upto(j, n) + grp2);
    assert(grp2.len() == off + 2);
    assert(spec_plan_upto(j + 1, n)[b] == spawn_op);

    lemma_plan_upto_prefix(l + 2, j, n);
    lemma_plan_upto_prefix(l + 2, n, n);
    lemma_plan_upto_prefix(j + 1, n, n);
    assert(spec_plan(n)[a] == close_op);
    assert(spec_plan(n)[b] == spawn_op);
    assert(0 <= a < b < spec_plan(n).len());
}

/// Computes the controller's ordered operation list for a pipeline of
/// `n` stages.  A single-stage pipeline's plan allocates no pipe.
pub fn build_plan(n: usize) -> (plan: Vec<Op>)
    requires
        1 <= n,
    ensures
        plan@ =~= spec_plan(n as int),
{
    let mut plan: Vec<Op> = Vec::new();
    let mut i: usize = 0;
    while i < n
        invariant
            i <= n,
            plan@ =~= spec_plan_upto(i as int, n as int),
        decreases n - i,
    {
        if i < n - 1 {
            plan.push(Op::CreateLink { link: i });
        }
        plan.push(Op::SpawnStage { stage: i });
        if i > 0 {
            plan.push(Op::CloseLinkInParent { link: i - 1 });
        }
        proof {
            assert(plan@ =~= spec_plan_upto(i + 1, n as int));
        }
        i = i + 1;
    }
    plan
}

} // verus!
