//! Descriptor wiring for pipeline stages.
//!
//! For a pipeline of `n` stages, adjacent stages are connected by pipe
//! links; link `i` carries the output of stage `i` into stage `i + 1`.
//! `wire_plan` computes, from a stage's index and the stage count
//! alone, which link feeds the stage's standard input and which link
//! receives its standard output.

use vstd::prelude::*;

verus! {

/// Where a stage's standard descriptors are wired: `stdin_source` is
/// the index of the link whose read end becomes standard input,
/// `stdout_sink` the index of the link whose write end becomes
/// standard output.  `None` means the descriptor is inherited.
#[derive(PartialEq, Eq, Structural, Clone, Copy, Debug)]
pub struct WirePlan {
    pub stdin_source: Option<usize>,
    pub stdout_sink: Option<usize>,
}

/// The wiring of stage `i` in a pipeline of `n` stages: every stage
/// but the first reads from link `i - 1`, every stage but the last
/// writes to link `i`.
pub open spec fn spec_wire_plan(i: int, n: int) -> WirePlan {
    WirePlan {
        stdin_source: if i > 0 { Some((i - 1) as usize) } else { None },
        stdout_sink: if i < n - 1 { Some(i as usize) } else { None },
    }
}

/// Computes the descriptor wiring of stage `i` in a pipeline of `n`
/// stages, before any process is spawned.
pub fn wire_plan(i: usize, n: usize) -> (plan: WirePlan)
    requires
        i < n,
    ensures
        plan == spec_wire_plan(i as int, n as int),
{
    WirePlan {
        stdin_source: if i > 0 { Some(i - 1) } else { None },
        stdout_sink: if i < n - 1 { Some(i) } else { None },
    }
}

/// One of the two descriptors of a pipe link.
#[derive(Debug, Clone, Copy, PartialEq, Eq, Structural)]
pub enum PipeEnd {
    ReadEnd,
    WriteEnd,
}

/// A single pipe-link descriptor, named by its link and its end.
#[derive(Debug, Clone, Copy, PartialEq, Eq, Structural)]
pub struct Desc {
    pub link: usize,
    pub end: PipeEnd,
}

/// One descriptor operation a child performs before executing its
/// command: duplicate a pipe descriptor onto a standard slot, or
/// close an original pipe descriptor it no longer needs.
#[derive(Debug, Clone, Copy, PartialEq, Eq, Structural)]
pub enum FdStep {
    DupToStdin { src: Desc },
    DupToStdout { src: Desc },
    CloseDesc { target: Desc },
}

/// The descriptor steps of the child of stage `i` in a pipeline of
/// `n` stages: wire standard input and output according to the
/// stage's position, then close every original pipe descriptor the
/// child inherited.  The child of a single-stage pipeline performs no
/// step.
pub open spec fn spec_child_steps(i: int, n: int) -> Seq<FdStep> {
    if n == 1 {
        Seq::empty()
    } else if i == 0 {
        seq![
            FdStep::DupToStdout { src: Desc { link: 0, end: PipeEnd::WriteEnd } },
            FdStep::CloseDesc { target: Desc { link: 0, end: PipeEnd::ReadEnd } },
            FdStep::CloseDesc { target: Desc { link: 0, end: PipeEnd::WriteEnd } },
        ]
    } else if i == n - 1 {
        seq![
            FdStep::DupToStdin { src: Desc { link: (i - 1) as usize, end: PipeEnd::ReadEnd } },
            FdStep::CloseDesc { target: Desc { link: (i - 1) as usize, end: PipeEnd::ReadEnd } },
            FdStep::CloseDesc { target: Desc { link: (i - 1) as usize, end: PipeEnd::WriteEnd } },
        ]
    } else {
        seq![
            FdStep::DupToStdin { src: Desc { link: (i - 1) as usize, end: PipeEnd::ReadEnd } },
            FdStep::CloseDesc { target: Desc { link: (i - 1) as usize, end: PipeEnd::ReadEnd } },
            FdStep::CloseDesc { target: Desc { link: (i - 1) as usize, end: PipeEnd::WriteEnd } },
            FdStep::DupToStdout { src: Desc { link: i as usize, end: PipeEnd::WriteEnd } },
            FdStep::CloseDesc { target: Desc { link: i as usize, end: PipeEnd::ReadEnd } },
            FdStep::CloseDesc { target: Desc { link: i as usize, end: PipeEnd::WriteEnd } },
        ]
    }
}

/// Whether the child of stage `i` inherits the descriptors of link
/// `l` at the moment it is spawned: exactly the links adjacent to the
/// stage, since the controller has already closed every earlier link.
pub open spec fn spec_child_inherits(i: int, n: int, l: int) -> bool {
    (i > 0 && l == i - 1) || (i < n - 1 && l == i)
}

/// How many times the steps close descriptor `d`.
pub open spec fn spec_count_closes_of_desc(steps: Seq<FdStep>, d: Desc) -> nat
    decreases steps.len(),
{
    if steps.len() == 0 {
        0
    } else {
        spec_count_closes_of_desc(steps.drop_last(), d) + (if steps.last() == (FdStep::CloseDesc {
            target: d,
        }) {
            1nat
        } else {
            0nat
        })
    }
}

/// How many times the steps duplicate descriptor `d` onto standard
/// input.
pub open spec fn spec_count_dups_stdin(steps: Seq<FdStep>, d: Desc) -> nat
    decreases steps.len(),
{
    if steps.len() == 0 {
        0
    } else {
        spec_count_dups_stdin(steps.drop_last(), d) + (if steps.last() == (FdStep::DupToStdin {
            src: d,
        }) {
            1nat
        } else {
            0nat
        })
    }
}

/// How many times the steps duplicate descriptor `d` onto standard
/// output.
pub open spec fn spec_count_dups_stdout(steps: Seq<FdStep>, d: Desc) -> nat
    decreases steps.len(),
{
    if steps.len() == 0 {
        0
    } else {
        spec_count_dups_stdout(steps.drop_last(), d) + (if steps.last() == (FdStep::DupToStdout {
            src: d,
        }) {
            1nat
        } else {
            0nat
        })
    }
}

/// The descriptor a step closes, if it is a close step.
pub open spec fn spec_step_close_target(s: FdStep) -> Option<Desc> {
    match s {
        FdStep::CloseDesc { target } => Some(target),
        _ => None,
    }
}

/// The descriptor a step duplicates from, if it is a duplication step.
pub open spec fn spec_step_dup_src(s: FdStep) -> Option<Desc> {
    match s {
        FdStep::DupToStdin { src } => Some(src),
        FdStep::DupToStdout { src } => Some(src),
        _ => None,
    }
}

proof fn lemma_counts_push(s: Seq<FdStep>, x: FdStep, d: Desc)
    ensures
        spec_count_closes_of_desc(s.push(x), d) == spec_count_closes_of_desc(s, d) + (if x
            == (FdStep::CloseDesc { target: d }) {
            1nat
        } else {
            0nat
        }),
        spec_count_dups_stdin(s.push(x), d) == spec_count_dups_stdin(s, d) + (if x
            == (FdStep::DupToStdin { src: d }) {
            1nat
        } else {
            0nat
        }),
        spec_count_dups_stdout(s.push(x), d) == spec_count_dups_stdout(s, d) + (if x
            == (FdStep::DupToStdout { src: d }) {
            1nat
        } else {
            0nat
        }),
{
    assert(s.push(x).drop_last() =~= s);
    assert(s.push(x).last() == x);
}

proof fn lemma_counts_of_steps(i: int, n: int, d: Desc)
    requires
        0 <= i < n <= usize::MAX,
    ensures
        spec_count_closes_of_desc(spec_child_steps(i, n), d) == if spec_child_inherits(
            i,
            n,
            d.link as int,
        ) {
            1nat
        } else {
            0nat
        },
        spec_count_dups_stdin(spec_child_steps(i, n), d) == if spec_wire_plan(
            i,
            n,
        ).stdin_source == Some(d.link) && d.end is ReadEnd {
            1nat
        } else {
            0nat
        },
        spec_count_dups_stdout(spec_child_steps(i, n), d) == if spec_wire_plan(
            i,
            n,
        ).stdout_sink == Some(d.link) && d.end is WriteEnd {
            1nat
        } else {
            0nat
        },
{
    let steps = spec_child_steps(i, n);
    let s0 = Seq::<FdStep>::empty();
    if n == 1 {
        assert(steps =~= s0);
    } else if i == 0 {
        let x0 = FdStep::DupToStdout { src: Desc { link: 0, end: PipeEnd::WriteEnd } };
        let x1 = FdStep::CloseDesc { target: Desc { link: 0, end: PipeEnd::ReadEnd } };
        let x2 = FdStep::CloseDesc { target: Desc { link: 0, end: PipeEnd::WriteEnd } };
        assert(steps =~= s0.push(x0).push(x1).push(x2));
        lemma_counts_push(s0, x0, d);
        lemma_counts_push(s0.push(x0), x1, d);
        lemma_counts_push(s0.push(x0).push(x1), x2, d);
    } else if i == n - 1 {
        let x0 = FdStep::DupToStdin {
            src: Desc { link: (i - 1) as usize, end: PipeEnd::ReadEnd },
        };
        let x1 = FdStep::CloseDesc {
            target: Desc { link: (i - 1) as usize, end: PipeEnd::ReadEnd },
        };
        let x2 = FdStep::CloseDesc {
            target: Desc { link: (i - 1) as usize, end: PipeEnd::WriteEnd },
        };
        assert(steps =~= s0.push(x0).push(x1).push(x2));
        lemma_counts_push(s0, x0, d);
        lemma_counts_push(s0.push(x0), x1, d);
        lemma_counts_push(s0.push(x0).push(x1), x2, d);
    } else {
        let x0 = FdStep::DupToStdin {
            src: Desc { link: (i - 1) as usize, end: PipeEnd::ReadEnd },
        };
        let x1 = FdStep::CloseDesc {
            target: Desc { link: (i - 1) as usize, end: PipeEnd::ReadEnd },
        };
        let x2 = FdStep::CloseDesc {
            target: Desc { link: (i - 1) as usize, end: PipeEnd::WriteEnd },
        };
        let x3 = FdStep::DupToStdout { src: Desc { link: i as usize, end: PipeEnd::WriteEnd } };
        let x4 = FdStep::CloseDesc { target: Desc { link: i as usize, end: PipeEnd::ReadEnd } };
        let x5 = FdStep::CloseDesc { target: Desc { link: i as usize, end: PipeEnd::WriteEnd } };
        assert(steps =~= s0.push(x0).push(x1).push(x2).push(x3).push(x4).push(x5));
        lemma_counts_push(s0, x0, d);
        lemma_counts_push(s0.push(x0), x1, d);
        lemma_counts_push(s0.push(x0).push(x1), x2, d);
        lemma_counts_push(s0.push(x0).push(x1).push(x2), x3, d);
        lemma_counts_push(s0.push(x0).push(x1).push(x2).push(x3), x4, d);
        lemma_counts_push(s0.push(x0).push(x1).push(x2).push(x3).push(x4), x5, d);
    }
}

/// The child's steps close each inherited descriptor exactly once
/// and no other; they duplicate onto standard input exactly the read
/// end the wiring plan names, onto standard output exactly the write
/// end it names; and no descriptor is duplicated after it has been
/// closed.
pub proof fn lemma_child_steps_discipline(i: int, n: int)
    requires
        0 <= i < n <= usize::MAX,
    ensures
        forall|d: Desc|
            #[trigger] spec_count_closes_of_desc(spec_child_steps(i, n), d)
                == if spec_child_inherits(i, n, d.link as int) {
                1nat
            } else {
                0nat
            },
        forall|d: Desc|
            #[trigger] spec_count_dups_stdin(spec_child_steps(i, n), d) == if spec_wire_plan(
                i,
                n,
            ).stdin_source == Some(d.link) && d.end is ReadEnd {
                1nat
            } else {
                0nat
            },
        forall|d: Desc|
            #[trigger] spec_count_dups_stdout(spec_child_steps(i, n), d) == if spec_wire_plan(
                i,
                n,
            ).stdout_sink == Some(d.link) && d.end is WriteEnd {
                1nat
            } else {
                0nat
            },
        forall|k1: int, k2: int|
            0 <= k1 < k2 < spec_child_steps(i, n).len() && #[trigger] spec_step_dup_src(
                spec_child_steps(i, n)[k2],
            ) is Some ==> spec_step_dup_src(spec_child_steps(i, n)[k2])
                != #[trigger] spec_step_close_target(spec_child_steps(i, n)[k1]),
{
    assert forall|d: Desc| #[trigger]
        spec_count_closes_of_desc(spec_child_steps(i, n), d) == if spec_child_inherits(
        i,
        n,
        d.link as int,
    ) {
        1nat
    } else {
        0nat
    } by {
        lemma_counts_of_steps(i, n, d);
    }
    assert forall|d: Desc| #[trigger]
        spec_count_dups_stdin(spec_child_steps(i, n), d) == if spec_wire_plan(
        i,
        n,
    ).stdin_source == Some(d.link) && d.end is ReadEnd {
        1nat
    } else {
        0nat
    } by {
        lemma_counts_of_steps(i, n, d);
    }
    assert forall|d: Desc| #[trigger]
        spec_count_dups_stdout(spec_child_steps(i, n), d) == if spec_wire_plan(
        i,
        n,
    ).stdout_sink == Some(d.link) && d.end is WriteEnd {
        1nat
    } else {
        0nat
    } by {
        lemma_counts_of_steps(i, n, d);
    }
}

/// Computes the child's ordered descriptor steps for stage `i` of a
/// pipeline of `n` stages.
pub fn child_fd_steps(i: usize, n: usize) -> (steps: Vec<FdStep>)
    requires
        i < n,
    ensures
        steps@ =~= spec_child_steps(i as int, n as int),
{
    let mut steps: Vec<FdStep> = Vec::new();
    if n == 1 {
        return steps;
    }
    if i > 0 {
        steps.push(FdStep::DupToStdin { src: Desc { link: i - 1, end: PipeEnd::ReadEnd } });
        steps.push(FdStep::CloseDesc { target: Desc { link: i - 1, end: PipeEnd::ReadEnd } });
        steps.push(FdStep::CloseDesc { target: Desc { link: i - 1, end: PipeEnd::WriteEnd } });
    }
    if i < n - 1 {
        steps.push(FdStep::DupToStdout { src: Desc { link: i, end: PipeEnd::WriteEnd } });
        steps.push(FdStep::CloseDesc { target: Desc { link: i, end: PipeEnd::ReadEnd } });
        steps.push(FdStep::CloseDesc { target: Desc { link: i, end: PipeEnd::WriteEnd } });
    }
    steps
}

} // verus!
