use stdlinux::errors::{PipelineError, FAILED_CHILD_STATUS};
use stdlinux::pipes::{apply_child_wiring, close_parent_link, create_pipe_link, PipeLink};
use stdlinux::plan::{build_plan, Op};
use stdlinux::reaper::{
    command_not_found_message, format_report, reap_children, ReapReport, WaitOutcome,
};
use stdlinux::render::i32_to_string;
use stdlinux::redirect::{parse_redirect_info, RedirectMode};
use stdlinux::stage::{slice_vec_with_str, slice_with_positions, split_stages, Stage};
use stdlinux::wiring::{child_fd_steps, wire_plan, Desc, FdStep, PipeEnd};

fn tokens(words: &[&str]) -> Vec<String> {
    words.iter().map(|w| w.to_string()).collect()
}

fn stage(words: &[&str]) -> Stage {
    Stage { tokens: tokens(words) }
}

#[test]
fn split_no_delimiter_is_identity() {
    let input = tokens(&["echo", "hi"]);
    let stages = split_stages(input.clone(), "|").unwrap();
    assert_eq!(stages.len(), 1);
    assert_eq!(stages[0].tokens, input);
}

#[test]
fn split_two_stages() {
    let input = tokens(&["printf", "a\nb\nc", "|", "wc", "-l"]);
    let stages = split_stages(input, "|").unwrap();
    assert_eq!(stages.len(), 2);
    assert_eq!(stages[0].tokens, tokens(&["printf", "a\nb\nc"]));
    assert_eq!(stages[1].tokens, tokens(&["wc", "-l"]));
}

#[test]
fn split_three_stages() {
    let input = tokens(&["a", "x", "|", "b", "|", "c", "y", "z"]);
    let stages = split_stages(input, "|").unwrap();
    assert_eq!(stages.len(), 3);
    assert_eq!(stages[0].tokens, tokens(&["a", "x"]));
    assert_eq!(stages[1].tokens, tokens(&["b"]));
    assert_eq!(stages[2].tokens, tokens(&["c", "y", "z"]));
}

#[test]
fn split_leading_delimiter_is_empty_stage() {
    let r = split_stages(tokens(&["|", "b"]), "|");
    assert_eq!(r, Err(PipelineError::EmptyStageError { stage: 0 }));
}

#[test]
fn split_doubled_delimiter_is_empty_stage() {
    let r = split_stages(tokens(&["a", "|", "|", "b"]), "|");
    assert_eq!(r, Err(PipelineError::EmptyStageError { stage: 1 }));
}

#[test]
fn split_trailing_delimiter_is_empty_stage() {
    let r = split_stages(tokens(&["a", "|"]), "|");
    assert_eq!(r, Err(PipelineError::EmptyStageError { stage: 1 }));
}

#[test]
fn split_requires_exact_delimiter_token() {
    let input = tokens(&["a|b", "c"]);
    let stages = split_stages(input.clone(), "|").unwrap();
    assert_eq!(stages.len(), 1);
    assert_eq!(stages[0].tokens, input);
}

#[test]
fn split_with_other_delimiter() {
    let stages = split_stages(tokens(&["a", ";", "b"]), ";").unwrap();
    assert_eq!(stages.len(), 2);
    assert_eq!(stages[0].tokens, tokens(&["a"]));
    assert_eq!(stages[1].tokens, tokens(&["b"]));
}

#[test]
fn slice_vec_discards_matches() {
    let pieces = slice_vec_with_str(&tokens(&["a", "|", "b"]), "|");
    assert_eq!(pieces, vec![tokens(&["a"]), tokens(&["b"])]);
}

#[test]
fn slice_with_positions_cuts_out_positions() {
    let pieces = slice_with_positions(&tokens(&["a", "b", "c", "d"]), vec![1usize, 3usize]);
    assert_eq!(pieces, vec![tokens(&["a"]), tokens(&["c"]), vec![]]);
}

#[test]
fn redirect_truncate_is_extracted() {
    let stages = vec![stage(&["cat", "x", ">", "/tmp/out"])];
    let (stages, spec) = parse_redirect_info(stages);
    let spec = spec.unwrap();
    assert_eq!(spec.path, "/tmp/out");
    assert_eq!(spec.mode, RedirectMode::Truncate);
    assert_eq!(stages[0].tokens, tokens(&["cat", "x"]));
}

#[test]
fn redirect_append_is_extracted() {
    let stages = vec![stage(&["cat", "x", ">>", "/tmp/out"])];
    let (stages, spec) = parse_redirect_info(stages);
    let spec = spec.unwrap();
    assert_eq!(spec.path, "/tmp/out");
    assert_eq!(spec.mode, RedirectMode::Append);
    assert_eq!(stages[0].tokens, tokens(&["cat", "x"]));
}

#[test]
fn redirect_short_stage_is_untouched() {
    let stages = vec![stage(&[">", "/tmp/out"])];
    let (stages, spec) = parse_redirect_info(stages);
    assert!(spec.is_none());
    assert_eq!(stages[0].tokens, tokens(&[">", "/tmp/out"]));
}

#[test]
fn redirect_without_operator_is_untouched() {
    let stages = vec![stage(&["echo", "a", "b"])];
    let (stages, spec) = parse_redirect_info(stages);
    assert!(spec.is_none());
    assert_eq!(stages[0].tokens, tokens(&["echo", "a", "b"]));
}

#[test]
fn redirect_only_touches_last_stage() {
    let stages = vec![stage(&["a", ">", "x"]), stage(&["b", "c", "d"])];
    let (stages, spec) = parse_redirect_info(stages);
    assert!(spec.is_none());
    assert_eq!(stages[0].tokens, tokens(&["a", ">", "x"]));
    assert_eq!(stages[1].tokens, tokens(&["b", "c", "d"]));
}

#[test]
fn plan_single_stage_has_no_pipe() {
    let plan = build_plan(1);
    assert_eq!(plan, vec![Op::SpawnStage { stage: 0 }]);
}

#[test]
fn plan_two_stages() {
    let plan = build_plan(2);
    assert_eq!(
        plan,
        vec![
            Op::CreateLink { link: 0 },
            Op::SpawnStage { stage: 0 },
            Op::SpawnStage { stage: 1 },
            Op::CloseLinkInParent { link: 0 },
        ]
    );
}

#[test]
fn plan_three_stages_counts() {
    let plan = build_plan(3);
    let spawns = plan
        .iter()
        .filter(|op| matches!(op, Op::SpawnStage { .. }))
        .count();
    let creates = plan
        .iter()
        .filter(|op| matches!(op, Op::CreateLink { .. }))
        .count();
    let closes = plan
        .iter()
        .filter(|op| matches!(op, Op::CloseLinkInParent { .. }))
        .count();
    assert_eq!(spawns, 3);
    assert_eq!(creates, 2);
    assert_eq!(closes, 2);
}

#[test]
fn wire_plan_positions() {
    let single = wire_plan(0, 1);
    assert_eq!(single.stdin_source, None);
    assert_eq!(single.stdout_sink, None);

    let first = wire_plan(0, 3);
    assert_eq!(first.stdin_source, None);
    assert_eq!(first.stdout_sink, Some(0));

    let interior = wire_plan(1, 3);
    assert_eq!(interior.stdin_source, Some(0));
    assert_eq!(interior.stdout_sink, Some(1));

    let last = wire_plan(2, 3);
    assert_eq!(last.stdin_source, Some(1));
    assert_eq!(last.stdout_sink, None);
}

#[test]
fn child_steps_single_stage_is_empty() {
    assert!(child_fd_steps(0, 1).is_empty());
}

#[test]
fn child_steps_interior_stage() {
    let steps = child_fd_steps(1, 3);
    assert_eq!(
        steps,
        vec![
            FdStep::DupToStdin { src: Desc { link: 0, end: PipeEnd::ReadEnd } },
            FdStep::CloseDesc { target: Desc { link: 0, end: PipeEnd::ReadEnd } },
            FdStep::CloseDesc { target: Desc { link: 0, end: PipeEnd::WriteEnd } },
            FdStep::DupToStdout { src: Desc { link: 1, end: PipeEnd::WriteEnd } },
            FdStep::CloseDesc { target: Desc { link: 1, end: PipeEnd::ReadEnd } },
            FdStep::CloseDesc { target: Desc { link: 1, end: PipeEnd::WriteEnd } },
        ]
    );
}

#[test]
fn child_steps_first_and_last_of_two() {
    let first = child_fd_steps(0, 2);
    assert_eq!(
        first,
        vec![
            FdStep::DupToStdout { src: Desc { link: 0, end: PipeEnd::WriteEnd } },
            FdStep::CloseDesc { target: Desc { link: 0, end: PipeEnd::ReadEnd } },
            FdStep::CloseDesc { target: Desc { link: 0, end: PipeEnd::WriteEnd } },
        ]
    );
    let last = child_fd_steps(1, 2);
    assert_eq!(
        last,
        vec![
            FdStep::DupToStdin { src: Desc { link: 0, end: PipeEnd::ReadEnd } },
            FdStep::CloseDesc { target: Desc { link: 0, end: PipeEnd::ReadEnd } },
            FdStep::CloseDesc { target: Desc { link: 0, end: PipeEnd::WriteEnd } },
        ]
    );
}

#[test]
fn pipe_link_can_be_created_and_closed_once() {
    let link = create_pipe_link(0).unwrap();
    assert!(link.read_fd >= 0);
    assert!(link.write_fd >= 0);
    assert_ne!(link.read_fd, link.write_fd);
    assert!(close_parent_link(&link).is_ok());
    assert!(close_parent_link(&link).is_err());
}

#[test]
fn single_stage_child_wiring_cannot_fail() {
    let links: Vec<PipeLink> = vec![];
    assert!(apply_child_wiring(0, 1, &links).is_ok());
}

#[test]
fn pipe_creation_error_carries_link_index() {
    match create_pipe_link(7) {
        Ok(link) => {
            close_parent_link(&link).unwrap();
        }
        Err(PipelineError::PipeCreationError { link, .. }) => {
            assert_eq!(link, 7);
        }
        Err(other) => panic!("unexpected error: {:?}", other),
    }
}

#[test]
fn reap_no_children_reports_nothing() {
    let reports = reap_children(&vec![]).unwrap();
    assert!(reports.is_empty());
}

#[test]
fn reap_unknown_pid_fails_on_first_stage() {
    let r = reap_children(&vec![i32::MAX]);
    match r {
        Err(PipelineError::WaitError { stage, .. }) => assert_eq!(stage, 0),
        other => panic!("unexpected result: {:?}", other),
    }
}

#[test]
fn decimal_rendering_exact() {
    assert_eq!(i32_to_string(0), "0");
    assert_eq!(i32_to_string(7), "7");
    assert_eq!(i32_to_string(42), "42");
    assert_eq!(i32_to_string(2147483647), "2147483647");
    assert_eq!(i32_to_string(-1), "-1");
    assert_eq!(i32_to_string(-2147483648), "-2147483648");
}

#[test]
fn report_lines_exact() {
    let exited = ReapReport { stage: 0, outcome: WaitOutcome::Exited { pid: 123, status: 0 } };
    assert_eq!(format_report(&exited), "child (PID=123) finished: exit, status=0");
    let signaled = ReapReport { stage: 1, outcome: WaitOutcome::Signaled { pid: 45, signal: 9 } };
    assert_eq!(format_report(&signaled), "child (PID=45) finished: signal, sig=9");
    let abnormal = ReapReport { stage: 2, outcome: WaitOutcome::Abnormal };
    assert_eq!(format_report(&abnormal), "abnormal exit");
}

#[test]
fn error_messages_exact() {
    assert_eq!(
        PipelineError::EmptyStageError { stage: 1 }.message(),
        "empty stage at index 1"
    );
    assert_eq!(
        PipelineError::PipeCreationError { link: 0, errno: 24 }.message(),
        "pipe creation failed for link 0, errno 24"
    );
    assert_eq!(
        PipelineError::SpawnError { stage: 2, errno: 11 }.message(),
        "spawn failed for stage 2, errno 11"
    );
    assert_eq!(
        PipelineError::DescriptorWireError { errno: 9 }.message(),
        "descriptor wiring failed, errno 9"
    );
    assert_eq!(
        PipelineError::WaitError { stage: 0, errno: 10 }.message(),
        "wait failed for stage 0, errno 10"
    );
}

#[test]
fn command_not_found_names_the_command() {
    assert_eq!(
        command_not_found_message("definitely_not_a_binary"),
        "definitely_not_a_binary: command not found"
    );
    assert_eq!(FAILED_CHILD_STATUS, 1);
}
