use reth_bench_compare::args::Args;
use reth_bench_compare::benchmark::{benchmark_can_take, BenchmarkState};
use reth_bench_compare::chain::Chain;
use reth_bench_compare::comparison::{
    advance_comparison, begin_query, comparison_can_take, start_comparison, Comparison,
    ComparisonState,
};
use reth_bench_compare::error::{CliError, RefType};
use reth_bench_compare::protocol::{
    event_fits, Action, CliFault, CommandOutput, Event, Expected, Fault, NodeRun, Step, Timestamp,
};
use reth_bench_compare::samply::Serving;
use reth_bench_compare::workflow::Completion;

type Reported = Event<&'static str>;
type Ending = Result<Completion, CliFault<&'static str>>;

const MAINNET_URL: &str = "https://reth-ethereum.ithaca.xyz/rpc";

fn options() -> Args {
    let mut args = Args::new("main".to_string(), "topic".to_string(), "/data".to_string());
    args.blocks = 20;
    args.output_dir = "~/out".to_string();
    args
}

fn owned(s: &str) -> String {
    s.to_string()
}

fn switch(git_ref: &str) -> Action {
    Action::SwitchRef { git_ref: owned(git_ref) }
}

/// Answers an action as a driver would for which everything works.
fn succeed(action: &Action, past: &[Action]) -> Reported {
    match action {
        Action::ReadHome => Event::Home(Some(owned("/home/u"))),
        Action::ReadCurrentRef => Event::Text(owned("work")),
        Action::QueryChainId { .. } => Event::ChainId(1),
        Action::DetectOptimism { .. } => Event::Flag(false),
        Action::ReadCurrentCommit => match past.last() {
            Some(Action::SwitchRef { git_ref }) => Event::Text(format!("commit-of-{}", git_ref)),
            _ => unreachable!(),
        },
        Action::LocateBinary { commit, is_optimism } => {
            Event::Text(format!("/bin/{}-{}", commit, is_optimism))
        }
        Action::CheckExists { .. } => Event::Flag(true),
        Action::AwaitTip => {
            let started = past.iter().filter(|a| matches!(a, Action::StartNode { .. })).count();
            Event::Tip(1000 + started as u64)
        }
        Action::LocateRefOutput { ref_type } => Event::Text(format!("/out/{}", ref_type.name())),
        Action::ReadClock => Event::Time(Timestamp { secs: past.len() as i64, nanos: 0 }),
        Action::LocateReportOutput => Event::Text(owned("/out/report")),
        Action::RunUv { .. } => Event::Output(CommandOutput {
            success: true,
            code: Some(0),
            stdout: Vec::new(),
            stderr: Vec::new(),
        }),
        Action::FindPorts { start_port } => {
            Event::Ports { baseline: *start_port, feature: *start_port + 1 }
        }
        Action::WhichSamply => Event::Output(CommandOutput {
            success: true,
            code: Some(0),
            stdout: b"/bin/samply\n".to_vec(),
            stderr: Vec::new(),
        }),
        _ => Event::Done,
    }
}

/// Runs a comparison to its end. `answer` may give another event than success.
fn compare<F: Fn(&Action, usize) -> Option<Reported>>(
    args: &Args,
    answer: F,
) -> (Vec<Action>, Ending) {
    let (mut state, mut action): (Comparison<&'static str>, Action) = start_comparison();
    let mut past: Vec<Action> = Vec::new();
    loop {
        let event = match answer(&action, past.len()) {
            Some(event) => event,
            None => succeed(&action, &past),
        };
        past.push(action);
        assert!(comparison_can_take(args, &state, &event));
        match advance_comparison(args, state, event) {
            Step::Perform { state: next, action: wanted } => {
                state = next;
                action = wanted;
            }
            Step::Finished(completion) => return (past, Ok(completion)),
            Step::Aborted(fault) => return (past, Err(fault)),
        }
    }
}

fn all_succeed(_: &Action, _: usize) -> Option<Reported> {
    None
}

fn setup_actions() -> Vec<Action> {
    vec![
        Action::CreateProcessGroup,
        Action::OpenRepository,
        Action::FetchAll,
        Action::ReadHome,
        Action::OpenWorkspace { output_dir: owned("/home/u/out") },
        Action::ReadCurrentRef,
        Action::ValidateCleanState,
        Action::ValidateRefs { baseline_ref: owned("main"), feature_ref: owned("topic") },
        Action::QueryChainId { rpc_url: owned(MAINNET_URL) },
        Action::InstallInterruptHandler { original_ref: owned("work") },
        Action::DetectOptimism { rpc_url: owned(MAINNET_URL) },
    ]
}

fn compilation_actions() -> Vec<Action> {
    let compile = |commit: &str| Action::Compile { commit: owned(commit), is_optimism: false };
    vec![
        Action::EnsureRethBench,
        switch("main"),
        Action::ReadCurrentCommit,
        switch("topic"),
        Action::ReadCurrentCommit,
        switch("main"),
        compile("commit-of-main"),
        switch("topic"),
        compile("commit-of-topic"),
    ]
}

fn start_actions(git_ref: &str, run: NodeRun) -> Vec<Action> {
    let commit = format!("commit-of-{}", git_ref);
    let binary = format!("/bin/{}-false", commit);
    vec![
        switch(git_ref),
        Action::LocateBinary { commit, is_optimism: false },
        Action::CheckExists { path: binary.clone() },
        Action::StartNode { binary, git_ref: owned(git_ref), run, args: Vec::new() },
        Action::AwaitTip,
    ]
}

fn warmup_actions() -> Vec<Action> {
    let mut actions = start_actions("main", NodeRun::Warmup);
    actions.extend(vec![
        Action::ClearCaches,
        Action::RunWarmup { tip: 1001 },
        Action::StopNode,
        Action::UnwindTo { block: 1001 },
    ]);
    actions
}

fn benchmark_actions(ref_type: RefType, tip: u64, start: i64) -> Vec<Action> {
    let git_ref = if ref_type == RefType::Baseline { "main" } else { "topic" };
    let output_dir = format!("/out/{}", ref_type.name());
    let time = |secs: i64| Timestamp { secs, nanos: 0 };
    let mut actions = start_actions(git_ref, NodeRun::Benchmark(ref_type));
    actions.extend(vec![
        Action::LocateRefOutput { ref_type },
        Action::ReadClock,
        Action::RunBenchmark {
            from_block: tip,
            to_block: tip + 20,
            output_dir: output_dir.clone(),
        },
        Action::ReadClock,
        Action::StopNode,
        Action::UnwindTo { block: tip },
        Action::AddRefResults { ref_type, output_dir },
        Action::SetRefTimestamps { ref_type, start: time(start), end: time(start + 2) },
    ]);
    actions
}

fn count(actions: &[Action], wanted: &Action) -> usize {
    actions.iter().filter(|action| *action == wanted).count()
}

#[test]
fn a_comparison_goes_through_all_phases_in_order() {
    let (actions, ending) = compare(&options(), all_succeed);
    let mut expected = setup_actions();
    expected.extend(compilation_actions());
    expected.extend(warmup_actions());
    let start = expected.len() as i64 + 6;
    expected.extend(benchmark_actions(RefType::Baseline, 1002, start));
    expected.extend(benchmark_actions(RefType::Feature, 1003, start + 13));
    expected.push(Action::GenerateReport);
    expected.push(switch("work"));
    assert_eq!(actions, expected);
    assert_eq!(ending, Ok(Completion::Compared));
}

#[test]
fn git_validation_can_be_skipped() {
    let mut args = options();
    args.skip_git_validation = true;
    let (actions, ending) = compare(&args, all_succeed);
    assert!(!actions.contains(&Action::ValidateCleanState));
    assert!(!actions.iter().any(|action| matches!(action, Action::ValidateRefs { .. })));
    assert_eq!(actions[6], Action::QueryChainId { rpc_url: owned(MAINNET_URL) });
    assert_eq!(ending, Ok(Completion::Compared));
}

#[test]
fn a_process_group_that_cannot_be_created_is_passed_over() {
    let (_, ending) = compare(&options(), |action, _| {
        matches!(action, Action::CreateProcessGroup).then_some(Event::Failed("no group"))
    });
    assert_eq!(ending, Ok(Completion::Compared));
}

#[test]
fn a_setup_failure_ends_the_comparison_at_once() {
    for position in [1, 2, 4, 5, 6, 7, 9] {
        let (actions, ending) = compare(&options(), |_, at| {
            (at == position).then_some(Event::Failed("broken"))
        });
        assert_eq!(actions[..], setup_actions()[..=position]);
        assert_eq!(ending, Err(Fault::Action("broken")));
    }
}

#[test]
fn a_malformed_url_ends_the_comparison_before_the_query() {
    let mut args = options();
    args.rpc_url = Some(owned("localhost"));
    let (actions, ending) = compare(&args, all_succeed);
    assert_eq!(actions.len(), 8);
    assert_eq!(
        ending,
        Err(Fault::Problem(CliError::InvalidRpcUrl {
            rpc_url: owned("localhost"),
            reason: owned("relative URL without a base"),
        }))
    );
}

#[test]
fn the_query_follows_the_check_of_the_url() {
    let step: Step<Comparison<&'static str>, Action, Completion, CliFault<&'static str>> =
        begin_query(owned("u"), owned("work"), Ok(()));
    assert_eq!(
        step,
        Step::Perform {
            state: ComparisonState::QueryingChainId { original_ref: owned("work") },
            action: Action::QueryChainId { rpc_url: owned("u") },
        }
    );
    let step: Step<Comparison<&'static str>, Action, Completion, CliFault<&'static str>> =
        begin_query(owned("u"), owned("work"), Err(CliError::SamplyNotFound));
    assert_eq!(step, Step::Aborted(Fault::Problem(CliError::SamplyNotFound)));
}

#[test]
fn an_endpoint_of_another_chain_ends_the_comparison() {
    let (actions, ending) = compare(&options(), |action, _| {
        matches!(action, Action::QueryChainId { .. }).then_some(Event::ChainId(10))
    });
    assert_eq!(actions[..], setup_actions()[..9]);
    assert_eq!(
        ending,
        Err(Fault::Problem(CliError::ChainIdMismatch {
            expected: Chain::from_id(1),
            found: 10,
            rpc_url: owned(MAINNET_URL),
        }))
    );
}

#[test]
fn an_endpoint_without_an_answer_ends_the_comparison() {
    let (_, ending) = compare(&options(), |action, _| {
        matches!(action, Action::QueryChainId { .. }).then_some(Event::Reason(owned("Timeout")))
    });
    assert_eq!(
        ending,
        Err(Fault::Problem(CliError::ChainIdUnavailable {
            rpc_url: owned(MAINNET_URL),
            reason: owned("Timeout"),
        }))
    );
}

#[test]
fn every_workflow_failure_leads_to_restoration() {
    let (full, _) = compare(&options(), all_succeed);
    for position in 10..full.len() - 1 {
        let fallible = !matches!(
            full[position],
            Action::CheckExists { .. } | Action::ReadClock
        );
        if fallible {
            let (actions, ending) = compare(&options(), |_, at| {
                (at == position).then_some(Event::Failed("broken"))
            });
            assert_eq!(actions[..=position], full[..=position]);
            assert_eq!(actions[position + 1..], [switch("work")]);
            assert_eq!(ending, Err(Fault::Action("broken")));
        }
    }
}

#[test]
fn a_failed_restoration_takes_precedence() {
    let (_, ending) = compare(&options(), |action, _| match action {
        Action::GenerateReport => Some(Event::Failed("no report")),
        Action::SwitchRef { git_ref } if git_ref == "work" => Some(Event::Failed("no switch")),
        _ => None,
    });
    assert_eq!(ending, Err(Fault::Action("no switch")));
    let (_, ending) = compare(&options(), |action, _| match action {
        Action::SwitchRef { git_ref } if git_ref == "work" => Some(Event::Failed("no switch")),
        _ => None,
    });
    assert_eq!(ending, Err(Fault::Action("no switch")));
}

#[test]
fn a_reference_on_both_sides_is_resolved_once_and_compiled_twice() {
    let mut args = options();
    args.feature_ref = owned("main");
    let (actions, ending) = compare(&args, all_succeed);
    assert_eq!(count(&actions, &Action::ReadCurrentCommit), 1);
    let compile = Action::Compile { commit: owned("commit-of-main"), is_optimism: false };
    assert_eq!(count(&actions, &compile), 2);
    assert_eq!(ending, Ok(Completion::Compared));
}

#[test]
fn the_optimism_node_is_built_and_run_on_an_optimism_chain() {
    let (actions, _) = compare(&options(), |action, _| {
        matches!(action, Action::DetectOptimism { .. }).then_some(Event::Flag(true))
    });
    let compile = Action::Compile { commit: owned("commit-of-topic"), is_optimism: true };
    assert!(actions.contains(&compile));
    let locate = Action::LocateBinary { commit: owned("commit-of-main"), is_optimism: true };
    assert_eq!(count(&actions, &locate), 2);
}

#[test]
fn caches_are_cleared_once_before_the_warmup_unless_disabled() {
    let (actions, _) = compare(&options(), all_succeed);
    assert_eq!(count(&actions, &Action::ClearCaches), 1);
    let at = actions.iter().position(|action| *action == Action::ClearCaches).unwrap();
    assert_eq!(actions[at + 1], Action::RunWarmup { tip: 1001 });

    let mut args = options();
    args.no_clear_cache = true;
    let (actions, _) = compare(&args, all_succeed);
    assert_eq!(count(&actions, &Action::ClearCaches), 0);
    assert_eq!(count(&actions, &Action::RunWarmup { tip: 1001 }), 1);
}

#[test]
fn benchmarks_follow_a_warmup() {
    let (actions, _) = compare(&options(), all_succeed);
    let warmup = actions.iter().position(|a| matches!(a, Action::RunWarmup { .. })).unwrap();
    let first = actions.iter().position(|a| matches!(a, Action::RunBenchmark { .. })).unwrap();
    assert!(warmup < first);

    let (actions, ending) = compare(&options(), |action, _| {
        matches!(action, Action::RunWarmup { .. }).then_some(Event::Failed("no warmup"))
    });
    assert!(!actions.iter().any(|action| matches!(action, Action::RunBenchmark { .. })));
    assert_eq!(ending, Err(Fault::Action("no warmup")));
}

#[test]
fn one_node_runs_at_a_time() {
    let (actions, _) = compare(&options(), all_succeed);
    let mut running = 0;
    for action in &actions {
        match action {
            Action::StartNode { .. } => running += 1,
            Action::StopNode => running -= 1,
            Action::UnwindTo { .. } => assert_eq!(running, 0),
            Action::RunBenchmark { .. } => assert_eq!(running, 1),
            _ => (),
        }
        assert!(running == 0 || running == 1);
    }
    assert_eq!(running, 0);
}

#[test]
fn each_side_gets_its_own_arguments() {
    let mut args = options();
    args.baseline_args = Some(owned("--a 'b c'"));
    args.feature_args = Some(owned("it's off"));
    let (actions, _) = compare(&args, all_succeed);
    let given: Vec<(NodeRun, Vec<String>)> = actions
        .into_iter()
        .filter_map(|action| match action {
            Action::StartNode { run, args, .. } => Some((run, args)),
            _ => None,
        })
        .collect();
    let baseline = vec![owned("--a"), owned("b c")];
    assert_eq!(
        given,
        vec![
            (NodeRun::Warmup, baseline.clone()),
            (NodeRun::Benchmark(RefType::Baseline), baseline),
            (NodeRun::Benchmark(RefType::Feature), vec![owned("it's"), owned("off")]),
        ]
    );
}

#[test]
fn a_missing_binary_stops_the_workflow_and_is_reported() {
    // The warmup, the baseline and the feature each look for their binary.
    for (nth, ref_type, commit) in [
        (0, RefType::Baseline, "main"),
        (1, RefType::Baseline, "main"),
        (2, RefType::Feature, "topic"),
    ] {
        let (full, _) = compare(&options(), all_succeed);
        let position = full
            .iter()
            .enumerate()
            .filter(|(_, action)| matches!(action, Action::CheckExists { .. }))
            .map(|(at, _)| at)
            .nth(nth)
            .unwrap();
        let (actions, ending) =
            compare(&options(), |_, at| (at == position).then_some(Event::Flag(false)));
        assert_eq!(actions.last(), Some(&switch("work")));
        assert_eq!(
            ending,
            Err(Fault::Problem(CliError::MissingBinary {
                ref_type,
                path: format!("/bin/commit-of-{}-false", commit),
            }))
        );
    }
}

#[test]
fn charts_and_profiles_come_after_the_report_if_asked_for() {
    let mut args = options();
    args.draw = true;
    args.profile = true;
    let (actions, ending) = compare(&args, all_succeed);
    assert_eq!(actions[12], Action::EnsureSamply);
    let at = |wanted: &dyn Fn(&Action) -> bool| actions.iter().position(|a| wanted(a)).unwrap();
    let report = at(&|action| *action == Action::GenerateReport);
    let chart = at(&|action| matches!(action, Action::RunUv { .. }));
    let server = at(&|action| matches!(action, Action::SpawnSamply { .. }));
    let kill = at(&|action| *action == Action::KillServers);
    assert!(report < chart && chart < server && server < kill);
    assert_eq!(kill + 2, actions.len());
    assert_eq!(ending, Ok(Completion::Served(Serving::Stopped)));
}

#[test]
fn without_a_home_directory_the_output_directory_stays() {
    let (actions, _) = compare(&options(), |action, _| {
        matches!(action, Action::ReadHome).then_some(Event::Home(None))
    });
    assert_eq!(actions[4], Action::OpenWorkspace { output_dir: owned("~/out") });
}

#[test]
fn neither_charts_nor_profiles_come_unasked() {
    let (actions, _) = compare(&options(), all_succeed);
    assert!(!actions.iter().any(|action| matches!(
        action,
        Action::RunUv { .. } | Action::SpawnSamply { .. } | Action::EnsureSamply
    )));
}

#[test]
fn a_missing_profile_still_completes_the_comparison() {
    let mut args = options();
    args.profile = true;
    let (actions, ending) = compare(&args, |action, _| match action {
        Action::CheckExists { path } if path.ends_with(".json.gz") => Some(Event::Flag(false)),
        _ => None,
    });
    assert_eq!(ending, Ok(Completion::Served(Serving::ProfileMissing(RefType::Baseline))));
    assert_eq!(actions.last(), Some(&switch("work")));
}

#[test]
fn a_failed_chart_leads_to_restoration() {
    let mut args = options();
    args.draw = true;
    args.profile = true;
    let (actions, ending) = compare(&args, |action, _| {
        matches!(action, Action::RunUv { .. }).then_some(Event::Reason(owned("no uv")))
    });
    assert_eq!(ending, Err(Fault::Problem(CliError::ChartLaunch { reason: owned("no uv") })));
    assert_eq!(actions.last(), Some(&switch("work")));
    assert!(!actions.iter().any(|action| matches!(action, Action::SpawnSamply { .. })));
}

#[test]
fn a_range_that_ends_beyond_the_last_block_number_is_not_taken() {
    let args = options();
    let waiting: BenchmarkState<String> = BenchmarkState::AwaitingTip;
    let tip = |n: u64| -> Reported { Event::Tip(n) };
    assert!(benchmark_can_take(&args, &waiting, &tip(u64::MAX - 20)));
    assert!(!benchmark_can_take(&args, &waiting, &tip(u64::MAX - 19)));
    let failed: Reported = Event::Failed("no tip");
    assert!(benchmark_can_take(&args, &waiting, &failed));
    let done: Reported = Event::Done;
    assert!(!benchmark_can_take(&args, &waiting, &done));
}

#[test]
fn events_fit_their_actions_only() {
    let done: Reported = Event::Done;
    let failed: Reported = Event::Failed("x");
    let flag: Reported = Event::Flag(true);
    let said: Reported = Event::Text(owned("x"));
    let clock: Reported = Event::Time(Timestamp { secs: 0, nanos: 0 });
    let id: Reported = Event::ChainId(1);
    let reason: Reported = Event::Reason(owned("x"));
    let no_ports: Reported = Event::NoPorts;
    let home: Reported = Event::Home(None);
    assert!(event_fits(Expected::Home, &home) && !event_fits(Expected::Home, &said));
    assert!(event_fits(Expected::Done, &done) && !event_fits(Expected::Done, &failed));
    assert!(event_fits(Expected::Unit, &done) && event_fits(Expected::Unit, &failed));
    assert!(event_fits(Expected::Flag, &flag) && !event_fits(Expected::Flag, &failed));
    assert!(event_fits(Expected::FallibleFlag, &flag));
    assert!(event_fits(Expected::FallibleFlag, &failed));
    assert!(event_fits(Expected::Text, &said) && event_fits(Expected::Text, &failed));
    assert!(event_fits(Expected::Time, &clock) && !event_fits(Expected::Time, &done));
    assert!(event_fits(Expected::ChainId, &id) && event_fits(Expected::ChainId, &reason));
    assert!(event_fits(Expected::Script, &reason) && !event_fits(Expected::Script, &failed));
    assert!(event_fits(Expected::Command, &failed) && !event_fits(Expected::Command, &reason));
    assert!(event_fits(Expected::Ports, &no_ports) && !event_fits(Expected::Ports, &done));
}
