//! The course of a comparison from its first action to its last: which action comes at which
//! place, and what ends the comparison there.
//!
//! A place is counted from the start, so that the action at place `n` is the one that is pending
//! after `n` events.

use vstd::prelude::*;
use crate::args::ArgsView;
use crate::benchmark::{BenchmarkState, BenchmarkStepView};
use crate::charts::{chart_path, latency_table, script_verdict, ChartState, ChartStepView};
use crate::comparison::{ComparisonState, ComparisonStepView, Outcome};
use crate::compilation::{Commits, CompilationState, CompilationStepView};
use crate::error::{Problem, RefType};
use crate::history::{admissible, after, pending};
use crate::protocol::{Act, ActionView, Context, EventView, Fault, FaultView, Reply, Step};
use crate::samply::{samply_path_verdict, SamplyState, SamplyStepView, Serving};
use crate::scripts::{
    benchmark_admissible, benchmark_after, benchmark_script, charting_admissible, charting_after,
    charting_script, compilation_admissible, compilation_after, compilation_script,
    law_benchmark_follows_its_script, law_charting_follows_its_script,
    law_compilation_follows_its_script, law_serving_follows_its_script,
    law_warmup_follows_its_script, resolved_commits, serving_admissible, serving_after,
    serving_script, warmup_admissible, warmup_after, warmup_script,
};
use crate::warmup::{WarmupState, WarmupStepView};
use crate::workflow::{Completion, WorkflowState};

verus! {

/// The place at which the workflow begins, with the question whether the chain is an Optimism
/// chain.
pub open spec fn workflow_from(args: ArgsView) -> nat {
    if args.skip_git_validation {
        8
    } else {
        10
    }
}

/// The place at which the compilation phase begins.
pub open spec fn compilation_from(args: ArgsView) -> nat {
    workflow_from(args) + 1
}

/// The place at which the warmup phase begins.
pub open spec fn warmup_from(args: ArgsView) -> nat {
    let tools: nat = if args.profile {
        2
    } else {
        1
    };
    let resolving: nat = if args.feature_ref == args.baseline_ref {
        2
    } else {
        4
    };
    compilation_from(args) + tools + resolving + 4
}

/// The place at which the benchmark of a side begins.
pub open spec fn benchmark_from(args: ArgsView, side: RefType) -> nat {
    let warmup: nat = if args.no_clear_cache {
        8
    } else {
        9
    };
    match side {
        RefType::Baseline => warmup_from(args) + warmup,
        RefType::Feature => warmup_from(args) + warmup + 13,
    }
}

/// The place of the report.
pub open spec fn report_at(args: ArgsView) -> nat {
    benchmark_from(args, RefType::Feature) + 13
}

/// The place at which the charts begin, if they are asked for.
pub open spec fn charts_from(args: ArgsView) -> nat {
    report_at(args) + 1
}

/// The place at which the profile servers begin, if they are asked for.
pub open spec fn serving_from(args: ArgsView) -> nat {
    if args.draw {
        charts_from(args) + 6
    } else {
        charts_from(args)
    }
}

/// The endpoint that is asked: the given one, or that of the chain.
pub open spec fn endpoint(args: ArgsView) -> Seq<char> {
    match args.rpc_url {
        Some(url) => url,
        None => crate::chain::default_rpc_url(args.chain.id),
    }
}

/// Whether the endpoint said that it serves an Optimism chain.
pub open spec fn optimism_answer<E>(args: ArgsView, events: Seq<EventView<E>>) -> bool {
    events[workflow_from(args) as int]->Flag_0
}

/// The commits that the references were resolved to.
pub open spec fn commits_found<E>(args: ArgsView, events: Seq<EventView<E>>) -> Commits<
    Seq<char>,
> {
    resolved_commits(args, events.skip(compilation_from(args) as int))
}

/// The action at the place that the events lead to, if nothing has ended the comparison.
pub open spec fn course_action<E>(args: ArgsView, events: Seq<EventView<E>>) -> ActionView {
    let n = events.len() as int;
    if n == 0 {
        Act::CreateProcessGroup
    } else if n == 1 {
        Act::OpenRepository
    } else if n == 2 {
        Act::FetchAll
    } else if n == 3 {
        Act::ReadHome
    } else if n == 4 {
        Act::OpenWorkspace { output_dir: args.expanded_output_dir(events[3]->Home_0) }
    } else if n == 5 {
        Act::ReadCurrentRef
    } else if n == 6 && !args.skip_git_validation {
        Act::ValidateCleanState
    } else if n == 7 && !args.skip_git_validation {
        Act::ValidateRefs { baseline_ref: args.baseline_ref, feature_ref: args.feature_ref }
    } else if n == workflow_from(args) - 2 {
        Act::QueryChainId { rpc_url: endpoint(args) }
    } else if n == workflow_from(args) - 1 {
        Act::InstallInterruptHandler { original_ref: events[5]->Text_0 }
    } else if n == workflow_from(args) {
        Act::DetectOptimism { rpc_url: endpoint(args) }
    } else if n < warmup_from(args) {
        let from = compilation_from(args) as int;
        compilation_script(args, optimism_answer(args, events), events.skip(from))[n - from]
    } else if n < benchmark_from(args, RefType::Baseline) {
        let from = warmup_from(args) as int;
        warmup_script(
            args,
            optimism_answer(args, events),
            commits_found(args, events).baseline,
            events.skip(from),
        )[n - from]
    } else if n < benchmark_from(args, RefType::Feature) {
        let from = benchmark_from(args, RefType::Baseline) as int;
        benchmark_script(
            args,
            RefType::Baseline,
            optimism_answer(args, events),
            commits_found(args, events).baseline,
            events.skip(from),
        )[n - from]
    } else if n < report_at(args) {
        let from = benchmark_from(args, RefType::Feature) as int;
        benchmark_script(
            args,
            RefType::Feature,
            optimism_answer(args, events),
            commits_found(args, events).feature,
            events.skip(from),
        )[n - from]
    } else if n == report_at(args) {
        Act::GenerateReport
    } else if n < serving_from(args) {
        let from = charts_from(args) as int;
        charting_script(events.skip(from))[n - from]
    } else {
        let from = serving_from(args) as int;
        serving_script(args, events.skip(from))[n - from]
    }
}

/// The fault that ends the comparison before the workflow, at the last event.
pub open spec fn setup_fault<E>(args: ArgsView, events: Seq<EventView<E>>) -> Option<
    FaultView<E>,
> {
    let n = events.len() as int;
    if n < 2 || n > workflow_from(args) {
        None
    } else if let Reply::Failed(e) = events.last() {
        Some(Fault::Action(e))
    } else if n == workflow_from(args) - 2 {
        match crate::outside::url_error(endpoint(args)) {
            Some(reason) => Some(
                Fault::Problem(Problem::InvalidRpcUrl { rpc_url: endpoint(args), reason }),
            ),
            None => None,
        }
    } else if n == workflow_from(args) - 1 {
        match events.last() {
            Reply::ChainId(found) => if found == args.chain.id {
                None
            } else {
                Some(
                    Fault::Problem(
                        Problem::ChainIdMismatch {
                            expected: args.chain,
                            found,
                            rpc_url: endpoint(args),
                        },
                    ),
                )
            },
            _ => Some(
                Fault::Problem(
                    Problem::ChainIdUnavailable {
                        rpc_url: endpoint(args),
                        reason: events.last()->Reason_0,
                    },
                ),
            ),
        }
    } else {
        None
    }
}

/// How a failed action of the workflow is reported: as it is, or with what it was part of.
pub open spec fn reported_failure<E>(args: ArgsView, place: int, e: E) -> FaultView<E> {
    if place < serving_from(args) {
        Fault::Action(e)
    } else if place == serving_from(args) + 4 {
        Fault::Wrapped(Context::WhichSamply, e)
    } else if place == serving_from(args) + 5 {
        Fault::Wrapped(Context::SpawnSamply(RefType::Baseline), e)
    } else {
        Fault::Wrapped(Context::SpawnSamply(RefType::Feature), e)
    }
}

/// How something that is not there ends the workflow at a place, if it is looked for there.
pub open spec fn missing_at<E>(args: ArgsView, events: Seq<EventView<E>>, place: int) -> Option<
    Outcome<FaultView<E>>,
> {
    let binary = |side: RefType|
        Some(
            Outcome::Faulted(
                Fault::Problem(
                    Problem::MissingBinary { ref_type: side, path: events[place - 1]->Text_0 },
                ),
            ),
        );
    let table = |side: RefType, at: int|
        Some(
            Outcome::Faulted(
                Fault::Problem(
                    Problem::MissingCsv { ref_type: side, path: latency_table(events[at]->Text_0) },
                ),
            ),
        );
    let charts = charts_from(args) as int;
    if place == warmup_from(args) + 2 {
        binary(RefType::Baseline)
    } else if place == benchmark_from(args, RefType::Baseline) + 2 {
        binary(RefType::Baseline)
    } else if place == benchmark_from(args, RefType::Feature) + 2 {
        binary(RefType::Feature)
    } else if args.draw && place == charts + 2 {
        table(RefType::Baseline, charts)
    } else if args.draw && place == charts + 3 {
        table(RefType::Feature, charts + 1)
    } else if args.profile && place == serving_from(args) + 1 {
        Some(Outcome::Completed(Completion::Served(Serving::ProfileMissing(RefType::Baseline))))
    } else if args.profile && place == serving_from(args) + 2 {
        Some(Outcome::Completed(Completion::Served(Serving::ProfileMissing(RefType::Feature))))
    } else {
        None
    }
}

/// How the workflow ended at the last event, if it did.
pub open spec fn workflow_end<E>(args: ArgsView, events: Seq<EventView<E>>) -> Option<
    Outcome<FaultView<E>>,
> {
    let place = events.len() - 1;
    if place < workflow_from(args) {
        None
    } else {
        match events.last() {
            Reply::Failed(e) => Some(Outcome::Faulted(reported_failure(args, place, e))),
            Reply::Flag(false) => missing_at(args, events, place),
            Reply::NoPorts => Some(
                Outcome::Faulted(Fault::Problem(Problem::NoConsecutivePorts { start_port: 3000 })),
            ),
            Reply::Reason(reason) => Some(
                Outcome::Faulted(Fault::Problem(Problem::ChartLaunch { reason })),
            ),
            Reply::Output(output) => if args.draw && place == charts_from(args) + 5 {
                match script_verdict(output, chart_path(events[place - 1]->Text_0)) {
                    Err(problem) => Some(Outcome::Faulted(Fault::Problem(problem))),
                    Ok(_) => if args.profile {
                        None
                    } else {
                        Some(Outcome::Completed(Completion::Compared))
                    },
                }
            } else {
                match samply_path_verdict(output) {
                    Err(problem) => Some(Outcome::Faulted(Fault::Problem(problem))),
                    Ok(_) => None,
                }
            },
            _ => if !args.draw && !args.profile && place == report_at(args) {
                Some(Outcome::Completed(Completion::Compared))
            } else if args.profile && place == serving_from(args) + 10 {
                Some(Outcome::Completed(Completion::Served(Serving::Stopped)))
            } else {
                None
            },
        }
    }
}

/// What is so of the workflow after an admissible sequence of events.
spec fn working<E>(
    args: ArgsView,
    work: WorkflowState<Seq<char>>,
    action: ActionView,
    events: Seq<EventView<E>>,
) -> bool {
    let n = events.len();
    match work {
        WorkflowState::DetectingOptimism => n == workflow_from(args),
        WorkflowState::Compiling { is_optimism, phase } => {
            let own = events.skip(compilation_from(args) as int);
            &&& n >= compilation_from(args)
            &&& is_optimism == optimism_answer(args, events)
            &&& compilation_admissible(args, is_optimism, own)
            &&& compilation_after(args, is_optimism, own) == (CompilationStepView::<E>::Perform {
                state: phase,
                action,
            })
        },
        WorkflowState::WarmingUp { is_optimism, commits, phase } => {
            let own = events.skip(warmup_from(args) as int);
            &&& n >= warmup_from(args)
            &&& is_optimism == optimism_answer(args, events)
            &&& commits == commits_found(args, events)
            &&& warmup_admissible(args, is_optimism, commits.baseline, own)
            &&& warmup_after(args, is_optimism, commits.baseline, own) == (WarmupStepView::<E>::Perform {
                state: phase,
                action,
            })
        },
        WorkflowState::Benchmarking { is_optimism, commits, ref_type, phase } => {
            let own = events.skip(benchmark_from(args, ref_type) as int);
            let commit = commits.of(ref_type);
            &&& n >= benchmark_from(args, ref_type)
            &&& is_optimism == optimism_answer(args, events)
            &&& commits == commits_found(args, events)
            &&& benchmark_admissible(args, ref_type, is_optimism, commit, own)
            &&& benchmark_after(args, ref_type, is_optimism, commit, own) == (BenchmarkStepView::<E>::Perform {
                state: phase,
                action,
            })
        },
        WorkflowState::Reporting => n == report_at(args),
        WorkflowState::Charting { phase } => {
            let own = events.skip(charts_from(args) as int);
            &&& args.draw
            &&& n >= charts_from(args)
            &&& charting_admissible(own)
            &&& charting_after(own) == (ChartStepView::<E>::Perform { state: phase, action })
        },
        WorkflowState::ServingProfiles { phase } => {
            let own = events.skip(serving_from(args) as int);
            &&& args.profile
            &&& n >= serving_from(args)
            &&& serving_admissible(args, own)
            &&& serving_after(args, own) == (SamplyStepView::<E>::Perform { state: phase, action })
        },
    }
}

/// What is so after an admissible sequence of events.
spec fn on_course<E>(args: ArgsView, events: Seq<EventView<E>>) -> bool {
    let n = events.len();
    match after(args, events) {
        Step::Perform { state: ComparisonState::Restoring { outcome }, action } => {
            &&& n > workflow_from(args)
            &&& workflow_end(args, events) == Some(outcome)
            &&& action == (ActionView::SwitchRef { git_ref: events[5]->Text_0 })
        },
        Step::Perform { state, action } => {
            &&& action == course_action(args, events)
            &&& setup_fault(args, events) is None
            &&& workflow_end(args, events) is None
            &&& match state {
                ComparisonState::CreatingProcessGroup => n == 0,
                ComparisonState::OpeningRepository => n == 1,
                ComparisonState::FetchingAll => n == 2,
                ComparisonState::ReadingHome => n == 3,
                ComparisonState::OpeningWorkspace => n == 4,
                ComparisonState::ReadingCurrentRef => n == 5,
                ComparisonState::ValidatingCleanState { original_ref } => {
                    &&& n == 6
                    &&& !args.skip_git_validation
                    &&& original_ref == events[5]->Text_0
                },
                ComparisonState::ValidatingRefs { original_ref } => {
                    &&& n == 7
                    &&& !args.skip_git_validation
                    &&& original_ref == events[5]->Text_0
                },
                ComparisonState::QueryingChainId { original_ref } => {
                    &&& n == workflow_from(args) - 2
                    &&& original_ref == events[5]->Text_0
                },
                ComparisonState::InstallingHandler { original_ref } => {
                    &&& n == workflow_from(args) - 1
                    &&& original_ref == events[5]->Text_0
                },
                ComparisonState::Working { original_ref, work } => {
                    &&& n >= workflow_from(args)
                    &&& original_ref == events[5]->Text_0
                    &&& working(args, work, action, events)
                },
                ComparisonState::Restoring { .. } => true,
            }
        },
        Step::Finished(completion) => {
            &&& n > workflow_from(args) + 1
            &&& setup_fault(args, events) is None
            &&& workflow_end(args, events.drop_last()) == Some(
                Outcome::<FaultView<E>>::Completed(completion),
            )
            &&& !(events.last() is Failed)
        },
        Step::Aborted(fault) => {
            ||| setup_fault(args, events) == Some(fault)
            ||| {
                &&& n > workflow_from(args) + 1
                &&& setup_fault(args, events) is None
                &&& workflow_end(args, events.drop_last()) matches Some(outcome) && fault == (
                match events.last() {
                    Reply::Failed(e) => Fault::Action(e),
                    _ => outcome->Faulted_0,
                }) && (events.last() is Failed || outcome is Faulted)
            }
        },
    }
}

/// `on_course` is kept before and after the workflow.
#[verifier::rlimit(80)]
#[verifier::spinoff_prover]
proof fn lemma_setup_on_course<E>(args: ArgsView, events: Seq<EventView<E>>)
    requires
        events.len() > 0,
        admissible(args, events),
        on_course(args, events.drop_last()),
        !(after(args, events.drop_last())->state is Working),
    ensures
        on_course(args, events),
{
    let before = events.drop_last();
    assert(forall|i: int| 0 <= i < before.len() ==> before[i] == events[i]);
}

/// `on_course` is kept by the answer whether the chain is an Optimism chain.
#[verifier::rlimit(80)]
#[verifier::spinoff_prover]
proof fn lemma_detection_on_course<E>(args: ArgsView, events: Seq<EventView<E>>)
    requires
        events.len() > 0,
        admissible(args, events),
        on_course(args, events.drop_last()),
        after(args, events.drop_last()) matches Step::Perform {
            state: ComparisonState::Working { work: WorkflowState::DetectingOptimism, .. },
            ..
        },
    ensures
        on_course(args, events),
{
    let before = events.drop_last();
    assert(forall|i: int| 0 <= i < before.len() ==> before[i] == events[i]);
    let own = events.skip(compilation_from(args) as int);
    assert(own =~= Seq::<EventView<E>>::empty());
}

/// `on_course` is kept by a step of the compilation phase.
#[verifier::rlimit(80)]
#[verifier::spinoff_prover]
proof fn lemma_compilation_on_course<E>(args: ArgsView, events: Seq<EventView<E>>)
    requires
        events.len() > 0,
        admissible(args, events),
        on_course(args, events.drop_last()),
        after(args, events.drop_last()) matches Step::Perform {
            state: ComparisonState::Working { work: WorkflowState::Compiling { .. }, .. },
            ..
        },
    ensures
        on_course(args, events),
{
    let before = events.drop_last();
    assert(forall|i: int| 0 <= i < before.len() ==> before[i] == events[i]);
    let from = compilation_from(args) as int;
    let own = events.skip(from);
    assert(own.drop_last() =~= before.skip(from));
    assert(own.last() == events.last());
    let is_optimism = optimism_answer(args, events);
    assert(compilation_admissible(args, is_optimism, own));
    law_compilation_follows_its_script(args, is_optimism, own);
    assert(events.skip(warmup_from(args) as int).len() == 0 || own.len() != compilation_script(
        args,
        is_optimism,
        own,
    ).len());
}

/// `on_course` is kept by a step of the warmup phase.
#[verifier::rlimit(80)]
#[verifier::spinoff_prover]
proof fn lemma_warmup_on_course<E>(args: ArgsView, events: Seq<EventView<E>>)
    requires
        events.len() > 0,
        admissible(args, events),
        on_course(args, events.drop_last()),
        after(args, events.drop_last()) matches Step::Perform {
            state: ComparisonState::Working { work: WorkflowState::WarmingUp { .. }, .. },
            ..
        },
    ensures
        on_course(args, events),
{
    let before = events.drop_last();
    assert(forall|i: int| 0 <= i < before.len() ==> before[i] == events[i]);
    let from = warmup_from(args) as int;
    let own = events.skip(from);
    assert(own.drop_last() =~= before.skip(from));
    assert(own.last() == events.last());
    let is_optimism = optimism_answer(args, events);
    let commits = commits_found(args, events);
    assert(commits == commits_found(args, before));
    assert(warmup_admissible(args, is_optimism, commits.baseline, own));
    law_warmup_follows_its_script(args, is_optimism, commits.baseline, own);
}

/// `on_course` is kept by a step of a benchmark.
#[verifier::rlimit(80)]
#[verifier::spinoff_prover]
proof fn lemma_benchmark_on_course<E>(args: ArgsView, events: Seq<EventView<E>>)
    requires
        events.len() > 0,
        admissible(args, events),
        on_course(args, events.drop_last()),
        after(args, events.drop_last()) matches Step::Perform {
            state: ComparisonState::Working { work: WorkflowState::Benchmarking { .. }, .. },
            ..
        },
    ensures
        on_course(args, events),
{
    let before = events.drop_last();
    assert(forall|i: int| 0 <= i < before.len() ==> before[i] == events[i]);
    let side = after(args, before)->state->work->Benchmarking_ref_type;
    let from = benchmark_from(args, side) as int;
    let own = events.skip(from);
    assert(own.drop_last() =~= before.skip(from));
    assert(own.last() == events.last());
    let is_optimism = optimism_answer(args, events);
    let commits = commits_found(args, events);
    assert(commits == commits_found(args, before));
    assert(benchmark_admissible(args, side, is_optimism, commits.of(side), own));
    law_benchmark_follows_its_script(args, side, is_optimism, commits.of(side), own);
}

/// `on_course` is kept by the report.
#[verifier::rlimit(80)]
#[verifier::spinoff_prover]
proof fn lemma_report_on_course<E>(args: ArgsView, events: Seq<EventView<E>>)
    requires
        events.len() > 0,
        admissible(args, events),
        on_course(args, events.drop_last()),
        after(args, events.drop_last()) matches Step::Perform {
            state: ComparisonState::Working { work: WorkflowState::Reporting, .. },
            ..
        },
    ensures
        on_course(args, events),
{
    let before = events.drop_last();
    assert(forall|i: int| 0 <= i < before.len() ==> before[i] == events[i]);
    assert(events.skip(charts_from(args) as int) =~= Seq::<EventView<E>>::empty());
}

/// `on_course` is kept by a step of the charts.
#[verifier::rlimit(80)]
#[verifier::spinoff_prover]
proof fn lemma_charting_on_course<E>(args: ArgsView, events: Seq<EventView<E>>)
    requires
        events.len() > 0,
        admissible(args, events),
        on_course(args, events.drop_last()),
        after(args, events.drop_last()) matches Step::Perform {
            state: ComparisonState::Working { work: WorkflowState::Charting { .. }, .. },
            ..
        },
    ensures
        on_course(args, events),
{
    let before = events.drop_last();
    assert(forall|i: int| 0 <= i < before.len() ==> before[i] == events[i]);
    let from = charts_from(args) as int;
    let own = events.skip(from);
    assert(own.drop_last() =~= before.skip(from));
    assert(own.last() == events.last());
    assert(charting_admissible(own));
    law_charting_follows_its_script(own);
}

/// `on_course` is kept by a step of the profile servers.
#[verifier::rlimit(80)]
#[verifier::spinoff_prover]
proof fn lemma_serving_on_course<E>(args: ArgsView, events: Seq<EventView<E>>)
    requires
        events.len() > 0,
        admissible(args, events),
        on_course(args, events.drop_last()),
        after(args, events.drop_last()) matches Step::Perform {
            state: ComparisonState::Working { work: WorkflowState::ServingProfiles { .. }, .. },
            ..
        },
    ensures
        on_course(args, events),
{
    let before = events.drop_last();
    assert(forall|i: int| 0 <= i < before.len() ==> before[i] == events[i]);
    let from = serving_from(args) as int;
    let own = events.skip(from);
    assert(own.drop_last() =~= before.skip(from));
    assert(own.last() == events.last());
    assert(serving_admissible(args, own));
    law_serving_follows_its_script(args, own);
}

proof fn lemma_on_course<E>(args: ArgsView, events: Seq<EventView<E>>)
    requires
        admissible(args, events),
    ensures
        on_course(args, events),
    decreases events.len(),
{
    if events.len() > 0 {
        lemma_on_course(args, events.drop_last());
        match after(args, events.drop_last()) {
            Step::Perform { state: ComparisonState::Working { work, .. }, .. } => match work {
                WorkflowState::DetectingOptimism => lemma_detection_on_course(args, events),
                WorkflowState::Compiling { .. } => lemma_compilation_on_course(args, events),
                WorkflowState::WarmingUp { .. } => lemma_warmup_on_course(args, events),
                WorkflowState::Benchmarking { .. } => lemma_benchmark_on_course(args, events),
                WorkflowState::Reporting => lemma_report_on_course(args, events),
                WorkflowState::Charting { .. } => lemma_charting_on_course(args, events),
                WorkflowState::ServingProfiles { .. } => lemma_serving_on_course(args, events),
            },
            _ => lemma_setup_on_course(args, events),
        }
    }
}

/// A comparison takes its course: at each place the action of that place is pending, until
/// something ends the setup or the workflow there. A fault of the setup ends the comparison. The
/// end of the workflow leads to a checkout of the reference that was reported as current, and then
/// the comparison ends with the error of that checkout, or else as the workflow did.
pub proof fn law_comparison_takes_its_course<E>(args: ArgsView, events: Seq<EventView<E>>)
    requires
        admissible(args, events),
    ensures
        if let Some(fault) = setup_fault(args, events) {
            after(args, events) == ComparisonStepView::<E>::Aborted(fault)
        } else if events.len() > 0 && workflow_end(args, events.drop_last()) is Some {
            after(args, events) == (match (
                events.last(),
                workflow_end(args, events.drop_last())->0,
            ) {
                (Reply::Failed(e), _) => ComparisonStepView::<E>::Aborted(Fault::Action(e)),
                (_, Outcome::Completed(completion)) => Step::Finished(completion),
                (_, Outcome::Faulted(fault)) => Step::Aborted(fault),
            })
        } else if workflow_end(args, events) is Some {
            pending(args, events) == Some(ActionView::SwitchRef { git_ref: events[5]->Text_0 })
        } else {
            pending(args, events) == Some(course_action(args, events))
        },
{
    lemma_on_course(args, events);
    if events.len() > 0 {
        lemma_on_course(args, events.drop_last());
    }
}

/// What stands between a directory and a name in it.
pub open spec fn gap(directory: Seq<char>) -> Seq<char> {
    if directory.len() == 0 || directory[directory.len() - 1] == '/' {
        Seq::empty()
    } else {
        seq!['/']
    }
}

/// The chart is drawn from the table in the baseline's output directory and the one in the
/// feature's, in this order, into the output directory of the report.
pub proof fn law_chart_compares_both_sides<E>(args: ArgsView, events: Seq<EventView<E>>)
    requires
        admissible(args, events),
        args.draw,
        events.len() == charts_from(args) + 5,
        pending(args, events) matches Some(Act::RunUv { .. }),
    ensures
        ({
            let from = charts_from(args) as int;
            let baseline_dir = events[from]->Text_0;
            let feature_dir = events[from + 1]->Text_0;
            let report_dir = events[from + 4]->Text_0;
            pending(args, events) matches Some(Act::RunUv { args: list }) && {
                &&& list.len() == 6
                &&& list[0] == "run"@
                &&& list[1] == "bin/reth-bench/scripts/compare_newpayload_latency.py"@
                &&& list[2] == baseline_dir + gap(baseline_dir) + "combined_latency.csv"@
                &&& list[3] == feature_dir + gap(feature_dir) + "combined_latency.csv"@
                &&& list[4] == "-o"@
                &&& list[5] == report_dir + gap(report_dir) + "latency_comparison.png"@
            }
        }),
{
    lemma_on_course(args, events);
    let from = charts_from(args) as int;
    let own = events.skip(from);
    assert(own[0] == events[from] && own[1] == events[from + 1] && own[4] == events[from + 4]);
    crate::charts::law_chart_files_are_in_their_directory(events[from]->Text_0);
    crate::charts::law_chart_files_are_in_their_directory(events[from + 1]->Text_0);
    crate::charts::law_chart_files_are_in_their_directory(events[from + 4]->Text_0);
}

/// Whether an event is of a kind that an action is answered with.
pub open spec fn answers<E>(action: ActionView, event: EventView<E>) -> bool {
    match action {
        Act::ReadHome => event is Home,
        Act::ReadCurrentRef | Act::ReadCurrentCommit | Act::LocateBinary { .. }
        | Act::LocateRefOutput { .. } | Act::LocateReportOutput => event is Text || event is Failed,
        Act::QueryChainId { .. } => event is ChainId || event is Reason,
        Act::DetectOptimism { .. } => event is Flag || event is Failed,
        Act::CheckExists { .. } => event is Flag,
        Act::AwaitTip => event is Tip || event is Failed,
        Act::ReadClock => event is Time,
        Act::RunUv { .. } => event is Output || event is Reason,
        Act::FindPorts { .. } => event is Ports || event is NoPorts,
        Act::WhichSamply => event is Output || event is Failed,
        Act::Sleep { .. } | Act::Print { .. } | Act::AwaitServers | Act::KillServers => event
            is Done,
        _ => event is Done || event is Failed,
    }
}

/// A step never waits for another kind of event than its action is answered with.
#[verifier::rlimit(60)]
proof fn lemma_next_expects<E>(
    args: ArgsView,
    state: ComparisonState<Seq<char>, FaultView<E>>,
    event: EventView<E>,
)
    ensures
        crate::comparison::comparison_next(args, state, event) matches Step::Perform {
            state: next,
            action,
        } ==> crate::protocol::answer_kind(action) == next.expects(),
{
}

/// The pending action is answered with what the state waits for.
proof fn lemma_expected<E>(args: ArgsView, events: Seq<EventView<E>>)
    requires
        admissible(args, events),
    ensures
        after(args, events) matches Step::Perform { state, action }
            ==> crate::protocol::answer_kind(action) == state.expects(),
{
    if events.len() > 0 {
        lemma_next_expects(args, after(args, events.drop_last())->state, events.last());
    }
}

proof fn lemma_fits<E>(action: ActionView, event: EventView<E>)
    ensures
        crate::protocol::fits(crate::protocol::answer_kind(action), event) == answers(
            action,
            event,
        ),
{
}

/// Benchmarks are what has a tip asked for from their first place on.
#[verifier::rlimit(40)]
proof fn lemma_tips<E>(args: ArgsView, events: Seq<EventView<E>>)
    requires
        admissible(args, events),
    ensures
        after(args, events) matches Step::Perform {
            state: ComparisonState::Working { work, .. },
            ..
        } ==> {
            &&& work is Benchmarking ==> events.len() >= benchmark_from(args, RefType::Baseline)
            &&& work is DetectingOptimism || work is Compiling || work is WarmingUp ==> events.len()
                < benchmark_from(args, RefType::Baseline)
        },
{
    lemma_on_course(args, events);
    if let Step::Perform { state: ComparisonState::Working { work, .. }, .. } = after(
        args,
        events,
    ) {
        match work {
            WorkflowState::WarmingUp { is_optimism, commits, .. } =>
            law_warmup_follows_its_script(
                args,
                is_optimism,
                commits.baseline,
                events.skip(warmup_from(args) as int),
            ),
            WorkflowState::Compiling { is_optimism, .. } => law_compilation_follows_its_script(
                args,
                is_optimism,
                events.skip(compilation_from(args) as int),
            ),
            _ => {},
        }
    }
}

/// Every answer to the pending action is taken, and nothing else: a tip just if the range of
/// blocks that a benchmark starts at it ends at a block number, and ports just if they are
/// consecutive ones from 3000 on.
pub proof fn law_every_answer_is_taken<E>(
    args: ArgsView,
    events: Seq<EventView<E>>,
    event: EventView<E>,
)
    requires
        admissible(args, events),
        pending(args, events) is Some,
    ensures
        admissible(args, events.push(event)) <==> {
            &&& answers(pending(args, events)->0, event)
            &&& event is Tip && events.len() >= benchmark_from(args, RefType::Baseline)
                ==> event->Tip_0 + args.blocks <= u64::MAX
            &&& event matches Reply::Ports { baseline, feature } ==> baseline >= 3000 && feature
                == baseline + 1
        },
{
    assert(events.push(event).drop_last() =~= events);
    lemma_expected(args, events);
    lemma_fits(pending(args, events)->0, event);
    lemma_tips(args, events);
}

} // verus!
