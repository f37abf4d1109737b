//! Whole comparisons, as the sequence of events that their actions were answered with, and the
//! laws that hold of every one of them.

use vstd::prelude::*;
use crate::args::ArgsView;
use crate::benchmark::BenchmarkState;
use crate::comparison::{
    comparison_accepts, comparison_next, conclusion, ComparisonState, ComparisonStepView, Outcome,
};
use crate::compilation::{Commits, CompilationState};
use crate::error::RefType;
use crate::protocol::{Act, ActionView, EventView, Fault, FaultView, NodeRun, Reply, Step};
use crate::samply::{profile_path, SamplyState, Serving};
use crate::warmup::WarmupState;
use crate::workflow::{Completion, WorkflowState};

verus! {

/// Where a comparison stands after a sequence of events.
pub open spec fn after<E>(args: ArgsView, events: Seq<EventView<E>>) -> ComparisonStepView<E>
    decreases events.len(),
{
    if events.len() == 0 {
        Step::Perform {
            state: ComparisonState::CreatingProcessGroup,
            action: Act::CreateProcessGroup,
        }
    } else {
        let before = after(args, events.drop_last());
        match before {
            Step::Perform { state, .. } => comparison_next(args, state, events.last()),
            _ => before,
        }
    }
}

/// Whether each event answers the action that was pending when it came.
pub open spec fn admissible<E>(args: ArgsView, events: Seq<EventView<E>>) -> bool
    decreases events.len(),
{
    events.len() == 0 || {
        &&& admissible(args, events.drop_last())
        &&& after(args, events.drop_last()) matches Step::Perform { state, .. }
            && comparison_accepts(args, state, events.last())
    }
}

/// The action that waits for an answer after a sequence of events.
pub open spec fn pending<E>(args: ArgsView, events: Seq<EventView<E>>) -> Option<ActionView> {
    match after(args, events) {
        Step::Perform { action, .. } => Some(action),
        _ => None,
    }
}

/// The action that the last event answered.
pub open spec fn answered<E>(args: ArgsView, events: Seq<EventView<E>>) -> Option<ActionView> {
    if events.len() == 0 {
        None
    } else {
        pending(args, events.drop_last())
    }
}

/// Whether the comparison has come to its end.
pub open spec fn ended<E>(args: ArgsView, events: Seq<EventView<E>>) -> bool {
    pending(args, events) is None
}

/// The git reference that was reported as checked out at the start.
pub open spec fn original_ref<E>(args: ArgsView, events: Seq<EventView<E>>) -> Option<Seq<char>>
    decreases events.len(),
{
    if events.len() == 0 {
        None
    } else if answered(args, events) == Some(ActionView::ReadCurrentRef) && events.last() is Text {
        Some(events.last()->Text_0)
    } else {
        original_ref(args, events.drop_last())
    }
}

/// Whether the workflow has begun.
pub open spec fn begun<E>(args: ArgsView, events: Seq<EventView<E>>) -> bool
    decreases events.len(),
{
    ||| pending(args, events) matches Some(Act::DetectOptimism { .. })
    ||| events.len() > 0 && begun(args, events.drop_last())
}

/// The tip that a node reported last.
pub open spec fn last_tip<E>(events: Seq<EventView<E>>) -> Option<u64>
    decreases events.len(),
{
    if events.len() == 0 {
        None
    } else if let Reply::Tip(tip) = events.last() {
        Some(tip)
    } else {
        last_tip(events.drop_last())
    }
}

/// The commits that checked-out references were found to stand for, in order.
pub open spec fn commits_read<E>(args: ArgsView, events: Seq<EventView<E>>) -> Seq<Seq<char>>
    decreases events.len(),
{
    if events.len() == 0 {
        Seq::empty()
    } else {
        let before = commits_read(args, events.drop_last());
        if answered(args, events) == Some(ActionView::ReadCurrentCommit)
            && events.last() is Text {
            before.push(events.last()->Text_0)
        } else {
            before
        }
    }
}

/// Whether a node was started that was not stopped since.
pub open spec fn node_running<E>(args: ArgsView, events: Seq<EventView<E>>) -> bool
    decreases events.len(),
{
    if events.len() == 0 {
        false
    } else {
        let before = node_running(args, events.drop_last());
        match answered(args, events) {
            Some(Act::StartNode { .. }) => events.last() is Done,
            Some(Act::StopNode) => before && !(events.last() is Done),
            _ => before,
        }
    }
}

/// Whether a warmup was run with success.
pub open spec fn warmed_up<E>(args: ArgsView, events: Seq<EventView<E>>) -> bool
    decreases events.len(),
{
    events.len() > 0 && {
        ||| answered(args, events) matches Some(Act::RunWarmup { .. }) && events.last() is Done
        ||| warmed_up(args, events.drop_last())
    }
}

/// Whether the comparison report was generated.
pub open spec fn reported<E>(args: ArgsView, events: Seq<EventView<E>>) -> bool
    decreases events.len(),
{
    events.len() > 0 && {
        ||| answered(args, events) == Some(ActionView::GenerateReport) && events.last() is Done
        ||| reported(args, events.drop_last())
    }
}

/// Whether an action was answered with an event.
pub open spec fn happened<E>(
    args: ArgsView,
    events: Seq<EventView<E>>,
    action: ActionView,
    event: EventView<E>,
) -> bool
    decreases events.len(),
{
    events.len() > 0 && {
        ||| answered(args, events) == Some(action) && events.last() == event
        ||| happened(args, events.drop_last(), action, event)
    }
}

/// The references whose results and timestamps are all with the report, in order.
pub open spec fn benchmarked<E>(args: ArgsView, events: Seq<EventView<E>>) -> Seq<RefType>
    decreases events.len(),
{
    if events.len() == 0 {
        Seq::empty()
    } else {
        let before = benchmarked(args, events.drop_last());
        match answered(args, events) {
            Some(Act::SetRefTimestamps { ref_type, .. }) if events.last() is Done => before.push(
                ref_type,
            ),
            _ => before,
        }
    }
}

/// Whether a profile server was started and the servers were not killed since.
pub open spec fn servers_left<E>(args: ArgsView, events: Seq<EventView<E>>) -> bool
    decreases events.len(),
{
    if events.len() == 0 {
        false
    } else {
        let before = servers_left(args, events.drop_last());
        match answered(args, events) {
            Some(Act::SpawnSamply { .. }) => before || events.last() is Done,
            Some(Act::KillServers) => before && !(events.last() is Done),
            _ => before,
        }
    }
}

/// Whether the chart script was run with success.
pub open spec fn charted<E>(args: ArgsView, events: Seq<EventView<E>>) -> bool
    decreases events.len(),
{
    events.len() > 0 && {
        ||| answered(args, events) matches Some(Act::RunUv { .. }) && events.last() matches
            Reply::Output(output) && output.success
        ||| charted(args, events.drop_last())
    }
}

/// Whether a profile server was started for a side.
pub open spec fn server_started<E>(
    args: ArgsView,
    events: Seq<EventView<E>>,
    side: RefType,
) -> bool
    decreases events.len(),
{
    events.len() > 0 && {
        ||| answered(args, events) matches Some(Act::SpawnSamply { ref_type, .. }) && ref_type
            == side && events.last() is Done
        ||| server_started(args, events.drop_last(), side)
    }
}

/// Whether the profile of a side was looked for, at some home directory, and was not there.
pub open spec fn profile_missed<E>(
    args: ArgsView,
    events: Seq<EventView<E>>,
    side: RefType,
) -> bool {
    exists|home: Option<Seq<char>>|
        happened(
            args,
            events,
            Act::CheckExists {
                path: profile_path(#[trigger] args.expanded_output_dir(home), side),
            },
            Reply::Flag(false),
        )
}

/// The profile servers came to the end that is reported: both were started and all were killed, or
/// the profile of a side was not there.
pub open spec fn serving_ended<E>(
    args: ArgsView,
    events: Seq<EventView<E>>,
    serving: Serving,
) -> bool {
    match serving {
        Serving::Stopped => {
            &&& server_started(args, events, RefType::Baseline)
            &&& server_started(args, events, RefType::Feature)
            &&& happened(args, events, Act::KillServers, Reply::Done)
        },
        Serving::ProfileMissing(side) => profile_missed(args, events, side),
    }
}

/// Everything that was asked for besides the report was done, and a completion tells so.
pub open spec fn extras_done<E>(
    args: ArgsView,
    events: Seq<EventView<E>>,
    completion: Completion,
) -> bool {
    &&& args.draw ==> charted(args, events)
    &&& match completion {
        Completion::Compared => !args.profile,
        Completion::Served(serving) => args.profile && serving_ended(args, events, serving),
    }
}

/// How the workflow ended.
pub open spec fn workflow_outcome<E>(args: ArgsView, events: Seq<EventView<E>>) -> Option<
    Outcome<FaultView<E>>,
>
    decreases events.len(),
{
    match after(args, events) {
        Step::Perform { state: ComparisonState::Restoring { outcome }, .. } => Some(outcome),
        _ => if events.len() == 0 {
            None
        } else {
            workflow_outcome(args, events.drop_last())
        },
    }
}

/// Everything that comes before the workflow was done, with success.
pub open spec fn validated<E>(args: ArgsView, events: Seq<EventView<E>>) -> bool {
    &&& git_validated(args, events)
    &&& crate::outside::url_error(args.effective_rpc_url()) is None
    &&& happened(
        args,
        events,
        Act::QueryChainId { rpc_url: args.effective_rpc_url() },
        Reply::ChainId(args.chain.id),
    )
}

/// An interrupt would restore the original reference.
pub open spec fn guarded<E>(args: ArgsView, events: Seq<EventView<E>>) -> bool {
    original_ref(args, events) matches Some(original) && happened(
        args,
        events,
        Act::InstallInterruptHandler { original_ref: original },
        Reply::Done,
    )
}

/// The git state was validated, unless that is to be skipped.
pub open spec fn git_validated<E>(args: ArgsView, events: Seq<EventView<E>>) -> bool {
    args.skip_git_validation || {
        &&& happened(args, events, Act::ValidateCleanState, Reply::Done)
        &&& happened(
            args,
            events,
            Act::ValidateRefs { baseline_ref: args.baseline_ref, feature_ref: args.feature_ref },
            Reply::Done,
        )
    }
}

/// The commits are what the references were found to stand for, each when it was read first.
pub open spec fn resolved(
    args: ArgsView,
    commits: Commits<Seq<char>>,
    read: Seq<Seq<char>>,
) -> bool {
    if args.baseline_ref == args.feature_ref {
        read == seq![commits.baseline] && commits.feature == commits.baseline
    } else {
        read == seq![commits.baseline, commits.feature]
    }
}

/// What is so while the compilation phase waits.
spec fn compilation_holds<E>(
    args: ArgsView,
    is_optimism: bool,
    phase: CompilationState<Seq<char>>,
    events: Seq<EventView<E>>,
) -> bool {
    let read = commits_read(args, events);
    let action = pending(args, events)->0;
    &&& !node_running(args, events)
    &&& match phase {
        CompilationState::EnsuringRethBench => read.len() == 0 && action
            == ActionView::EnsureRethBench,
        CompilationState::EnsuringSamply => read.len() == 0 && action == ActionView::EnsureSamply
            && args.profile,
        CompilationState::SwitchingToBaseline => read.len() == 0 && action == (
        ActionView::SwitchRef { git_ref: args.baseline_ref }),
        CompilationState::ReadingBaseline => read.len() == 0 && action
            == ActionView::ReadCurrentCommit,
        CompilationState::SwitchingToFeature { baseline } => {
            &&& args.baseline_ref != args.feature_ref
            &&& read == seq![baseline]
            &&& action == (ActionView::SwitchRef { git_ref: args.feature_ref })
        },
        CompilationState::ReadingFeature { baseline } => {
            &&& args.baseline_ref != args.feature_ref
            &&& read == seq![baseline]
            &&& action == ActionView::ReadCurrentCommit
        },
        CompilationState::CheckingOut { ref_type, commits } => {
            &&& resolved(args, commits, read)
            &&& action == (ActionView::SwitchRef { git_ref: args.git_ref(ref_type) })
        },
        CompilationState::Compiling { ref_type, commits } => {
            &&& resolved(args, commits, read)
            &&& action == (ActionView::Compile { commit: commits.of(ref_type), is_optimism })
            &&& answered(args, events) == Some(
                ActionView::SwitchRef { git_ref: args.git_ref(ref_type) },
            )
        },
    }
}

/// What is so while the warmup phase waits.
spec fn warmup_holds<E>(
    args: ArgsView,
    is_optimism: bool,
    commits: Commits<Seq<char>>,
    phase: WarmupState<Seq<char>>,
    events: Seq<EventView<E>>,
) -> bool {
    let action = pending(args, events)->0;
    let running = node_running(args, events);
    &&& resolved(args, commits, commits_read(args, events))
    &&& match phase {
        WarmupState::SwitchingRef => !running && action == (ActionView::SwitchRef {
            git_ref: args.baseline_ref,
        }),
        WarmupState::LocatingBinary => {
            &&& !running
            &&& action == (ActionView::LocateBinary { commit: commits.baseline, is_optimism })
            &&& answered(args, events) == Some(
                ActionView::SwitchRef { git_ref: args.baseline_ref },
            )
        },
        WarmupState::CheckingBinary { binary } => !running && action == (ActionView::CheckExists {
            path: binary,
        }),
        WarmupState::StartingNode => {
            &&& !running
            &&& action matches Act::StartNode { git_ref, run, args: list, .. } && git_ref
                == args.baseline_ref && run == NodeRun::Warmup && list == args.additional_args(
                RefType::Baseline,
            )
        },
        WarmupState::AwaitingTip => running && action == ActionView::AwaitTip,
        WarmupState::ClearingCaches { tip } => {
            &&& running
            &&& !args.no_clear_cache
            &&& last_tip(events) == Some(tip)
            &&& action == ActionView::ClearCaches
        },
        WarmupState::WarmingUp { tip } => {
            &&& running
            &&& last_tip(events) == Some(tip)
            &&& action == (ActionView::RunWarmup { tip })
            &&& args.no_clear_cache <==> answered(args, events) != Some(ActionView::ClearCaches)
        },
        WarmupState::StoppingNode { tip } => {
            &&& running
            &&& warmed_up(args, events)
            &&& last_tip(events) == Some(tip)
            &&& action == ActionView::StopNode
        },
        WarmupState::Unwinding => {
            &&& !running
            &&& warmed_up(args, events)
            &&& action matches Act::UnwindTo { block } && last_tip(events) == Some(block)
            &&& answered(args, events) == Some(ActionView::StopNode)
        },
    }
}

/// What is so while the benchmark of a reference waits.
spec fn benchmark_holds<E>(
    args: ArgsView,
    is_optimism: bool,
    commits: Commits<Seq<char>>,
    ref_type: RefType,
    phase: BenchmarkState<Seq<char>>,
    events: Seq<EventView<E>>,
) -> bool {
    let action = pending(args, events)->0;
    let running = node_running(args, events);
    &&& resolved(args, commits, commits_read(args, events))
    &&& match phase {
        BenchmarkState::SwitchingRef => !running && action == (ActionView::SwitchRef {
            git_ref: args.git_ref(ref_type),
        }),
        BenchmarkState::LocatingBinary => {
            &&& !running
            &&& action == (ActionView::LocateBinary { commit: commits.of(ref_type), is_optimism })
            &&& answered(args, events) == Some(
                ActionView::SwitchRef { git_ref: args.git_ref(ref_type) },
            )
        },
        BenchmarkState::CheckingBinary { binary } => !running && action == (
        ActionView::CheckExists { path: binary }),
        BenchmarkState::StartingNode => {
            &&& !running
            &&& action matches Act::StartNode { git_ref, run, args: list, .. } && git_ref
                == args.git_ref(ref_type) && run == NodeRun::Benchmark(ref_type) && list
                == args.additional_args(ref_type)
        },
        BenchmarkState::AwaitingTip => running && action == ActionView::AwaitTip,
        BenchmarkState::LocatingOutput { tip, to_block } => {
            &&& running
            &&& last_tip(events) == Some(tip)
            &&& to_block == tip + args.blocks
            &&& action == (ActionView::LocateRefOutput { ref_type })
        },
        BenchmarkState::ReadingStart { tip, to_block, .. } => {
            &&& running
            &&& last_tip(events) == Some(tip)
            &&& to_block == tip + args.blocks
            &&& action == ActionView::ReadClock
        },
        BenchmarkState::Benchmarking { tip, .. } => {
            &&& running
            &&& last_tip(events) == Some(tip)
            &&& action matches Act::RunBenchmark { from_block, to_block, .. } && from_block == tip
                && to_block == tip + args.blocks
        },
        BenchmarkState::ReadingEnd { tip, .. } => {
            &&& running
            &&& last_tip(events) == Some(tip)
            &&& action == ActionView::ReadClock
        },
        BenchmarkState::StoppingNode { tip, .. } => {
            &&& running
            &&& last_tip(events) == Some(tip)
            &&& action == ActionView::StopNode
        },
        BenchmarkState::Unwinding { .. } => {
            &&& !running
            &&& action matches Act::UnwindTo { block } && last_tip(events) == Some(block)
            &&& answered(args, events) == Some(ActionView::StopNode)
        },
        BenchmarkState::AddingResults { .. } => !running && action is AddRefResults,
        BenchmarkState::SettingTimestamps => {
            &&& !running
            &&& action matches Act::SetRefTimestamps { ref_type: side, .. } && side == ref_type
        },
    }
}

/// The profile of a side as the serving phase knows it.
spec fn known_profile(args: ArgsView, profile: Seq<char>, side: RefType) -> bool {
    exists|home: Option<Seq<char>>|
        profile == profile_path(#[trigger] args.expanded_output_dir(home), side)
}

/// What is so while the profile servers wait.
spec fn serving_holds<E>(
    args: ArgsView,
    phase: SamplyState<Seq<char>>,
    events: Seq<EventView<E>>,
) -> bool {
    let action = pending(args, events)->0;
    let baseline_up = server_started(args, events, RefType::Baseline);
    let feature_up = server_started(args, events, RefType::Feature);
    match phase {
        SamplyState::ReadingHome => !servers_left(args, events) && action is ReadHome,
        SamplyState::CheckingProfile { ref_type, profiles } => {
            &&& !servers_left(args, events)
            &&& known_profile(args, profiles.baseline, RefType::Baseline)
            &&& known_profile(args, profiles.feature, RefType::Feature)
            &&& action == (ActionView::CheckExists {
                path: match ref_type {
                    RefType::Baseline => profiles.baseline,
                    RefType::Feature => profiles.feature,
                },
            })
        },
        SamplyState::FindingPorts { .. } => !servers_left(args, events) && action is FindPorts,
        SamplyState::FindingSamply { .. } => !servers_left(args, events) && action is WhichSamply,
        SamplyState::SpawningBaseline { .. } => {
            &&& !servers_left(args, events)
            &&& action matches Act::SpawnSamply { ref_type, .. } && ref_type == RefType::Baseline
        },
        SamplyState::SpawningFeature { .. } => {
            &&& baseline_up
            &&& action matches Act::SpawnSamply { ref_type, .. } && ref_type == RefType::Feature
        },
        SamplyState::Settling { .. } => baseline_up && feature_up && action is Sleep,
        SamplyState::Announcing => baseline_up && feature_up && action is Print,
        SamplyState::AwaitingServers => baseline_up && feature_up && action is AwaitServers,
        SamplyState::KillingServers => baseline_up && feature_up && action == ActionView::KillServers,
    }
}

/// What is so while the workflow waits.
spec fn workflow_holds<E>(
    args: ArgsView,
    work: WorkflowState<Seq<char>>,
    events: Seq<EventView<E>>,
) -> bool {
    let action = pending(args, events)->0;
    &&& !(work is ServingProfiles) ==> !servers_left(args, events)
    &&& match work {
        WorkflowState::DetectingOptimism => {
            &&& commits_read(args, events).len() == 0
            &&& !node_running(args, events)
            &&& !reported(args, events)
            &&& benchmarked(args, events).len() == 0
            &&& action == (ActionView::DetectOptimism { rpc_url: args.effective_rpc_url() })
        },
        WorkflowState::Compiling { is_optimism, phase } => {
            &&& !reported(args, events)
            &&& benchmarked(args, events).len() == 0
            &&& compilation_holds(args, is_optimism, phase, events)
        },
        WorkflowState::WarmingUp { is_optimism, commits, phase } => {
            &&& !reported(args, events)
            &&& benchmarked(args, events).len() == 0
            &&& warmup_holds(args, is_optimism, commits, phase, events)
        },
        WorkflowState::Benchmarking { is_optimism, commits, ref_type, phase } => {
            &&& !reported(args, events)
            &&& benchmarked(args, events) == (match ref_type {
                RefType::Baseline => Seq::<RefType>::empty(),
                RefType::Feature => seq![RefType::Baseline],
            })
            &&& warmed_up(args, events)
            &&& benchmark_holds(args, is_optimism, commits, ref_type, phase, events)
        },
        WorkflowState::Reporting => {
            &&& !reported(args, events)
            &&& !node_running(args, events)
            &&& benchmarked(args, events) == seq![RefType::Baseline, RefType::Feature]
            &&& action == ActionView::GenerateReport
        },
        WorkflowState::Charting { .. } => {
            &&& args.draw
            &&& reported(args, events)
            &&& benchmarked(args, events) == seq![RefType::Baseline, RefType::Feature]
            &&& !node_running(args, events)
            &&& action is LocateRefOutput || action is CheckExists || action is LocateReportOutput
                || action is RunUv
        },
        WorkflowState::ServingProfiles { phase } => {
            &&& serving_holds(args, phase, events)
            &&& args.profile
            &&& args.draw ==> charted(args, events)
            &&& reported(args, events)
            &&& benchmarked(args, events) == seq![RefType::Baseline, RefType::Feature]
            &&& !node_running(args, events)
        },
    }
}

/// What is so while the comparison is set up.
spec fn setup_holds<E>(args: ArgsView, events: Seq<EventView<E>>) -> bool {
    &&& !begun(args, events)
    &&& workflow_outcome(args, events) is None
    &&& !reported(args, events)
    &&& !node_running(args, events)
    &&& !servers_left(args, events)
    &&& commits_read(args, events).len() == 0
    &&& benchmarked(args, events).len() == 0
}

/// What is so after every admissible sequence of events.
spec fn holds<E>(args: ArgsView, events: Seq<EventView<E>>) -> bool {
    match after(args, events) {
        Step::Perform { state, action } => match state {
            ComparisonState::CreatingProcessGroup => setup_holds(args, events) && action
                == ActionView::CreateProcessGroup,
            ComparisonState::OpeningRepository => setup_holds(args, events) && action
                == ActionView::OpenRepository,
            ComparisonState::FetchingAll => setup_holds(args, events) && action
                == ActionView::FetchAll,
            ComparisonState::ReadingHome => setup_holds(args, events) && action
                == ActionView::ReadHome,
            ComparisonState::OpeningWorkspace => setup_holds(args, events) && action
                is OpenWorkspace,
            ComparisonState::ReadingCurrentRef => setup_holds(args, events) && action
                == ActionView::ReadCurrentRef,
            ComparisonState::ValidatingCleanState { original_ref: original } => {
                &&& setup_holds(args, events)
                &&& action == ActionView::ValidateCleanState
                &&& original_ref(args, events) == Some(original)
            },
            ComparisonState::ValidatingRefs { original_ref: original } => {
                &&& setup_holds(args, events)
                &&& action == (ActionView::ValidateRefs {
                    baseline_ref: args.baseline_ref,
                    feature_ref: args.feature_ref,
                })
                &&& happened(args, events, Act::ValidateCleanState, Reply::Done)
                &&& original_ref(args, events) == Some(original)
            },
            ComparisonState::QueryingChainId { original_ref: original } => {
                &&& setup_holds(args, events)
                &&& action == (ActionView::QueryChainId { rpc_url: args.effective_rpc_url() })
                &&& crate::outside::url_error(args.effective_rpc_url()) is None
                &&& git_validated(args, events)
                &&& original_ref(args, events) == Some(original)
            },
            ComparisonState::InstallingHandler { original_ref: original } => {
                &&& setup_holds(args, events)
                &&& action == (ActionView::InstallInterruptHandler { original_ref: original })
                &&& original_ref(args, events) == Some(original)
                &&& validated(args, events)
            },
            ComparisonState::Working { original_ref: original, work } => {
                &&& begun(args, events)
                &&& validated(args, events)
                &&& guarded(args, events)
                &&& workflow_outcome(args, events) is None
                &&& original_ref(args, events) == Some(original)
                &&& workflow_holds(args, work, events)
            },
            ComparisonState::Restoring { outcome } => {
                &&& begun(args, events)
                &&& validated(args, events)
                &&& guarded(args, events)
                &&& workflow_outcome(args, events) == Some(outcome)
                &&& outcome matches Outcome::Completed(completion) ==> {
                    &&& extras_done(args, events, completion)
                    &&& benchmarked(args, events) == seq![RefType::Baseline, RefType::Feature]
                    &&& reported(args, events)
                    &&& !node_running(args, events)
                    &&& !servers_left(args, events)
                }
                &&& original_ref(args, events) is Some
                &&& action == (ActionView::SwitchRef { git_ref: original_ref(args, events)->0 })
            },
        },
        _ => {
            &&& events.len() > 0
            &&& !begun(args, events) ==> after(args, events) is Aborted
            &&& begun(args, events) ==> {
                &&& after(args, events.drop_last()) matches Step::Perform {
                    state: ComparisonState::Restoring { .. },
                    ..
                }
                &&& original_ref(args, events) == original_ref(args, events.drop_last())
                &&& validated(args, events)
                &&& guarded(args, events)
            }
        },
    }
}

/// `holds` is kept by a step that the setup or the restoration takes.
#[verifier::rlimit(60)]
#[verifier::spinoff_prover]
proof fn lemma_setup_keeps<E>(args: ArgsView, events: Seq<EventView<E>>)
    requires
        events.len() > 0,
        admissible(args, events),
        holds(args, events.drop_last()),
        !(after(args, events.drop_last())->state is Working),
    ensures
        holds(args, events),
{
}

/// `holds` is kept by a step of the compilation phase.
#[verifier::rlimit(60)]
#[verifier::spinoff_prover]
proof fn lemma_compilation_keeps<E>(args: ArgsView, events: Seq<EventView<E>>)
    requires
        events.len() > 0,
        admissible(args, events),
        holds(args, events.drop_last()),
        after(args, events.drop_last()) matches Step::Perform {
            state: ComparisonState::Working {
                work: WorkflowState::DetectingOptimism | WorkflowState::Compiling { .. },
                ..
            },
            ..
        },
    ensures
        holds(args, events),
{
    let before = commits_read(args, events.drop_last());
    if let Reply::Text(commit) = events.last() {
        if before.len() == 0 {
            assert(before.push(commit) =~= seq![commit]);
        } else if before.len() == 1 {
            assert(before.push(commit) =~= seq![before[0], commit]);
        }
    }
}

/// `holds` is kept by a step of the warmup phase.
#[verifier::rlimit(60)]
#[verifier::spinoff_prover]
proof fn lemma_warmup_keeps<E>(args: ArgsView, events: Seq<EventView<E>>)
    requires
        events.len() > 0,
        admissible(args, events),
        holds(args, events.drop_last()),
        after(args, events.drop_last()) matches Step::Perform {
            state: ComparisonState::Working { work: WorkflowState::WarmingUp { .. }, .. },
            ..
        },
    ensures
        holds(args, events),
{
    assert(benchmarked(args, events.drop_last()) =~= Seq::<RefType>::empty());
}

/// `holds` is kept by a step of a benchmark.
#[verifier::rlimit(60)]
#[verifier::spinoff_prover]
proof fn lemma_benchmark_keeps<E>(args: ArgsView, events: Seq<EventView<E>>)
    requires
        events.len() > 0,
        admissible(args, events),
        holds(args, events.drop_last()),
        after(args, events.drop_last()) matches Step::Perform {
            state: ComparisonState::Working { work: WorkflowState::Benchmarking { .. }, .. },
            ..
        },
    ensures
        holds(args, events),
{
    assert(Seq::<RefType>::empty().push(RefType::Baseline) =~= seq![RefType::Baseline]);
    assert(seq![RefType::Baseline].push(RefType::Feature) =~= seq![
        RefType::Baseline,
        RefType::Feature,
    ]);
}

/// `holds` is kept by a step of the report, the charts or the profile servers.
#[verifier::rlimit(60)]
#[verifier::spinoff_prover]
proof fn lemma_report_keeps<E>(args: ArgsView, events: Seq<EventView<E>>)
    requires
        events.len() > 0,
        admissible(args, events),
        holds(args, events.drop_last()),
        after(args, events.drop_last()) matches Step::Perform {
            state: ComparisonState::Working {
                work: WorkflowState::Reporting | WorkflowState::Charting {
                    ..
                } | WorkflowState::ServingProfiles { .. },
                ..
            },
            ..
        },
    ensures
        holds(args, events),
{
}

proof fn lemma_holds<E>(args: ArgsView, events: Seq<EventView<E>>)
    requires
        admissible(args, events),
    ensures
        holds(args, events),
    decreases events.len(),
{
    if events.len() > 0 {
        lemma_holds(args, events.drop_last());
        match after(args, events.drop_last()) {
            Step::Perform { state: ComparisonState::Working { work, .. }, .. } => match work {
                WorkflowState::DetectingOptimism => lemma_compilation_keeps(args, events),
                WorkflowState::Compiling { .. } => lemma_compilation_keeps(args, events),
                WorkflowState::WarmingUp { .. } => lemma_warmup_keeps(args, events),
                WorkflowState::Benchmarking { .. } => lemma_benchmark_keeps(args, events),
                _ => lemma_report_keeps(args, events),
            },
            _ => lemma_setup_keeps(args, events),
        }
    }
}

/// The original git reference is always restored: a comparison whose workflow has begun ends
/// only after a checkout of the reference that was reported as current at the start. If that
/// checkout fails, its error is the result; else the result is that of the workflow.
pub proof fn law_original_ref_is_restored<E>(args: ArgsView, events: Seq<EventView<E>>)
    requires
        admissible(args, events),
        ended(args, events),
        begun(args, events),
    ensures
        original_ref(args, events) matches Some(original) && answered(args, events) == Some(
            ActionView::SwitchRef { git_ref: original },
        ),
        workflow_outcome(args, events) matches Some(outcome) && after(args, events) == (
        match events.last() {
            Reply::Failed(e) => Step::Aborted(Fault::Action(e)),
            _ => conclusion(outcome),
        }),
{
    lemma_holds(args, events);
    lemma_holds(args, events.drop_last());
}

/// Nothing is checked out, compiled or run before the git state, the RPC URL and the chain ID of
/// the endpoint are validated and the interrupt handler stands. The git state is not validated
/// where that is to be skipped.
pub proof fn law_validation_comes_first<E>(args: ArgsView, events: Seq<EventView<E>>)
    requires
        admissible(args, events),
    ensures
        begun(args, events) ==> validated(args, events) && guarded(args, events),
        !begun(args, events) ==> match pending(args, events) {
            Some(action) => {
                ||| action is CreateProcessGroup
                ||| action is OpenRepository
                ||| action is FetchAll
                ||| action is ReadHome
                ||| action is OpenWorkspace
                ||| action is ReadCurrentRef
                ||| action is ValidateCleanState
                ||| action is ValidateRefs
                ||| action is QueryChainId
                ||| action is InstallInterruptHandler
            },
            None => after(args, events) is Aborted,
        },
{
    lemma_holds(args, events);
}

/// A node's database is unwound to the very tip that the node had reported, and only right after
/// the node was stopped.
pub proof fn law_unwinds_to_the_reported_tip<E>(args: ArgsView, events: Seq<EventView<E>>)
    requires
        admissible(args, events),
    ensures
        pending(args, events) matches Some(Act::UnwindTo { block }) ==> {
            &&& last_tip(events) == Some(block)
            &&& answered(args, events) == Some(ActionView::StopNode)
            &&& !node_running(args, events)
        },
{
    lemma_holds(args, events);
}

/// A warmup starts at the tip that the node reported. A benchmark ranges from that tip over as
/// many further blocks as were asked for.
pub proof fn law_runs_start_at_the_reported_tip<E>(args: ArgsView, events: Seq<EventView<E>>)
    requires
        admissible(args, events),
    ensures
        pending(args, events) matches Some(Act::RunWarmup { tip }) ==> last_tip(events) == Some(
            tip,
        ),
        pending(args, events) matches Some(Act::RunBenchmark { from_block, to_block, .. }) ==> {
            &&& last_tip(events) == Some(from_block)
            &&& to_block - from_block == args.blocks
        },
{
    lemma_holds(args, events);
}

/// The filesystem caches are cleared right before the warmup and at no other time, unless that is
/// disabled: then they are never cleared.
pub proof fn law_caches_are_cleared_before_warmup_only<E>(
    args: ArgsView,
    events: Seq<EventView<E>>,
)
    requires
        admissible(args, events),
    ensures
        pending(args, events) == Some(ActionView::ClearCaches) ==> !args.no_clear_cache,
        pending(args, events) matches Some(Act::RunWarmup { .. }) ==> (answered(args, events)
            == Some(ActionView::ClearCaches) <==> !args.no_clear_cache),
        answered(args, events) == Some(ActionView::ClearCaches) && events.last() is Done ==> pending(
            args,
            events,
        ) matches Some(Act::RunWarmup { .. }),
{
    lemma_holds(args, events);
    if events.len() > 0 {
        lemma_holds(args, events.drop_last());
    }
}

/// A benchmark runs, and its node is started, only after a warmup was run with success.
pub proof fn law_benchmarks_follow_a_warmup<E>(args: ArgsView, events: Seq<EventView<E>>)
    requires
        admissible(args, events),
    ensures
        pending(args, events) matches Some(Act::RunBenchmark { .. }) ==> warmed_up(args, events),
        pending(args, events) matches Some(Act::StartNode { run: NodeRun::Benchmark(_), .. })
            ==> warmed_up(args, events),
{
    lemma_holds(args, events);
}

/// A reference is resolved to a commit once, before anything is compiled: two references are read
/// once each, and one that serves as both sides is read once. What is compiled or run after the
/// checkout of a reference is the commit that it was resolved to then.
pub proof fn law_references_are_resolved_once<E>(args: ArgsView, events: Seq<EventView<E>>)
    requires
        admissible(args, events),
    ensures
        ({
            let read = commits_read(args, events);
            let commit = match pending(args, events) {
                Some(Act::Compile { commit, .. }) => Some(commit),
                Some(Act::LocateBinary { commit, .. }) => Some(commit),
                _ => None,
            };
            commit matches Some(c) ==> {
                &&& read.len() == if args.baseline_ref == args.feature_ref {
                    1int
                } else {
                    2int
                }
                &&& answered(args, events) matches Some(Act::SwitchRef { git_ref }) && {
                    ||| git_ref == args.baseline_ref && c == read.first()
                    ||| git_ref == args.feature_ref && c == read.last()
                }
            }
        }),
{
    lemma_holds(args, events);
}

/// Each node is started from the reference and with the arguments of its side, and the warmup's
/// from those of the baseline: none where the option of that side is not given, else the words of
/// the option. The option of the other side has no part in it.
pub proof fn law_nodes_are_started_for_their_side<E>(args: ArgsView, events: Seq<EventView<E>>)
    requires
        admissible(args, events),
    ensures
        pending(args, events) matches Some(Act::StartNode { git_ref, run, args: list, .. }) ==> {
            let (side_ref, option) = match run {
                NodeRun::Warmup => (args.baseline_ref, args.baseline_args),
                NodeRun::Benchmark(RefType::Baseline) => (args.baseline_ref, args.baseline_args),
                NodeRun::Benchmark(RefType::Feature) => (args.feature_ref, args.feature_args),
            };
            &&& git_ref == side_ref
            &&& option is None ==> list.len() == 0
            &&& option matches Some(line) ==> list == (match crate::outside::shell_words(line) {
                Some(words) => words,
                None => crate::text::whitespace_words(line),
            })
        },
{
    lemma_holds(args, events);
}

/// One node runs at a time: a node is started, the database unwound, and a commit compiled only
/// while no node runs; caches are cleared, blocks run and nodes stopped only while one does.
pub proof fn law_one_node_at_a_time<E>(args: ArgsView, events: Seq<EventView<E>>)
    requires
        admissible(args, events),
    ensures
        match pending(args, events) {
            Some(Act::StartNode { .. }) => !node_running(args, events),
            Some(Act::UnwindTo { .. }) => !node_running(args, events),
            Some(Act::Compile { .. }) => !node_running(args, events),
            Some(Act::GenerateReport) => !node_running(args, events),
            Some(Act::AwaitTip) => node_running(args, events),
            Some(Act::ClearCaches) => node_running(args, events),
            Some(Act::RunWarmup { .. }) => node_running(args, events),
            Some(Act::RunBenchmark { .. }) => node_running(args, events),
            Some(Act::StopNode) => node_running(args, events),
            _ => true,
        },
{
    lemma_holds(args, events);
}

/// A comparison that succeeds has benchmarked the baseline and then the feature, once each, and
/// generated the report; no node and no profile server is left.
pub proof fn law_success_is_complete<E>(args: ArgsView, events: Seq<EventView<E>>)
    requires
        admissible(args, events),
        after(args, events) is Finished,
    ensures
        benchmarked(args, events) == seq![RefType::Baseline, RefType::Feature],
        reported(args, events),
        !node_running(args, events),
        !servers_left(args, events),
{
    lemma_holds(args, events);
    lemma_holds(args, events.drop_last());
}

/// Charts are drawn only if asked for, profile servers are run and the profiler is looked for
/// only if profiling is on, and both come only after the report.
pub proof fn law_extras_are_asked_for<E>(args: ArgsView, events: Seq<EventView<E>>)
    requires
        admissible(args, events),
    ensures
        pending(args, events) matches Some(Act::RunUv { .. }) ==> args.draw && reported(
            args,
            events,
        ),
        pending(args, events) matches Some(Act::SpawnSamply { .. }) ==> args.profile && reported(
            args,
            events,
        ),
        pending(args, events) matches Some(Act::EnsureSamply) ==> args.profile,
{
    lemma_holds(args, events);
}

/// What is asked for is done: a comparison that succeeds has run the chart script with success if
/// charts were asked for. If profiling is on, it has served both profiles and killed the servers,
/// or found the profile of a side missing, and it reports which; else it reports no serving.
pub proof fn law_extras_are_done<E>(args: ArgsView, events: Seq<EventView<E>>)
    requires
        admissible(args, events),
        after(args, events) is Finished,
    ensures
        extras_done(args, events, after(args, events)->Finished_0),
{
    lemma_holds(args, events);
    lemma_holds(args, events.drop_last());
}

/// A failed action of the workflow ends it with that action's error: the next action restores the
/// original reference.
pub proof fn law_failure_leads_to_restoration<E>(args: ArgsView, events: Seq<EventView<E>>)
    requires
        admissible(args, events),
        events.len() > 0,
        begun(args, events.drop_last()),
        workflow_outcome(args, events.drop_last()) is None,
        events.last() is Failed,
    ensures
        original_ref(args, events) matches Some(original) && pending(args, events) == Some(
            ActionView::SwitchRef { git_ref: original },
        ),
        workflow_outcome(args, events) matches Some(Outcome::Faulted(fault)) && match fault {
            Fault::Action(e) => e == events.last()->Failed_0,
            Fault::Wrapped(_, e) => e == events.last()->Failed_0,
            Fault::Problem(_) => false,
        },
{
    lemma_holds(args, events);
    lemma_holds(args, events.drop_last());
}

/// A failed action before the workflow ends the comparison with its error, except that a process
/// group which cannot be created is passed over.
pub proof fn law_setup_failure_ends_the_comparison<E>(args: ArgsView, events: Seq<EventView<E>>)
    requires
        admissible(args, events),
        events.len() > 0,
        !begun(args, events.drop_last()),
        events.last() is Failed,
    ensures
        if answered(args, events) == Some(ActionView::CreateProcessGroup) {
            pending(args, events) == Some(ActionView::OpenRepository)
        } else {
            after(args, events) == ComparisonStepView::<E>::Aborted(
                Fault::Action(events.last()->Failed_0),
            )
        },
{
    lemma_holds(args, events.drop_last());
}

/// Whether the chain is an Optimism chain is asked of the endpoint that was found to serve the
/// expected chain, and of no other. If the options give a URL, it is that one.
pub proof fn law_optimism_is_asked_of_the_validated_endpoint<E>(
    args: ArgsView,
    events: Seq<EventView<E>>,
)
    requires
        admissible(args, events),
    ensures
        pending(args, events) matches Some(Act::DetectOptimism { rpc_url }) ==> {
            &&& happened(
                args,
                events,
                Act::QueryChainId { rpc_url },
                Reply::ChainId(args.chain.id),
            )
            &&& args.rpc_url matches Some(given) ==> rpc_url == given
        },
        pending(args, events) matches Some(Act::QueryChainId { rpc_url }) ==> (
        args.rpc_url matches Some(given) ==> rpc_url == given),
{
    lemma_holds(args, events);
}

/// A chain ID query that is answered with the ID of the expected chain is followed by the
/// installation of the interrupt handler. Any other answer ends the comparison.
pub proof fn law_validated_chain_goes_on<E>(args: ArgsView, events: Seq<EventView<E>>)
    requires
        admissible(args, events),
        answered(args, events) matches Some(Act::QueryChainId { .. }),
    ensures
        match events.last() {
            Reply::ChainId(found) => if found == args.chain.id {
                original_ref(args, events) matches Some(original) && pending(args, events) == Some(
                    ActionView::InstallInterruptHandler { original_ref: original },
                )
            } else {
                after(args, events) is Aborted
            },
            _ => after(args, events) is Aborted,
        },
{
    lemma_holds(args, events);
    lemma_holds(args, events.drop_last());
}

} // verus!
