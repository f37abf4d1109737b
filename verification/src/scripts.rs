//! The phases of the workflow as scripts: the actions that a phase goes through, in order, given
//! the events that they are answered with.

use vstd::prelude::*;
use crate::args::ArgsView;
use crate::benchmark::{benchmark_accepts, benchmark_next, BenchmarkState, BenchmarkStepView};
use crate::charts::{
    chart_arguments, chart_next, chart_path, latency_table, script_verdict, ChartState,
    ChartStepView,
};
use crate::compilation::{compilation_next, Commits, CompilationState, CompilationStepView};
use crate::error::{Problem, RefType};
use crate::protocol::{
    fits, Act, ActionView, Context, EventView, Fault, FaultView, NodeRun, Reply, Step,
};
use crate::samply::{
    announcement, profile_path, samply_accepts, samply_next, samply_path_verdict, server_arguments, Profiles,
    SamplyState, SamplyStepView, ServerPorts, Serving, FIRST_PORT,
};
use crate::warmup::{warmup_next, WarmupState, WarmupStepView};

verus! {

/// The fault that an event ends a phase with: the error of a failed action, or the binary that is
/// not at the path that was given for it.
pub open spec fn fault_of<E>(events: Seq<EventView<E>>, ref_type: RefType) -> FaultView<E> {
    match events.last() {
        Reply::Failed(e) => Fault::Action(e),
        _ => Fault::Problem(
            Problem::MissingBinary { ref_type, path: events[events.len() - 2]->Text_0 },
        ),
    }
}

/// Whether the event at `i` ends a phase with a fault, where the binary is looked for by the
/// event at `check`.
pub open spec fn stops<E>(events: Seq<EventView<E>>, i: int, check: int) -> bool {
    events[i] is Failed || (i == check && events[i] == EventView::<E>::Flag(false))
}

/// Where the benchmark of a reference stands after a sequence of events.
pub open spec fn benchmark_after<E>(
    args: ArgsView,
    ref_type: RefType,
    is_optimism: bool,
    commit: Seq<char>,
    events: Seq<EventView<E>>,
) -> BenchmarkStepView<E>
    decreases events.len(),
{
    if events.len() == 0 {
        Step::Perform {
            state: BenchmarkState::SwitchingRef,
            action: Act::SwitchRef { git_ref: args.git_ref(ref_type) },
        }
    } else {
        let before = benchmark_after(args, ref_type, is_optimism, commit, events.drop_last());
        match before {
            Step::Perform { state, .. } => benchmark_next(
                args,
                ref_type,
                is_optimism,
                commit,
                state,
                events.last(),
            ),
            _ => before,
        }
    }
}

/// Whether each event answers the action of the benchmark that was pending when it came.
pub open spec fn benchmark_admissible<E>(
    args: ArgsView,
    ref_type: RefType,
    is_optimism: bool,
    commit: Seq<char>,
    events: Seq<EventView<E>>,
) -> bool
    decreases events.len(),
{
    events.len() == 0 || {
        let before = events.drop_last();
        &&& benchmark_admissible(args, ref_type, is_optimism, commit, before)
        &&& benchmark_after(args, ref_type, is_optimism, commit, before) matches Step::Perform {
            state,
            ..
        } && benchmark_accepts(args, state, events.last())
    }
}

/// The actions of the benchmark of a reference.
pub open spec fn benchmark_script<E>(
    args: ArgsView,
    ref_type: RefType,
    is_optimism: bool,
    commit: Seq<char>,
    events: Seq<EventView<E>>,
) -> Seq<ActionView> {
    let binary = events[1]->Text_0;
    let tip = events[4]->Tip_0;
    let output_dir = events[5]->Text_0;
    let start = events[6]->Time_0;
    let end = events[8]->Time_0;
    seq![
        Act::SwitchRef { git_ref: args.git_ref(ref_type) },
        Act::LocateBinary { commit, is_optimism },
        Act::CheckExists { path: binary },
        Act::StartNode {
            binary,
            git_ref: args.git_ref(ref_type),
            run: NodeRun::Benchmark(ref_type),
            args: args.additional_args(ref_type),
        },
        Act::AwaitTip,
        Act::LocateRefOutput { ref_type },
        Act::ReadClock,
        Act::RunBenchmark { from_block: tip, to_block: (tip + args.blocks) as u64, output_dir },
        Act::ReadClock,
        Act::StopNode,
        Act::UnwindTo { block: tip },
        Act::AddRefResults { ref_type, output_dir },
        Act::SetRefTimestamps { ref_type, start, end },
    ]
}

/// Where the benchmark of a reference stands in the script, and what the state keeps of the events.
pub open spec fn benchmark_position<E>(
    args: ArgsView,
    state: BenchmarkState<Seq<char>>,
    events: Seq<EventView<E>>,
) -> bool {
    let n = events.len();
    let tip = events[4]->Tip_0;
    let to_block = (tip + args.blocks) as u64;
    let output_dir = events[5]->Text_0;
    let start = events[6]->Time_0;
    let end = events[8]->Time_0;
    match state {
        BenchmarkState::SwitchingRef => n == 0,
        BenchmarkState::LocatingBinary => n == 1,
        BenchmarkState::CheckingBinary { binary } => n == 2 && binary == events[1]->Text_0,
        BenchmarkState::StartingNode => n == 3,
        BenchmarkState::AwaitingTip => n == 4,
        _ => n > 4 && tip + args.blocks <= u64::MAX && match state {
            BenchmarkState::LocatingOutput { .. } => n == 5 && state
                == BenchmarkState::<Seq<char>>::LocatingOutput { tip, to_block },
            BenchmarkState::ReadingStart { .. } => n == 6 && state == BenchmarkState::<
                Seq<char>,
            >::ReadingStart { tip, to_block, output_dir },
            BenchmarkState::Benchmarking { .. } => n == 7 && state == BenchmarkState::<
                Seq<char>,
            >::Benchmarking { tip, output_dir, start },
            BenchmarkState::ReadingEnd { .. } => n == 8 && state == BenchmarkState::<
                Seq<char>,
            >::ReadingEnd { tip, output_dir, start },
            BenchmarkState::StoppingNode { .. } => n == 9 && state == BenchmarkState::<
                Seq<char>,
            >::StoppingNode { tip, output_dir, start, end },
            BenchmarkState::Unwinding { .. } => n == 10 && state == BenchmarkState::<
                Seq<char>,
            >::Unwinding { output_dir, start, end },
            BenchmarkState::AddingResults { .. } => n == 11 && state == BenchmarkState::<
                Seq<char>,
            >::AddingResults { start, end },
            _ => n == 12,
        },
    }
}

/// The benchmark of a reference goes through its script, one action per event, and ends after
/// the last. In particular it runs the binary of the given commit from the node's tip over the
/// number of blocks asked for, reads the clock right before and right after, stops the node,
/// unwinds to the same tip, and hands over the results with those two times. It stops early only
/// at a failed action or at a binary that is not there, and reports just that.
#[verifier::rlimit(60)]
pub proof fn law_benchmark_follows_its_script<E>(
    args: ArgsView,
    ref_type: RefType,
    is_optimism: bool,
    commit: Seq<char>,
    events: Seq<EventView<E>>,
)
    requires
        benchmark_admissible(args, ref_type, is_optimism, commit, events),
    ensures
        match benchmark_after(args, ref_type, is_optimism, commit, events) {
            Step::Perform { state, action } => {
                &&& benchmark_position(args, state, events)
                &&& events.len() < 13
                &&& events.len() > 4 ==> events[4]->Tip_0 + args.blocks <= u64::MAX
                &&& action == benchmark_script(args, ref_type, is_optimism, commit, events)[
                    events.len() as int]
                &&& forall|i: int| 0 <= i < events.len() ==> !stops(events, i, 2)
            },
            Step::Finished(_) => events.len() == 13,
            Step::Aborted(fault) => {
                &&& 0 < events.len() <= 13
                &&& stops(events, events.len() - 1, 2)
                &&& fault == fault_of(events, ref_type)
            },
        },
        forall|i: int| 0 <= i < events.len() - 1 ==> !stops(events, i, 2),
    decreases events.len(),
{
    if events.len() > 0 {
        let before = events.drop_last();
        law_benchmark_follows_its_script(args, ref_type, is_optimism, commit, before);
        assert forall|i: int| 0 <= i < events.len() - 1 implies !stops(events, i, 2) by {
            assert(!stops(before, i, 2));
            assert(events[i] == before[i]);
        }
    }
}

/// Where the warmup phase stands after a sequence of events.
pub open spec fn warmup_after<E>(
    args: ArgsView,
    is_optimism: bool,
    commit: Seq<char>,
    events: Seq<EventView<E>>,
) -> WarmupStepView<E>
    decreases events.len(),
{
    if events.len() == 0 {
        Step::Perform {
            state: WarmupState::SwitchingRef,
            action: Act::SwitchRef { git_ref: args.baseline_ref },
        }
    } else {
        let before = warmup_after(args, is_optimism, commit, events.drop_last());
        match before {
            Step::Perform { state, .. } => warmup_next(
                args,
                is_optimism,
                commit,
                state,
                events.last(),
            ),
            _ => before,
        }
    }
}

/// Whether each event answers the action of the warmup phase that was pending when it came.
pub open spec fn warmup_admissible<E>(
    args: ArgsView,
    is_optimism: bool,
    commit: Seq<char>,
    events: Seq<EventView<E>>,
) -> bool
    decreases events.len(),
{
    events.len() == 0 || {
        let before = events.drop_last();
        &&& warmup_admissible(args, is_optimism, commit, before)
        &&& warmup_after(args, is_optimism, commit, before) matches Step::Perform { state, .. }
            && fits(state.expects(), events.last())
    }
}

/// The actions of the warmup phase.
pub open spec fn warmup_script<E>(
    args: ArgsView,
    is_optimism: bool,
    commit: Seq<char>,
    events: Seq<EventView<E>>,
) -> Seq<ActionView> {
    let binary = events[1]->Text_0;
    let tip = events[4]->Tip_0;
    let start = seq![
        Act::SwitchRef { git_ref: args.baseline_ref },
        Act::LocateBinary { commit, is_optimism },
        Act::CheckExists { path: binary },
        Act::StartNode {
            binary,
            git_ref: args.baseline_ref,
            run: NodeRun::Warmup,
            args: args.additional_args(RefType::Baseline),
        },
        Act::AwaitTip,
    ];
    let clearing = if args.no_clear_cache {
        Seq::empty()
    } else {
        seq![Act::ClearCaches]
    };
    start + clearing + seq![Act::RunWarmup { tip }, Act::StopNode, Act::UnwindTo { block: tip }]
}

/// Where the warmup phase stands in the script, and what the state keeps of the events.
pub open spec fn warmup_position<E>(
    args: ArgsView,
    state: WarmupState<Seq<char>>,
    events: Seq<EventView<E>>,
) -> bool {
    let n = events.len();
    let shift: nat = if args.no_clear_cache {
        0
    } else {
        1
    };
    match state {
        WarmupState::SwitchingRef => n == 0,
        WarmupState::LocatingBinary => n == 1,
        WarmupState::CheckingBinary { binary } => n == 2 && binary == events[1]->Text_0,
        WarmupState::StartingNode => n == 3,
        WarmupState::AwaitingTip => n == 4,
        WarmupState::ClearingCaches { tip } => {
            &&& n == 5
            &&& !args.no_clear_cache
            &&& tip == events[4]->Tip_0
        },
        WarmupState::WarmingUp { tip } => n == 5 + shift && tip == events[4]->Tip_0,
        WarmupState::StoppingNode { tip } => n == 6 + shift && tip == events[4]->Tip_0,
        WarmupState::Unwinding => n == 7 + shift,
    }
}

/// The warmup phase goes through its script, one action per event, and ends after the last. In
/// particular it runs the binary of the given commit from the node's tip, stops the node and
/// unwinds to the same tip. It stops early only at a failed action or at a binary that is not
/// there, and reports just that.
#[verifier::rlimit(60)]
pub proof fn law_warmup_follows_its_script<E>(
    args: ArgsView,
    is_optimism: bool,
    commit: Seq<char>,
    events: Seq<EventView<E>>,
)
    requires
        warmup_admissible(args, is_optimism, commit, events),
    ensures
        ({
            let script = warmup_script(args, is_optimism, commit, events);
            match warmup_after(args, is_optimism, commit, events) {
                Step::Perform { state, action } => {
                    &&& warmup_position(args, state, events)
                    &&& events.len() < script.len()
                    &&& action == script[events.len() as int]
                    &&& forall|i: int| 0 <= i < events.len() ==> !stops(events, i, 2)
                },
                Step::Finished(_) => events.len() == script.len(),
                Step::Aborted(fault) => {
                    &&& 0 < events.len() <= script.len()
                    &&& stops(events, events.len() - 1, 2)
                    &&& fault == fault_of(events, RefType::Baseline)
                },
            }
        }),
        forall|i: int| 0 <= i < events.len() - 1 ==> !stops(events, i, 2),
    decreases events.len(),
{
    if events.len() > 0 {
        let before = events.drop_last();
        law_warmup_follows_its_script(args, is_optimism, commit, before);
        assert forall|i: int| 0 <= i < events.len() - 1 implies !stops(events, i, 2) by {
            assert(!stops(before, i, 2));
            assert(events[i] == before[i]);
        }
    }
}

/// Where the compilation phase stands after a sequence of events.
pub open spec fn compilation_after<E>(
    args: ArgsView,
    is_optimism: bool,
    events: Seq<EventView<E>>,
) -> CompilationStepView<E>
    decreases events.len(),
{
    if events.len() == 0 {
        Step::Perform {
            state: CompilationState::EnsuringRethBench,
            action: Act::EnsureRethBench,
        }
    } else {
        let before = compilation_after(args, is_optimism, events.drop_last());
        match before {
            Step::Perform { state, .. } => compilation_next(
                args,
                is_optimism,
                state,
                events.last(),
            ),
            _ => before,
        }
    }
}

/// Whether each event answers the action of the compilation phase that was pending when it came.
pub open spec fn compilation_admissible<E>(
    args: ArgsView,
    is_optimism: bool,
    events: Seq<EventView<E>>,
) -> bool
    decreases events.len(),
{
    events.len() == 0 || {
        let before = events.drop_last();
        &&& compilation_admissible(args, is_optimism, before)
        &&& compilation_after(args, is_optimism, before) matches Step::Perform { state, .. }
            && fits(state.expects(), events.last())
    }
}

/// How many actions make sure that the tools are available.
pub open spec fn tool_count(args: ArgsView) -> nat {
    if args.profile {
        2
    } else {
        1
    }
}

/// The commits that the references are resolved to.
pub open spec fn resolved_commits<E>(args: ArgsView, events: Seq<EventView<E>>) -> Commits<
    Seq<char>,
> {
    let first = tool_count(args) + 1;
    let baseline = events[first as int]->Text_0;
    Commits {
        baseline,
        feature: if args.feature_ref == args.baseline_ref {
            baseline
        } else {
            events[first + 2int]->Text_0
        },
    }
}

/// The actions of the compilation phase.
pub open spec fn compilation_script<E>(
    args: ArgsView,
    is_optimism: bool,
    events: Seq<EventView<E>>,
) -> Seq<ActionView> {
    let commits = resolved_commits(args, events);
    let tools = if args.profile {
        seq![Act::EnsureRethBench, Act::EnsureSamply]
    } else {
        seq![Act::EnsureRethBench]
    };
    let baseline = seq![Act::SwitchRef { git_ref: args.baseline_ref }, Act::ReadCurrentCommit];
    let feature = if args.feature_ref == args.baseline_ref {
        Seq::empty()
    } else {
        seq![Act::SwitchRef { git_ref: args.feature_ref }, Act::ReadCurrentCommit]
    };
    tools + baseline + feature + seq![
        Act::SwitchRef { git_ref: args.baseline_ref },
        Act::Compile { commit: commits.baseline, is_optimism },
        Act::SwitchRef { git_ref: args.feature_ref },
        Act::Compile { commit: commits.feature, is_optimism },
    ]
}

/// Where the compilation phase stands in the script, and what the state keeps of the events.
pub open spec fn compilation_position<E>(
    args: ArgsView,
    state: CompilationState<Seq<char>>,
    events: Seq<EventView<E>>,
) -> bool {
    let n = events.len();
    let tools = tool_count(args);
    let read: nat = if args.feature_ref == args.baseline_ref {
        tools + 2
    } else {
        tools + 4
    };
    match state {
        CompilationState::EnsuringRethBench => n == 0,
        CompilationState::EnsuringSamply => n == 1 && args.profile,
        CompilationState::SwitchingToBaseline => n == tools,
        CompilationState::ReadingBaseline => n == tools + 1,
        CompilationState::SwitchingToFeature { baseline } => {
            &&& n == tools + 2
            &&& args.feature_ref != args.baseline_ref
            &&& baseline == events[tools + 1int]->Text_0
        },
        CompilationState::ReadingFeature { baseline } => {
            &&& n == tools + 3
            &&& args.feature_ref != args.baseline_ref
            &&& baseline == events[tools + 1int]->Text_0
        },
        CompilationState::CheckingOut { ref_type, commits } => {
            &&& commits == resolved_commits(args, events)
            &&& n == read + if ref_type == RefType::Baseline {
                0int
            } else {
                2int
            }
        },
        CompilationState::Compiling { ref_type, commits } => {
            &&& commits == resolved_commits(args, events)
            &&& n == read + if ref_type == RefType::Baseline {
                1int
            } else {
                3int
            }
        },
    }
}

/// The compilation phase goes through its script, one action per event, and ends after the last
/// with the commits that the references were resolved to. In particular both references are
/// resolved before either is compiled, and a reference that serves as both sides is resolved
/// once. The phase stops early only at a failed action, and reports its error.
#[verifier::rlimit(60)]
pub proof fn law_compilation_follows_its_script<E>(
    args: ArgsView,
    is_optimism: bool,
    events: Seq<EventView<E>>,
)
    requires
        compilation_admissible(args, is_optimism, events),
    ensures
        ({
            let script = compilation_script(args, is_optimism, events);
            match compilation_after(args, is_optimism, events) {
                Step::Perform { state, action } => {
                    &&& compilation_position(args, state, events)
                    &&& events.len() < script.len()
                    &&& action == script[events.len() as int]
                    &&& events.len() > 0 ==> !(events.last() is Failed)
                },
                Step::Finished(commits) => {
                    &&& events.len() == script.len()
                    &&& commits == resolved_commits(args, events)
                },
                Step::Aborted(fault) => {
                    &&& 0 < events.len() <= script.len()
                    &&& events.last() matches Reply::Failed(e) && fault == FaultView::<
                        E,
                    >::Action(e)
                },
            }
        }),
        forall|i: int| 0 <= i < events.len() - 1 ==> !(#[trigger] events[i] is Failed),
    decreases events.len(),
{
    if events.len() > 0 {
        let before = events.drop_last();
        law_compilation_follows_its_script(args, is_optimism, before);
        assert forall|i: int| 0 <= i < events.len() - 1 implies !(#[trigger] events[i]
            is Failed) by {
            assert(events[i] == before[i]);
            if i == events.len() - 2 {
                assert(before.last() == before[i]);
            }
        }
    }
}

/// Where the charts stand after a sequence of events.
pub open spec fn charting_after<E>(events: Seq<EventView<E>>) -> ChartStepView<E>
    decreases events.len(),
{
    if events.len() == 0 {
        Step::Perform {
            state: ChartState::LocatingBaseline,
            action: Act::LocateRefOutput { ref_type: RefType::Baseline },
        }
    } else {
        let before = charting_after(events.drop_last());
        match before {
            Step::Perform { state, .. } => chart_next(state, events.last()),
            _ => before,
        }
    }
}

/// Whether each event answers the action of the charts that was pending when it came.
pub open spec fn charting_admissible<E>(events: Seq<EventView<E>>) -> bool
    decreases events.len(),
{
    events.len() == 0 || {
        let before = events.drop_last();
        &&& charting_admissible(before)
        &&& charting_after(before) matches Step::Perform { state, .. } && fits(
            state.expects(),
            events.last(),
        )
    }
}

/// The actions of the charts.
pub open spec fn charting_script<E>(events: Seq<EventView<E>>) -> Seq<ActionView> {
    let baseline_csv = latency_table(events[0]->Text_0);
    let feature_csv = latency_table(events[1]->Text_0);
    let chart = chart_path(events[4]->Text_0);
    seq![
        Act::LocateRefOutput { ref_type: RefType::Baseline },
        Act::LocateRefOutput { ref_type: RefType::Feature },
        Act::CheckExists { path: baseline_csv },
        Act::CheckExists { path: feature_csv },
        Act::LocateReportOutput,
        Act::RunUv { args: chart_arguments(baseline_csv, feature_csv, chart) },
    ]
}

/// Whether the charts end with a fault at the last event: a directory that could not be told, a
/// table that is not there, a script that could not be started, or one that failed.
pub open spec fn charting_fault<E>(events: Seq<EventView<E>>, fault: FaultView<E>) -> bool {
    let n = events.len();
    match events.last() {
        Reply::Failed(e) => {
            &&& n == 1 || n == 2 || n == 5
            &&& fault == FaultView::<E>::Action(e)
        },
        Reply::Flag(found) => {
            &&& !found
            &&& {
                ||| n == 3 && fault == FaultView::<E>::Problem(
                    Problem::MissingCsv {
                        ref_type: RefType::Baseline,
                        path: latency_table(events[0]->Text_0),
                    },
                )
                ||| n == 4 && fault == FaultView::<E>::Problem(
                    Problem::MissingCsv {
                        ref_type: RefType::Feature,
                        path: latency_table(events[1]->Text_0),
                    },
                )
            }
        },
        Reply::Reason(reason) => {
            &&& n == 6
            &&& fault == FaultView::<E>::Problem(Problem::ChartLaunch { reason })
        },
        Reply::Output(output) => {
            &&& n == 6
            &&& script_verdict(output, chart_path(events[4]->Text_0)) matches Err(problem)
                && fault == FaultView::<E>::Problem(problem)
        },
        _ => false,
    }
}

/// Where the charts stand in the script, and what the state keeps of the events.
pub open spec fn charting_position<E>(state: ChartState<Seq<char>>, events: Seq<EventView<E>>) -> bool {
    let n = events.len();
    match state {
        ChartState::LocatingBaseline => n == 0,
        ChartState::LocatingFeature { baseline_csv } => n == 1 && baseline_csv == latency_table(
            events[0]->Text_0,
        ),
        ChartState::CheckingCsv { ref_type, baseline_csv, feature_csv } => {
            &&& n == if ref_type == RefType::Baseline {
                2int
            } else {
                3int
            }
            &&& baseline_csv == latency_table(events[0]->Text_0)
            &&& feature_csv == latency_table(events[1]->Text_0)
        },
        ChartState::LocatingReport { baseline_csv, feature_csv } => {
            &&& n == 4
            &&& baseline_csv == latency_table(events[0]->Text_0)
            &&& feature_csv == latency_table(events[1]->Text_0)
        },
        ChartState::RunningScript { chart } => n == 5 && chart == chart_path(events[4]->Text_0),
    }
}

/// The charts go through their script, one action per event, and end after the last with the path
/// of a chart that the script drew from the tables of both sides. They stop early only at a
/// directory that could not be told or at a table that is not there.
#[verifier::rlimit(60)]
pub proof fn law_charting_follows_its_script<E>(events: Seq<EventView<E>>)
    requires
        charting_admissible(events),
    ensures
        match charting_after(events) {
            Step::Perform { state, action } => {
                &&& charting_position(state, events)
                &&& events.len() < 6
                &&& action == charting_script(events)[events.len() as int]
            },
            Step::Finished(chart) => {
                &&& events.len() == 6
                &&& chart == chart_path(events[4]->Text_0)
                &&& events.last() matches Reply::Output(output) && output.success
            },
            Step::Aborted(fault) => charting_fault(events, fault),
        },
    decreases events.len(),
{
    if events.len() > 0 {
        law_charting_follows_its_script(events.drop_last());
    }
}

/// Where the profile servers stand after a sequence of events.
pub open spec fn serving_after<E>(args: ArgsView, events: Seq<EventView<E>>) -> SamplyStepView<E>
    decreases events.len(),
{
    if events.len() == 0 {
        Step::Perform { state: SamplyState::ReadingHome, action: Act::ReadHome }
    } else {
        let before = serving_after(args, events.drop_last());
        match before {
            Step::Perform { state, .. } => samply_next(args, state, events.last()),
            _ => before,
        }
    }
}

/// Whether each event answers the action of the profile servers that was pending when it came.
pub open spec fn serving_admissible<E>(args: ArgsView, events: Seq<EventView<E>>) -> bool
    decreases events.len(),
{
    events.len() == 0 || {
        let before = events.drop_last();
        &&& serving_admissible(args, before)
        &&& serving_after(args, before) matches Step::Perform { state, .. } && samply_accepts(
            state,
            events.last(),
        )
    }
}

/// The profiles that are served.
pub open spec fn served_profiles<E>(args: ArgsView, events: Seq<EventView<E>>) -> Profiles<
    Seq<char>,
> {
    let output_dir = args.expanded_output_dir(events[0]->Home_0);
    Profiles {
        baseline: profile_path(output_dir, RefType::Baseline),
        feature: profile_path(output_dir, RefType::Feature),
    }
}

/// The ports that were found for the servers.
pub open spec fn served_ports<E>(events: Seq<EventView<E>>) -> ServerPorts {
    ServerPorts { baseline: events[3]->Ports_baseline, feature: events[3]->Ports_feature }
}

/// Whether the ports that were found are consecutive ones from the first that is considered on.
pub open spec fn ports_found<E>(events: Seq<EventView<E>>) -> bool {
    let ports = served_ports(events);
    &&& events[3] is Ports
    &&& ports.baseline >= FIRST_PORT
    &&& ports.feature == ports.baseline + 1
}

/// The actions of the profile servers.
pub open spec fn serving_script<E>(args: ArgsView, events: Seq<EventView<E>>) -> Seq<ActionView> {
    let profiles = served_profiles(args, events);
    let ports = served_ports(events);
    let program = samply_path_verdict(events[4]->Output_0)->Ok_0;
    seq![
        Act::ReadHome,
        Act::CheckExists { path: profiles.baseline },
        Act::CheckExists { path: profiles.feature },
        Act::FindPorts { start_port: 3000 },
        Act::WhichSamply,
        Act::SpawnSamply {
            ref_type: RefType::Baseline,
            program,
            args: server_arguments(ports.baseline, profiles.baseline),
        },
        Act::SpawnSamply {
            ref_type: RefType::Feature,
            program,
            args: server_arguments(ports.feature, profiles.feature),
        },
        Act::Sleep { secs: 2 },
        Act::Print { text: announcement(args, ports) },
        Act::AwaitServers,
        Act::KillServers,
    ]
}

/// Whether the profile servers end with a fault at the last event: no ports, no profiler, or a
/// server that was not started.
pub open spec fn serving_fault<E>(events: Seq<EventView<E>>, fault: FaultView<E>) -> bool {
    match events.last() {
        Reply::NoPorts => {
            &&& events.len() == 4
            &&& fault == FaultView::<E>::Problem(Problem::NoConsecutivePorts { start_port: 3000 })
        },
        Reply::Output(output) => {
            &&& events.len() == 5
            &&& samply_path_verdict(output) matches Err(problem) && fault == FaultView::<
                E,
            >::Problem(problem)
        },
        Reply::Failed(e) => {
            ||| events.len() == 5 && fault == FaultView::<E>::Wrapped(Context::WhichSamply, e)
            ||| events.len() == 6 && fault == FaultView::<E>::Wrapped(
                Context::SpawnSamply(RefType::Baseline),
                e,
            )
            ||| events.len() == 7 && fault == FaultView::<E>::Wrapped(
                Context::SpawnSamply(RefType::Feature),
                e,
            )
        },
        _ => false,
    }
}

/// Where the profile servers stand in the script, and what the state keeps of the events.
pub open spec fn serving_position<E>(
    args: ArgsView,
    state: SamplyState<Seq<char>>,
    events: Seq<EventView<E>>,
) -> bool {
    let n = events.len();
    match state {
        SamplyState::ReadingHome => n == 0,
        SamplyState::CheckingProfile { ref_type, profiles } => {
            &&& n == if ref_type == RefType::Baseline {
                1int
            } else {
                2int
            }
            &&& profiles == served_profiles(args, events)
        },
        SamplyState::FindingPorts { profiles } => n == 3 && profiles == served_profiles(args, events),
        SamplyState::FindingSamply { profiles, ports } => {
            &&& n == 4
            &&& profiles == served_profiles(args, events)
            &&& ports == served_ports(events)
        },
        SamplyState::SpawningBaseline { program, feature_profile, ports } => {
            &&& n == 5
            &&& program == samply_path_verdict(events[4]->Output_0)->Ok_0
            &&& feature_profile == served_profiles(args, events).feature
            &&& ports == served_ports(events)
        },
        SamplyState::SpawningFeature { ports } => n == 6 && ports == served_ports(events),
        SamplyState::Settling { ports } => n == 7 && ports == served_ports(events),
        SamplyState::Announcing => n == 8,
        SamplyState::AwaitingServers => n == 9,
        SamplyState::KillingServers => n == 10,
    }
}

/// The profile servers go through their script, one action per event: each side's profile is
/// served by the same profiler on its own port, and the two ports are consecutive; the addresses
/// are printed, and both servers are killed at the end. They are not started where a profile is
/// not there, and stop early with a fault only where ports, the profiler or a server cannot be
/// had.
#[verifier::rlimit(60)]
pub proof fn law_serving_follows_its_script<E>(args: ArgsView, events: Seq<EventView<E>>)
    requires
        serving_admissible(args, events),
    ensures
        match serving_after(args, events) {
            Step::Perform { state, action } => {
                &&& serving_position(args, state, events)
                &&& events.len() < 11
                &&& action == serving_script(args, events)[events.len() as int]
                &&& events.len() > 3 ==> ports_found(events)
                &&& events.len() > 4 ==> samply_path_verdict(events[4]->Output_0) is Ok
            },
            Step::Finished(Serving::Stopped) => events.len() == 11 && ports_found(events),
            Step::Finished(Serving::ProfileMissing(ref_type)) => {
                &&& events.last() == EventView::<E>::Flag(false)
                &&& events.len() == if ref_type == RefType::Baseline {
                    2int
                } else {
                    3int
                }
            },
            Step::Aborted(fault) => serving_fault(events, fault),
        },
    decreases events.len(),
{
    if events.len() > 0 {
        law_serving_follows_its_script(args, events.drop_last());
    }
}

/// Each side is served the profile that is in `profiles` below the output directory, expanded at
/// the home directory, on its own port: the feature's is the next after the baseline's. The
/// profiler is an absolute path.
pub proof fn law_each_side_is_served_its_profile<E>(args: ArgsView, events: Seq<EventView<E>>)
    requires
        serving_admissible(args, events),
        serving_after(args, events) matches Step::Perform { action: Act::SpawnSamply { .. }, .. },
    ensures
        ({
            let dir = args.expanded_output_dir(events[0]->Home_0);
            let gap = if dir.len() == 0 || dir[dir.len() - 1] == '/' {
                Seq::<char>::empty()
            } else {
                seq!['/']
            };
            let port = events[3]->Ports_baseline;
            serving_after(args, events)->action matches Act::SpawnSamply {
                ref_type,
                program,
                args: list,
            } && {
                &&& program.len() > 0
                &&& program[0] == '/'
                &&& list.len() == 4
                &&& list[0] == "load"@
                &&& list[1] == "--port"@
                &&& port >= 3000
                &&& match ref_type {
                    RefType::Baseline => {
                        &&& events.len() == 5
                        &&& crate::text::number(list[2]) == port
                        &&& list[3] == dir + gap + "profiles/baseline.json.gz"@
                    },
                    RefType::Feature => {
                        &&& events.len() == 6
                        &&& crate::text::number(list[2]) == port + 1
                        &&& list[3] == dir + gap + "profiles/feature.json.gz"@
                    },
                }
            }
        }),
{
    law_serving_follows_its_script(args, events);
    let dir = args.expanded_output_dir(events[0]->Home_0);
    crate::samply::law_profiles_are_below_the_output_directory(dir);
    let ports = served_ports(events);
    crate::text::law_decimal_reads_back(ports.baseline as nat);
    crate::text::law_decimal_reads_back(ports.feature as nat);
}

} // verus!
