//! The benchmark workflow: compile both references, warm up, benchmark each reference, report,
//! and then draw charts and serve profiles if asked to.

use vstd::prelude::*;
use crate::args::{Args, ArgsView};
use crate::benchmark::{advance_benchmark, benchmark_can_take, start_benchmark, BenchmarkState};
use crate::charts::{advance_charts, start_charts, ChartState};
use crate::compilation::{
    advance_compilation, start_compilation, Commits, CompilationState,
};
use crate::error::RefType;
use crate::protocol::{
    event_fits, take_flag, Act, Action, ActionView, CliFault, Event, EventView, Expected, Fault,
    FaultView, Reply, Step,
};
use crate::samply::{advance_samply, samply_can_take, start_samply, SamplyState, Serving};
use crate::warmup::{advance_warmup, start_warmup, WarmupState};

verus! {

/// What the workflow waits for.
#[derive(Debug, PartialEq, Eq)]
pub enum WorkflowState<S> {
    /// Whether the chain is an Optimism chain.
    DetectingOptimism,
    /// The compilation phase.
    Compiling {
        /// Whether the chain is an Optimism chain.
        is_optimism: bool,
        /// Where the phase stands.
        phase: CompilationState<S>,
    },
    /// The warmup phase.
    WarmingUp {
        /// Whether the chain is an Optimism chain.
        is_optimism: bool,
        /// The commits of the references.
        commits: Commits<S>,
        /// Where the phase stands.
        phase: WarmupState<S>,
    },
    /// The benchmark of a reference.
    Benchmarking {
        /// Whether the chain is an Optimism chain.
        is_optimism: bool,
        /// The commits of the references.
        commits: Commits<S>,
        /// The reference.
        ref_type: RefType,
        /// Where the benchmark stands.
        phase: BenchmarkState<S>,
    },
    /// The comparison report.
    Reporting,
    /// The comparison charts.
    Charting {
        /// Where the charts stand.
        phase: ChartState<S>,
    },
    /// The profile servers.
    ServingProfiles {
        /// Where the servers stand.
        phase: SamplyState<S>,
    },
}

impl View for WorkflowState<String> {
    type V = WorkflowState<Seq<char>>;

    open spec fn view(&self) -> WorkflowState<Seq<char>> {
        match *self {
            WorkflowState::DetectingOptimism => WorkflowState::DetectingOptimism,
            WorkflowState::Compiling { is_optimism, phase } => WorkflowState::Compiling {
                is_optimism,
                phase: phase@,
            },
            WorkflowState::WarmingUp { is_optimism, commits, phase } => WorkflowState::WarmingUp {
                is_optimism,
                commits: commits@,
                phase: phase@,
            },
            WorkflowState::Benchmarking { is_optimism, commits, ref_type, phase } =>
            WorkflowState::Benchmarking {
                is_optimism,
                commits: commits@,
                ref_type,
                phase: phase@,
            },
            WorkflowState::Reporting => WorkflowState::Reporting,
            WorkflowState::Charting { phase } => WorkflowState::Charting { phase: phase@ },
            WorkflowState::ServingProfiles { phase } => WorkflowState::ServingProfiles {
                phase: phase@,
            },
        }
    }
}

/// What a workflow that succeeded has done at its end.
#[derive(Debug, Clone, Copy, PartialEq, Eq, Structural)]
pub enum Completion {
    /// No profile servers were asked for.
    Compared,
    /// Profile servers were asked for, and ended so.
    Served(Serving),
}

impl View for Completion {
    type V = Completion;

    open spec fn view(&self) -> Completion {
        *self
    }
}

/// Where the workflow stands.
pub type WorkflowStep<E> = Step<WorkflowState<String>, Action, Completion, CliFault<E>>;

/// The mathematical form of a step of the workflow.
pub type WorkflowStepView<E> = Step<
    WorkflowState<Seq<char>>,
    ActionView,
    Completion,
    FaultView<E>,
>;

impl<S> WorkflowState<S> {
    /// The kind of event that the state waits for.
    pub open spec fn expects(self) -> Expected {
        match self {
            WorkflowState::DetectingOptimism => Expected::FallibleFlag,
            WorkflowState::Compiling { phase, .. } => phase.expects(),
            WorkflowState::WarmingUp { phase, .. } => phase.expects(),
            WorkflowState::Benchmarking { phase, .. } => phase.expects(),
            WorkflowState::Reporting => Expected::Unit,
            WorkflowState::Charting { phase } => phase.expects(),
            WorkflowState::ServingProfiles { phase } => phase.expects(),
        }
    }

    /// Returns the kind of event that the state waits for.
    pub fn expected(&self) -> (res: Expected)
        ensures
            res == self.expects(),
    {
        match self {
            WorkflowState::DetectingOptimism => Expected::FallibleFlag,
            WorkflowState::Compiling { phase, .. } => phase.expected(),
            WorkflowState::WarmingUp { phase, .. } => phase.expected(),
            WorkflowState::Benchmarking { phase, .. } => phase.expected(),
            WorkflowState::Reporting => Expected::Unit,
            WorkflowState::Charting { phase } => phase.expected(),
            WorkflowState::ServingProfiles { phase } => phase.expected(),
        }
    }
}

/// The event is one that the workflow can go on with.
pub open spec fn workflow_accepts<E>(
    args: ArgsView,
    state: WorkflowState<Seq<char>>,
    event: EventView<E>,
) -> bool {
    &&& crate::protocol::fits(state.expects(), event)
    &&& state matches WorkflowState::Benchmarking { phase, .. }
        ==> crate::benchmark::benchmark_accepts(args, phase, event)
    &&& state matches WorkflowState::ServingProfiles { phase } ==> crate::samply::samply_accepts(
        phase,
        event,
    )
}

/// Tests whether the workflow can go on with an event.
pub fn workflow_can_take<E>(
    args: &Args,
    state: &WorkflowState<String>,
    event: &Event<E>,
) -> (res: bool)
    ensures
        res == workflow_accepts(args@, state@, event@),
{
    if !event_fits(state.expected(), event) {
        return false;
    }
    match state {
        WorkflowState::Benchmarking { phase, .. } => benchmark_can_take(args, phase, event),
        WorkflowState::ServingProfiles { phase } => samply_can_take(phase, event),
        _ => true,
    }
}

/// The start of a reference's benchmark.
pub open spec fn benchmark_begun<E>(
    args: ArgsView,
    is_optimism: bool,
    commits: Commits<Seq<char>>,
    ref_type: RefType,
) -> WorkflowStepView<E> {
    Step::Perform {
        state: WorkflowState::Benchmarking {
            is_optimism,
            commits,
            ref_type,
            phase: BenchmarkState::SwitchingRef,
        },
        action: Act::SwitchRef { git_ref: args.git_ref(ref_type) },
    }
}

/// The profile servers if they are asked for, else the end.
pub open spec fn profiles_or_end<E>(args: ArgsView) -> WorkflowStepView<E> {
    if args.profile {
        Step::Perform {
            state: WorkflowState::ServingProfiles { phase: SamplyState::ReadingHome },
            action: Act::ReadHome,
        }
    } else {
        Step::Finished(Completion::Compared)
    }
}

/// How the workflow goes on after an event.
pub open spec fn workflow_next<E>(
    args: ArgsView,
    state: WorkflowState<Seq<char>>,
    event: EventView<E>,
) -> WorkflowStepView<E> {
    match state {
        WorkflowState::DetectingOptimism => match event {
            Reply::Failed(e) => Step::Aborted(Fault::Action(e)),
            _ => Step::Perform {
                state: WorkflowState::Compiling {
                    is_optimism: event->Flag_0,
                    phase: CompilationState::EnsuringRethBench,
                },
                action: Act::EnsureRethBench,
            },
        },
        WorkflowState::Compiling { is_optimism, phase } => match crate::compilation::compilation_next(
            args,
            is_optimism,
            phase,
            event,
        ) {
            Step::Perform { state, action } => Step::Perform {
                state: WorkflowState::Compiling { is_optimism, phase: state },
                action,
            },
            Step::Finished(commits) => Step::Perform {
                state: WorkflowState::WarmingUp {
                    is_optimism,
                    commits,
                    phase: WarmupState::SwitchingRef,
                },
                action: Act::SwitchRef { git_ref: args.baseline_ref },
            },
            Step::Aborted(fault) => Step::Aborted(fault),
        },
        WorkflowState::WarmingUp { is_optimism, commits, phase } =>
        match crate::warmup::warmup_next(args, is_optimism, commits.baseline, phase, event) {
            Step::Perform { state, action } => Step::Perform {
                state: WorkflowState::WarmingUp { is_optimism, commits, phase: state },
                action,
            },
            Step::Finished(_) => benchmark_begun(args, is_optimism, commits, RefType::Baseline),
            Step::Aborted(fault) => Step::Aborted(fault),
        },
        WorkflowState::Benchmarking { is_optimism, commits, ref_type, phase } =>
        match crate::benchmark::benchmark_next(
            args,
            ref_type,
            is_optimism,
            commits.of(ref_type),
            phase,
            event,
        ) {
            Step::Perform { state, action } => Step::Perform {
                state: WorkflowState::Benchmarking { is_optimism, commits, ref_type, phase: state },
                action,
            },
            Step::Finished(_) => match ref_type {
                RefType::Baseline => benchmark_begun(args, is_optimism, commits, RefType::Feature),
                RefType::Feature => Step::Perform {
                    state: WorkflowState::Reporting,
                    action: Act::GenerateReport,
                },
            },
            Step::Aborted(fault) => Step::Aborted(fault),
        },
        WorkflowState::Reporting => match event {
            Reply::Failed(e) => Step::Aborted(Fault::Action(e)),
            _ => if args.draw {
                Step::Perform {
                    state: WorkflowState::Charting { phase: ChartState::LocatingBaseline },
                    action: Act::LocateRefOutput { ref_type: RefType::Baseline },
                }
            } else {
                profiles_or_end(args)
            },
        },
        WorkflowState::Charting { phase } => match crate::charts::chart_next(phase, event) {
            Step::Perform { state, action } => Step::Perform {
                state: WorkflowState::Charting { phase: state },
                action,
            },
            Step::Finished(_) => profiles_or_end(args),
            Step::Aborted(fault) => Step::Aborted(fault),
        },
        WorkflowState::ServingProfiles { phase } => match crate::samply::samply_next(
            args,
            phase,
            event,
        ) {
            Step::Perform { state, action } => Step::Perform {
                state: WorkflowState::ServingProfiles { phase: state },
                action,
            },
            Step::Finished(serving) => Step::Finished(Completion::Served(serving)),
            Step::Aborted(fault) => Step::Aborted(fault),
        },
    }
}

/// The first state of the workflow and its action.
pub fn start_workflow(args: &Args) -> (res: (WorkflowState<String>, Action))
    ensures
        res.0@ == WorkflowState::<Seq<char>>::DetectingOptimism,
        res.1@ == (ActionView::DetectOptimism { rpc_url: args@.effective_rpc_url() }),
{
    (WorkflowState::DetectingOptimism, Act::DetectOptimism { rpc_url: args.get_rpc_url() })
}

fn begin_benchmark<E>(
    args: &Args,
    is_optimism: bool,
    commits: Commits<String>,
    ref_type: RefType,
) -> (res: WorkflowStep<E>)
    ensures
        res@ == benchmark_begun::<E>(args@, is_optimism, commits@, ref_type),
{
    let (phase, action) = start_benchmark(args, ref_type);
    Step::Perform {
        state: WorkflowState::Benchmarking { is_optimism, commits, ref_type, phase },
        action,
    }
}

fn begin_profiles_or_end<E>(args: &Args) -> (res: WorkflowStep<E>)
    ensures
        res@ == profiles_or_end::<E>(args@),
{
    if args.profile {
        let (phase, action) = start_samply();
        Step::Perform { state: WorkflowState::ServingProfiles { phase }, action }
    } else {
        Step::Finished(Completion::Compared)
    }
}

/// Takes the workflow on after an event.
pub fn advance_workflow<E>(args: &Args, state: WorkflowState<String>, event: Event<E>) -> (res:
    WorkflowStep<E>)
    requires
        workflow_accepts(args@, state@, event@),
    ensures
        res@ == workflow_next(args@, state@, event@),
        res matches Step::Perform { state, action } ==> crate::protocol::answer_kind(action@)
            == state@.expects(),
{
    match state {
        WorkflowState::DetectingOptimism => {
            if let Reply::Failed(e) = event {
                return Step::Aborted(Fault::Action(e));
            }
            let is_optimism = take_flag(event);
            let (phase, action) = start_compilation();
            Step::Perform { state: WorkflowState::Compiling { is_optimism, phase }, action }
        },
        WorkflowState::Compiling { is_optimism, phase } => {
            match advance_compilation(args, is_optimism, phase, event) {
                Step::Perform { state, action } => Step::Perform {
                    state: WorkflowState::Compiling { is_optimism, phase: state },
                    action,
                },
                Step::Finished(commits) => {
                    let (phase, action) = start_warmup(args);
                    Step::Perform {
                        state: WorkflowState::WarmingUp { is_optimism, commits, phase },
                        action,
                    }
                },
                Step::Aborted(fault) => Step::Aborted(fault),
            }
        },
        WorkflowState::WarmingUp { is_optimism, commits, phase } => {
            match advance_warmup(args, is_optimism, commits.baseline.as_str(), phase, event) {
                Step::Perform { state, action } => Step::Perform {
                    state: WorkflowState::WarmingUp { is_optimism, commits, phase: state },
                    action,
                },
                Step::Finished(_) => begin_benchmark(
                    args,
                    is_optimism,
                    commits,
                    RefType::Baseline,
                ),
                Step::Aborted(fault) => Step::Aborted(fault),
            }
        },
        WorkflowState::Benchmarking { is_optimism, commits, ref_type, phase } => {
            let commit = commits.commit(ref_type);
            match advance_benchmark(args, ref_type, is_optimism, commit.as_str(), phase, event) {
                Step::Perform { state, action } => Step::Perform {
                    state: WorkflowState::Benchmarking {
                        is_optimism,
                        commits,
                        ref_type,
                        phase: state,
                    },
                    action,
                },
                Step::Finished(_) => match ref_type {
                    RefType::Baseline => begin_benchmark(
                        args,
                        is_optimism,
                        commits,
                        RefType::Feature,
                    ),
                    RefType::Feature => Step::Perform {
                        state: WorkflowState::Reporting,
                        action: Act::GenerateReport,
                    },
                },
                Step::Aborted(fault) => Step::Aborted(fault),
            }
        },
        WorkflowState::Reporting => {
            if let Reply::Failed(e) = event {
                return Step::Aborted(Fault::Action(e));
            }
            if args.draw {
                let (phase, action) = start_charts();
                Step::Perform { state: WorkflowState::Charting { phase }, action }
            } else {
                begin_profiles_or_end(args)
            }
        },
        WorkflowState::Charting { phase } => {
            match advance_charts(phase, event) {
                Step::Perform { state, action } => Step::Perform {
                    state: WorkflowState::Charting { phase: state },
                    action,
                },
                Step::Finished(_) => begin_profiles_or_end(args),
                Step::Aborted(fault) => Step::Aborted(fault),
            }
        },
        WorkflowState::ServingProfiles { phase } => {
            match advance_samply(args, phase, event) {
                Step::Perform { state, action } => Step::Perform {
                    state: WorkflowState::ServingProfiles { phase: state },
                    action,
                },
                Step::Finished(serving) => Step::Finished(Completion::Served(serving)),
                Step::Aborted(fault) => Step::Aborted(fault),
            }
        },
    }
}

} // verus!
