//! The benchmark of one reference: its node runs over a range of blocks that starts at the
//! node's tip, then its database is unwound to that tip.

use vstd::prelude::*;
use crate::args::{Args, ArgsView};
use crate::error::{CliError, Problem, RefType};
use crate::protocol::{
    event_fits, take_flag, take_text, take_time, take_tip, Act, Action, ActionView, CliFault,
    Event, EventView, Expected, Fault, FaultView, NodeRun, Reply, Step, Timestamp,
};

verus! {

/// What the benchmark of a reference waits for.
#[derive(Debug, PartialEq, Eq)]
pub enum BenchmarkState<S> {
    /// The reference to be checked out.
    SwitchingRef,
    /// The path of the cached binary.
    LocatingBinary,
    /// Whether the cached binary exists.
    CheckingBinary {
        /// Its path.
        binary: S,
    },
    /// The node to be started.
    StartingNode,
    /// The tip of the node.
    AwaitingTip,
    /// The directory for the results.
    LocatingOutput {
        /// The tip, where the range starts.
        tip: u64,
        /// Where the range ends.
        to_block: u64,
    },
    /// The time before the benchmark.
    ReadingStart {
        /// The tip, where the range starts.
        tip: u64,
        /// Where the range ends.
        to_block: u64,
        /// Where the results go.
        output_dir: S,
    },
    /// The benchmark to end.
    Benchmarking {
        /// The tip.
        tip: u64,
        /// Where the results go.
        output_dir: S,
        /// When the benchmark started.
        start: Timestamp,
    },
    /// The time after the benchmark.
    ReadingEnd {
        /// The tip.
        tip: u64,
        /// Where the results are.
        output_dir: S,
        /// When the benchmark started.
        start: Timestamp,
    },
    /// The node to be stopped.
    StoppingNode {
        /// The tip.
        tip: u64,
        /// Where the results are.
        output_dir: S,
        /// When the benchmark started.
        start: Timestamp,
        /// When it ended.
        end: Timestamp,
    },
    /// The database to be unwound.
    Unwinding {
        /// Where the results are.
        output_dir: S,
        /// When the benchmark started.
        start: Timestamp,
        /// When it ended.
        end: Timestamp,
    },
    /// The results to be handed over.
    AddingResults {
        /// When the benchmark started.
        start: Timestamp,
        /// When it ended.
        end: Timestamp,
    },
    /// The timestamps to be handed over.
    SettingTimestamps,
}

impl View for BenchmarkState<String> {
    type V = BenchmarkState<Seq<char>>;

    open spec fn view(&self) -> BenchmarkState<Seq<char>> {
        match *self {
            BenchmarkState::SwitchingRef => BenchmarkState::SwitchingRef,
            BenchmarkState::LocatingBinary => BenchmarkState::LocatingBinary,
            BenchmarkState::CheckingBinary { binary } => BenchmarkState::CheckingBinary {
                binary: binary@,
            },
            BenchmarkState::StartingNode => BenchmarkState::StartingNode,
            BenchmarkState::AwaitingTip => BenchmarkState::AwaitingTip,
            BenchmarkState::LocatingOutput { tip, to_block } => BenchmarkState::LocatingOutput {
                tip,
                to_block,
            },
            BenchmarkState::ReadingStart { tip, to_block, output_dir } =>
            BenchmarkState::ReadingStart { tip, to_block, output_dir: output_dir@ },
            BenchmarkState::Benchmarking { tip, output_dir, start } =>
            BenchmarkState::Benchmarking { tip, output_dir: output_dir@, start },
            BenchmarkState::ReadingEnd { tip, output_dir, start } => BenchmarkState::ReadingEnd {
                tip,
                output_dir: output_dir@,
                start,
            },
            BenchmarkState::StoppingNode { tip, output_dir, start, end } =>
            BenchmarkState::StoppingNode { tip, output_dir: output_dir@, start, end },
            BenchmarkState::Unwinding { output_dir, start, end } => BenchmarkState::Unwinding {
                output_dir: output_dir@,
                start,
                end,
            },
            BenchmarkState::AddingResults { start, end } => BenchmarkState::AddingResults {
                start,
                end,
            },
            BenchmarkState::SettingTimestamps => BenchmarkState::SettingTimestamps,
        }
    }
}

impl<S> BenchmarkState<S> {
    /// The kind of event that the state waits for.
    pub open spec fn expects(self) -> Expected {
        match self {
            BenchmarkState::LocatingBinary => Expected::Text,
            BenchmarkState::CheckingBinary { .. } => Expected::Flag,
            BenchmarkState::AwaitingTip => Expected::Tip,
            BenchmarkState::LocatingOutput { .. } => Expected::Text,
            BenchmarkState::ReadingStart { .. } => Expected::Time,
            BenchmarkState::ReadingEnd { .. } => Expected::Time,
            _ => Expected::Unit,
        }
    }

    /// Returns the kind of event that the state waits for.
    pub fn expected(&self) -> (res: Expected)
        ensures
            res == self.expects(),
    {
        match self {
            BenchmarkState::LocatingBinary => Expected::Text,
            BenchmarkState::CheckingBinary { .. } => Expected::Flag,
            BenchmarkState::AwaitingTip => Expected::Tip,
            BenchmarkState::LocatingOutput { .. } => Expected::Text,
            BenchmarkState::ReadingStart { .. } => Expected::Time,
            BenchmarkState::ReadingEnd { .. } => Expected::Time,
            _ => Expected::Unit,
        }
    }
}

/// The event is of the kind that the state waits for, and the range that starts at a tip ends at
/// a block number.
pub open spec fn benchmark_accepts<E>(
    args: ArgsView,
    state: BenchmarkState<Seq<char>>,
    event: EventView<E>,
) -> bool {
    &&& crate::protocol::fits(state.expects(), event)
    &&& event matches Reply::Tip(tip) ==> tip + args.blocks <= u64::MAX
}

/// Tests whether the benchmark can go on with an event.
pub fn benchmark_can_take<E>(
    args: &Args,
    state: &BenchmarkState<String>,
    event: &Event<E>,
) -> (res: bool)
    ensures
        res == benchmark_accepts(args@, state@, event@),
{
    if !event_fits(state.expected(), event) {
        return false;
    }
    match event {
        Reply::Tip(tip) => *tip <= u64::MAX - args.blocks,
        _ => true,
    }
}

/// Where the benchmark of a reference stands.
pub type BenchmarkStep<E> = Step<BenchmarkState<String>, Action, (), CliFault<E>>;

/// The mathematical form of a step of the benchmark.
pub type BenchmarkStepView<E> = Step<BenchmarkState<Seq<char>>, ActionView, (), FaultView<E>>;

/// How the benchmark of a reference goes on after an event.
pub open spec fn benchmark_next<E>(
    args: ArgsView,
    ref_type: RefType,
    is_optimism: bool,
    commit: Seq<char>,
    state: BenchmarkState<Seq<char>>,
    event: EventView<E>,
) -> BenchmarkStepView<E> {
    if let Reply::Failed(e) = event {
        Step::Aborted(Fault::Action(e))
    } else {
        match state {
            BenchmarkState::SwitchingRef => Step::Perform {
                state: BenchmarkState::LocatingBinary,
                action: Act::LocateBinary { commit, is_optimism },
            },
            BenchmarkState::LocatingBinary => Step::Perform {
                state: BenchmarkState::CheckingBinary { binary: event->Text_0 },
                action: Act::CheckExists { path: event->Text_0 },
            },
            BenchmarkState::CheckingBinary { binary } => if event->Flag_0 {
                Step::Perform {
                    state: BenchmarkState::StartingNode,
                    action: Act::StartNode {
                        binary,
                        git_ref: args.git_ref(ref_type),
                        run: NodeRun::Benchmark(ref_type),
                        args: args.additional_args(ref_type),
                    },
                }
            } else {
                Step::Aborted(Fault::Problem(Problem::MissingBinary { ref_type, path: binary }))
            },
            BenchmarkState::StartingNode => Step::Perform {
                state: BenchmarkState::AwaitingTip,
                action: Act::AwaitTip,
            },
            BenchmarkState::AwaitingTip => Step::Perform {
                state: BenchmarkState::LocatingOutput {
                    tip: event->Tip_0,
                    to_block: (event->Tip_0 + args.blocks) as u64,
                },
                action: Act::LocateRefOutput { ref_type },
            },
            BenchmarkState::LocatingOutput { tip, to_block } => Step::Perform {
                state: BenchmarkState::ReadingStart { tip, to_block, output_dir: event->Text_0 },
                action: Act::ReadClock,
            },
            BenchmarkState::ReadingStart { tip, to_block, output_dir } => Step::Perform {
                state: BenchmarkState::Benchmarking { tip, output_dir, start: event->Time_0 },
                action: Act::RunBenchmark { from_block: tip, to_block, output_dir },
            },
            BenchmarkState::Benchmarking { tip, output_dir, start } => Step::Perform {
                state: BenchmarkState::ReadingEnd { tip, output_dir, start },
                action: Act::ReadClock,
            },
            BenchmarkState::ReadingEnd { tip, output_dir, start } => Step::Perform {
                state: BenchmarkState::StoppingNode { tip, output_dir, start, end: event->Time_0 },
                action: Act::StopNode,
            },
            BenchmarkState::StoppingNode { tip, output_dir, start, end } => Step::Perform {
                state: BenchmarkState::Unwinding { output_dir, start, end },
                action: Act::UnwindTo { block: tip },
            },
            BenchmarkState::Unwinding { output_dir, start, end } => Step::Perform {
                state: BenchmarkState::AddingResults { start, end },
                action: Act::AddRefResults { ref_type, output_dir },
            },
            BenchmarkState::AddingResults { start, end } => Step::Perform {
                state: BenchmarkState::SettingTimestamps,
                action: Act::SetRefTimestamps { ref_type, start, end },
            },
            BenchmarkState::SettingTimestamps => Step::Finished(()),
        }
    }
}

/// The first state of the benchmark of a reference and its action.
pub fn start_benchmark(args: &Args, ref_type: RefType) -> (res: (BenchmarkState<String>, Action))
    ensures
        res.0@ == BenchmarkState::<Seq<char>>::SwitchingRef,
        res.1@ == (ActionView::SwitchRef { git_ref: args@.git_ref(ref_type) }),
{
    (BenchmarkState::SwitchingRef, Act::SwitchRef { git_ref: args.git_ref(ref_type) })
}

/// Takes the benchmark of a reference on after an event.
pub fn advance_benchmark<E>(
    args: &Args,
    ref_type: RefType,
    is_optimism: bool,
    commit: &str,
    state: BenchmarkState<String>,
    event: Event<E>,
) -> (res: BenchmarkStep<E>)
    requires
        benchmark_accepts(args@, state@, event@),
    ensures
        res@ == benchmark_next(args@, ref_type, is_optimism, commit@, state@, event@),
        res matches Step::Perform { state, action } ==> crate::protocol::answer_kind(action@)
            == state@.expects(),
{
    if let Reply::Failed(e) = event {
        return Step::Aborted(Fault::Action(e));
    }
    match state {
        BenchmarkState::SwitchingRef => Step::Perform {
            state: BenchmarkState::LocatingBinary,
            action: Act::LocateBinary { commit: commit.to_owned(), is_optimism },
        },
        BenchmarkState::LocatingBinary => {
            let binary = take_text(event);
            let path = binary.clone();
            Step::Perform {
                state: BenchmarkState::CheckingBinary { binary },
                action: Act::CheckExists { path },
            }
        },
        BenchmarkState::CheckingBinary { binary } => {
            if take_flag(event) {
                Step::Perform {
                    state: BenchmarkState::StartingNode,
                    action: Act::StartNode {
                        binary,
                        git_ref: args.git_ref(ref_type),
                        run: NodeRun::Benchmark(ref_type),
                        args: args.additional_args(ref_type),
                    },
                }
            } else {
                Step::Aborted(Fault::Problem(CliError::MissingBinary { ref_type, path: binary }))
            }
        },
        BenchmarkState::StartingNode => Step::Perform {
            state: BenchmarkState::AwaitingTip,
            action: Act::AwaitTip,
        },
        BenchmarkState::AwaitingTip => {
            let tip = take_tip(event);
            // The benchmark tool consumes the first block of its range, so the range starts at
            // the tip itself and covers exactly `blocks` further blocks.
            let to_block: u64 = tip + args.blocks;
            Step::Perform {
                state: BenchmarkState::LocatingOutput { tip, to_block },
                action: Act::LocateRefOutput { ref_type },
            }
        },
        BenchmarkState::LocatingOutput { tip, to_block } => Step::Perform {
            state: BenchmarkState::ReadingStart { tip, to_block, output_dir: take_text(event) },
            action: Act::ReadClock,
        },
        BenchmarkState::ReadingStart { tip, to_block, output_dir } => {
            let results = output_dir.clone();
            Step::Perform {
                state: BenchmarkState::Benchmarking { tip, output_dir, start: take_time(event) },
                action: Act::RunBenchmark { from_block: tip, to_block, output_dir: results },
            }
        },
        BenchmarkState::Benchmarking { tip, output_dir, start } => Step::Perform {
            state: BenchmarkState::ReadingEnd { tip, output_dir, start },
            action: Act::ReadClock,
        },
        BenchmarkState::ReadingEnd { tip, output_dir, start } => Step::Perform {
            state: BenchmarkState::StoppingNode { tip, output_dir, start, end: take_time(event) },
            action: Act::StopNode,
        },
        BenchmarkState::StoppingNode { tip, output_dir, start, end } => Step::Perform {
            state: BenchmarkState::Unwinding { output_dir, start, end },
            action: Act::UnwindTo { block: tip },
        },
        BenchmarkState::Unwinding { output_dir, start, end } => Step::Perform {
            state: BenchmarkState::AddingResults { start, end },
            action: Act::AddRefResults { ref_type, output_dir },
        },
        BenchmarkState::AddingResults { start, end } => Step::Perform {
            state: BenchmarkState::SettingTimestamps,
            action: Act::SetRefTimestamps { ref_type, start, end },
        },
        BenchmarkState::SettingTimestamps => Step::Finished(()),
    }
}

} // verus!
