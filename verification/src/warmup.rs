//! The warmup phase: the baseline node runs once to warm up the caches, then its database is
//! unwound to where it started.

use vstd::prelude::*;
use crate::args::{Args, ArgsView};
use crate::error::{CliError, Problem, RefType};
use crate::protocol::{
    take_flag, take_text, take_tip, Act, Action, ActionView, CliFault, Event, EventView, Expected,
    Fault, FaultView, NodeRun, Reply, Step,
};

verus! {

/// What the warmup phase waits for.
#[derive(Debug, PartialEq, Eq)]
pub enum WarmupState<S> {
    /// The baseline reference to be checked out.
    SwitchingRef,
    /// The path of the cached binary.
    LocatingBinary,
    /// Whether the cached binary exists.
    CheckingBinary {
        /// Its path.
        binary: S,
    },
    /// The node to be started.
    StartingNode,
    /// The tip of the node.
    AwaitingTip,
    /// The filesystem caches to be cleared.
    ClearingCaches {
        /// The tip.
        tip: u64,
    },
    /// The warmup to end.
    WarmingUp {
        /// The tip.
        tip: u64,
    },
    /// The node to be stopped.
    StoppingNode {
        /// The tip.
        tip: u64,
    },
    /// The database to be unwound.
    Unwinding,
}

impl View for WarmupState<String> {
    type V = WarmupState<Seq<char>>;

    open spec fn view(&self) -> WarmupState<Seq<char>> {
        match *self {
            WarmupState::SwitchingRef => WarmupState::SwitchingRef,
            WarmupState::LocatingBinary => WarmupState::LocatingBinary,
            WarmupState::CheckingBinary { binary } => WarmupState::CheckingBinary {
                binary: binary@,
            },
            WarmupState::StartingNode => WarmupState::StartingNode,
            WarmupState::AwaitingTip => WarmupState::AwaitingTip,
            WarmupState::ClearingCaches { tip } => WarmupState::ClearingCaches { tip },
            WarmupState::WarmingUp { tip } => WarmupState::WarmingUp { tip },
            WarmupState::StoppingNode { tip } => WarmupState::StoppingNode { tip },
            WarmupState::Unwinding => WarmupState::Unwinding,
        }
    }
}

impl<S> WarmupState<S> {
    /// The kind of event that the state waits for.
    pub open spec fn expects(self) -> Expected {
        match self {
            WarmupState::LocatingBinary => Expected::Text,
            WarmupState::CheckingBinary { .. } => Expected::Flag,
            WarmupState::AwaitingTip => Expected::Tip,
            _ => Expected::Unit,
        }
    }

    /// Returns the kind of event that the state waits for.
    pub fn expected(&self) -> (res: Expected)
        ensures
            res == self.expects(),
    {
        match self {
            WarmupState::LocatingBinary => Expected::Text,
            WarmupState::CheckingBinary { .. } => Expected::Flag,
            WarmupState::AwaitingTip => Expected::Tip,
            _ => Expected::Unit,
        }
    }
}

/// Where the warmup phase stands.
pub type WarmupStep<E> = Step<WarmupState<String>, Action, (), CliFault<E>>;

/// The mathematical form of a step of the warmup phase.
pub type WarmupStepView<E> = Step<WarmupState<Seq<char>>, ActionView, (), FaultView<E>>;

/// How the warmup phase goes on after an event.
pub open spec fn warmup_next<E>(
    args: ArgsView,
    is_optimism: bool,
    baseline_commit: Seq<char>,
    state: WarmupState<Seq<char>>,
    event: EventView<E>,
) -> WarmupStepView<E> {
    if let Reply::Failed(e) = event {
        Step::Aborted(Fault::Action(e))
    } else {
        match state {
            WarmupState::SwitchingRef => Step::Perform {
                state: WarmupState::LocatingBinary,
                action: Act::LocateBinary { commit: baseline_commit, is_optimism },
            },
            WarmupState::LocatingBinary => Step::Perform {
                state: WarmupState::CheckingBinary { binary: event->Text_0 },
                action: Act::CheckExists { path: event->Text_0 },
            },
            WarmupState::CheckingBinary { binary } => if event->Flag_0 {
                Step::Perform {
                    state: WarmupState::StartingNode,
                    action: Act::StartNode {
                        binary,
                        git_ref: args.baseline_ref,
                        run: NodeRun::Warmup,
                        args: args.additional_args(RefType::Baseline),
                    },
                }
            } else {
                Step::Aborted(
                    Fault::Problem(
                        Problem::MissingBinary { ref_type: RefType::Baseline, path: binary },
                    ),
                )
            },
            WarmupState::StartingNode => Step::Perform {
                state: WarmupState::AwaitingTip,
                action: Act::AwaitTip,
            },
            WarmupState::AwaitingTip => {
                let tip = event->Tip_0;
                if args.no_clear_cache {
                    Step::Perform {
                        state: WarmupState::WarmingUp { tip },
                        action: Act::RunWarmup { tip },
                    }
                } else {
                    Step::Perform {
                        state: WarmupState::ClearingCaches { tip },
                        action: Act::ClearCaches,
                    }
                }
            },
            WarmupState::ClearingCaches { tip } => Step::Perform {
                state: WarmupState::WarmingUp { tip },
                action: Act::RunWarmup { tip },
            },
            WarmupState::WarmingUp { tip } => Step::Perform {
                state: WarmupState::StoppingNode { tip },
                action: Act::StopNode,
            },
            WarmupState::StoppingNode { tip } => Step::Perform {
                state: WarmupState::Unwinding,
                action: Act::UnwindTo { block: tip },
            },
            WarmupState::Unwinding => Step::Finished(()),
        }
    }
}

/// The first state of the warmup phase and its action.
pub fn start_warmup(args: &Args) -> (res: (WarmupState<String>, Action))
    ensures
        res.0@ == WarmupState::<Seq<char>>::SwitchingRef,
        res.1@ == (ActionView::SwitchRef { git_ref: args@.baseline_ref }),
{
    (WarmupState::SwitchingRef, Act::SwitchRef { git_ref: args.baseline_ref.clone() })
}

/// Takes the warmup phase on after an event.
pub fn advance_warmup<E>(
    args: &Args,
    is_optimism: bool,
    baseline_commit: &str,
    state: WarmupState<String>,
    event: Event<E>,
) -> (res: WarmupStep<E>)
    requires
        crate::protocol::fits(state@.expects(), event@),
    ensures
        res@ == warmup_next(args@, is_optimism, baseline_commit@, state@, event@),
        res matches Step::Perform { state, action } ==> crate::protocol::answer_kind(action@)
            == state@.expects(),
{
    if let Reply::Failed(e) = event {
        return Step::Aborted(Fault::Action(e));
    }
    match state {
        WarmupState::SwitchingRef => Step::Perform {
            state: WarmupState::LocatingBinary,
            action: Act::LocateBinary { commit: baseline_commit.to_owned(), is_optimism },
        },
        WarmupState::LocatingBinary => {
            let binary = take_text(event);
            let path = binary.clone();
            Step::Perform {
                state: WarmupState::CheckingBinary { binary },
                action: Act::CheckExists { path },
            }
        },
        WarmupState::CheckingBinary { binary } => {
            if take_flag(event) {
                Step::Perform {
                    state: WarmupState::StartingNode,
                    action: Act::StartNode {
                        binary,
                        git_ref: args.baseline_ref.clone(),
                        run: NodeRun::Warmup,
                        args: args.additional_args(RefType::Baseline),
                    },
                }
            } else {
                Step::Aborted(
                    Fault::Problem(
                        CliError::MissingBinary { ref_type: RefType::Baseline, path: binary },
                    ),
                )
            }
        },
        WarmupState::StartingNode => Step::Perform {
            state: WarmupState::AwaitingTip,
            action: Act::AwaitTip,
        },
        WarmupState::AwaitingTip => {
            let tip = take_tip(event);
            if args.no_clear_cache {
                Step::Perform {
                    state: WarmupState::WarmingUp { tip },
                    action: Act::RunWarmup { tip },
                }
            } else {
                Step::Perform {
                    state: WarmupState::ClearingCaches { tip },
                    action: Act::ClearCaches,
                }
            }
        },
        WarmupState::ClearingCaches { tip } => Step::Perform {
            state: WarmupState::WarmingUp { tip },
            action: Act::RunWarmup { tip },
        },
        WarmupState::WarmingUp { tip } => Step::Perform {
            state: WarmupState::StoppingNode { tip },
            action: Act::StopNode,
        },
        WarmupState::StoppingNode { tip } => Step::Perform {
            state: WarmupState::Unwinding,
            action: Act::UnwindTo { block: tip },
        },
        WarmupState::Unwinding => Step::Finished(()),
    }
}

} // verus!
