//! The compilation phase: both references are resolved to commits, then each is compiled.
//!
//! A reference is resolved once, before anything is compiled, so that a push in the middle of
//! the run does not change what it stands for.

use vstd::prelude::*;
use crate::args::{Args, ArgsView};
use crate::error::RefType;
use crate::protocol::{
    take_text, Act, Action, ActionView, CliFault, Event, EventView, Expected, Fault, FaultView,
    Reply, Step,
};

verus! {

/// The commits that the two references stand for.
#[derive(Debug, PartialEq, Eq)]
pub struct Commits<S> {
    /// The commit of the baseline reference.
    pub baseline: S,
    /// The commit of the feature reference.
    pub feature: S,
}

impl View for Commits<String> {
    type V = Commits<Seq<char>>;

    open spec fn view(&self) -> Commits<Seq<char>> {
        Commits { baseline: self.baseline@, feature: self.feature@ }
    }
}

impl Commits<Seq<char>> {
    /// The commit of a side.
    pub open spec fn of(self, ref_type: RefType) -> Seq<char> {
        match ref_type {
            RefType::Baseline => self.baseline,
            RefType::Feature => self.feature,
        }
    }
}

impl Commits<String> {
    /// Returns the commit of a side.
    pub fn commit(&self, ref_type: RefType) -> (res: String)
        ensures
            res@ == self@.of(ref_type),
    {
        match ref_type {
            RefType::Baseline => self.baseline.clone(),
            RefType::Feature => self.feature.clone(),
        }
    }
}

/// What the compilation phase waits for.
#[derive(Debug, PartialEq, Eq)]
pub enum CompilationState<S> {
    /// The benchmark tool to be available.
    EnsuringRethBench,
    /// The profiler to be available.
    EnsuringSamply,
    /// The baseline reference to be checked out.
    SwitchingToBaseline,
    /// The commit of the baseline reference.
    ReadingBaseline,
    /// The feature reference to be checked out.
    SwitchingToFeature {
        /// The commit of the baseline reference.
        baseline: S,
    },
    /// The commit of the feature reference.
    ReadingFeature {
        /// The commit of the baseline reference.
        baseline: S,
    },
    /// A reference to be checked out for compilation.
    CheckingOut {
        /// The reference.
        ref_type: RefType,
        /// The resolved commits.
        commits: Commits<S>,
    },
    /// A commit to be compiled.
    Compiling {
        /// The reference.
        ref_type: RefType,
        /// The resolved commits.
        commits: Commits<S>,
    },
}

impl View for CompilationState<String> {
    type V = CompilationState<Seq<char>>;

    open spec fn view(&self) -> CompilationState<Seq<char>> {
        match *self {
            CompilationState::EnsuringRethBench => CompilationState::EnsuringRethBench,
            CompilationState::EnsuringSamply => CompilationState::EnsuringSamply,
            CompilationState::SwitchingToBaseline => CompilationState::SwitchingToBaseline,
            CompilationState::ReadingBaseline => CompilationState::ReadingBaseline,
            CompilationState::SwitchingToFeature { baseline } =>
            CompilationState::SwitchingToFeature { baseline: baseline@ },
            CompilationState::ReadingFeature { baseline } => CompilationState::ReadingFeature {
                baseline: baseline@,
            },
            CompilationState::CheckingOut { ref_type, commits } => CompilationState::CheckingOut {
                ref_type,
                commits: commits@,
            },
            CompilationState::Compiling { ref_type, commits } => CompilationState::Compiling {
                ref_type,
                commits: commits@,
            },
        }
    }
}

impl<S> CompilationState<S> {
    /// The kind of event that the state waits for.
    pub open spec fn expects(self) -> Expected {
        match self {
            CompilationState::ReadingBaseline => Expected::Text,
            CompilationState::ReadingFeature { .. } => Expected::Text,
            _ => Expected::Unit,
        }
    }

    /// Returns the kind of event that the state waits for.
    pub fn expected(&self) -> (res: Expected)
        ensures
            res == self.expects(),
    {
        match self {
            CompilationState::ReadingBaseline => Expected::Text,
            CompilationState::ReadingFeature { .. } => Expected::Text,
            _ => Expected::Unit,
        }
    }
}

/// Where the compilation phase stands.
pub type CompilationStep<E> = Step<
    CompilationState<String>,
    Action,
    Commits<String>,
    CliFault<E>,
>;

/// The mathematical form of a step of the compilation phase.
pub type CompilationStepView<E> = Step<
    CompilationState<Seq<char>>,
    ActionView,
    Commits<Seq<char>>,
    FaultView<E>,
>;

/// The state and action that a switch to a reference leads to.
pub open spec fn check_out<E>(
    args: ArgsView,
    ref_type: RefType,
    commits: Commits<Seq<char>>,
) -> CompilationStepView<E> {
    Step::Perform {
        state: CompilationState::CheckingOut { ref_type, commits },
        action: Act::SwitchRef { git_ref: args.git_ref(ref_type) },
    }
}

/// How the compilation phase goes on after an event.
pub open spec fn compilation_next<E>(
    args: ArgsView,
    is_optimism: bool,
    state: CompilationState<Seq<char>>,
    event: EventView<E>,
) -> CompilationStepView<E> {
    if let Reply::Failed(e) = event {
        Step::Aborted(Fault::Action(e))
    } else {
        match state {
            CompilationState::EnsuringRethBench if args.profile => Step::Perform {
                state: CompilationState::EnsuringSamply,
                action: Act::EnsureSamply,
            },
            CompilationState::EnsuringRethBench | CompilationState::EnsuringSamply =>
            Step::Perform {
                state: CompilationState::SwitchingToBaseline,
                action: Act::SwitchRef { git_ref: args.baseline_ref },
            },
            CompilationState::SwitchingToBaseline => Step::Perform {
                state: CompilationState::ReadingBaseline,
                action: Act::ReadCurrentCommit,
            },
            CompilationState::ReadingBaseline => {
                let commit = event->Text_0;
                if args.feature_ref == args.baseline_ref {
                    check_out(
                        args,
                        RefType::Baseline,
                        Commits { baseline: commit, feature: commit },
                    )
                } else {
                    Step::Perform {
                        state: CompilationState::SwitchingToFeature { baseline: commit },
                        action: Act::SwitchRef { git_ref: args.feature_ref },
                    }
                }
            },
            CompilationState::SwitchingToFeature { baseline } => Step::Perform {
                state: CompilationState::ReadingFeature { baseline },
                action: Act::ReadCurrentCommit,
            },
            CompilationState::ReadingFeature { baseline } => check_out(
                args,
                RefType::Baseline,
                Commits { baseline, feature: event->Text_0 },
            ),
            CompilationState::CheckingOut { ref_type, commits } => Step::Perform {
                state: CompilationState::Compiling { ref_type, commits },
                action: Act::Compile { commit: commits.of(ref_type), is_optimism },
            },
            CompilationState::Compiling { ref_type: RefType::Baseline, commits } => check_out(
                args,
                RefType::Feature,
                commits,
            ),
            CompilationState::Compiling { ref_type: RefType::Feature, commits } => Step::Finished(
                commits,
            ),
        }
    }
}

/// The first state of the compilation phase and its action.
pub fn start_compilation() -> (res: (CompilationState<String>, Action))
    ensures
        res.0@ == CompilationState::<Seq<char>>::EnsuringRethBench,
        res.1@ == ActionView::EnsureRethBench,
{
    (CompilationState::EnsuringRethBench, Act::EnsureRethBench)
}

fn begin_check_out<E>(args: &Args, ref_type: RefType, commits: Commits<String>) -> (res:
    CompilationStep<E>)
    ensures
        res@ == check_out::<E>(args@, ref_type, commits@),
{
    let git_ref = args.git_ref(ref_type);
    Step::Perform {
        state: CompilationState::CheckingOut { ref_type, commits },
        action: Act::SwitchRef { git_ref },
    }
}

/// Takes the compilation phase on after an event.
pub fn advance_compilation<E>(
    args: &Args,
    is_optimism: bool,
    state: CompilationState<String>,
    event: Event<E>,
) -> (res: CompilationStep<E>)
    requires
        crate::protocol::fits(state@.expects(), event@),
    ensures
        res@ == compilation_next(args@, is_optimism, state@, event@),
        res matches Step::Perform { state, action } ==> crate::protocol::answer_kind(action@)
            == state@.expects(),
{
    if let Reply::Failed(e) = event {
        return Step::Aborted(Fault::Action(e));
    }
    match state {
        CompilationState::EnsuringRethBench => {
            if args.profile {
                Step::Perform {
                    state: CompilationState::EnsuringSamply,
                    action: Act::EnsureSamply,
                }
            } else {
                Step::Perform {
                    state: CompilationState::SwitchingToBaseline,
                    action: Act::SwitchRef { git_ref: args.baseline_ref.clone() },
                }
            }
        },
        CompilationState::EnsuringSamply => Step::Perform {
            state: CompilationState::SwitchingToBaseline,
            action: Act::SwitchRef { git_ref: args.baseline_ref.clone() },
        },
        CompilationState::SwitchingToBaseline => Step::Perform {
            state: CompilationState::ReadingBaseline,
            action: Act::ReadCurrentCommit,
        },
        CompilationState::ReadingBaseline => {
            let commit = take_text(event);
            if args.feature_ref == args.baseline_ref {
                let feature = commit.clone();
                begin_check_out(args, RefType::Baseline, Commits { baseline: commit, feature })
            } else {
                Step::Perform {
                    state: CompilationState::SwitchingToFeature { baseline: commit },
                    action: Act::SwitchRef { git_ref: args.feature_ref.clone() },
                }
            }
        },
        CompilationState::SwitchingToFeature { baseline } => Step::Perform {
            state: CompilationState::ReadingFeature { baseline },
            action: Act::ReadCurrentCommit,
        },
        CompilationState::ReadingFeature { baseline } => {
            let feature = take_text(event);
            begin_check_out(args, RefType::Baseline, Commits { baseline, feature })
        },
        CompilationState::CheckingOut { ref_type, commits } => {
            let commit = commits.commit(ref_type);
            Step::Perform {
                state: CompilationState::Compiling { ref_type, commits },
                action: Act::Compile { commit, is_optimism },
            }
        },
        CompilationState::Compiling { ref_type, commits } => match ref_type {
            RefType::Baseline => begin_check_out(args, RefType::Feature, commits),
            RefType::Feature => Step::Finished(commits),
        },
    }
}

} // verus!
