//! The whole comparison: set up, validate, run the workflow, and always restore the git
//! reference that was checked out at the start.

use vstd::prelude::*;
use crate::args::{Args, ArgsView};
use crate::chain::{check_rpc_url, validate_rpc_chain_id};
use crate::error::{CliError, Problem};
use crate::protocol::{
    event_fits, take_home, take_text, Act, Action, ActionView, CliFault, Event, EventView, Expected, Fault,
    FaultView, Reply, Step,
};
use crate::workflow::{
    advance_workflow, start_workflow, workflow_can_take, Completion, WorkflowState,
};

verus! {

/// How the workflow ended.
#[derive(Debug, PartialEq, Eq)]
pub enum Outcome<F> {
    /// It was completed.
    Completed(Completion),
    /// It failed.
    Faulted(F),
}

impl<E> View for Outcome<Fault<Problem<String>, E>> {
    type V = Outcome<Fault<Problem<Seq<char>>, E>>;

    open spec fn view(&self) -> Outcome<Fault<Problem<Seq<char>>, E>> {
        match *self {
            Outcome::Completed(completion) => Outcome::Completed(completion),
            Outcome::Faulted(fault) => Outcome::Faulted(fault@),
        }
    }
}

/// What the comparison waits for.
#[derive(Debug, PartialEq, Eq)]
pub enum ComparisonState<S, F> {
    /// The process group.
    CreatingProcessGroup,
    /// The repository to be opened.
    OpeningRepository,
    /// Everything to be fetched.
    FetchingAll,
    /// The home directory.
    ReadingHome,
    /// The workspace.
    OpeningWorkspace,
    /// The current git reference.
    ReadingCurrentRef,
    /// Whether the working tree is clean.
    ValidatingCleanState {
        /// The reference to restore.
        original_ref: S,
    },
    /// Whether the references exist.
    ValidatingRefs {
        /// The reference to restore.
        original_ref: S,
    },
    /// The chain ID of the RPC endpoint.
    QueryingChainId {
        /// The reference to restore.
        original_ref: S,
    },
    /// The interrupt handler.
    InstallingHandler {
        /// The reference to restore.
        original_ref: S,
    },
    /// The workflow.
    Working {
        /// The reference to restore.
        original_ref: S,
        /// Where the workflow stands.
        work: WorkflowState<S>,
    },
    /// The reference to be restored.
    Restoring {
        /// How the workflow ended.
        outcome: Outcome<F>,
    },
}

impl<E> View for ComparisonState<String, Fault<Problem<String>, E>> {
    type V = ComparisonState<Seq<char>, Fault<Problem<Seq<char>>, E>>;

    open spec fn view(&self) -> ComparisonState<Seq<char>, Fault<Problem<Seq<char>>, E>> {
        match *self {
            ComparisonState::CreatingProcessGroup => ComparisonState::CreatingProcessGroup,
            ComparisonState::OpeningRepository => ComparisonState::OpeningRepository,
            ComparisonState::FetchingAll => ComparisonState::FetchingAll,
            ComparisonState::ReadingHome => ComparisonState::ReadingHome,
            ComparisonState::OpeningWorkspace => ComparisonState::OpeningWorkspace,
            ComparisonState::ReadingCurrentRef => ComparisonState::ReadingCurrentRef,
            ComparisonState::ValidatingCleanState { original_ref } =>
            ComparisonState::ValidatingCleanState { original_ref: original_ref@ },
            ComparisonState::ValidatingRefs { original_ref } => ComparisonState::ValidatingRefs {
                original_ref: original_ref@,
            },
            ComparisonState::QueryingChainId { original_ref } =>
            ComparisonState::QueryingChainId { original_ref: original_ref@ },
            ComparisonState::InstallingHandler { original_ref } =>
            ComparisonState::InstallingHandler { original_ref: original_ref@ },
            ComparisonState::Working { original_ref, work } => ComparisonState::Working {
                original_ref: original_ref@,
                work: work@,
            },
            ComparisonState::Restoring { outcome } => ComparisonState::Restoring {
                outcome: outcome@,
            },
        }
    }
}

impl<S, F> ComparisonState<S, F> {
    /// The kind of event that the state waits for.
    pub open spec fn expects(self) -> Expected {
        match self {
            ComparisonState::ReadingHome => Expected::Home,
            ComparisonState::ReadingCurrentRef => Expected::Text,
            ComparisonState::QueryingChainId { .. } => Expected::ChainId,
            ComparisonState::Working { work, .. } => work.expects(),
            _ => Expected::Unit,
        }
    }

    /// Returns the kind of event that the state waits for.
    pub fn expected(&self) -> (res: Expected)
        ensures
            res == self.expects(),
    {
        match self {
            ComparisonState::ReadingHome => Expected::Home,
            ComparisonState::ReadingCurrentRef => Expected::Text,
            ComparisonState::QueryingChainId { .. } => Expected::ChainId,
            ComparisonState::Working { work, .. } => work.expected(),
            _ => Expected::Unit,
        }
    }
}

/// The state of a comparison as the driver keeps it.
pub type Comparison<E> = ComparisonState<String, CliFault<E>>;

/// The mathematical form of a comparison's state.
pub type ComparisonView<E> = ComparisonState<Seq<char>, FaultView<E>>;

/// Where the comparison stands.
pub type ComparisonStep<E> = Step<Comparison<E>, Action, Completion, CliFault<E>>;

/// The mathematical form of a step of the comparison.
pub type ComparisonStepView<E> = Step<
    ComparisonView<E>,
    ActionView,
    Completion,
    FaultView<E>,
>;

/// The event is one that the comparison can go on with.
pub open spec fn comparison_accepts<E>(
    args: ArgsView,
    state: ComparisonView<E>,
    event: EventView<E>,
) -> bool {
    &&& crate::protocol::fits(state.expects(), event)
    &&& state matches ComparisonState::Working { work, .. } ==> crate::workflow::workflow_accepts(
        args,
        work,
        event,
    )
}

/// Tests whether the comparison can go on with an event.
pub fn comparison_can_take<E>(args: &Args, state: &Comparison<E>, event: &Event<E>) -> (res: bool)
    ensures
        res == comparison_accepts(args@, state@, event@),
{
    if !event_fits(state.expected(), event) {
        return false;
    }
    match state {
        ComparisonState::Working { work, .. } => workflow_can_take(args, work, event),
        _ => true,
    }
}

/// The chain ID query, if the RPC URL parses; `url_error` is why it does not.
pub open spec fn query_begun<E>(
    args: ArgsView,
    original_ref: Seq<char>,
    url_error: Option<Seq<char>>,
) -> ComparisonStepView<E> {
    let rpc_url = args.effective_rpc_url();
    match crate::chain::rpc_url_verdict(rpc_url, url_error) {
        Err(problem) => Step::Aborted(Fault::Problem(problem)),
        Ok(_) => Step::Perform {
            state: ComparisonState::QueryingChainId { original_ref },
            action: Act::QueryChainId { rpc_url },
        },
    }
}

/// The restoration of the original reference.
pub open spec fn restoration<E>(
    original_ref: Seq<char>,
    outcome: Outcome<FaultView<E>>,
) -> ComparisonStepView<E> {
    Step::Perform {
        state: ComparisonState::Restoring { outcome },
        action: Act::SwitchRef { git_ref: original_ref },
    }
}

/// The end of the comparison once the workflow has ended.
pub open spec fn conclusion<E>(outcome: Outcome<FaultView<E>>) -> ComparisonStepView<E> {
    match outcome {
        Outcome::Completed(completion) => Step::Finished(completion),
        Outcome::Faulted(fault) => Step::Aborted(fault),
    }
}

/// How the comparison goes on after an event.
pub open spec fn comparison_next<E>(
    args: ArgsView,
    state: ComparisonView<E>,
    event: EventView<E>,
) -> ComparisonStepView<E> {
    match state {
        // A process group that cannot be created is no reason to stop.
        ComparisonState::CreatingProcessGroup => Step::Perform {
            state: ComparisonState::OpeningRepository,
            action: Act::OpenRepository,
        },
        ComparisonState::QueryingChainId { original_ref } => match crate::chain::chain_id_verdict(
            args.effective_rpc_url(),
            args.chain,
            match event {
                Reply::ChainId(id) => Ok(id),
                _ => Err(event->Reason_0),
            },
        ) {
            Err(problem) => Step::Aborted(Fault::Problem(problem)),
            Ok(_) => Step::Perform {
                state: ComparisonState::InstallingHandler { original_ref },
                action: Act::InstallInterruptHandler { original_ref },
            },
        },
        ComparisonState::Working { original_ref, work } => match crate::workflow::workflow_next(
            args,
            work,
            event,
        ) {
            Step::Perform { state, action } => Step::Perform {
                state: ComparisonState::Working { original_ref, work: state },
                action,
            },
            Step::Finished(completion) => restoration(
                original_ref,
                Outcome::Completed(completion),
            ),
            Step::Aborted(fault) => restoration(original_ref, Outcome::Faulted(fault)),
        },
        _ => if let Reply::Failed(e) = event {
            Step::Aborted(Fault::Action(e))
        } else {
            match state {
                ComparisonState::OpeningRepository => Step::Perform {
                    state: ComparisonState::FetchingAll,
                    action: Act::FetchAll,
                },
                ComparisonState::FetchingAll => Step::Perform {
                    state: ComparisonState::ReadingHome,
                    action: Act::ReadHome,
                },
                ComparisonState::ReadingHome => Step::Perform {
                    state: ComparisonState::OpeningWorkspace,
                    action: Act::OpenWorkspace {
                        output_dir: args.expanded_output_dir(event->Home_0),
                    },
                },
                ComparisonState::OpeningWorkspace => Step::Perform {
                    state: ComparisonState::ReadingCurrentRef,
                    action: Act::ReadCurrentRef,
                },
                ComparisonState::ReadingCurrentRef => if args.skip_git_validation {
                    query_begun(
                        args,
                        event->Text_0,
                        crate::outside::url_error(args.effective_rpc_url()),
                    )
                } else {
                    Step::Perform {
                        state: ComparisonState::ValidatingCleanState {
                            original_ref: event->Text_0,
                        },
                        action: Act::ValidateCleanState,
                    }
                },
                ComparisonState::ValidatingCleanState { original_ref } => Step::Perform {
                    state: ComparisonState::ValidatingRefs { original_ref },
                    action: Act::ValidateRefs {
                        baseline_ref: args.baseline_ref,
                        feature_ref: args.feature_ref,
                    },
                },
                ComparisonState::ValidatingRefs { original_ref } => query_begun(
                    args,
                    original_ref,
                    crate::outside::url_error(args.effective_rpc_url()),
                ),
                ComparisonState::InstallingHandler { original_ref } => Step::Perform {
                    state: ComparisonState::Working {
                        original_ref,
                        work: WorkflowState::DetectingOptimism,
                    },
                    action: Act::DetectOptimism { rpc_url: args.effective_rpc_url() },
                },
                _ => conclusion(state->Restoring_outcome),
            }
        },
    }
}

/// The first state of the comparison and its action.
pub fn start_comparison<E>() -> (res: (Comparison<E>, Action))
    ensures
        res.0@ == ComparisonView::<E>::CreatingProcessGroup,
        res.1@ == ActionView::CreateProcessGroup,
{
    (ComparisonState::CreatingProcessGroup, Act::CreateProcessGroup)
}

/// Asks for the chain ID of an RPC endpoint whose URL passed its check.
pub fn begin_query<E>(
    rpc_url: String,
    original_ref: String,
    checked: Result<(), CliError>,
) -> (res: ComparisonStep<E>)
    ensures
        res@ == (match crate::chain::verdict_view(checked) {
            Err(problem) => ComparisonStepView::<E>::Aborted(Fault::Problem(problem)),
            Ok(_) => Step::Perform {
                state: ComparisonState::QueryingChainId { original_ref: original_ref@ },
                action: Act::QueryChainId { rpc_url: rpc_url@ },
            },
        }),
{
    match checked {
        Err(problem) => Step::Aborted(Fault::Problem(problem)),
        Ok(_) => Step::Perform {
            state: ComparisonState::QueryingChainId { original_ref },
            action: Act::QueryChainId { rpc_url },
        },
    }
}

fn check_and_query<E>(args: &Args, original_ref: String) -> (res: ComparisonStep<E>)
    ensures
        res@ == query_begun::<E>(
            args@,
            original_ref@,
            crate::outside::url_error(args@.effective_rpc_url()),
        ),
{
    let rpc_url = args.get_rpc_url();
    let checked = check_rpc_url(rpc_url.as_str());
    begin_query(rpc_url, original_ref, checked)
}

/// Takes the comparison on after an event.
pub fn advance_comparison<E>(args: &Args, state: Comparison<E>, event: Event<E>) -> (res:
    ComparisonStep<E>)
    requires
        comparison_accepts(args@, state@, event@),
    ensures
        res@ == comparison_next(args@, state@, event@),
        res matches Step::Perform { state, action } ==> crate::protocol::answer_kind(action@)
            == state@.expects(),
{
    match state {
        ComparisonState::CreatingProcessGroup => Step::Perform {
            state: ComparisonState::OpeningRepository,
            action: Act::OpenRepository,
        },
        ComparisonState::QueryingChainId { original_ref } => {
            let rpc_url = args.get_rpc_url();
            let answer: Result<u64, String> = match event {
                Reply::ChainId(id) => Ok(id),
                Reply::Reason(reason) => Err(reason),
                _ => vstd::pervasive::unreached(),
            };
            match validate_rpc_chain_id(rpc_url.as_str(), &args.chain, answer) {
                Err(problem) => Step::Aborted(Fault::Problem(problem)),
                Ok(_) => {
                    let restore = original_ref.clone();
                    Step::Perform {
                        state: ComparisonState::InstallingHandler { original_ref },
                        action: Act::InstallInterruptHandler { original_ref: restore },
                    }
                },
            }
        },
        ComparisonState::Working { original_ref, work } => {
            match advance_workflow(args, work, event) {
                Step::Perform { state, action } => Step::Perform {
                    state: ComparisonState::Working { original_ref, work: state },
                    action,
                },
                Step::Finished(completion) => Step::Perform {
                    state: ComparisonState::Restoring { outcome: Outcome::Completed(completion) },
                    action: Act::SwitchRef { git_ref: original_ref },
                },
                Step::Aborted(fault) => Step::Perform {
                    state: ComparisonState::Restoring { outcome: Outcome::Faulted(fault) },
                    action: Act::SwitchRef { git_ref: original_ref },
                },
            }
        },
        other => {
            if let Reply::Failed(e) = event {
                return Step::Aborted(Fault::Action(e));
            }
            match other {
                ComparisonState::OpeningRepository => Step::Perform {
                    state: ComparisonState::FetchingAll,
                    action: Act::FetchAll,
                },
                ComparisonState::FetchingAll => Step::Perform {
                    state: ComparisonState::ReadingHome,
                    action: Act::ReadHome,
                },
                ComparisonState::ReadingHome => {
                    let home = take_home(event);
                    Step::Perform {
                        state: ComparisonState::OpeningWorkspace,
                        action: Act::OpenWorkspace { output_dir: args.output_dir_at(&home) },
                    }
                },
                ComparisonState::OpeningWorkspace => Step::Perform {
                    state: ComparisonState::ReadingCurrentRef,
                    action: Act::ReadCurrentRef,
                },
                ComparisonState::ReadingCurrentRef => {
                    let original_ref = take_text(event);
                    if args.skip_git_validation {
                        check_and_query(args, original_ref)
                    } else {
                        Step::Perform {
                            state: ComparisonState::ValidatingCleanState { original_ref },
                            action: Act::ValidateCleanState,
                        }
                    }
                },
                ComparisonState::ValidatingCleanState { original_ref } => Step::Perform {
                    state: ComparisonState::ValidatingRefs { original_ref },
                    action: Act::ValidateRefs {
                        baseline_ref: args.baseline_ref.clone(),
                        feature_ref: args.feature_ref.clone(),
                    },
                },
                ComparisonState::ValidatingRefs { original_ref } => check_and_query(
                    args,
                    original_ref,
                ),
                ComparisonState::InstallingHandler { original_ref } => {
                    let (work, action) = start_workflow(args);
                    Step::Perform {
                        state: ComparisonState::Working { original_ref, work },
                        action,
                    }
                },
                ComparisonState::Restoring { outcome } => match outcome {
                    Outcome::Completed(completion) => Step::Finished(completion),
                    Outcome::Faulted(fault) => Step::Aborted(fault),
                },
                _ => vstd::pervasive::unreached(),
            }
        },
    }
}

} // verus!
