//! What passes between the comparison and the driver that carries it out.
//!
//! The comparison decides and the driver acts: each step of the comparison names one action, the
//! driver performs it and hands back the event that came of it. Types with a parameter `S` hold
//! texts, those with `L` lists of texts, those with `B` raw bytes. `E` is the error that the
//! driver reports for a failed action; it is passed on as it is.

use vstd::pervasive::unreached;
use vstd::prelude::*;
use crate::error::{CliError, Problem, RefType};

verus! {

/// The run that a node is started for.
#[derive(Debug, Clone, Copy, PartialEq, Eq, Structural)]
pub enum NodeRun {
    /// The warmup of the caches.
    Warmup,
    /// The benchmark of a reference.
    Benchmark(RefType),
}

impl NodeRun {
    /// The name of the run.
    pub open spec fn label(self) -> Seq<char> {
        match self {
            NodeRun::Warmup => "warmup"@,
            NodeRun::Benchmark(ref_type) => ref_type.label(),
        }
    }

    /// Returns the name of the run.
    pub fn name(self) -> (res: &'static str)
        ensures
            res@ == self.label(),
    {
        match self {
            NodeRun::Warmup => "warmup",
            NodeRun::Benchmark(ref_type) => ref_type.name(),
        }
    }
}

/// A point in time, as seconds and nanoseconds since the Unix epoch.
#[derive(Debug, Clone, Copy, PartialEq, Eq, Structural)]
pub struct Timestamp {
    /// Whole seconds.
    pub secs: i64,
    /// Nanoseconds within the second.
    pub nanos: u32,
}

/// How a command ended and what it wrote.
#[derive(Debug, PartialEq, Eq)]
pub struct CommandOutput<B> {
    /// Whether the command reported success.
    pub success: bool,
    /// The exit code, if there is one.
    pub code: Option<i32>,
    /// The bytes on standard output.
    pub stdout: B,
    /// The bytes on standard error.
    pub stderr: B,
}

/// One thing for the driver to do.
#[derive(Debug, PartialEq, Eq)]
pub enum Act<S, L> {
    /// Put the process and its children into a process group of their own.
    CreateProcessGroup,
    /// Open the git repository.
    OpenRepository,
    /// Fetch all branches, tags and commits.
    FetchAll,
    /// Read the home directory from the environment.
    ReadHome,
    /// Set up compilation, node, benchmark and report for the output directory.
    OpenWorkspace {
        /// The expanded output directory.
        output_dir: S,
    },
    /// Read the current git reference.
    ReadCurrentRef,
    /// Check that the working tree is clean.
    ValidateCleanState,
    /// Check that both references exist.
    ValidateRefs {
        /// The baseline reference.
        baseline_ref: S,
        /// The feature reference.
        feature_ref: S,
    },
    /// Ask the RPC endpoint for its chain ID.
    QueryChainId {
        /// The URL of the endpoint.
        rpc_url: S,
    },
    /// Have an interrupt end the children and restore the reference.
    InstallInterruptHandler {
        /// The reference to restore.
        original_ref: S,
    },
    /// Find out whether the endpoint serves an Optimism chain.
    DetectOptimism {
        /// The URL of the endpoint.
        rpc_url: S,
    },
    /// Make sure that the benchmark tool is available.
    EnsureRethBench,
    /// Make sure that the profiler is available.
    EnsureSamply,
    /// Check out a reference.
    SwitchRef {
        /// The reference.
        git_ref: S,
    },
    /// Read the commit that is checked out.
    ReadCurrentCommit,
    /// Compile the node, unless it is cached.
    Compile {
        /// The commit to compile.
        commit: S,
        /// Whether the Optimism node is meant.
        is_optimism: bool,
    },
    /// Tell where the cached binary for a commit is.
    LocateBinary {
        /// The commit.
        commit: S,
        /// Whether the Optimism node is meant.
        is_optimism: bool,
    },
    /// Tell whether a path exists.
    CheckExists {
        /// The path.
        path: S,
    },
    /// Start a node.
    StartNode {
        /// The binary.
        binary: S,
        /// The reference that it was built from.
        git_ref: S,
        /// What it is started for.
        run: NodeRun,
        /// Additional arguments.
        args: L,
    },
    /// Wait for the node to be ready and read its tip.
    AwaitTip,
    /// Clear the filesystem caches.
    ClearCaches,
    /// Run the warmup from a tip.
    RunWarmup {
        /// The tip.
        tip: u64,
    },
    /// Stop the node.
    StopNode,
    /// Unwind the database to a block.
    UnwindTo {
        /// The block.
        block: u64,
    },
    /// Tell the output directory of a reference.
    LocateRefOutput {
        /// The reference.
        ref_type: RefType,
    },
    /// Read the clock.
    ReadClock,
    /// Run the benchmark over a range of blocks.
    RunBenchmark {
        /// The first block, which the benchmark tool consumes.
        from_block: u64,
        /// The last block.
        to_block: u64,
        /// Where the results go.
        output_dir: S,
    },
    /// Hand the results of a reference to the report.
    AddRefResults {
        /// The reference.
        ref_type: RefType,
        /// Where the results are.
        output_dir: S,
    },
    /// Hand the start and end of a reference's benchmark to the report.
    SetRefTimestamps {
        /// The reference.
        ref_type: RefType,
        /// When the benchmark started.
        start: Timestamp,
        /// When it ended.
        end: Timestamp,
    },
    /// Generate the comparison report.
    GenerateReport,
    /// Tell the output directory of the report.
    LocateReportOutput,
    /// Run the chart script with `uv`.
    RunUv {
        /// The arguments.
        args: L,
    },
    /// Find two consecutive free ports.
    FindPorts {
        /// The first port to consider.
        start_port: u16,
    },
    /// Run `which samply`.
    WhichSamply,
    /// Start the profile server of a reference.
    SpawnSamply {
        /// The reference.
        ref_type: RefType,
        /// The profiler binary.
        program: S,
        /// The arguments.
        args: L,
    },
    /// Wait for a while.
    Sleep {
        /// For how many seconds.
        secs: u64,
    },
    /// Print a text.
    Print {
        /// The text.
        text: S,
    },
    /// Wait for an interrupt or for a profile server to end.
    AwaitServers,
    /// Kill both profile servers.
    KillServers,
}

/// An action as the driver gets it.
pub type Action = Act<String, Vec<String>>;

/// The mathematical form of an action.
pub type ActionView = Act<Seq<char>, Seq<Seq<char>>>;

impl View for Act<String, Vec<String>> {
    type V = Act<Seq<char>, Seq<Seq<char>>>;

    open spec fn view(&self) -> Act<Seq<char>, Seq<Seq<char>>> {
        match *self {
            Act::CreateProcessGroup => Act::CreateProcessGroup,
            Act::OpenRepository => Act::OpenRepository,
            Act::FetchAll => Act::FetchAll,
            Act::ReadHome => Act::ReadHome,
            Act::OpenWorkspace { output_dir } => Act::OpenWorkspace { output_dir: output_dir@ },
            Act::ReadCurrentRef => Act::ReadCurrentRef,
            Act::ValidateCleanState => Act::ValidateCleanState,
            Act::ValidateRefs { baseline_ref, feature_ref } => Act::ValidateRefs {
                baseline_ref: baseline_ref@,
                feature_ref: feature_ref@,
            },
            Act::QueryChainId { rpc_url } => Act::QueryChainId { rpc_url: rpc_url@ },
            Act::InstallInterruptHandler { original_ref } => Act::InstallInterruptHandler {
                original_ref: original_ref@,
            },
            Act::DetectOptimism { rpc_url } => Act::DetectOptimism { rpc_url: rpc_url@ },
            Act::EnsureRethBench => Act::EnsureRethBench,
            Act::EnsureSamply => Act::EnsureSamply,
            Act::SwitchRef { git_ref } => Act::SwitchRef { git_ref: git_ref@ },
            Act::ReadCurrentCommit => Act::ReadCurrentCommit,
            Act::Compile { commit, is_optimism } => Act::Compile { commit: commit@, is_optimism },
            Act::LocateBinary { commit, is_optimism } => Act::LocateBinary {
                commit: commit@,
                is_optimism,
            },
            Act::CheckExists { path } => Act::CheckExists { path: path@ },
            Act::StartNode { binary, git_ref, run, args } => Act::StartNode {
                binary: binary@,
                git_ref: git_ref@,
                run,
                args: crate::text::texts(args@),
            },
            Act::AwaitTip => Act::AwaitTip,
            Act::ClearCaches => Act::ClearCaches,
            Act::RunWarmup { tip } => Act::RunWarmup { tip },
            Act::StopNode => Act::StopNode,
            Act::UnwindTo { block } => Act::UnwindTo { block },
            Act::LocateRefOutput { ref_type } => Act::LocateRefOutput { ref_type },
            Act::ReadClock => Act::ReadClock,
            Act::RunBenchmark { from_block, to_block, output_dir } => Act::RunBenchmark {
                from_block,
                to_block,
                output_dir: output_dir@,
            },
            Act::AddRefResults { ref_type, output_dir } => Act::AddRefResults {
                ref_type,
                output_dir: output_dir@,
            },
            Act::SetRefTimestamps { ref_type, start, end } => Act::SetRefTimestamps {
                ref_type,
                start,
                end,
            },
            Act::GenerateReport => Act::GenerateReport,
            Act::LocateReportOutput => Act::LocateReportOutput,
            Act::RunUv { args } => Act::RunUv { args: crate::text::texts(args@) },
            Act::FindPorts { start_port } => Act::FindPorts { start_port },
            Act::WhichSamply => Act::WhichSamply,
            Act::SpawnSamply { ref_type, program, args } => Act::SpawnSamply {
                ref_type,
                program: program@,
                args: crate::text::texts(args@),
            },
            Act::Sleep { secs } => Act::Sleep { secs },
            Act::Print { text } => Act::Print { text: text@ },
            Act::AwaitServers => Act::AwaitServers,
            Act::KillServers => Act::KillServers,
        }
    }
}

/// What came of an action.
#[derive(Debug, PartialEq, Eq)]
pub enum Reply<S, B, E> {
    /// It was done, and there is nothing to tell.
    Done,
    /// It failed.
    Failed(E),
    /// It answered yes or no.
    Flag(bool),
    /// It gave a text: a reference, a commit or a path.
    Text(S),
    /// It gave the home directory, if there is one.
    Home(Option<S>),
    /// It gave the tip of the node.
    Tip(u64),
    /// It gave the time.
    Time(Timestamp),
    /// It gave the chain ID of the endpoint.
    ChainId(u64),
    /// It could not tell, and this is what it failed with.
    Reason(S),
    /// It ran a command to its end.
    Output(CommandOutput<B>),
    /// It found two consecutive free ports.
    Ports {
        /// The port for the baseline.
        baseline: u16,
        /// The port for the feature.
        feature: u16,
    },
    /// It found no two consecutive free ports.
    NoPorts,
}

/// An event as the driver gives it.
pub type Event<E> = Reply<String, Vec<u8>, E>;

/// The mathematical form of an event.
pub type EventView<E> = Reply<Seq<char>, Seq<u8>, E>;

impl View for CommandOutput<Vec<u8>> {
    type V = CommandOutput<Seq<u8>>;

    open spec fn view(&self) -> CommandOutput<Seq<u8>> {
        CommandOutput {
            success: self.success,
            code: self.code,
            stdout: self.stdout@,
            stderr: self.stderr@,
        }
    }
}

impl<E> View for Reply<String, Vec<u8>, E> {
    type V = Reply<Seq<char>, Seq<u8>, E>;

    open spec fn view(&self) -> Reply<Seq<char>, Seq<u8>, E> {
        match *self {
            Reply::Done => Reply::Done,
            Reply::Failed(e) => Reply::Failed(e),
            Reply::Flag(b) => Reply::Flag(b),
            Reply::Text(s) => Reply::Text(s@),
            Reply::Home(home) => Reply::Home(crate::text::opt_text(home)),
            Reply::Tip(n) => Reply::Tip(n),
            Reply::Time(t) => Reply::Time(t),
            Reply::ChainId(id) => Reply::ChainId(id),
            Reply::Reason(s) => Reply::Reason(s@),
            Reply::Output(out) => Reply::Output(out@),
            Reply::Ports { baseline, feature } => Reply::Ports { baseline, feature },
            Reply::NoPorts => Reply::NoPorts,
        }
    }
}

/// What a failed action was part of, where the failure is reported with that.
#[derive(Debug, Clone, Copy, PartialEq, Eq, Structural)]
pub enum Context {
    /// The search for the profiler.
    WhichSamply,
    /// The start of a profile server.
    SpawnSamply(RefType),
}

impl Context {
    /// The sentence that a failure is reported with.
    pub open spec fn sentence(self) -> Seq<char> {
        match self {
            Context::WhichSamply => "Failed to execute 'which samply' command"@,
            Context::SpawnSamply(RefType::Baseline) =>
            "Failed to start samply server for baseline"@,
            Context::SpawnSamply(RefType::Feature) => "Failed to start samply server for feature"@,
        }
    }

    /// Returns the sentence that a failure is reported with.
    pub fn message(self) -> (res: &'static str)
        ensures
            res@ == self.sentence(),
    {
        match self {
            Context::WhichSamply => "Failed to execute 'which samply' command",
            Context::SpawnSamply(RefType::Baseline) =>
            "Failed to start samply server for baseline",
            Context::SpawnSamply(RefType::Feature) => "Failed to start samply server for feature",
        }
    }
}

/// Why a comparison ends without success.
#[derive(Debug, PartialEq, Eq)]
pub enum Fault<P, E> {
    /// An action failed, with the driver's error.
    Action(E),
    /// An action failed; its error is reported with a context.
    Wrapped(Context, E),
    /// The library found a problem.
    Problem(P),
}

/// A fault as the library returns it.
pub type CliFault<E> = Fault<CliError, E>;

/// The mathematical form of a fault.
pub type FaultView<E> = Fault<Problem<Seq<char>>, E>;

impl<E> View for Fault<Problem<String>, E> {
    type V = Fault<Problem<Seq<char>>, E>;

    open spec fn view(&self) -> Fault<Problem<Seq<char>>, E> {
        match *self {
            Fault::Action(e) => Fault::Action(e),
            Fault::Wrapped(context, e) => Fault::Wrapped(context, e),
            Fault::Problem(p) => Fault::Problem(p@),
        }
    }
}

/// Where a phase stands after an event.
#[derive(Debug, PartialEq, Eq)]
pub enum Step<St, A, T, F> {
    /// It goes on in a state, with an action to perform.
    Perform {
        /// The state to resume from.
        state: St,
        /// The action.
        action: A,
    },
    /// It is done, with its result.
    Finished(T),
    /// It has failed.
    Aborted(F),
}

impl<St: View, A: View, T: View, F: View> View for Step<St, A, T, F> {
    type V = Step<St::V, A::V, T::V, F::V>;

    open spec fn view(&self) -> Step<St::V, A::V, T::V, F::V> {
        match *self {
            Step::Perform { state, action } => Step::Perform { state: state@, action: action@ },
            Step::Finished(t) => Step::Finished(t@),
            Step::Aborted(f) => Step::Aborted(f@),
        }
    }
}

/// The kind of event that an action is answered with.
#[derive(Debug, Clone, Copy, PartialEq, Eq, Structural)]
pub enum Expected {
    /// `Done`.
    Done,
    /// `Done` or `Failed`.
    Unit,
    /// `Flag` or `Failed`.
    FallibleFlag,
    /// `Flag`.
    Flag,
    /// `Text` or `Failed`.
    Text,
    /// `Home`.
    Home,
    /// `Tip` or `Failed`.
    Tip,
    /// `Time`.
    Time,
    /// `ChainId` or `Reason`.
    ChainId,
    /// `Output` or `Reason`.
    Script,
    /// `Output` or `Failed`.
    Command,
    /// `Ports` or `NoPorts`.
    Ports,
}

/// Whether an event is of a kind.
pub open spec fn fits<E>(expected: Expected, event: EventView<E>) -> bool {
    match expected {
        Expected::Done => event is Done,
        Expected::Unit => event is Done || event is Failed,
        Expected::FallibleFlag => event is Flag || event is Failed,
        Expected::Flag => event is Flag,
        Expected::Text => event is Text || event is Failed,
        Expected::Home => event is Home,
        Expected::Tip => event is Tip || event is Failed,
        Expected::Time => event is Time,
        Expected::ChainId => event is ChainId || event is Reason,
        Expected::Script => event is Output || event is Reason,
        Expected::Command => event is Output || event is Failed,
        Expected::Ports => event is Ports || event is NoPorts,
    }
}

/// Tests whether an event is of a kind.
pub fn event_fits<E>(expected: Expected, event: &Event<E>) -> (res: bool)
    ensures
        res == fits(expected, event@),
{
    match (expected, event) {
        (Expected::Done, Reply::Done) => true,
        (Expected::Unit, Reply::Done) => true,
        (Expected::Unit, Reply::Failed(_)) => true,
        (Expected::FallibleFlag, Reply::Flag(_)) => true,
        (Expected::FallibleFlag, Reply::Failed(_)) => true,
        (Expected::Flag, Reply::Flag(_)) => true,
        (Expected::Text, Reply::Text(_)) => true,
        (Expected::Text, Reply::Failed(_)) => true,
        (Expected::Home, Reply::Home(_)) => true,
        (Expected::Tip, Reply::Tip(_)) => true,
        (Expected::Tip, Reply::Failed(_)) => true,
        (Expected::Time, Reply::Time(_)) => true,
        (Expected::ChainId, Reply::ChainId(_)) => true,
        (Expected::ChainId, Reply::Reason(_)) => true,
        (Expected::Script, Reply::Output(_)) => true,
        (Expected::Script, Reply::Reason(_)) => true,
        (Expected::Command, Reply::Output(_)) => true,
        (Expected::Command, Reply::Failed(_)) => true,
        (Expected::Ports, Reply::Ports { .. }) => true,
        (Expected::Ports, Reply::NoPorts) => true,
        _ => false,
    }
}

/// The kind of event that an action is answered with.
pub open spec fn answer_kind<S, L>(action: Act<S, L>) -> Expected {
    match action {
        Act::ReadHome => Expected::Home,
        Act::ReadCurrentRef => Expected::Text,
        Act::QueryChainId { .. } => Expected::ChainId,
        Act::DetectOptimism { .. } => Expected::FallibleFlag,
        Act::ReadCurrentCommit => Expected::Text,
        Act::LocateBinary { .. } => Expected::Text,
        Act::CheckExists { .. } => Expected::Flag,
        Act::AwaitTip => Expected::Tip,
        Act::LocateRefOutput { .. } => Expected::Text,
        Act::ReadClock => Expected::Time,
        Act::LocateReportOutput => Expected::Text,
        Act::RunUv { .. } => Expected::Script,
        Act::FindPorts { .. } => Expected::Ports,
        Act::WhichSamply => Expected::Command,
        Act::Sleep { .. } => Expected::Done,
        Act::Print { .. } => Expected::Done,
        Act::AwaitServers => Expected::Done,
        Act::KillServers => Expected::Done,
        _ => Expected::Unit,
    }
}

/// Takes the answer out of an event that holds a yes or no.
pub(crate) fn take_flag<E>(event: Event<E>) -> (res: bool)
    requires
        event@ is Flag,
    ensures
        res == event@->Flag_0,
{
    match event {
        Reply::Flag(b) => b,
        _ => unreached(),
    }
}

/// Takes the text out of an event that holds one.
pub(crate) fn take_text<E>(event: Event<E>) -> (res: String)
    requires
        event@ is Text,
    ensures
        res@ == event@->Text_0,
{
    match event {
        Reply::Text(s) => s,
        _ => unreached(),
    }
}

/// Takes the home directory out of an event that holds one.
pub(crate) fn take_home<E>(event: Event<E>) -> (res: Option<String>)
    requires
        event@ is Home,
    ensures
        crate::text::opt_text(res) == event@->Home_0,
{
    match event {
        Reply::Home(home) => home,
        _ => unreached(),
    }
}

/// Takes the tip out of an event that holds one.
pub(crate) fn take_tip<E>(event: Event<E>) -> (res: u64)
    requires
        event@ is Tip,
    ensures
        res == event@->Tip_0,
{
    match event {
        Reply::Tip(n) => n,
        _ => unreached(),
    }
}

/// Takes the time out of an event that holds one.
pub(crate) fn take_time<E>(event: Event<E>) -> (res: Timestamp)
    requires
        event@ is Time,
    ensures
        res == event@->Time_0,
{
    match event {
        Reply::Time(t) => t,
        _ => unreached(),
    }
}

} // verus!
