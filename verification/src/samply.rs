//! The profile servers: one for each reference, on consecutive ports, until an interrupt or the
//! end of either.

use vstd::prelude::*;
use vstd::string::*;
use crate::args::{Args, ArgsView};
use crate::error::{CliError, Problem, RefType};
use crate::outside::decode_strict;
use crate::paths::join;
use crate::protocol::{
    event_fits, take_flag, take_home, Act, Action, ActionView, CliFault, CommandOutput, Context, Event,
    EventView, Expected, Fault, FaultView, Reply, Step,
};
use crate::text::{decimal_text, trim};

verus! {

/// The first port that is considered for the servers.
pub const FIRST_PORT: u16 = 3000;

/// How long the servers are given to start, in seconds.
pub const SETTLE_SECS: u64 = 2;

/// The profiles of the two runs.
#[derive(Debug, PartialEq, Eq)]
pub struct Profiles<S> {
    /// The profile of the baseline.
    pub baseline: S,
    /// The profile of the feature.
    pub feature: S,
}

impl View for Profiles<String> {
    type V = Profiles<Seq<char>>;

    open spec fn view(&self) -> Profiles<Seq<char>> {
        Profiles { baseline: self.baseline@, feature: self.feature@ }
    }
}

/// The ports of the two servers.
#[derive(Debug, Clone, Copy, PartialEq, Eq, Structural)]
pub struct ServerPorts {
    /// The port of the baseline server.
    pub baseline: u16,
    /// The port of the feature server.
    pub feature: u16,
}

/// What the profile servers wait for.
#[derive(Debug, PartialEq, Eq)]
pub enum SamplyState<S> {
    /// The home directory.
    ReadingHome,
    /// Whether the profile of a reference exists.
    CheckingProfile {
        /// The reference.
        ref_type: RefType,
        /// The profiles.
        profiles: Profiles<S>,
    },
    /// Two consecutive free ports.
    FindingPorts {
        /// The profiles.
        profiles: Profiles<S>,
    },
    /// The path of the profiler.
    FindingSamply {
        /// The profiles.
        profiles: Profiles<S>,
        /// The ports.
        ports: ServerPorts,
    },
    /// The baseline server to be started.
    SpawningBaseline {
        /// The profiler.
        program: S,
        /// The profile of the feature.
        feature_profile: S,
        /// The ports.
        ports: ServerPorts,
    },
    /// The feature server to be started.
    SpawningFeature {
        /// The ports.
        ports: ServerPorts,
    },
    /// The servers to come up.
    Settling {
        /// The ports.
        ports: ServerPorts,
    },
    /// The addresses to be printed.
    Announcing,
    /// An interrupt, or the end of a server.
    AwaitingServers,
    /// The servers to be killed.
    KillingServers,
}

impl View for SamplyState<String> {
    type V = SamplyState<Seq<char>>;

    open spec fn view(&self) -> SamplyState<Seq<char>> {
        match *self {
            SamplyState::ReadingHome => SamplyState::ReadingHome,
            SamplyState::CheckingProfile { ref_type, profiles } => SamplyState::CheckingProfile {
                ref_type,
                profiles: profiles@,
            },
            SamplyState::FindingPorts { profiles } => SamplyState::FindingPorts {
                profiles: profiles@,
            },
            SamplyState::FindingSamply { profiles, ports } => SamplyState::FindingSamply {
                profiles: profiles@,
                ports,
            },
            SamplyState::SpawningBaseline { program, feature_profile, ports } =>
            SamplyState::SpawningBaseline {
                program: program@,
                feature_profile: feature_profile@,
                ports,
            },
            SamplyState::SpawningFeature { ports } => SamplyState::SpawningFeature { ports },
            SamplyState::Settling { ports } => SamplyState::Settling { ports },
            SamplyState::Announcing => SamplyState::Announcing,
            SamplyState::AwaitingServers => SamplyState::AwaitingServers,
            SamplyState::KillingServers => SamplyState::KillingServers,
        }
    }
}

impl<S> SamplyState<S> {
    /// The kind of event that the state waits for.
    pub open spec fn expects(self) -> Expected {
        match self {
            SamplyState::ReadingHome => Expected::Home,
            SamplyState::CheckingProfile { .. } => Expected::Flag,
            SamplyState::FindingPorts { .. } => Expected::Ports,
            SamplyState::FindingSamply { .. } => Expected::Command,
            SamplyState::SpawningBaseline { .. } => Expected::Unit,
            SamplyState::SpawningFeature { .. } => Expected::Unit,
            _ => Expected::Done,
        }
    }

    /// Returns the kind of event that the state waits for.
    pub fn expected(&self) -> (res: Expected)
        ensures
            res == self.expects(),
    {
        match self {
            SamplyState::ReadingHome => Expected::Home,
            SamplyState::CheckingProfile { .. } => Expected::Flag,
            SamplyState::FindingPorts { .. } => Expected::Ports,
            SamplyState::FindingSamply { .. } => Expected::Command,
            SamplyState::SpawningBaseline { .. } => Expected::Unit,
            SamplyState::SpawningFeature { .. } => Expected::Unit,
            _ => Expected::Done,
        }
    }
}

/// How the profile servers ended.
#[derive(Debug, Clone, Copy, PartialEq, Eq, Structural)]
pub enum Serving {
    /// They ran and were stopped.
    Stopped,
    /// They were not started, for want of a profile.
    ProfileMissing(RefType),
}

impl View for Serving {
    type V = Serving;

    open spec fn view(&self) -> Serving {
        *self
    }
}

/// Where the profile servers stand.
pub type SamplyStep<E> = Step<SamplyState<String>, Action, Serving, CliFault<E>>;

/// The mathematical form of a step of the profile servers.
pub type SamplyStepView<E> = Step<SamplyState<Seq<char>>, ActionView, Serving, FaultView<E>>;

/// The profile of a reference in the output directory.
pub open spec fn profile_path(output_dir: Seq<char>, ref_type: RefType) -> Seq<char> {
    let profiles_dir = crate::paths::below(output_dir, "profiles"@);
    match ref_type {
        RefType::Baseline => crate::paths::below(profiles_dir, "baseline.json.gz"@),
        RefType::Feature => crate::paths::below(profiles_dir, "feature.json.gz"@),
    }
}

/// The arguments that the profiler serves a profile with.
pub open spec fn server_arguments(port: u16, profile: Seq<char>) -> Seq<Seq<char>> {
    seq!["load"@, "--port"@, crate::text::decimal(port as nat), profile]
}

/// The text that tells where the servers are.
pub open spec fn announcement(args: ArgsView, ports: ServerPorts) -> Seq<char> {
    "\n=== SAMPLY PROFILE SERVERS STARTED ===\nBaseline '"@ + args.baseline_ref
        + "': http://127.0.0.1:"@ + crate::text::decimal(ports.baseline as nat) + "\nFeature  '"@
        + args.feature_ref + "': http://127.0.0.1:"@ + crate::text::decimal(ports.feature as nat)
        + "\n\nOpen the URLs in your browser to view the profiles.\nPress Ctrl+C to stop the servers and exit.\n=========================================\n\n"@
}

/// The profile of a side is the file of that side in `profiles`, below the output directory: what
/// stands before is the output directory, and a separator unless that is empty or ends with one.
pub proof fn law_profiles_are_below_the_output_directory(output_dir: Seq<char>)
    ensures
        ({
            let gap = if output_dir.len() == 0 || output_dir[output_dir.len() - 1] == '/' {
                Seq::<char>::empty()
            } else {
                seq!['/']
            };
            &&& profile_path(output_dir, RefType::Baseline) == output_dir + gap
                + "profiles/baseline.json.gz"@
            &&& profile_path(output_dir, RefType::Feature) == output_dir + gap
                + "profiles/feature.json.gz"@
        }),
{
    reveal_strlit("profiles");
    reveal_strlit("baseline.json.gz");
    reveal_strlit("feature.json.gz");
    reveal_strlit("profiles/baseline.json.gz");
    reveal_strlit("profiles/feature.json.gz");
    let gap = if output_dir.len() == 0 || output_dir[output_dir.len() - 1] == '/' {
        Seq::<char>::empty()
    } else {
        seq!['/']
    };
    assert(profile_path(output_dir, RefType::Baseline) =~= output_dir + gap
        + "profiles/baseline.json.gz"@);
    assert(profile_path(output_dir, RefType::Feature) =~= output_dir + gap
        + "profiles/feature.json.gz"@);
}

/// A server is told to load the profile that is given, on the port that is given: the port reads
/// back from its argument. So another port or another profile makes other arguments.
pub proof fn law_server_arguments_name_port_and_profile(
    port: u16,
    profile: Seq<char>,
    other_port: u16,
    other_profile: Seq<char>,
)
    ensures
        ({
            let args = server_arguments(port, profile);
            &&& args.len() == 4
            &&& args[0] == "load"@
            &&& args[1] == "--port"@
            &&& crate::text::number(args[2]) == port
            &&& args[2] == crate::text::decimal(port as nat)
            &&& args[3] == profile
        }),
        server_arguments(port, profile) == server_arguments(other_port, other_profile) <==> port
            == other_port && profile == other_profile,
{
    crate::text::law_decimal_reads_back(port as nat);
    crate::text::law_decimal_reads_back(other_port as nat);
    let a = server_arguments(port, profile);
    let b = server_arguments(other_port, other_profile);
    assert(crate::text::number(a[2]) == port && a[3] == profile);
    assert(crate::text::number(b[2]) == other_port && b[3] == other_profile);
}

/// The announcement has a line for each side, with its reference and the port that its profile is
/// served on, between the lines that frame them.
pub proof fn law_announcement_names_references_and_ports(args: ArgsView, ports: ServerPorts)
    ensures
        ({
            let line = |title: Seq<char>, git_ref: Seq<char>, port: u16|
                title + " '"@ + git_ref + "': http://127.0.0.1:"@ + crate::text::decimal(
                    port as nat,
                ) + "\n"@;
            announcement(args, ports) == "\n=== SAMPLY PROFILE SERVERS STARTED ===\n"@ + line(
                "Baseline"@,
                args.baseline_ref,
                ports.baseline,
            ) + line("Feature "@, args.feature_ref, ports.feature)
                + "\nOpen the URLs in your browser to view the profiles.\n"@
                + "Press Ctrl+C to stop the servers and exit.\n"@
                + "=========================================\n\n"@
        }),
{
    reveal_strlit("\n=== SAMPLY PROFILE SERVERS STARTED ===\nBaseline '");
    reveal_strlit("\n=== SAMPLY PROFILE SERVERS STARTED ===\n");
    reveal_strlit("\nFeature  '");
    reveal_strlit("Baseline");
    reveal_strlit("Feature ");
    reveal_strlit(" '");
    reveal_strlit("\n");
    reveal_strlit(
        "\n\nOpen the URLs in your browser to view the profiles.\nPress Ctrl+C to stop the servers and exit.\n=========================================\n\n",
    );
    reveal_strlit("\nOpen the URLs in your browser to view the profiles.\n");
    reveal_strlit("Press Ctrl+C to stop the servers and exit.\n");
    reveal_strlit("=========================================\n\n");
    let head = "\n=== SAMPLY PROFILE SERVERS STARTED ===\n"@;
    let tail = "\nOpen the URLs in your browser to view the profiles.\n"@
        + "Press Ctrl+C to stop the servers and exit.\n"@
        + "=========================================\n\n"@;
    assert("\n=== SAMPLY PROFILE SERVERS STARTED ===\nBaseline '"@ =~= head + "Baseline"@ + " '"@);
    assert("\nFeature  '"@ =~= "\n"@ + "Feature "@ + " '"@);
    assert("\n\nOpen the URLs in your browser to view the profiles.\nPress Ctrl+C to stop the servers and exit.\n=========================================\n\n"@
        =~= "\n"@ + tail);
    let at = "': http://127.0.0.1:"@;
    let b = crate::text::decimal(ports.baseline as nat);
    let f = crate::text::decimal(ports.feature as nat);
    assert(announcement(args, ports) =~= head + ("Baseline"@ + " '"@ + args.baseline_ref + at + b
        + "\n"@) + ("Feature "@ + " '"@ + args.feature_ref + at + f + "\n"@) + tail);
    assert(announcement(args, ports) =~= head + ("Baseline"@ + " '"@ + args.baseline_ref + at + b
        + "\n"@) + ("Feature "@ + " '"@ + args.feature_ref + at + f + "\n"@)
        + "\nOpen the URLs in your browser to view the profiles.\n"@
        + "Press Ctrl+C to stop the servers and exit.\n"@
        + "=========================================\n\n"@);
}

/// The path of the profiler, given how `which` ended and what it wrote.
pub open spec fn samply_path_verdict(output: CommandOutput<Seq<u8>>) -> Result<
    Seq<char>,
    crate::error::CliErrorView,
> {
    if !output.success {
        Err(Problem::SamplyNotFound)
    } else if !vstd::utf8::valid_utf8(output.stdout) {
        Err(Problem::SamplyPathNotUtf8 { reason: crate::outside::utf8_error_text(output.stdout) })
    } else {
        let path = crate::text::trimmed(vstd::utf8::decode_utf8(output.stdout));
        if path.len() == 0 {
            Err(Problem::SamplyPathEmpty)
        } else if path[0] != '/' {
            Err(Problem::SamplyPathRelative { path })
        } else {
            Ok(path)
        }
    }
}

/// The event is of the kind that the state waits for, and ports are consecutive ones from the
/// first that is considered on.
pub open spec fn samply_accepts<E>(
    state: SamplyState<Seq<char>>,
    event: EventView<E>,
) -> bool {
    &&& crate::protocol::fits(state.expects(), event)
    &&& event matches Reply::Ports { baseline, feature } ==> baseline >= FIRST_PORT && feature
        == baseline + 1
}

/// Tests whether the profile servers can go on with an event.
pub fn samply_can_take<E>(state: &SamplyState<String>, event: &Event<E>) -> (res: bool)
    ensures
        res == samply_accepts(state@, event@),
{
    if !event_fits(state.expected(), event) {
        return false;
    }
    match event {
        Reply::Ports { baseline, feature } => *baseline >= FIRST_PORT && *baseline < u16::MAX
            && *feature == *baseline + 1,
        _ => true,
    }
}

/// How the profile servers go on after an event.
pub open spec fn samply_next<E>(
    args: ArgsView,
    state: SamplyState<Seq<char>>,
    event: EventView<E>,
) -> SamplyStepView<E> {
    match state {
        SamplyState::ReadingHome => {
            let output_dir = args.expanded_output_dir(event->Home_0);
            let profiles = Profiles {
                baseline: profile_path(output_dir, RefType::Baseline),
                feature: profile_path(output_dir, RefType::Feature),
            };
            Step::Perform {
                state: SamplyState::CheckingProfile { ref_type: RefType::Baseline, profiles },
                action: Act::CheckExists { path: profiles.baseline },
            }
        },
        SamplyState::CheckingProfile { ref_type, profiles } => if !event->Flag_0 {
            Step::Finished(Serving::ProfileMissing(ref_type))
        } else if ref_type == RefType::Baseline {
            Step::Perform {
                state: SamplyState::CheckingProfile { ref_type: RefType::Feature, profiles },
                action: Act::CheckExists { path: profiles.feature },
            }
        } else {
            Step::Perform {
                state: SamplyState::FindingPorts { profiles },
                action: Act::FindPorts { start_port: 3000 },
            }
        },
        SamplyState::FindingPorts { profiles } => match event {
            Reply::Ports { baseline, feature } => Step::Perform {
                state: SamplyState::FindingSamply {
                    profiles,
                    ports: ServerPorts { baseline, feature },
                },
                action: Act::WhichSamply,
            },
            _ => Step::Aborted(Fault::Problem(Problem::NoConsecutivePorts { start_port: 3000 })),
        },
        SamplyState::FindingSamply { profiles, ports } => match event {
            Reply::Failed(e) => Step::Aborted(Fault::Wrapped(Context::WhichSamply, e)),
            _ => match samply_path_verdict(event->Output_0) {
                Err(problem) => Step::Aborted(Fault::Problem(problem)),
                Ok(program) => Step::Perform {
                    state: SamplyState::SpawningBaseline {
                        program,
                        feature_profile: profiles.feature,
                        ports,
                    },
                    action: Act::SpawnSamply {
                        ref_type: RefType::Baseline,
                        program,
                        args: server_arguments(ports.baseline, profiles.baseline),
                    },
                },
            },
        },
        SamplyState::SpawningBaseline { program, feature_profile, ports } => match event {
            Reply::Failed(e) => Step::Aborted(
                Fault::Wrapped(Context::SpawnSamply(RefType::Baseline), e),
            ),
            _ => Step::Perform {
                state: SamplyState::SpawningFeature { ports },
                action: Act::SpawnSamply {
                    ref_type: RefType::Feature,
                    program,
                    args: server_arguments(ports.feature, feature_profile),
                },
            },
        },
        SamplyState::SpawningFeature { ports } => match event {
            Reply::Failed(e) => Step::Aborted(
                Fault::Wrapped(Context::SpawnSamply(RefType::Feature), e),
            ),
            _ => Step::Perform {
                state: SamplyState::Settling { ports },
                action: Act::Sleep { secs: 2 },
            },
        },
        SamplyState::Settling { ports } => Step::Perform {
            state: SamplyState::Announcing,
            action: Act::Print { text: announcement(args, ports) },
        },
        SamplyState::Announcing => Step::Perform {
            state: SamplyState::AwaitingServers,
            action: Act::AwaitServers,
        },
        SamplyState::AwaitingServers => Step::Perform {
            state: SamplyState::KillingServers,
            action: Act::KillServers,
        },
        SamplyState::KillingServers => Step::Finished(Serving::Stopped),
    }
}

/// The first state of the profile servers and its action.
pub fn start_samply() -> (res: (SamplyState<String>, Action))
    ensures
        res.0@ == SamplyState::<Seq<char>>::ReadingHome,
        res.1@ == ActionView::ReadHome,
{
    (SamplyState::ReadingHome, Act::ReadHome)
}

fn profiles_in(output_dir: &str) -> (res: Profiles<String>)
    ensures
        res@ == (Profiles {
            baseline: profile_path(output_dir@, RefType::Baseline),
            feature: profile_path(output_dir@, RefType::Feature),
        }),
{
    proof {
        reveal_strlit("profiles");
        reveal_strlit("baseline.json.gz");
        reveal_strlit("feature.json.gz");
    }
    let profiles_dir = join(output_dir, "profiles");
    Profiles {
        baseline: join(profiles_dir.as_str(), "baseline.json.gz"),
        feature: join(profiles_dir.as_str(), "feature.json.gz"),
    }
}

fn server_argument_list(port: u16, profile: String) -> (res: Vec<String>)
    ensures
        crate::text::texts(res@) == server_arguments(port, profile@),
{
    let res: Vec<String> =
        vec!["load".to_owned(), "--port".to_owned(), decimal_text(port as u64), profile];
    assert(crate::text::texts(res@) =~= server_arguments(port, profile@));
    res
}

fn announcement_text(args: &Args, ports: ServerPorts) -> (res: String)
    ensures
        res@ == announcement(args@, ports),
{
    let mut res = "\n=== SAMPLY PROFILE SERVERS STARTED ===\nBaseline '".to_owned();
    res.append(args.baseline_ref.as_str());
    res.append("': http://127.0.0.1:");
    res.append(decimal_text(ports.baseline as u64).as_str());
    res.append("\nFeature  '");
    res.append(args.feature_ref.as_str());
    res.append("': http://127.0.0.1:");
    res.append(decimal_text(ports.feature as u64).as_str());
    res.append(
        "\n\nOpen the URLs in your browser to view the profiles.\nPress Ctrl+C to stop the servers and exit.\n=========================================\n\n",
    );
    res
}

/// Get the absolute path to samply from the outcome of `which samply`.
pub fn get_samply_path(output: CommandOutput<Vec<u8>>) -> (res: Result<String, CliError>)
    ensures
        match res {
            Ok(path) => samply_path_verdict(output@) == Ok::<
                Seq<char>,
                crate::error::CliErrorView,
            >(path@),
            Err(e) => samply_path_verdict(output@) == Err::<
                Seq<char>,
                crate::error::CliErrorView,
            >(e@),
        },
        res matches Ok(path) ==> path@.len() > 0 && path@[0] == '/',
{
    if !output.success {
        return Err(CliError::SamplyNotFound);
    }
    match decode_strict(output.stdout) {
        Err(reason) => Err(CliError::SamplyPathNotUtf8 { reason }),
        Ok(text) => {
            let path = trim(text.as_str());
            if path.as_str().is_empty() {
                Err(CliError::SamplyPathEmpty)
            } else if path.as_str().get_char(0) != '/' {
                Err(CliError::SamplyPathRelative { path })
            } else {
                Ok(path)
            }
        },
    }
}

/// Takes the profile servers on after an event.
pub fn advance_samply<E>(args: &Args, state: SamplyState<String>, event: Event<E>) -> (res:
    SamplyStep<E>)
    requires
        samply_accepts(state@, event@),
    ensures
        res@ == samply_next(args@, state@, event@),
        res matches Step::Perform { state, action } ==> crate::protocol::answer_kind(action@)
            == state@.expects(),
{
    match state {
        SamplyState::ReadingHome => {
            let home = take_home(event);
            let output_dir = args.output_dir_at(&home);
            let profiles = profiles_in(output_dir.as_str());
            let path = profiles.baseline.clone();
            Step::Perform {
                state: SamplyState::CheckingProfile { ref_type: RefType::Baseline, profiles },
                action: Act::CheckExists { path },
            }
        },
        SamplyState::CheckingProfile { ref_type, profiles } => {
            if !take_flag(event) {
                return Step::Finished(Serving::ProfileMissing(ref_type));
            }
            match ref_type {
                RefType::Baseline => {
                    let path = profiles.feature.clone();
                    Step::Perform {
                        state: SamplyState::CheckingProfile {
                            ref_type: RefType::Feature,
                            profiles,
                        },
                        action: Act::CheckExists { path },
                    }
                },
                RefType::Feature => Step::Perform {
                    state: SamplyState::FindingPorts { profiles },
                    action: Act::FindPorts { start_port: FIRST_PORT },
                },
            }
        },
        SamplyState::FindingPorts { profiles } => match event {
            Reply::Ports { baseline, feature } => Step::Perform {
                state: SamplyState::FindingSamply {
                    profiles,
                    ports: ServerPorts { baseline, feature },
                },
                action: Act::WhichSamply,
            },
            _ => Step::Aborted(
                Fault::Problem(CliError::NoConsecutivePorts { start_port: FIRST_PORT }),
            ),
        },
        SamplyState::FindingSamply { profiles, ports } => match event {
            Reply::Failed(e) => Step::Aborted(Fault::Wrapped(Context::WhichSamply, e)),
            Reply::Output(output) => match get_samply_path(output) {
                Err(problem) => Step::Aborted(Fault::Problem(problem)),
                Ok(program) => {
                    let path = program.clone();
                    let args = server_argument_list(ports.baseline, profiles.baseline);
                    Step::Perform {
                        state: SamplyState::SpawningBaseline {
                            program,
                            feature_profile: profiles.feature,
                            ports,
                        },
                        action: Act::SpawnSamply {
                            ref_type: RefType::Baseline,
                            program: path,
                            args,
                        },
                    }
                },
            },
            _ => vstd::pervasive::unreached(),
        },
        SamplyState::SpawningBaseline { program, feature_profile, ports } => match event {
            Reply::Failed(e) => Step::Aborted(
                Fault::Wrapped(Context::SpawnSamply(RefType::Baseline), e),
            ),
            _ => Step::Perform {
                state: SamplyState::SpawningFeature { ports },
                action: Act::SpawnSamply {
                    ref_type: RefType::Feature,
                    program,
                    args: server_argument_list(ports.feature, feature_profile),
                },
            },
        },
        SamplyState::SpawningFeature { ports } => match event {
            Reply::Failed(e) => Step::Aborted(
                Fault::Wrapped(Context::SpawnSamply(RefType::Feature), e),
            ),
            _ => Step::Perform {
                state: SamplyState::Settling { ports },
                action: Act::Sleep { secs: SETTLE_SECS },
            },
        },
        SamplyState::Settling { ports } => Step::Perform {
            state: SamplyState::Announcing,
            action: Act::Print { text: announcement_text(args, ports) },
        },
        SamplyState::Announcing => Step::Perform {
            state: SamplyState::AwaitingServers,
            action: Act::AwaitServers,
        },
        SamplyState::AwaitingServers => Step::Perform {
            state: SamplyState::KillingServers,
            action: Act::KillServers,
        },
        SamplyState::KillingServers => Step::Finished(Serving::Stopped),
    }
}

} // verus!
