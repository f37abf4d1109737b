//! What holds of the results of the library's functions, in terms of what they are given.
//!
//! `call_ensures(f, x, y)` stands for a call of `f` on `x` that returned `y`.

use vstd::prelude::*;
use crate::args::Args;
use crate::arguments::{parse_args_string, parse_optional_args, words_or_fallback};
use crate::benchmark::{
    advance_benchmark, benchmark_next, start_benchmark, BenchmarkState, BenchmarkStep,
    BenchmarkStepView,
};
use crate::chain::{check_rpc_url, judge_rpc_url, validate_rpc_chain_id, Chain};
use crate::charts::{
    advance_charts, chart_next, judge_script, start_charts, visible_output, ChartState, ChartStep,
    ChartStepView,
};
use crate::comparison::{
    advance_comparison, begin_query, comparison_can_take, start_comparison, Comparison, ComparisonState,
    ComparisonStep, ComparisonStepView,
};
use crate::compilation::{
    advance_compilation, compilation_next, start_compilation, Commits, CompilationState,
    CompilationStep, CompilationStepView,
};
use crate::error::{CliError, Problem, RefType};
use crate::history::{admissible, after};
use crate::home::{expand_tilde, home_dir, home_from_tilde};
use crate::outside::{shell_words, url_error, utf8_error_text, utf8_lossy};
use crate::paths::join;
use crate::ports::find_consecutive_ports;
use crate::protocol::{
    Act, Action, ActionView, CliFault, CommandOutput, Context, Event, EventView, Fault, FaultView,
    NodeRun, Reply, Step,
};
use crate::samply::{
    advance_samply, get_samply_path, samply_next, start_samply, SamplyState, SamplyStep,
    SamplyStepView, Serving,
};
use crate::scripts::{
    benchmark_after, charting_after, compilation_after, serving_after, warmup_after,
};
use crate::text::{
    decimal_text, number, signed_decimal_text, split_whitespace, texts, trim, white_space,
};
use crate::warmup::{
    advance_warmup, start_warmup, warmup_next, WarmupState, WarmupStep, WarmupStepView,
};
use crate::workflow::{
    advance_workflow, start_workflow, workflow_can_take, Completion, WorkflowState, WorkflowStep,
};

verus! {

/// An endpoint that answers with a chain ID is accepted if and only if the ID is that of the
/// expected chain. One that is rejected is reported with the chain, the ID that it answered with
/// and its URL.
pub proof fn law_endpoint_is_accepted_just_for_its_chain(
    rpc_url: &str,
    chain: &Chain,
    found: u64,
    res: Result<(), CliError>,
)
    requires
        call_ensures(validate_rpc_chain_id, (rpc_url, chain, Ok(found)), res),
    ensures
        res is Ok <==> found == chain.id,
        res matches Err(e) ==> e@ == (Problem::ChainIdMismatch {
            expected: *chain,
            found,
            rpc_url: rpc_url@,
        }),
{
}

/// An endpoint that does not answer with a chain ID is never accepted, and the reason is reported
/// with its URL.
pub proof fn law_endpoint_must_answer(
    rpc_url: &str,
    chain: &Chain,
    reason: String,
    res: Result<(), CliError>,
)
    requires
        call_ensures(validate_rpc_chain_id, (rpc_url, chain, Err(reason)), res),
    ensures
        res matches Err(e) && e@ == (Problem::ChainIdUnavailable::<Seq<char>> {
            rpc_url: rpc_url@,
            reason: reason@,
        }),
{
}

/// A URL is accepted if and only if it parses; if it does not, the reason is reported with it.
pub proof fn law_url_is_accepted_just_if_it_parses(
    rpc_url: &str,
    parsed: Result<(), String>,
    judged: Result<(), CliError>,
    checked: Result<(), CliError>,
)
    requires
        call_ensures(judge_rpc_url, (rpc_url, parsed), judged),
        call_ensures(check_rpc_url, (rpc_url,), checked),
    ensures
        judged is Ok <==> parsed is Ok,
        judged matches Err(e) ==> e@ == (Problem::InvalidRpcUrl {
            rpc_url: rpc_url@,
            reason: parsed->Err_0@,
        }),
        checked is Ok <==> url_error(rpc_url@) is None,
        checked matches Err(e) ==> e@ == (Problem::InvalidRpcUrl {
            rpc_url: rpc_url@,
            reason: url_error(rpc_url@)->0,
        }),
{
}

/// An RPC URL that is given is the one that is used, whatever the chain. Where none is given, it
/// depends on the chain alone, and a chain without an endpoint of its own has that of mainnet.
pub proof fn law_given_url_wins(
    a: Args,
    b: Args,
    url_a: String,
    url_b: String,
)
    requires
        call_ensures(Args::get_rpc_url, (&a,), url_a),
        call_ensures(Args::get_rpc_url, (&b,), url_b),
    ensures
        a.rpc_url matches Some(given) ==> url_a@ == given@,
        a.rpc_url is None && b.rpc_url is None && a.chain.id == b.chain.id ==> url_a@ == url_b@,
        a.rpc_url is None && b.rpc_url is None && b.chain.id == 1 && a.chain.id != 8453
            && a.chain.id != 84532 && a.chain.id != 27082 ==> url_a@ == url_b@,
        a.rpc_url is None && a.chain.id == 1 ==> url_a@ == "https://reth-ethereum.ithaca.xyz/rpc"@,
        a.rpc_url is None && a.chain.id == 8453 ==> url_a@
            == "https://base-mainnet.rpc.ithaca.xyz"@,
        a.rpc_url is None && a.chain.id == 84532 ==> url_a@
            == "https://base-sepolia.rpc.ithaca.xyz"@,
        a.rpc_url is None && a.chain.id == 27082 ==> url_a@ == "https://rpc.hoodi.ethpandaops.io"@,
{
}

/// The additional arguments of a side depend on that side's option alone. Without the option there
/// are none. With it they are the words that shell splitting finds, or those between whitespace
/// where it finds an error.
pub proof fn law_sides_have_their_own_arguments(
    a: Args,
    b: Args,
    side: RefType,
    words_a: Vec<String>,
    words_b: Vec<String>,
    between_spaces: Vec<String>,
    line: &str,
)
    requires
        call_ensures(Args::additional_args, (&a, side), words_a),
        call_ensures(Args::additional_args, (&b, side), words_b),
        call_ensures(split_whitespace, (line,), between_spaces),
    ensures
        ({
            let option_a = if side == RefType::Baseline {
                a.baseline_args
            } else {
                a.feature_args
            };
            let option_b = if side == RefType::Baseline {
                b.baseline_args
            } else {
                b.feature_args
            };
            &&& option_a is None && option_b is None ==> texts(words_a@) == texts(words_b@)
            &&& option_a is Some && option_b is Some && option_a->0@ == option_b->0@ ==> texts(
                words_a@,
            ) == texts(words_b@)
            &&& option_a is None ==> words_a.len() == 0
            &&& option_a is Some && option_a->0@ == line@ ==> texts(words_a@) == (
            match shell_words(line@) {
                Some(words) => words,
                None => texts(between_spaces@),
            })
        }),
{
    if (if side == RefType::Baseline {
        a.baseline_args
    } else {
        a.feature_args
    }) is None {
        assert(texts(words_a@).len() == 0);
    }
}

/// Arguments are split as a shell splits them; where that fails, between whitespace; and where
/// there is no string, there are none.
pub proof fn law_arguments_are_split_once(
    line: &str,
    shell: Option<Vec<String>>,
    chosen: Vec<String>,
    parsed: Vec<String>,
    between_spaces: Vec<String>,
    given: Option<String>,
    optional: Vec<String>,
)
    requires
        call_ensures(words_or_fallback, (shell, line), chosen),
        call_ensures(parse_args_string, (line,), parsed),
        call_ensures(split_whitespace, (line,), between_spaces),
        call_ensures(parse_optional_args, (&given,), optional),
    ensures
        shell matches Some(words) ==> texts(chosen@) == texts(words@),
        shell is None ==> texts(chosen@) == texts(between_spaces@),
        texts(parsed@) == (match shell_words(line@) {
            Some(words) => words,
            None => texts(between_spaces@),
        }),
        given is None ==> optional.len() == 0,
        given is Some && given->0@ == line@ ==> texts(optional@) == texts(parsed@),
{
    if given is None {
        assert(texts(optional@).len() == 0);
    }
}

/// The git reference of a side is the option of that side.
pub proof fn law_sides_have_their_own_references(a: Args, baseline: String, feature: String)
    requires
        call_ensures(Args::git_ref, (&a, RefType::Baseline), baseline),
        call_ensures(Args::git_ref, (&a, RefType::Feature), feature),
    ensures
        baseline@ == a.baseline_ref@,
        feature@ == a.feature_ref@,
{
}

/// The warmup covers as many blocks as are given for it, or as many as the benchmark.
pub proof fn law_warmup_is_as_long_as_asked(a: Args, n: u64)
    requires
        call_ensures(Args::get_warmup_blocks, (&a,), n),
    ensures
        a.warmup_blocks is None ==> n == a.blocks,
        a.warmup_blocks matches Some(given) ==> n == given,
{
}

/// A leading tilde that stands alone or before a separator is replaced by the home directory, and
/// nothing else of a text is changed. Without a home directory nothing is.
pub proof fn law_tilde_stands_for_home(
    text: &str,
    home: Option<String>,
    res: String,
    rest: Seq<char>,
)
    requires
        call_ensures(expand_tilde, (text, &home), res),
    ensures
        home is None ==> res@ == text@,
        text@.len() == 0 || text@[0] != '~' ==> res@ == text@,
        text@.len() > 1 && text@[1] != '/' ==> res@ == text@,
        text@ == seq!['~'] ==> (home matches Some(dir) ==> res@ == dir@),
        text@ == seq!['~', '/'] + rest ==> (home matches Some(dir) ==> res@ == dir@ + seq!['/']
            + rest),
{
    if let Some(dir) = home {
        if text@ == seq!['~'] {
            assert(dir@ + text@.skip(1) =~= dir@);
        }
        if text@ == seq!['~', '/'] + rest {
            assert(text@[0] == '~' && text@[1] == '/');
            assert(dir@ + text@.skip(1) =~= dir@ + seq!['/'] + rest);
        }
    }
}

/// The output directory and a given JWT secret path are expanded at the home directory as any text
/// is. Where no path is given, the secret is `jwt.hex` in the data directory.
pub proof fn law_paths_are_expanded_at_home(
    a: Args,
    home: Option<String>,
    given: &str,
    expanded: String,
    output_dir: String,
    secret: String,
    below_datadir: String,
    datadir: &str,
)
    requires
        call_ensures(expand_tilde, (given, &home), expanded),
        call_ensures(Args::output_dir_at, (&a, &home), output_dir),
        call_ensures(Args::jwt_secret_at, (&a, &home), secret),
        call_ensures(join, (datadir, "jwt.hex"), below_datadir),
    ensures
        a.output_dir@ == given@ ==> output_dir@ == expanded@,
        a.jwt_secret is Some && a.jwt_secret->0@ == given@ ==> secret@ == expanded@,
        a.jwt_secret is None && a.datadir@ == datadir@ ==> secret@ == below_datadir@,
{
}

/// The home directory is what `~` expands to, unless `~` stays as it is.
pub proof fn law_home_is_what_the_tilde_becomes(tilde: String, home: Option<String>)
    requires
        call_ensures(home_from_tilde, (tilde,), home),
    ensures
        home is None <==> tilde@ == seq!['~'],
        home matches Some(dir) ==> dir@ == tilde@,
{
    reveal_strlit("~");
    assert("~"@ =~= seq!['~']);
}

/// A path that is joined begins with the directory and ends with the name; between them stands one
/// separator, just where the directory is not empty and does not end with one.
pub proof fn law_joining_adds_one_separator(base: &str, name: &str, path: String)
    requires
        call_ensures(join, (base, name), path),
    ensures
        base@.len() == 0 ==> path@ == name@,
        base@.len() > 0 && base@.last() == '/' ==> path@ == base@ + name@,
        base@.len() > 0 && base@.last() != '/' ==> path@ == base@ + seq!['/'] + name@,
{
    if base@.len() == 0 {
        assert(base@ + name@ =~= name@);
    }
}

/// Where the probe tells which ports are free, the search finds the first two consecutive free
/// ports from the start on. It fails just where there are no two up to the last port.
pub proof fn law_first_free_pair_is_found<F: Fn(u16) -> bool>(
    start: u16,
    probe: F,
    free: spec_fn(u16) -> bool,
    res: Result<(u16, u16), CliError>,
)
    requires
        call_ensures(find_consecutive_ports::<F>, (start, probe), res),
        forall|port: u16, answer: bool| #[trigger]
            call_ensures(probe, (port,), answer) ==> answer == free(port),
    ensures
        match res {
            Ok(pair) => {
                &&& start <= pair.0 < 65535
                &&& pair.1 == pair.0 + 1
                &&& free(pair.0)
                &&& free(pair.1)
                &&& forall|p: u16|
                    start <= p < pair.0 ==> !(#[trigger] free(p) && free((p + 1) as u16))
            },
            Err(e) => {
                &&& e@ == (Problem::NoConsecutivePorts::<Seq<char>> { start_port: start })
                &&& forall|p: u16|
                    start <= p < 65535 ==> !(#[trigger] free(p) && free((p + 1) as u16))
            },
        },
{
    match res {
        Ok(pair) => {
            assert forall|p: u16| start <= p < pair.0 implies !(#[trigger] free(p) && free(
                (p + 1) as u16,
            )) by {
                assert(crate::ports::turned_down(probe, p as int));
            }
        },
        Err(_) => {
            assert(crate::ports::all_turned_down(probe, start));
            assert forall|p: u16| start <= p < 65535 implies !(#[trigger] free(p) && free(
                (p + 1) as u16,
            )) by {
                assert(crate::ports::turned_down(probe, p as int));
            }
        },
    }
}

/// The path of the profiler is what a successful `which` printed between whitespace, if that is an
/// absolute path. Every other outcome is an error of its own.
pub proof fn law_profiler_path_is_what_was_printed(
    output: CommandOutput<Vec<u8>>,
    before: Seq<char>,
    path: Seq<char>,
    after: Seq<char>,
    res: Result<String, CliError>,
)
    requires
        call_ensures(get_samply_path, (output,), res),
        forall|i: int| 0 <= i < before.len() ==> white_space(#[trigger] before[i]),
        forall|i: int| 0 <= i < after.len() ==> white_space(#[trigger] after[i]),
        path.len() == 0 || (!white_space(path.first()) && !white_space(path.last())),
        vstd::utf8::valid_utf8(output.stdout@) ==> vstd::utf8::decode_utf8(output.stdout@)
            == before + path + after,
    ensures
        match res {
            Ok(found) => {
                &&& output.success
                &&& vstd::utf8::valid_utf8(output.stdout@)
                &&& found@ == path
                &&& path.len() > 0
                &&& path[0] == '/'
            },
            Err(e) => if !output.success {
                e@ == Problem::SamplyNotFound::<Seq<char>>
            } else if !vstd::utf8::valid_utf8(output.stdout@) {
                e@ == (Problem::SamplyPathNotUtf8 { reason: utf8_error_text(output.stdout@) })
            } else if path.len() == 0 {
                e@ == Problem::SamplyPathEmpty::<Seq<char>>
            } else {
                path[0] != '/' && e@ == (Problem::SamplyPathRelative { path })
            },
        },
{
    crate::text::law_trimming_leaves_the_middle(before, path, after);
}

/// A chart script that reports success has drawn the chart that was asked for. One that does not
/// is reported with its exit code and all that it wrote.
pub proof fn law_script_is_judged_by_its_status(
    output: CommandOutput<Vec<u8>>,
    chart: String,
    res: Result<String, CliError>,
)
    requires
        call_ensures(judge_script, (output, chart), res),
    ensures
        res is Ok <==> output.success,
        res matches Ok(drawn) ==> drawn@ == chart@,
        res matches Err(e) ==> e@ == (Problem::ChartScript {
            code: output.code,
            stdout: utf8_lossy(output.stdout@),
            stderr: utf8_lossy(output.stderr@),
        }),
{
}

/// What a command wrote is shown, all of it, if and only if some of it is not whitespace.
pub proof fn law_visible_output_is_shown_whole(stdout: &[u8], res: Option<String>)
    requires
        call_ensures(visible_output, (stdout,), res),
    ensures
        res matches Some(text) ==> text@ == utf8_lossy(stdout@),
        res is None <==> forall|i: int|
            0 <= i < utf8_lossy(stdout@).len() ==> white_space(#[trigger] utf8_lossy(stdout@)[i]),
{
    let text = utf8_lossy(stdout@);
    crate::text::law_trimming_strips_whitespace_only(text);
    if forall|i: int| 0 <= i < text.len() ==> white_space(#[trigger] text[i]) {
        let none = Seq::<char>::empty();
        crate::text::law_trimming_leaves_the_middle(text, none, none);
        assert(text + none + none =~= text);
    }
}

/// A number is rendered as decimal digits that read back as it, without leading zeros.
pub proof fn law_numbers_read_back(n: u64, text: String, m: i32, signed: String)
    requires
        call_ensures(decimal_text, (n,), text),
        call_ensures(signed_decimal_text, (m,), signed),
    ensures
        number(text@) == n,
        text@.len() > 0,
        forall|i: int| 0 <= i < text@.len() ==> '0' <= #[trigger] text@[i] <= '9',
        text@.len() > 1 ==> text@[0] != '0',
        m >= 0 && m == n ==> signed@ == text@,
        m < 0 && -m == n ==> signed@ == seq!['-'] + text@,
{
    crate::text::law_decimal_reads_back(n as nat);
}

/// A text between whitespace is what the whole is trimmed to, if it is empty or has no whitespace
/// at either end of its own.
pub proof fn law_trimming_gives_the_middle(
    before: Seq<char>,
    mid: Seq<char>,
    after: Seq<char>,
    text: &str,
    res: String,
)
    requires
        call_ensures(trim, (text,), res),
        text@ == before + mid + after,
        forall|i: int| 0 <= i < before.len() ==> white_space(#[trigger] before[i]),
        forall|i: int| 0 <= i < after.len() ==> white_space(#[trigger] after[i]),
        mid.len() == 0 || (!white_space(mid.first()) && !white_space(mid.last())),
    ensures
        res@ == mid,
{
    crate::text::law_trimming_leaves_the_middle(before, mid, after);
}

/// Whitespace between two texts separates their words, and a text without whitespace is its only
/// word.
pub proof fn law_splitting_separates_at_whitespace(
    a: &str,
    space: char,
    b: &str,
    whole: &str,
    words_a: Vec<String>,
    words_b: Vec<String>,
    words: Vec<String>,
)
    requires
        call_ensures(split_whitespace, (a,), words_a),
        call_ensures(split_whitespace, (b,), words_b),
        call_ensures(split_whitespace, (whole,), words),
        whole@ == a@ + seq![space] + b@,
        white_space(space),
    ensures
        texts(words@) == texts(words_a@) + texts(words_b@),
        a@.len() == 0 ==> words_a.len() == 0,
        a@.len() > 0 && (forall|i: int| 0 <= i < a@.len() ==> !white_space(#[trigger] a@[i]))
            ==> texts(words_a@) == seq![a@],
{
    crate::text::law_whitespace_separates_words(a@, space, b@);
    assert(texts(words_a@).len() == words_a.len());
}

/// The data directory is the one that the options give.
pub proof fn law_datadir_is_as_given(a: Args, path: String)
    requires
        call_ensures(Args::datadir_path, (&a,), path),
    ensures
        path@ == a.datadir@,
{
}

/// The message of a failure holds what is known of it, each part in its place.
pub proof fn law_messages_tell_all_that_is_known(e: CliError, message: String)
    requires
        call_ensures(Problem::<String>::message, (&e,), message),
    ensures
        match e {
            Problem::InvalidRpcUrl { rpc_url, reason } => message@ == "Invalid RPC URL '"@
                + rpc_url@ + "': "@ + reason@,
            Problem::ChainIdUnavailable { rpc_url, reason } => message@
                == "Failed to get chain ID from RPC endpoint "@ + rpc_url@ + ": "@ + reason@,
            Problem::ChainIdMismatch { expected, found, rpc_url } => message@
                == "RPC endpoint chain ID mismatch!\nExpected: "@ + crate::text::decimal(
                expected.id as nat,
            ) + " (chain: "@ + crate::outside::chain_display(expected.id) + ")\nFound: "@
                + crate::text::decimal(found as nat) + " at RPC endpoint: "@ + rpc_url@
                + "\n\nPlease use an RPC endpoint for the correct network or change the --chain argument."@,
            Problem::MissingBinary { ref_type, path } => message@ == "Cached "@ + (match ref_type {
                RefType::Baseline => "baseline"@,
                RefType::Feature => "feature"@,
            }) + " binary not found at "@ + crate::outside::path_debug(path@)
                + ". Compilation phase should have created it."@,
            Problem::MissingCsv { ref_type, path } => message@ == (match ref_type {
                RefType::Baseline => "Baseline"@,
                RefType::Feature => "Feature"@,
            }) + " CSV not found: "@ + crate::outside::path_debug(path@),
            Problem::ChartLaunch { reason } => message@
                == "Failed to execute Python script with uv: "@ + reason@
                + ". Make sure uv is installed."@,
            Problem::ChartScript { code, stdout, stderr } => message@
                == "Python script failed with exit code "@ + (match code {
                Some(n) => "Some("@ + crate::text::signed_decimal(n as int) + ")"@,
                None => "None"@,
            }) + ":\nstdout: "@ + stdout@ + "\nstderr: "@ + stderr@,
            Problem::NoConsecutivePorts { start_port } => message@
                == "Could not find two consecutive available ports starting from "@
                + crate::text::decimal(start_port as nat),
            Problem::SamplyNotFound => message@ == "samply not found in PATH"@,
            Problem::SamplyPathNotUtf8 { .. } => message@ == "samply path is not valid UTF-8"@,
            Problem::SamplyPathEmpty => message@ == "which samply returned empty path"@,
            Problem::SamplyPathRelative { path } => message@
                == "which samply returned relative path: "@ + crate::outside::path_debug(path@),
        },
{
}

/// A driver that starts a comparison and takes each step with the event that came of the action
/// goes through a history: the first state and action are those of the history without events, and
/// a step from where the events led goes to where one event more leads. An event is taken just if
/// the history with it is admissible.
pub proof fn law_drivers_go_through_histories<E>(
    args: Args,
    events: Seq<EventView<E>>,
    first: (Comparison<E>, Action),
    state: Comparison<E>,
    action: Action,
    event: Event<E>,
    can: bool,
    step: ComparisonStep<E>,
)
    requires
        call_ensures(start_comparison::<E>, (), first),
        call_ensures(comparison_can_take::<E>, (&args, &state, &event), can),
        call_ensures(advance_comparison::<E>, (&args, state, event), step),
        admissible(args@, events),
        after(args@, events) == (ComparisonStepView::<E>::Perform {
            state: state@,
            action: action@,
        }),
    ensures
        after::<E>(args@, Seq::empty()) == (ComparisonStepView::<E>::Perform {
            state: first.0@,
            action: first.1@,
        }),
        can <==> admissible(args@, events.push(event@)),
        step@ == after(args@, events.push(event@)),
{
    assert(events.push(event@).drop_last() =~= events);
}

/// The steps of the workflow are those that the comparison takes while it works.
pub proof fn law_workflow_steps_are_those_of_the_comparison<E>(
    args: Args,
    original_ref: String,
    work: WorkflowState<String>,
    event: Event<E>,
    can: bool,
    can_whole: bool,
    step: WorkflowStep<E>,
    whole: ComparisonStep<E>,
    first: (WorkflowState<String>, Action),
)
    requires
        call_ensures(start_workflow, (&args,), first),
        call_ensures(workflow_can_take::<E>, (&args, &work, &event), can),
        call_ensures(advance_workflow::<E>, (&args, work, event), step),
        call_ensures(
            comparison_can_take::<E>,
            (&args, &(ComparisonState::Working { original_ref, work }), &event),
            can_whole,
        ),
        call_ensures(
            advance_comparison::<E>,
            (&args, ComparisonState::Working { original_ref, work }, event),
            whole,
        ),
    ensures
        can == can_whole,
        step@ matches Step::Perform { state, action } ==> whole@ == (ComparisonStepView::<
            E,
        >::Perform {
            state: ComparisonState::Working { original_ref: original_ref@, work: state },
            action,
        }),
        !(step@ is Perform) ==> whole@ is Perform && whole@->action == (ActionView::SwitchRef {
            git_ref: original_ref@,
        }),
        first.0@ is DetectingOptimism,
        first.1@ matches Act::DetectOptimism { rpc_url } && (args.rpc_url matches Some(given)
            ==> rpc_url == given@),
{
}

/// The steps of the phases are those that their scripts are stated of.
pub proof fn law_phase_steps_are_those_of_scripts<E>(
    args: Args,
    is_optimism: bool,
    commit: &str,
    side: RefType,
    event: Event<E>,
    compilation: (CompilationState<String>, CompilationStep<E>),
    warmup: (WarmupState<String>, WarmupStep<E>),
    benchmark: (BenchmarkState<String>, BenchmarkStep<E>),
    charts: (ChartState<String>, ChartStep<E>),
    samply: (SamplyState<String>, SamplyStep<E>),
)
    requires
        call_ensures(
            advance_compilation::<E>,
            (&args, is_optimism, compilation.0, event),
            compilation.1,
        ),
        call_ensures(advance_warmup::<E>, (&args, is_optimism, commit, warmup.0, event), warmup.1),
        call_ensures(
            advance_benchmark::<E>,
            (&args, side, is_optimism, commit, benchmark.0, event),
            benchmark.1,
        ),
        call_ensures(advance_charts::<E>, (charts.0, event), charts.1),
        call_ensures(advance_samply::<E>, (&args, samply.0, event), samply.1),
    ensures
        compilation.1@ == compilation_next(args@, is_optimism, compilation.0@, event@),
        warmup.1@ == warmup_next(args@, is_optimism, commit@, warmup.0@, event@),
        benchmark.1@ == benchmark_next(args@, side, is_optimism, commit@, benchmark.0@, event@),
        charts.1@ == chart_next(charts.0@, event@),
        samply.1@ == samply_next(args@, samply.0@, event@),
{
}

/// The phases begin where their scripts do.
pub proof fn law_phases_begin_with_their_scripts<E>(
    args: Args,
    is_optimism: bool,
    commit: Seq<char>,
    side: RefType,
    compilation: (CompilationState<String>, Action),
    warmup: (WarmupState<String>, Action),
    benchmark: (BenchmarkState<String>, Action),
    charts: (ChartState<String>, Action),
    samply: (SamplyState<String>, Action),
)
    requires
        call_ensures(start_compilation, (), compilation),
        call_ensures(start_warmup, (&args,), warmup),
        call_ensures(start_benchmark, (&args, side), benchmark),
        call_ensures(start_charts, (), charts),
        call_ensures(start_samply, (), samply),
    ensures
        ({
            let none = Seq::<EventView<E>>::empty();
            &&& compilation_after(args@, is_optimism, none) == (CompilationStepView::<E>::Perform {
                state: compilation.0@,
                action: compilation.1@,
            })
            &&& warmup_after(args@, is_optimism, commit, none) == (WarmupStepView::<E>::Perform {
                state: warmup.0@,
                action: warmup.1@,
            })
            &&& benchmark_after(args@, side, is_optimism, commit, none) == (BenchmarkStepView::<
                E,
            >::Perform { state: benchmark.0@, action: benchmark.1@ })
            &&& charting_after(none) == (ChartStepView::<E>::Perform {
                state: charts.0@,
                action: charts.1@,
            })
            &&& serving_after(args@, none) == (SamplyStepView::<E>::Perform {
                state: samply.0@,
                action: samply.1@,
            })
        }),
{
}

/// The options are seen as they are.
pub proof fn law_options_are_seen_as_they_are(args: Args)
    ensures
        args@.baseline_ref == args.baseline_ref@,
        args@.feature_ref == args.feature_ref@,
        args@.datadir == args.datadir@,
        args@.blocks == args.blocks,
        args.rpc_url matches Some(s) ==> args@.rpc_url == Some(s@),
        args.rpc_url is None ==> args@.rpc_url is None,
        args.jwt_secret matches Some(s) ==> args@.jwt_secret == Some(s@),
        args.jwt_secret is None ==> args@.jwt_secret is None,
        args@.output_dir == args.output_dir@,
        args@.skip_git_validation == args.skip_git_validation,
        args@.metrics_port == args.metrics_port,
        args@.chain == args.chain,
        args@.sudo == args.sudo,
        args@.draw == args.draw,
        args@.profile == args.profile,
        args.wait_time matches Some(s) ==> args@.wait_time == Some(s@),
        args.wait_time is None ==> args@.wait_time is None,
        args@.warmup_blocks == args.warmup_blocks,
        args@.no_clear_cache == args.no_clear_cache,
        args.baseline_args matches Some(s) ==> args@.baseline_args == Some(s@),
        args.baseline_args is None ==> args@.baseline_args is None,
        args.feature_args matches Some(s) ==> args@.feature_args == Some(s@),
        args.feature_args is None ==> args@.feature_args is None,
        args@.reth_args.len() == args.reth_args.len(),
        forall|i: int| 0 <= i < args.reth_args.len() ==> #[trigger] args@.reth_args[i]
            == args.reth_args[i]@,
{
}

/// An action is seen as it is: of the same kind, with each text in its place.
pub proof fn law_actions_are_seen_as_they_are(action: Action)
    ensures
        match action {
            Act::OpenWorkspace { output_dir } => action@ == (ActionView::OpenWorkspace {
                output_dir: output_dir@,
            }),
            Act::ValidateRefs { baseline_ref, feature_ref } => action@ == (
            ActionView::ValidateRefs { baseline_ref: baseline_ref@, feature_ref: feature_ref@ }),
            Act::QueryChainId { rpc_url } => action@ == (ActionView::QueryChainId {
                rpc_url: rpc_url@,
            }),
            Act::InstallInterruptHandler { original_ref } => action@ == (
            ActionView::InstallInterruptHandler { original_ref: original_ref@ }),
            Act::DetectOptimism { rpc_url } => action@ == (ActionView::DetectOptimism {
                rpc_url: rpc_url@,
            }),
            Act::SwitchRef { git_ref } => action@ == (ActionView::SwitchRef { git_ref: git_ref@ }),
            Act::Compile { commit, is_optimism } => action@ == (ActionView::Compile {
                commit: commit@,
                is_optimism,
            }),
            Act::LocateBinary { commit, is_optimism } => action@ == (ActionView::LocateBinary {
                commit: commit@,
                is_optimism,
            }),
            Act::CheckExists { path } => action@ == (ActionView::CheckExists { path: path@ }),
            Act::StartNode { binary, git_ref, run, args } => {
                &&& action@ matches Act::StartNode {
                    binary: b,
                    git_ref: g,
                    run: r,
                    args: list,
                } && b == binary@ && g == git_ref@ && r == run && list.len() == args.len() && (
                forall|i: int| 0 <= i < args.len() ==> #[trigger] list[i] == args[i]@)
            },
            Act::RunWarmup { tip } => action@ == (ActionView::RunWarmup { tip }),
            Act::UnwindTo { block } => action@ == (ActionView::UnwindTo { block }),
            Act::LocateRefOutput { ref_type } => action@ == (ActionView::LocateRefOutput {
                ref_type,
            }),
            Act::RunBenchmark { from_block, to_block, output_dir } => action@ == (
            ActionView::RunBenchmark { from_block, to_block, output_dir: output_dir@ }),
            Act::AddRefResults { ref_type, output_dir } => action@ == (ActionView::AddRefResults {
                ref_type,
                output_dir: output_dir@,
            }),
            Act::SetRefTimestamps { ref_type, start, end } => action@ == (
            ActionView::SetRefTimestamps { ref_type, start, end }),
            Act::RunUv { args } => {
                &&& action@ matches Act::RunUv { args: list } && list.len() == args.len() && (
                forall|i: int| 0 <= i < args.len() ==> #[trigger] list[i] == args[i]@)
            },
            Act::FindPorts { start_port } => action@ == (ActionView::FindPorts { start_port }),
            Act::SpawnSamply { ref_type, program, args } => {
                &&& action@ matches Act::SpawnSamply {
                    ref_type: side,
                    program: p,
                    args: list,
                } && side == ref_type && p == program@ && list.len() == args.len() && (forall|
                    i: int,
                |
                    0 <= i < args.len() ==> #[trigger] list[i] == args[i]@)
            },
            Act::Sleep { secs } => action@ == (ActionView::Sleep { secs }),
            Act::Print { text } => action@ == (ActionView::Print { text: text@ }),
            Act::CreateProcessGroup => action@ is CreateProcessGroup,
            Act::OpenRepository => action@ is OpenRepository,
            Act::FetchAll => action@ is FetchAll,
            Act::ReadHome => action@ is ReadHome,
            Act::ReadCurrentRef => action@ is ReadCurrentRef,
            Act::ValidateCleanState => action@ is ValidateCleanState,
            Act::EnsureRethBench => action@ is EnsureRethBench,
            Act::EnsureSamply => action@ is EnsureSamply,
            Act::ReadCurrentCommit => action@ is ReadCurrentCommit,
            Act::AwaitTip => action@ is AwaitTip,
            Act::ClearCaches => action@ is ClearCaches,
            Act::StopNode => action@ is StopNode,
            Act::ReadClock => action@ is ReadClock,
            Act::GenerateReport => action@ is GenerateReport,
            Act::LocateReportOutput => action@ is LocateReportOutput,
            Act::WhichSamply => action@ is WhichSamply,
            Act::AwaitServers => action@ is AwaitServers,
            Act::KillServers => action@ is KillServers,
        },
{
}

/// An event is seen as it is: of the same kind, with what it holds.
pub proof fn law_events_are_seen_as_they_are<E>(event: Event<E>)
    ensures
        match event {
            Reply::Done => event@ is Done,
            Reply::Failed(e) => event@ == EventView::<E>::Failed(e),
            Reply::Flag(b) => event@ == EventView::<E>::Flag(b),
            Reply::Text(s) => event@ == EventView::<E>::Text(s@),
            Reply::Home(Some(s)) => event@ == EventView::<E>::Home(Some(s@)),
            Reply::Home(None) => event@ == EventView::<E>::Home(None),
            Reply::Tip(n) => event@ == EventView::<E>::Tip(n),
            Reply::Time(t) => event@ == EventView::<E>::Time(t),
            Reply::ChainId(id) => event@ == EventView::<E>::ChainId(id),
            Reply::Reason(s) => event@ == EventView::<E>::Reason(s@),
            Reply::Output(out) => event@ == EventView::<E>::Output(
                CommandOutput {
                    success: out.success,
                    code: out.code,
                    stdout: out.stdout@,
                    stderr: out.stderr@,
                },
            ),
            Reply::Ports { baseline, feature } => event@ == (EventView::<E>::Ports {
                baseline,
                feature,
            }),
            Reply::NoPorts => event@ is NoPorts,
        },
{
}

/// A fault is seen as it is, and so is a failure that the library found: of the same kind, with
/// what it holds.
pub proof fn law_faults_are_seen_as_they_are<E>(fault: CliFault<E>, problem: CliError)
    ensures
        match fault {
            Fault::Action(e) => fault@ == FaultView::<E>::Action(e),
            Fault::Wrapped(context, e) => fault@ == FaultView::<E>::Wrapped(context, e),
            Fault::Problem(p) => fault@ == FaultView::<E>::Problem(p@),
        },
        match problem {
            Problem::InvalidRpcUrl { rpc_url, reason } => problem@ == (Problem::InvalidRpcUrl {
                rpc_url: rpc_url@,
                reason: reason@,
            }),
            Problem::ChainIdUnavailable { rpc_url, reason } => problem@ == (
            Problem::ChainIdUnavailable { rpc_url: rpc_url@, reason: reason@ }),
            Problem::ChainIdMismatch { expected, found, rpc_url } => problem@ == (
            Problem::ChainIdMismatch { expected, found, rpc_url: rpc_url@ }),
            Problem::MissingBinary { ref_type, path } => problem@ == (Problem::MissingBinary {
                ref_type,
                path: path@,
            }),
            Problem::MissingCsv { ref_type, path } => problem@ == (Problem::MissingCsv {
                ref_type,
                path: path@,
            }),
            Problem::ChartLaunch { reason } => problem@ == (Problem::ChartLaunch {
                reason: reason@,
            }),
            Problem::ChartScript { code, stdout, stderr } => problem@ == (Problem::ChartScript {
                code,
                stdout: stdout@,
                stderr: stderr@,
            }),
            Problem::NoConsecutivePorts { start_port } => problem@ == (
            Problem::NoConsecutivePorts::<Seq<char>> { start_port }),
            Problem::SamplyNotFound => problem@ is SamplyNotFound,
            Problem::SamplyPathNotUtf8 { reason } => problem@ == (Problem::SamplyPathNotUtf8 {
                reason: reason@,
            }),
            Problem::SamplyPathEmpty => problem@ is SamplyPathEmpty,
            Problem::SamplyPathRelative { path } => problem@ == (Problem::SamplyPathRelative {
                path: path@,
            }),
        },
{
}

/// The paths that are expanded in the environment are those that are expanded at a home directory
/// that was read from it.
pub proof fn law_paths_are_expanded_at_the_home_that_was_read(
    a: Args,
    output_dir: String,
    secret: String,
)
    requires
        call_ensures(Args::output_dir_path, (&a,), output_dir),
        call_ensures(Args::jwt_secret_path, (&a,), secret),
    ensures
        exists|home: Option<String>| #[trigger]
            call_ensures(home_dir, (), home) && (forall|at: String| #[trigger]
                call_ensures(Args::output_dir_at, (&a, &home), at) ==> at@ == output_dir@),
        exists|home: Option<String>| #[trigger]
            call_ensures(home_dir, (), home) && (forall|at: String| #[trigger]
                call_ensures(Args::jwt_secret_at, (&a, &home), at) ==> at@ == secret@),
        a.output_dir@.len() == 0 || a.output_dir@[0] != '~' ==> output_dir@ == a.output_dir@,
        a.jwt_secret matches Some(given) ==> given@.len() == 0 || given@[0] != '~' ==> secret@
            == given@,
{
    let home = choose|home: Option<String>| #[trigger]
        call_ensures(home_dir, (), home) && output_dir@ == a@.expanded_output_dir(
            crate::text::opt_text(home),
        );
    assert(call_ensures(home_dir, (), home));
    let other = choose|home: Option<String>| #[trigger]
        call_ensures(home_dir, (), home) && secret@ == a@.effective_jwt_secret(
            crate::text::opt_text(home),
        );
    assert(call_ensures(home_dir, (), other));
}

/// New options hold the references and the data directory that they are made of. All else is the
/// same whatever these are, and no flag is set.
pub proof fn law_new_options_are_defaults(
    baseline_ref: String,
    feature_ref: String,
    datadir: String,
    res: Args,
)
    requires
        call_ensures(Args::new, (baseline_ref, feature_ref, datadir), res),
    ensures
        res@.baseline_ref == baseline_ref@,
        res@.feature_ref == feature_ref@,
        res@.datadir == datadir@,
        res@.blocks == 100,
        res@.output_dir == "./reth-bench-compare"@,
        res@.metrics_port == 5005,
        res@.chain.id == 1,
        res@.rpc_url is None,
        res@.jwt_secret is None,
        res@.wait_time is None,
        res@.warmup_blocks is None,
        res@.baseline_args is None,
        res@.feature_args is None,
        res@.reth_args.len() == 0,
        !res@.skip_git_validation,
        !res@.sudo,
        !res@.draw,
        !res@.profile,
        !res@.no_clear_cache,
{
}

/// A chain keeps the ID that it is made of and is named after it. Its default endpoint is the one
/// that options without a URL use.
pub proof fn law_chain_is_its_id(
    id: u64,
    chain: Chain,
    read: u64,
    name: String,
    url: &'static str,
    a: Args,
    used: String,
)
    requires
        call_ensures(Chain::from_id, (id,), chain),
        call_ensures(Chain::id, (&chain,), read),
        call_ensures(Chain::name, (&chain,), name),
        call_ensures(Args::get_default_rpc_url, (&chain,), url),
        call_ensures(Args::get_rpc_url, (&a,), used),
    ensures
        chain.id == id,
        read == id,
        name@ == crate::outside::chain_display(id),
        a.rpc_url is None && a.chain == chain ==> url@ == used@,
{
}

/// Sides and runs have names of their own, and the name of a benchmark's run is that of its side.
pub proof fn law_names_tell_apart(
    side: RefType,
    name: &'static str,
    heading: &'static str,
    run: &'static str,
    warmup: &'static str,
)
    requires
        call_ensures(RefType::name, (side,), name),
        call_ensures(RefType::heading, (side,), heading),
        call_ensures(NodeRun::name, (NodeRun::Benchmark(side),), run),
        call_ensures(NodeRun::name, (NodeRun::Warmup,), warmup),
    ensures
        side == RefType::Baseline ==> name@ == "baseline"@ && heading@ == "Baseline"@,
        side == RefType::Feature ==> name@ == "feature"@ && heading@ == "Feature"@,
        run@ == name@,
        warmup@ == "warmup"@,
{
}

/// The commit of a side is the one that its reference was resolved to.
pub proof fn law_sides_have_their_own_commits(
    commits: Commits<String>,
    baseline: String,
    feature: String,
)
    requires
        call_ensures(Commits::<String>::commit, (&commits, RefType::Baseline), baseline),
        call_ensures(Commits::<String>::commit, (&commits, RefType::Feature), feature),
    ensures
        baseline@ == commits.baseline@,
        feature@ == commits.feature@,
        commits@.baseline == commits.baseline@,
        commits@.feature == commits.feature@,
{
}

/// The chain ID of an endpoint is asked for just if its URL passed the check, and then of that
/// URL; a URL that did not pass ends the comparison with the problem that was found.
pub proof fn law_query_follows_the_check<E>(
    rpc_url: String,
    original_ref: String,
    checked: Result<(), CliError>,
    step: ComparisonStep<E>,
)
    requires
        call_ensures(begin_query::<E>, (rpc_url, original_ref, checked), step),
    ensures
        checked is Ok ==> step@ is Perform && step@->action == (ActionView::QueryChainId {
            rpc_url: rpc_url@,
        }),
        checked matches Err(e) ==> step@ == ComparisonStepView::<E>::Aborted(Fault::Problem(e@)),
{
}

/// A failure is reported with the step that it was part of.
pub proof fn law_contexts_name_the_step(which: &'static str, side: RefType, spawn: &'static str)
    requires
        call_ensures(Context::message, (Context::WhichSamply,), which),
        call_ensures(Context::message, (Context::SpawnSamply(side),), spawn),
    ensures
        which@ == "Failed to execute 'which samply' command"@,
        side == RefType::Baseline ==> spawn@ == "Failed to start samply server for baseline"@,
        side == RefType::Feature ==> spawn@ == "Failed to start samply server for feature"@,
{
}

/// A step is seen as it is: of the same kind, with its action, its result or its fault.
pub proof fn law_steps_are_seen_as_they_are<E>(
    step: ComparisonStep<E>,
    completion: Completion,
    serving: Serving,
)
    ensures
        match step {
            Step::Perform { state, action } => step@ == (ComparisonStepView::<E>::Perform {
                state: state@,
                action: action@,
            }),
            Step::Finished(result) => step@ == ComparisonStepView::<E>::Finished(result),
            Step::Aborted(fault) => step@ == ComparisonStepView::<E>::Aborted(fault@),
        },
        completion@ == completion,
        serving@ == serving,
{
}

} // verus!
