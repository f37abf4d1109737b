//! The comparison charts, which a Python script draws from the latency tables of both runs.

use vstd::prelude::*;
use vstd::string::*;
use crate::error::{CliError, Problem, RefType};
use crate::outside::decode_lossy;
use crate::paths::join;
use crate::protocol::{
    take_flag, take_text, Act, Action, ActionView, CliFault, CommandOutput, Event, EventView,
    Expected, Fault, FaultView, Reply, Step,
};
use crate::text::trim;

verus! {

/// What the charts wait for.
#[derive(Debug, PartialEq, Eq)]
pub enum ChartState<S> {
    /// The output directory of the baseline.
    LocatingBaseline,
    /// The output directory of the feature.
    LocatingFeature {
        /// The latency table of the baseline.
        baseline_csv: S,
    },
    /// Whether the latency table of a reference exists.
    CheckingCsv {
        /// The reference.
        ref_type: RefType,
        /// The latency table of the baseline.
        baseline_csv: S,
        /// The latency table of the feature.
        feature_csv: S,
    },
    /// The output directory of the report.
    LocatingReport {
        /// The latency table of the baseline.
        baseline_csv: S,
        /// The latency table of the feature.
        feature_csv: S,
    },
    /// The script to end.
    RunningScript {
        /// Where the script draws the chart.
        chart: S,
    },
}

impl View for ChartState<String> {
    type V = ChartState<Seq<char>>;

    open spec fn view(&self) -> ChartState<Seq<char>> {
        match *self {
            ChartState::LocatingBaseline => ChartState::LocatingBaseline,
            ChartState::LocatingFeature { baseline_csv } => ChartState::LocatingFeature {
                baseline_csv: baseline_csv@,
            },
            ChartState::CheckingCsv { ref_type, baseline_csv, feature_csv } =>
            ChartState::CheckingCsv {
                ref_type,
                baseline_csv: baseline_csv@,
                feature_csv: feature_csv@,
            },
            ChartState::LocatingReport { baseline_csv, feature_csv } =>
            ChartState::LocatingReport {
                baseline_csv: baseline_csv@,
                feature_csv: feature_csv@,
            },
            ChartState::RunningScript { chart } => ChartState::RunningScript { chart: chart@ },
        }
    }
}

impl<S> ChartState<S> {
    /// The kind of event that the state waits for.
    pub open spec fn expects(self) -> Expected {
        match self {
            ChartState::CheckingCsv { .. } => Expected::Flag,
            ChartState::RunningScript { .. } => Expected::Script,
            _ => Expected::Text,
        }
    }

    /// Returns the kind of event that the state waits for.
    pub fn expected(&self) -> (res: Expected)
        ensures
            res == self.expects(),
    {
        match self {
            ChartState::CheckingCsv { .. } => Expected::Flag,
            ChartState::RunningScript { .. } => Expected::Script,
            _ => Expected::Text,
        }
    }
}

/// Where the charts stand; the result is the path of the chart.
pub type ChartStep<E> = Step<ChartState<String>, Action, String, CliFault<E>>;

/// The mathematical form of a step of the charts.
pub type ChartStepView<E> = Step<ChartState<Seq<char>>, ActionView, Seq<char>, FaultView<E>>;

/// The latency table in the output directory of a reference.
pub open spec fn latency_table(output_dir: Seq<char>) -> Seq<char> {
    crate::paths::below(output_dir, "combined_latency.csv"@)
}

/// The chart in the output directory of the report.
pub open spec fn chart_path(output_dir: Seq<char>) -> Seq<char> {
    crate::paths::below(output_dir, "latency_comparison.png"@)
}

/// The arguments that `uv` draws the chart with.
pub open spec fn chart_arguments(
    baseline_csv: Seq<char>,
    feature_csv: Seq<char>,
    chart: Seq<char>,
) -> Seq<Seq<char>> {
    seq![
        "run"@,
        "bin/reth-bench/scripts/compare_newpayload_latency.py"@,
        baseline_csv,
        feature_csv,
        "-o"@,
        chart,
    ]
}

/// The table of a side and the chart are files of their own names in the directory that is given:
/// the path is the directory, a separator unless the directory is empty or ends with one, and the
/// name of the file.
pub proof fn law_chart_files_are_in_their_directory(output_dir: Seq<char>)
    ensures
        ({
            let gap = if output_dir.len() == 0 || output_dir[output_dir.len() - 1] == '/' {
                Seq::<char>::empty()
            } else {
                seq!['/']
            };
            &&& latency_table(output_dir) == output_dir + gap + "combined_latency.csv"@
            &&& chart_path(output_dir) == output_dir + gap + "latency_comparison.png"@
        }),
{
    let none = Seq::<char>::empty();
    assert(output_dir + none =~= output_dir);
}

/// The chart is drawn from the tables of both sides, the baseline's first, to the path of the
/// chart: the arguments are six, and each is where the script looks for it. So other tables, or
/// another chart, make other arguments.
pub proof fn law_chart_arguments_name_both_tables(
    baseline_csv: Seq<char>,
    feature_csv: Seq<char>,
    chart: Seq<char>,
    other_baseline: Seq<char>,
    other_feature: Seq<char>,
    other_chart: Seq<char>,
)
    ensures
        ({
            let args = chart_arguments(baseline_csv, feature_csv, chart);
            &&& args.len() == 6
            &&& args[0] == "run"@
            &&& args[1] == "bin/reth-bench/scripts/compare_newpayload_latency.py"@
            &&& args[2] == baseline_csv
            &&& args[3] == feature_csv
            &&& args[4] == "-o"@
            &&& args[5] == chart
        }),
        chart_arguments(baseline_csv, feature_csv, chart) == chart_arguments(
            other_baseline,
            other_feature,
            other_chart,
        ) <==> baseline_csv == other_baseline && feature_csv == other_feature && chart
            == other_chart,
{
    let a = chart_arguments(baseline_csv, feature_csv, chart);
    let b = chart_arguments(other_baseline, other_feature, other_chart);
    assert(a[2] == baseline_csv && a[3] == feature_csv && a[5] == chart);
    assert(b[2] == other_baseline && b[3] == other_feature && b[5] == other_chart);
}

/// The verdict on the chart script, given how it ended and what it wrote.
pub open spec fn script_verdict(
    output: CommandOutput<Seq<u8>>,
    chart: Seq<char>,
) -> Result<Seq<char>, crate::error::CliErrorView> {
    if output.success {
        Ok(chart)
    } else {
        Err(
            Problem::ChartScript {
                code: output.code,
                stdout: crate::outside::utf8_lossy(output.stdout),
                stderr: crate::outside::utf8_lossy(output.stderr),
            },
        )
    }
}

/// How the charts go on after an event.
pub open spec fn chart_next<E>(
    state: ChartState<Seq<char>>,
    event: EventView<E>,
) -> ChartStepView<E> {
    if let Reply::Failed(e) = event {
        Step::Aborted(Fault::Action(e))
    } else {
        match state {
            ChartState::LocatingBaseline => Step::Perform {
                state: ChartState::LocatingFeature { baseline_csv: latency_table(event->Text_0) },
                action: Act::LocateRefOutput { ref_type: RefType::Feature },
            },
            ChartState::LocatingFeature { baseline_csv } => Step::Perform {
                state: ChartState::CheckingCsv {
                    ref_type: RefType::Baseline,
                    baseline_csv,
                    feature_csv: latency_table(event->Text_0),
                },
                action: Act::CheckExists { path: baseline_csv },
            },
            ChartState::CheckingCsv { ref_type: RefType::Baseline, baseline_csv, feature_csv } =>
            if event->Flag_0 {
                Step::Perform {
                    state: ChartState::CheckingCsv {
                        ref_type: RefType::Feature,
                        baseline_csv,
                        feature_csv,
                    },
                    action: Act::CheckExists { path: feature_csv },
                }
            } else {
                Step::Aborted(
                    Fault::Problem(
                        Problem::MissingCsv { ref_type: RefType::Baseline, path: baseline_csv },
                    ),
                )
            },
            ChartState::CheckingCsv { ref_type: RefType::Feature, baseline_csv, feature_csv } =>
            if event->Flag_0 {
                Step::Perform {
                    state: ChartState::LocatingReport { baseline_csv, feature_csv },
                    action: Act::LocateReportOutput,
                }
            } else {
                Step::Aborted(
                    Fault::Problem(
                        Problem::MissingCsv { ref_type: RefType::Feature, path: feature_csv },
                    ),
                )
            },
            ChartState::LocatingReport { baseline_csv, feature_csv } => {
                let chart = chart_path(event->Text_0);
                Step::Perform {
                    state: ChartState::RunningScript { chart },
                    action: Act::RunUv { args: chart_arguments(baseline_csv, feature_csv, chart) },
                }
            },
            ChartState::RunningScript { chart } => match event {
                Reply::Output(output) => match script_verdict(output, chart) {
                    Ok(drawn) => Step::Finished(drawn),
                    Err(problem) => Step::Aborted(Fault::Problem(problem)),
                },
                _ => Step::Aborted(
                    Fault::Problem(Problem::ChartLaunch { reason: event->Reason_0 }),
                ),
            },
        }
    }
}

/// The first state of the charts and its action.
pub fn start_charts() -> (res: (ChartState<String>, Action))
    ensures
        res.0@ == ChartState::<Seq<char>>::LocatingBaseline,
        res.1@ == (ActionView::LocateRefOutput { ref_type: RefType::Baseline }),
{
    (ChartState::LocatingBaseline, Act::LocateRefOutput { ref_type: RefType::Baseline })
}

fn latency_table_path(output_dir: &str) -> (res: String)
    ensures
        res@ == latency_table(output_dir@),
{
    proof {
        reveal_strlit("combined_latency.csv");
    }
    join(output_dir, "combined_latency.csv")
}

fn chart_file(output_dir: &str) -> (res: String)
    ensures
        res@ == chart_path(output_dir@),
{
    proof {
        reveal_strlit("latency_comparison.png");
    }
    join(output_dir, "latency_comparison.png")
}

fn chart_argument_list(baseline_csv: String, feature_csv: String, chart: String) -> (res: Vec<
    String,
>)
    ensures
        crate::text::texts(res@) == chart_arguments(baseline_csv@, feature_csv@, chart@),
{
    let res: Vec<String> =
        vec![
        "run".to_owned(),
        "bin/reth-bench/scripts/compare_newpayload_latency.py".to_owned(),
        baseline_csv,
        feature_csv,
        "-o".to_owned(),
        chart,
    ];
    assert(crate::text::texts(res@) =~= chart_arguments(baseline_csv@, feature_csv@, chart@));
    res
}

/// Takes the path of the chart from a script that succeeded and reports one that failed.
pub fn judge_script(output: CommandOutput<Vec<u8>>, chart: String) -> (res: Result<
    String,
    CliError,
>)
    ensures
        match res {
            Ok(drawn) => script_verdict(output@, chart@) == Ok::<
                Seq<char>,
                crate::error::CliErrorView,
            >(drawn@),
            Err(e) => script_verdict(output@, chart@) == Err::<
                Seq<char>,
                crate::error::CliErrorView,
            >(e@),
        },
{
    if output.success {
        Ok(chart)
    } else {
        Err(
            CliError::ChartScript {
                code: output.code,
                stdout: decode_lossy(output.stdout.as_slice()),
                stderr: decode_lossy(output.stderr.as_slice()),
            },
        )
    }
}

/// What a command wrote, unless it is all whitespace.
pub fn visible_output(stdout: &[u8]) -> (res: Option<String>)
    ensures
        match res {
            Some(text) => text@ == crate::outside::utf8_lossy(stdout@) && crate::text::trimmed(
                text@,
            ).len() > 0,
            None => crate::text::trimmed(crate::outside::utf8_lossy(stdout@)).len() == 0,
        },
{
    let text = decode_lossy(stdout);
    let visible = trim(text.as_str());
    if visible.as_str().is_empty() {
        None
    } else {
        Some(text)
    }
}

/// Takes the charts on after an event.
pub fn advance_charts<E>(state: ChartState<String>, event: Event<E>) -> (res: ChartStep<E>)
    requires
        crate::protocol::fits(state@.expects(), event@),
    ensures
        res@ == chart_next(state@, event@),
        res matches Step::Perform { state, action } ==> crate::protocol::answer_kind(action@)
            == state@.expects(),
{
    if let Reply::Failed(e) = event {
        return Step::Aborted(Fault::Action(e));
    }
    match state {
        ChartState::LocatingBaseline => {
            let output_dir = take_text(event);
            Step::Perform {
                state: ChartState::LocatingFeature {
                    baseline_csv: latency_table_path(output_dir.as_str()),
                },
                action: Act::LocateRefOutput { ref_type: RefType::Feature },
            }
        },
        ChartState::LocatingFeature { baseline_csv } => {
            let output_dir = take_text(event);
            let path = baseline_csv.clone();
            Step::Perform {
                state: ChartState::CheckingCsv {
                    ref_type: RefType::Baseline,
                    baseline_csv,
                    feature_csv: latency_table_path(output_dir.as_str()),
                },
                action: Act::CheckExists { path },
            }
        },
        ChartState::CheckingCsv { ref_type, baseline_csv, feature_csv } => {
            let exists = take_flag(event);
            match ref_type {
                RefType::Baseline => {
                    if exists {
                        let path = feature_csv.clone();
                        Step::Perform {
                            state: ChartState::CheckingCsv {
                                ref_type: RefType::Feature,
                                baseline_csv,
                                feature_csv,
                            },
                            action: Act::CheckExists { path },
                        }
                    } else {
                        Step::Aborted(
                            Fault::Problem(CliError::MissingCsv { ref_type, path: baseline_csv }),
                        )
                    }
                },
                RefType::Feature => {
                    if exists {
                        Step::Perform {
                            state: ChartState::LocatingReport { baseline_csv, feature_csv },
                            action: Act::LocateReportOutput,
                        }
                    } else {
                        Step::Aborted(
                            Fault::Problem(CliError::MissingCsv { ref_type, path: feature_csv }),
                        )
                    }
                },
            }
        },
        ChartState::LocatingReport { baseline_csv, feature_csv } => {
            let output_dir = take_text(event);
            let chart = chart_file(output_dir.as_str());
            let args = chart_argument_list(baseline_csv, feature_csv, chart.clone());
            Step::Perform {
                state: ChartState::RunningScript { chart },
                action: Act::RunUv { args },
            }
        },
        ChartState::RunningScript { chart } => match event {
            Reply::Output(output) => match judge_script(output, chart) {
                Ok(drawn) => Step::Finished(drawn),
                Err(problem) => Step::Aborted(Fault::Problem(problem)),
            },
            Reply::Reason(reason) => Step::Aborted(
                Fault::Problem(CliError::ChartLaunch { reason }),
            ),
            _ => vstd::pervasive::unreached(),
        },
    }
}

} // verus!
