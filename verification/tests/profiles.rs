use reth_bench_compare::args::Args;
use reth_bench_compare::charts::{
    advance_charts, judge_script, start_charts, visible_output, ChartState,
};
use reth_bench_compare::error::{CliError, RefType};
use reth_bench_compare::protocol::{
    event_fits, Action, CommandOutput, Context, Event, Fault, Step,
};
use reth_bench_compare::samply::{
    advance_samply, get_samply_path, samply_can_take, start_samply, Profiles, SamplyState, Serving,
};

type TextEvent = Event<&'static str>;

fn command(success: bool, code: i32, stdout: &[u8], stderr: &[u8]) -> CommandOutput<Vec<u8>> {
    CommandOutput { success, code: Some(code), stdout: stdout.to_vec(), stderr: stderr.to_vec() }
}

fn words(list: &[&str]) -> Vec<String> {
    list.iter().map(|word| word.to_string()).collect()
}

fn text(s: &str) -> TextEvent {
    Event::Text(s.to_string())
}

/// Feeds events to the charts and gives the actions and the last step.
fn draw(events: Vec<TextEvent>) -> (Vec<Action>, Result<String, Fault<CliError, &'static str>>) {
    let (mut state, action): (ChartState<String>, Action) = start_charts();
    let mut actions = vec![action];
    for event in events {
        assert!(event_fits(state.expected(), &event));
        match advance_charts(state, event) {
            Step::Perform { state: next, action } => {
                state = next;
                actions.push(action);
            }
            Step::Finished(chart) => return (actions, Ok(chart)),
            Step::Aborted(fault) => return (actions, Err(fault)),
        }
    }
    panic!("the charts still wait after {:?}", actions);
}

/// Feeds events to the profile servers and gives the actions and the last step.
fn serve(events: Vec<TextEvent>) -> (Vec<Action>, Result<Serving, Fault<CliError, &'static str>>) {
    let mut args = Args::new("main".to_string(), "topic".to_string(), "/data".to_string());
    args.output_dir = "~/out".to_string();
    let (mut state, action): (SamplyState<String>, Action) = start_samply();
    let mut actions = vec![action];
    for event in events {
        assert!(samply_can_take(&state, &event));
        match advance_samply(&args, state, event) {
            Step::Perform { state: next, action } => {
                state = next;
                actions.push(action);
            }
            Step::Finished(serving) => return (actions, Ok(serving)),
            Step::Aborted(fault) => return (actions, Err(fault)),
        }
    }
    panic!("the servers still wait after {:?}", actions);
}

fn tables_found() -> Vec<TextEvent> {
    vec![
        text("/out/b"),
        text("/out/f/"),
        Event::Flag(true),
        Event::Flag(true),
        text("/out"),
    ]
}

fn home() -> TextEvent {
    Event::Home(Some("/home/u".to_string()))
}

fn profiles_found() -> Vec<TextEvent> {
    vec![
        home(),
        Event::Flag(true),
        Event::Flag(true),
        Event::Ports { baseline: 3004, feature: 3005 },
    ]
}

#[test]
fn the_chart_is_drawn_from_both_tables() {
    let mut events = tables_found();
    events.push(Event::Output(command(true, 0, b"done", b"")));
    let (actions, result) = draw(events);
    assert_eq!(
        actions,
        vec![
            Action::LocateRefOutput { ref_type: RefType::Baseline },
            Action::LocateRefOutput { ref_type: RefType::Feature },
            Action::CheckExists { path: "/out/b/combined_latency.csv".to_string() },
            Action::CheckExists { path: "/out/f/combined_latency.csv".to_string() },
            Action::LocateReportOutput,
            Action::RunUv {
                args: words(&[
                    "run",
                    "bin/reth-bench/scripts/compare_newpayload_latency.py",
                    "/out/b/combined_latency.csv",
                    "/out/f/combined_latency.csv",
                    "-o",
                    "/out/latency_comparison.png",
                ]),
            },
        ]
    );
    assert_eq!(result, Ok("/out/latency_comparison.png".to_string()));
}

#[test]
fn a_missing_table_stops_the_charts() {
    let (_, result) = draw(vec![text("b"), text("f"), Event::Flag(false)]);
    assert_eq!(
        result,
        Err(Fault::Problem(CliError::MissingCsv {
            ref_type: RefType::Baseline,
            path: "b/combined_latency.csv".to_string(),
        }))
    );
    let (_, result) = draw(vec![text("b"), text("f"), Event::Flag(true), Event::Flag(false)]);
    assert_eq!(
        result,
        Err(Fault::Problem(CliError::MissingCsv {
            ref_type: RefType::Feature,
            path: "f/combined_latency.csv".to_string(),
        }))
    );
}

#[test]
fn a_directory_that_cannot_be_told_stops_the_charts() {
    let (_, result) = draw(vec![Event::Failed("no text")]);
    assert_eq!(result, Err(Fault::Action("no text")));
    let (_, result) = draw(vec![text("b"), Event::Failed("no text")]);
    assert_eq!(result, Err(Fault::Action("no text")));
    let mut events = tables_found();
    events.pop();
    events.push(Event::Failed("no text"));
    let (_, result) = draw(events);
    assert_eq!(result, Err(Fault::Action("no text")));
}

#[test]
fn a_script_that_does_not_start_is_reported() {
    let mut events = tables_found();
    events.push(Event::Reason("No such file".to_string()));
    let (_, result) = draw(events);
    assert_eq!(
        result,
        Err(Fault::Problem(CliError::ChartLaunch { reason: "No such file".to_string() }))
    );
}

#[test]
fn a_script_that_fails_is_reported_with_its_output() {
    let mut events = tables_found();
    events.push(Event::Output(command(false, 2, b"half", b"bad \xff byte")));
    let (_, result) = draw(events);
    assert_eq!(
        result,
        Err(Fault::Problem(CliError::ChartScript {
            code: Some(2),
            stdout: "half".to_string(),
            stderr: "bad \u{fffd} byte".to_string(),
        }))
    );
}

#[test]
fn the_verdict_on_the_script_follows_its_status() {
    let chart = || "c.png".to_string();
    assert_eq!(judge_script(command(true, 0, b"", b"warning"), chart()), Ok(chart()));
    assert_eq!(
        judge_script(command(false, 1, b"o", b"e"), chart()),
        Err(CliError::ChartScript {
            code: Some(1),
            stdout: "o".to_string(),
            stderr: "e".to_string(),
        })
    );
}

#[test]
fn only_visible_output_is_shown() {
    assert_eq!(visible_output(b" \n\t"), None);
    assert_eq!(visible_output(b""), None);
    assert_eq!(visible_output(b" mean: 3\n"), Some(" mean: 3\n".to_string()));
    assert_eq!(visible_output(b"\xff"), Some("\u{fffd}".to_string()));
}

#[test]
fn the_path_of_samply_is_trimmed() {
    assert_eq!(
        get_samply_path(command(true, 0, b"/usr/bin/samply\n", b"")),
        Ok("/usr/bin/samply".to_string())
    );
}

#[test]
fn samply_must_be_in_the_search_path() {
    assert_eq!(
        get_samply_path(command(false, 1, b"/usr/bin/samply\n", b"")),
        Err(CliError::SamplyNotFound)
    );
}

#[test]
fn the_path_of_samply_must_be_text() {
    assert_eq!(
        get_samply_path(command(true, 0, b"/bin/\xff", b"")),
        Err(CliError::SamplyPathNotUtf8 {
            reason: "invalid utf-8 sequence of 1 bytes from index 5".to_string(),
        })
    );
}

#[test]
fn the_path_of_samply_must_not_be_blank() {
    assert_eq!(get_samply_path(command(true, 0, b" \n", b"")), Err(CliError::SamplyPathEmpty));
    assert_eq!(get_samply_path(command(true, 0, b"", b"")), Err(CliError::SamplyPathEmpty));
}

#[test]
fn the_path_of_samply_must_be_absolute() {
    for printed in ["bin/samply\n", "samply", "./samply", "~/samply"] {
        assert_eq!(
            get_samply_path(command(true, 0, printed.as_bytes(), b"")),
            Err(CliError::SamplyPathRelative { path: printed.trim().to_string() })
        );
    }
    assert_eq!(get_samply_path(command(true, 0, b" /s", b"")), Ok("/s".to_string()));
}

#[test]
fn only_consecutive_ports_are_taken() {
    let profiles = Profiles { baseline: "b".to_string(), feature: "f".to_string() };
    let waiting: SamplyState<String> = SamplyState::FindingPorts { profiles };
    let ports = |baseline: u16, feature: u16| -> TextEvent { Event::Ports { baseline, feature } };
    assert!(samply_can_take(&waiting, &ports(3000, 3001)));
    assert!(samply_can_take(&waiting, &ports(65534, 65535)));
    assert!(!samply_can_take(&waiting, &ports(3000, 3000)));
    assert!(!samply_can_take(&waiting, &ports(3000, 3002)));
    assert!(!samply_can_take(&waiting, &ports(2999, 3000)));
    assert!(!samply_can_take(&waiting, &ports(65535, 0)));
    let none: TextEvent = Event::NoPorts;
    assert!(samply_can_take(&waiting, &none));
    assert!(!samply_can_take(&waiting, &home()));
}

#[test]
fn both_profiles_are_served_until_the_end() {
    let mut events = profiles_found();
    events.push(Event::Output(command(true, 0, b"/bin/samply\n", b"")));
    for _ in 0..6 {
        events.push(Event::Done);
    }
    let (actions, result) = serve(events);
    assert_eq!(
        actions,
        vec![
            Action::ReadHome,
            Action::CheckExists { path: "/home/u/out/profiles/baseline.json.gz".to_string() },
            Action::CheckExists { path: "/home/u/out/profiles/feature.json.gz".to_string() },
            Action::FindPorts { start_port: 3000 },
            Action::WhichSamply,
            Action::SpawnSamply {
                ref_type: RefType::Baseline,
                program: "/bin/samply".to_string(),
                args: words(&["load", "--port", "3004", "/home/u/out/profiles/baseline.json.gz"]),
            },
            Action::SpawnSamply {
                ref_type: RefType::Feature,
                program: "/bin/samply".to_string(),
                args: words(&["load", "--port", "3005", "/home/u/out/profiles/feature.json.gz"]),
            },
            Action::Sleep { secs: 2 },
            Action::Print {
                text: "\n=== SAMPLY PROFILE SERVERS STARTED ===\n\
                    Baseline 'main': http://127.0.0.1:3004\n\
                    Feature  'topic': http://127.0.0.1:3005\n\
                    \n\
                    Open the URLs in your browser to view the profiles.\n\
                    Press Ctrl+C to stop the servers and exit.\n\
                    =========================================\n\n"
                    .to_string(),
            },
            Action::AwaitServers,
            Action::KillServers,
        ]
    );
    assert_eq!(result, Ok(Serving::Stopped));
}

#[test]
fn a_missing_profile_is_no_failure() {
    let (_, result) = serve(vec![home(), Event::Flag(false)]);
    assert_eq!(result, Ok(Serving::ProfileMissing(RefType::Baseline)));
    let (_, result) = serve(vec![home(), Event::Flag(true), Event::Flag(false)]);
    assert_eq!(result, Ok(Serving::ProfileMissing(RefType::Feature)));
}

#[test]
fn serving_needs_two_ports() {
    let events = vec![home(), Event::Flag(true), Event::Flag(true), Event::NoPorts];
    let (_, result) = serve(events);
    assert_eq!(result, Err(Fault::Problem(CliError::NoConsecutivePorts { start_port: 3000 })));
}

#[test]
fn serving_needs_the_profiler() {
    let mut events = profiles_found();
    events.push(Event::Failed("no which"));
    let (_, result) = serve(events);
    assert_eq!(result, Err(Fault::Wrapped(Context::WhichSamply, "no which")));

    let mut events = profiles_found();
    events.push(Event::Output(command(false, 1, b"", b"")));
    let (_, result) = serve(events);
    assert_eq!(result, Err(Fault::Problem(CliError::SamplyNotFound)));
}

#[test]
fn a_server_that_does_not_start_is_reported_with_its_side() {
    let mut events = profiles_found();
    events.push(Event::Output(command(true, 0, b"/s", b"")));
    events.push(Event::Failed("denied"));
    let (_, result) = serve(events);
    let context = Context::SpawnSamply(RefType::Baseline);
    assert_eq!(result, Err(Fault::Wrapped(context, "denied")));

    let mut events = profiles_found();
    events.push(Event::Output(command(true, 0, b"/s", b"")));
    events.push(Event::Done);
    events.push(Event::Failed("denied"));
    let (_, result) = serve(events);
    let context = Context::SpawnSamply(RefType::Feature);
    assert_eq!(result, Err(Fault::Wrapped(context, "denied")));
}
