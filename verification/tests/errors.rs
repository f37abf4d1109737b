use reth_bench_compare::error::{CliError, RefType};
use reth_bench_compare::protocol::{Context, NodeRun};

#[test]
fn sides_have_names() {
    assert_eq!(RefType::Baseline.name(), "baseline");
    assert_eq!(RefType::Feature.name(), "feature");
    assert_eq!(RefType::Baseline.heading(), "Baseline");
    assert_eq!(RefType::Feature.heading(), "Feature");
}

#[test]
fn runs_have_names() {
    assert_eq!(NodeRun::Warmup.name(), "warmup");
    assert_eq!(NodeRun::Benchmark(RefType::Baseline).name(), "baseline");
    assert_eq!(NodeRun::Benchmark(RefType::Feature).name(), "feature");
}

#[test]
fn a_missing_binary_is_named_with_its_quoted_path() {
    let error =
        CliError::MissingBinary { ref_type: RefType::Baseline, path: "/bin/re\"th".to_string() };
    assert_eq!(
        error.message(),
        "Cached baseline binary not found at \"/bin/re\\\"th\". \
        Compilation phase should have created it."
    );
}

#[test]
fn a_missing_table_is_named_with_its_quoted_path() {
    let baseline =
        CliError::MissingCsv { ref_type: RefType::Baseline, path: "b.csv".to_string() };
    assert_eq!(baseline.message(), "Baseline CSV not found: \"b.csv\"");
    let feature = CliError::MissingCsv { ref_type: RefType::Feature, path: "f.csv".to_string() };
    assert_eq!(feature.message(), "Feature CSV not found: \"f.csv\"");
}

#[test]
fn chart_failures_tell_what_the_script_wrote() {
    let launch = CliError::ChartLaunch { reason: "No such file".to_string() };
    assert_eq!(
        launch.message(),
        "Failed to execute Python script with uv: No such file. Make sure uv is installed."
    );
    let script = CliError::ChartScript {
        code: Some(2),
        stdout: "out".to_string(),
        stderr: "err".to_string(),
    };
    assert_eq!(
        script.message(),
        "Python script failed with exit code Some(2):\nstdout: out\nstderr: err"
    );
    let killed =
        CliError::ChartScript { code: None, stdout: String::new(), stderr: String::new() };
    assert_eq!(killed.message(), "Python script failed with exit code None:\nstdout: \nstderr: ");
    let negative =
        CliError::ChartScript { code: Some(-7), stdout: String::new(), stderr: String::new() };
    assert_eq!(
        negative.message(),
        "Python script failed with exit code Some(-7):\nstdout: \nstderr: "
    );
}

#[test]
fn profile_server_failures_have_messages() {
    assert_eq!(
        CliError::NoConsecutivePorts { start_port: 3000 }.message(),
        "Could not find two consecutive available ports starting from 3000"
    );
    assert_eq!(CliError::SamplyNotFound.message(), "samply not found in PATH");
    assert_eq!(
        CliError::SamplyPathNotUtf8 { reason: "bad".to_string() }.message(),
        "samply path is not valid UTF-8"
    );
    assert_eq!(CliError::SamplyPathEmpty.message(), "which samply returned empty path");
    assert_eq!(
        CliError::SamplyPathRelative { path: "bin/samply".to_string() }.message(),
        "which samply returned relative path: \"bin/samply\""
    );
}

#[test]
fn contexts_have_messages() {
    assert_eq!(Context::WhichSamply.message(), "Failed to execute 'which samply' command");
    assert_eq!(
        Context::SpawnSamply(RefType::Baseline).message(),
        "Failed to start samply server for baseline"
    );
    assert_eq!(
        Context::SpawnSamply(RefType::Feature).message(),
        "Failed to start samply server for feature"
    );
}
