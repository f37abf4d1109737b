//! The two sides of a comparison and the failures that the library itself reports.

use vstd::prelude::*;
use vstd::string::*;
use crate::chain::Chain;
use crate::outside::debug_path;
use crate::text::{decimal_text, signed_decimal_text};

verus! {

/// Which of the two compared references is meant.
#[derive(Debug, Clone, Copy, PartialEq, Eq, Structural)]
pub enum RefType {
    /// The reference that the comparison starts from.
    Baseline,
    /// The reference that is compared against the baseline.
    Feature,
}

impl RefType {
    /// The lower-case name of the side.
    pub open spec fn label(self) -> Seq<char> {
        match self {
            RefType::Baseline => "baseline"@,
            RefType::Feature => "feature"@,
        }
    }

    /// The name of the side as it begins a sentence.
    pub open spec fn title(self) -> Seq<char> {
        match self {
            RefType::Baseline => "Baseline"@,
            RefType::Feature => "Feature"@,
        }
    }

    /// Returns the lower-case name of the side.
    pub fn name(self) -> (res: &'static str)
        ensures
            res@ == self.label(),
    {
        match self {
            RefType::Baseline => "baseline",
            RefType::Feature => "feature",
        }
    }

    /// Returns the name of the side as it begins a sentence.
    pub fn heading(self) -> (res: &'static str)
        ensures
            res@ == self.title(),
    {
        match self {
            RefType::Baseline => "Baseline",
            RefType::Feature => "Feature",
        }
    }
}

/// A failure that the library detects, over texts of type `S`.
#[derive(Debug, PartialEq, Eq)]
pub enum Problem<S> {
    /// The RPC URL does not parse.
    InvalidRpcUrl {
        /// The URL.
        rpc_url: S,
        /// Why it was rejected.
        reason: S,
    },
    /// The RPC endpoint did not give its chain ID.
    ChainIdUnavailable {
        /// The URL of the endpoint.
        rpc_url: S,
        /// What the query failed with.
        reason: S,
    },
    /// The RPC endpoint serves another chain.
    ChainIdMismatch {
        /// The chain that was asked for.
        expected: Chain,
        /// The chain ID of the endpoint.
        found: u64,
        /// The URL of the endpoint.
        rpc_url: S,
    },
    /// The binary that compilation should have left is not there.
    MissingBinary {
        /// The reference whose binary is missing.
        ref_type: RefType,
        /// Where it should be.
        path: S,
    },
    /// The latency table of a benchmark run is not there.
    MissingCsv {
        /// The reference whose table is missing.
        ref_type: RefType,
        /// Where it should be.
        path: S,
    },
    /// The chart script could not be started.
    ChartLaunch {
        /// What starting it failed with.
        reason: S,
    },
    /// The chart script failed.
    ChartScript {
        /// The exit code, if there is one.
        code: Option<i32>,
        /// What it wrote to standard output.
        stdout: S,
        /// What it wrote to standard error.
        stderr: S,
    },
    /// No two consecutive ports are free.
    NoConsecutivePorts {
        /// The first port that was considered.
        start_port: u16,
    },
    /// There is no `samply` in the search path.
    SamplyNotFound,
    /// The path of `samply` is not UTF-8.
    SamplyPathNotUtf8 {
        /// What decoding it failed with.
        reason: S,
    },
    /// The path of `samply` is empty.
    SamplyPathEmpty,
    /// The path of `samply` is not absolute.
    SamplyPathRelative {
        /// The path.
        path: S,
    },
}

/// A failure as the library returns it.
pub type CliError = Problem<String>;

/// The mathematical form of a failure.
pub type CliErrorView = Problem<Seq<char>>;

impl View for Problem<String> {
    type V = Problem<Seq<char>>;

    open spec fn view(&self) -> Problem<Seq<char>> {
        match *self {
            Problem::InvalidRpcUrl { rpc_url, reason } => Problem::InvalidRpcUrl {
                rpc_url: rpc_url@,
                reason: reason@,
            },
            Problem::ChainIdUnavailable { rpc_url, reason } => Problem::ChainIdUnavailable {
                rpc_url: rpc_url@,
                reason: reason@,
            },
            Problem::ChainIdMismatch { expected, found, rpc_url } => Problem::ChainIdMismatch {
                expected,
                found,
                rpc_url: rpc_url@,
            },
            Problem::MissingBinary { ref_type, path } => Problem::MissingBinary {
                ref_type,
                path: path@,
            },
            Problem::MissingCsv { ref_type, path } => Problem::MissingCsv { ref_type, path: path@ },
            Problem::ChartLaunch { reason } => Problem::ChartLaunch { reason: reason@ },
            Problem::ChartScript { code, stdout, stderr } => Problem::ChartScript {
                code,
                stdout: stdout@,
                stderr: stderr@,
            },
            Problem::NoConsecutivePorts { start_port } => Problem::NoConsecutivePorts {
                start_port,
            },
            Problem::SamplyNotFound => Problem::SamplyNotFound,
            Problem::SamplyPathNotUtf8 { reason } => Problem::SamplyPathNotUtf8 {
                reason: reason@,
            },
            Problem::SamplyPathEmpty => Problem::SamplyPathEmpty,
            Problem::SamplyPathRelative { path } => Problem::SamplyPathRelative { path: path@ },
        }
    }
}

/// An optional exit code as `Some(n)` or `None`.
pub open spec fn exit_code_form(code: Option<i32>) -> Seq<char> {
    match code {
        Some(n) => "Some("@ + crate::text::signed_decimal(n as int) + ")"@,
        None => "None"@,
    }
}

fn exit_code_text(code: Option<i32>) -> (res: String)
    ensures
        res@ == exit_code_form(code),
{
    match code {
        Some(n) => {
            let mut res = "Some(".to_owned();
            res.append(signed_decimal_text(n).as_str());
            res.append(")");
            res
        },
        None => "None".to_owned(),
    }
}

/// The sentence that tells a user of a failure.
pub open spec fn error_message(e: CliErrorView) -> Seq<char> {
    match e {
        Problem::InvalidRpcUrl { rpc_url, reason } => "Invalid RPC URL '"@ + rpc_url + "': "@
            + reason,
        Problem::ChainIdUnavailable { rpc_url, reason } =>
        "Failed to get chain ID from RPC endpoint "@ + rpc_url + ": "@ + reason,
        Problem::ChainIdMismatch { expected, found, rpc_url } =>
        "RPC endpoint chain ID mismatch!\nExpected: "@ + crate::text::decimal(expected.id as nat)
            + " (chain: "@ + crate::outside::chain_display(expected.id) + ")\nFound: "@
            + crate::text::decimal(found as nat) + " at RPC endpoint: "@ + rpc_url
            + "\n\nPlease use an RPC endpoint for the correct network or change the --chain argument."@,
        Problem::MissingBinary { ref_type, path } => "Cached "@ + ref_type.label()
            + " binary not found at "@ + crate::outside::path_debug(path)
            + ". Compilation phase should have created it."@,
        Problem::MissingCsv { ref_type, path } => ref_type.title() + " CSV not found: "@
            + crate::outside::path_debug(path),
        Problem::ChartLaunch { reason } => "Failed to execute Python script with uv: "@ + reason
            + ". Make sure uv is installed."@,
        Problem::ChartScript { code, stdout, stderr } => "Python script failed with exit code "@
            + exit_code_form(code) + ":\nstdout: "@ + stdout + "\nstderr: "@ + stderr,
        Problem::NoConsecutivePorts { start_port } =>
        "Could not find two consecutive available ports starting from "@ + crate::text::decimal(
            start_port as nat,
        ),
        Problem::SamplyNotFound => "samply not found in PATH"@,
        Problem::SamplyPathNotUtf8 { .. } => "samply path is not valid UTF-8"@,
        Problem::SamplyPathEmpty => "which samply returned empty path"@,
        Problem::SamplyPathRelative { path } => "which samply returned relative path: "@
            + crate::outside::path_debug(path),
    }
}

impl Problem<String> {
    /// Renders the sentence that tells a user of the failure.
    pub fn message(&self) -> (res: String)
        ensures
            res@ == error_message(self@),
    {
        match self {
            Problem::InvalidRpcUrl { rpc_url, reason } => {
                let mut res = "Invalid RPC URL '".to_owned();
                res.append(rpc_url.as_str());
                res.append("': ");
                res.append(reason.as_str());
                res
            },
            Problem::ChainIdUnavailable { rpc_url, reason } => {
                let mut res = "Failed to get chain ID from RPC endpoint ".to_owned();
                res.append(rpc_url.as_str());
                res.append(": ");
                res.append(reason.as_str());
                res
            },
            Problem::ChainIdMismatch { expected, found, rpc_url } => {
                let mut res = "RPC endpoint chain ID mismatch!\nExpected: ".to_owned();
                res.append(decimal_text(expected.id()).as_str());
                res.append(" (chain: ");
                res.append(expected.name().as_str());
                res.append(")\nFound: ");
                res.append(decimal_text(*found).as_str());
                res.append(" at RPC endpoint: ");
                res.append(rpc_url.as_str());
                res.append(
                    "\n\nPlease use an RPC endpoint for the correct network or change the --chain argument.",
                );
                res
            },
            Problem::MissingBinary { ref_type, path } => {
                let mut res = "Cached ".to_owned();
                res.append(ref_type.name());
                res.append(" binary not found at ");
                res.append(debug_path(path.as_str()).as_str());
                res.append(". Compilation phase should have created it.");
                res
            },
            Problem::MissingCsv { ref_type, path } => {
                let mut res = ref_type.heading().to_owned();
                res.append(" CSV not found: ");
                res.append(debug_path(path.as_str()).as_str());
                res
            },
            Problem::ChartLaunch { reason } => {
                let mut res = "Failed to execute Python script with uv: ".to_owned();
                res.append(reason.as_str());
                res.append(". Make sure uv is installed.");
                res
            },
            Problem::ChartScript { code, stdout, stderr } => {
                let mut res = "Python script failed with exit code ".to_owned();
                res.append(exit_code_text(*code).as_str());
                res.append(":\nstdout: ");
                res.append(stdout.as_str());
                res.append("\nstderr: ");
                res.append(stderr.as_str());
                res
            },
            Problem::NoConsecutivePorts { start_port } => {
                let mut res =
                    "Could not find two consecutive available ports starting from ".to_owned();
                res.append(decimal_text(*start_port as u64).as_str());
                res
            },
            Problem::SamplyNotFound => "samply not found in PATH".to_owned(),
            Problem::SamplyPathNotUtf8 { .. } => "samply path is not valid UTF-8".to_owned(),
            Problem::SamplyPathEmpty => "which samply returned empty path".to_owned(),
            Problem::SamplyPathRelative { path } => {
                let mut res = "which samply returned relative path: ".to_owned();
                res.append(debug_path(path.as_str()).as_str());
                res
            },
        }
    }
}

} // verus!
