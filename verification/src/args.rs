//! The options of a comparison and the values that are derived from them.

use vstd::prelude::*;
use crate::arguments::parse_optional_args;
use crate::chain::Chain;
use crate::error::RefType;
use crate::home::{drawn_home, expand_tilde, home_dir};
use crate::paths::join;

verus! {

/// How many blocks are benchmarked unless told otherwise.
pub const DEFAULT_BLOCKS: u64 = 100;

/// The port of the metrics endpoint unless told otherwise.
pub const DEFAULT_METRICS_PORT: u16 = 5005;

/// The ID of the chain that is used unless told otherwise.
pub const MAINNET_ID: u64 = 1;

/// The options of a comparison between two git references.
#[derive(Debug, PartialEq, Eq)]
pub struct Args {
    /// Git reference (branch or tag) to use as baseline for comparison.
    pub baseline_ref: String,
    /// Git reference (branch or tag) to compare against the baseline.
    pub feature_ref: String,
    /// The data directory of the chain.
    pub datadir: String,
    /// Number of blocks to benchmark.
    pub blocks: u64,
    /// RPC endpoint for fetching block data.
    pub rpc_url: Option<String>,
    /// JWT secret file path. If not provided, it is `jwt.hex` in the data directory.
    pub jwt_secret: Option<String>,
    /// Output directory for benchmark results.
    pub output_dir: String,
    /// Skip git branch validation (useful for testing).
    pub skip_git_validation: bool,
    /// Port for the node's metrics endpoint.
    pub metrics_port: u16,
    /// The chain the node is running.
    pub chain: Chain,
    /// Run the node binary with elevated privileges.
    pub sudo: bool,
    /// Generate comparison charts.
    pub draw: bool,
    /// Enable CPU profiling during benchmark runs.
    pub profile: bool,
    /// Wait time between engine API calls.
    pub wait_time: Option<String>,
    /// Number of blocks to run for cache warmup. If not specified, the same as `blocks`.
    pub warmup_blocks: Option<u64>,
    /// Disable filesystem cache clearing before the warmup phase.
    pub no_clear_cache: bool,
    /// Additional arguments for the baseline node.
    pub baseline_args: Option<String>,
    /// Additional arguments for the feature node.
    pub feature_args: Option<String>,
    /// Additional arguments for both nodes.
    pub reth_args: Vec<String>,
}

/// The mathematical form of the options.
pub struct ArgsView {
    /// Baseline reference.
    pub baseline_ref: Seq<char>,
    /// Feature reference.
    pub feature_ref: Seq<char>,
    /// Data directory of the chain.
    pub datadir: Seq<char>,
    /// Number of blocks to benchmark.
    pub blocks: u64,
    /// RPC endpoint.
    pub rpc_url: Option<Seq<char>>,
    /// JWT secret file path.
    pub jwt_secret: Option<Seq<char>>,
    /// Output directory.
    pub output_dir: Seq<char>,
    /// Whether git validation is skipped.
    pub skip_git_validation: bool,
    /// Metrics port.
    pub metrics_port: u16,
    /// Chain.
    pub chain: Chain,
    /// Elevated privileges.
    pub sudo: bool,
    /// Whether charts are drawn.
    pub draw: bool,
    /// Whether runs are profiled.
    pub profile: bool,
    /// Wait time.
    pub wait_time: Option<Seq<char>>,
    /// Number of warmup blocks.
    pub warmup_blocks: Option<u64>,
    /// Whether the filesystem caches are kept.
    pub no_clear_cache: bool,
    /// Additional baseline arguments.
    pub baseline_args: Option<Seq<char>>,
    /// Additional feature arguments.
    pub feature_args: Option<Seq<char>>,
    /// Additional arguments for both.
    pub reth_args: Seq<Seq<char>>,
}

impl View for Args {
    type V = ArgsView;

    open spec fn view(&self) -> ArgsView {
        ArgsView {
            baseline_ref: self.baseline_ref@,
            feature_ref: self.feature_ref@,
            datadir: self.datadir@,
            blocks: self.blocks,
            rpc_url: crate::text::opt_text(self.rpc_url),
            jwt_secret: crate::text::opt_text(self.jwt_secret),
            output_dir: self.output_dir@,
            skip_git_validation: self.skip_git_validation,
            metrics_port: self.metrics_port,
            chain: self.chain,
            sudo: self.sudo,
            draw: self.draw,
            profile: self.profile,
            wait_time: crate::text::opt_text(self.wait_time),
            warmup_blocks: self.warmup_blocks,
            no_clear_cache: self.no_clear_cache,
            baseline_args: crate::text::opt_text(self.baseline_args),
            feature_args: crate::text::opt_text(self.feature_args),
            reth_args: crate::text::texts(self.reth_args@),
        }
    }
}

impl ArgsView {
    /// The RPC URL: the given one, or the default of the chain.
    pub open spec fn effective_rpc_url(self) -> Seq<char> {
        match self.rpc_url {
            Some(url) => url,
            None => crate::chain::default_rpc_url(self.chain.id),
        }
    }

    /// The git reference of a side.
    pub open spec fn git_ref(self, ref_type: RefType) -> Seq<char> {
        match ref_type {
            RefType::Baseline => self.baseline_ref,
            RefType::Feature => self.feature_ref,
        }
    }

    /// The additional node arguments of a side.
    pub open spec fn additional_args(self, ref_type: RefType) -> Seq<Seq<char>> {
        match ref_type {
            RefType::Baseline => crate::arguments::optional_words(self.baseline_args),
            RefType::Feature => crate::arguments::optional_words(self.feature_args),
        }
    }

    /// The output directory at a home directory, which a leading tilde stands for.
    pub open spec fn expanded_output_dir(self, home: Option<Seq<char>>) -> Seq<char> {
        crate::outside::expanded(self.output_dir, home)
    }

    /// The JWT secret path at a home directory: the given path, in which a leading tilde stands
    /// for it, or `jwt.hex` in the data directory.
    pub open spec fn effective_jwt_secret(self, home: Option<Seq<char>>) -> Seq<char> {
        match self.jwt_secret {
            Some(given) => crate::outside::expanded(given, home),
            None => crate::paths::below(self.datadir, "jwt.hex"@),
        }
    }
}

/// A given JWT secret path wins over the chain and the data directory: options that give the same
/// path agree on it at the same home directory, whatever else they hold. One that begins with no
/// tilde is kept as it is.
pub proof fn law_given_jwt_secret_wins(a: ArgsView, b: ArgsView, home: Option<Seq<char>>)
    requires
        a.jwt_secret is Some,
        a.jwt_secret == b.jwt_secret,
    ensures
        a.effective_jwt_secret(home) == b.effective_jwt_secret(home),
        a.jwt_secret->0.len() == 0 || a.jwt_secret->0[0] != '~' ==> a.effective_jwt_secret(home)
            == a.jwt_secret->0,
{
}

impl Args {
    /// Returns the options for two references and a data directory, all others at their defaults.
    pub fn new(baseline_ref: String, feature_ref: String, datadir: String) -> (res: Args)
        ensures
            res@ == (ArgsView {
                baseline_ref: baseline_ref@,
                feature_ref: feature_ref@,
                datadir: datadir@,
                blocks: 100,
                rpc_url: None,
                jwt_secret: None,
                output_dir: "./reth-bench-compare"@,
                skip_git_validation: false,
                metrics_port: 5005,
                chain: Chain { id: 1 },
                sudo: false,
                draw: false,
                profile: false,
                wait_time: None,
                warmup_blocks: None,
                no_clear_cache: false,
                baseline_args: None,
                feature_args: None,
                reth_args: Seq::empty(),
            }),
    {
        let reth_args: Vec<String> = Vec::new();
        assert(crate::text::texts(reth_args@) =~= Seq::<Seq<char>>::empty());
        Args {
            baseline_ref,
            feature_ref,
            datadir,
            blocks: DEFAULT_BLOCKS,
            rpc_url: None,
            jwt_secret: None,
            output_dir: "./reth-bench-compare".to_owned(),
            skip_git_validation: false,
            metrics_port: DEFAULT_METRICS_PORT,
            chain: Chain { id: MAINNET_ID },
            sudo: false,
            draw: false,
            profile: false,
            wait_time: None,
            warmup_blocks: None,
            no_clear_cache: false,
            baseline_args: None,
            feature_args: None,
            reth_args,
        }
    }

    /// Get the default RPC URL for a given chain.
    pub fn get_default_rpc_url(chain: &Chain) -> (res: &'static str)
        ensures
            res@ == crate::chain::default_rpc_url(chain.id),
    {
        match chain.id() {
            1 => "https://reth-ethereum.ithaca.xyz/rpc",  // mainnet
            8453 => "https://base-mainnet.rpc.ithaca.xyz",  // base
            84532 => "https://base-sepolia.rpc.ithaca.xyz",  // base-sepolia
            27082 => "https://rpc.hoodi.ethpandaops.io",  // hoodi
            _ => "https://reth-ethereum.ithaca.xyz/rpc",  // fallback to mainnet
        }
    }

    /// Get the RPC URL, using the chain-specific default if not provided.
    pub fn get_rpc_url(&self) -> (res: String)
        ensures
            res@ == self@.effective_rpc_url(),
    {
        match &self.rpc_url {
            Some(url) => url.clone(),
            None => Self::get_default_rpc_url(&self.chain).to_owned(),
        }
    }

    /// Get the JWT secret path: either provided or derived from the data directory.
    ///
    /// What replaces a leading tilde comes from the environment.
    pub fn jwt_secret_path(&self) -> (res: String)
        ensures
            exists|home: Option<String>| #[trigger]
                call_ensures(home_dir, (), home) && res@ == self@.effective_jwt_secret(
                    crate::text::opt_text(home),
                ),
    {
        let home = drawn_home(home_dir);
        self.jwt_secret_at(&home)
    }

    /// Get the JWT secret path at a given home directory.
    pub fn jwt_secret_at(&self, home: &Option<String>) -> (res: String)
        ensures
            res@ == self@.effective_jwt_secret(crate::text::opt_text(*home)),
    {
        match &self.jwt_secret {
            Some(path) => expand_tilde(path.as_str(), home),
            None => {
                proof {
                    reveal_strlit("jwt.hex");
                }
                join(self.datadir.as_str(), "jwt.hex")
            },
        }
    }

    /// Get the data directory of the chain.
    pub fn datadir_path(&self) -> (res: String)
        ensures
            res@ == self@.datadir,
    {
        self.datadir.clone()
    }

    /// Get the expanded output directory path.
    ///
    /// What replaces a leading tilde comes from the environment.
    pub fn output_dir_path(&self) -> (res: String)
        ensures
            exists|home: Option<String>| #[trigger]
                call_ensures(home_dir, (), home) && res@ == self@.expanded_output_dir(
                    crate::text::opt_text(home),
                ),
    {
        let home = drawn_home(home_dir);
        self.output_dir_at(&home)
    }

    /// Get the output directory path, expanded at a given home directory.
    pub fn output_dir_at(&self, home: &Option<String>) -> (res: String)
        ensures
            res@ == self@.expanded_output_dir(crate::text::opt_text(*home)),
    {
        expand_tilde(self.output_dir.as_str(), home)
    }

    /// Get the effective warmup blocks value: either specified or the same as `blocks`.
    pub fn get_warmup_blocks(&self) -> (res: u64)
        ensures
            res == (match self.warmup_blocks {
                Some(n) => n,
                None => self.blocks,
            }),
    {
        match self.warmup_blocks {
            Some(n) => n,
            None => self.blocks,
        }
    }

    /// Get the git reference of a side.
    pub fn git_ref(&self, ref_type: RefType) -> (res: String)
        ensures
            res@ == self@.git_ref(ref_type),
    {
        match ref_type {
            RefType::Baseline => self.baseline_ref.clone(),
            RefType::Feature => self.feature_ref.clone(),
        }
    }

    /// Get the additional node arguments of a side.
    pub fn additional_args(&self, ref_type: RefType) -> (res: Vec<String>)
        ensures
            crate::text::texts(res@) == self@.additional_args(ref_type),
    {
        match ref_type {
            RefType::Baseline => parse_optional_args(&self.baseline_args),
            RefType::Feature => parse_optional_args(&self.feature_args),
        }
    }
}

} // verus!
