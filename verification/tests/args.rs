use reth_bench_compare::args::Args;
use reth_bench_compare::arguments::{parse_args_string, parse_optional_args, words_or_fallback};
use reth_bench_compare::chain::Chain;
use reth_bench_compare::error::RefType;
use reth_bench_compare::home::{
    drawn_home, drawn_text, expand_tilde, home_dir, home_from_tilde,
};

fn sample_args() -> Args {
    Args::new("main".to_string(), "feature".to_string(), "/data/mainnet".to_string())
}

#[test]
fn defaults_are_those_of_the_command_line() {
    let args = sample_args();
    assert_eq!(args.baseline_ref, "main");
    assert_eq!(args.feature_ref, "feature");
    assert_eq!(args.blocks, 100);
    assert_eq!(args.output_dir, "./reth-bench-compare");
    assert_eq!(args.metrics_port, 5005);
    assert_eq!(args.chain, Chain::from_id(1));
    assert_eq!(args.rpc_url, None);
    assert_eq!(args.jwt_secret, None);
    assert_eq!(args.wait_time, None);
    assert_eq!(args.warmup_blocks, None);
    assert_eq!(args.reth_args, Vec::<String>::new());
    assert!(!args.skip_git_validation && !args.sudo && !args.draw);
    assert!(!args.profile && !args.no_clear_cache);
}

#[test]
fn each_known_chain_has_its_endpoint() {
    let url = |id: u64| Args::get_default_rpc_url(&Chain::from_id(id));
    assert_eq!(url(1), "https://reth-ethereum.ithaca.xyz/rpc");
    assert_eq!(url(8453), "https://base-mainnet.rpc.ithaca.xyz");
    assert_eq!(url(84532), "https://base-sepolia.rpc.ithaca.xyz");
    assert_eq!(url(27082), "https://rpc.hoodi.ethpandaops.io");
    assert_eq!(url(0), "https://reth-ethereum.ithaca.xyz/rpc");
    assert_eq!(url(10), "https://reth-ethereum.ithaca.xyz/rpc");
}

#[test]
fn a_given_rpc_url_is_kept() {
    let mut args = sample_args();
    assert_eq!(args.get_rpc_url(), "https://reth-ethereum.ithaca.xyz/rpc");
    args.chain = Chain::from_id(8453);
    assert_eq!(args.get_rpc_url(), "https://base-mainnet.rpc.ithaca.xyz");
    args.rpc_url = Some("http://localhost:8545".to_string());
    assert_eq!(args.get_rpc_url(), "http://localhost:8545");
}

#[test]
fn the_jwt_secret_is_in_the_data_directory_by_default() {
    let mut args = sample_args();
    assert_eq!(args.jwt_secret_path(), "/data/mainnet/jwt.hex");
    args.datadir = "/data/".to_string();
    assert_eq!(args.jwt_secret_path(), "/data/jwt.hex");
    assert_eq!(args.datadir_path(), "/data/");
}

#[test]
fn a_given_jwt_secret_is_expanded_at_the_home_directory() {
    let home = Some("/home/u".to_string());
    let mut args = sample_args();
    args.jwt_secret = Some("~/k/jwt.hex".to_string());
    assert_eq!(args.jwt_secret_at(&home), "/home/u/k/jwt.hex");
    assert_eq!(args.jwt_secret_at(&None), "~/k/jwt.hex");
    args.jwt_secret = Some("/secrets/jwt.hex".to_string());
    assert_eq!(args.jwt_secret_at(&home), "/secrets/jwt.hex");
    args.jwt_secret = None;
    assert_eq!(args.jwt_secret_at(&home), "/data/mainnet/jwt.hex");
}

#[test]
fn a_given_jwt_secret_wins_over_chain_and_data_directory() {
    let home = Some("/home/u".to_string());
    let mut one = sample_args();
    let mut other = Args::new("x".to_string(), "y".to_string(), "/elsewhere".to_string());
    other.chain = Chain::from_id(8453);
    for given in ["~/jwt.hex", "/secrets/jwt.hex", "jwt.hex"] {
        one.jwt_secret = Some(given.to_string());
        other.jwt_secret = Some(given.to_string());
        assert_eq!(one.jwt_secret_at(&home), other.jwt_secret_at(&home));
    }
}

#[test]
fn the_output_directory_is_expanded_at_the_home_directory() {
    let home = Some("/home/u".to_string());
    let mut args = sample_args();
    for (given, expanded) in [
        ("~", "/home/u"),
        ("~/", "/home/u/"),
        ("~/bench", "/home/u/bench"),
        ("~user/bench", "~user/bench"),
        ("/a/~/b", "/a/~/b"),
        ("a/~", "a/~"),
        ("", ""),
        ("./reth-bench-compare", "./reth-bench-compare"),
        ("~\\bench", "~\\bench"),
    ] {
        args.output_dir = given.to_string();
        assert_eq!(args.output_dir_at(&home), expanded);
        assert_eq!(args.output_dir_at(&None), given);
    }
}

#[test]
fn expansion_agrees_with_the_shell() {
    let home = Some("/home/u".to_string());
    for text in ["~", "~/a/b", "~//", "~a", "~~", "~/~", "\u{1f980}", "~\u{1f980}", ""] {
        let expected = shellexpand::tilde_with_context(text, || home.as_deref());
        assert_eq!(expand_tilde(text, &home), expected);
    }
}

#[test]
fn the_home_directory_comes_from_the_environment() {
    let home = home_dir();
    assert!(home.is_some());
    assert_eq!(home.as_deref(), Some(&*shellexpand::tilde("~")));
    assert_eq!(drawn_home(|| home.clone()), home);
    assert_eq!(drawn_text(|text: &str| format!("{}!", text), "~"), "~!");

    let mut args = sample_args();
    args.output_dir = "~/bench".to_string();
    args.jwt_secret = Some("~/jwt.hex".to_string());
    assert_eq!(args.output_dir_path(), shellexpand::tilde("~/bench"));
    assert_eq!(args.output_dir_path(), args.output_dir_at(&home));
    assert_ne!(args.output_dir_path(), "~/bench");
    assert_eq!(args.jwt_secret_path(), shellexpand::tilde("~/jwt.hex"));
    assert_eq!(args.jwt_secret_path(), args.jwt_secret_at(&home));
}

#[test]
fn a_tilde_that_stays_means_no_home_directory() {
    assert_eq!(home_from_tilde("~".to_string()), None);
    assert_eq!(home_from_tilde("/home/u".to_string()), Some("/home/u".to_string()));
}

#[test]
fn warmup_blocks_default_to_blocks() {
    let mut args = sample_args();
    args.blocks = 7;
    assert_eq!(args.get_warmup_blocks(), 7);
    args.warmup_blocks = Some(0);
    assert_eq!(args.get_warmup_blocks(), 0);
    args.warmup_blocks = Some(12);
    assert_eq!(args.get_warmup_blocks(), 12);
}

#[test]
fn each_side_has_its_reference_and_arguments() {
    let mut args = sample_args();
    assert_eq!(args.git_ref(RefType::Baseline), "main");
    assert_eq!(args.git_ref(RefType::Feature), "feature");
    assert_eq!(args.additional_args(RefType::Baseline), Vec::<String>::new());
    args.baseline_args = Some("--debug.tip 0xabc".to_string());
    args.feature_args = Some("--debug.tip 'a b'".to_string());
    assert_eq!(args.additional_args(RefType::Baseline), vec!["--debug.tip", "0xabc"]);
    assert_eq!(args.additional_args(RefType::Feature), vec!["--debug.tip", "a b"]);
}

#[test]
fn arguments_are_split_as_a_shell_would() {
    assert_eq!(parse_args_string("--debug.tip 0xabc"), vec!["--debug.tip", "0xabc"]);
    assert_eq!(parse_args_string("--a 'b c' \"d e\" f\\ g"), vec!["--a", "b c", "d e", "f g"]);
    assert_eq!(parse_args_string("''"), vec![""]);
    assert_eq!(parse_args_string("  "), Vec::<String>::new());
    assert_eq!(parse_args_string("a #comment"), vec!["a"]);
}

#[test]
fn arguments_that_a_shell_rejects_are_split_at_whitespace() {
    assert_eq!(parse_args_string("it's  a test"), vec!["it's", "a", "test"]);
    assert_eq!(parse_args_string("--x \"unclosed y\\"), vec!["--x", "\"unclosed", "y\\"]);
}

#[test]
fn the_fallback_is_used_only_where_the_shell_split_failed() {
    let shell = Some(vec!["one word".to_string()]);
    assert_eq!(words_or_fallback(shell, "two words"), vec!["one word"]);
    assert_eq!(words_or_fallback(None, "two words"), vec!["two", "words"]);
}

#[test]
fn no_argument_string_means_no_arguments() {
    assert_eq!(parse_optional_args(&None), Vec::<String>::new());
    assert_eq!(parse_optional_args(&Some("a b".to_string())), vec!["a", "b"]);
}
