use reth_bench_compare::chain::{check_rpc_url, judge_rpc_url, validate_rpc_chain_id, Chain};
use reth_bench_compare::error::CliError;

#[test]
fn a_chain_shows_its_name_or_its_id() {
    assert_eq!(Chain::from_id(1).name(), "mainnet");
    assert_eq!(Chain::from_id(8453).name(), "base");
    assert_eq!(Chain::from_id(27082).name(), "27082");
    assert_eq!(Chain::from_id(5).id(), 5);
}

#[test]
fn a_well_formed_url_is_accepted() {
    assert_eq!(check_rpc_url("https://reth-ethereum.ithaca.xyz/rpc"), Ok(()));
    assert_eq!(check_rpc_url("http://127.0.0.1:8545"), Ok(()));
}

#[test]
fn a_malformed_url_is_reported_with_the_reason() {
    let error = check_rpc_url("localhost").unwrap_err();
    assert_eq!(error.message(), "Invalid RPC URL 'localhost': relative URL without a base");
    let error = check_rpc_url("http://host:99999").unwrap_err();
    assert_eq!(error.message(), "Invalid RPC URL 'http://host:99999': invalid port number");
}

#[test]
fn the_verdict_on_a_url_follows_the_parse() {
    assert_eq!(judge_rpc_url("u", Ok(())), Ok(()));
    assert_eq!(
        judge_rpc_url("u", Err("why".to_string())),
        Err(CliError::InvalidRpcUrl { rpc_url: "u".to_string(), reason: "why".to_string() })
    );
}

#[test]
fn a_matching_chain_id_is_accepted() {
    assert_eq!(validate_rpc_chain_id("http://x", &Chain::from_id(1), Ok(1)), Ok(()));
}

#[test]
fn another_chain_id_is_a_mismatch() {
    let error = validate_rpc_chain_id("http://x", &Chain::from_id(1), Ok(8453)).unwrap_err();
    assert_eq!(
        error,
        CliError::ChainIdMismatch {
            expected: Chain::from_id(1),
            found: 8453,
            rpc_url: "http://x".to_string(),
        }
    );
    assert_eq!(
        error.message(),
        "RPC endpoint chain ID mismatch!\n\
        Expected: 1 (chain: mainnet)\n\
        Found: 8453 at RPC endpoint: http://x\n\n\
        Please use an RPC endpoint for the correct network or change the --chain argument."
    );
}

#[test]
fn a_failed_query_is_reported_with_the_reason() {
    let answer = Err("Timeout".to_string());
    let error = validate_rpc_chain_id("http://x", &Chain::from_id(1), answer).unwrap_err();
    assert_eq!(error.message(), "Failed to get chain ID from RPC endpoint http://x: Timeout");
}
