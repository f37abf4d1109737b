//! Chains, and the check that an RPC endpoint serves the chain that was asked for.

use vstd::prelude::*;
use crate::error::CliError;
use crate::outside::{display_chain, parse_url};

verus! {

/// A chain, told apart by its EIP-155 ID.
#[derive(Debug, Clone, Copy, PartialEq, Eq, Structural)]
pub struct Chain {
    /// The EIP-155 chain ID.
    pub id: u64,
}

impl Chain {
    /// Returns the chain with the given ID.
    pub fn from_id(id: u64) -> (res: Chain)
        ensures
            res.id == id,
    {
        Chain { id }
    }

    /// Returns the chain ID.
    pub fn id(&self) -> (res: u64)
        ensures
            res == self.id,
    {
        self.id
    }

    /// Returns the name of the chain, or its ID if it has no name.
    pub fn name(&self) -> (res: String)
        ensures
            res@ == crate::outside::chain_display(self.id),
    {
        display_chain(self.id)
    }
}

/// The public endpoint for a chain; the one of mainnet where there is none of its own.
pub open spec fn default_rpc_url(id: u64) -> Seq<char> {
    if id == 8453 {
        "https://base-mainnet.rpc.ithaca.xyz"@
    } else if id == 84532 {
        "https://base-sepolia.rpc.ithaca.xyz"@
    } else if id == 27082 {
        "https://rpc.hoodi.ethpandaops.io"@
    } else {
        "https://reth-ethereum.ithaca.xyz/rpc"@
    }
}

/// The verdict on an RPC URL, given why it does not parse.
pub open spec fn rpc_url_verdict(rpc_url: Seq<char>, error: Option<Seq<char>>) -> Result<
    (),
    crate::error::CliErrorView,
> {
    match error {
        None => Ok(()),
        Some(reason) => Err(crate::error::Problem::InvalidRpcUrl { rpc_url, reason }),
    }
}

/// The verdict on an RPC endpoint, given its answer to the chain ID query.
pub open spec fn chain_id_verdict(
    rpc_url: Seq<char>,
    expected: Chain,
    answer: Result<u64, Seq<char>>,
) -> Result<(), crate::error::CliErrorView> {
    match answer {
        Err(reason) => Err(crate::error::Problem::ChainIdUnavailable { rpc_url, reason }),
        Ok(found) => if found == expected.id {
            Ok(())
        } else {
            Err(crate::error::Problem::ChainIdMismatch { expected, found, rpc_url })
        },
    }
}

/// The mathematical form of a check's outcome.
pub open spec fn verdict_view(res: Result<(), CliError>) -> Result<
    (),
    crate::error::CliErrorView,
> {
    match res {
        Ok(_) => Ok(()),
        Err(e) => Err(e@),
    }
}

/// The mathematical form of an answer to the chain ID query.
pub open spec fn answer_view(answer: Result<u64, String>) -> Result<u64, Seq<char>> {
    match answer {
        Ok(found) => Ok(found),
        Err(reason) => Err(reason@),
    }
}

/// Accepts an RPC URL that parsed and reports one that did not.
pub fn judge_rpc_url(rpc_url: &str, parsed: Result<(), String>) -> (res: Result<(), CliError>)
    ensures
        verdict_view(res) == rpc_url_verdict(
            rpc_url@,
            match parsed {
                Ok(_) => None,
                Err(reason) => Some(reason@),
            },
        ),
{
    match parsed {
        Ok(_) => Ok(()),
        Err(reason) => Err(CliError::InvalidRpcUrl { rpc_url: rpc_url.to_owned(), reason }),
    }
}

/// Checks that an RPC URL parses.
pub fn check_rpc_url(rpc_url: &str) -> (res: Result<(), CliError>)
    ensures
        verdict_view(res) == rpc_url_verdict(rpc_url@, crate::outside::url_error(rpc_url@)),
{
    judge_rpc_url(rpc_url, parse_url(rpc_url))
}

/// Checks that the chain ID of the RPC endpoint is the one of the specified chain.
///
/// `answer` is the reply to the endpoint's chain ID query: the ID, or what the query failed with.
pub fn validate_rpc_chain_id(
    rpc_url: &str,
    expected_chain: &Chain,
    answer: Result<u64, String>,
) -> (res: Result<(), CliError>)
    ensures
        verdict_view(res) == chain_id_verdict(rpc_url@, *expected_chain, answer_view(answer)),
{
    match answer {
        Err(reason) => Err(CliError::ChainIdUnavailable { rpc_url: rpc_url.to_owned(), reason }),
        Ok(found) => {
            if found != expected_chain.id() {
                Err(
                    CliError::ChainIdMismatch {
                        expected: *expected_chain,
                        found,
                        rpc_url: rpc_url.to_owned(),
                    },
                )
            } else {
                Ok(())
            }
        },
    }
}

} // verus!
