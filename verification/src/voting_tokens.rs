//! The voting-tokens program: issues the governance token in which votes
//! are staked and winnings are minted.
//!
//! The mint itself and its metadata are created by the token runtime; this
//! module validates the one-time initialisation parameters.  Minting has no
//! decision in it and is performed wholly by the runtime.

use vstd::prelude::*;

verus! {

/// Voting-token initialisation failures.
#[derive(Clone, Copy, Debug, PartialEq, Eq, Structural)]
pub enum InitError {
    /// Wrong token name given at initialisation.
    WrongName,
    /// Wrong token symbol given at initialisation.
    WrongSymbol,
    /// Wrong token uri given at initialisation.
    WrongUri,
    /// Wrong number of token decimals given at initialisation.
    WrongDecimals,
    /// Not the expected transaction signer.
    WrongSigner,
}

/// Metadata of the voting-token mint.
pub struct InitTokenParams {
    pub name: String,
    pub symbol: String,
    pub uri: String,
    pub decimals: u8,
}

/// A recipient's token bookkeeping.
#[derive(Clone, Copy, Debug, PartialEq, Eq, Structural)]
pub struct Recipient {
    /// Total number of tokens minted.
    pub total_minted: u64,
    /// Total number of minted tokens in the vault.
    pub total_in_vault: u64,
    /// Total balance of SOL.
    pub balance: u64,
}

/// The token program's view of the treasury's holdings.
#[derive(Clone, Copy, Debug, PartialEq, Eq, Structural)]
pub struct Treasury {
    /// Total number of tokens minted.
    pub total_minted: u64,
    /// Total number of minted tokens in the vault.
    pub total_in_vault: u64,
    /// Total balance of SOL.
    pub balance: u64,
}

/// State read by the one-time token initialisation.
pub struct Initialise {
    /// Who signs the initialisation.
    pub signer: u64,
    /// The treasury address configured for this deployment.
    pub treasury_address: u64,
}

/// The first initialisation parameter that is not the expected one, if any.
/// Only the treasury may initialise the mint, and the metadata is fixed:
/// name `AuthensusVotingToken`, symbol `AUTHVOTE`, an empty uri, and nine
/// decimals.
pub open spec fn init_params_guard(s: Initialise, params: InitTokenParams) -> Option<InitError> {
    if s.signer != s.treasury_address {
        Some(InitError::WrongSigner)
    } else if params.name@ != "AuthensusVotingToken"@ {
        Some(InitError::WrongName)
    } else if params.symbol@ != "AUTHVOTE"@ {
        Some(InitError::WrongSymbol)
    } else if params.uri@ != ""@ {
        Some(InitError::WrongUri)
    } else if params.decimals != 9 {
        Some(InitError::WrongDecimals)
    } else {
        None
    }
}

impl Initialise {
    /// Validates the one-time initialisation of the voting-token mint; on
    /// success the runtime creates the mint and its metadata from `params`.
    pub fn init(&self, params: &InitTokenParams) -> (r: Result<(), InitError>)
        ensures
            r == match init_params_guard(*self, *params) {
                Some(e) => Err::<(), InitError>(e),
                None => Ok::<(), InitError>(()),
            },
    {
        if self.signer != self.treasury_address {
            return Err(InitError::WrongSigner);
        }
        let expected_name: String = "AuthensusVotingToken".to_owned();
        if !(params.name == expected_name) {
            return Err(InitError::WrongName);
        }
        let expected_symbol: String = "AUTHVOTE".to_owned();
        if !(params.symbol == expected_symbol) {
            return Err(InitError::WrongSymbol);
        }
        let expected_uri: String = "".to_owned();
        if !(params.uri == expected_uri) {
            return Err(InitError::WrongUri);
        }
        if params.decimals != 9 {
            return Err(InitError::WrongDecimals);
        }
        Ok(())
    }
}

} // verus!
