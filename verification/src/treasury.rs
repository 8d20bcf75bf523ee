//! The treasury program: custodies the pooled stake and the protocol's
//! voting-token inventory, and moves funds only at its authority's request.
//!
//! The actual lamport movement is the ledger runtime's work; `deposit` and
//! `reimburse` validate the request and report the transfer to perform.

use vstd::prelude::*;

verus! {

/// The treasury account: records who may transact on it.
#[derive(Clone, Copy, Debug, PartialEq, Eq, Structural)]
pub struct Treasury {
    /// Payer of the initialisation and of transactions.
    pub authority: u64,
}

/// Treasury initialisation failures.
#[derive(Clone, Copy, Debug, PartialEq, Eq, Structural)]
pub enum InitError {
    /// The supplied token mint is not the expected one.
    WrongTokenMint,
}

/// Treasury transaction failures.
#[derive(Clone, Copy, Debug, PartialEq, Eq, Structural)]
pub enum TransactionError {
    /// The signer provided is not the authority of the treasury.
    SignerNotAuthority,
    /// The token account supplied is not that of the treasury.
    WrongATA,
}

/// A movement of lamports for the ledger runtime to perform.
#[derive(Clone, Copy, Debug, PartialEq, Eq, Structural)]
pub struct SolTransfer {
    pub from: u64,
    pub to: u64,
    pub amount: u64,
}

/// State read by the treasury initialisation call.
pub struct Initialise {
    /// Who signs, and becomes the treasury authority.
    pub signer: u64,
    /// The mint account supplied by the caller.
    pub mint: u64,
    /// The voting-token mint the runtime derives for this deployment.
    pub expected_mint: u64,
    /// The treasury account being initialised.
    pub treasury: Treasury,
}

impl Initialise {
    /// Sets the signer as the treasury authority, provided the supplied
    /// mint is the expected voting-token mint.
    pub fn initialise(&mut self) -> (r: Result<(), InitError>)
        ensures
            r == if old(self).mint == old(self).expected_mint {
                Ok::<(), InitError>(())
            } else {
                Err::<(), InitError>(InitError::WrongTokenMint)
            },
            r is Ok ==> *final(self) == (Initialise {
                treasury: Treasury { authority: old(self).signer },
                ..*old(self)
            }),
            r is Err ==> *final(self) == *old(self),
    {
        if self.mint != self.expected_mint {
            return Err(InitError::WrongTokenMint);
        }
        self.treasury = Treasury { authority: self.signer };
        Ok(())
    }
}

/// State read by one treasury transaction.
pub struct Transact {
    /// Who signs the transaction.
    pub signer: u64,
    /// The other party to the transfer.
    pub coparty: u64,
    /// The treasury account, with its ledger address.
    pub treasury: Treasury,
    pub treasury_address: u64,
    /// The voting-token account supplied by the caller, and the one the
    /// runtime derives for the signer.
    pub voting_token_account: u64,
    pub signer_ata: u64,
    /// Balances read from the ledger.
    pub sol_balance: u64,
    pub voting_token_balance: u64,
}

impl Transact {
    /// Whether a transaction's identities check out: the signer is the
    /// treasury authority and supplied the authority's own token account.
    pub open spec fn transact_guard(s: Transact) -> Option<TransactionError> {
        if s.signer != s.treasury.authority {
            Some(TransactionError::SignerNotAuthority)
        } else if s.voting_token_account != s.signer_ata {
            Some(TransactionError::WrongATA)
        } else {
            None
        }
    }

    /// A deposit of `amount` lamports from the coparty into the treasury.
    pub fn deposit(&mut self, amount: u64) -> (r: Result<SolTransfer, TransactionError>)
        ensures
            *final(self) == *old(self),
            r == match Self::transact_guard(*old(self)) {
                Some(e) => Err::<SolTransfer, TransactionError>(e),
                None => Ok::<SolTransfer, TransactionError>(SolTransfer {
                    from: old(self).coparty,
                    to: old(self).treasury_address,
                    amount,
                }),
            },
    {
        if self.signer != self.treasury.authority {
            return Err(TransactionError::SignerNotAuthority);
        }
        if self.voting_token_account != self.signer_ata {
            return Err(TransactionError::WrongATA);
        }
        Ok(SolTransfer { from: self.coparty, to: self.treasury_address, amount })
    }

    /// A withdrawal of `amount` lamports from the treasury to the coparty.
    pub fn reimburse(&mut self, amount: u64) -> (r: Result<SolTransfer, TransactionError>)
        ensures
            *final(self) == *old(self),
            r == match Self::transact_guard(*old(self)) {
                Some(e) => Err::<SolTransfer, TransactionError>(e),
                None => Ok::<SolTransfer, TransactionError>(SolTransfer {
                    from: old(self).treasury_address,
                    to: old(self).coparty,
                    amount,
                }),
            },
    {
        if self.signer != self.treasury.authority {
            return Err(TransactionError::SignerNotAuthority);
        }
        if self.voting_token_account != self.signer_ata {
            return Err(TransactionError::WrongATA);
        }
        Ok(SolTransfer { from: self.treasury_address, to: self.coparty, amount })
    }

    /// The treasury's lamport balance, as read from the ledger.
    pub fn get_sol_balance(&self) -> (r: u64)
        ensures
            r == self.sol_balance,
    {
        self.sol_balance
    }

    /// The treasury's voting-token balance, as read from the ledger.
    pub fn get_voting_token_balance(&self) -> (r: u64)
        ensures
            r == self.voting_token_balance,
    {
        self.voting_token_balance
    }
}

} // verus!
