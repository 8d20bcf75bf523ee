//! The treasury and voting-token satellite programs: authority checks on
//! transactions and the fixed metadata of the one-time mint initialisation.

use parimutuel_market::treasury::{
    InitError as TreasuryInitError, Initialise as TreasuryInitialise, SolTransfer, Transact,
    TransactionError, Treasury,
};
use parimutuel_market::voting_tokens::{
    InitError as TokenInitError, InitTokenParams, Initialise as TokenInitialise,
};

const AUTH: u64 = 900;
const TREASURY_ADDRESS: u64 = 901;
const MINT: u64 = 555;

fn transact_ctx() -> Transact {
    Transact {
        signer: AUTH,
        coparty: 42,
        treasury: Treasury { authority: AUTH },
        treasury_address: TREASURY_ADDRESS,
        voting_token_account: 77,
        signer_ata: 77,
        sol_balance: 5_000,
        voting_token_balance: 3_000,
    }
}

#[test]
fn treasury_initialise_sets_authority() {
    let mut ctx = TreasuryInitialise {
        signer: AUTH,
        mint: MINT,
        expected_mint: MINT,
        treasury: Treasury { authority: 0 },
    };
    assert_eq!(ctx.initialise(), Ok(()));
    assert_eq!(ctx.treasury.authority, AUTH);

    let mut ctx = TreasuryInitialise {
        signer: AUTH,
        mint: MINT + 1,
        expected_mint: MINT,
        treasury: Treasury { authority: 0 },
    };
    assert_eq!(ctx.initialise(), Err(TreasuryInitError::WrongTokenMint));
    assert_eq!(ctx.treasury.authority, 0);
}

#[test]
fn treasury_transactions_check_the_signer() {
    let mut ctx = transact_ctx();
    assert_eq!(
        ctx.deposit(250),
        Ok(SolTransfer { from: 42, to: TREASURY_ADDRESS, amount: 250 })
    );
    assert_eq!(
        ctx.reimburse(100),
        Ok(SolTransfer { from: TREASURY_ADDRESS, to: 42, amount: 100 })
    );
    assert_eq!(ctx.get_sol_balance(), 5_000);
    assert_eq!(ctx.get_voting_token_balance(), 3_000);

    let mut ctx = transact_ctx();
    ctx.signer = AUTH + 1;
    ctx.signer_ata = 78;
    assert_eq!(ctx.deposit(250), Err(TransactionError::SignerNotAuthority));
    assert_eq!(ctx.reimburse(250), Err(TransactionError::SignerNotAuthority));

    let mut ctx = transact_ctx();
    ctx.signer_ata = 78;
    assert_eq!(ctx.deposit(250), Err(TransactionError::WrongATA));
    assert_eq!(ctx.reimburse(250), Err(TransactionError::WrongATA));
}

fn good_params() -> InitTokenParams {
    InitTokenParams {
        name: "AuthensusVotingToken".to_owned(),
        symbol: "AUTHVOTE".to_owned(),
        uri: "".to_owned(),
        decimals: 9,
    }
}

#[test]
fn token_init_validates_fixed_metadata() {
    let ctx = TokenInitialise { signer: TREASURY_ADDRESS, treasury_address: TREASURY_ADDRESS };
    assert_eq!(ctx.init(&good_params()), Ok(()));

    let outsider = TokenInitialise { signer: 5, treasury_address: TREASURY_ADDRESS };
    assert_eq!(outsider.init(&good_params()), Err(TokenInitError::WrongSigner));

    let mut p = good_params();
    p.name = "VotingToken".to_owned();
    assert_eq!(ctx.init(&p), Err(TokenInitError::WrongName));

    let mut p = good_params();
    p.symbol = "VOTE".to_owned();
    assert_eq!(ctx.init(&p), Err(TokenInitError::WrongSymbol));

    let mut p = good_params();
    p.uri = "https://example.invalid/meta".to_owned();
    assert_eq!(ctx.init(&p), Err(TokenInitError::WrongUri));

    let mut p = good_params();
    p.decimals = 6;
    assert_eq!(ctx.init(&p), Err(TokenInitError::WrongDecimals));
}
