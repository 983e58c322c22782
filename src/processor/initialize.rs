use vstd::prelude::*;

use crate::address::{
    booth_seeds,
    derive_booth_address,
    derive_oracle_address,
    derive_vault_address,
    oracle_seeds,
    program_address,
    vault_seeds,
    Address,
};
use crate::convert::{fee_below_max, pow10};
use crate::error::{ExchangeBoothError, ProcessError};
use crate::processor::{
    outcome_view,
    plan_view,
    vault_signer,
    AccountRef,
    KnownPrograms,
    Op,
    OpModel,
    SignerSeeds,
};
use crate::state::{ExchangeBoothAccount, OracleAccount};

verus! {

/// The number of accounts Initialize reads: admin, booth, system program,
/// mint A, mint B, vault A, vault B, oracle, token program, rent sysvar.
pub const INITIALIZE_ACCOUNTS: usize = 10;

/// The size of a token account.
pub const TOKEN_ACCOUNT_LEN: u64 = 165;

/// The size of a booth or oracle record.
pub const RECORD_SPACE: u64 = 9;

/// The outcome of Initialize: every account checked against its derived
/// address and the fee bounded below 100%, then both vaults created as token
/// accounts of their mints owned by themselves, the oracle and the booth
/// created, and their records written.
pub open spec fn initialize_outcome(
    program_id: Address,
    programs: KnownPrograms,
    accounts: Seq<AccountRef>,
    exchange_rate: u64,
    rate_decimals: u8,
    fee: u64,
    fee_decimals: u8,
) -> Result<Seq<OpModel>, ProcessError> {
    if accounts.len() < INITIALIZE_ACCOUNTS {
        Err(ProcessError::NotEnoughAccountKeys)
    } else {
        let admin = accounts[0];
        let booth = accounts[1];
        let system_program = accounts[2];
        let mint_a = accounts[3];
        let mint_b = accounts[4];
        let vault_a = accounts[5];
        let vault_b = accounts[6];
        let oracle = accounts[7];
        let token_program = accounts[8];
        let rent = accounts[9];
        let oracle_key = program_address(
            oracle_seeds(admin.key@, mint_a.key@, mint_b.key@),
            program_id@,
        );
        let booth_key = program_address(booth_seeds(oracle.key@), program_id@);
        let vault_a_key = program_address(vault_seeds(booth.key@, mint_a.key@), program_id@);
        let vault_b_key = program_address(vault_seeds(booth.key@, mint_b.key@), program_id@);
        if oracle_key is None || booth_key is None || vault_a_key is None || vault_b_key is None {
            Err(ProcessError::Booth(ExchangeBoothError::InvalidAccountAddress))
        } else if !admin.is_signer {
            Err(ProcessError::Booth(ExchangeBoothError::MissingRequiredSignature))
        } else if vault_a_key->Some_0.0 != vault_a.key@ || vault_b_key->Some_0.0 != vault_b.key@
            || oracle_key->Some_0.0 != oracle.key@ || booth_key->Some_0.0 != booth.key@
            || system_program.key@ != programs.system_program@ || token_program.key@
            != programs.token_program@ || rent.key@ != programs.rent_sysvar@ {
            Err(ProcessError::Booth(ExchangeBoothError::InvalidAccountAddress))
        } else if fee >= pow10(fee_decimals as nat) {
            Err(ProcessError::Booth(ExchangeBoothError::FeeOverMaxError))
        } else {
            let signer_a = vault_signer(booth.key@, mint_a.key@, vault_a_key->Some_0.1);
            let signer_b = vault_signer(booth.key@, mint_b.key@, vault_b_key->Some_0.1);
            Ok(
                seq![
                    OpModel::CreateAccount {
                        payer: admin.key@,
                        account: vault_a.key@,
                        space: TOKEN_ACCOUNT_LEN,
                        owner: token_program.key@,
                        signer: signer_a,
                    },
                    OpModel::InitializeTokenAccount {
                        account: vault_a.key@,
                        mint: mint_a.key@,
                        owner: vault_a.key@,
                        signer: signer_a,
                    },
                    OpModel::CreateAccount {
                        payer: admin.key@,
                        account: vault_b.key@,
                        space: TOKEN_ACCOUNT_LEN,
                        owner: token_program.key@,
                        signer: signer_b,
                    },
                    OpModel::InitializeTokenAccount {
                        account: vault_b.key@,
                        mint: mint_b.key@,
                        owner: vault_b.key@,
                        signer: signer_b,
                    },
                    OpModel::CreateAccount {
                        payer: admin.key@,
                        account: oracle.key@,
                        space: RECORD_SPACE,
                        owner: program_id@,
                        signer: seq![
                            admin.key@,
                            mint_a.key@,
                            mint_b.key@,
                            seq![oracle_key->Some_0.1],
                        ],
                    },
                    OpModel::CreateAccount {
                        payer: admin.key@,
                        account: booth.key@,
                        space: RECORD_SPACE,
                        owner: program_id@,
                        signer: seq![oracle.key@, seq![booth_key->Some_0.1]],
                    },
                    OpModel::WriteBooth {
                        account: booth.key@,
                        record: ExchangeBoothAccount { fee, decimals: fee_decimals },
                    },
                    OpModel::WriteOracle {
                        account: oracle.key@,
                        record: OracleAccount { exchange_rate, decimals: rate_decimals },
                    },
                ],
            )
        }
    }
}

/// Plans Initialize: validates the accounts and the fee, and returns the
/// operations that create both vaults, the oracle and the booth.
pub fn process(
    program_id: &Address,
    programs: &KnownPrograms,
    accounts: &[AccountRef],
    exchange_rate: u64,
    rate_decimals: u8,
    fee: u64,
    fee_decimals: u8,
) -> (r: Result<Vec<Op>, ProcessError>)
    ensures
        outcome_view(r) == initialize_outcome(
            *program_id,
            *programs,
            accounts@,
            exchange_rate,
            rate_decimals,
            fee,
            fee_decimals,
        ),
{
    if accounts.len() < INITIALIZE_ACCOUNTS {
        return Err(ProcessError::NotEnoughAccountKeys);
    }
    let admin = &accounts[0];
    let booth = &accounts[1];
    let system_program = &accounts[2];
    let mint_a = &accounts[3];
    let mint_b = &accounts[4];
    let vault_a = &accounts[5];
    let vault_b = &accounts[6];
    let oracle = &accounts[7];
    let token_program = &accounts[8];
    let rent = &accounts[9];

    let invalid = ProcessError::Booth(ExchangeBoothError::InvalidAccountAddress);
    let (oracle_key, oracle_bump) = match derive_oracle_address(
        &admin.key,
        &mint_a.key,
        &mint_b.key,
        program_id,
    ) {
        Some(p) => p,
        None => return Err(invalid),
    };
    let (booth_key, booth_bump) = match derive_booth_address(&oracle.key, program_id) {
        Some(p) => p,
        None => return Err(invalid),
    };
    let (vault_a_key, vault_a_bump) = match derive_vault_address(&booth.key, &mint_a.key, program_id) {
        Some(p) => p,
        None => return Err(invalid),
    };
    let (vault_b_key, vault_b_bump) = match derive_vault_address(&booth.key, &mint_b.key, program_id) {
        Some(p) => p,
        None => return Err(invalid),
    };

    if !admin.is_signer {
        return Err(ProcessError::Booth(ExchangeBoothError::MissingRequiredSignature));
    }
    if !(vault_a_key == vault_a.key) || !(vault_b_key == vault_b.key) || !(oracle_key == oracle.key)
        || !(booth_key == booth.key) || !(programs.system_program == system_program.key)
        || !(programs.token_program == token_program.key) || !(programs.rent_sysvar == rent.key) {
        return Err(invalid);
    }
    if !fee_below_max(fee, fee_decimals) {
        return Err(ProcessError::Booth(ExchangeBoothError::FeeOverMaxError));
    }

    let signer_a = SignerSeeds::Vault { booth: booth.key, mint: mint_a.key, bump: vault_a_bump };
    let signer_b = SignerSeeds::Vault { booth: booth.key, mint: mint_b.key, bump: vault_b_bump };
    let mut plan: Vec<Op> = Vec::new();
    plan.push(
        Op::CreateAccount {
            payer: admin.key,
            account: vault_a.key,
            space: TOKEN_ACCOUNT_LEN,
            owner: token_program.key,
            signer: signer_a,
        },
    );
    plan.push(
        Op::InitializeTokenAccount {
            account: vault_a.key,
            mint: mint_a.key,
            owner: vault_a.key,
            signer: signer_a,
        },
    );
    plan.push(
        Op::CreateAccount {
            payer: admin.key,
            account: vault_b.key,
            space: TOKEN_ACCOUNT_LEN,
            owner: token_program.key,
            signer: signer_b,
        },
    );
    plan.push(
        Op::InitializeTokenAccount {
            account: vault_b.key,
            mint: mint_b.key,
            owner: vault_b.key,
            signer: signer_b,
        },
    );
    plan.push(
        Op::CreateAccount {
            payer: admin.key,
            account: oracle.key,
            space: RECORD_SPACE,
            owner: *program_id,
            signer: SignerSeeds::Oracle {
                admin: admin.key,
                mint_a: mint_a.key,
                mint_b: mint_b.key,
                bump: oracle_bump,
            },
        },
    );
    plan.push(
        Op::CreateAccount {
            payer: admin.key,
            account: booth.key,
            space: RECORD_SPACE,
            owner: *program_id,
            signer: SignerSeeds::Booth { oracle: oracle.key, bump: booth_bump },
        },
    );
    plan.push(
        Op::WriteBooth {
            account: booth.key,
            record: ExchangeBoothAccount { fee, decimals: fee_decimals },
        },
    );
    plan.push(
        Op::WriteOracle {
            account: oracle.key,
            record: OracleAccount { exchange_rate, decimals: rate_decimals },
        },
    );
    proof {
        let expected = initialize_outcome(
            *program_id,
            *programs,
            accounts@,
            exchange_rate,
            rate_decimals,
            fee,
            fee_decimals,
        );
        assert(expected is Ok);
        assert(plan_view(plan@) =~= expected->Ok_0);
    }
    Ok(plan)
}

} // verus!
