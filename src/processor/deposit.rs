use vstd::prelude::*;

use crate::address::{
    booth_seeds,
    derive_booth_address,
    derive_oracle_address,
    derive_vault_address,
    oracle_seeds,
    program_address,
    vault_seeds,
    Address,
};
use crate::error::{ExchangeBoothError, ProcessError};
use crate::processor::{outcome_view, plan_view, AccountRef, KnownPrograms, Op, OpModel};
use crate::token::{token_account_model, unpack_token_account};

verus! {

/// The number of accounts Deposit reads: admin, vault A, vault B, token
/// program, source A, source B.
pub const DEPOSIT_ACCOUNTS: usize = 6;

/// The outcome of Deposit: the vaults' addresses derived from the admin and
/// the vaults' own mints, each source holding its vault's asset, then both
/// amounts moved from the sources into the vaults on the admin's signature.
pub open spec fn deposit_outcome(
    program_id: Address,
    programs: KnownPrograms,
    accounts: Seq<AccountRef>,
    amount_a: u64,
    amount_b: u64,
) -> Result<Seq<OpModel>, ProcessError> {
    if accounts.len() < DEPOSIT_ACCOUNTS {
        Err(ProcessError::NotEnoughAccountKeys)
    } else {
        let admin = accounts[0];
        let vault_a = accounts[1];
        let vault_b = accounts[2];
        let token_program = accounts[3];
        let source_a = accounts[4];
        let source_b = accounts[5];
        match token_account_model(vault_a.data@) {
            Err(e) => Err(e),
            Ok(content_a) => match token_account_model(vault_b.data@) {
                Err(e) => Err(e),
                Ok(content_b) => match token_account_model(source_a.data@) {
                    Err(e) => Err(e),
                    Ok(source_content_a) => match token_account_model(source_b.data@) {
                        Err(e) => Err(e),
                        Ok(source_content_b) => {
                            let oracle_key = program_address(
                                oracle_seeds(admin.key@, content_a.0, content_b.0),
                                program_id@,
                            );
                            if oracle_key is None {
                                Err(ProcessError::Booth(ExchangeBoothError::InvalidAccountAddress))
                            } else {
                                let booth_key = program_address(
                                    booth_seeds(oracle_key->Some_0.0),
                                    program_id@,
                                );
                                if booth_key is None {
                                    Err(
                                        ProcessError::Booth(
                                            ExchangeBoothError::InvalidAccountAddress,
                                        ),
                                    )
                                } else {
                                    let eb = booth_key->Some_0.0;
                                    let vault_a_key = program_address(
                                        vault_seeds(eb, content_a.0),
                                        program_id@,
                                    );
                                    let vault_b_key = program_address(
                                        vault_seeds(eb, content_b.0),
                                        program_id@,
                                    );
                                    if vault_a_key is None || vault_b_key is None {
                                        Err(
                                            ProcessError::Booth(
                                                ExchangeBoothError::InvalidAccountAddress,
                                            ),
                                        )
                                    } else if !admin.is_signer {
                                        Err(
                                            ProcessError::Booth(
                                                ExchangeBoothError::MissingRequiredSignature,
                                            ),
                                        )
                                    } else if vault_a_key->Some_0.0 != vault_a.key@
                                        || vault_b_key->Some_0.0 != vault_b.key@
                                        || token_program.key@ != programs.token_program@
                                        || content_a.0 != source_content_a.0 || content_b.0
                                        != source_content_b.0 {
                                        Err(
                                            ProcessError::Booth(
                                                ExchangeBoothError::InvalidAccountAddress,
                                            ),
                                        )
                                    } else {
                                        Ok(
                                            seq![
                                                OpModel::Transfer {
                                                    source: source_a.key@,
                                                    destination: vault_a.key@,
                                                    authority: admin.key@,
                                                    amount: amount_a,
                                                    signer: None,
                                                },
                                                OpModel::Transfer {
                                                    source: source_b.key@,
                                                    destination: vault_b.key@,
                                                    authority: admin.key@,
                                                    amount: amount_b,
                                                    signer: None,
                                                },
                                            ],
                                        )
                                    }
                                }
                            }
                        },
                    },
                },
            },
        }
    }
}

/// Plans Deposit: validates the vaults and the sources' assets, and returns
/// the two transfers into the vaults.
pub fn process(
    program_id: &Address,
    programs: &KnownPrograms,
    accounts: &[AccountRef],
    amount_a: u64,
    amount_b: u64,
) -> (r: Result<Vec<Op>, ProcessError>)
    ensures
        outcome_view(r) == deposit_outcome(*program_id, *programs, accounts@, amount_a, amount_b),
{
    if accounts.len() < DEPOSIT_ACCOUNTS {
        return Err(ProcessError::NotEnoughAccountKeys);
    }
    let admin = &accounts[0];
    let vault_a = &accounts[1];
    let vault_b = &accounts[2];
    let token_program = &accounts[3];
    let source_a = &accounts[4];
    let source_b = &accounts[5];

    let content_a = match unpack_token_account(vault_a.data.as_slice()) {
        Ok(c) => c,
        Err(e) => return Err(e),
    };
    let content_b = match unpack_token_account(vault_b.data.as_slice()) {
        Ok(c) => c,
        Err(e) => return Err(e),
    };
    let source_content_a = match unpack_token_account(source_a.data.as_slice()) {
        Ok(c) => c,
        Err(e) => return Err(e),
    };
    let source_content_b = match unpack_token_account(source_b.data.as_slice()) {
        Ok(c) => c,
        Err(e) => return Err(e),
    };

    let invalid = ProcessError::Booth(ExchangeBoothError::InvalidAccountAddress);
    let (oracle_key, _) = match derive_oracle_address(
        &admin.key,
        &content_a.mint,
        &content_b.mint,
        program_id,
    ) {
        Some(p) => p,
        None => return Err(invalid),
    };
    let (booth_key, _) = match derive_booth_address(&oracle_key, program_id) {
        Some(p) => p,
        None => return Err(invalid),
    };
    let (vault_a_key, _) = match derive_vault_address(&booth_key, &content_a.mint, program_id) {
        Some(p) => p,
        None => return Err(invalid),
    };
    let (vault_b_key, _) = match derive_vault_address(&booth_key, &content_b.mint, program_id) {
        Some(p) => p,
        None => return Err(invalid),
    };

    if !admin.is_signer {
        return Err(ProcessError::Booth(ExchangeBoothError::MissingRequiredSignature));
    }
    if !(vault_a_key == vault_a.key) || !(vault_b_key == vault_b.key)
        || !(programs.token_program == token_program.key)
        || !(content_a.mint == source_content_a.mint) || !(content_b.mint
        == source_content_b.mint) {
        return Err(invalid);
    }

    let mut plan: Vec<Op> = Vec::new();
    plan.push(
        Op::Transfer {
            source: source_a.key,
            destination: vault_a.key,
            authority: admin.key,
            amount: amount_a,
            signer: None,
        },
    );
    plan.push(
        Op::Transfer {
            source: source_b.key,
            destination: vault_b.key,
            authority: admin.key,
            amount: amount_b,
            signer: None,
        },
    );
    proof {
        let expected = deposit_outcome(*program_id, *programs, accounts@, amount_a, amount_b);
        assert(expected is Ok);
        assert(plan_view(plan@) =~= expected->Ok_0);
    }
    Ok(plan)
}

} // verus!
