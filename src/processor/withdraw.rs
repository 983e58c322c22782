use vstd::prelude::*;

use crate::address::{
    booth_seeds,
    derive_booth_address,
    derive_oracle_address,
    derive_vault_address,
    oracle_seeds,
    program_address,
    vault_seeds,
    Address,
};
use crate::error::{ExchangeBoothError, ProcessError};
use crate::processor::{
    outcome_view,
    plan_view,
    vault_signer,
    AccountRef,
    KnownPrograms,
    Op,
    OpModel,
    SignerSeeds,
};
use crate::token::{token_account_model, unpack_token_account};

verus! {

/// The number of accounts Withdraw reads: admin, vault A, vault B, receiver
/// A, receiver B, token program.
pub const WITHDRAW_ACCOUNTS: usize = 6;

/// The outcome of Withdraw: the vaults' addresses derived from the admin and
/// the vaults' own mints, each receiver holding its vault's asset, then each
/// vault's whole balance moved to its receiver on the vault's own authority.
pub open spec fn withdraw_outcome(
    program_id: Address,
    programs: KnownPrograms,
    accounts: Seq<AccountRef>,
) -> Result<Seq<OpModel>, ProcessError> {
    if accounts.len() < WITHDRAW_ACCOUNTS {
        Err(ProcessError::NotEnoughAccountKeys)
    } else {
        let admin = accounts[0];
        let vault_a = accounts[1];
        let vault_b = accounts[2];
        let receiver_a = accounts[3];
        let receiver_b = accounts[4];
        let token_program = accounts[5];
        match token_account_model(vault_a.data@) {
            Err(e) => Err(e),
            Ok(content_a) => match token_account_model(vault_b.data@) {
                Err(e) => Err(e),
                Ok(content_b) => match token_account_model(receiver_a.data@) {
                    Err(e) => Err(e),
                    Ok(receiver_content_a) => match token_account_model(receiver_b.data@) {
                        Err(e) => Err(e),
                        Ok(receiver_content_b) => {
                            let oracle_key = program_address(
                                oracle_seeds(admin.key@, content_a.0, content_b.0),
                                program_id@,
                            );
                            if oracle_key is None {
                                Err(ProcessError::Booth(ExchangeBoothError::InvalidAccountAddress))
                            } else {
                                let booth_key = program_address(
                                    booth_seeds(oracle_key->Some_0.0),
                                    program_id@,
                                );
                                if booth_key is None {
                                    Err(
                                        ProcessError::Booth(
                                            ExchangeBoothError::InvalidAccountAddress,
                                        ),
                                    )
                                } else {
                                    let eb = booth_key->Some_0.0;
                                    let vault_a_key = program_address(
                                        vault_seeds(eb, content_a.0),
                                        program_id@,
                                    );
                                    let vault_b_key = program_address(
                                        vault_seeds(eb, content_b.0),
                                        program_id@,
                                    );
                                    if vault_a_key is None || vault_b_key is None {
                                        Err(
                                            ProcessError::Booth(
                                                ExchangeBoothError::InvalidAccountAddress,
                                            ),
                                        )
                                    } else if !admin.is_signer {
                                        Err(
                                            ProcessError::Booth(
                                                ExchangeBoothError::MissingRequiredSignature,
                                            ),
                                        )
                                    } else if vault_a_key->Some_0.0 != vault_a.key@
                                        || vault_b_key->Some_0.0 != vault_b.key@
                                        || token_program.key@ != programs.token_program@
                                        || content_a.0 != receiver_content_a.0 || content_b.0
                                        != receiver_content_b.0 {
                                        Err(
                                            ProcessError::Booth(
                                                ExchangeBoothError::InvalidAccountAddress,
                                            ),
                                        )
                                    } else {
                                        Ok(
                                            seq![
                                                OpModel::Transfer {
                                                    source: vault_a.key@,
                                                    destination: receiver_a.key@,
                                                    authority: vault_a.key@,
                                                    amount: content_a.1,
                                                    signer: Some(
                                                        vault_signer(
                                                            eb,
                                                            content_a.0,
                                                            vault_a_key->Some_0.1,
                                                        ),
                                                    ),
                                                },
                                                OpModel::Transfer {
                                                    source: vault_b.key@,
                                                    destination: receiver_b.key@,
                                                    authority: vault_b.key@,
                                                    amount: content_b.1,
                                                    signer: Some(
                                                        vault_signer(
                                                            eb,
                                                            content_b.0,
                                                            vault_b_key->Some_0.1,
                                                        ),
                                                    ),
                                                },
                                            ],
                                        )
                                    }
                                }
                            }
                        },
                    },
                },
            },
        }
    }
}

/// Plans Withdraw: validates the vaults and the receivers' assets, and
/// returns the two transfers that empty the vaults.
pub fn process(
    program_id: &Address,
    programs: &KnownPrograms,
    accounts: &[AccountRef],
) -> (r: Result<Vec<Op>, ProcessError>)
    ensures
        outcome_view(r) == withdraw_outcome(*program_id, *programs, accounts@),
{
    if accounts.len() < WITHDRAW_ACCOUNTS {
        return Err(ProcessError::NotEnoughAccountKeys);
    }
    let admin = &accounts[0];
    let vault_a = &accounts[1];
    let vault_b = &accounts[2];
    let receiver_a = &accounts[3];
    let receiver_b = &accounts[4];
    let token_program = &accounts[5];

    let content_a = match unpack_token_account(vault_a.data.as_slice()) {
        Ok(c) => c,
        Err(e) => return Err(e),
    };
    let content_b = match unpack_token_account(vault_b.data.as_slice()) {
        Ok(c) => c,
        Err(e) => return Err(e),
    };
    let receiver_content_a = match unpack_token_account(receiver_a.data.as_slice()) {
        Ok(c) => c,
        Err(e) => return Err(e),
    };
    let receiver_content_b = match unpack_token_account(receiver_b.data.as_slice()) {
        Ok(c) => c,
        Err(e) => return Err(e),
    };

    let invalid = ProcessError::Booth(ExchangeBoothError::InvalidAccountAddress);
    let (oracle_key, _) = match derive_oracle_address(
        &admin.key,
        &content_a.mint,
        &content_b.mint,
        program_id,
    ) {
        Some(p) => p,
        None => return Err(invalid),
    };
    let (booth_key, _) = match derive_booth_address(&oracle_key, program_id) {
        Some(p) => p,
        None => return Err(invalid),
    };
    let (vault_a_key, vault_a_bump) = match derive_vault_address(&booth_key, &content_a.mint, program_id) {
        Some(p) => p,
        None => return Err(invalid),
    };
    let (vault_b_key, vault_b_bump) = match derive_vault_address(&booth_key, &content_b.mint, program_id) {
        Some(p) => p,
        None => return Err(invalid),
    };

    if !admin.is_signer {
        return Err(ProcessError::Booth(ExchangeBoothError::MissingRequiredSignature));
    }
    if !(vault_a_key == vault_a.key) || !(vault_b_key == vault_b.key)
        || !(programs.token_program == token_program.key)
        || !(content_a.mint == receiver_content_a.mint) || !(content_b.mint
        == receiver_content_b.mint) {
        return Err(invalid);
    }

    let mut plan: Vec<Op> = Vec::new();
    plan.push(
        Op::Transfer {
            source: vault_a.key,
            destination: receiver_a.key,
            authority: vault_a.key,
            amount: content_a.amount,
            signer: Some(
                SignerSeeds::Vault { booth: booth_key, mint: content_a.mint, bump: vault_a_bump },
            ),
        },
    );
    plan.push(
        Op::Transfer {
            source: vault_b.key,
            destination: receiver_b.key,
            authority: vault_b.key,
            amount: content_b.amount,
            signer: Some(
                SignerSeeds::Vault { booth: booth_key, mint: content_b.mint, bump: vault_b_bump },
            ),
        },
    );
    proof {
        let expected = withdraw_outcome(*program_id, *programs, accounts@);
        assert(expected is Ok);
        assert(plan_view(plan@) =~= expected->Ok_0);
    }
    Ok(plan)
}

} // verus!
