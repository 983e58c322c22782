use vstd::prelude::*;

use crate::address::{
    booth_seeds,
    derive_booth_address,
    derive_oracle_address,
    derive_vault_address,
    oracle_seeds,
    program_address,
    vault_seeds,
    Address,
};
use crate::error::{ExchangeBoothError, ProcessError};
use crate::processor::{
    outcome_view,
    plan_view,
    vault_signer,
    AccountRef,
    KnownPrograms,
    Op,
    OpModel,
    SignerSeeds,
};
use crate::token::{token_account_model, unpack_token_account};

verus! {

/// The number of accounts Close reads: admin, booth, vault A, vault B, mint A,
/// mint B, destination A, destination B, oracle, token program.
pub const CLOSE_ACCOUNTS: usize = 10;

/// The outcome of Close: every account checked against its derived address,
/// then both vaults emptied into the destinations and closed, and the booth
/// and oracle records reclaimed by the admin.
pub open spec fn close_outcome(
    program_id: Address,
    programs: KnownPrograms,
    accounts: Seq<AccountRef>,
) -> Result<Seq<OpModel>, ProcessError> {
    if accounts.len() < CLOSE_ACCOUNTS {
        Err(ProcessError::NotEnoughAccountKeys)
    } else {
        let admin = accounts[0];
        let booth = accounts[1];
        let vault_a = accounts[2];
        let vault_b = accounts[3];
        let mint_a = accounts[4];
        let mint_b = accounts[5];
        let destination_a = accounts[6];
        let destination_b = accounts[7];
        let oracle = accounts[8];
        let token_program = accounts[9];
        let booth_key = program_address(booth_seeds(oracle.key@), program_id@);
        let vault_a_key = program_address(vault_seeds(booth.key@, mint_a.key@), program_id@);
        let vault_b_key = program_address(vault_seeds(booth.key@, mint_b.key@), program_id@);
        let oracle_key = program_address(
            oracle_seeds(admin.key@, mint_a.key@, mint_b.key@),
            program_id@,
        );
        if booth_key is None || vault_a_key is None || vault_b_key is None || oracle_key is None {
            Err(ProcessError::Booth(ExchangeBoothError::InvalidAccountAddress))
        } else if !admin.is_signer {
            Err(ProcessError::Booth(ExchangeBoothError::MissingRequiredSignature))
        } else if vault_a_key->Some_0.0 != vault_a.key@ || vault_b_key->Some_0.0 != vault_b.key@
            || oracle_key->Some_0.0 != oracle.key@ || booth_key->Some_0.0 != booth.key@
            || token_program.key@ != programs.token_program@ {
            Err(ProcessError::Booth(ExchangeBoothError::InvalidAccountAddress))
        } else {
            match token_account_model(vault_a.data@) {
                Err(e) => Err(e),
                Ok(content_a) => match token_account_model(vault_b.data@) {
                    Err(e) => Err(e),
                    Ok(content_b) => {
                        let signer_a = vault_signer(booth.key@, mint_a.key@, vault_a_key->Some_0.1);
                        let signer_b = vault_signer(booth.key@, mint_b.key@, vault_b_key->Some_0.1);
                        Ok(
                            seq![
                                OpModel::Transfer {
                                    source: vault_a.key@,
                                    destination: destination_a.key@,
                                    authority: vault_a.key@,
                                    amount: content_a.1,
                                    signer: Some(signer_a),
                                },
                                OpModel::Transfer {
                                    source: vault_b.key@,
                                    destination: destination_b.key@,
                                    authority: vault_b.key@,
                                    amount: content_b.1,
                                    signer: Some(signer_b),
                                },
                                OpModel::CloseTokenAccount {
                                    account: vault_a.key@,
                                    destination: destination_a.key@,
                                    authority: vault_a.key@,
                                    signer: signer_a,
                                },
                                OpModel::CloseTokenAccount {
                                    account: vault_b.key@,
                                    destination: destination_b.key@,
                                    authority: vault_b.key@,
                                    signer: signer_b,
                                },
                                OpModel::CloseRecords {
                                    booth: booth.key@,
                                    oracle: oracle.key@,
                                    recipient: admin.key@,
                                },
                            ],
                        )
                    },
                },
            }
        }
    }
}

/// Plans Close: validates the accounts and returns the operations that empty
/// and close both vaults and reclaim the records, to be run as one step.
pub fn process(program_id: &Address, programs: &KnownPrograms, accounts: &[AccountRef]) -> (r:
    Result<Vec<Op>, ProcessError>)
    ensures
        outcome_view(r) == close_outcome(*program_id, *programs, accounts@),
{
    if accounts.len() < CLOSE_ACCOUNTS {
        return Err(ProcessError::NotEnoughAccountKeys);
    }
    let admin = &accounts[0];
    let booth = &accounts[1];
    let vault_a = &accounts[2];
    let vault_b = &accounts[3];
    let mint_a = &accounts[4];
    let mint_b = &accounts[5];
    let destination_a = &accounts[6];
    let destination_b = &accounts[7];
    let oracle = &accounts[8];
    let token_program = &accounts[9];

    let invalid = ProcessError::Booth(ExchangeBoothError::InvalidAccountAddress);
    let (booth_key, _booth_bump) = match derive_booth_address(&oracle.key, program_id) {
        Some(p) => p,
        None => return Err(invalid),
    };
    let (vault_a_key, vault_a_bump) = match derive_vault_address(&booth.key, &mint_a.key, program_id) {
        Some(p) => p,
        None => return Err(invalid),
    };
    let (vault_b_key, vault_b_bump) = match derive_vault_address(&booth.key, &mint_b.key, program_id) {
        Some(p) => p,
        None => return Err(invalid),
    };
    let (oracle_key, _oracle_bump) = match derive_oracle_address(
        &admin.key,
        &mint_a.key,
        &mint_b.key,
        program_id,
    ) {
        Some(p) => p,
        None => return Err(invalid),
    };

    if !admin.is_signer {
        return Err(ProcessError::Booth(ExchangeBoothError::MissingRequiredSignature));
    }
    if !(vault_a_key == vault_a.key) || !(vault_b_key == vault_b.key) || !(oracle_key == oracle.key)
        || !(booth_key == booth.key) || !(programs.token_program == token_program.key) {
        return Err(invalid);
    }

    let content_a = match unpack_token_account(vault_a.data.as_slice()) {
        Ok(c) => c,
        Err(e) => return Err(e),
    };
    let content_b = match unpack_token_account(vault_b.data.as_slice()) {
        Ok(c) => c,
        Err(e) => return Err(e),
    };

    let signer_a = SignerSeeds::Vault { booth: booth.key, mint: mint_a.key, bump: vault_a_bump };
    let signer_b = SignerSeeds::Vault { booth: booth.key, mint: mint_b.key, bump: vault_b_bump };
    let mut plan: Vec<Op> = Vec::new();
    plan.push(
        Op::Transfer {
            source: vault_a.key,
            destination: destination_a.key,
            authority: vault_a.key,
            amount: content_a.amount,
            signer: Some(signer_a),
        },
    );
    plan.push(
        Op::Transfer {
            source: vault_b.key,
            destination: destination_b.key,
            authority: vault_b.key,
            amount: content_b.amount,
            signer: Some(signer_b),
        },
    );
    plan.push(
        Op::CloseTokenAccount {
            account: vault_a.key,
            destination: destination_a.key,
            authority: vault_a.key,
            signer: signer_a,
        },
    );
    plan.push(
        Op::CloseTokenAccount {
            account: vault_b.key,
            destination: destination_b.key,
            authority: vault_b.key,
            signer: signer_b,
        },
    );
    plan.push(Op::CloseRecords { booth: booth.key, oracle: oracle.key, recipient: admin.key });
    proof {
        let expected = close_outcome(*program_id, *programs, accounts@);
        assert(expected is Ok);
        assert(plan_view(plan@) =~= expected->Ok_0);
    }
    Ok(plan)
}

/// The recipient's lamports once it has reclaimed the booth's and the
/// oracle's: their sum, or `ComputeError` where it exceeds 64 bits.
pub fn reclaimed_lamports(recipient: u64, booth: u64, oracle: u64) -> (r: Result<
    u64,
    ExchangeBoothError,
>)
    ensures
        recipient + booth + oracle <= u64::MAX ==> r == Ok::<u64, ExchangeBoothError>(
            (recipient + booth + oracle) as u64,
        ),
        recipient + booth + oracle > u64::MAX ==> r == Err::<u64, ExchangeBoothError>(
            ExchangeBoothError::ComputeError,
        ),
{
    match recipient.checked_add(booth) {
        None => Err(ExchangeBoothError::ComputeError),
        Some(partial) => match partial.checked_add(oracle) {
            None => Err(ExchangeBoothError::ComputeError),
            Some(total) => Ok(total),
        },
    }
}

/// Close is planned whole or not at all: a refusal carries no operation, and
/// an accepted Close empties and closes both vaults and reclaims both records
/// in one plan, the vault transfers before the vault closes.
pub proof fn lemma_close_planned_whole(
    program_id: Address,
    programs: KnownPrograms,
    accounts: Seq<AccountRef>,
)
    ensures
        close_outcome(program_id, programs, accounts) matches Ok(plan) ==> {
            &&& plan.len() == 5
            &&& plan[0] matches OpModel::Transfer { source, .. } && source == accounts[2].key@
            &&& plan[1] matches OpModel::Transfer { source, .. } && source == accounts[3].key@
            &&& plan[2] matches OpModel::CloseTokenAccount { account, .. } && account
                == accounts[2].key@
            &&& plan[3] matches OpModel::CloseTokenAccount { account, .. } && account
                == accounts[3].key@
            &&& plan[4] matches OpModel::CloseRecords { booth, oracle, recipient } && booth
                == accounts[1].key@ && oracle == accounts[8].key@ && recipient == accounts[0].key@
        },
{
}

} // verus!
