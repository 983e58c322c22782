use vstd::prelude::*;

use crate::address::{
    booth_seeds,
    derive_booth_address,
    derive_oracle_address,
    derive_vault_address,
    oracle_seeds,
    program_address,
    vault_seeds,
    Address,
};
use crate::commands::Direction;
use crate::convert::{conversion_outcome, convert};
use crate::error::{ExchangeBoothError, ProcessError};
use crate::processor::{
    outcome_view,
    plan_view,
    vault_signer,
    AccountRef,
    KnownPrograms,
    Op,
    OpModel,
    SignerSeeds,
};
use crate::state::{ExchangeBoothAccount, OracleAccount};
use crate::token::{
    mint_decimals_model,
    token_account_model,
    unpack_mint_decimals,
    unpack_token_account,
};

verus! {

/// The number of accounts Exchange reads: trader, booth admin, receiver vault,
/// donor vault, receiver token account, donor token account, oracle, booth,
/// donor mint, receiver mint, token program.
pub const EXCHANGE_ACCOUNTS: usize = 11;

/// The direction of an exchange, read from which of the two oracle addresses
/// of the pair the supplied oracle is: the one derived with the receiver's
/// mint first means the trader receives A.
pub open spec fn exchange_direction(
    oracle: Seq<u8>,
    receiver_first: Seq<u8>,
    donor_first: Seq<u8>,
) -> Option<Direction> {
    if oracle == receiver_first {
        Some(Direction::ToA)
    } else if oracle == donor_first {
        Some(Direction::ToB)
    } else {
        None
    }
}

/// The amount paid out for `amount` of the donor's asset: converted at the
/// oracle's rate less the booth's fee, with asset A's and asset B's decimals
/// taken from whichever of the two mints holds A and B.
pub open spec fn exchange_payout(
    direction: Direction,
    amount: u64,
    rate: OracleAccount,
    booth: ExchangeBoothAccount,
    donor_decimals: u8,
    receiver_decimals: u8,
) -> Result<u64, ExchangeBoothError> {
    match direction {
        Direction::ToA => conversion_outcome(
            rate.exchange_rate,
            amount,
            booth.fee,
            Direction::ToA,
            rate.decimals,
            receiver_decimals,
            donor_decimals,
            booth.decimals,
        ),
        Direction::ToB => conversion_outcome(
            rate.exchange_rate,
            amount,
            booth.fee,
            Direction::ToB,
            rate.decimals,
            donor_decimals,
            receiver_decimals,
            booth.decimals,
        ),
    }
}

/// The accounts of an Exchange checked, before any record is read: both
/// token accounts readable, the trader signing, the donor and receiver mints,
/// both vaults, the booth and the token program at the addresses derived
/// from the admin, the traded mints and the oracle, and the oracle one of the
/// pair's two oracle addresses. Yields the direction, the receiver's mint and
/// the donor vault's bump.
pub open spec fn exchange_validation(
    program_id: Address,
    programs: KnownPrograms,
    accounts: Seq<AccountRef>,
) -> Result<(Direction, Seq<u8>, u8), ProcessError> {
    if accounts.len() < EXCHANGE_ACCOUNTS {
        Err(ProcessError::NotEnoughAccountKeys)
    } else {
        let user = accounts[0];
        let authority = accounts[1];
        let receiver_vault = accounts[2];
        let donor_vault = accounts[3];
        let receiver_account = accounts[4];
        let donor_account = accounts[5];
        let oracle = accounts[6];
        let booth = accounts[7];
        let donor_mint = accounts[8];
        let receiver_mint = accounts[9];
        let token_program = accounts[10];
        let pid = program_id@;
        let invalid = ProcessError::Booth(ExchangeBoothError::InvalidAccountAddress);
        match token_account_model(donor_account.data@) {
            Err(e) => Err(e),
            Ok(donor_content) => match token_account_model(receiver_account.data@) {
                Err(e) => Err(e),
                Ok(receiver_content) => {
                    let donor_mint_key = donor_content.0;
                    let receiver_mint_key = receiver_content.0;
                    let receiver_first = program_address(
                        oracle_seeds(authority.key@, receiver_mint_key, donor_mint_key),
                        pid,
                    );
                    let donor_first = program_address(
                        oracle_seeds(authority.key@, donor_mint_key, receiver_mint_key),
                        pid,
                    );
                    let booth_key = program_address(booth_seeds(oracle.key@), pid);
                    if receiver_first is None || donor_first is None || booth_key is None {
                        Err(invalid)
                    } else {
                        let eb = booth_key->Some_0.0;
                        let donor_vault_key = program_address(
                            vault_seeds(eb, receiver_mint_key),
                            pid,
                        );
                        let receiver_vault_key = program_address(
                            vault_seeds(eb, donor_mint_key),
                            pid,
                        );
                        if donor_vault_key is None || receiver_vault_key is None {
                            Err(invalid)
                        } else if !user.is_signer {
                            Err(ProcessError::Booth(ExchangeBoothError::MissingRequiredSignature))
                        } else if donor_mint_key != donor_mint.key@ || receiver_mint_key
                            != receiver_mint.key@ || receiver_vault_key->Some_0.0
                            != receiver_vault.key@ || donor_vault_key->Some_0.0
                            != donor_vault.key@ || eb != booth.key@ || token_program.key@
                            != programs.token_program@ {
                            Err(invalid)
                        } else {
                            match exchange_direction(
                                oracle.key@,
                                receiver_first->Some_0.0,
                                donor_first->Some_0.0,
                            ) {
                                None => Err(invalid),
                                Some(direction) => Ok(
                                    (direction, receiver_mint_key, donor_vault_key->Some_0.1),
                                ),
                            }
                        }
                    }
                },
            },
        }
    }
}

/// The outcome of Exchange: the accounts checked first; then the oracle's
/// rate, both mints' decimals and the booth's fee read from the checked
/// accounts; then the donor's amount moved into the receiver vault and the
/// converted amount moved out of the donor vault to the trader.
pub open spec fn exchange_outcome(
    program_id: Address,
    programs: KnownPrograms,
    accounts: Seq<AccountRef>,
    amount: u64,
) -> Result<Seq<OpModel>, ProcessError> {
    match exchange_validation(program_id, programs, accounts) {
        Err(e) => Err(e),
        Ok((direction, receiver_mint_key, donor_vault_bump)) => {
            let user = accounts[0];
            let receiver_vault = accounts[2];
            let donor_vault = accounts[3];
            let receiver_account = accounts[4];
            let donor_account = accounts[5];
            let oracle = accounts[6];
            let booth = accounts[7];
            let donor_mint = accounts[8];
            let receiver_mint = accounts[9];
            match OracleAccount::spec_unpack(oracle.data@) {
                None => Err(ProcessError::InvalidAccountData),
                Some(rate) => match mint_decimals_model(donor_mint.data@) {
                    Err(e) => Err(e),
                    Ok(donor_decimals) => match mint_decimals_model(receiver_mint.data@) {
                        Err(e) => Err(e),
                        Ok(receiver_decimals) => match ExchangeBoothAccount::spec_unpack(
                            booth.data@,
                        ) {
                            None => Err(ProcessError::InvalidAccountData),
                            Some(fee) => match exchange_payout(
                                direction,
                                amount,
                                rate,
                                fee,
                                donor_decimals,
                                receiver_decimals,
                            ) {
                                Err(e) => Err(ProcessError::Booth(e)),
                                Ok(payout) => Ok(
                                    seq![
                                        OpModel::Transfer {
                                            source: donor_account.key@,
                                            destination: receiver_vault.key@,
                                            authority: user.key@,
                                            amount,
                                            signer: None,
                                        },
                                        OpModel::Transfer {
                                            source: donor_vault.key@,
                                            destination: receiver_account.key@,
                                            authority: donor_vault.key@,
                                            amount: payout,
                                            signer: Some(
                                                vault_signer(
                                                    booth.key@,
                                                    receiver_mint_key,
                                                    donor_vault_bump,
                                                ),
                                            ),
                                        },
                                    ],
                                ),
                            },
                        },
                    },
                },
            }
        },
    }
}

/// Plans Exchange: validates every account against its derived address,
/// infers the direction from the oracle's address, then reads the rate, the
/// decimals and the fee, prices `amount` through `convert`, and returns the
/// two transfers that settle the trade.
pub fn process(
    program_id: &Address,
    programs: &KnownPrograms,
    accounts: &[AccountRef],
    amount: u64,
) -> (r: Result<Vec<Op>, ProcessError>)
    ensures
        outcome_view(r) == exchange_outcome(*program_id, *programs, accounts@, amount),
{
    if accounts.len() < EXCHANGE_ACCOUNTS {
        return Err(ProcessError::NotEnoughAccountKeys);
    }
    let user = &accounts[0];
    let authority = &accounts[1];
    let receiver_vault = &accounts[2];
    let donor_vault = &accounts[3];
    let receiver_account = &accounts[4];
    let donor_account = &accounts[5];
    let oracle = &accounts[6];
    let booth = &accounts[7];
    let donor_mint = &accounts[8];
    let receiver_mint = &accounts[9];
    let token_program = &accounts[10];

    let donor_content = match unpack_token_account(donor_account.data.as_slice()) {
        Ok(c) => c,
        Err(e) => return Err(e),
    };
    let receiver_content = match unpack_token_account(receiver_account.data.as_slice()) {
        Ok(c) => c,
        Err(e) => return Err(e),
    };
    let donor_mint_key = donor_content.mint;
    let receiver_mint_key = receiver_content.mint;

    let invalid = ProcessError::Booth(ExchangeBoothError::InvalidAccountAddress);
    let (receiver_first, _) = match derive_oracle_address(
        &authority.key,
        &receiver_mint_key,
        &donor_mint_key,
        program_id,
    ) {
        Some(p) => p,
        None => return Err(invalid),
    };
    let (donor_first, _) = match derive_oracle_address(
        &authority.key,
        &donor_mint_key,
        &receiver_mint_key,
        program_id,
    ) {
        Some(p) => p,
        None => return Err(invalid),
    };
    let (booth_key, _) = match derive_booth_address(&oracle.key, program_id) {
        Some(p) => p,
        None => return Err(invalid),
    };
    let (donor_vault_key, donor_vault_bump) = match derive_vault_address(
        &booth_key,
        &receiver_mint_key,
        program_id,
    ) {
        Some(p) => p,
        None => return Err(invalid),
    };
    let (receiver_vault_key, _) = match derive_vault_address(
        &booth_key,
        &donor_mint_key,
        program_id,
    ) {
        Some(p) => p,
        None => return Err(invalid),
    };

    if !user.is_signer {
        return Err(ProcessError::Booth(ExchangeBoothError::MissingRequiredSignature));
    }
    if !(donor_mint_key == donor_mint.key) || !(receiver_mint_key == receiver_mint.key)
        || !(receiver_vault_key == receiver_vault.key) || !(donor_vault_key == donor_vault.key)
        || !(booth_key == booth.key) || !(programs.token_program == token_program.key) {
        return Err(invalid);
    }
    let direction = if oracle.key == receiver_first {
        Direction::ToA
    } else if oracle.key == donor_first {
        Direction::ToB
    } else {
        return Err(invalid);
    };

    let rate = match OracleAccount::unpack(oracle.data.as_slice()) {
        Ok(c) => c,
        Err(e) => return Err(e),
    };
    let donor_decimals = match unpack_mint_decimals(donor_mint.data.as_slice()) {
        Ok(d) => d,
        Err(e) => return Err(e),
    };
    let receiver_decimals = match unpack_mint_decimals(receiver_mint.data.as_slice()) {
        Ok(d) => d,
        Err(e) => return Err(e),
    };
    let fee = match ExchangeBoothAccount::unpack(booth.data.as_slice()) {
        Ok(c) => c,
        Err(e) => return Err(e),
    };

    let payout = match direction {
        Direction::ToA => convert(
            rate.exchange_rate,
            amount,
            fee.fee,
            Direction::ToA,
            rate.decimals,
            receiver_decimals,
            donor_decimals,
            fee.decimals,
        ),
        Direction::ToB => convert(
            rate.exchange_rate,
            amount,
            fee.fee,
            Direction::ToB,
            rate.decimals,
            donor_decimals,
            receiver_decimals,
            fee.decimals,
        ),
    };
    let payout = match payout {
        Ok(v) => v,
        Err(e) => return Err(ProcessError::Booth(e)),
    };

    let mut plan: Vec<Op> = Vec::new();
    plan.push(
        Op::Transfer {
            source: donor_account.key,
            destination: receiver_vault.key,
            authority: user.key,
            amount,
            signer: None,
        },
    );
    plan.push(
        Op::Transfer {
            source: donor_vault.key,
            destination: receiver_account.key,
            authority: donor_vault.key,
            amount: payout,
            signer: Some(
                SignerSeeds::Vault { booth: booth.key, mint: receiver_mint_key, bump: donor_vault_bump },
            ),
        },
    );
    proof {
        let expected = exchange_outcome(*program_id, *programs, accounts@, amount);
        assert(expected is Ok);
        assert(plan_view(plan@) =~= expected->Ok_0);
    }
    Ok(plan)
}

/// An exchange whose oracle is neither of the two oracle addresses derived
/// for the admin and the traded pair of mints is refused with
/// `InvalidAccountAddress`, whatever the oracle, booth and mint accounts
/// hold, once the trader has signed and both token accounts can be read.
pub proof fn lemma_unknown_oracle_refused(
    program_id: Address,
    programs: KnownPrograms,
    accounts: Seq<AccountRef>,
    amount: u64,
)
    requires
        accounts.len() >= EXCHANGE_ACCOUNTS,
        accounts[0].is_signer,
        token_account_model(accounts[5].data@) is Ok,
        token_account_model(accounts[4].data@) is Ok,
        ({
            let donor_mint_key = token_account_model(accounts[5].data@)->Ok_0.0;
            let receiver_mint_key = token_account_model(accounts[4].data@)->Ok_0.0;
            let receiver_first = program_address(
                oracle_seeds(accounts[1].key@, receiver_mint_key, donor_mint_key),
                program_id@,
            );
            let donor_first = program_address(
                oracle_seeds(accounts[1].key@, donor_mint_key, receiver_mint_key),
                program_id@,
            );
            &&& receiver_first is Some ==> receiver_first->Some_0.0 != accounts[6].key@
            &&& donor_first is Some ==> donor_first->Some_0.0 != accounts[6].key@
        }),
    ensures
        exchange_outcome(program_id, programs, accounts, amount) == Err::<Seq<OpModel>, ProcessError>(
            ProcessError::Booth(ExchangeBoothError::InvalidAccountAddress),
        ),
{
}

} // verus!
