//! The five instruction handlers. Each reads an ordered list of account
//! handles, validates them against the addresses derived from the
//! instruction's own seeds, and returns the plan of operations that carries
//! the instruction out; the host runs a plan as one atomic step.

use vstd::prelude::*;

use crate::address::Address;
use crate::commands::{spec_decode, ProgramInstruction};
use crate::error::ProcessError;
use crate::state::{ExchangeBoothAccount, OracleAccount};
use crate::token::token_account_model;

pub mod close;
pub mod deposit;
pub mod exchange;
pub mod initialize;
pub mod withdraw;

verus! {

/// One account handed to an instruction, as the handler sees it.
#[derive(Debug, Clone)]
pub struct AccountRef {
    pub key: Address,
    pub is_signer: bool,
    pub lamports: u64,
    pub data: Vec<u8>,
}

/// The addresses of the host programs an instruction calls.
#[derive(Debug, Copy, Clone)]
pub struct KnownPrograms {
    pub system_program: Address,
    pub token_program: Address,
    pub rent_sysvar: Address,
}

/// The seeds by which the program signs for one of its derived addresses.
#[derive(Debug, Copy, Clone)]
pub enum SignerSeeds {
    Oracle { admin: Address, mint_a: Address, mint_b: Address, bump: u8 },
    Booth { oracle: Address, bump: u8 },
    Vault { booth: Address, mint: Address, bump: u8 },
}

impl View for SignerSeeds {
    /// The seed byte strings, the bump last.
    type V = Seq<Seq<u8>>;

    open spec fn view(&self) -> Seq<Seq<u8>> {
        match *self {
            SignerSeeds::Oracle { admin, mint_a, mint_b, bump } => seq![
                admin@,
                mint_a@,
                mint_b@,
                seq![bump],
            ],
            SignerSeeds::Booth { oracle, bump } => seq![oracle@, seq![bump]],
            SignerSeeds::Vault { booth, mint, bump } => seq![booth@, mint@, seq![bump]],
        }
    }
}

/// One step of an instruction's effect on the ledger.
#[derive(Debug, Copy, Clone)]
pub enum Op {
    /// Create `account` with `space` bytes owned by `owner`, funded by `payer`
    /// with the rent-exempt minimum.
    CreateAccount {
        payer: Address,
        account: Address,
        space: u64,
        owner: Address,
        signer: SignerSeeds,
    },
    /// Make `account` a token account of `mint` whose authority is `owner`.
    InitializeTokenAccount { account: Address, mint: Address, owner: Address, signer: SignerSeeds },
    /// Move `amount` tokens from `source` to `destination`, authorized by
    /// `authority`: a signer of the transaction, or the program through
    /// `signer`.
    Transfer {
        source: Address,
        destination: Address,
        authority: Address,
        amount: u64,
        signer: Option<SignerSeeds>,
    },
    /// Close the token account `account`, its lamports going to `destination`.
    CloseTokenAccount {
        account: Address,
        destination: Address,
        authority: Address,
        signer: SignerSeeds,
    },
    /// Store the booth's record in `account`.
    WriteBooth { account: Address, record: ExchangeBoothAccount },
    /// Store the oracle's record in `account`.
    WriteOracle { account: Address, record: OracleAccount },
    /// Zero the booth and oracle records and move their lamports to
    /// `recipient`.
    CloseRecords { booth: Address, oracle: Address, recipient: Address },
}

/// An operation with its addresses and seeds as byte strings.
pub enum OpModel {
    CreateAccount {
        payer: Seq<u8>,
        account: Seq<u8>,
        space: u64,
        owner: Seq<u8>,
        signer: Seq<Seq<u8>>,
    },
    InitializeTokenAccount {
        account: Seq<u8>,
        mint: Seq<u8>,
        owner: Seq<u8>,
        signer: Seq<Seq<u8>>,
    },
    Transfer {
        source: Seq<u8>,
        destination: Seq<u8>,
        authority: Seq<u8>,
        amount: u64,
        signer: Option<Seq<Seq<u8>>>,
    },
    CloseTokenAccount {
        account: Seq<u8>,
        destination: Seq<u8>,
        authority: Seq<u8>,
        signer: Seq<Seq<u8>>,
    },
    WriteBooth { account: Seq<u8>, record: ExchangeBoothAccount },
    WriteOracle { account: Seq<u8>, record: OracleAccount },
    CloseRecords { booth: Seq<u8>, oracle: Seq<u8>, recipient: Seq<u8> },
}

impl View for Op {
    type V = OpModel;

    open spec fn view(&self) -> OpModel {
        match *self {
            Op::CreateAccount { payer, account, space, owner, signer } => OpModel::CreateAccount {
                payer: payer@,
                account: account@,
                space,
                owner: owner@,
                signer: signer@,
            },
            Op::InitializeTokenAccount { account, mint, owner, signer } =>
                OpModel::InitializeTokenAccount {
                account: account@,
                mint: mint@,
                owner: owner@,
                signer: signer@,
            },
            Op::Transfer { source, destination, authority, amount, signer } => OpModel::Transfer {
                source: source@,
                destination: destination@,
                authority: authority@,
                amount,
                signer: match signer {
                    Some(s) => Some(s@),
                    None => None,
                },
            },
            Op::CloseTokenAccount { account, destination, authority, signer } =>
                OpModel::CloseTokenAccount {
                account: account@,
                destination: destination@,
                authority: authority@,
                signer: signer@,
            },
            Op::WriteBooth { account, record } => OpModel::WriteBooth { account: account@, record },
            Op::WriteOracle { account, record } => OpModel::WriteOracle {
                account: account@,
                record,
            },
            Op::CloseRecords { booth, oracle, recipient } => OpModel::CloseRecords {
                booth: booth@,
                oracle: oracle@,
                recipient: recipient@,
            },
        }
    }
}

/// A plan's operations as models.
pub open spec fn plan_view(plan: Seq<Op>) -> Seq<OpModel> {
    plan.map_values(|o: Op| o@)
}

/// A handler's outcome, its plan as models.
pub open spec fn outcome_view(
    r: Result<Vec<Op>, ProcessError>,
) -> Result<Seq<OpModel>, ProcessError> {
    match r {
        Ok(plan) => Ok(plan_view(plan@)),
        Err(e) => Err(e),
    }
}

/// The bytes of a vault's signer seeds: its booth, its mint and its bump.
pub open spec fn vault_signer(booth: Seq<u8>, mint: Seq<u8>, bump: u8) -> Seq<Seq<u8>> {
    seq![booth, mint, seq![bump]]
}

/// The outcome of the instruction that `instruction_data` encodes.
pub open spec fn instruction_outcome(
    program_id: Address,
    programs: KnownPrograms,
    accounts: Seq<AccountRef>,
    instruction_data: Seq<u8>,
) -> Result<Seq<OpModel>, ProcessError> {
    match spec_decode(instruction_data) {
        None => Err(ProcessError::InvalidArgument),
        Some(ProgramInstruction::InitializeExchangeBooth {
            exchange_rate,
            rate_decimals,
            fee,
            fee_decimals,
        }) => initialize::initialize_outcome(
            program_id,
            programs,
            accounts,
            exchange_rate,
            rate_decimals,
            fee,
            fee_decimals,
        ),
        Some(ProgramInstruction::Deposit { amount_a, amount_b }) => deposit::deposit_outcome(
            program_id,
            programs,
            accounts,
            amount_a,
            amount_b,
        ),
        Some(ProgramInstruction::CloseExchangeBooth {  }) => close::close_outcome(
            program_id,
            programs,
            accounts,
        ),
        Some(ProgramInstruction::Exchange { amount }) => exchange::exchange_outcome(
            program_id,
            programs,
            accounts,
            amount,
        ),
        Some(ProgramInstruction::Withdraw {  }) => withdraw::withdraw_outcome(
            program_id,
            programs,
            accounts,
        ),
    }
}

/// Decodes an instruction and plans it with its handler.
pub fn process_instruction(
    program_id: &Address,
    programs: &KnownPrograms,
    accounts: &[AccountRef],
    instruction_data: &[u8],
) -> (r: Result<Vec<Op>, ProcessError>)
    ensures
        outcome_view(r) == instruction_outcome(
            *program_id,
            *programs,
            accounts@,
            instruction_data@,
        ),
{
    let ix = match ProgramInstruction::unpack(instruction_data) {
        Ok(ix) => ix,
        Err(e) => return Err(e),
    };
    match ix {
        ProgramInstruction::Exchange { amount } => exchange::process(
            program_id,
            programs,
            accounts,
            amount,
        ),
        ProgramInstruction::Withdraw {  } => withdraw::process(program_id, programs, accounts),
        ProgramInstruction::Deposit { amount_a, amount_b } => deposit::process(
            program_id,
            programs,
            accounts,
            amount_a,
            amount_b,
        ),
        ProgramInstruction::CloseExchangeBooth {  } => close::process(
            program_id,
            programs,
            accounts,
        ),
        ProgramInstruction::InitializeExchangeBooth {
            exchange_rate,
            rate_decimals,
            fee,
            fee_decimals,
        } => initialize::process(
            program_id,
            programs,
            accounts,
            exchange_rate,
            rate_decimals,
            fee,
            fee_decimals,
        ),
    }
}

/// A booth that Initialize accepted can be closed by its admin right away:
/// with both vaults still empty, Close accepts the same admin, booth, vaults,
/// mints, oracle and token program, moves no tokens, closes both vaults into
/// the destinations and returns the booth's and the oracle's records to the
/// admin.
pub proof fn lemma_initialize_then_close(
    program_id: Address,
    programs: KnownPrograms,
    initialized: Seq<AccountRef>,
    closing: Seq<AccountRef>,
    exchange_rate: u64,
    rate_decimals: u8,
    fee: u64,
    fee_decimals: u8,
)
    requires
        initialize::initialize_outcome(
            program_id,
            programs,
            initialized,
            exchange_rate,
            rate_decimals,
            fee,
            fee_decimals,
        ) is Ok,
        closing.len() >= close::CLOSE_ACCOUNTS,
        closing[0].is_signer,
        closing[0].key@ == initialized[0].key@,
        closing[1].key@ == initialized[1].key@,
        closing[2].key@ == initialized[5].key@,
        closing[3].key@ == initialized[6].key@,
        closing[4].key@ == initialized[3].key@,
        closing[5].key@ == initialized[4].key@,
        closing[8].key@ == initialized[7].key@,
        closing[9].key@ == initialized[8].key@,
        token_account_model(closing[2].data@) is Ok,
        token_account_model(closing[2].data@)->Ok_0.1 == 0,
        token_account_model(closing[3].data@) is Ok,
        token_account_model(closing[3].data@)->Ok_0.1 == 0,
    ensures
        close::close_outcome(program_id, programs, closing) matches Ok(plan) && {
            &&& plan.len() == 5
            &&& plan[0] matches OpModel::Transfer { source, destination, amount, .. }
                && source == closing[2].key@ && destination == closing[6].key@ && amount == 0
            &&& plan[1] matches OpModel::Transfer { source, destination, amount, .. }
                && source == closing[3].key@ && destination == closing[7].key@ && amount == 0
            &&& plan[2] matches OpModel::CloseTokenAccount { account, destination, .. }
                && account == closing[2].key@ && destination == closing[6].key@
            &&& plan[3] matches OpModel::CloseTokenAccount { account, destination, .. }
                && account == closing[3].key@ && destination == closing[7].key@
            &&& plan[4] matches OpModel::CloseRecords { booth, oracle, recipient }
                && booth == closing[1].key@ && oracle == closing[8].key@ && recipient
                == closing[0].key@
        },
{
}

} // verus!
