use vstd::prelude::*;
use crate::authority::{AuthorityDelegate, delegate_of};
use crate::bytes::keys_equal;
use crate::error::{EscrowError, ProcessError};
use crate::instruction::{EscrowInstruction, decode_instruction};
use crate::state::{Escrow, escrow_bytes, decode_escrow, decode_initialized_escrow, lemma_escrow_round_trip};
use crate::token::{token_program_id, token_program_id_bytes, token_account_amount, decode_token_amount};

verus! {

/// What the processor sees of one account handed to an instruction.
#[derive(Debug, Clone)]
pub struct AccountView {
    pub key: [u8; 32],
    /// The program that owns the account.
    pub owner: [u8; 32],
    pub is_signer: bool,
    /// Whether the balance meets the rent-exempt minimum for the data size.
    pub rent_exempt: bool,
    pub lamports: u64,
    pub data: Vec<u8>,
}

/// Who authorizes a token-program call.
#[derive(Debug, Clone, Copy, PartialEq, Eq)]
pub enum Authority {
    /// The holder of this key, which signed the transaction.
    Signer([u8; 32]),
    /// The escrow's program-derived authority.
    Delegate(AuthorityDelegate),
}

/// A call to the token program.
#[derive(Debug, Clone, Copy, PartialEq, Eq)]
pub enum TokenCall {
    /// Makes `new_owner` the owner of token account `account`.
    SetOwner { token_program: [u8; 32], account: [u8; 32], new_owner: [u8; 32], authority: Authority },
    /// Moves `amount` tokens from `source` to `destination`.
    Transfer {
        token_program: [u8; 32],
        source: [u8; 32],
        destination: [u8; 32],
        authority: Authority,
        amount: u64,
    },
    /// Closes the empty token account `account`, crediting its lamports to
    /// `destination`.
    CloseAccount {
        token_program: [u8; 32],
        account: [u8; 32],
        destination: [u8; 32],
        authority: Authority,
    },
}

/// What a successful InitEscrow asks of the runtime: the new record data for
/// the escrow account, and the call that hands the custody account to the
/// escrow authority.
#[derive(Debug, Clone)]
pub struct InitPlan {
    pub escrow_data: Vec<u8>,
    pub call: TokenCall,
}

/// What a successful Exchange asks of the runtime: the token calls in order,
/// then the closing of the escrow record account (see `close_escrow`).
#[derive(Debug, Clone)]
pub struct ExchangePlan {
    pub calls: Vec<TokenCall>,
}

/// The result of a successful instruction.
#[derive(Debug, Clone)]
pub enum Outcome {
    Init(InitPlan),
    Exchange(ExchangePlan),
}

/// InitEscrow over the accounts `[initializer, custody, receive, escrow,
/// token program]`: the first failed check, or the record to store and the
/// custody hand-over.
pub open spec fn planned_init(program_id: Seq<u8>, a: Seq<AccountView>, amount: u64) -> Result<
    (Escrow, TokenCall),
    ProcessError,
> {
    if a.len() < 1 {
        Err(ProcessError::NotEnoughAccountKeys)
    } else if !a[0].is_signer {
        Err(ProcessError::MissingRequiredSignature)
    } else if a.len() < 3 {
        Err(ProcessError::NotEnoughAccountKeys)
    } else if a[2].owner@ != token_program_id_bytes() {
        Err(ProcessError::IncorrectProgramId)
    } else if a.len() < 4 {
        Err(ProcessError::NotEnoughAccountKeys)
    } else if !a[3].rent_exempt {
        Err(ProcessError::Escrow(EscrowError::NotRentExempt))
    } else {
        match decode_escrow(a[3].data@) {
            Err(e) => Err(e),
            Ok(old) => if old.is_initialized {
                Err(ProcessError::AccountAlreadyInitialized)
            } else {
                match delegate_of(program_id) {
                    None => Err(ProcessError::InvalidSeeds),
                    Some(d) => if a.len() < 5 {
                        Err(ProcessError::NotEnoughAccountKeys)
                    } else {
                        Ok(
                            (
                                Escrow {
                                    is_initialized: true,
                                    initializer_pubkey: a[0].key,
                                    temp_token_account_pubkey: a[1].key,
                                    initializer_token_to_receive_account_pubkey: a[2].key,
                                    expected_amount: amount,
                                },
                                TokenCall::SetOwner {
                                    token_program: a[4].key,
                                    account: a[1].key,
                                    new_owner: d.address,
                                    authority: Authority::Signer(a[0].key),
                                },
                            ),
                        )
                    },
                }
            },
        }
    }
}

/// The token calls of an Exchange, in order: the expected amount from the
/// taker to the initializer, the whole custody balance to the taker, and the
/// closing of the custody account into the initializer's main account.
pub open spec fn exchange_calls(
    a: Seq<AccountView>,
    record: Escrow,
    held: u64,
    d: AuthorityDelegate,
) -> Seq<TokenCall> {
    seq![
        TokenCall::Transfer {
            token_program: a[7].key,
            source: a[1].key,
            destination: a[5].key,
            authority: Authority::Signer(a[0].key),
            amount: record.expected_amount,
        },
        TokenCall::Transfer {
            token_program: a[7].key,
            source: a[3].key,
            destination: a[2].key,
            authority: Authority::Delegate(d),
            amount: held,
        },
        TokenCall::CloseAccount {
            token_program: a[7].key,
            account: a[3].key,
            destination: a[4].key,
            authority: Authority::Delegate(d),
        },
    ]
}

/// Exchange over the accounts `[taker, taker sending, taker receiving,
/// custody, initializer main, initializer receiving, escrow, token program,
/// escrow authority]`: the first failed check, or the token calls.
pub open spec fn planned_exchange(program_id: Seq<u8>, a: Seq<AccountView>, amount: u64) -> Result<
    Seq<TokenCall>,
    ProcessError,
> {
    if a.len() < 9 {
        Err(ProcessError::NotEnoughAccountKeys)
    } else if !a[0].is_signer {
        Err(ProcessError::MissingRequiredSignature)
    } else {
        match decode_token_amount(a[3].data@) {
            Err(e) => Err(e),
            Ok(held) => if held != amount {
                Err(ProcessError::Escrow(EscrowError::EscrowAmountMismatch))
            } else {
                match decode_initialized_escrow(a[6].data@) {
                    Err(e) => Err(e),
                    Ok(record) => if record.initializer_pubkey != a[4].key
                        || record.initializer_token_to_receive_account_pubkey != a[5].key
                        || record.temp_token_account_pubkey != a[3].key {
                        Err(ProcessError::InvalidAccountData)
                    } else {
                        match delegate_of(program_id) {
                            None => Err(ProcessError::InvalidSeeds),
                            Some(d) => Ok(exchange_calls(a, record, held, d)),
                        }
                    },
                }
            },
        }
    }
}

/// Closing the escrow record account moves its lamports to `destination`;
/// `None` when the sum overflows.
pub open spec fn reclaimed(destination: u64, record: u64) -> Option<u64> {
    if destination + record <= u64::MAX {
        Some((destination + record) as u64)
    } else {
        None
    }
}

/// Where the decisions of the escrow program are made. The runtime performs
/// the planned calls; any failure discards the whole instruction.
pub struct Processor;

impl Processor {
    /// Decodes the instruction and runs the matching transition.
    pub fn process(program_id: &[u8; 32], accounts: &[AccountView], instruction_data: &[u8]) -> (r:
        Result<Outcome, ProcessError>)
        ensures
            match decode_instruction(instruction_data@) {
                Err(e) => r == Err::<Outcome, ProcessError>(ProcessError::Escrow(e)),
                Ok(EscrowInstruction::InitEscrow { amount }) => match planned_init(
                    program_id@,
                    accounts@,
                    amount,
                ) {
                    Ok(p) => match r {
                        Ok(Outcome::Init(plan)) => plan.escrow_data@ == escrow_bytes(p.0)
                            && plan.call == p.1,
                        _ => false,
                    },
                    Err(e) => r == Err::<Outcome, ProcessError>(e),
                },
                Ok(EscrowInstruction::Exchange { amount }) => match planned_exchange(
                    program_id@,
                    accounts@,
                    amount,
                ) {
                    Ok(calls) => match r {
                        Ok(Outcome::Exchange(plan)) => plan.calls@ == calls,
                        _ => false,
                    },
                    Err(e) => r == Err::<Outcome, ProcessError>(e),
                },
            },
    {
        let instruction = match EscrowInstruction::unpack(instruction_data) {
            Ok(i) => i,
            Err(e) => return Err(ProcessError::Escrow(e)),
        };
        match instruction {
            EscrowInstruction::InitEscrow { amount } => {
                let plan = Self::process_init_escrow(accounts, amount, program_id)?;
                Ok(Outcome::Init(plan))
            },
            EscrowInstruction::Exchange { amount } => {
                let plan = Self::process_exchange_escrow(accounts, amount, program_id)?;
                Ok(Outcome::Exchange(plan))
            },
        }
    }

    /// Validates an InitEscrow and plans its effects.
    pub fn process_init_escrow(accounts: &[AccountView], amount: u64, program_id: &[u8; 32]) -> (r:
        Result<InitPlan, ProcessError>)
        ensures
            match planned_init(program_id@, accounts@, amount) {
                Ok(p) => match r {
                    Ok(plan) => plan.escrow_data@ == escrow_bytes(p.0) && plan.call == p.1,
                    Err(_) => false,
                },
                Err(e) => r == Err::<InitPlan, ProcessError>(e),
            },
            accounts@.len() >= 1 && !accounts@[0].is_signer ==> r == Err::<InitPlan, ProcessError>(
                ProcessError::MissingRequiredSignature,
            ),
            accounts@.len() >= 3 && accounts@[0].is_signer && accounts@[2].owner@
                != token_program_id_bytes() ==> r == Err::<InitPlan, ProcessError>(
                ProcessError::IncorrectProgramId,
            ),
            accounts@.len() >= 4 && accounts@[0].is_signer && accounts@[2].owner@
                == token_program_id_bytes() && accounts@[3].rent_exempt && decode_escrow(
                accounts@[3].data@,
            ) is Ok && decode_escrow(accounts@[3].data@)->Ok_0.is_initialized ==> r == Err::<
                InitPlan,
                ProcessError,
            >(ProcessError::AccountAlreadyInitialized),
    {
        if accounts.len() < 1 {
            return Err(ProcessError::NotEnoughAccountKeys);
        }
        let initializer = &accounts[0];
        if !initializer.is_signer {
            return Err(ProcessError::MissingRequiredSignature);
        }
        if accounts.len() < 3 {
            return Err(ProcessError::NotEnoughAccountKeys);
        }
        let temp_token_account = &accounts[1];
        let token_to_receive_account = &accounts[2];
        let token_id = token_program_id();
        let owned = keys_equal(&token_to_receive_account.owner, &token_id);
        proof {
            if token_to_receive_account.owner@ == token_id@ {
                assert(token_to_receive_account.owner =~= token_id);
            }
        }
        if !owned {
            return Err(ProcessError::IncorrectProgramId);
        }
        if accounts.len() < 4 {
            return Err(ProcessError::NotEnoughAccountKeys);
        }
        let escrow_account = &accounts[3];
        if !escrow_account.rent_exempt {
            return Err(ProcessError::Escrow(EscrowError::NotRentExempt));
        }
        let current = Escrow::unpack_unchecked(escrow_account.data.as_slice())?;
        if current.is_initialized {
            return Err(ProcessError::AccountAlreadyInitialized);
        }
        let escrow_info = Escrow {
            is_initialized: true,
            initializer_pubkey: initializer.key,
            temp_token_account_pubkey: temp_token_account.key,
            initializer_token_to_receive_account_pubkey: token_to_receive_account.key,
            expected_amount: amount,
        };
        let escrow_data = escrow_info.to_bytes();
        let delegate = AuthorityDelegate::derive(program_id)?;
        if accounts.len() < 5 {
            return Err(ProcessError::NotEnoughAccountKeys);
        }
        let token_program = &accounts[4];
        Ok(
            InitPlan {
                escrow_data,
                call: TokenCall::SetOwner {
                    token_program: token_program.key,
                    account: temp_token_account.key,
                    new_owner: delegate.address,
                    authority: Authority::Signer(initializer.key),
                },
            },
        )
    }

    /// Validates an Exchange and plans its token calls.
    pub fn process_exchange_escrow(accounts: &[AccountView], amount: u64, program_id: &[u8; 32]) -> (r:
        Result<ExchangePlan, ProcessError>)
        ensures
            match planned_exchange(program_id@, accounts@, amount) {
                Ok(calls) => match r {
                    Ok(plan) => plan.calls@ == calls,
                    Err(_) => false,
                },
                Err(e) => r == Err::<ExchangePlan, ProcessError>(e),
            },
            accounts@.len() >= 9 && accounts@[0].is_signer && decode_token_amount(
                accounts@[3].data@,
            ) is Ok && decode_token_amount(accounts@[3].data@)->Ok_0 != amount ==> r == Err::<
                ExchangePlan,
                ProcessError,
            >(ProcessError::Escrow(EscrowError::EscrowAmountMismatch)),
            accounts@.len() >= 9 && accounts@[0].is_signer && decode_token_amount(
                accounts@[3].data@,
            ) == Ok::<u64, ProcessError>(amount) && decode_initialized_escrow(accounts@[6].data@)
                is Ok && ({
                let record = decode_initialized_escrow(accounts@[6].data@)->Ok_0;
                record.initializer_pubkey != accounts@[4].key
                    || record.initializer_token_to_receive_account_pubkey != accounts@[5].key
                    || record.temp_token_account_pubkey != accounts@[3].key
            }) ==> r == Err::<ExchangePlan, ProcessError>(ProcessError::InvalidAccountData),
    {
        if accounts.len() < 9 {
            return Err(ProcessError::NotEnoughAccountKeys);
        }
        let taker = &accounts[0];
        let taker_sending_token_account = &accounts[1];
        let taker_token_to_receive_account = &accounts[2];
        let temp_token_account = &accounts[3];
        let initializer_main_account = &accounts[4];
        let initializer_token_to_receive_account = &accounts[5];
        let escrow_account = &accounts[6];
        let token_program = &accounts[7];
        if !taker.is_signer {
            return Err(ProcessError::MissingRequiredSignature);
        }
        let held = token_account_amount(temp_token_account.data.as_slice())?;
        if held != amount {
            return Err(ProcessError::Escrow(EscrowError::EscrowAmountMismatch));
        }
        let record = Escrow::unpack(escrow_account.data.as_slice())?;
        if !keys_equal(&record.initializer_pubkey, &initializer_main_account.key) {
            return Err(ProcessError::InvalidAccountData);
        }
        if !keys_equal(
            &record.initializer_token_to_receive_account_pubkey,
            &initializer_token_to_receive_account.key,
        ) {
            return Err(ProcessError::InvalidAccountData);
        }
        if !keys_equal(&record.temp_token_account_pubkey, &temp_token_account.key) {
            return Err(ProcessError::InvalidAccountData);
        }
        let delegate = AuthorityDelegate::derive(program_id)?;
        let mut calls: Vec<TokenCall> = Vec::new();
        calls.push(
            TokenCall::Transfer {
                token_program: token_program.key,
                source: taker_sending_token_account.key,
                destination: initializer_token_to_receive_account.key,
                authority: Authority::Signer(taker.key),
                amount: record.expected_amount,
            },
        );
        calls.push(
            TokenCall::Transfer {
                token_program: token_program.key,
                source: temp_token_account.key,
                destination: taker_token_to_receive_account.key,
                authority: Authority::Delegate(delegate),
                amount: held,
            },
        );
        calls.push(
            TokenCall::CloseAccount {
                token_program: token_program.key,
                account: temp_token_account.key,
                destination: initializer_main_account.key,
                authority: Authority::Delegate(delegate),
            },
        );
        assert(calls@ =~= exchange_calls(accounts@, record, held, delegate));
        Ok(ExchangePlan { calls })
    }

    /// The last step of an Exchange: credits the escrow record account's
    /// lamports to `destination`, then empties the record account's balance
    /// and data, so that the record no longer exists.
    pub fn close_escrow(destination: &mut AccountView, record: &mut AccountView) -> (r: Result<
        (),
        ProcessError,
    >)
        ensures
            match reclaimed(old(destination).lamports, old(record).lamports) {
                Some(total) => r is Ok && *final(destination) == (AccountView {
                    lamports: total,
                    ..*old(destination)
                }) && final(record).lamports == 0 && final(record).data@.len() == 0
                    && final(record).key == old(record).key && final(record).owner == old(
                    record,
                ).owner,
                None => r == Err::<(), ProcessError>(ProcessError::Escrow(EscrowError::AmountOverflow))
                    && *final(destination) == *old(destination) && *final(record) == *old(record),
            },
    {
        let total = match destination.lamports.checked_add(record.lamports) {
            Some(t) => t,
            None => return Err(ProcessError::Escrow(EscrowError::AmountOverflow)),
        };
        destination.lamports = total;
        record.lamports = 0;
        record.data = Vec::new();
        Ok(())
    }
}

/// An Exchange can never run twice: once `close_escrow` has emptied the
/// escrow record account, the record no longer decodes as initialized and
/// every Exchange naming that account fails.
pub proof fn lemma_exchange_not_replayable(program_id: Seq<u8>, a: Seq<AccountView>, amount: u64)
    requires
        a.len() >= 9,
        a[6].data@.len() == 0,
    ensures
        decode_initialized_escrow(a[6].data@) is Err,
        planned_exchange(program_id, a, amount) is Err,
{
}

/// A record written by a successful InitEscrow lets an Exchange go through
/// when the taker signs, names the same initializer, custody and receiving
/// accounts, and quotes the custody balance; the initializer is then paid the
/// amount fixed at InitEscrow, and the taker receives the whole custody balance.
pub proof fn lemma_init_then_exchange(
    program_id: Seq<u8>,
    a: Seq<AccountView>,
    amount: u64,
    b: Seq<AccountView>,
    held: u64,
)
    requires
        planned_init(program_id, a, amount) is Ok,
        b.len() >= 9,
        b[0].is_signer,
        b[3].key == a[1].key,
        b[4].key == a[0].key,
        b[5].key == a[2].key,
        b[6].data@ == escrow_bytes(planned_init(program_id, a, amount)->Ok_0.0),
        decode_token_amount(b[3].data@) == Ok::<u64, ProcessError>(held),
    ensures
        planned_exchange(program_id, b, held) is Ok,
        planned_exchange(program_id, b, held)->Ok_0 == exchange_calls(
            b,
            planned_init(program_id, a, amount)->Ok_0.0,
            held,
            delegate_of(program_id)->Some_0,
        ),
        planned_exchange(program_id, b, held)->Ok_0[0] == (TokenCall::Transfer {
            token_program: b[7].key,
            source: b[1].key,
            destination: a[2].key,
            authority: Authority::Signer(b[0].key),
            amount,
        }),
        planned_exchange(program_id, b, held)->Ok_0[1] == (TokenCall::Transfer {
            token_program: b[7].key,
            source: a[1].key,
            destination: b[2].key,
            authority: Authority::Delegate(delegate_of(program_id)->Some_0),
            amount: held,
        }),
{
    let rec = planned_init(program_id, a, amount)->Ok_0.0;
    lemma_escrow_round_trip(rec);
}

} // verus!
