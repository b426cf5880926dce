//! The model of a settlement: the accounts of a call, the steps, and what
//! each step asks the ledger for.

use vstd::prelude::*;
use crate::address::{Address, TOKEN_PROGRAM_ID};
use crate::instruction::{Instruction, InstructionView};
use crate::programs::{
    associated_address, create_account_instruction, program_address, transfer_instruction,
    INCORRECT_PROGRAM_ID, INVALID_SEEDS,
};
use crate::record::decode_record;
use crate::request::{payment_due, TakeOrder};

verus! {

/// Number of account references that a settlement is called with.
pub const ACCOUNT_COUNT: usize = 13;

/// Slot of the creator of the order.
pub const CREATOR: usize = 0;

/// Slot of the taker of the order.
pub const TAKER: usize = 1;

/// Slot of the order-book record.
pub const ORDER_BOOK: usize = 2;

/// Slot of the admin authority, whose key is a seed of the order book's address.
pub const ADMIN_AUTHORITY: usize = 3;

/// Slot of the mint of token A, which the taker receives.
pub const MINT_A: usize = 4;

/// Slot of the mint of token B, which the taker pays with.
pub const MINT_B: usize = 5;

/// Slot of the creator's account for token B.
pub const CREATOR_TOKEN_B: usize = 6;

/// Slot of the taker's account for token A.
pub const TAKER_TOKEN_A: usize = 7;

/// Slot of the taker's account for token B.
pub const TAKER_TOKEN_B: usize = 8;

/// Slot of the vault that holds the creator's token A in escrow.
pub const VAULT: usize = 9;

/// Slot of the token program.
pub const TOKEN_PROGRAM: usize = 10;

/// Slot of the program that provisions token accounts.
pub const ASSOCIATED_TOKEN_PROGRAM: usize = 11;

/// Slot of the system program.
pub const SYSTEM_PROGRAM: usize = 12;

/// Label that starts the seeds of every order book's address.
pub const ORDER_BOOK_SEED: [u8; 14] = [
    98, 116, 99, 95, 111, 114, 100, 101, 114, 95, 98, 111, 111, 107,
];

/// Units of token A that one settlement releases from the vault: one lot,
/// whatever the amount and the price of the request.
pub const RELEASED_UNITS: u64 = 1;

/// What a settlement reads of one account reference: its address, its native
/// balance and its storage.
#[derive(Clone, Debug, PartialEq, Eq)]
pub struct AccountSnapshot {
    pub key: Address,
    pub lamports: u64,
    pub data: Vec<u8>,
}

/// Why a settlement failed.
#[derive(Clone, Copy, Debug, PartialEq, Eq, Structural)]
pub enum SettleError {
    /// The call does not carry exactly the thirteen account references.
    InsufficientAccounts,
    /// The storage of the order-book account holds no record.
    MalformedRecord,
    /// The admin authority and the record's bump derive no address.
    InvalidSeeds,
    /// The order-book account is not at the address that the admin authority
    /// and the record's bump derive.
    MismatchOrderbookKey,
    /// A token account could not be created; the code says why.
    ProvisioningFailed(u64),
    /// What the taker owes does not fit in 64 bits.
    AmountOverflow,
    /// A transfer was refused; the code says why.
    TransferFailed(u64),
}

/// How the ledger answered an invocation.
#[derive(Clone, Copy, Debug, PartialEq, Eq, Structural)]
pub enum Reply {
    /// The invocation was carried out.
    Completed,
    /// The invocation was refused, with the ledger's code.
    Rejected(u64),
}

/// The invocation that a settlement is waiting on.
#[derive(Clone, Copy, Debug, PartialEq, Eq, Structural)]
pub enum Pending {
    /// Creation of the taker's account for token A.
    TakerAccount,
    /// Creation of the creator's account for token B.
    CreatorAccount,
    /// The payment from the taker to the creator.
    Payment,
    /// The release from the vault to the taker.
    Release,
}

/// The addresses that take part in a settlement.
#[derive(Clone, Copy, Debug, PartialEq, Eq)]
pub struct Parties {
    pub creator: Address,
    pub taker: Address,
    pub order_book: Address,
    pub admin_authority: Address,
    pub mint_a: Address,
    pub mint_b: Address,
    pub creator_token_b: Address,
    pub taker_token_a: Address,
    pub taker_token_b: Address,
    pub vault: Address,
    pub token_program: Address,
}

/// A settlement under way: an authenticated order book, the request, and the
/// invocation whose answer it is waiting on.
#[derive(Clone, Copy, Debug, PartialEq, Eq)]
pub struct Settlement {
    pub parties: Parties,
    pub bump: u8,
    pub request: TakeOrder,
    pub pending: Pending,
}

/// Proof that the program itself is the authority behind an order book's
/// address: the seeds that derive the address, which stand in for a signature.
#[derive(Clone, Copy, Debug, PartialEq, Eq)]
pub struct AuthorityProof {
    pub authority: Address,
    pub bump: u8,
}

/// One call into another program: the instruction, the slots of the account
/// references to hand over with it, in order, and the proof of authority to
/// sign it with, if the program signs it.
#[derive(Clone, Debug, PartialEq, Eq)]
pub struct Invocation {
    pub instruction: Instruction,
    pub accounts: Vec<usize>,
    pub signer: Option<AuthorityProof>,
}

/// What an invocation holds.
pub struct InvocationView {
    pub instruction: InstructionView,
    pub accounts: Seq<usize>,
    pub signer: Option<AuthorityProof>,
}

impl View for Invocation {
    type V = InvocationView;

    open spec fn view(&self) -> InvocationView {
        InvocationView {
            instruction: self.instruction@,
            accounts: self.accounts@,
            signer: self.signer,
        }
    }
}

/// What a settlement asks for next.
#[derive(Clone, Debug, PartialEq, Eq)]
pub enum Step {
    /// Make the invocation, then resume the settlement with the answer.
    Invoke { invocation: Invocation, then: Settlement },
    /// Nothing more: the order is settled.
    Settled,
}

/// What a step holds.
pub enum StepView {
    Invoke { invocation: InvocationView, then: Settlement },
    Settled,
}

impl View for Step {
    type V = StepView;

    open spec fn view(&self) -> StepView {
        match *self {
            Step::Invoke { invocation, then } => StepView::Invoke { invocation: invocation@, then },
            Step::Settled => StepView::Settled,
        }
    }
}

/// What the result of a step holds.
pub open spec fn outcome(result: Result<Step, SettleError>) -> Result<StepView, SettleError> {
    match result {
        Ok(step) => Ok(step@),
        Err(e) => Err(e),
    }
}

/// The seeds of an order book's address: the label, the admin authority's
/// key, and the bump.
pub open spec fn authority_seeds(authority: Address, bump: u8) -> Seq<Seq<u8>> {
    seq![ORDER_BOOK_SEED@, authority@, seq![bump]]
}

/// The parties named by thirteen account references.
pub open spec fn parties_of(accounts: Seq<AccountSnapshot>) -> Parties
    recommends
        accounts.len() == ACCOUNT_COUNT,
{
    Parties {
        creator: accounts[CREATOR as int].key,
        taker: accounts[TAKER as int].key,
        order_book: accounts[ORDER_BOOK as int].key,
        admin_authority: accounts[ADMIN_AUTHORITY as int].key,
        mint_a: accounts[MINT_A as int].key,
        mint_b: accounts[MINT_B as int].key,
        creator_token_b: accounts[CREATOR_TOKEN_B as int].key,
        taker_token_a: accounts[TAKER_TOKEN_A as int].key,
        taker_token_b: accounts[TAKER_TOKEN_B as int].key,
        vault: accounts[VAULT as int].key,
        token_program: accounts[TOKEN_PROGRAM as int].key,
    }
}

/// The bump of the authenticated order book, or why the call is turned away
/// before anything is invoked: the number of account references decides
/// first, then the record, then the address that the admin authority's key
/// and the record's bump derive under the program.
pub open spec fn authenticated(program_id: Address, accounts: Seq<AccountSnapshot>) -> Result<
    u8,
    SettleError,
> {
    if accounts.len() != ACCOUNT_COUNT {
        Err(SettleError::InsufficientAccounts)
    } else {
        match decode_record(accounts[ORDER_BOOK as int].data@) {
            None => Err(SettleError::MalformedRecord),
            Some(record) => match program_address(
                authority_seeds(accounts[ADMIN_AUTHORITY as int].key, record.bump),
                program_id@,
            ) {
                None => Err(SettleError::InvalidSeeds),
                Some(derived) => if derived == accounts[ORDER_BOOK as int].key@ {
                    Ok(record.bump)
                } else {
                    Err(SettleError::MismatchOrderbookKey)
                },
            },
        }
    }
}

/// The invocation that creates the taker's account for token A: paid for and
/// owned by the taker.
pub open spec fn taker_account_invocation(p: Parties) -> Result<InvocationView, SettleError> {
    match associated_address(p.taker, p.mint_a, p.token_program) {
        Some(associated) => Ok(
            InvocationView {
                instruction: create_account_instruction(
                    p.taker,
                    associated,
                    p.taker,
                    p.mint_a,
                    p.token_program,
                ),
                accounts: seq![
                    TAKER_TOKEN_A,
                    TAKER,
                    MINT_A,
                    SYSTEM_PROGRAM,
                    TOKEN_PROGRAM,
                    ASSOCIATED_TOKEN_PROGRAM,
                ],
                signer: None,
            },
        ),
        None => Err(SettleError::ProvisioningFailed(INVALID_SEEDS)),
    }
}

/// The invocation that creates the creator's account for token B: paid for
/// by the taker, owned by the creator.
pub open spec fn creator_account_invocation(p: Parties) -> Result<InvocationView, SettleError> {
    match associated_address(p.creator, p.mint_b, p.token_program) {
        Some(associated) => Ok(
            InvocationView {
                instruction: create_account_instruction(
                    p.taker,
                    associated,
                    p.creator,
                    p.mint_b,
                    p.token_program,
                ),
                accounts: seq![
                    MINT_B,
                    TAKER,
                    CREATOR_TOKEN_B,
                    CREATOR,
                    SYSTEM_PROGRAM,
                    TOKEN_PROGRAM,
                    ASSOCIATED_TOKEN_PROGRAM,
                ],
                signer: None,
            },
        ),
        None => Err(SettleError::ProvisioningFailed(INVALID_SEEDS)),
    }
}

/// The invocation that pays the creator: `amount * price` units of token B
/// from the taker's account to the creator's, signed by the taker.
pub open spec fn payment_invocation(p: Parties, request: TakeOrder) -> Result<
    InvocationView,
    SettleError,
> {
    match payment_due(request) {
        None => Err(SettleError::AmountOverflow),
        Some(due) => if p.token_program.bytes == TOKEN_PROGRAM_ID {
            Ok(
                InvocationView {
                    instruction: transfer_instruction(
                        p.token_program,
                        p.taker_token_b,
                        p.creator_token_b,
                        p.taker,
                        seq![p.taker],
                        due,
                    ),
                    accounts: seq![TAKER, TAKER_TOKEN_B, CREATOR_TOKEN_B, TOKEN_PROGRAM],
                    signer: None,
                },
            )
        } else {
            Err(SettleError::TransferFailed(INCORRECT_PROGRAM_ID))
        },
    }
}

/// The invocation that releases the escrow: one unit of token A from the
/// vault to the taker's account, on the order book's authority, which the
/// program proves with the seeds of the order book's address.
pub open spec fn release_invocation(p: Parties, bump: u8) -> Result<InvocationView, SettleError> {
    if p.token_program.bytes == TOKEN_PROGRAM_ID {
        Ok(
            InvocationView {
                instruction: transfer_instruction(
                    p.token_program,
                    p.vault,
                    p.taker_token_a,
                    p.order_book,
                    Seq::empty(),
                    RELEASED_UNITS,
                ),
                accounts: seq![
                    MINT_A,
                    VAULT,
                    TAKER_TOKEN_A,
                    ADMIN_AUTHORITY,
                    ORDER_BOOK,
                    TAKER,
                    TOKEN_PROGRAM,
                ],
                signer: Some(AuthorityProof { authority: p.admin_authority, bump }),
            },
        )
    } else {
        Err(SettleError::TransferFailed(INCORRECT_PROGRAM_ID))
    }
}

/// The step that asks for `invocation` and then waits on it as `pending`.
pub open spec fn invoke(
    invocation: Result<InvocationView, SettleError>,
    parties: Parties,
    bump: u8,
    request: TakeOrder,
    pending: Pending,
) -> Result<StepView, SettleError> {
    match invocation {
        Ok(invocation) => Ok(
            StepView::Invoke { invocation, then: Settlement { parties, bump, request, pending } },
        ),
        Err(e) => Err(e),
    }
}

/// The step once both token accounts are there: the payment.
pub open spec fn step_payment(parties: Parties, bump: u8, request: TakeOrder) -> Result<
    StepView,
    SettleError,
> {
    invoke(payment_invocation(parties, request), parties, bump, request, Pending::Payment)
}

/// The step once the payment is made: the release.
pub open spec fn step_release(parties: Parties, bump: u8, request: TakeOrder) -> Result<
    StepView,
    SettleError,
> {
    invoke(release_invocation(parties, bump), parties, bump, request, Pending::Release)
}

/// The step once the taker's account for token A is there: the creator's
/// account for token B is created if it holds no native balance, which is
/// how an account that does not exist yet shows; otherwise the payment
/// follows.
pub open spec fn step_creator_account(
    parties: Parties,
    bump: u8,
    request: TakeOrder,
    creator_lamports: u64,
) -> Result<StepView, SettleError> {
    if creator_lamports == 0 {
        invoke(creator_account_invocation(parties), parties, bump, request, Pending::CreatorAccount)
    } else {
        step_payment(parties, bump, request)
    }
}

/// The first step of an authenticated settlement: the taker's account for
/// token A is created if it holds no native balance; otherwise the creator's
/// account is looked at.
pub open spec fn step_taker_account(
    parties: Parties,
    bump: u8,
    request: TakeOrder,
    taker_lamports: u64,
    creator_lamports: u64,
) -> Result<StepView, SettleError> {
    if taker_lamports == 0 {
        invoke(taker_account_invocation(parties), parties, bump, request, Pending::TakerAccount)
    } else {
        step_creator_account(parties, bump, request, creator_lamports)
    }
}

/// What a settlement starts with, for a program, the account references as
/// they stand before the call, and a request.
pub open spec fn started(
    program_id: Address,
    accounts: Seq<AccountSnapshot>,
    request: TakeOrder,
) -> Result<StepView, SettleError> {
    match authenticated(program_id, accounts) {
        Err(e) => Err(e),
        Ok(bump) => step_taker_account(
            parties_of(accounts),
            bump,
            request,
            accounts[TAKER_TOKEN_A as int].lamports,
            accounts[CREATOR_TOKEN_B as int].lamports,
        ),
    }
}

/// The error that a refused invocation ends the settlement with: the
/// ledger's code, marked by which kind of invocation was refused.
pub open spec fn refused(pending: Pending, code: u64) -> SettleError {
    match pending {
        Pending::TakerAccount | Pending::CreatorAccount => SettleError::ProvisioningFailed(code),
        Pending::Payment | Pending::Release => SettleError::TransferFailed(code),
    }
}

/// How a settlement goes on once the ledger has answered the invocation it
/// was waiting on, given the account references as they stand after it.
pub open spec fn resumed(
    settlement: Settlement,
    reply: Reply,
    accounts: Seq<AccountSnapshot>,
) -> Result<StepView, SettleError> {
    match reply {
        Reply::Rejected(code) => Err(refused(settlement.pending, code)),
        Reply::Completed => match settlement.pending {
            Pending::TakerAccount => if accounts.len() != ACCOUNT_COUNT {
                Err(SettleError::InsufficientAccounts)
            } else {
                step_creator_account(
                    settlement.parties,
                    settlement.bump,
                    settlement.request,
                    accounts[CREATOR_TOKEN_B as int].lamports,
                )
            },
            Pending::CreatorAccount => step_payment(
                settlement.parties,
                settlement.bump,
                settlement.request,
            ),
            Pending::Payment => step_release(
                settlement.parties,
                settlement.bump,
                settlement.request,
            ),
            Pending::Release => Ok(StepView::Settled),
        },
    }
}

} // verus!
