//! What holds of every step of a settlement.

use vstd::prelude::*;
use crate::address::Address;
use crate::programs::program_address;
use crate::record::decode_record;
use crate::request::TakeOrder;
use crate::settlement::{
    authority_seeds, resumed, started, step_payment, AccountSnapshot, Parties, Pending, Reply,
    SettleError, Settlement, StepView, ACCOUNT_COUNT, ADMIN_AUTHORITY, ORDER_BOOK, TAKER_TOKEN_A,
};

verus! {

/// Whether a step asks for an invocation and then waits on it as `pending`.
pub open spec fn waits_on(step: Result<StepView, SettleError>, pending: Pending) -> bool {
    match step {
        Ok(StepView::Invoke { invocation, then }) => then.pending == pending,
        _ => false,
    }
}

/// A call with fewer than thirteen account references fails with
/// `InsufficientAccounts`, whatever else it carries, and asks for no
/// invocation.
pub proof fn lemma_too_few_accounts(
    program_id: Address,
    accounts: Seq<AccountSnapshot>,
    request: TakeOrder,
)
    requires
        accounts.len() < ACCOUNT_COUNT,
    ensures
        started(program_id, accounts, request) == Err::<StepView, SettleError>(
            SettleError::InsufficientAccounts,
        ),
{
}

/// A call whose order-book account holds a record, but is not at the address
/// that the admin authority's key and the record's bump derive under the
/// program, fails with `MismatchOrderbookKey` and asks for no invocation.
pub proof fn lemma_mismatched_order_book(
    program_id: Address,
    accounts: Seq<AccountSnapshot>,
    request: TakeOrder,
)
    requires
        accounts.len() == ACCOUNT_COUNT,
        decode_record(accounts[ORDER_BOOK as int].data@) is Some,
        program_address(
            authority_seeds(
                accounts[ADMIN_AUTHORITY as int].key,
                decode_record(accounts[ORDER_BOOK as int].data@).unwrap().bump,
            ),
            program_id@,
        ) is Some,
        program_address(
            authority_seeds(
                accounts[ADMIN_AUTHORITY as int].key,
                decode_record(accounts[ORDER_BOOK as int].data@).unwrap().bump,
            ),
            program_id@,
        ) != Some(accounts[ORDER_BOOK as int].key@),
    ensures
        started(program_id, accounts, request) == Err::<StepView, SettleError>(
            SettleError::MismatchOrderbookKey,
        ),
{
}

/// The taker's account for token A is asked for only as the first step of a
/// settlement, and only where it holds no native balance then: a settlement
/// that finds the account in place does not ask for it, and no settlement
/// asks for it after its first step.
pub proof fn lemma_taker_account_only_at_start(
    program_id: Address,
    accounts: Seq<AccountSnapshot>,
    request: TakeOrder,
    settlement: Settlement,
    reply: Reply,
    later: Seq<AccountSnapshot>,
)
    ensures
        waits_on(started(program_id, accounts, request), Pending::TakerAccount)
            ==> accounts[TAKER_TOKEN_A as int].lamports == 0,
        !waits_on(resumed(settlement, reply, later), Pending::TakerAccount),
{
}

/// A settlement succeeds only on the answer that the release was carried
/// out, and the release is asked for only on the answer that the payment was
/// carried out: where either transfer is refused, the settlement fails with
/// the ledger's code.
pub proof fn lemma_success_needs_both_transfers(
    settlement: Settlement,
    reply: Reply,
    accounts: Seq<AccountSnapshot>,
)
    ensures
        resumed(settlement, reply, accounts) == Ok::<StepView, SettleError>(StepView::Settled)
            <==> (settlement.pending == Pending::Release && reply == Reply::Completed),
        waits_on(resumed(settlement, reply, accounts), Pending::Release) ==> (settlement.pending
            == Pending::Payment && reply == Reply::Completed),
        (settlement.pending == Pending::Payment || settlement.pending == Pending::Release)
            ==> forall|code: u64|
            #[trigger] resumed(settlement, Reply::Rejected(code), accounts) == Err::<
                StepView,
                SettleError,
            >(SettleError::TransferFailed(code)),
{
}

/// A request whose amount times price does not fit in 64 bits gets no
/// payment: the step that would ask for it fails with `AmountOverflow`.
pub proof fn lemma_overflow_refused(parties: Parties, bump: u8, request: TakeOrder)
    requires
        request.amount * request.price > u64::MAX,
    ensures
        step_payment(parties, bump, request) == Err::<StepView, SettleError>(
            SettleError::AmountOverflow,
        ),
{
}

} // verus!
