//! Whole settlements: what a settlement asks for, and how it ends, over all
//! the answers that the ledger can give.

use vstd::prelude::*;
use crate::address::{Address, ASSOCIATED_TOKEN_PROGRAM_ID, TOKEN_PROGRAM_ID};
use crate::balance::{change, is_transfer, lemma_settlement_conserves, movement, total_change};
use crate::request::TakeOrder;
use crate::settlement::{
    authenticated, creator_account_invocation, parties_of, payment_invocation,
    release_invocation, resumed, started, taker_account_invocation, AccountSnapshot,
    InvocationView, Reply, SettleError, StepView, TAKER_TOKEN_A,
};

verus! {

/// One answer of the ledger to an invocation, with the account references as
/// they stand after it.
pub struct Answer {
    pub reply: Reply,
    pub accounts: Seq<AccountSnapshot>,
}

/// The invocations that a settlement asks for from `step` on, one after the
/// other, while the ledger gives `answers` in turn.
pub open spec fn asked(step: Result<StepView, SettleError>, answers: Seq<Answer>) -> Seq<
    InvocationView,
>
    decreases answers.len(),
{
    match step {
        Ok(StepView::Invoke { invocation, then }) => if answers.len() == 0 {
            seq![invocation]
        } else {
            seq![invocation] + asked(
                resumed(then, answers[0].reply, answers[0].accounts),
                answers.skip(1),
            )
        },
        _ => Seq::empty(),
    }
}

/// How a settlement ends from `step` on while the ledger gives `answers` in
/// turn; `None` while it still waits on an answer.
pub open spec fn ended(step: Result<StepView, SettleError>, answers: Seq<Answer>) -> Option<
    Result<(), SettleError>,
>
    decreases answers.len(),
{
    match step {
        Err(e) => Some(Err(e)),
        Ok(StepView::Settled) => Some(Ok(())),
        Ok(StepView::Invoke { invocation, then }) => if answers.len() == 0 {
            None
        } else {
            ended(resumed(then, answers[0].reply, answers[0].accounts), answers.skip(1))
        },
    }
}

/// A call that is turned away, be it for the number of its account
/// references, for its record or for the address of its order book, ends at
/// once with that error: it asks for no invocation, and so changes no
/// balance.
pub proof fn lemma_turned_away_changes_nothing(
    program_id: Address,
    accounts: Seq<AccountSnapshot>,
    request: TakeOrder,
    answers: Seq<Answer>,
    account: Address,
)
    requires
        authenticated(program_id, accounts) is Err,
    ensures
        asked(started(program_id, accounts, request), answers) =~= Seq::<InvocationView>::empty(),
        ended(started(program_id, accounts, request), answers) matches Some(Err(e)) && Err::<
            u8,
            SettleError,
        >(e) == authenticated(program_id, accounts),
        total_change(asked(started(program_id, accounts, request), answers), account) == 0,
{
}

/// A settlement asks for at most four invocations, whatever the ledger
/// answers.
pub proof fn lemma_at_most_four_invocations(
    program_id: Address,
    accounts: Seq<AccountSnapshot>,
    request: TakeOrder,
    answers: Seq<Answer>,
)
    ensures
        asked(started(program_id, accounts, request), answers).len() <= 4,
{
    reveal_with_fuel(asked, 5);
}

/// A settlement that succeeds has asked, last of all, for the payment and
/// then for the release, each exactly as the request and the parties
/// determine it; before them it has asked for nothing but token accounts;
/// and the ledger has carried out every invocation that it asked for.
pub proof fn lemma_success_means_paid_and_released(
    program_id: Address,
    accounts: Seq<AccountSnapshot>,
    request: TakeOrder,
    answers: Seq<Answer>,
)
    requires
        ended(started(program_id, accounts, request), answers) == Some(
            Ok::<(), SettleError>(()),
        ),
    ensures
        authenticated(program_id, accounts) is Ok,
        ({
            let parties = parties_of(accounts);
            let bump = authenticated(program_id, accounts).unwrap();
            let all = asked(started(program_id, accounts, request), answers);
            let n = all.len() as int;
            &&& 2 <= n <= 4
            &&& n <= answers.len()
            &&& Ok::<InvocationView, SettleError>(all[n - 2]) == payment_invocation(
                parties,
                request,
            )
            &&& Ok::<InvocationView, SettleError>(all[n - 1]) == release_invocation(parties, bump)
            &&& forall|i: int| 0 <= i < n ==> (#[trigger] answers[i]).reply == Reply::Completed
            &&& forall|i: int|
                0 <= i < n - 2 ==> {
                    ||| Ok::<InvocationView, SettleError>(#[trigger] all[i])
                        == taker_account_invocation(parties)
                    ||| Ok::<InvocationView, SettleError>(all[i]) == creator_account_invocation(
                        parties,
                    )
                }
        }),
{
    reveal_with_fuel(asked, 5);
    reveal_with_fuel(ended, 5);
}

/// Within one settlement the taker's account for token A is asked for at
/// most once: only as the very first invocation, and only where the account
/// holds no native balance when the settlement starts. A settlement that
/// finds the account in place never asks for it.
pub proof fn lemma_taker_account_asked_at_most_once(
    program_id: Address,
    accounts: Seq<AccountSnapshot>,
    request: TakeOrder,
    answers: Seq<Answer>,
)
    ensures
        ({
            let all = asked(started(program_id, accounts, request), answers);
            let creation = taker_account_invocation(parties_of(accounts));
            forall|i: int|
                0 <= i < all.len() && Ok::<InvocationView, SettleError>(#[trigger] all[i])
                    == creation ==> i == 0 && accounts[TAKER_TOKEN_A as int].lamports == 0
        }),
{
    reveal_with_fuel(asked, 5);
}

/// Of two settlements in sequence for the same taker and token A, at most
/// one has the taker's account created, and that one has it created once:
/// where the account holds a native balance when the second settlement
/// starts, as it does once the first has had it created or has found it in
/// place, the second asks for no invocation that creates it.
pub proof fn lemma_provisioning_idempotent(
    program_id: Address,
    first: Seq<AccountSnapshot>,
    first_request: TakeOrder,
    first_answers: Seq<Answer>,
    second: Seq<AccountSnapshot>,
    second_request: TakeOrder,
    second_answers: Seq<Answer>,
)
    requires
        second.len() > TAKER_TOKEN_A ==> second[TAKER_TOKEN_A as int].lamports != 0,
    ensures
        ({
            let all = asked(started(program_id, first, first_request), first_answers);
            let creation = taker_account_invocation(parties_of(first));
            forall|i: int, j: int|
                0 <= i < all.len() && 0 <= j < all.len() && Ok::<InvocationView, SettleError>(
                    #[trigger] all[i],
                ) == creation && Ok::<InvocationView, SettleError>(#[trigger] all[j]) == creation
                    ==> i == j
        }),
        ({
            let all = asked(started(program_id, second, second_request), second_answers);
            let creation = taker_account_invocation(parties_of(second));
            forall|i: int|
                0 <= i < all.len() ==> Ok::<InvocationView, SettleError>(#[trigger] all[i])
                    != creation
        }),
{
    lemma_taker_account_asked_at_most_once(program_id, first, first_request, first_answers);
    lemma_taker_account_asked_at_most_once(program_id, second, second_request, second_answers);
    reveal_with_fuel(asked, 2);
}

/// A request whose amount times price does not fit in 64 bits never
/// succeeds, and no transfer is asked for on its behalf: whatever the ledger
/// answers, the settlement asks for token accounts at most.
pub proof fn lemma_overflow_never_settles(
    program_id: Address,
    accounts: Seq<AccountSnapshot>,
    request: TakeOrder,
    answers: Seq<Answer>,
)
    requires
        request.amount * request.price > u64::MAX,
    ensures
        ended(started(program_id, accounts, request), answers) != Some(Ok::<(), SettleError>(())),
        ({
            let all = asked(started(program_id, accounts, request), answers);
            let parties = parties_of(accounts);
            &&& all.len() <= 2
            &&& forall|i: int|
                0 <= i < all.len() ==> {
                    ||| Ok::<InvocationView, SettleError>(#[trigger] all[i])
                        == taker_account_invocation(parties)
                    ||| Ok::<InvocationView, SettleError>(all[i]) == creator_account_invocation(
                        parties,
                    )
                }
        }),
{
    reveal_with_fuel(asked, 5);
    reveal_with_fuel(ended, 5);
}

/// After a settlement that succeeds, the transfers that it asked for have
/// taken exactly `amount * price` units from the taker's account for token B
/// and added as many to the creator's, and have taken exactly one unit from
/// the vault and added it to the taker's account for token A, where these
/// four are four different accounts.
pub proof fn lemma_success_conserves(
    program_id: Address,
    accounts: Seq<AccountSnapshot>,
    request: TakeOrder,
    answers: Seq<Answer>,
)
    requires
        ended(started(program_id, accounts, request), answers) == Some(
            Ok::<(), SettleError>(()),
        ),
        parties_of(accounts).taker_token_b != parties_of(accounts).creator_token_b,
        parties_of(accounts).taker_token_b != parties_of(accounts).vault,
        parties_of(accounts).taker_token_b != parties_of(accounts).taker_token_a,
        parties_of(accounts).creator_token_b != parties_of(accounts).vault,
        parties_of(accounts).creator_token_b != parties_of(accounts).taker_token_a,
        parties_of(accounts).vault != parties_of(accounts).taker_token_a,
    ensures
        ({
            let parties = parties_of(accounts);
            let all = asked(started(program_id, accounts, request), answers);
            &&& request.amount * request.price <= u64::MAX
            &&& total_change(all, parties.taker_token_b) == -(request.amount * request.price)
            &&& total_change(all, parties.creator_token_b) == request.amount * request.price
            &&& total_change(all, parties.vault) == -1
            &&& total_change(all, parties.taker_token_a) == 1
        }),
{
    let parties = parties_of(accounts);
    let bump = authenticated(program_id, accounts).unwrap();
    let all = asked(started(program_id, accounts, request), answers);
    let n = all.len() as int;
    lemma_success_means_paid_and_released(program_id, accounts, request, answers);
    lemma_settlement_conserves(parties, bump, request);
    assert(ASSOCIATED_TOKEN_PROGRAM_ID[0] != TOKEN_PROGRAM_ID[0]);
    assert forall|i: int| 0 <= i < n - 2 implies !is_transfer(#[trigger] all[i].instruction) by {}
    assert(is_transfer(all[n - 2].instruction));
    assert(is_transfer(all[n - 1].instruction));
    lemma_last_two_transfers(all, parties.taker_token_b);
    lemma_last_two_transfers(all, parties.creator_token_b);
    lemma_last_two_transfers(all, parties.vault);
    lemma_last_two_transfers(all, parties.taker_token_a);
}

/// Where the last two invocations are the only transfers, they alone change
/// a balance.
proof fn lemma_last_two_transfers(invocations: Seq<InvocationView>, account: Address)
    requires
        invocations.len() >= 2,
        is_transfer(invocations[invocations.len() - 2].instruction),
        is_transfer(invocations[invocations.len() - 1].instruction),
        forall|i: int|
            0 <= i < invocations.len() - 2 ==> !is_transfer(#[trigger] invocations[i].instruction),
    ensures
        total_change(invocations, account) == change(
            movement(invocations[invocations.len() - 2].instruction),
            account,
        ) + change(movement(invocations[invocations.len() - 1].instruction), account),
{
    let rest = invocations.drop_last();
    let head = rest.drop_last();
    assert(rest.last() == invocations[invocations.len() - 2]);
    assert(total_change(invocations, account) == total_change(rest, account) + change(
        movement(invocations.last().instruction),
        account,
    ));
    assert(total_change(rest, account) == total_change(head, account) + change(
        movement(rest.last().instruction),
        account,
    ));
    lemma_accounts_move_nothing(head, account);
}

/// Invocations among which there is no transfer change no balance.
proof fn lemma_accounts_move_nothing(invocations: Seq<InvocationView>, account: Address)
    requires
        forall|i: int|
            0 <= i < invocations.len() ==> !is_transfer(#[trigger] invocations[i].instruction),
    ensures
        total_change(invocations, account) == 0,
    decreases invocations.len(),
{
    if invocations.len() > 0 {
        lemma_accounts_move_nothing(invocations.drop_last(), account);
    }
}

} // verus!
