//! The steps of a settlement, executable.

use vstd::prelude::*;
use vstd::array::array_as_slice;
use vstd::slice::slice_to_vec;
use crate::address::{Address, ASSOCIATED_TOKEN_PROGRAM_ID};
use crate::instruction::Instruction;
use crate::programs::{
    associated_address, create_account_instruction, create_associated_token_account,
    create_program_address, program_address, transfer, try_find_program_address, INVALID_SEEDS,
};
use crate::record::OrderBook;
use crate::request::TakeOrder;
use crate::settlement::{
    authenticated, authority_seeds, creator_account_invocation, invoke, outcome, parties_of,
    refused, resumed, started, step_creator_account, step_payment, step_release,
    taker_account_invocation, AccountSnapshot, AuthorityProof, Invocation, Parties, Pending,
    Reply, SettleError, Settlement, Step, ACCOUNT_COUNT, ADMIN_AUTHORITY,
    ASSOCIATED_TOKEN_PROGRAM, CREATOR, CREATOR_TOKEN_B, MINT_A, MINT_B, ORDER_BOOK,
    ORDER_BOOK_SEED, RELEASED_UNITS, SYSTEM_PROGRAM, TAKER, TAKER_TOKEN_A, TAKER_TOKEN_B,
    TOKEN_PROGRAM, VAULT,
};

verus! {

/// Derives the address of the order book that `authority` administers with
/// `bump` under the program, if the seeds derive one.
pub fn derive_address(
    authority: &Address,
    bump: u8,
    program_id: &Address,
) -> (derived: Option<Address>)
    ensures
        match derived {
            Some(a) => program_address(authority_seeds(*authority, bump), program_id@) == Some(a@),
            None => program_address(authority_seeds(*authority, bump), program_id@).is_none(),
        },
{
    let bump_seed: [u8; 1] = [bump];
    assert(bump_seed@ =~= seq![bump]);
    create_program_address(
        array_as_slice(&ORDER_BOOK_SEED),
        authority.as_slice(),
        array_as_slice(&bump_seed),
        program_id,
    )
}

/// The proof of authority over the order book that `authority` administers
/// with `bump`.
pub fn prove_authority(authority: &Address, bump: u8) -> (proof: AuthorityProof)
    ensures
        proof == (AuthorityProof { authority: *authority, bump }),
{
    AuthorityProof { authority: *authority, bump }
}

impl AuthorityProof {
    /// The seeds that the proof presents in place of a signature: the label,
    /// the admin authority's key, and the bump.
    pub fn seeds(&self) -> (seeds: Vec<Vec<u8>>)
        ensures
            seeds@.len() == 3,
            seeds@[0]@ == ORDER_BOOK_SEED@,
            seeds@[1]@ == self.authority@,
            seeds@[2]@ == seq![self.bump],
            Seq::new(3, |i: int| seeds@[i]@) == authority_seeds(self.authority, self.bump),
    {
        let label = slice_to_vec(array_as_slice(&ORDER_BOOK_SEED));
        let key = slice_to_vec(self.authority.as_slice());
        let bump = vec![self.bump];
        assert(bump@ =~= seq![self.bump]);
        let seeds = vec![label, key, bump];
        assert(seeds@[0]@ == ORDER_BOOK_SEED@);
        assert(seeds@[1]@ == self.authority@);
        assert(seeds@[2]@ == seq![self.bump]);
        assert(Seq::new(3, |i: int| seeds@[i]@) =~= authority_seeds(self.authority, self.bump));
        seeds
    }
}

/// Builds the instruction that creates the token account of `wallet` for
/// `mint`, paid for by `funding`, at the address that the provisioner keeps
/// it at; `None` where no such address exists.
pub fn create_account(
    funding: &Address,
    wallet: &Address,
    mint: &Address,
    token_program: &Address,
) -> (built: Option<Instruction>)
    ensures
        match built {
            Some(ix) => associated_address(*wallet, *mint, *token_program) is Some && ix@
                == create_account_instruction(
                *funding,
                associated_address(*wallet, *mint, *token_program).unwrap(),
                *wallet,
                *mint,
                *token_program,
            ),
            None => associated_address(*wallet, *mint, *token_program).is_none(),
        },
{
    let provisioner = Address::new(ASSOCIATED_TOKEN_PROGRAM_ID);
    let found = try_find_program_address(
        wallet.as_slice(),
        token_program.as_slice(),
        mint.as_slice(),
        &provisioner,
    );
    match found {
        Some(_) => Some(create_associated_token_account(funding, wallet, mint, token_program)),
        None => None,
    }
}

/// Reads the parties off thirteen account references.
fn read_parties(accounts: &[AccountSnapshot]) -> (parties: Parties)
    requires
        accounts@.len() == ACCOUNT_COUNT,
    ensures
        parties == parties_of(accounts@),
{
    Parties {
        creator: accounts[CREATOR].key,
        taker: accounts[TAKER].key,
        order_book: accounts[ORDER_BOOK].key,
        admin_authority: accounts[ADMIN_AUTHORITY].key,
        mint_a: accounts[MINT_A].key,
        mint_b: accounts[MINT_B].key,
        creator_token_b: accounts[CREATOR_TOKEN_B].key,
        taker_token_a: accounts[TAKER_TOKEN_A].key,
        taker_token_b: accounts[TAKER_TOKEN_B].key,
        vault: accounts[VAULT].key,
        token_program: accounts[TOKEN_PROGRAM].key,
    }
}

/// Authenticates the order book among the account references.
fn authenticate(
    program_id: &Address,
    accounts: &[AccountSnapshot],
) -> (bump: Result<u8, SettleError>)
    ensures
        bump == authenticated(*program_id, accounts@),
{
    if accounts.len() != ACCOUNT_COUNT {
        return Err(SettleError::InsufficientAccounts);
    }
    let record = match OrderBook::try_from_slice(accounts[ORDER_BOOK].data.as_slice()) {
        Some(record) => record,
        None => {
            return Err(SettleError::MalformedRecord);
        },
    };
    match derive_address(&accounts[ADMIN_AUTHORITY].key, record.bump, program_id) {
        None => Err(SettleError::InvalidSeeds),
        Some(derived) => {
            proof {
                derived.lemma_view_injective(accounts@[ORDER_BOOK as int].key);
            }
            if derived == accounts[ORDER_BOOK].key {
                Ok(record.bump)
            } else {
                Err(SettleError::MismatchOrderbookKey)
            }
        },
    }
}

impl Settlement {
    /// Asks for the taker's account for token A.
    fn request_taker_account(
        parties: Parties,
        bump: u8,
        request: TakeOrder,
    ) -> (step: Result<Step, SettleError>)
        ensures
            outcome(step) == invoke(
                taker_account_invocation(parties),
                parties,
                bump,
                request,
                Pending::TakerAccount,
            ),
    {
        match create_account(
            &parties.taker,
            &parties.taker,
            &parties.mint_a,
            &parties.token_program,
        ) {
            None => Err(SettleError::ProvisioningFailed(INVALID_SEEDS)),
            Some(instruction) => {
                let accounts = vec![
                    TAKER_TOKEN_A,
                    TAKER,
                    MINT_A,
                    SYSTEM_PROGRAM,
                    TOKEN_PROGRAM,
                    ASSOCIATED_TOKEN_PROGRAM,
                ];
                Ok(
                    Step::Invoke {
                        invocation: Invocation { instruction, accounts, signer: None },
                        then: Settlement { parties, bump, request, pending: Pending::TakerAccount },
                    },
                )
            },
        }
    }

    /// Asks for the creator's account for token B.
    fn request_creator_account(
        parties: Parties,
        bump: u8,
        request: TakeOrder,
    ) -> (step: Result<Step, SettleError>)
        ensures
            outcome(step) == invoke(
                creator_account_invocation(parties),
                parties,
                bump,
                request,
                Pending::CreatorAccount,
            ),
    {
        match create_account(
            &parties.taker,
            &parties.creator,
            &parties.mint_b,
            &parties.token_program,
        ) {
            None => Err(SettleError::ProvisioningFailed(INVALID_SEEDS)),
            Some(instruction) => {
                let accounts = vec![
                    MINT_B,
                    TAKER,
                    CREATOR_TOKEN_B,
                    CREATOR,
                    SYSTEM_PROGRAM,
                    TOKEN_PROGRAM,
                    ASSOCIATED_TOKEN_PROGRAM,
                ];
                Ok(
                    Step::Invoke {
                        invocation: Invocation { instruction, accounts, signer: None },
                        then: Settlement {
                            parties,
                            bump,
                            request,
                            pending: Pending::CreatorAccount,
                        },
                    },
                )
            },
        }
    }

    /// Asks for the payment from the taker to the creator.
    fn request_payment(
        parties: Parties,
        bump: u8,
        request: TakeOrder,
    ) -> (step: Result<Step, SettleError>)
        ensures
            outcome(step) == step_payment(parties, bump, request),
    {
        let due = match request.payment() {
            Some(due) => due,
            None => {
                return Err(SettleError::AmountOverflow);
            },
        };
        let signers = vec![parties.taker];
        assert(signers@ =~= seq![parties.taker]);
        match transfer(
            &parties.token_program,
            &parties.taker_token_b,
            &parties.creator_token_b,
            &parties.taker,
            &signers,
            due,
        ) {
            Err(code) => Err(SettleError::TransferFailed(code)),
            Ok(instruction) => {
                let accounts = vec![TAKER, TAKER_TOKEN_B, CREATOR_TOKEN_B, TOKEN_PROGRAM];
                Ok(
                    Step::Invoke {
                        invocation: Invocation { instruction, accounts, signer: None },
                        then: Settlement { parties, bump, request, pending: Pending::Payment },
                    },
                )
            },
        }
    }

    /// Asks for the release from the vault to the taker.
    fn request_release(
        parties: Parties,
        bump: u8,
        request: TakeOrder,
    ) -> (step: Result<Step, SettleError>)
        ensures
            outcome(step) == step_release(parties, bump, request),
    {
        let signers: Vec<Address> = Vec::new();
        match transfer(
            &parties.token_program,
            &parties.vault,
            &parties.taker_token_a,
            &parties.order_book,
            &signers,
            RELEASED_UNITS,
        ) {
            Err(code) => Err(SettleError::TransferFailed(code)),
            Ok(instruction) => {
                let accounts = vec![
                    MINT_A,
                    VAULT,
                    TAKER_TOKEN_A,
                    ADMIN_AUTHORITY,
                    ORDER_BOOK,
                    TAKER,
                    TOKEN_PROGRAM,
                ];
                let signer = Some(prove_authority(&parties.admin_authority, bump));
                Ok(
                    Step::Invoke {
                        invocation: Invocation { instruction, accounts, signer },
                        then: Settlement { parties, bump, request, pending: Pending::Release },
                    },
                )
            },
        }
    }

    /// Creates the creator's account for token B if it is not there, and
    /// otherwise goes on to the payment.
    fn provide_creator_account(
        parties: Parties,
        bump: u8,
        request: TakeOrder,
        creator_lamports: u64,
    ) -> (step: Result<Step, SettleError>)
        ensures
            outcome(step) == step_creator_account(parties, bump, request, creator_lamports),
    {
        if creator_lamports == 0 {
            Settlement::request_creator_account(parties, bump, request)
        } else {
            Settlement::request_payment(parties, bump, request)
        }
    }

    /// Goes on with the settlement once the ledger has answered the
    /// invocation it was waiting on; `accounts` are the thirteen account
    /// references as they stand after that invocation.
    ///
    /// A refused invocation ends the settlement with the ledger's code: as
    /// `ProvisioningFailed` where an account was to be created, as
    /// `TransferFailed` where tokens were to move. After the taker's account
    /// was created, the creator's account is created if it holds no native
    /// balance; then the payment is asked for, after the payment the release,
    /// and after the release the order is settled.
    pub fn resume(
        self,
        reply: Reply,
        accounts: &[AccountSnapshot],
    ) -> (step: Result<Step, SettleError>)
        ensures
            outcome(step) == resumed(self, reply, accounts@),
            step == Ok::<Step, SettleError>(Step::Settled) <==> (self.pending == Pending::Release
                && reply == Reply::Completed),
            reply matches Reply::Rejected(code) ==> step == Err::<Step, SettleError>(
                refused(self.pending, code),
            ),
    {
        match reply {
            Reply::Rejected(code) => match self.pending {
                Pending::TakerAccount => Err(SettleError::ProvisioningFailed(code)),
                Pending::CreatorAccount => Err(SettleError::ProvisioningFailed(code)),
                Pending::Payment => Err(SettleError::TransferFailed(code)),
                Pending::Release => Err(SettleError::TransferFailed(code)),
            },
            Reply::Completed => match self.pending {
                Pending::TakerAccount => {
                    if accounts.len() != ACCOUNT_COUNT {
                        Err(SettleError::InsufficientAccounts)
                    } else {
                        Settlement::provide_creator_account(
                            self.parties,
                            self.bump,
                            self.request,
                            accounts[CREATOR_TOKEN_B].lamports,
                        )
                    }
                },
                Pending::CreatorAccount => Settlement::request_payment(
                    self.parties,
                    self.bump,
                    self.request,
                ),
                Pending::Payment => Settlement::request_release(
                    self.parties,
                    self.bump,
                    self.request,
                ),
                Pending::Release => Ok(Step::Settled),
            },
        }
    }
}

impl TakeOrder {
    /// Starts the settlement of `args` against the order book among the
    /// thirteen account references, for the program at `program_id`.
    ///
    /// Nothing is invoked unless the call carries exactly thirteen account
    /// references, the order-book account holds a record, and that account is
    /// at the address which the admin authority's key and the record's bump
    /// derive under the program. Then the first invocation is asked for: the
    /// creation of the taker's account for token A if it holds no native
    /// balance, else that of the creator's account for token B if that holds
    /// none, else the payment.
    pub fn take_order(
        program_id: &Address,
        accounts: &[AccountSnapshot],
        args: TakeOrder,
    ) -> (step: Result<Step, SettleError>)
        ensures
            outcome(step) == started(*program_id, accounts@, args),
            accounts@.len() != ACCOUNT_COUNT ==> step == Err::<Step, SettleError>(
                SettleError::InsufficientAccounts,
            ),
            authenticated(*program_id, accounts@) matches Err(e) ==> step == Err::<
                Step,
                SettleError,
            >(e),
            step != Ok::<Step, SettleError>(Step::Settled),
    {
        let bump = match authenticate(program_id, accounts) {
            Ok(bump) => bump,
            Err(e) => {
                return Err(e);
            },
        };
        let parties = read_parties(accounts);
        if accounts[TAKER_TOKEN_A].lamports == 0 {
            Settlement::request_taker_account(parties, bump, args)
        } else {
            Settlement::provide_creator_account(
                parties,
                bump,
                args,
                accounts[CREATOR_TOKEN_B].lamports,
            )
        }
    }
}

} // verus!
