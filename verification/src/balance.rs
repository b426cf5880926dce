//! What the transfers of a settlement move: how the balances of the accounts
//! involved change once the ledger has carried the transfers out.

use vstd::prelude::*;
use crate::address::{Address, TOKEN_PROGRAM_ID};
use crate::instruction::{Instruction, InstructionView};
use crate::programs::TRANSFER_TAG;
use crate::request::TakeOrder;
use crate::settlement::{
    payment_invocation, release_invocation, InvocationView, Parties, RELEASED_UNITS,
};
use crate::wire::{le_u64, lemma_le_u64_of_u64_le, lemma_le_u64_range, read_u64, u64_le};

verus! {

/// One movement of tokens: so many units out of one account and into another.
#[derive(Clone, Copy, Debug, PartialEq, Eq)]
pub struct Movement {
    pub source: Address,
    pub destination: Address,
    pub units: u64,
}

/// The movement that a transfer instruction asks the token program for: its
/// first account is the source, its second the destination, and the eight
/// bytes after the tag are the units.
pub open spec fn movement(instruction: InstructionView) -> Movement {
    Movement {
        source: instruction.accounts[0].pubkey,
        destination: instruction.accounts[1].pubkey,
        units: le_u64(instruction.data.subrange(1, 9)) as u64,
    }
}

/// By how many units a movement changes the balance of an account: up where
/// the account receives, down where it gives.
pub open spec fn change(m: Movement, account: Address) -> int {
    (if m.destination == account {
        m.units as int
    } else {
        0
    }) - (if m.source == account {
        m.units as int
    } else {
        0
    })
}

/// Whether an instruction is a transfer of the token program.
pub open spec fn is_transfer(instruction: InstructionView) -> bool {
    &&& instruction.program_id.bytes == TOKEN_PROGRAM_ID
    &&& instruction.accounts.len() >= 3
    &&& instruction.data.len() == 9
    &&& instruction.data[0] == TRANSFER_TAG
}

/// Reads off a transfer instruction what it moves; `None` for an instruction
/// that is no transfer of the token program.
pub fn transfer_of(instruction: &Instruction) -> (moved: Option<Movement>)
    ensures
        moved == (if is_transfer(instruction@) {
            Some(movement(instruction@))
        } else {
            None
        }),
{
    let token_program = Address::new(TOKEN_PROGRAM_ID);
    if instruction.program_id != token_program || instruction.accounts.len() < 3
        || instruction.data.len() != 9 || instruction.data[0] != TRANSFER_TAG {
        return None;
    }
    proof {
        instruction.program_id.lemma_view_injective(token_program);
        lemma_le_u64_range(instruction.data@.subrange(1, 9));
    }
    let units = read_u64(instruction.data.as_slice(), 1);
    Some(
        Movement {
            source: instruction.accounts[0].pubkey,
            destination: instruction.accounts[1].pubkey,
            units,
        },
    )
}

/// By how many units the transfers among the invocations, carried out one
/// after the other, change the balance of an account. Invocations that are
/// no transfers move nothing.
pub open spec fn total_change(invocations: Seq<InvocationView>, account: Address) -> int
    decreases invocations.len(),
{
    if invocations.len() == 0 {
        0
    } else {
        total_change(invocations.drop_last(), account) + (if is_transfer(
            invocations.last().instruction,
        ) {
            change(movement(invocations.last().instruction), account)
        } else {
            0
        })
    }
}

/// The two transfers of a settlement move exactly `amount * price` units
/// from the taker's account for token B to the creator's, and exactly one
/// unit from the vault to the taker's account for token A. Where those four
/// accounts are four different accounts, the two movements together take
/// `amount * price` from the taker's token B and add it to the creator's,
/// take one unit from the vault and add it to the taker's token A.
pub proof fn lemma_settlement_conserves(parties: Parties, bump: u8, request: TakeOrder)
    requires
        payment_invocation(parties, request) is Ok,
        release_invocation(parties, bump) is Ok,
    ensures
        request.amount * request.price <= u64::MAX,
        movement(payment_invocation(parties, request).unwrap().instruction) == (Movement {
            source: parties.taker_token_b,
            destination: parties.creator_token_b,
            units: (request.amount * request.price) as u64,
        }),
        movement(release_invocation(parties, bump).unwrap().instruction) == (Movement {
            source: parties.vault,
            destination: parties.taker_token_a,
            units: RELEASED_UNITS,
        }),
        (parties.taker_token_b != parties.creator_token_b && parties.vault != parties.taker_token_a
            && parties.taker_token_b != parties.vault && parties.taker_token_b
            != parties.taker_token_a && parties.creator_token_b != parties.vault
            && parties.creator_token_b != parties.taker_token_a) ==> {
            let pay = movement(payment_invocation(parties, request).unwrap().instruction);
            let release = movement(release_invocation(parties, bump).unwrap().instruction);
            &&& change(pay, parties.taker_token_b) + change(release, parties.taker_token_b)
                == -(request.amount * request.price)
            &&& change(pay, parties.creator_token_b) + change(release, parties.creator_token_b)
                == request.amount * request.price
            &&& change(pay, parties.vault) + change(release, parties.vault) == -1
            &&& change(pay, parties.taker_token_a) + change(release, parties.taker_token_a) == 1
        },
{
    let due = (request.amount * request.price) as u64;
    let pay = payment_invocation(parties, request).unwrap().instruction;
    let release = release_invocation(parties, bump).unwrap().instruction;
    lemma_le_u64_of_u64_le(due);
    lemma_le_u64_of_u64_le(RELEASED_UNITS);
    assert(pay.data.subrange(1, 9) =~= u64_le(due));
    assert(release.data.subrange(1, 9) =~= u64_le(RELEASED_UNITS));
}

} // verus!
