//! The calls into the program libraries: the derivation of addresses and the
//! builders of the instructions that a settlement sends. Their contracts are
//! stated here and taken on trust; everything else in the library is proved
//! from them.

use vstd::prelude::*;
use crate::address::{
    address_of, Address, ASSOCIATED_TOKEN_PROGRAM_ID, SYSTEM_PROGRAM_ID, TOKEN_PROGRAM_ID,
};
use crate::instruction::{readonly, writable, AccountMeta, Instruction, InstructionView};
use crate::wire::u64_le;
use solana_program::pubkey::Pubkey;

verus! {

/// Code with which the token program's instruction builders refuse a program
/// address other than the token program's own.
pub const INCORRECT_PROGRAM_ID: u64 = 0x7_0000_0000;

/// Code for seeds from which no address can be derived.
pub const INVALID_SEEDS: u64 = 0xe_0000_0000;

/// Input tag of the token program's transfer instruction.
pub const TRANSFER_TAG: u8 = 3;

/// Input tag of the provisioner's create instruction.
pub const CREATE_TAG: u8 = 0;

/// The address that `solana_program`'s `Pubkey::create_program_address`
/// derives for a program from a list of seeds, or `None` where it derives
/// none.
pub uninterp spec fn program_address(seeds: Seq<Seq<u8>>, program: Seq<u8>) -> Option<Seq<u8>>;

/// The address and bump that `solana_program`'s
/// `Pubkey::try_find_program_address` finds for a program and a list of
/// seeds, or `None` where it finds none.
pub uninterp spec fn found_program_address(seeds: Seq<Seq<u8>>, program: Seq<u8>) -> Option<(Seq<u8>, u8)>;

/// The address at which the provisioner keeps the token account of `wallet`
/// for `mint`: the one found from the wallet, the token program and the mint,
/// in that order, under the provisioner's own program address.
pub open spec fn associated_address(
    wallet: Address,
    mint: Address,
    token_program: Address,
) -> Option<Address> {
    match found_program_address(
        seq![wallet@, token_program@, mint@],
        ASSOCIATED_TOKEN_PROGRAM_ID@,
    ) {
        Some((bytes, _)) => Some(address_of(bytes)),
        None => None,
    }
}

/// The transfer instruction of the token program: `amount` units from
/// `source` to `destination`. The authority signs itself where no other
/// signers are named; where some are, they sign for it.
pub open spec fn transfer_instruction(
    token_program: Address,
    source: Address,
    destination: Address,
    authority: Address,
    signers: Seq<Address>,
    amount: u64,
) -> InstructionView {
    InstructionView {
        program_id: token_program,
        accounts: seq![
            writable(source),
            writable(destination),
            readonly(authority, signers.len() == 0),
        ] + Seq::new(signers.len(), |i: int| readonly(signers[i], true)),
        data: seq![TRANSFER_TAG] + u64_le(amount),
    }
}

/// The provisioner's instruction that creates, at `associated`, the token
/// account of `wallet` for `mint`, paid for by `funding`.
pub open spec fn create_account_instruction(
    funding: Address,
    associated: Address,
    wallet: Address,
    mint: Address,
    token_program: Address,
) -> InstructionView {
    InstructionView {
        program_id: Address { bytes: ASSOCIATED_TOKEN_PROGRAM_ID },
        accounts: seq![
            AccountMeta { pubkey: funding, is_signer: true, is_writable: true },
            writable(associated),
            readonly(wallet, false),
            readonly(mint, false),
            readonly(Address { bytes: SYSTEM_PROGRAM_ID }, false),
            readonly(token_program, false),
        ],
        data: seq![CREATE_TAG],
    }
}

/// Calls `solana_program`'s `Pubkey::create_program_address` on three seeds.
/// The contract names the result: the address derived, or `None` where the
/// call fails, which for seeds of at most 32 bytes each means that they
/// derive no address.
#[verifier::external_body]
pub(crate) fn create_program_address(
    first: &[u8],
    second: &[u8],
    third: &[u8],
    program: &Address,
) -> (derived: Option<Address>)
    ensures
        match derived {
            Some(a) => program_address(seq![first@, second@, third@], program@) == Some(a@),
            None => program_address(seq![first@, second@, third@], program@).is_none(),
        },
{
    let program = Pubkey::new_from_array(program.bytes);
    match Pubkey::create_program_address(&[first, second, third], &program) {
        Ok(key) => Some(Address { bytes: key.to_bytes() }),
        Err(_) => None,
    }
}

/// Calls `solana_program`'s `Pubkey::try_find_program_address` on three
/// seeds. The contract names the result: the address found and its bump, or
/// `None` where the search finds none.
#[verifier::external_body]
pub(crate) fn try_find_program_address(
    first: &[u8],
    second: &[u8],
    third: &[u8],
    program: &Address,
) -> (found: Option<(Address, u8)>)
    ensures
        match found {
            Some((a, bump)) => found_program_address(seq![first@, second@, third@], program@)
                == Some((a@, bump)),
            None => found_program_address(seq![first@, second@, third@], program@).is_none(),
        },
{
    let program = Pubkey::new_from_array(program.bytes);
    match Pubkey::try_find_program_address(&[first, second, third], &program) {
        Some((key, bump)) => Some((Address { bytes: key.to_bytes() }, bump)),
        None => None,
    }
}

/// Calls `spl_token`'s `instruction::transfer`. The builder refuses, with
/// the code for an incorrect program id, every token program but the token
/// program itself; for that one it returns the transfer instruction, whose
/// accounts are the source, the destination, the authority and then the
/// signers, and whose input is the transfer tag and the amount in eight
/// bytes, least significant first.
#[verifier::external_body]
pub(crate) fn transfer(
    token_program: &Address,
    source: &Address,
    destination: &Address,
    authority: &Address,
    signers: &Vec<Address>,
    amount: u64,
) -> (built: Result<Instruction, u64>)
    ensures
        match built {
            Ok(ix) => token_program.bytes == TOKEN_PROGRAM_ID && ix@ == transfer_instruction(
                *token_program,
                *source,
                *destination,
                *authority,
                signers@,
                amount,
            ),
            Err(code) => token_program.bytes != TOKEN_PROGRAM_ID && code == INCORRECT_PROGRAM_ID,
        },
{
    let key = |a: &Address| Pubkey::new_from_array(a.bytes);
    let keys: Vec<Pubkey> = signers.iter().map(key).collect();
    let refs: Vec<&Pubkey> = keys.iter().collect();
    spl_token::instruction::transfer(
        &key(token_program), &key(source), &key(destination), &key(authority), &refs, amount
    ).map_err(u64::from).map(|ix| Instruction {
        program_id: Address { bytes: ix.program_id.to_bytes() },
        accounts: ix.accounts.iter().map(|m| AccountMeta {
            pubkey: Address { bytes: m.pubkey.to_bytes() },
            is_signer: m.is_signer,
            is_writable: m.is_writable
        }).collect(),
        data: ix.data
    })
}

/// Calls `spl_associated_token_account`'s
/// `instruction::create_associated_token_account`. The builder searches the
/// address of the new account from the wallet, the token program and the
/// mint, under the provisioner's own program address, and does not return
/// where the search finds none; callers make sure that it finds one. The
/// instruction names the funding account as a writable signer, then the new
/// account, the wallet, the mint, the system program and the token program.
#[verifier::external_body]
pub(crate) fn create_associated_token_account(
    funding: &Address,
    wallet: &Address,
    mint: &Address,
    token_program: &Address,
) -> (ix: Instruction)
    requires
        associated_address(*wallet, *mint, *token_program) is Some,
    ensures
        ix@ == create_account_instruction(
            *funding,
            associated_address(*wallet, *mint, *token_program).unwrap(),
            *wallet,
            *mint,
            *token_program,
        ),
{
    let key = |a: &Address| Pubkey::new_from_array(a.bytes);
    let ix = spl_associated_token_account::instruction::create_associated_token_account(
        &key(funding), &key(wallet), &key(mint), &key(token_program)
    );
    Instruction {
        program_id: Address { bytes: ix.program_id.to_bytes() },
        accounts: ix.accounts.iter().map(|m| AccountMeta {
            pubkey: Address { bytes: m.pubkey.to_bytes() },
            is_signer: m.is_signer,
            is_writable: m.is_writable
        }).collect(),
        data: ix.data
    }
}

} // verus!
