//! Instructions for other programs, as plain values.

use vstd::prelude::*;
use crate::address::Address;

verus! {

/// One account that an instruction touches, and how.
#[derive(Clone, Copy, Debug, PartialEq, Eq)]
pub struct AccountMeta {
    pub pubkey: Address,
    pub is_signer: bool,
    pub is_writable: bool,
}

/// An instruction for another program: the program, the accounts it touches
/// in the program's own order, and the program's input.
#[derive(Clone, Debug, PartialEq, Eq)]
pub struct Instruction {
    pub program_id: Address,
    pub accounts: Vec<AccountMeta>,
    pub data: Vec<u8>,
}

/// What an instruction holds.
pub struct InstructionView {
    pub program_id: Address,
    pub accounts: Seq<AccountMeta>,
    pub data: Seq<u8>,
}

impl View for Instruction {
    type V = InstructionView;

    open spec fn view(&self) -> InstructionView {
        InstructionView { program_id: self.program_id, accounts: self.accounts@, data: self.data@ }
    }
}

/// An account that the instruction may change and that need not sign.
pub open spec fn writable(pubkey: Address) -> AccountMeta {
    AccountMeta { pubkey, is_signer: false, is_writable: true }
}

/// An account that the instruction only reads, signing or not.
pub open spec fn readonly(pubkey: Address, is_signer: bool) -> AccountMeta {
    AccountMeta { pubkey, is_signer, is_writable: false }
}

} // verus!
