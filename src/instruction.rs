//! The library's own form of an instruction: program, account references and
//! payload, as plain values.
use vstd::prelude::*;
use crate::address::Address;

verus! {

/// One account reference of an instruction.
#[derive(Clone, Copy, Debug)]
pub struct AccountRef {
    pub address: Address,
    pub is_signer: bool,
    pub is_writable: bool,
}

/// The mathematical form of an [`AccountRef`].
pub struct AccountModel {
    pub address: Seq<u8>,
    pub is_signer: bool,
    pub is_writable: bool,
}

impl View for AccountRef {
    type V = AccountModel;

    open spec fn view(&self) -> AccountModel {
        AccountModel { address: self.address@, is_signer: self.is_signer, is_writable: self.is_writable }
    }
}

/// An instruction: the program it calls, the accounts it names, its payload.
#[derive(Clone, Debug)]
pub struct Instruction {
    pub program_id: Address,
    pub accounts: Vec<AccountRef>,
    pub data: Vec<u8>,
}

/// The mathematical form of an [`Instruction`].
pub struct InstructionModel {
    pub program_id: Seq<u8>,
    pub accounts: Seq<AccountModel>,
    pub data: Seq<u8>,
}

impl View for Instruction {
    type V = InstructionModel;

    open spec fn view(&self) -> InstructionModel {
        InstructionModel {
            program_id: self.program_id@,
            accounts: self.accounts@.map_values(|a: AccountRef| a@),
            data: self.data@,
        }
    }
}

pub open spec fn writable(a: Seq<u8>, signer: bool) -> AccountModel {
    AccountModel { address: a, is_signer: signer, is_writable: true }
}

pub open spec fn readonly(a: Seq<u8>, signer: bool) -> AccountModel {
    AccountModel { address: a, is_signer: signer, is_writable: false }
}

impl AccountRef {
    /// A writable account reference.
    pub fn writable(address: Address, is_signer: bool) -> (r: AccountRef)
        ensures
            r@ == writable(address@, is_signer),
    {
        AccountRef { address, is_signer, is_writable: true }
    }

    /// A read-only account reference.
    pub fn readonly(address: Address, is_signer: bool) -> (r: AccountRef)
        ensures
            r@ == readonly(address@, is_signer),
    {
        AccountRef { address, is_signer, is_writable: false }
    }
}

/// The views of a list of instructions.
pub open spec fn models(ixs: Seq<Instruction>) -> Seq<InstructionModel> {
    ixs.map_values(|ix: Instruction| ix@)
}

} // verus!
