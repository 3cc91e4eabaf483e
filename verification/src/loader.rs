//! The two instructions that the governance authority sends to the
//! upgradeable loader, as plain values.

use vstd::prelude::*;
use solana_program::bpf_loader_upgradeable;
use solana_program::loader_upgradeable_instruction::UpgradeableLoaderInstruction;
use solana_program::pubkey::Pubkey;
use solana_program::sysvar;
use crate::address::Address;
use crate::proposal::ProposalType;

verus! {

/// One account that an instruction touches.
#[derive(Clone, Copy, Debug, PartialEq, Eq)]
pub struct AccountMeta {
    pub pubkey: Address,
    /// Whether the instruction needs this account's signature.
    pub is_signer: bool,
    /// Whether the instruction may change this account.
    pub is_writable: bool,
}

/// An account reference by the bytes of its address.
pub struct AccountMetaView {
    pub pubkey: Seq<u8>,
    pub is_signer: bool,
    pub is_writable: bool,
}

impl View for AccountMeta {
    type V = AccountMetaView;

    open spec fn view(&self) -> AccountMetaView {
        AccountMetaView {
            pubkey: self.pubkey@,
            is_signer: self.is_signer,
            is_writable: self.is_writable,
        }
    }
}

impl AccountMeta {
    /// An account that the instruction may change.
    pub fn new(pubkey: Address, is_signer: bool) -> (m: AccountMeta)
        ensures
            m@ == writable(pubkey@, is_signer),
    {
        AccountMeta { pubkey, is_signer, is_writable: true }
    }

    /// An account that the instruction only reads.
    pub fn new_readonly(pubkey: Address, is_signer: bool) -> (m: AccountMeta)
        ensures
            m@ == readonly(pubkey@, is_signer),
    {
        AccountMeta { pubkey, is_signer, is_writable: false }
    }
}

/// A reference to an account that may be changed.
pub open spec fn writable(pubkey: Seq<u8>, is_signer: bool) -> AccountMetaView {
    AccountMetaView { pubkey, is_signer, is_writable: true }
}

/// A reference to an account that is only read.
pub open spec fn readonly(pubkey: Seq<u8>, is_signer: bool) -> AccountMetaView {
    AccountMetaView { pubkey, is_signer, is_writable: false }
}

/// An instruction for another program: whom it is for, the accounts it
/// touches in the order the program expects them, and its encoded payload.
#[derive(Debug, PartialEq, Eq)]
pub struct Instruction {
    pub program_id: Address,
    pub accounts: Vec<AccountMeta>,
    pub data: Vec<u8>,
}

/// An instruction by the bytes it is made of.
pub struct InstructionView {
    pub program_id: Seq<u8>,
    pub accounts: Seq<AccountMetaView>,
    pub data: Seq<u8>,
}

impl View for Instruction {
    type V = InstructionView;

    open spec fn view(&self) -> InstructionView {
        InstructionView {
            program_id: self.program_id@,
            accounts: self.accounts@.map_values(|m: AccountMeta| m@),
            data: self.data@,
        }
    }
}

/// The address of the upgradeable loader,
/// `BPFLoaderUpgradeab1e11111111111111111111111` in base 58.
pub open spec fn loader_id() -> Seq<u8> {
    seq![
        2u8, 168, 246, 145, 78, 136, 161, 176, 226, 16, 21, 62, 247, 99, 174, 43, 0, 194, 185, 61,
        22, 193, 36, 210, 192, 83, 122, 16, 4, 128, 0, 0,
    ]
}

/// The address of the rent sysvar,
/// `SysvarRent111111111111111111111111111111111` in base 58.
pub open spec fn rent_id() -> Seq<u8> {
    seq![
        6u8, 167, 213, 23, 25, 44, 92, 81, 33, 140, 201, 76, 61, 74, 241, 127, 88, 218, 238, 8,
        155, 161, 253, 68, 227, 219, 217, 138, 0, 0, 0, 0,
    ]
}

/// The address of the clock sysvar,
/// `SysvarC1ock11111111111111111111111111111111` in base 58.
pub open spec fn clock_id() -> Seq<u8> {
    seq![
        6u8, 167, 213, 23, 24, 199, 116, 201, 40, 86, 99, 152, 105, 29, 94, 182, 139, 94, 184,
        163, 155, 75, 109, 92, 115, 85, 91, 33, 0, 0, 0, 0,
    ]
}

/// The payload of the loader instruction that carries out a proposal of
/// the given kind: the index of the loader's `Upgrade` or `SetAuthority`
/// operation, 3 or 4, as four little-endian bytes.
pub open spec fn loader_payload(kind: ProposalType) -> Seq<u8> {
    match kind {
        ProposalType::UpgradeProgram => seq![3u8, 0, 0, 0],
        ProposalType::SetAuthority => seq![4u8, 0, 0, 0],
    }
}

/// Calls `solana_program::bpf_loader_upgradeable::id`. Trusted: it returns
/// the 32 bytes that the loader's base-58 name decodes to.
#[verifier::external_body]
fn loader_program_id() -> (id: Address)
    ensures
        id@ == loader_id(),
{
    Address { bytes: bpf_loader_upgradeable::id().to_bytes() }
}

/// Calls `solana_program::sysvar::rent::id`. Trusted: it returns the 32
/// bytes that the rent sysvar's base-58 name decodes to.
#[verifier::external_body]
fn rent_sysvar_id() -> (id: Address)
    ensures
        id@ == rent_id(),
{
    Address { bytes: sysvar::rent::id().to_bytes() }
}

/// Calls `solana_program::sysvar::clock::id`. Trusted: it returns the 32
/// bytes that the clock sysvar's base-58 name decodes to.
#[verifier::external_body]
fn clock_sysvar_id() -> (id: Address)
    ensures
        id@ == clock_id(),
{
    Address { bytes: sysvar::clock::id().to_bytes() }
}

/// Calls `solana_program::instruction::Instruction::new_with_bincode` on
/// the loader operation for `kind` and hands back the payload it encoded.
/// Trusted: bincode writes a variant without fields as its index in the
/// enum, a `u32` in little-endian order; `Upgrade` is the fourth variant of
/// `UpgradeableLoaderInstruction` and `SetAuthority` the fifth.
#[verifier::external_body]
fn encode_loader_operation(program_id: &Address, kind: ProposalType) -> (data: Vec<u8>)
    ensures
        data@ == loader_payload(kind),
{
    let operation = match kind {
        ProposalType::UpgradeProgram => UpgradeableLoaderInstruction::Upgrade,
        ProposalType::SetAuthority => UpgradeableLoaderInstruction::SetAuthority,
    };
    solana_program::instruction::Instruction::new_with_bincode(
        Pubkey::new_from_array(program_id.bytes),
        &operation,
        Vec::new(),
    ).data
}

/// The accounts of the loader's `SetAuthority` operation, in its order: the
/// program data whose authority changes, the governance authority that
/// signs as the present one, and the new authority, which signs as well.
pub open spec fn set_authority_accounts(
    target_program_buffer: Seq<u8>,
    multisig_pda: Seq<u8>,
    new_authority: Seq<u8>,
) -> Seq<AccountMetaView> {
    seq![
        writable(target_program_buffer, false),
        readonly(multisig_pda, true),
        readonly(new_authority, true),
    ]
}

/// The accounts of the loader's `Upgrade` operation, in its order: the
/// program data, the program, the buffer with the new code, the account
/// that receives what the buffer held in funds, the rent and clock sysvars,
/// and the governance authority, which signs.
pub open spec fn upgrade_accounts(
    target_program_buffer: Seq<u8>,
    target_program: Seq<u8>,
    source_buffer: Seq<u8>,
    spill: Seq<u8>,
    multisig_pda: Seq<u8>,
) -> Seq<AccountMetaView> {
    seq![
        writable(target_program_buffer, false),
        writable(target_program, false),
        writable(source_buffer, false),
        writable(spill, false),
        readonly(rent_id(), false),
        readonly(clock_id(), false),
        readonly(multisig_pda, true),
    ]
}

/// Builds the loader instruction that hands the upgrade authority over
/// `target_program_buffer` from `multisig_pda` to `new_authority`.
pub fn set_authority_instruction(
    target_program_buffer: &Address,
    multisig_pda: &Address,
    new_authority: &Address,
) -> (ix: Instruction)
    ensures
        ix@.program_id == loader_id(),
        ix@.accounts == set_authority_accounts(
            target_program_buffer@,
            multisig_pda@,
            new_authority@,
        ),
        ix@.data == loader_payload(ProposalType::SetAuthority),
{
    let program_id = loader_program_id();
    let data = encode_loader_operation(&program_id, ProposalType::SetAuthority);
    let mut accounts: Vec<AccountMeta> = Vec::new();
    accounts.push(AccountMeta::new(*target_program_buffer, false));
    accounts.push(AccountMeta::new_readonly(*multisig_pda, true));
    accounts.push(AccountMeta::new_readonly(*new_authority, true));
    Instruction { program_id, accounts, data }
}

/// Builds the loader instruction that replaces the code of `target_program`
/// with the contents of `source_buffer`, signed by `multisig_pda`.
pub fn upgrade_instruction(
    target_program_buffer: &Address,
    target_program: &Address,
    source_buffer: &Address,
    spill: &Address,
    multisig_pda: &Address,
) -> (ix: Instruction)
    ensures
        ix@.program_id == loader_id(),
        ix@.accounts == upgrade_accounts(
            target_program_buffer@,
            target_program@,
            source_buffer@,
            spill@,
            multisig_pda@,
        ),
        ix@.data == loader_payload(ProposalType::UpgradeProgram),
{
    let program_id = loader_program_id();
    let data = encode_loader_operation(&program_id, ProposalType::UpgradeProgram);
    let mut accounts: Vec<AccountMeta> = Vec::new();
    accounts.push(AccountMeta::new(*target_program_buffer, false));
    accounts.push(AccountMeta::new(*target_program, false));
    accounts.push(AccountMeta::new(*source_buffer, false));
    accounts.push(AccountMeta::new(*spill, false));
    accounts.push(AccountMeta::new_readonly(rent_sysvar_id(), false));
    accounts.push(AccountMeta::new_readonly(clock_sysvar_id(), false));
    accounts.push(AccountMeta::new_readonly(*multisig_pda, true));
    Instruction { program_id, accounts, data }
}

} // verus!
