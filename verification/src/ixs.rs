//! Instruction builders: the claim instruction, associated-token-account
//! creation, token-account close with its rent skim, and the plain lamport
//! and token transfers the planners emit.

use vstd::prelude::*;

use crate::address::{copy_bytes, Address};
use crate::derive::{
    spec_associated_token_program_id, spec_close_operator, spec_system_program_id,
    spec_token_program_id, associated_token_program_id, close_operator, system_program_id,
    token_program_id,
};
use crate::encode::{
    claim_input_bytes, discriminator, spec_claim_input_bytes, spec_claim_method_name,
    spec_discriminator,
};

verus! {

/// One account an instruction touches, with its access flags.
#[derive(Debug)]
pub struct AccountMeta {
    pub pubkey: Address,
    pub is_signer: bool,
    pub is_writable: bool,
}

/// The mathematical image of an [`AccountMeta`].
pub struct AccountMetaModel {
    pub pubkey: Seq<u8>,
    pub is_signer: bool,
    pub is_writable: bool,
}

impl AccountMeta {
    pub open spec fn model(&self) -> AccountMetaModel {
        AccountMetaModel { pubkey: self.pubkey@, is_signer: self.is_signer, is_writable: self.is_writable }
    }

    /// A writable account reference.
    pub fn new(pubkey: Address, is_signer: bool) -> (r: AccountMeta)
        ensures
            r.model() == spec_account(pubkey@, is_signer, true),
    {
        AccountMeta { pubkey, is_signer, is_writable: true }
    }

    /// A read-only account reference.
    pub fn new_readonly(pubkey: Address, is_signer: bool) -> (r: AccountMeta)
        ensures
            r.model() == spec_account(pubkey@, is_signer, false),
    {
        AccountMeta { pubkey, is_signer, is_writable: false }
    }
}

pub open spec fn spec_account(pubkey: Seq<u8>, is_signer: bool, is_writable: bool) -> AccountMetaModel {
    AccountMetaModel { pubkey, is_signer, is_writable }
}

/// One instruction: the target program, the ordered account list, and the
/// opaque payload bytes.
#[derive(Debug)]
pub struct Instruction {
    pub program_id: Address,
    pub accounts: Vec<AccountMeta>,
    pub data: Vec<u8>,
}

/// The mathematical image of an [`Instruction`].
pub struct InstructionModel {
    pub program_id: Seq<u8>,
    pub accounts: Seq<AccountMetaModel>,
    pub data: Seq<u8>,
}

impl Instruction {
    pub open spec fn model(&self) -> InstructionModel {
        InstructionModel {
            program_id: self.program_id@,
            accounts: self.accounts@.map_values(|m: AccountMeta| m.model()),
            data: self.data@,
        }
    }
}

/// Arguments of the claim instruction.
pub struct ClaimArgs {
    pub program_id: Address,
    pub distributor: Address,
    pub mint_token: Address,
    pub claim_status: Address,
    pub from: Address,
    pub to: Address,
    pub claimant: Address,
    pub token_program: Address,
    pub system_program: Address,
    pub allocation: u64,
    pub proof: Vec<Vec<u8>>,
}

/// The typed payload of the claim instruction.
pub struct ClaimInput {
    pub allocation: u64,
    pub proof: Vec<Vec<u8>>,
}

impl ClaimInput {
    pub fn new(allocation: u64, proof: Vec<Vec<u8>>) -> (r: Self)
        ensures
            r.allocation == allocation,
            r.proof@ == proof@,
    {
        Self { allocation, proof }
    }

    /// The full payload: the claim discriminator followed by the serialized
    /// allocation and proof.
    pub fn instruction_data(&self) -> (r: Vec<u8>)
        requires
            self.proof@.len() <= u32::MAX,
        ensures
            r@ == spec_discriminator(spec_claim_method_name()) + spec_claim_input_bytes(
                self.allocation,
                self.proof.deep_view(),
            ),
    {
        let name: Vec<u8> = vec![99u8, 108, 97, 105, 109];
        proof {
            assert(name@ =~= spec_claim_method_name());
        }
        let mut r = discriminator(&name);
        let mut body = claim_input_bytes(self.allocation, &self.proof);
        r.append(&mut body);
        r
    }
}

/// Arguments of the associated-token-account creation instruction.
pub struct CreateAtaArgs {
    pub funding_address: Address,
    pub associated_account_address: Address,
    pub wallet_address: Address,
    pub token_mint_address: Address,
    pub token_program_id: Address,
    pub instruction: u8,
}

/// The claim instruction as a value: target program, account order and
/// flags, and the payload bytes.
pub open spec fn spec_claim_ix(
    program_id: Seq<u8>,
    distributor: Seq<u8>,
    mint_token: Seq<u8>,
    claim_status: Seq<u8>,
    from: Seq<u8>,
    to: Seq<u8>,
    claimant: Seq<u8>,
    token_program: Seq<u8>,
    system_program: Seq<u8>,
    allocation: u64,
    proof: Seq<Seq<u8>>,
) -> InstructionModel {
    InstructionModel {
        program_id: program_id,
        accounts: seq![
            spec_account(distributor, false, true),
            spec_account(mint_token, false, false),
            spec_account(claim_status, false, true),
            spec_account(from, false, true),
            spec_account(to, false, true),
            spec_account(claimant, true, true),
            spec_account(token_program, false, false),
            spec_account(system_program, false, false),
        ],
        data: spec_discriminator(spec_claim_method_name()) + spec_claim_input_bytes(
            allocation,
            proof,
        ),
    }
}

/// The associated-token-account creation instruction as a value.
pub open spec fn spec_create_ata_ix(
    funding_address: Seq<u8>,
    associated_account_address: Seq<u8>,
    wallet_address: Seq<u8>,
    token_mint_address: Seq<u8>,
    token_program_id: Seq<u8>,
    instruction: u8,
) -> InstructionModel {
    InstructionModel {
        program_id: spec_associated_token_program_id(),
        accounts: seq![
            spec_account(funding_address, true, true),
            spec_account(associated_account_address, false, true),
            spec_account(wallet_address, false, false),
            spec_account(token_mint_address, false, false),
            spec_account(spec_system_program_id(), false, false),
            spec_account(token_program_id, false, false),
        ],
        data: seq![instruction],
    }
}

/// A system-program lamport transfer as a value: the funder signs, both
/// accounts are writable, and the payload is the transfer tag (2, as four
/// little-endian bytes) followed by the amount.
pub open spec fn spec_transfer_ix(from: Seq<u8>, to: Seq<u8>, lamports: u64) -> InstructionModel {
    InstructionModel {
        program_id: spec_system_program_id(),
        accounts: seq![spec_account(from, true, true), spec_account(to, false, true)],
        data: vstd::bytes::spec_u32_to_le_bytes(2u32) + vstd::bytes::spec_u64_to_le_bytes(
            lamports,
        ),
    }
}

/// A token-account close as a value: the account, the rent destination, the
/// owner, then the owner again as the signer; payload is the single byte 9.
pub open spec fn spec_close_account_ix(
    account: Seq<u8>,
    destination: Seq<u8>,
    owner: Seq<u8>,
) -> InstructionModel {
    InstructionModel {
        program_id: spec_token_program_id(),
        accounts: seq![
            spec_account(account, false, true),
            spec_account(destination, false, true),
            spec_account(owner, false, false),
            spec_account(owner, true, false),
        ],
        data: seq![9u8],
    }
}

/// A checked token transfer as a value: source, mint, destination, the
/// authority, then the authority again as the signer; payload is the byte
/// 12, the amount as eight little-endian bytes, and the decimals byte.
pub open spec fn spec_transfer_checked_ix(
    source: Seq<u8>,
    mint: Seq<u8>,
    destination: Seq<u8>,
    authority: Seq<u8>,
    amount: u64,
    decimals: u8,
) -> InstructionModel {
    InstructionModel {
        program_id: spec_token_program_id(),
        accounts: seq![
            spec_account(source, false, true),
            spec_account(mint, false, false),
            spec_account(destination, false, true),
            spec_account(authority, false, false),
            spec_account(authority, true, false),
        ],
        data: seq![12u8] + vstd::bytes::spec_u64_to_le_bytes(amount) + seq![decimals],
    }
}

/// The rent skim routed to the fixed operator address when a token account
/// is closed: three percent of the rent-exemption lamports, rounded down.
pub open spec fn spec_skim(rent: u64) -> int {
    rent * 3 / 100
}

/// Compute the rent skim.
pub fn skim_amount(rent: u64) -> (r: u64)
    ensures
        r == spec_skim(rent),
{
    proof {
        assert(rent * 3 / 100 <= u64::MAX) by (nonlinear_arith);
    }
    ((rent as u128) * 3 / 100) as u64
}

pub struct Instructions {}

impl Instructions {
    /// Build the claim instruction.
    pub fn claim(args: ClaimArgs) -> (r: Instruction)
        requires
            args.proof@.len() <= u32::MAX,
        ensures
            r.model() == spec_claim_ix(
                args.program_id@,
                args.distributor@,
                args.mint_token@,
                args.claim_status@,
                args.from@,
                args.to@,
                args.claimant@,
                args.token_program@,
                args.system_program@,
                args.allocation,
                args.proof.deep_view(),
            ),
    {
        let ClaimArgs {
            program_id,
            distributor,
            mint_token,
            claim_status,
            from,
            to,
            claimant,
            token_program,
            system_program,
            allocation,
            proof,
        } = args;
        let input = ClaimInput::new(allocation, proof);
        let data = input.instruction_data();

        let mut accounts: Vec<AccountMeta> = Vec::new();
        accounts.push(AccountMeta::new(distributor, false));
        accounts.push(AccountMeta::new_readonly(mint_token, false));
        accounts.push(AccountMeta::new(claim_status, false));
        accounts.push(AccountMeta::new(from, false));
        accounts.push(AccountMeta::new(to, false));
        accounts.push(AccountMeta::new(claimant, true));
        accounts.push(AccountMeta::new_readonly(token_program, false));
        accounts.push(AccountMeta::new_readonly(system_program, false));

        let r = Instruction { program_id, accounts, data };
        proof {
            let m = spec_claim_ix(
                args.program_id@,
                args.distributor@,
                args.mint_token@,
                args.claim_status@,
                args.from@,
                args.to@,
                args.claimant@,
                args.token_program@,
                args.system_program@,
                args.allocation,
                args.proof.deep_view(),
            );
            assert(r.model().accounts =~= m.accounts);
            assert(input.proof.deep_view() =~~= args.proof.deep_view());
        }
        r
    }

    /// Build the associated-token-account creation instruction.
    pub fn create_ata(args: CreateAtaArgs) -> (r: Instruction)
        ensures
            r.model() == spec_create_ata_ix(
                args.funding_address@,
                args.associated_account_address@,
                args.wallet_address@,
                args.token_mint_address@,
                args.token_program_id@,
                args.instruction,
            ),
    {
        let CreateAtaArgs {
            funding_address,
            associated_account_address,
            wallet_address,
            token_mint_address,
            token_program_id,
            instruction,
        } = args;
        let mut accounts: Vec<AccountMeta> = Vec::new();
        accounts.push(AccountMeta::new(funding_address, true));
        accounts.push(AccountMeta::new(associated_account_address, false));
        accounts.push(AccountMeta::new_readonly(wallet_address, false));
        accounts.push(AccountMeta::new_readonly(token_mint_address, false));
        accounts.push(AccountMeta::new_readonly(system_program_id(), false));
        accounts.push(AccountMeta::new_readonly(token_program_id, false));

        let data: Vec<u8> = vec![instruction];
        let r = Instruction { program_id: associated_token_program_id(), accounts, data };
        proof {
            let m = spec_create_ata_ix(
                args.funding_address@,
                args.associated_account_address@,
                args.wallet_address@,
                args.token_mint_address@,
                args.token_program_id@,
                args.instruction,
            );
            assert(r.model().accounts =~= m.accounts);
            assert(r.model().data =~= m.data);
        }
        r
    }

    /// Build a system-program lamport transfer.
    pub fn transfer(from: &Address, to: &Address, lamports: u64) -> (r: Instruction)
        ensures
            r.model() == spec_transfer_ix(from@, to@, lamports),
    {
        let mut accounts: Vec<AccountMeta> = Vec::new();
        accounts.push(AccountMeta::new(from.dup(), true));
        accounts.push(AccountMeta::new(to.dup(), false));

        let mut data = vstd::bytes::u32_to_le_bytes(2u32);
        let mut amount_bytes = vstd::bytes::u64_to_le_bytes(lamports);
        data.append(&mut amount_bytes);

        let r = Instruction { program_id: system_program_id(), accounts, data };
        proof {
            assert(r.model().accounts =~= spec_transfer_ix(from@, to@, lamports).accounts);
        }
        r
    }

    /// Build a checked token transfer of the mint's tokens.
    pub fn transfer_checked(
        source: &Address,
        mint: &Address,
        destination: &Address,
        authority: &Address,
        amount: u64,
        decimals: u8,
    ) -> (r: Instruction)
        ensures
            r.model() == spec_transfer_checked_ix(
                source@,
                mint@,
                destination@,
                authority@,
                amount,
                decimals,
            ),
    {
        let mut accounts: Vec<AccountMeta> = Vec::new();
        accounts.push(AccountMeta::new(source.dup(), false));
        accounts.push(AccountMeta::new_readonly(mint.dup(), false));
        accounts.push(AccountMeta::new(destination.dup(), false));
        accounts.push(AccountMeta::new_readonly(authority.dup(), false));
        accounts.push(AccountMeta::new_readonly(authority.dup(), true));

        let mut data: Vec<u8> = vec![12u8];
        let mut amount_bytes = vstd::bytes::u64_to_le_bytes(amount);
        data.append(&mut amount_bytes);
        data.push(decimals);

        let r = Instruction { program_id: token_program_id(), accounts, data };
        proof {
            assert(r.model().accounts =~= spec_transfer_checked_ix(
                source@,
                mint@,
                destination@,
                authority@,
                amount,
                decimals,
            ).accounts);
            assert(r.model().data =~= spec_transfer_checked_ix(
                source@,
                mint@,
                destination@,
                authority@,
                amount,
                decimals,
            ).data);
        }
        r
    }

    /// Build the two instructions that close a wallet's token account: the
    /// close itself, with rent going to the payer, and the skim transfer
    /// from the payer to the fixed operator address.
    pub fn close_account(
        wallet_token_ata: &Address,
        wallet_pubkey: &Address,
        payer_pubkey: &Address,
        rent: u64,
    ) -> (r: Vec<Instruction>)
        ensures
            r@.len() == 2,
            r@[0].model() == spec_close_account_ix(wallet_token_ata@, payer_pubkey@, wallet_pubkey@),
            r@[1].model() == spec_transfer_ix(payer_pubkey@, spec_close_operator(), spec_skim(rent) as u64),
    {
        let mut accounts: Vec<AccountMeta> = Vec::new();
        accounts.push(AccountMeta::new(wallet_token_ata.dup(), false));
        accounts.push(AccountMeta::new(payer_pubkey.dup(), false));
        accounts.push(AccountMeta::new_readonly(wallet_pubkey.dup(), false));
        accounts.push(AccountMeta::new_readonly(wallet_pubkey.dup(), true));
        let data: Vec<u8> = vec![9u8];
        let close_ix = Instruction { program_id: token_program_id(), accounts, data };
        proof {
            assert(close_ix.model().accounts =~= spec_close_account_ix(
                wallet_token_ata@,
                payer_pubkey@,
                wallet_pubkey@,
            ).accounts);
            assert(close_ix.model().data =~= spec_close_account_ix(
                wallet_token_ata@,
                payer_pubkey@,
                wallet_pubkey@,
            ).data);
        }

        let operator = close_operator();
        let skim_ix = Instructions::transfer(payer_pubkey, &operator, skim_amount(rent));

        let mut r: Vec<Instruction> = Vec::new();
        r.push(close_ix);
        r.push(skim_ix);
        r
    }
}

} // verus!
