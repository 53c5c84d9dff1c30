//! Per-wallet planning: read a snapshot of the on-chain state, then decide
//! which instructions an attempt needs, or that there is nothing to do.
//!
//! The planners are pure: the caller reads the chain, hands the observed
//! values in, and gets back either a terminal verdict or the exact ordered
//! instruction list to sign and submit.

use vstd::prelude::*;

use crate::address::{pda_of, Address};
use crate::derive::{
    derive_ata, derive_claim_status, derive_merkle_distributor, grass_mint, spec_ata_seeds,
    spec_claim_program_id, spec_claim_status_seeds, spec_close_operator, spec_distributor_seeds,
    spec_grass_mint,
    spec_system_program_id, spec_token_program_id, spec_associated_token_program_id,
    claim_program_id, system_program_id, token_program_id,
};
use crate::ixs::{
    spec_claim_ix, spec_close_account_ix, spec_create_ata_ix, spec_skim, spec_transfer_checked_ix,
    spec_transfer_ix, ClaimArgs, CreateAtaArgs, Instruction, InstructionModel, Instructions,
    skim_amount,
};

verus! {

/// The two balances of an on-chain claim-status account.
pub struct ClaimStatus {
    pub allocation: u64,
    pub sent_allocation: u64,
}

/// Parse a claim-status account's raw data: an 8-byte discriminator, the
/// 32-byte claimant, then the allocation and the sent allocation as
/// little-endian u64 values (a timestamp follows them, so 64 bytes at
/// least are required).
pub fn parse_claim_status(data: &Vec<u8>) -> (r: Option<ClaimStatus>)
    ensures
        data@.len() >= 64 ==> (r matches Some(cs) && cs.allocation
            == vstd::bytes::spec_u64_from_le_bytes(data@.subrange(40, 48)) && cs.sent_allocation
            == vstd::bytes::spec_u64_from_le_bytes(data@.subrange(48, 56))),
        data@.len() < 64 ==> r is None,
{
    if data.len() < 64 {
        return None;
    }
    let s = data.as_slice();
    let allocation = vstd::bytes::u64_from_le_bytes(&s[40..48]);
    let sent_allocation = vstd::bytes::u64_from_le_bytes(&s[48..56]);
    Some(ClaimStatus { allocation, sent_allocation })
}

/// The five addresses a claim touches, all derived.
pub struct ClaimAccounts {
    pub distributor: Address,
    pub claim_status: Address,
    pub token_vault: Address,
    pub wallet_ata: Address,
    pub cex_ata: Address,
}

/// Whether every address a claim needs can be derived for this wallet,
/// destination and distribution version.
pub open spec fn spec_claim_accounts_derivable(version: u32, wallet: Seq<u8>, cex: Seq<u8>) -> bool {
    &&& pda_of(spec_distributor_seeds(version), spec_claim_program_id()) matches Some(d)
    &&& pda_of(spec_claim_status_seeds(wallet, d.0), spec_claim_program_id()) is Some
    &&& pda_of(
        spec_ata_seeds(d.0, spec_grass_mint(), spec_token_program_id()),
        spec_associated_token_program_id(),
    ) is Some
    &&& pda_of(
        spec_ata_seeds(wallet, spec_grass_mint(), spec_token_program_id()),
        spec_associated_token_program_id(),
    ) is Some
    &&& pda_of(
        spec_ata_seeds(cex, spec_grass_mint(), spec_token_program_id()),
        spec_associated_token_program_id(),
    ) is Some
}

/// What a derived [`ClaimAccounts`] value holds: each field is the address
/// part of the corresponding derivation.
pub open spec fn spec_claim_accounts_ok(
    version: u32,
    wallet: Seq<u8>,
    cex: Seq<u8>,
    acc: ClaimAccounts,
) -> bool {
    &&& pda_of(spec_distributor_seeds(version), spec_claim_program_id()) matches Some(d)
        && d.0 == acc.distributor@
    &&& pda_of(spec_claim_status_seeds(wallet, acc.distributor@), spec_claim_program_id())
        matches Some(c) && c.0 == acc.claim_status@
    &&& pda_of(
        spec_ata_seeds(acc.distributor@, spec_grass_mint(), spec_token_program_id()),
        spec_associated_token_program_id(),
    ) matches Some(v) && v.0 == acc.token_vault@
    &&& pda_of(
        spec_ata_seeds(wallet, spec_grass_mint(), spec_token_program_id()),
        spec_associated_token_program_id(),
    ) matches Some(w) && w.0 == acc.wallet_ata@
    &&& pda_of(
        spec_ata_seeds(cex, spec_grass_mint(), spec_token_program_id()),
        spec_associated_token_program_id(),
    ) matches Some(x) && x.0 == acc.cex_ata@
}

/// Derive every address a claim touches, or nothing when one of the
/// derivations yields no address.
pub fn derive_claim_accounts(version_number: u32, wallet: &Address, cex: &Address) -> (r: Option<
    ClaimAccounts,
>)
    ensures
        r is Some <==> spec_claim_accounts_derivable(version_number, wallet@, cex@),
        r matches Some(acc) ==> spec_claim_accounts_ok(version_number, wallet@, cex@, acc)
            && acc.distributor.wf() && acc.claim_status.wf() && acc.token_vault.wf()
            && acc.wallet_ata.wf() && acc.cex_ata.wf(),
{
    let mint = grass_mint();
    let token_prog = token_program_id();
    let (distributor, _distributor_bump) = match derive_merkle_distributor(version_number) {
        None => {
            return None;
        },
        Some(p) => p,
    };
    let (claim_status, _claim_status_bump) = match derive_claim_status(wallet, &distributor) {
        None => {
            return None;
        },
        Some(p) => p,
    };
    let (token_vault, _vault_bump) = match derive_ata(&distributor, &mint, &token_prog) {
        None => {
            return None;
        },
        Some(p) => p,
    };
    let (wallet_ata, _wallet_ata_bump) = match derive_ata(wallet, &mint, &token_prog) {
        None => {
            return None;
        },
        Some(p) => p,
    };
    let (cex_ata, _cex_ata_bump) = match derive_ata(cex, &mint, &token_prog) {
        None => {
            return None;
        },
        Some(p) => p,
    };
    Some(ClaimAccounts { distributor, claim_status, token_vault, wallet_ata, cex_ata })
}

/// The observed on-chain state a claim decision depends on.
pub struct ClaimChainState {
    /// Raw data of the claim-status account, or None when the account does
    /// not exist.
    pub claim_status_data: Option<Vec<u8>>,
    /// Whether the wallet's associated token account exists.
    pub wallet_ata_exists: bool,
    /// The rent-exemption minimum for the claim-status account's size.
    pub rent: u64,
    /// The wallet's lamport balance.
    pub wallet_balance: u64,
    /// Whether the destination's associated token account exists; read only
    /// when forwarding is enabled.
    pub cex_ata_exists: bool,
}

impl ClaimChainState {
    /// The claim-status account exists and already records a completed
    /// claim: allocation equal to sent allocation.
    pub open spec fn already_claimed(&self) -> bool {
        &&& self.claim_status_data matches Some(d)
        &&& d@.len() >= 64
        &&& vstd::bytes::spec_u64_from_le_bytes(d@.subrange(40, 48))
            == vstd::bytes::spec_u64_from_le_bytes(d@.subrange(48, 56))
    }

    /// The claim-status account exists but its data cannot be read back.
    pub open spec fn status_unreadable(&self) -> bool {
        self.claim_status_data matches Some(d) && d@.len() < 64
    }
}

/// Why a planner gave up on an attempt.
#[derive(Clone, Copy, Debug, PartialEq, Eq, Structural)]
pub enum PlanError {
    /// The claim-status account exists but its data does not parse.
    ClaimStatusUnreadable,
    /// The token account exists but its balance could not be read.
    TokenBalanceUnreadable,
}

/// The outcome of planning a claim.
#[derive(Debug)]
pub enum ClaimPlan {
    /// The wallet has already claimed in full; mark it done, submit nothing.
    AlreadyClaimed,
    /// The wallet cannot fund the rent itself and no external payer is
    /// configured; skip the attempt, leave the wallet retryable.
    RentShortfall,
    /// Sign and submit exactly these instructions.
    Submit(Vec<Instruction>),
}

/// The instruction list of a submitting claim: create the wallet's token
/// account when missing, top up rent from an external payer when the
/// balance falls short, claim, and optionally create the destination's
/// token account and forward the claimed amount there.
pub open spec fn spec_claim_plan_ixs(
    acc: ClaimAccounts,
    st: ClaimChainState,
    wallet: Seq<u8>,
    cex: Seq<u8>,
    payer: Seq<u8>,
    allocation: u64,
    proof: Seq<Seq<u8>>,
    withdraw_to_cex: bool,
) -> Seq<InstructionModel> {
    (if !st.wallet_ata_exists {
        seq![
            spec_create_ata_ix(
                payer,
                acc.wallet_ata@,
                wallet,
                spec_grass_mint(),
                spec_token_program_id(),
                0u8,
            ),
        ]
    } else {
        Seq::<InstructionModel>::empty()
    }) + (if st.wallet_balance < st.rent && payer != wallet {
        seq![spec_transfer_ix(payer, wallet, st.rent)]
    } else {
        Seq::<InstructionModel>::empty()
    }) + seq![
        spec_claim_ix(
            spec_claim_program_id(),
            acc.distributor@,
            spec_grass_mint(),
            acc.claim_status@,
            acc.token_vault@,
            acc.wallet_ata@,
            wallet,
            spec_token_program_id(),
            spec_system_program_id(),
            allocation,
            proof,
        ),
    ] + (if withdraw_to_cex {
        (if !st.cex_ata_exists {
            seq![
                spec_create_ata_ix(
                    payer,
                    acc.cex_ata@,
                    cex,
                    spec_grass_mint(),
                    spec_token_program_id(),
                    0u8,
                ),
            ]
        } else {
            Seq::<InstructionModel>::empty()
        }) + seq![
            spec_transfer_checked_ix(
                acc.wallet_ata@,
                spec_grass_mint(),
                acc.cex_ata@,
                wallet,
                allocation,
                9u8,
            ),
        ]
    } else {
        Seq::<InstructionModel>::empty()
    })
}

/// Decide what a wallet's claim attempt must do, from the derived accounts
/// and the observed chain state.
pub fn plan_claim(
    acc: &ClaimAccounts,
    st: &ClaimChainState,
    wallet: &Address,
    cex: &Address,
    payer: &Address,
    allocation: u64,
    proof_nodes: Vec<Vec<u8>>,
    withdraw_to_cex: bool,
) -> (r: Result<ClaimPlan, PlanError>)
    requires
        proof_nodes@.len() <= u32::MAX,
    ensures
        r is Err <==> !st.already_claimed() && st.status_unreadable(),
        r matches Err(e) ==> e is ClaimStatusUnreadable,
        r matches Ok(plan) ==> {
            &&& (plan is AlreadyClaimed <==> st.already_claimed())
            &&& (plan is RentShortfall <==> !st.already_claimed() && st.wallet_balance < st.rent
                && payer@ == wallet@)
            &&& (plan matches ClaimPlan::Submit(ixs) ==> ixs@.map_values(
                |ix: Instruction| ix.model(),
            ) == spec_claim_plan_ixs(
                *acc,
                *st,
                wallet@,
                cex@,
                payer@,
                allocation,
                proof_nodes.deep_view(),
                withdraw_to_cex,
            ))
        },
{
    match &st.claim_status_data {
        Some(data) => {
            if data.len() >= 64 {
                let status = parse_claim_status(data).unwrap();
                if status.allocation == status.sent_allocation {
                    return Ok(ClaimPlan::AlreadyClaimed);
                }
            } else {
                return Err(PlanError::ClaimStatusUnreadable);
            }
        },
        None => {},
    }

    let payer_is_wallet = payer.same_as(wallet);

    let mut ixs: Vec<Instruction> = Vec::new();

    if !st.wallet_ata_exists {
        ixs.push(Instructions::create_ata(CreateAtaArgs {
            funding_address: payer.dup(),
            associated_account_address: acc.wallet_ata.dup(),
            wallet_address: wallet.dup(),
            token_mint_address: grass_mint(),
            token_program_id: token_program_id(),
            instruction: 0u8,
        }));
    }

    if st.wallet_balance < st.rent {
        if payer_is_wallet {
            return Ok(ClaimPlan::RentShortfall);
        } else {
            ixs.push(Instructions::transfer(payer, wallet, st.rent));
        }
    }

    let ghost proof_view = proof_nodes.deep_view();
    ixs.push(Instructions::claim(ClaimArgs {
        program_id: claim_program_id(),
        distributor: acc.distributor.dup(),
        mint_token: grass_mint(),
        claim_status: acc.claim_status.dup(),
        from: acc.token_vault.dup(),
        to: acc.wallet_ata.dup(),
        claimant: wallet.dup(),
        token_program: token_program_id(),
        system_program: system_program_id(),
        allocation,
        proof: proof_nodes,
    }));

    if withdraw_to_cex {
        if !st.cex_ata_exists {
            ixs.push(Instructions::create_ata(CreateAtaArgs {
                funding_address: payer.dup(),
                associated_account_address: acc.cex_ata.dup(),
                wallet_address: cex.dup(),
                token_mint_address: grass_mint(),
                token_program_id: token_program_id(),
                instruction: 0u8,
            }));
        }
        ixs.push(Instructions::transfer_checked(
            &acc.wallet_ata,
            &grass_mint(),
            &acc.cex_ata,
            wallet,
            allocation,
            9u8,
        ));
    }

    proof {
        assert(ixs@.map_values(|ix: Instruction| ix.model()) =~= spec_claim_plan_ixs(
            *acc,
            *st,
            wallet@,
            cex@,
            payer@,
            allocation,
            proof_view,
            withdraw_to_cex,
        ));
    }
    Ok(ClaimPlan::Submit(ixs))
}

/// The observed on-chain state a close decision depends on.
pub struct CloseChainState {
    /// Whether the wallet's associated token account exists.
    pub wallet_ata_exists: bool,
    /// The token balance of that account, or None when it could not be
    /// read back; read only when the account exists.
    pub token_balance: Option<u64>,
    /// The rent-exemption minimum for a token account's size.
    pub rent: u64,
}

/// The outcome of planning a token-account close.
#[derive(Debug)]
pub enum ClosePlan {
    /// The token account does not exist; nothing to close, mark it done.
    AlreadyClosed,
    /// The token account still holds tokens; skip, leave the wallet
    /// retryable.
    BalanceBlocksClose,
    /// Sign and submit exactly these instructions.
    Submit(Vec<Instruction>),
}

/// Decide what a wallet's close attempt must do: close the empty token
/// account, sweeping its rent to the payer and the skim to the operator.
pub fn plan_close(
    wallet: &Address,
    payer: &Address,
    wallet_ata: &Address,
    st: &CloseChainState,
) -> (r: Result<ClosePlan, PlanError>)
    ensures
        r is Err <==> st.wallet_ata_exists && st.token_balance is None,
        r matches Err(e) ==> e is TokenBalanceUnreadable,
        r matches Ok(plan) ==> {
            &&& (plan is AlreadyClosed <==> !st.wallet_ata_exists)
            &&& (plan is BalanceBlocksClose <==> st.wallet_ata_exists && (
            st.token_balance matches Some(b) && b != 0))
            &&& (plan matches ClosePlan::Submit(ixs) ==> ixs@.map_values(
                |ix: Instruction| ix.model(),
            ) =~= seq![
                spec_close_account_ix(wallet_ata@, payer@, wallet@),
                spec_transfer_ix(payer@, spec_close_operator(), spec_skim(st.rent) as u64),
            ])
        },
{
    if !st.wallet_ata_exists {
        return Ok(ClosePlan::AlreadyClosed);
    }
    let balance = match &st.token_balance {
        None => {
            return Err(PlanError::TokenBalanceUnreadable);
        },
        Some(b) => *b,
    };
    if balance != 0 {
        return Ok(ClosePlan::BalanceBlocksClose);
    }
    let ixs = Instructions::close_account(wallet_ata, wallet, payer, st.rent);
    proof {
        assert(ixs@.map_values(|ix: Instruction| ix.model()) =~= seq![
            spec_close_account_ix(wallet_ata@, payer@, wallet@),
            spec_transfer_ix(payer@, spec_close_operator(), spec_skim(st.rent) as u64),
        ]);
    }
    Ok(ClosePlan::Submit(ixs))
}

/// The outcome of planning a residual-balance sweep.
#[derive(Debug)]
pub enum CollectPlan {
    /// The wallet holds nothing to sweep; skip the attempt, leave the
    /// wallet retryable.
    NothingToSweep,
    /// Sign and submit exactly these instructions.
    Submit(Vec<Instruction>),
}

/// Plan a residual-balance sweep: transfer the wallet's whole observed
/// balance to the collector, or skip when there is nothing to sweep.
pub fn plan_collect(wallet: &Address, collector: &Address, wallet_balance: u64) -> (r: CollectPlan)
    ensures
        r is NothingToSweep <==> wallet_balance == 0,
        r matches CollectPlan::Submit(ixs) ==> ixs@.map_values(|ix: Instruction| ix.model())
            =~= seq![spec_transfer_ix(wallet@, collector@, wallet_balance)],
{
    if wallet_balance == 0 {
        return CollectPlan::NothingToSweep;
    }
    let mut ixs: Vec<Instruction> = Vec::new();
    ixs.push(Instructions::transfer(wallet, collector, wallet_balance));
    CollectPlan::Submit(ixs)
}

/// The outcome a sweep plan itself settles: an empty wallet leaves the
/// record retryable without a submission; a submission's outcome is not
/// yet known.
pub fn outcome_of_collect_plan(plan: &CollectPlan) -> (r: Option<
    crate::orchestrator::AttemptOutcome,
>)
    ensures
        match plan {
            CollectPlan::NothingToSweep => r == Some(
                crate::orchestrator::AttemptOutcome::PreconditionNotMet,
            ),
            CollectPlan::Submit(_) => r is None,
        },
        r matches Some(o) ==> !crate::orchestrator::spec_outcome_marks_done(o),
{
    match plan {
        CollectPlan::NothingToSweep => Some(
            crate::orchestrator::AttemptOutcome::PreconditionNotMet,
        ),
        CollectPlan::Submit(_) => None,
    }
}

/// The observed on-chain state a combined collect-and-close depends on.
pub struct CollectCloseChainState {
    /// Whether the wallet's associated token account exists.
    pub wallet_ata_exists: bool,
    /// The token balance of that account, or None when it could not be
    /// read back; read only when the account exists.
    pub token_balance: Option<u64>,
    /// Whether the collector's associated token account exists; read only
    /// when there are tokens to forward.
    pub collector_ata_exists: bool,
    /// The rent-exemption minimum for a token account's size.
    pub rent: u64,
    /// The wallet's lamport balance.
    pub wallet_balance: u64,
}

impl CollectCloseChainState {
    /// The balance the sweep counts on: when the close refunds rent to the
    /// wallet itself, the refund net of the skim is added.
    pub open spec fn adjusted_balance(&self, payer_is_wallet: bool) -> int {
        if self.wallet_ata_exists && payer_is_wallet {
            self.wallet_balance + self.rent - spec_skim(self.rent)
        } else {
            self.wallet_balance as int
        }
    }
}

/// The instruction list of a combined collect-and-close: forward any
/// remaining tokens to the collector (creating its token account when
/// missing), close the wallet's token account with its skim, then sweep
/// the lamports above the fee reserve of 5000 when anything is left.
pub open spec fn spec_collect_close_ixs(
    st: CollectCloseChainState,
    wallet: Seq<u8>,
    collector: Seq<u8>,
    payer: Seq<u8>,
    wallet_ata: Seq<u8>,
    collector_ata: Seq<u8>,
) -> Seq<InstructionModel> {
    let token_part = if st.wallet_ata_exists {
        (match st.token_balance {
            Some(tb) => if tb != 0 {
                (if !st.collector_ata_exists {
                    seq![
                        spec_create_ata_ix(
                            payer,
                            collector_ata,
                            collector,
                            spec_grass_mint(),
                            spec_token_program_id(),
                            0u8,
                        ),
                    ]
                } else {
                    Seq::<InstructionModel>::empty()
                }) + seq![
                    spec_transfer_checked_ix(
                        wallet_ata,
                        spec_grass_mint(),
                        collector_ata,
                        wallet,
                        tb,
                        9u8,
                    ),
                ]
            } else {
                Seq::<InstructionModel>::empty()
            },
            None => Seq::<InstructionModel>::empty(),
        }) + seq![
            spec_close_account_ix(wallet_ata, payer, wallet),
            spec_transfer_ix(payer, spec_close_operator(), spec_skim(st.rent) as u64),
        ]
    } else {
        Seq::<InstructionModel>::empty()
    };
    let payer_is_wallet = payer == wallet;
    let adjusted = st.adjusted_balance(payer_is_wallet);
    if adjusted <= 5000 {
        token_part
    } else {
        let amount = if payer_is_wallet {
            adjusted - 5000
        } else {
            adjusted
        };
        token_part + seq![spec_transfer_ix(wallet, collector, amount as u64)]
    }
}

/// A combined collect-and-close plan: the instructions to submit (possibly
/// none), and whether the lamport sweep is among them. When the sweep is
/// left out, the balance sat at or below the fee reserve, and the sweep
/// flag must stay unset whatever else settles.
#[derive(Debug)]
pub struct CollectClosePlan {
    pub instructions: Vec<Instruction>,
    pub sweeps: bool,
}

/// Decide what a combined collect-and-close attempt must do.
pub fn plan_collect_and_close(
    wallet: &Address,
    collector: &Address,
    payer: &Address,
    wallet_ata: &Address,
    collector_ata: &Address,
    st: &CollectCloseChainState,
) -> (r: Result<CollectClosePlan, PlanError>)
    requires
        st.wallet_balance + st.rent <= u64::MAX,
    ensures
        r is Err <==> st.wallet_ata_exists && st.token_balance is None,
        r matches Err(e) ==> e is TokenBalanceUnreadable,
        r matches Ok(plan) ==> {
            &&& plan.instructions@.map_values(|ix: Instruction| ix.model())
                == spec_collect_close_ixs(
                *st,
                wallet@,
                collector@,
                payer@,
                wallet_ata@,
                collector_ata@,
            )
            &&& (plan.sweeps <==> st.adjusted_balance(payer@ == wallet@) > 5000)
        },
{
    let payer_is_wallet = payer.same_as(wallet);
    let mut ixs: Vec<Instruction> = Vec::new();
    let mut should_add_rent = false;

    if st.wallet_ata_exists {
        if payer_is_wallet {
            should_add_rent = true;
        }
        let token_balance = match &st.token_balance {
            None => {
                return Err(PlanError::TokenBalanceUnreadable);
            },
            Some(b) => *b,
        };
        if token_balance != 0 {
            if !st.collector_ata_exists {
                ixs.push(Instructions::create_ata(CreateAtaArgs {
                    funding_address: payer.dup(),
                    associated_account_address: collector_ata.dup(),
                    wallet_address: collector.dup(),
                    token_mint_address: grass_mint(),
                    token_program_id: token_program_id(),
                    instruction: 0u8,
                }));
            }
            ixs.push(Instructions::transfer_checked(
                wallet_ata,
                &grass_mint(),
                collector_ata,
                wallet,
                token_balance,
                9u8,
            ));
        }
        let mut close_ixs = Instructions::close_account(wallet_ata, wallet, payer, st.rent);
        ixs.append(&mut close_ixs);
    }

    proof {
        assert(spec_skim(st.rent) <= st.rent) by (nonlinear_arith);
    }
    let balance: u64 = if should_add_rent {
        st.wallet_balance + (st.rent - skim_amount(st.rent))
    } else {
        st.wallet_balance
    };

    if balance <= 5000 {
        proof {
            assert(ixs@.map_values(|ix: Instruction| ix.model()) =~= spec_collect_close_ixs(
                *st,
                wallet@,
                collector@,
                payer@,
                wallet_ata@,
                collector_ata@,
            ));
        }
        return Ok(CollectClosePlan { instructions: ixs, sweeps: false });
    }

    let amount_to_withdraw: u64 = if payer_is_wallet {
        balance - 5000
    } else {
        balance
    };
    ixs.push(Instructions::transfer(wallet, collector, amount_to_withdraw));
    proof {
        assert(ixs@.map_values(|ix: Instruction| ix.model()) =~= spec_collect_close_ixs(
            *st,
            wallet@,
            collector@,
            payer@,
            wallet_ata@,
            collector_ata@,
        ));
    }
    Ok(CollectClosePlan { instructions: ixs, sweeps: true })
}

/// Whether every byte of a string is an ASCII decimal digit.
pub open spec fn spec_all_digits(s: Seq<u8>) -> bool {
    forall|i: int| 0 <= i < s.len() ==> 48 <= #[trigger] s[i] <= 57
}

/// The number a string of decimal digits denotes.
pub open spec fn spec_digits_value(s: Seq<u8>) -> int
    decreases s.len(),
{
    if s.len() == 0 {
        0
    } else {
        spec_digits_value(s.drop_last()) * 10 + (s.last() - 48)
    }
}

/// A digit string's value is never negative and never shrinks as digits
/// are appended.
proof fn lemma_digits_value_nonneg(s: Seq<u8>)
    requires
        spec_all_digits(s),
    ensures
        spec_digits_value(s) >= 0,
        s.len() > 0 ==> spec_digits_value(s) >= spec_digits_value(s.drop_last()),
    decreases s.len(),
{
    if s.len() > 0 {
        assert(spec_all_digits(s.drop_last()));
        lemma_digits_value_nonneg(s.drop_last());
    }
}

/// Read a token amount: a non-empty string of decimal digits whose value
/// fits in a u64; anything else is nothing.
pub fn parse_token_amount(s: &[u8]) -> (r: Option<u64>)
    ensures
        ({
            let ok = s@.len() > 0 && spec_all_digits(s@) && spec_digits_value(s@) <= u64::MAX;
            &&& (r is Some <==> ok)
            &&& (r matches Some(v) ==> v == spec_digits_value(s@))
        }),
{
    if s.len() == 0 {
        return None;
    }
    let mut acc: u64 = 0;
    let mut i: usize = 0;
    while i < s.len()
        invariant
            i <= s.len(),
            spec_all_digits(s@.take(i as int)),
            acc == spec_digits_value(s@.take(i as int)),
        decreases s.len() - i,
    {
        let b = s[i];
        proof {
            assert(s@.take(i + 1 as int).drop_last() =~= s@.take(i as int));
            assert(s@.take(i + 1 as int).last() == s@[i as int]);
        }
        if b < 48 || b > 57 {
            return None;
        }
        let d = (b - 48) as u64;
        if acc > (u64::MAX - d) / 10 {
            // The value has already outgrown a u64; appending digits can
            // only grow it further.
            proof {
                assert(spec_all_digits(s@.take(i + 1 as int)));
                assert(spec_digits_value(s@.take(i + 1 as int)) > u64::MAX);
                lemma_digits_grow_beyond(s@, i + 1 as int);
            }
            return None;
        }
        acc = acc * 10 + d;
        i = i + 1;
    }
    proof {
        assert(s@.take(s@.len() as int) =~= s@);
    }
    Some(acc)
}

/// Once a prefix of a digit string exceeds the u64 range, the whole string
/// does too.
proof fn lemma_digits_grow_beyond(s: Seq<u8>, k: int)
    requires
        0 <= k <= s.len(),
        spec_all_digits(s.take(k)),
        spec_digits_value(s.take(k)) > u64::MAX,
    ensures
        spec_all_digits(s) ==> spec_digits_value(s) > u64::MAX,
    decreases s.len() - k,
{
    if k < s.len() {
        if spec_all_digits(s) {
            assert(spec_all_digits(s.take(k + 1)));
            assert(s.take(k + 1).drop_last() =~= s.take(k));
            lemma_digits_value_nonneg(s.take(k + 1));
            assert(spec_digits_value(s.take(k + 1)) == spec_digits_value(s.take(k)) * 10 + (
            s.take(k + 1).last() - 48));
            lemma_digits_grow_beyond(s, k + 1);
        }
    } else {
        assert(s.take(k) =~= s);
    }
}

/// The outcome a claim plan itself settles, before anything is submitted:
/// an already-claimed wallet counts as settled, a rent shortfall leaves
/// the wallet retryable, and a submission's outcome is not yet known.
pub fn outcome_of_claim_plan(plan: &ClaimPlan) -> (r: Option<
    crate::orchestrator::AttemptOutcome,
>)
    ensures
        match plan {
            ClaimPlan::AlreadyClaimed => r == Some(
                crate::orchestrator::AttemptOutcome::AlreadySettled,
            ),
            ClaimPlan::RentShortfall => r == Some(
                crate::orchestrator::AttemptOutcome::PreconditionNotMet,
            ),
            ClaimPlan::Submit(_) => r is None,
        },
        r matches Some(o) ==> (crate::orchestrator::spec_outcome_marks_done(o) <==> plan
            is AlreadyClaimed),
{
    match plan {
        ClaimPlan::AlreadyClaimed => Some(crate::orchestrator::AttemptOutcome::AlreadySettled),
        ClaimPlan::RentShortfall => Some(crate::orchestrator::AttemptOutcome::PreconditionNotMet),
        ClaimPlan::Submit(_) => None,
    }
}

/// The outcome a close plan itself settles: a token account that is
/// already gone counts as settled, a blocking balance leaves the wallet
/// retryable, and a submission's outcome is not yet known.
pub fn outcome_of_close_plan(plan: &ClosePlan) -> (r: Option<
    crate::orchestrator::AttemptOutcome,
>)
    ensures
        match plan {
            ClosePlan::AlreadyClosed => r == Some(
                crate::orchestrator::AttemptOutcome::AlreadySettled,
            ),
            ClosePlan::BalanceBlocksClose => r == Some(
                crate::orchestrator::AttemptOutcome::PreconditionNotMet,
            ),
            ClosePlan::Submit(_) => r is None,
        },
        r matches Some(o) ==> (crate::orchestrator::spec_outcome_marks_done(o) <==> plan
            is AlreadyClosed),
{
    match plan {
        ClosePlan::AlreadyClosed => Some(crate::orchestrator::AttemptOutcome::AlreadySettled),
        ClosePlan::BalanceBlocksClose => Some(
            crate::orchestrator::AttemptOutcome::PreconditionNotMet,
        ),
        ClosePlan::Submit(_) => None,
    }
}

} // verus!
