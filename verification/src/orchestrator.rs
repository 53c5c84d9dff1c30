//! The per-mode loop over the wallet store: which wallets still need work,
//! how one is picked without replacement, and how an attempt's outcome is
//! written back to the record's flags.
//!
//! Policy on failures: only a confirmed action or an already-settled state
//! marks a wallet done. Validation failures, unmet preconditions and
//! submission failures leave the flags untouched, so the wallet is retried
//! on a future pass.

use vstd::prelude::*;
use vstd::seq_lib::group_to_multiset_ensures;

verus! {

/// The three completion flags of a wallet record.
#[derive(Clone, Copy, Debug, PartialEq, Eq, Structural)]
pub struct WalletFlags {
    pub claimed: bool,
    pub closed_ata: bool,
    pub collected_sol: bool,
}

/// One mode of a run over the wallet store.
#[derive(Clone, Copy, Debug, PartialEq, Eq, Structural)]
pub enum Mode {
    /// Claim the airdrop.
    Claim,
    /// Close the wallet's token account.
    CloseAta,
    /// Sweep the wallet's lamport balance.
    CollectSol,
    /// Forward tokens, close the token account, and sweep in one pass.
    CollectAndClose,
}

/// Whether a wallet is done for a mode.
pub open spec fn spec_done(f: WalletFlags, m: Mode) -> bool {
    match m {
        Mode::Claim => f.claimed,
        Mode::CloseAta => f.closed_ata,
        Mode::CollectSol => f.collected_sol,
        Mode::CollectAndClose => f.collected_sol && f.closed_ata,
    }
}

pub fn is_done(f: &WalletFlags, m: Mode) -> (r: bool)
    ensures
        r == spec_done(*f, m),
{
    match m {
        Mode::Claim => f.claimed,
        Mode::CloseAta => f.closed_ata,
        Mode::CollectSol => f.collected_sol,
        Mode::CollectAndClose => f.collected_sol && f.closed_ata,
    }
}

/// The indices of the wallets not yet done for a mode, in increasing order.
pub open spec fn spec_pending(flags: Seq<WalletFlags>, m: Mode) -> Seq<usize>
    decreases flags.len(),
{
    if flags.len() == 0 {
        seq![]
    } else {
        let rest = spec_pending(flags.drop_last(), m);
        if !spec_done(flags.last(), m) {
            rest.push((flags.len() - 1) as usize)
        } else {
            rest
        }
    }
}

/// When every wallet is done for a mode, nothing is pending.
pub proof fn lemma_pending_all_done(flags: Seq<WalletFlags>, m: Mode)
    requires
        forall|i: int| 0 <= i < flags.len() ==> spec_done(#[trigger] flags[i], m),
    ensures
        spec_pending(flags, m).len() == 0,
    decreases flags.len(),
{
    if flags.len() > 0 {
        lemma_pending_all_done(flags.drop_last(), m);
    }
}

/// When no wallet is done for a mode, every wallet is pending, each exactly
/// once and in order.
pub proof fn lemma_pending_none_done(flags: Seq<WalletFlags>, m: Mode)
    requires
        flags.len() <= usize::MAX,
        forall|i: int| 0 <= i < flags.len() ==> !spec_done(#[trigger] flags[i], m),
    ensures
        spec_pending(flags, m).len() == flags.len(),
        forall|k: int| 0 <= k < flags.len() ==> spec_pending(flags, m)[k] == k,
    decreases flags.len(),
{
    if flags.len() > 0 {
        assert(forall|i: int|
            0 <= i < flags.drop_last().len() ==> !spec_done(
                #[trigger] flags.drop_last()[i],
                m,
            ));
        lemma_pending_none_done(flags.drop_last(), m);
        assert(!spec_done(flags.last(), m));
        assert(spec_pending(flags, m) == spec_pending(flags.drop_last(), m).push(
            (flags.len() - 1) as usize,
        ));
        assert forall|k: int| 0 <= k < flags.len() implies spec_pending(flags, m)[k] == k by {
            let rest = spec_pending(flags.drop_last(), m);
            if k < flags.len() - 1 {
                assert(spec_pending(flags, m)[k] == rest[k]);
            } else {
                assert(spec_pending(flags, m)[k] == (flags.len() - 1) as usize);
            }
        }
    }
}

/// One pass of a mode over the store: the pending indices, consumed one at
/// a time without replacement; the picked ones are carried as ghost state
/// so that their distinctness is part of the machine's invariant.
pub struct Pass {
    /// Indices of wallets still to attempt in this pass.
    pub pending: Vec<usize>,
    /// Ghost record of the indices already picked.
    pub picked: Ghost<Seq<usize>>,
}

impl Pass {
    /// No index is pending twice, none was picked twice, and nothing
    /// pending was already picked.
    pub open spec fn wf(&self) -> bool {
        &&& self.pending@.no_duplicates()
        &&& self.picked@.no_duplicates()
        &&& forall|x: usize|
            self.picked@.contains(x) ==> !self.pending@.contains(x)
    }

    /// Start a pass: everything not yet done for the mode is pending, and
    /// nothing has been picked.
    pub fn new(flags: &Vec<WalletFlags>, m: Mode) -> (p: Pass)
        ensures
            p.pending@ == spec_pending(flags@, m),
            p.picked@ == Seq::<usize>::empty(),
            p.wf(),
    {
        let mut pending: Vec<usize> = Vec::new();
        let mut i: usize = 0;
        while i < flags.len()
            invariant
                i <= flags.len(),
                pending@ == spec_pending(flags@.take(i as int), m),
                forall|k: int| 0 <= k < pending@.len() ==> #[trigger] pending@[k] < i,
                forall|k1: int, k2: int|
                    0 <= k1 < k2 < pending@.len() ==> pending@[k1] < pending@[k2],
            decreases flags.len() - i,
        {
            proof {
                assert(flags@.take(i + 1 as int).drop_last() =~= flags@.take(i as int));
                assert(flags@.take(i + 1 as int).last() == flags@[i as int]);
            }
            if !is_done(&flags[i], m) {
                pending.push(i);
            }
            i = i + 1;
        }
        proof {
            assert(flags@.take(flags@.len() as int) =~= flags@);
        }
        let p = Pass { pending, picked: Ghost(Seq::empty()) };
        proof {
            assert(p.pending@.no_duplicates()) by {
                assert(forall|k1: int, k2: int|
                    0 <= k1 < p.pending@.len() && 0 <= k2 < p.pending@.len() && k1 != k2
                        ==> p.pending@[k1] != p.pending@[k2]);
            }
        }
        p
    }

    /// How many wallets are still pending.
    pub fn remaining(&self) -> (r: usize)
        ensures
            r == self.pending@.len(),
    {
        self.pending.len()
    }

    /// Pick one pending wallet by the caller's entropy and remove it from
    /// the pass: the pick is some pending index, every pick is distinct,
    /// and when nothing is pending the pass is over.
    pub fn pick(&mut self, entropy: u64) -> (r: Option<usize>)
        requires
            old(self).wf(),
        ensures
            final(self).wf(),
            old(self).pending@.len() == 0 ==> r is None && *final(self) == *old(self),
            old(self).pending@.len() > 0 ==> (r matches Some(idx) && {
                &&& idx == old(self).pending@[entropy as int % old(self).pending@.len() as int]
                &&& old(self).pending@.contains(idx)
                &&& !old(self).picked@.contains(idx)
                &&& final(self).pending@.len() == old(self).pending@.len() - 1
                &&& final(self).pending@.to_multiset() == old(
                    self,
                ).pending@.to_multiset().remove(idx)
                &&& final(self).picked@ == old(self).picked@.push(idx)
            }),
    {
        if self.pending.len() == 0 {
            return None;
        }
        let pos = (entropy % (self.pending.len() as u64)) as usize;
        let ghost old_pending = self.pending@;
        let idx = self.pending.remove(pos);
        proof {
            broadcast use group_to_multiset_ensures;

            assert(old_pending.remove(pos as int).to_multiset() =~= old_pending.to_multiset()
                .remove(idx));
            old_pending.lemma_multiset_has_no_duplicates();
            assert forall|x: usize| self.pending@.to_multiset().contains(x) implies self.pending@
                .to_multiset().count(x) == 1 by {
                assert(old_pending.to_multiset().count(x) >= self.pending@.to_multiset().count(x));
            }
            self.pending@.lemma_multiset_has_no_duplicates_conv();
            assert(self.pending@.to_multiset().count(idx) == 0);
            assert(!self.pending@.contains(idx));
            assert forall|x: usize| self.picked@.push(idx).contains(x) implies !self.pending@
                .contains(x) by {
                if x != idx {
                    assert(self.picked@.contains(x));
                    assert(!old_pending.contains(x));
                    assert(old_pending.to_multiset().count(x) == 0);
                    assert(self.pending@.to_multiset().count(x) == 0);
                }
            }
            assert(!self.picked@.contains(idx)) by {
                assert(old_pending.contains(idx));
            }
            assert(self.picked@.push(idx).no_duplicates());
        }
        self.picked = Ghost(self.picked@.push(idx));
        Some(idx)
    }
}

/// How one wallet's attempt ended.
#[derive(Clone, Copy, Debug, PartialEq, Eq, Structural)]
pub enum AttemptOutcome {
    /// The on-chain action was submitted and confirmed.
    Completed,
    /// The chain already shows the work done; nothing was submitted.
    AlreadySettled,
    /// The receipt failed validation; the wallet stays retryable.
    ValidationFailed,
    /// A precondition was not met (rent shortfall, blocking balance); the
    /// wallet stays retryable.
    PreconditionNotMet,
    /// Submission or confirmation failed; the wallet stays retryable.
    AttemptFailed,
}

/// Whether an outcome marks the wallet done for the attempted mode.
pub open spec fn spec_outcome_marks_done(o: AttemptOutcome) -> bool {
    o is Completed || o is AlreadySettled
}

pub fn outcome_marks_done(o: AttemptOutcome) -> (r: bool)
    ensures
        r == spec_outcome_marks_done(o),
{
    match o {
        AttemptOutcome::Completed => true,
        AttemptOutcome::AlreadySettled => true,
        _ => false,
    }
}

/// A wallet's flags with a mode marked done.
pub open spec fn spec_set_done(f: WalletFlags, m: Mode) -> WalletFlags {
    match m {
        Mode::Claim => WalletFlags { claimed: true, ..f },
        Mode::CloseAta => WalletFlags { closed_ata: true, ..f },
        Mode::CollectSol => WalletFlags { collected_sol: true, ..f },
        Mode::CollectAndClose => WalletFlags { closed_ata: true, collected_sol: true, ..f },
    }
}

/// Write an attempt's outcome back to the record's flags: exactly the
/// attempted mode's flags flip on success, and nothing changes otherwise.
pub fn apply_outcome(f: &mut WalletFlags, m: Mode, o: AttemptOutcome)
    ensures
        spec_outcome_marks_done(o) ==> *final(f) == spec_set_done(*old(f), m),
        !spec_outcome_marks_done(o) ==> *final(f) == *old(f),
        spec_outcome_marks_done(o) ==> spec_done(*final(f), m),
{
    if outcome_marks_done(o) {
        match m {
            Mode::Claim => {
                f.claimed = true;
            },
            Mode::CloseAta => {
                f.closed_ata = true;
            },
            Mode::CollectSol => {
                f.collected_sol = true;
            },
            Mode::CollectAndClose => {
                f.closed_ata = true;
                f.collected_sol = true;
            },
        }
    }
}

/// A successful attempt flips exactly the attempted mode's flags: the
/// mode's predicate holds afterwards, and every flag outside the mode is
/// untouched.
pub proof fn lemma_set_done_flips_exactly_the_mode(f: WalletFlags, m: Mode)
    ensures
        spec_done(spec_set_done(f, m), m),
        m is Claim ==> spec_set_done(f, m) == (WalletFlags { claimed: true, ..f }),
        m is CloseAta ==> spec_set_done(f, m) == (WalletFlags { closed_ata: true, ..f }),
        m is CollectSol ==> spec_set_done(f, m) == (WalletFlags { collected_sol: true, ..f }),
        m is CollectAndClose ==> spec_set_done(f, m) == (WalletFlags {
            closed_ata: true,
            collected_sol: true,
            ..f
        }),
{
}

/// The throttling delay between two wallets: drawn from the configured
/// inclusive range by the caller's entropy.
pub fn sleep_duration(range: &[u64; 2], entropy: u64) -> (d: u64)
    requires
        range@[0] <= range@[1],
        range@[1] - range@[0] < u64::MAX,
    ensures
        range@[0] <= d <= range@[1],
        d == range@[0] + (entropy as int) % (range@[1] - range@[0] + 1),
{
    let lo = vstd::array::array_index_get(range, 0);
    let hi = vstd::array::array_index_get(range, 1);
    *lo + entropy % (*hi - *lo + 1)
}

} // verus!
