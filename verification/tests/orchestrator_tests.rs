use std::collections::HashSet;

use grass_claim::orchestrator::{
    apply_outcome, is_done, outcome_marks_done, sleep_duration, AttemptOutcome, Mode, Pass,
    WalletFlags,
};
use grass_claim::query::{AllocationQuery, Cluster, ReceiptQuery};

fn flags(claimed: bool, closed_ata: bool, collected_sol: bool) -> WalletFlags {
    WalletFlags { claimed, closed_ata, collected_sol }
}

#[test]
fn done_predicates_follow_the_mode() {
    let f = flags(true, false, true);
    assert!(is_done(&f, Mode::Claim));
    assert!(!is_done(&f, Mode::CloseAta));
    assert!(is_done(&f, Mode::CollectSol));
    assert!(!is_done(&f, Mode::CollectAndClose));
    assert!(is_done(&flags(false, true, true), Mode::CollectAndClose));
}

#[test]
fn all_done_records_mean_an_empty_pass() {
    let store = vec![flags(true, false, false); 8];
    let mut pass = Pass::new(&store, Mode::Claim);
    assert_eq!(pass.remaining(), 0);
    assert_eq!(pass.pick(12345), None);
}

#[test]
fn all_pending_records_are_each_picked_exactly_once() {
    let store = vec![flags(false, false, false); 7];
    let mut pass = Pass::new(&store, Mode::Claim);
    assert_eq!(pass.remaining(), 7);
    let mut seen: HashSet<usize> = HashSet::new();
    let mut entropy: u64 = 0xDEADBEEF;
    for _ in 0..7 {
        let idx = pass.pick(entropy).unwrap();
        assert!(idx < 7);
        assert!(seen.insert(idx), "an index was picked twice");
        entropy = entropy.wrapping_mul(6364136223846793005).wrapping_add(1);
    }
    assert_eq!(pass.pick(entropy), None);
    assert_eq!(seen.len(), 7);
}

#[test]
fn a_mixed_pass_selects_only_unfinished_records() {
    let store = vec![
        flags(true, false, false),
        flags(false, false, false),
        flags(true, false, false),
        flags(false, false, false),
    ];
    let mut pass = Pass::new(&store, Mode::Claim);
    assert_eq!(pass.remaining(), 2);
    let a = pass.pick(1).unwrap();
    let b = pass.pick(1).unwrap();
    let mut got = vec![a, b];
    got.sort();
    assert_eq!(got, vec![1, 3]);
}

#[test]
fn only_success_outcomes_flip_flags() {
    assert!(outcome_marks_done(AttemptOutcome::Completed));
    assert!(outcome_marks_done(AttemptOutcome::AlreadySettled));
    assert!(!outcome_marks_done(AttemptOutcome::ValidationFailed));
    assert!(!outcome_marks_done(AttemptOutcome::PreconditionNotMet));
    assert!(!outcome_marks_done(AttemptOutcome::AttemptFailed));

    let mut f = flags(false, false, false);
    apply_outcome(&mut f, Mode::Claim, AttemptOutcome::PreconditionNotMet);
    assert_eq!(f, flags(false, false, false));
    apply_outcome(&mut f, Mode::Claim, AttemptOutcome::Completed);
    assert_eq!(f, flags(true, false, false));
    apply_outcome(&mut f, Mode::CollectAndClose, AttemptOutcome::AlreadySettled);
    assert_eq!(f, flags(true, true, true));
}

#[test]
fn sleep_durations_stay_in_the_configured_range() {
    let range = [30u64, 60u64];
    for entropy in 0..200u64 {
        let d = sleep_duration(&range, entropy);
        assert!((30..=60).contains(&d));
    }
    assert_eq!(sleep_duration(&range, 0), 30);
    assert_eq!(sleep_duration(&range, 31), 30);
    assert_eq!(sleep_duration(&[5, 5], 99), 5);
}

#[test]
fn query_strings_are_the_expected_json() {
    assert_eq!(AllocationQuery::to_string("wallet123"), "{\"walletAddress\":\"wallet123\"}");
    assert_eq!(
        ReceiptQuery::to_string("wallet123", Cluster::Mainnet),
        "{\"walletAddress\":\"wallet123\",\"cluster\":\"mainnet\"}"
    );
    assert_eq!(Cluster::Mainnet.as_str(), "mainnet");
}

#[test]
fn query_strings_parse_back_as_the_original_fields() {
    let s = ReceiptQuery::to_string("abcDEF", Cluster::Mainnet);
    let v: serde_json::Value = serde_json::from_str(&s).unwrap();
    assert_eq!(v["walletAddress"], "abcDEF");
    assert_eq!(v["cluster"], "mainnet");
}

#[test]
fn an_empty_store_means_an_empty_pass() {
    let store: Vec<WalletFlags> = vec![];
    let mut pass = Pass::new(&store, Mode::CollectAndClose);
    assert_eq!(pass.remaining(), 0);
    assert_eq!(pass.pick(0), None);
}
