use sommelier::rules::{
    brag, free_gift, recall, roll, set_bet, GiftOutcome, ProofOutcome, RecallOutcome,
    RollOutcome, SetBetOutcome,
};
use sommelier::sselvish::{prove, translate};
use sommelier::state::GameState;

#[test]
fn roll_pays_each_multiplier() {
    let g = GameState { bet: 10, bank: 100, insp: 3 };
    let banks: Vec<u64> = (0..4).map(|m| roll(g, m).0.bank).collect();
    assert_eq!(banks, vec![90, 100, 110, 120]);
    let (after, outcome) = roll(g, 3);
    assert_eq!(after, GameState { bet: 10, bank: 120, insp: 3 });
    assert_eq!(outcome, RollOutcome::Rolled { bet: 10, multiplier: 3, winnings: 30 });
}

#[test]
fn roll_shrinks_a_stale_bet() {
    let g = GameState { bet: 10, bank: 10, insp: 0 };
    let (after, _) = roll(g, 0);
    assert_eq!(after, GameState { bet: 0, bank: 0, insp: 0 });
}

#[test]
fn roll_over_bank_changes_nothing() {
    let g = GameState { bet: 5000, bank: 3043, insp: 0 };
    let (after, outcome) = roll(g, 2);
    assert_eq!(after, g);
    assert_eq!(outcome, RollOutcome::OverBank);
}

#[test]
fn roll_saturates_at_the_largest_bank() {
    let g = GameState { bet: u64::MAX, bank: u64::MAX, insp: 0 };
    let (after, outcome) = roll(g, 3);
    assert_eq!(after.bank, u64::MAX);
    assert_eq!(outcome, RollOutcome::Rolled { bet: u64::MAX, multiplier: 3, winnings: u64::MAX });
}

#[test]
fn set_bet_cases() {
    let g = GameState { bet: 0, bank: 100, insp: 0 };
    assert_eq!(set_bet(g, "40"), (GameState { bet: 40, ..g }, SetBetOutcome::Accepted(40)));
    assert_eq!(set_bet(g, "100"), (GameState { bet: 100, ..g }, SetBetOutcome::Accepted(100)));
    assert_eq!(set_bet(g, "101"), (g, SetBetOutcome::OverBankFailure));
    assert_eq!(set_bet(g, "forty"), (g, SetBetOutcome::ParseFailure));
    assert_eq!(set_bet(g, ""), (g, SetBetOutcome::ParseFailure));
}

#[test]
fn free_gift_gives_one_of_the_two() {
    let g = GameState { bet: 0, bank: 3043, insp: 0 };
    assert_eq!(
        free_gift(g, 0),
        (GameState { insp: 1, ..g }, GiftOutcome::Inspiration(1))
    );
    for d in 1..4 {
        assert_eq!(
            free_gift(g, d),
            (GameState { bank: 3048, ..g }, GiftOutcome::Shells(5))
        );
    }
}

#[test]
fn prove_known_phrase() {
    assert_eq!(
        prove("SOME_DEFAULT_VALUE", "some user", "3043"),
        "nono sha ne na nohala habano ne"
    );
    assert_eq!(prove("pepper", "u1", "120"), "no noha ha no ne rere babareha");
}

#[test]
fn prove_is_deterministic_and_binds_the_amount() {
    let a = prove("salt", "user", "3043");
    let b = prove("salt", "user", "3043");
    assert_eq!(a, b);
    assert_ne!(a, prove("salt", "user", "3044"));
    assert_ne!(a, prove("salt", "other", "3043"));
    assert_ne!(a, prove("pepper", "user", "3043"));
}

#[test]
fn translate_speaks_the_first_twelve_bytes() {
    let mut hash = [0u8; 32];
    for k in 0..12 {
        hash[k] = k as u8 | 8;
    }
    hash[12] = 7;
    assert_eq!(translate(&hash), "balahanorenaneshabalahano");
    hash[7] = 7;
    assert_eq!(translate(&hash), "balahanorenanesha balahano");
    let mut first = [0u8; 32];
    first[0] = 7;
    assert_eq!(translate(&first), "sha ba ba ba ba ba ba ba ba ba ba ba");
    let spaced = [0u8; 12];
    assert_eq!(translate(&spaced), "ba ba ba ba ba ba ba ba ba ba ba ba");
}

#[test]
fn brag_spends_a_squid() {
    let g = GameState { bet: 1, bank: 3043, insp: 2 };
    let (after, outcome) = brag(g, "some user", "SOME_DEFAULT_VALUE");
    assert_eq!(after, GameState { insp: 1, ..g });
    match outcome {
        ProofOutcome::Proven(p) => assert_eq!(p, "nono sha ne na nohala habano ne"),
        ProofOutcome::NoInspiration => panic!("a squid was there to spend"),
    }
}

#[test]
fn brag_without_squid_changes_nothing() {
    let g = GameState { bet: 1, bank: 3043, insp: 0 };
    let (after, outcome) = brag(g, "some user", "salt");
    assert_eq!(after, g);
    assert!(matches!(outcome, ProofOutcome::NoInspiration));
}

#[test]
fn recall_with_its_proof() {
    let g = GameState { bet: 3, bank: 7, insp: 0 };
    let phrase = prove("salt", "u", "3043");
    let padded = format!("  {}\n", phrase);
    assert_eq!(
        recall(g, "u", "salt", "3043", &padded),
        (GameState { bank: 3043, ..g }, RecallOutcome::Recalled(3043))
    );
}

#[test]
fn recall_rejects_altered_or_foreign_proofs() {
    let g = GameState { bet: 3, bank: 7, insp: 0 };
    let phrase = prove("salt", "u", "3043");
    let mut chars: Vec<char> = phrase.chars().collect();
    chars[0] = if chars[0] == 'x' { 'y' } else { 'x' };
    let altered: String = chars.into_iter().collect();
    assert_eq!(recall(g, "u", "salt", "3043", &altered), (g, RecallOutcome::Rejected));
    assert_eq!(recall(g, "v", "salt", "3043", &phrase), (g, RecallOutcome::Rejected));
    assert_eq!(recall(g, "u", "salt", "3044", &phrase), (g, RecallOutcome::Rejected));
}

#[test]
fn recall_needs_a_numeric_claim() {
    let g = GameState { bet: 3, bank: 7, insp: 0 };
    let phrase = prove("salt", "u", "lots");
    assert_eq!(recall(g, "u", "salt", "lots", &phrase), (g, RecallOutcome::Rejected));
}
