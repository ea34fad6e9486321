use sommelier::state::{recognize_bank, GameState};
use sommelier::text::{decimal_string, parse_i32, parse_u64, trim};

#[test]
fn encode_writes_three_lines() {
    let g = GameState { bet: 5, bank: 3043, insp: 2 };
    assert_eq!(
        g.encode(),
        "You have: 3043 :shell:s\nYou are betting: 5 :shell:s\nYou have: 2 :squid:s\n"
    );
}

#[test]
fn decode_reads_back_what_encode_wrote() {
    for g in [
        GameState { bet: 0, bank: 0, insp: 0 },
        GameState { bet: 7, bank: 3043, insp: 1 },
        GameState { bet: u64::MAX, bank: u64::MAX, insp: u64::MAX },
    ] {
        assert_eq!(GameState::decode(&g.encode()), g);
    }
}

#[test]
fn decode_bank_only() {
    let g = GameState::decode("You have: 3043 :shell:s");
    assert_eq!(g, GameState { bet: 0, bank: 3043, insp: 0 });
}

#[test]
fn decode_in_any_order_and_among_other_text() {
    let text = "# Title\nYou have: 4 :squid:s\nsome words\nYou are betting: 12 :shell:s\nYou have: 99 :shell:s\n";
    assert_eq!(
        GameState::decode(text),
        GameState { bet: 12, bank: 99, insp: 4 }
    );
}

#[test]
fn decode_missing_or_unreadable_figures_are_zero() {
    assert_eq!(GameState::decode(""), GameState { bet: 0, bank: 0, insp: 0 });
    assert_eq!(
        GameState::decode("You have:  :shell:s"),
        GameState { bet: 0, bank: 0, insp: 0 }
    );
    assert_eq!(
        GameState::decode("You have: 99999999999999999999999 :shell:s"),
        GameState { bet: 0, bank: 0, insp: 0 }
    );
}

#[test]
fn decode_leftmost_occurrence_decides() {
    let text = "You have: 1 :shell:s\nYou have: 2 :shell:s\n";
    assert_eq!(GameState::decode(text).bank, 1);
}

#[test]
fn string_into_game_state() {
    let text = "You have: 10 :shell:s".to_string();
    let g: GameState = (&text).into();
    assert_eq!(g.bank, 10);
}

#[test]
fn decimal_and_parse() {
    assert_eq!(decimal_string(0), "0");
    assert_eq!(decimal_string(3043), "3043");
    assert_eq!(decimal_string(u64::MAX), "18446744073709551615");
    assert_eq!(parse_u64("3043"), Some(3043));
    assert_eq!(parse_u64("+5"), Some(5));
    assert_eq!(parse_u64(""), None);
    assert_eq!(parse_u64("+"), None);
    assert_eq!(parse_u64("-1"), None);
    assert_eq!(parse_u64(" 5"), None);
    assert_eq!(parse_u64("18446744073709551615"), Some(u64::MAX));
    assert_eq!(parse_u64("18446744073709551616"), None);
    assert_eq!(parse_i32("-2147483648"), Some(i32::MIN));
    assert_eq!(parse_i32("2147483648"), None);
    assert_eq!(parse_i32("-+1"), None);
    assert_eq!(parse_i32("12"), Some(12));
}

#[test]
fn trim_removes_white_space_at_the_ends() {
    assert_eq!(trim("  ba la \n"), "ba la");
    assert_eq!(trim("\u{3000}x\u{a0}"), "x");
    assert_eq!(trim("   "), "");
}

#[test]
fn recognize_bank_reads_the_bank_or_zero() {
    assert_eq!(recognize_bank("## Your Stats\nYou have: 3043 :shell:s\n"), 3043);
    assert_eq!(recognize_bank("nothing here"), 0);
}
