//! The texts of the shell game. Each starts with the player's stats, whose
//! lines carry the state to the next interaction; whatever the text then
//! says, even words that the player typed, cannot change what is read back.
use vstd::prelude::*;

use crate::rules::clamp;
use crate::state::{
    stat_at, decode_spec, encode_spec, lemma_decode_after, lemma_labels, lemma_stat_head_char,
    no_figure_before, GameState, InteractionState, BANK_PREFIX, BANK_SUFFIX, BET_PREFIX,
    BET_SUFFIX, INSP_PREFIX, INSP_SUFFIX,
};
use crate::text::{decimal, push_decimal};

verus! {
pub const STATS_HEADING: &'static str = "## Your Stats\n";
pub const WELCOME: &'static str = "# :woman_elf: Shell Game :woman_elf:\n\n:game_die: **Roll** will roll on your :shell:s, to receive 0x, 1x, 2x, or 3x the amount of :shell:s back.\n\n:abacus: **Set** allows you to set the amount of :shell:s you want to roll.\n\n:beach: **Free** will give you a small number of :shell:s for free. You could even get a :squid:...\n\n:scroll: **Proof** will consume a :squid: to create a record of your winnings. This record will include proof of your achievement in **Sselvish**, a cryptographically secure dialect of Common Elvish.\n\n:wind_blowing_face: **Recall** allows you set your current :shell:s to a past amount of :shell:s, provided you have **proof** of that achievement.\n";
pub const ROLL_ROLLED_ON: &'static str = "# :game_die: Roll the Dice! :game_die:\n\nYou rolled on ";
pub const ROLL_GOT: &'static str = " :shell:s...\n\nand got a **";
pub const ROLL_MULTIPLIER: &'static str = "x** multiplier.\n\nYou **won** ";
pub const ROLL_WON: &'static str = " :shell:s!\n";
pub const ROLL_FAILURE: &'static str = "# :game_die: Roll the Dice! :game_die:\n\nYou can't roll on more :shell:s than you have!\n";
pub const SET_ROLL_TO: &'static str = "# :abacus: Crunching Numbers :abacus:\n\nYou set your roll amount to ";
pub const SET_ROLL_END: &'static str = ".\n";
pub const SET_ROLL_AMT_FAILURE: &'static str = "# :abacus: Crunching Numbers :abacus:\n\nYou can't try to roll more than you have in your bank!\n";
pub const SET_ROLL_PARSE_FAILURE: &'static str = "# :abacus: Crunching Numbers :abacus:\n\nYou can only set your roll to a number!\n";
pub const FREE_HEADING: &'static str = "# :beach: Tidepools :beach:\n";
pub const FREE_SHELLS: &'static str = "You sift through the sands to find ";
pub const FREE_SHELLS_END: &'static str = " :shell:s.\n";
pub const FREE_INSP: &'static str = "A glimmer in the sand catches your eye. Upon further inspection, you find ";
pub const FREE_INSP_END: &'static str = " :squid:s!\n";
pub const PROOF_NOTED: &'static str = "# :scroll: The Scribe :scroll:\n\nLet it be noted to the public that:\n> <@";
pub const PROOF_HAS: &'static str = "> has ";
pub const PROOF_SHELLS: &'static str = " :shell:s!\n> <@";
pub const PROOF_IS: &'static str = "> is a ";
pub const PROOF_PHRASE: &'static str = "!\n### Proof: *";
pub const PROOF_END: &'static str = "*\n\n*Make sure to record your :shell: amount and its **proof**. The Scribe is not a recordkeeper!*\n";
pub const PROOF_FAILURE: &'static str = "# :scroll: The Scribe :scroll:\n\nThe Scribe cannot provide proof of your deed without a :squid:!\n\nYou can find :squid:s at the **beach**!\n";
pub const RECALL_UTTER: &'static str = "# :wind_blowing_face: Circle of Recall :wind_blowing_face:\n\nYou utter your **Sselvish** proof: *";
pub const RECALL_LEGIT: &'static str = "*. \n\nYour claim is legitimate! You recall ";
pub const RECALL_END: &'static str = " :shell:s!\n";
pub const RECALL_FAILS: &'static str = "*. \n\nYour claim fails! You cannot recall anything.\n";

/// The stats block: a heading, then the state's lines.
pub open spec fn stats_text(g: GameState) -> Seq<char> {
    STATS_HEADING@ + encode_spec(g)
}

/// Text that starts with the stats block reads back as the state it shows,
/// whatever follows it.
pub proof fn lemma_stats_first(g: GameState, rest: Seq<char>)
    ensures
        decode_spec(stats_text(g) + rest) == g,
{
    reveal_strlit("## Your Stats\n");
    lemma_labels();
    let h = STATS_HEADING@;
    let t = stats_text(g) + rest;
    assert(t =~= h + encode_spec(g) + rest);
    assert forall|k: int| 0 <= k < h.len() implies {
        &&& (#[trigger] stat_at(t, BANK_PREFIX@, BANK_SUFFIX@, k)) is None
        &&& stat_at(t, BET_PREFIX@, BET_SUFFIX@, k) is None
        &&& stat_at(t, INSP_PREFIX@, INSP_SUFFIX@, k) is None
    } by {
        assert(t[k] == h[k]);
        assert(t[6] == h[6]);
        if stat_at(t, BANK_PREFIX@, BANK_SUFFIX@, k) is Some {
            lemma_stat_head_char(t, BANK_PREFIX@, BANK_SUFFIX@, k, 0);
            lemma_stat_head_char(t, BANK_PREFIX@, BANK_SUFFIX@, k, 3);
        }
        if stat_at(t, BET_PREFIX@, BET_SUFFIX@, k) is Some {
            lemma_stat_head_char(t, BET_PREFIX@, BET_SUFFIX@, k, 0);
            lemma_stat_head_char(t, BET_PREFIX@, BET_SUFFIX@, k, 3);
        }
        if stat_at(t, INSP_PREFIX@, INSP_SUFFIX@, k) is Some {
            lemma_stat_head_char(t, INSP_PREFIX@, INSP_SUFFIX@, k, 0);
            lemma_stat_head_char(t, INSP_PREFIX@, INSP_SUFFIX@, k, 3);
        }
    }
    lemma_decode_after(t, h, g, rest);
}

fn build_stats(state: &InteractionState) -> (r: String)
    ensures
        r@ == stats_text(state.game_state),
{
    let mut r = String::from_str(STATS_HEADING);
    let stats = state.game_state.encode();
    r.append(stats.as_str());
    r
}

/// The stats block, then `text`.
fn with_stats(text: &str, state: &InteractionState) -> (r: String)
    ensures
        r@ == stats_text(state.game_state) + text@,
{
    let mut r = build_stats(state);
    r.append(text);
    r
}

pub fn welcome_message(state: &InteractionState) -> (r: String)
    ensures
        r@ == stats_text(state.game_state) + WELCOME@,
{
    with_stats(WELCOME, state)
}

pub open spec fn roll_success_text(bet: u64, roll: u64, g: GameState) -> Seq<char> {
    stats_text(g) + ROLL_ROLLED_ON@ + decimal(bet as nat) + ROLL_GOT@ + decimal(roll as nat)
        + ROLL_MULTIPLIER@ + decimal(clamp(bet * roll) as nat) + ROLL_WON@
}

/// The roll of `bet` came back `roll` times.
pub fn roll_success_message(bet: u64, roll: u64, state: &InteractionState) -> (r: String)
    ensures
        r@ == roll_success_text(bet, roll, state.game_state),
{
    let won = match bet.checked_mul(roll) {
        Some(w) => w,
        None => u64::MAX,
    };
    assert(bet * roll >= 0) by (nonlinear_arith);
    let mut r = build_stats(state);
    r.append(ROLL_ROLLED_ON);
    push_decimal(&mut r, bet);
    r.append(ROLL_GOT);
    push_decimal(&mut r, roll);
    r.append(ROLL_MULTIPLIER);
    push_decimal(&mut r, won);
    r.append(ROLL_WON);
    assert(r@ =~= roll_success_text(bet, roll, state.game_state));
    r
}

pub fn roll_failure_message(state: &InteractionState) -> (r: String)
    ensures
        r@ == stats_text(state.game_state) + ROLL_FAILURE@,
{
    with_stats(ROLL_FAILURE, state)
}

pub fn set_roll_success_message(bet: u64, state: &InteractionState) -> (r: String)
    ensures
        r@ == stats_text(state.game_state) + SET_ROLL_TO@ + decimal(bet as nat) + SET_ROLL_END@,
{
    let mut r = build_stats(state);
    r.append(SET_ROLL_TO);
    push_decimal(&mut r, bet);
    r.append(SET_ROLL_END);
    assert(r@ =~= stats_text(state.game_state) + SET_ROLL_TO@ + decimal(bet as nat) + SET_ROLL_END@);
    r
}

pub fn set_roll_amt_failure_message(state: &InteractionState) -> (r: String)
    ensures
        r@ == stats_text(state.game_state) + SET_ROLL_AMT_FAILURE@,
{
    with_stats(SET_ROLL_AMT_FAILURE, state)
}

pub fn set_roll_parse_failure_message(state: &InteractionState) -> (r: String)
    ensures
        r@ == stats_text(state.game_state) + SET_ROLL_PARSE_FAILURE@,
{
    with_stats(SET_ROLL_PARSE_FAILURE, state)
}

pub open spec fn free_text(gain: Option<u64>, insp: Option<u64>, g: GameState) -> Seq<char> {
    stats_text(g) + FREE_HEADING@ + match gain {
        Some(n) => FREE_SHELLS@ + decimal(n as nat) + FREE_SHELLS_END@,
        None => Seq::<char>::empty(),
    } + match insp {
        Some(n) => FREE_INSP@ + decimal(n as nat) + FREE_INSP_END@,
        None => Seq::<char>::empty(),
    }
}

/// The tide pools gave `gain` shells and `insp` squids, where given.
pub fn free_message(gain: Option<u64>, insp: Option<u64>, state: &InteractionState) -> (r: String)
    ensures
        r@ == free_text(gain, insp, state.game_state),
{
    let mut r = build_stats(state);
    r.append(FREE_HEADING);
    match gain {
        Some(g) => {
            r.append(FREE_SHELLS);
            push_decimal(&mut r, g);
            r.append(FREE_SHELLS_END);
        },
        None => {},
    }
    let ghost mid = r@;
    match insp {
        Some(i) => {
            r.append(FREE_INSP);
            push_decimal(&mut r, i);
            r.append(FREE_INSP_END);
        },
        None => {},
    }
    assert(r@ =~= free_text(gain, insp, state.game_state));
    r
}

/// The title that a bank earns.
pub open spec fn honorific_text(bank: u64) -> Seq<char> {
    if bank >= 35184372088832 {
        "a :cloud_tornado: Turbulent Twister :cloud_tornado:"@
    } else if bank >= 4398046511104 {
        "a :cloud: Camouflaged Cloud :cloud:"@
    } else if bank >= 549755813888 {
        "a :ocean: Whopping Wave :ocean:"@
    } else if bank >= 68719476736 {
        "a :bubbles: Brilliant Bubble :bubbles:"@
    } else if bank >= 8589934592 {
        "a :microbe: Mysterious Microbe :microbe:"@
    } else if bank >= 1073741824 {
        "a :worm: Wriggling Worm :worm:"@
    } else if bank >= 134217728 {
        "a :coral: Eef Reef Feef Reef :coral:"@
    } else if bank >= 16777216 {
        "a :shrimp: Shiny Shrimp :shrimp:"@
    } else if bank >= 2097152 {
        "a :coconut: Creamy Coconut :coconut:"@
    } else if bank >= 262144 {
        "a :crab: Crude Crab :crab:"@
    } else if bank >= 32768 {
        "an :octopus: Obscure Octopus :octopus:"@
    } else if bank >= 4096 {
        "a :lobster: Lovely Lobster :lobster:"@
    } else if bank >= 512 {
        "a :cucumber: Cool Cucumber :cucumber:"@
    } else if bank >= 64 {
        "a :seal: Slippery Seal :seal:"@
    } else if bank >= 8 {
        "a :parrot: Petulant Parrot :parrot:"@
    } else {
        "a :monkey: Blatant Bonobo :monkey:"@
    }
}

/// The title that a bank earns.
pub fn honorific(bank: u64) -> (r: String)
    ensures
        r@ == honorific_text(bank),
{
    let t = if bank >= 35184372088832 {
        "a :cloud_tornado: Turbulent Twister :cloud_tornado:"
    } else if bank >= 4398046511104 {
        "a :cloud: Camouflaged Cloud :cloud:"
    } else if bank >= 549755813888 {
        "a :ocean: Whopping Wave :ocean:"
    } else if bank >= 68719476736 {
        "a :bubbles: Brilliant Bubble :bubbles:"
    } else if bank >= 8589934592 {
        "a :microbe: Mysterious Microbe :microbe:"
    } else if bank >= 1073741824 {
        "a :worm: Wriggling Worm :worm:"
    } else if bank >= 134217728 {
        "a :coral: Eef Reef Feef Reef :coral:"
    } else if bank >= 16777216 {
        "a :shrimp: Shiny Shrimp :shrimp:"
    } else if bank >= 2097152 {
        "a :coconut: Creamy Coconut :coconut:"
    } else if bank >= 262144 {
        "a :crab: Crude Crab :crab:"
    } else if bank >= 32768 {
        "an :octopus: Obscure Octopus :octopus:"
    } else if bank >= 4096 {
        "a :lobster: Lovely Lobster :lobster:"
    } else if bank >= 512 {
        "a :cucumber: Cool Cucumber :cucumber:"
    } else if bank >= 64 {
        "a :seal: Slippery Seal :seal:"
    } else if bank >= 8 {
        "a :parrot: Petulant Parrot :parrot:"
    } else {
        "a :monkey: Blatant Bonobo :monkey:"
    };
    String::from_str(t)
}

pub open spec fn proof_success_text(proof: Seq<char>, user: Seq<char>, g: GameState) -> Seq<char> {
    stats_text(g) + PROOF_NOTED@ + user + PROOF_HAS@ + decimal(g.bank as nat) + PROOF_SHELLS@
        + user + PROOF_IS@ + honorific_text(g.bank) + PROOF_PHRASE@ + proof + PROOF_END@
}

/// The public record of the player's bank, with its proof.
pub fn proof_success_message(proof: &str, state: &InteractionState) -> (r: String)
    ensures
        r@ == proof_success_text(proof@, state.user@, state.game_state),
{
    let bank = state.game_state.bank;
    let mut r = build_stats(state);
    r.append(PROOF_NOTED);
    r.append(state.user.as_str());
    r.append(PROOF_HAS);
    push_decimal(&mut r, bank);
    r.append(PROOF_SHELLS);
    r.append(state.user.as_str());
    r.append(PROOF_IS);
    let title = honorific(bank);
    r.append(title.as_str());
    r.append(PROOF_PHRASE);
    r.append(proof);
    r.append(PROOF_END);
    assert(r@ =~= proof_success_text(proof@, state.user@, state.game_state));
    r
}

pub fn proof_failure_message(state: &InteractionState) -> (r: String)
    ensures
        r@ == stats_text(state.game_state) + PROOF_FAILURE@,
{
    with_stats(PROOF_FAILURE, state)
}

pub fn recall_success_message(proof: &str, state: &InteractionState) -> (r: String)
    ensures
        r@ == stats_text(state.game_state) + RECALL_UTTER@ + proof@ + RECALL_LEGIT@ + decimal(state.game_state.bank as nat)
            + RECALL_END@,
{
    let mut r = build_stats(state);
    r.append(RECALL_UTTER);
    r.append(proof);
    r.append(RECALL_LEGIT);
    push_decimal(&mut r, state.game_state.bank);
    r.append(RECALL_END);
    assert(r@ =~= stats_text(state.game_state) + RECALL_UTTER@ + proof@ + RECALL_LEGIT@ + decimal(state.game_state.bank as nat)
        + RECALL_END@);
    r
}

pub fn recall_failure_message(proof: &str, state: &InteractionState) -> (r: String)
    ensures
        r@ == stats_text(state.game_state) + RECALL_UTTER@ + proof@ + RECALL_FAILS@,
{
    let mut r = build_stats(state);
    r.append(RECALL_UTTER);
    r.append(proof);
    r.append(RECALL_FAILS);
    assert(r@ =~= stats_text(state.game_state) + RECALL_UTTER@ + proof@ + RECALL_FAILS@);
    r
}

} // verus!
