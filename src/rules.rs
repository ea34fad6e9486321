//! The rules of the shell game: what each action does to a player's state.
//! Random draws are taken as arguments, so each rule is a plain function.
use vstd::prelude::*;

use crate::sselvish::{proof_spec, prove};
use crate::state::GameState;
use crate::text::{
    decimal, decimal_string, lemma_trim_shape, parse_u64, parse_u64_spec, trim, trim_spec,
};

verus! {

/// Shells that a free gift of shells brings.
pub const FREE_SHELLS_AMT: u64 = 5;

/// Squids that a free gift of inspiration brings.
pub const FREE_INSP_AMT: u64 = 1;

/// The number of faces of the roll: the multiplier is drawn below it.
pub const ROLL_FACES: u64 = 4;

/// The number of outcomes of a free gift: one of them gives inspiration.
pub const GIFT_FACES: u64 = 4;

/// `x`, or the largest `u64` where `x` is larger.
pub open spec fn clamp(x: int) -> u64 {
    if x > u64::MAX {
        u64::MAX
    } else if x < 0 {
        0
    } else {
        x as u64
    }
}

pub open spec fn min_u64(a: u64, b: u64) -> u64 {
    if a <= b {
        a
    } else {
        b
    }
}

/// What a roll came to.
#[derive(Clone, Copy, Debug, PartialEq, Eq, Structural)]
pub enum RollOutcome {
    /// The bet was rolled: `multiplier` times `bet` came back as `winnings`.
    Rolled { bet: u64, multiplier: u64, winnings: u64 },
    /// The bet is larger than the bank; nothing happened.
    OverBank,
}

/// A roll with the drawn `multiplier`: the bet leaves the bank and comes back
/// `multiplier` times; the bet then shrinks to the new bank if it must.
/// Figures beyond `u64` stay at its largest value.
pub open spec fn roll_spec(g: GameState, multiplier: u64) -> (GameState, RollOutcome) {
    if g.bet > g.bank {
        (g, RollOutcome::OverBank)
    } else {
        let winnings = clamp(multiplier * g.bet);
        let bank = clamp(g.bank - g.bet + multiplier * g.bet);
        (
            GameState { bank, bet: min_u64(g.bet, bank), insp: g.insp },
            RollOutcome::Rolled { bet: g.bet, multiplier, winnings },
        )
    }
}

/// Rolls on the current bet with the drawn `multiplier`, one of 0, 1, 2 or 3.
pub fn roll(g: GameState, multiplier: u64) -> (r: (GameState, RollOutcome))
    requires
        multiplier < ROLL_FACES,
    ensures
        r == roll_spec(g, multiplier),
        g.bet > g.bank ==> r.0 == g && r.1 == RollOutcome::OverBank,
{
    if g.bet > g.bank {
        (g, RollOutcome::OverBank)
    } else {
        let winnings = match g.bet.checked_mul(multiplier) {
            Some(w) => w,
            None => u64::MAX,
        };
        let bank = (g.bank - g.bet).saturating_add(winnings);
        let bet = if g.bet <= bank {
            g.bet
        } else {
            bank
        };
        assert(multiplier * g.bet == g.bet * multiplier) by (nonlinear_arith);
        assert(multiplier * g.bet >= 0) by (nonlinear_arith);
        (GameState { bank, bet, insp: g.insp }, RollOutcome::Rolled { bet: g.bet, multiplier, winnings })
    }
}

/// A roll within the bank keeps the books: the bank loses the bet and gains
/// the multiple of it that was drawn, so it ends at one of four values.
pub proof fn lemma_roll_conservation(g: GameState, multiplier: u64)
    requires
        g.bet <= g.bank,
        multiplier < ROLL_FACES,
        g.bank + 2 * g.bet <= u64::MAX,
    ensures
        roll_spec(g, multiplier).0.bank == g.bank - g.bet + multiplier * g.bet,
        roll_spec(g, multiplier).0.bank == g.bank - g.bet || roll_spec(g, multiplier).0.bank
            == g.bank || roll_spec(g, multiplier).0.bank == g.bank + g.bet || roll_spec(
            g,
            multiplier,
        ).0.bank == g.bank + 2 * g.bet,
        roll_spec(g, multiplier).0.insp == g.insp,
        roll_spec(g, multiplier).0.bet <= roll_spec(g, multiplier).0.bank,
{
    assert(multiplier == 0 || multiplier == 1 || multiplier == 2 || multiplier == 3);
    assert(multiplier * g.bet <= 3 * g.bet) by (nonlinear_arith)
        requires
            multiplier <= 3,
    ;
}

/// A roll on more than the bank changes nothing and says so.
pub proof fn lemma_roll_rejection(g: GameState, multiplier: u64)
    requires
        g.bet > g.bank,
    ensures
        roll_spec(g, multiplier) == (g, RollOutcome::OverBank),
{
}

/// What setting the bet came to.
#[derive(Clone, Copy, Debug, PartialEq, Eq, Structural)]
pub enum SetBetOutcome {
    /// The bet is now this amount.
    Accepted(u64),
    /// The input is not a number.
    ParseFailure,
    /// The input is more than the bank.
    OverBankFailure,
}

pub open spec fn set_bet_spec(g: GameState, input: Seq<char>) -> (GameState, SetBetOutcome) {
    match parse_u64_spec(input) {
        None => (g, SetBetOutcome::ParseFailure),
        Some(b) => if b > g.bank {
            (g, SetBetOutcome::OverBankFailure)
        } else {
            (GameState { bet: b, ..g }, SetBetOutcome::Accepted(b))
        },
    }
}

/// Sets the bet to the amount that the player typed, if it is a number no
/// larger than the bank.
pub fn set_bet(g: GameState, input: &str) -> (r: (GameState, SetBetOutcome))
    ensures
        r == set_bet_spec(g, input@),
{
    match parse_u64(input) {
        None => (g, SetBetOutcome::ParseFailure),
        Some(b) => if b > g.bank {
            (g, SetBetOutcome::OverBankFailure)
        } else {
            (GameState { bet: b, bank: g.bank, insp: g.insp }, SetBetOutcome::Accepted(b))
        },
    }
}

/// What a free gift brought.
#[derive(Clone, Copy, Debug, PartialEq, Eq, Structural)]
pub enum GiftOutcome {
    Shells(u64),
    Inspiration(u64),
}

/// A free gift with the drawn `draw`: a squid when it is 0, shells otherwise.
pub open spec fn free_gift_spec(g: GameState, draw: u64) -> (GameState, GiftOutcome) {
    if draw == 0 {
        (
            GameState { insp: clamp(g.insp + FREE_INSP_AMT), ..g },
            GiftOutcome::Inspiration(FREE_INSP_AMT),
        )
    } else {
        (
            GameState { bank: clamp(g.bank + FREE_SHELLS_AMT), ..g },
            GiftOutcome::Shells(FREE_SHELLS_AMT),
        )
    }
}

/// Gives a free gift by the drawn `draw`, one of 0 to 3: a squid on 0 (one
/// chance in four), shells otherwise. Exactly one of the two is added.
pub fn free_gift(g: GameState, draw: u64) -> (r: (GameState, GiftOutcome))
    requires
        draw < GIFT_FACES,
    ensures
        r == free_gift_spec(g, draw),
{
    if draw == 0 {
        (
            GameState { insp: g.insp.saturating_add(FREE_INSP_AMT), bet: g.bet, bank: g.bank },
            GiftOutcome::Inspiration(FREE_INSP_AMT),
        )
    } else {
        (
            GameState { bank: g.bank.saturating_add(FREE_SHELLS_AMT), bet: g.bet, insp: g.insp },
            GiftOutcome::Shells(FREE_SHELLS_AMT),
        )
    }
}

/// What asking for a proof came to.
#[derive(Debug)]
pub enum ProofOutcome {
    /// A squid was spent; this is the proof of the bank.
    Proven(String),
    /// No squid to spend; nothing happened.
    NoInspiration,
}

impl ProofOutcome {
    /// The proof phrase, where there is one.
    pub open spec fn phrase(self) -> Option<Seq<char>> {
        match self {
            ProofOutcome::Proven(p) => Some(p@),
            ProofOutcome::NoInspiration => None,
        }
    }
}

/// The state after asking for a proof: one squid fewer, where there was one.
pub open spec fn brag_state_spec(g: GameState) -> GameState {
    if g.insp > 0 {
        GameState { insp: (g.insp - 1) as u64, ..g }
    } else {
        g
    }
}

/// The phrase that asking for a proof gives: the proof of the bank, written
/// in decimal, for `user`, where a squid was there to spend.
pub open spec fn brag_phrase_spec(g: GameState, user: Seq<char>, salt: Seq<char>) -> Option<
    Seq<char>,
> {
    if g.insp > 0 {
        Some(proof_spec(salt, user, decimal(g.bank as nat)))
    } else {
        None
    }
}

/// Spends a squid to prove the bank for `user`; without one, nothing changes.
/// Only the inspiration changes, by one, and only where it was positive.
pub fn brag(g: GameState, user: &str, salt: &str) -> (r: (GameState, ProofOutcome))
    ensures
        r.0 == brag_state_spec(g),
        r.1.phrase() == brag_phrase_spec(g, user@, salt@),
{
    if g.insp > 0 {
        let amount = decimal_string(g.bank);
        let phrase = prove(salt, user, amount.as_str());
        (GameState { insp: g.insp - 1, bet: g.bet, bank: g.bank }, ProofOutcome::Proven(phrase))
    } else {
        (g, ProofOutcome::NoInspiration)
    }
}

/// What a recall came to.
#[derive(Clone, Copy, Debug, PartialEq, Eq, Structural)]
pub enum RecallOutcome {
    /// The claim was proven; the bank is now this amount.
    Recalled(u64),
    /// The proof does not match the claim, or the claim is not a number.
    Rejected,
}

/// Whether `presented`, trimmed, is the proof of `claim` for `user` and the
/// claim is a number.
pub open spec fn recall_accepted(
    user: Seq<char>,
    salt: Seq<char>,
    claim: Seq<char>,
    presented: Seq<char>,
) -> bool {
    trim_spec(presented) == proof_spec(salt, user, claim) && parse_u64_spec(claim) is Some
}

pub open spec fn recall_spec(
    g: GameState,
    user: Seq<char>,
    salt: Seq<char>,
    claim: Seq<char>,
    presented: Seq<char>,
) -> (GameState, RecallOutcome) {
    if recall_accepted(user, salt, claim, presented) {
        let n = parse_u64_spec(claim)->0;
        (GameState { bank: n, ..g }, RecallOutcome::Recalled(n))
    } else {
        (g, RecallOutcome::Rejected)
    }
}

/// Sets the bank to `claim` where `presented` is its proof for `user`;
/// otherwise nothing changes.
pub fn recall(g: GameState, user: &str, salt: &str, claim: &str, presented: &str) -> (r: (
    GameState,
    RecallOutcome,
))
    ensures
        r == recall_spec(g, user@, salt@, claim@, presented@),
{
    let phrase = String::from_str(trim(presented));
    let expected = prove(salt, user, claim);
    let amount = parse_u64(claim);
    if phrase == expected {
        match amount {
            Some(n) => (GameState { bank: n, bet: g.bet, insp: g.insp }, RecallOutcome::Recalled(n)),
            None => (g, RecallOutcome::Rejected),
        }
    } else {
        (g, RecallOutcome::Rejected)
    }
}

/// A proof with any one character changed no longer recalls anything.
pub proof fn lemma_recall_rejects_altered_proof(
    g: GameState,
    user: Seq<char>,
    salt: Seq<char>,
    claim: Seq<char>,
    i: int,
    c: char,
)
    requires
        0 <= i < proof_spec(salt, user, claim).len(),
        c != proof_spec(salt, user, claim)[i],
    ensures
        recall_spec(g, user, salt, claim, proof_spec(salt, user, claim).update(i, c)) == (
            g,
            RecallOutcome::Rejected,
        ),
{
    let p = proof_spec(salt, user, claim);
    let altered = p.update(i, c);
    lemma_trim_shape(altered);
    if trim_spec(altered) == p {
        assert(trim_spec(altered) == altered);
        assert(altered[i] == c);
    }
}

/// A recall succeeds exactly where the presented phrase, trimmed, is the
/// proof of the claim for the acting user and the claim is a number; it then
/// sets the bank to the claim and leaves the rest as it was.
pub proof fn lemma_recall_authorization(
    g: GameState,
    user: Seq<char>,
    salt: Seq<char>,
    claim: Seq<char>,
    presented: Seq<char>,
)
    ensures
        recall_spec(g, user, salt, claim, presented).1 is Recalled <==> (trim_spec(presented)
            == proof_spec(salt, user, claim) && parse_u64_spec(claim) is Some),
        recall_spec(g, user, salt, claim, presented).1 is Recalled ==> recall_spec(
            g,
            user,
            salt,
            claim,
            presented,
        ).0 == (GameState { bank: parse_u64_spec(claim)->0, ..g }),
        !(recall_spec(g, user, salt, claim, presented).1 is Recalled) ==> recall_spec(
            g,
            user,
            salt,
            claim,
            presented,
        ).0 == g,
{
}

/// Asking for a proof changes nothing but the inspiration: one squid is
/// spent where there was one, and otherwise nothing changes.
pub proof fn lemma_proof_gating(g: GameState, user: Seq<char>, salt: Seq<char>)
    ensures
        g.insp > 0 ==> brag_state_spec(g) == (GameState { insp: (g.insp - 1) as u64, ..g })
            && brag_phrase_spec(g, user, salt) is Some,
        g.insp == 0 ==> brag_state_spec(g) == g && brag_phrase_spec(g, user, salt) is None,
{
}

} // verus!
