//! The shell game: its buttons and forms, and what each press or submission
//! does to the player's state and says back.
use vstd::prelude::*;

use crate::interactions::{
    field_value, Component, ComponentType, InteractionCallbackData, InteractionCallbackType,
    InteractionData, InteractionRequest, InteractionResponse, MessageFlags,
};
use crate::messages::{
    free_message, free_text, proof_failure_message, proof_success_message, proof_success_text,
    recall_failure_message, recall_success_message, roll_failure_message, roll_success_message,
    roll_success_text, set_roll_amt_failure_message, set_roll_parse_failure_message,
    set_roll_success_message, lemma_stats_first, stats_text, welcome_message, PROOF_FAILURE, RECALL_FAILS,
    RECALL_LEGIT, RECALL_END, RECALL_UTTER, ROLL_FAILURE, SET_ROLL_AMT_FAILURE,
    SET_ROLL_END, SET_ROLL_PARSE_FAILURE, SET_ROLL_TO, WELCOME,
};
use crate::rules::{
    brag, brag_phrase_spec, brag_state_spec, free_gift, free_gift_spec, recall, recall_spec,
    roll, roll_spec, set_bet, set_bet_spec, GiftOutcome, ProofOutcome, RecallOutcome,
    RollOutcome, SetBetOutcome, GIFT_FACES, ROLL_FACES,
};
use crate::chance::draw_below;
use crate::state::{decode_spec, request_game, request_user, GameState, InteractionState};
use crate::text::{decimal, trim, trim_spec};

verus! {

/// `c` is a button with this label and custom id.
pub open spec fn is_button(c: Component, label: Seq<char>, id: Seq<char>) -> bool {
    c matches Component::Button(b) && b.kind == ComponentType::Button && b.label is Some
        && b.label->0@ == label && b.custom_id@ == id
}

/// `c` is a short text field with this label and custom id, not yet filled in.
pub open spec fn is_field(c: Component, label: Seq<char>, id: Seq<char>) -> bool {
    c matches Component::Text(t) && t.kind == ComponentType::TextInput && t.label@ == label
        && t.custom_id@ == id && t.value is None
}

/// The game's buttons: roll, set, free, proof and recall.
pub open spec fn is_action_row(v: Seq<Component>) -> bool {
    v.len() == 5 && is_button(v[0], "roll"@, "roll"@) && is_button(v[1], "set"@, "set_roll"@)
        && is_button(v[2], "free"@, "free"@) && is_button(v[3], "proof"@, "proof"@) && is_button(
        v[4],
        "recall"@,
        "recall"@,
    )
}

/// `r` is a message answer shown as `kind`, with the text `text`, private
/// where `private`, and with the game's buttons as its one row where
/// `with_buttons` (else with no rows).
pub open spec fn is_message(
    r: InteractionResponse,
    kind: InteractionCallbackType,
    text: Seq<char>,
    private: bool,
    with_buttons: bool,
) -> bool {
    &&& r.kind == kind
    &&& match r.data {
        InteractionCallbackData::Message(m) => {
            &&& m.content@ == text
            &&& m.flags == if private {
                Some(MessageFlags::Ephemeral)
            } else {
                None
            }
            &&& if with_buttons {
                &&& m.components@.len() == 1
                &&& m.components@[0].kind == ComponentType::ActionRow
                &&& is_action_row(m.components@[0].components@)
            } else {
                m.components@.len() == 0
            }
        },
        InteractionCallbackData::Modal(_) => false,
    }
}

/// `r` is a modal with this id and title whose rows hold the fields, one each.
pub open spec fn is_modal(
    r: InteractionResponse,
    id: Seq<char>,
    title: Seq<char>,
    fields: Seq<(Seq<char>, Seq<char>)>,
) -> bool {
    &&& r.kind == InteractionCallbackType::Modal
    &&& match r.data {
        InteractionCallbackData::Modal(m) => {
            &&& m.custom_id@ == id
            &&& m.title@ == title
            &&& m.components@.len() == fields.len()
            &&& forall|i: int|
                0 <= i < fields.len() ==> {
                    &&& (#[trigger] m.components@[i]).kind == ComponentType::ActionRow
                    &&& m.components@[i].components@.len() == 1
                    &&& is_field(m.components@[i].components@[0], fields[i].0, fields[i].1)
                }
        },
        InteractionCallbackData::Message(_) => false,
    }
}

pub open spec fn recall_fields() -> Seq<(Seq<char>, Seq<char>)> {
    seq![("claim"@, "claim"@), ("proof"@, "proof"@)]
}

pub open spec fn set_roll_fields() -> Seq<(Seq<char>, Seq<char>)> {
    seq![("Amount"@, "roll_amt"@)]
}

fn build_action_row() -> (r: Vec<Component>)
    ensures
        is_action_row(r@),
{
    let roll_button = Component::button().label("roll").id("roll").into();
    let set_roll_button = Component::button().label("set").id("set_roll").into();
    let free_button = Component::button().label("free").id("free").into();
    let proof_button = Component::button().label("proof").id("proof").into();
    let recall_button = Component::button().label("recall").id("recall").into();
    vec![roll_button, set_roll_button, free_button, proof_button, recall_button]
}

fn build_recall_fields() -> (r: Vec<Component>)
    ensures
        r@.len() == 2,
        is_field(r@[0], "claim"@, "claim"@),
        is_field(r@[1], "proof"@, "proof"@),
{
    let claim = Component::text_input().label("claim").id("claim").into();
    let proof = Component::text_input().label("proof").id("proof").into();
    vec![claim, proof]
}

fn build_set_roll_fields() -> (r: Vec<Component>)
    ensures
        r@.len() == 1,
        is_field(r@[0], "Amount"@, "roll_amt"@),
{
    let roll_amt = Component::text_input().label("Amount").id("roll_amt").into();
    vec![roll_amt]
}

/// A new private message with the game's buttons.
pub fn plain_message(msg: &str) -> (r: InteractionResponse)
    ensures
        is_message(r, InteractionCallbackType::ChannelMessageWithSource, msg@, true, true),
{
    InteractionResponse::message().content(msg).components(build_action_row()).into()
}

/// The message acted on, edited to `msg`, with the game's buttons.
pub fn quiet_message(msg: &str) -> (r: InteractionResponse)
    ensures
        is_message(r, InteractionCallbackType::UpdateMessage, msg@, true, true),
{
    plain_message(msg).edit()
}

/// A new message for everyone to see, without buttons.
pub fn loud_message(msg: &str) -> (r: InteractionResponse)
    ensures
        is_message(r, InteractionCallbackType::ChannelMessageWithSource, msg@, false, false),
{
    InteractionResponse::message().content(msg).shout().into()
}

/// A new message for everyone to see, with the game's buttons.
pub fn new_message(msg: &str) -> (r: InteractionResponse)
    ensures
        is_message(r, InteractionCallbackType::ChannelMessageWithSource, msg@, false, true),
{
    InteractionResponse::message().content(msg).components(build_action_row()).shout().into()
}

/// The message acted on, edited to `msg` for everyone, with the game's buttons.
pub fn edit_message(msg: &str) -> (r: InteractionResponse)
    ensures
        is_message(r, InteractionCallbackType::UpdateMessage, msg@, false, true),
{
    new_message(msg).edit()
}

/// The form that asks for a claim and its proof.
pub fn recall_modal(id: &str, title: &str) -> (r: InteractionResponse)
    ensures
        is_modal(r, id@, title@, recall_fields()),
{
    let fields = build_recall_fields();
    let r: InteractionResponse = InteractionResponse::modal().id(id).title(title).components(
        fields,
    ).into();
    assert(recall_fields()[0] == ("claim"@, "claim"@));
    assert(recall_fields()[1] == ("proof"@, "proof"@));
    r
}

/// The form that asks for a roll amount.
pub fn set_roll_modal(id: &str, title: &str) -> (r: InteractionResponse)
    ensures
        is_modal(r, id@, title@, set_roll_fields()),
{
    let fields = build_set_roll_fields();
    let r: InteractionResponse = InteractionResponse::modal().id(id).title(title).components(
        fields,
    ).into();
    assert(set_roll_fields()[0] == ("Amount"@, "roll_amt"@));
    r
}

/// The answer to a custom id that the game does not know.
pub const UNKNOWN_COMMAND: &'static str = "Unknown command...";

/// The private notice that an action was not recognised.
pub fn unknown_response() -> (r: InteractionResponse)
    ensures
        is_message(
            r,
            InteractionCallbackType::ChannelMessageWithSource,
            UNKNOWN_COMMAND@,
            true,
            false,
        ),
{
    InteractionResponse::message().content(UNKNOWN_COMMAND).into()
}

/// Text that begins with the stats block of `g` reads back as `g`.
pub proof fn lemma_starts_with_stats(t: Seq<char>, g: GameState)
    requires
        stats_text(g).len() <= t.len(),
        t.subrange(0, stats_text(g).len() as int) == stats_text(g),
    ensures
        decode_spec(t) == g,
{
    let rest = t.subrange(stats_text(g).len() as int, t.len() as int);
    assert(t =~= stats_text(g) + rest);
    lemma_stats_first(g, rest);
}

/// The text of a roll with `multiplier` drawn.
pub open spec fn roll_text(g: GameState, multiplier: u64) -> Seq<char> {
    let (next, outcome) = roll_spec(g, multiplier);
    match outcome {
        RollOutcome::Rolled { bet, multiplier, winnings } => roll_success_text(bet, multiplier, next),
        RollOutcome::OverBank => stats_text(next) + ROLL_FAILURE@,
    }
}

/// A roll's text reads back as the state after the roll.
pub proof fn lemma_roll_text_reads_back(g: GameState, multiplier: u64)
    ensures
        decode_spec(roll_text(g, multiplier)) == roll_spec(g, multiplier).0,
{
    let next = roll_spec(g, multiplier).0;
    assert(roll_text(g, multiplier).subrange(0, stats_text(next).len() as int) =~= stats_text(next));
    lemma_starts_with_stats(roll_text(g, multiplier), next);
}

/// Rolls with the drawn `multiplier` and tells the result.
pub fn roll_result_with(state: InteractionState, multiplier: u64) -> (r: String)
    requires
        multiplier < ROLL_FACES,
    ensures
        r@ == roll_text(state.game_state, multiplier),
        decode_spec(r@) == roll_spec(state.game_state, multiplier).0,
{
    proof {
        lemma_roll_text_reads_back(state.game_state, multiplier);
    }
    let (next, outcome) = roll(state.game_state, multiplier);
    let after = InteractionState { user: state.user, game_state: next };
    match outcome {
        RollOutcome::Rolled { bet, multiplier, winnings } => roll_success_message(bet, multiplier, &after),
        RollOutcome::OverBank => roll_failure_message(&after),
    }
}

/// Rolls on the current bet and tells the result.
pub fn roll_result(state: InteractionState) -> (r: String)
    ensures
        exists|m: u64|
            m < ROLL_FACES && r@ == #[trigger] roll_text(state.game_state, m) && decode_spec(r@)
                == roll_spec(state.game_state, m).0,
{
    let m = draw_below(ROLL_FACES);
    roll_result_with(state, m)
}

/// The text of a free gift with `draw` drawn.
pub open spec fn free_text_of(g: GameState, draw: u64) -> Seq<char> {
    let (next, outcome) = free_gift_spec(g, draw);
    match outcome {
        GiftOutcome::Shells(n) => free_text(Some(n), None, next),
        GiftOutcome::Inspiration(n) => free_text(None, Some(n), next),
    }
}

/// A free gift's text reads back as the state after the gift.
pub proof fn lemma_free_text_reads_back(g: GameState, draw: u64)
    ensures
        decode_spec(free_text_of(g, draw)) == free_gift_spec(g, draw).0,
{
    let next = free_gift_spec(g, draw).0;
    assert(free_text_of(g, draw).subrange(0, stats_text(next).len() as int) =~= stats_text(next));
    lemma_starts_with_stats(free_text_of(g, draw), next);
}

/// Gives the free gift that `draw` selects and tells what it was.
pub fn free_result_with(state: InteractionState, draw: u64) -> (r: String)
    requires
        draw < GIFT_FACES,
    ensures
        r@ == free_text_of(state.game_state, draw),
        decode_spec(r@) == free_gift_spec(state.game_state, draw).0,
{
    proof {
        lemma_free_text_reads_back(state.game_state, draw);
    }
    let (next, outcome) = free_gift(state.game_state, draw);
    let after = InteractionState { user: state.user, game_state: next };
    match outcome {
        GiftOutcome::Shells(n) => free_message(Some(n), None, &after),
        GiftOutcome::Inspiration(n) => free_message(None, Some(n), &after),
    }
}

/// Gives a free gift and tells what it was.
pub fn free_result(state: InteractionState) -> (r: String)
    ensures
        exists|d: u64|
            d < GIFT_FACES && r@ == #[trigger] free_text_of(state.game_state, d) && decode_spec(r@)
                == free_gift_spec(state.game_state, d).0,
{
    let d = draw_below(GIFT_FACES);
    free_result_with(state, d)
}

/// The text of asking for a proof.
pub open spec fn proof_text(user: Seq<char>, g: GameState, salt: Seq<char>) -> Seq<char> {
    match brag_phrase_spec(g, user, salt) {
        Some(p) => proof_success_text(p, user, brag_state_spec(g)),
        None => stats_text(brag_state_spec(g)) + PROOF_FAILURE@,
    }
}

/// A proof's text reads back as the state after the proof was asked for.
pub proof fn lemma_proof_text_reads_back(user: Seq<char>, g: GameState, salt: Seq<char>)
    ensures
        decode_spec(proof_text(user, g, salt)) == brag_state_spec(g),
{
    let next = brag_state_spec(g);
    let t = proof_text(user, g, salt);
    assert(t.subrange(0, stats_text(next).len() as int) =~= stats_text(next));
    lemma_starts_with_stats(t, next);
}

/// Spends a squid on a proof of the bank and tells it.
pub fn proof_result(state: InteractionState, salt: &str) -> (r: String)
    ensures
        r@ == proof_text(state.user@, state.game_state, salt@),
        decode_spec(r@) == brag_state_spec(state.game_state),
{
    proof {
        lemma_proof_text_reads_back(state.user@, state.game_state, salt@);
    }
    let (next, outcome) = brag(state.game_state, state.user.as_str(), salt);
    let after = InteractionState { user: state.user, game_state: next };
    match outcome {
        ProofOutcome::Proven(p) => proof_success_message(p.as_str(), &after),
        ProofOutcome::NoInspiration => proof_failure_message(&after),
    }
}

/// The text of a recall of `claim` with the proof `presented`.
pub open spec fn recall_text(
    user: Seq<char>,
    g: GameState,
    salt: Seq<char>,
    claim: Seq<char>,
    presented: Seq<char>,
) -> Seq<char> {
    let (next, outcome) = recall_spec(g, user, salt, claim, presented);
    let said = trim_spec(presented);
    match outcome {
        RecallOutcome::Recalled(n) => stats_text(next) + RECALL_UTTER@ + said + RECALL_LEGIT@
            + decimal(next.bank as nat) + RECALL_END@,
        RecallOutcome::Rejected => stats_text(next) + RECALL_UTTER@ + said + RECALL_FAILS@,
    }
}

/// A recall's text reads back as the state after the recall, whatever the
/// player typed as the proof.
pub proof fn lemma_recall_text_reads_back(
    user: Seq<char>,
    g: GameState,
    salt: Seq<char>,
    claim: Seq<char>,
    presented: Seq<char>,
)
    ensures
        decode_spec(recall_text(user, g, salt, claim, presented)) == recall_spec(
            g,
            user,
            salt,
            claim,
            presented,
        ).0,
{
    let next = recall_spec(g, user, salt, claim, presented).0;
    let t = recall_text(user, g, salt, claim, presented);
    assert(t.subrange(0, stats_text(next).len() as int) =~= stats_text(next));
    lemma_starts_with_stats(t, next);
}

/// Recalls `claim` where `presented` proves it, and tells the result.
pub fn recall_submit_result(state: InteractionState, salt: &str, claim: &str, presented: &str) -> (r:
    String)
    ensures
        r@ == recall_text(state.user@, state.game_state, salt@, claim@, presented@),
        decode_spec(r@) == recall_spec(state.game_state, state.user@, salt@, claim@, presented@).0,
{
    proof {
        lemma_recall_text_reads_back(state.user@, state.game_state, salt@, claim@, presented@);
    }
    let said = trim(presented);
    let (next, outcome) = recall(state.game_state, state.user.as_str(), salt, claim, presented);
    let after = InteractionState { user: state.user, game_state: next };
    match outcome {
        RecallOutcome::Recalled(_) => recall_success_message(said, &after),
        RecallOutcome::Rejected => recall_failure_message(said, &after),
    }
}

/// The text of setting the bet from what the player typed.
pub open spec fn set_roll_text(g: GameState, amount: Seq<char>) -> Seq<char> {
    let (next, outcome) = set_bet_spec(g, amount);
    match outcome {
        SetBetOutcome::Accepted(b) => stats_text(next) + SET_ROLL_TO@ + decimal(b as nat)
            + SET_ROLL_END@,
        SetBetOutcome::OverBankFailure => stats_text(next) + SET_ROLL_AMT_FAILURE@,
        SetBetOutcome::ParseFailure => stats_text(next) + SET_ROLL_PARSE_FAILURE@,
    }
}

/// The text of setting the bet reads back as the state after it.
pub proof fn lemma_set_roll_text_reads_back(g: GameState, amount: Seq<char>)
    ensures
        decode_spec(set_roll_text(g, amount)) == set_bet_spec(g, amount).0,
{
    let next = set_bet_spec(g, amount).0;
    let t = set_roll_text(g, amount);
    assert(t.subrange(0, stats_text(next).len() as int) =~= stats_text(next));
    lemma_starts_with_stats(t, next);
}

/// Sets the bet from what the player typed, and tells the result.
pub fn set_roll_submit_result(state: InteractionState, amount: &str) -> (r: String)
    ensures
        r@ == set_roll_text(state.game_state, amount@),
        decode_spec(r@) == set_bet_spec(state.game_state, amount@).0,
{
    proof {
        lemma_set_roll_text_reads_back(state.game_state, amount@);
    }
    let (next, outcome) = set_bet(state.game_state, amount);
    let after = InteractionState { user: state.user, game_state: next };
    match outcome {
        SetBetOutcome::Accepted(b) => set_roll_success_message(b, &after),
        SetBetOutcome::OverBankFailure => set_roll_amt_failure_message(&after),
        SetBetOutcome::ParseFailure => set_roll_parse_failure_message(&after),
    }
}

/// The custom id of a pressed component or a submitted modal.
pub open spec fn custom_id_of(req: InteractionRequest) -> Option<Seq<char>> {
    match req.data {
        Some(InteractionData::Message(m)) => Some(m.custom_id@),
        Some(InteractionData::Modal(m)) => Some(m.custom_id@),
        _ => None,
    }
}

/// What was typed into the field `id` of a submitted modal, or the empty text.
pub open spec fn submitted_text(req: InteractionRequest, id: Seq<char>) -> Seq<char> {
    match req.data {
        Some(InteractionData::Modal(m)) => match field_value(m.components@, id) {
            Some(v) => v,
            None => Seq::<char>::empty(),
        },
        _ => Seq::<char>::empty(),
    }
}

pub open spec fn is_unknown_response(r: InteractionResponse) -> bool {
    is_message(r, InteractionCallbackType::ChannelMessageWithSource, UNKNOWN_COMMAND@, true, false)
}

/// The answer to the shell game command: the rules and the stats, privately,
/// with the game's buttons.
pub open spec fn shells_invoked(req: InteractionRequest, r: InteractionResponse) -> bool {
    &&& is_message(
        r,
        InteractionCallbackType::ChannelMessageWithSource,
        stats_text(request_game(req)) + WELCOME@,
        true,
        true,
    )
    &&& decode_spec(stats_text(request_game(req)) + WELCOME@) == request_game(req)
}

/// The answer to a press on one of the game's buttons.
pub open spec fn shells_reacted(salt: Seq<char>, req: InteractionRequest, r: InteractionResponse) -> bool {
    let g = request_game(req);
    let user = request_user(req);
    match custom_id_of(req) {
        Some(id) => if id == "roll"@ {
            exists|m: u64|
                m < ROLL_FACES && is_message(
                    r,
                    InteractionCallbackType::UpdateMessage,
                    #[trigger] roll_text(g, m),
                    true,
                    true,
                ) && decode_spec(roll_text(g, m)) == roll_spec(g, m).0
        } else if id == "set_roll"@ {
            is_modal(r, "set_roll"@, "Set Roll Amount"@, set_roll_fields())
        } else if id == "free"@ {
            exists|d: u64|
                d < GIFT_FACES && is_message(
                    r,
                    InteractionCallbackType::UpdateMessage,
                    #[trigger] free_text_of(g, d),
                    true,
                    true,
                ) && decode_spec(free_text_of(g, d)) == free_gift_spec(g, d).0
        } else if id == "proof"@ {
            is_message(
                r,
                InteractionCallbackType::ChannelMessageWithSource,
                proof_text(user, g, salt),
                false,
                false,
            ) && decode_spec(proof_text(user, g, salt)) == brag_state_spec(g)
        } else if id == "recall"@ {
            is_modal(r, "submit_recall"@, "Circle of Recall"@, recall_fields())
        } else {
            is_unknown_response(r)
        },
        None => is_unknown_response(r),
    }
}

/// The answer to one of the game's forms.
pub open spec fn shells_submitted(salt: Seq<char>, req: InteractionRequest, r: InteractionResponse) -> bool {
    let g = request_game(req);
    let user = request_user(req);
    match custom_id_of(req) {
        Some(id) => if id == "submit_recall"@ {
            is_message(
                r,
                InteractionCallbackType::UpdateMessage,
                recall_text(
                    user,
                    g,
                    salt,
                    submitted_text(req, "claim"@),
                    submitted_text(req, "proof"@),
                ),
                true,
                true,
            ) && decode_spec(
                recall_text(
                    user,
                    g,
                    salt,
                    submitted_text(req, "claim"@),
                    submitted_text(req, "proof"@),
                ),
            ) == recall_spec(
                g,
                user,
                salt,
                submitted_text(req, "claim"@),
                submitted_text(req, "proof"@),
            ).0
        } else if id == "set_roll"@ {
            is_message(
                r,
                InteractionCallbackType::UpdateMessage,
                set_roll_text(g, submitted_text(req, "roll_amt"@)),
                true,
                true,
            ) && decode_spec(set_roll_text(g, submitted_text(req, "roll_amt"@))) == set_bet_spec(
                g,
                submitted_text(req, "roll_amt"@),
            ).0
        } else {
            is_unknown_response(r)
        },
        None => is_unknown_response(r),
    }
}

/// The value typed into the field `id`, or the empty text.
fn submitted_or_empty(req: &InteractionRequest, id: &str) -> (r: String)
    ensures
        r@ == submitted_text(*req, id@),
{
    match req.modal_submit_value(id) {
        Some(v) => v,
        None => String::new(),
    }
}

/// The shell game, with the secret salt that its proofs are made with.
pub struct ShellsHandler {
    pub salt: String,
}

impl ShellsHandler {
    pub fn new(salt: &str) -> (r: ShellsHandler)
        ensures
            r.salt@ == salt@,
    {
        ShellsHandler { salt: String::from_str(salt) }
    }

    /// Shows the rules and the stats read from the message, if any.
    pub fn invoke(&self, req: &InteractionRequest) -> (r: InteractionResponse)
        ensures
            shells_invoked(*req, r),
    {
        let state = InteractionState::from_request(req);
        let text = welcome_message(&state);
        proof {
            lemma_stats_first(state.game_state, WELCOME@);
        }
        plain_message(text.as_str())
    }

    /// Carries out the pressed button's action.
    pub fn react(&self, req: &InteractionRequest) -> (r: InteractionResponse)
        ensures
            shells_reacted(self.salt@, *req, r),
    {
        let state = InteractionState::from_request(req);
        let id = match req.custom_id() {
            Some(id) => id,
            None => {
                return unknown_response();
            },
        };
        if id == String::from_str("roll") {
            let text = roll_result(state);
            let r = quiet_message(text.as_str());
            let ghost m = choose|m: u64| m < ROLL_FACES && text@ == roll_text(state.game_state, m);
            assert(is_message(r, InteractionCallbackType::UpdateMessage, roll_text(state.game_state, m), true, true));
            r
        } else if id == String::from_str("set_roll") {
            set_roll_modal("set_roll", "Set Roll Amount")
        } else if id == String::from_str("free") {
            let text = free_result(state);
            let r = quiet_message(text.as_str());
            let ghost d = choose|d: u64| d < GIFT_FACES && text@ == free_text_of(state.game_state, d);
            assert(is_message(r, InteractionCallbackType::UpdateMessage, free_text_of(state.game_state, d), true, true));
            r
        } else if id == String::from_str("proof") {
            let text = proof_result(state, self.salt.as_str());
            loud_message(text.as_str())
        } else if id == String::from_str("recall") {
            recall_modal("submit_recall", "Circle of Recall")
        } else {
            unknown_response()
        }
    }

    /// Takes in a submitted form: a recall, or a new roll amount.
    pub fn submit(&self, req: &InteractionRequest) -> (r: InteractionResponse)
        ensures
            shells_submitted(self.salt@, *req, r),
    {
        let state = InteractionState::from_request(req);
        let id = match req.custom_id() {
            Some(id) => id,
            None => {
                return unknown_response();
            },
        };
        if id == String::from_str("submit_recall") {
            let claim = submitted_or_empty(req, "claim");
            let presented = submitted_or_empty(req, "proof");
            let text = recall_submit_result(
                state,
                self.salt.as_str(),
                claim.as_str(),
                presented.as_str(),
            );
            quiet_message(text.as_str())
        } else if id == String::from_str("set_roll") {
            let amount = submitted_or_empty(req, "roll_amt");
            let text = set_roll_submit_result(state, amount.as_str());
            quiet_message(text.as_str())
        } else {
            unknown_response()
        }
    }
}

} // verus!
