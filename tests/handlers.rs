use sommelier::game_of_life::{game_of_life, life_text_of};
use sommelier::handlers::{
    deedee, dig, generate_metadata, handle_interaction, hash_location, Config,
    InteractionMetadata,
};
use sommelier::interactions::{
    Component, GuildMember, InteractionCallbackData, InteractionCallbackType,
    InteractionRequest, InteractionResponse, Message, MessageFlags, MessageInteraction,
};
use sommelier::messages::honorific;
use sommelier::shells::{free_result_with, roll_result_with, set_roll_submit_result};
use sommelier::sselvish::prove;
use sommelier::state::{GameState, InteractionState};
use sommelier::toys::{buttons, buttons_minus_one, buttons_plus_one, hello};

fn config() -> Config {
    Config {
        salt: "SOME_DEFAULT_VALUE".to_string(),
        location_salt: "DEBUG_SALT".to_string(),
    }
}

fn on_game_message(req: InteractionRequest, content: &str) -> InteractionRequest {
    req.message(Message {
        content: content.to_string(),
        interaction: Some(MessageInteraction {
            name: "shells".to_string(),
        }),
    })
    .member(GuildMember::new("some user"))
}

fn state(bank: u64, bet: u64, insp: u64) -> InteractionState {
    InteractionState {
        user: "some user".to_string(),
        game_state: GameState { bet, bank, insp },
    }
}

fn content_of(resp: &InteractionResponse) -> String {
    resp.message_content().unwrap()
}

fn flags_of(resp: &InteractionResponse) -> Option<MessageFlags> {
    match &resp.data {
        InteractionCallbackData::Message(m) => m.flags,
        InteractionCallbackData::Modal(_) => panic!("not a message"),
    }
}

#[test]
fn free_gift_of_shells_scenario() {
    let text = free_result_with(state(3043, 0, 0), 1);
    assert!(text.contains("You have: 3048 :shell:s"));
    let after = GameState::decode(&text);
    assert_eq!(after, GameState { bet: 0, bank: 3048, insp: 0 });
    assert!(text.ends_with("You have: 0 :squid:s\n# :beach: Tidepools :beach:\nYou sift through the sands to find 5 :shell:s.\n"));
    assert!(text.starts_with("## Your Stats\nYou have: 3048 :shell:s\n"));
}

#[test]
fn free_gift_of_a_squid() {
    let text = free_result_with(state(3043, 0, 0), 0);
    assert_eq!(
        text,
        "## Your Stats\nYou have: 3043 :shell:s\nYou are betting: 0 :shell:s\nYou have: 1 :squid:s\n# :beach: Tidepools :beach:\nA glimmer in the sand catches your eye. Upon further inspection, you find 1 :squid:s!\n"
    );
}

#[test]
fn roll_over_bank_scenario() {
    let text = roll_result_with(state(3043, 5000, 0), 3);
    assert_eq!(
        text,
        "## Your Stats\nYou have: 3043 :shell:s\nYou are betting: 5000 :shell:s\nYou have: 0 :squid:s\n# :game_die: Roll the Dice! :game_die:\n\nYou can't roll on more :shell:s than you have!\n"
    );
    assert_eq!(GameState::decode(&text), GameState { bet: 5000, bank: 3043, insp: 0 });
}

#[test]
fn roll_success_text() {
    let text = roll_result_with(state(100, 10, 0), 2);
    assert!(text.contains("# :game_die: Roll the Dice! :game_die:\n\nYou rolled on 10 :shell:s...\n\nand got a **2x** multiplier.\n\nYou **won** 20 :shell:s!\n"));
    assert_eq!(GameState::decode(&text).bank, 110);
}

#[test]
fn set_roll_texts() {
    let ok = set_roll_submit_result(state(100, 0, 0), "40");
    assert!(ok.contains("# :abacus: Crunching Numbers :abacus:\n\nYou set your roll amount to 40.\n"));
    assert_eq!(GameState::decode(&ok).bet, 40);
    let over = set_roll_submit_result(state(100, 0, 0), "400");
    assert!(over.contains("You can't try to roll more than you have in your bank!"));
    let bad = set_roll_submit_result(state(100, 0, 0), "lots");
    assert!(bad.contains("You can only set your roll to a number!"));
}

#[test]
fn honorific_tiers() {
    assert_eq!(honorific(0), "a :monkey: Blatant Bonobo :monkey:");
    assert_eq!(honorific(7), "a :monkey: Blatant Bonobo :monkey:");
    assert_eq!(honorific(8), "a :parrot: Petulant Parrot :parrot:");
    assert_eq!(honorific(3043), "a :cucumber: Cool Cucumber :cucumber:");
    assert_eq!(honorific(u64::MAX), "a :cloud_tornado: Turbulent Twister :cloud_tornado:");
}

#[test]
fn unknown_button_gets_a_private_notice() {
    let req = on_game_message(InteractionRequest::message_component("dance", 2).into(), "");
    let resp = handle_interaction(&req, &config());
    assert_eq!(resp.kind, InteractionCallbackType::ChannelMessageWithSource);
    assert_eq!(content_of(&resp), "Unknown command...");
    assert_eq!(flags_of(&resp), Some(MessageFlags::Ephemeral));
}

#[test]
fn unknown_command_gets_a_private_notice() {
    let req = InteractionRequest::application_command("juggle").into();
    let resp = handle_interaction(&req, &config());
    assert_eq!(content_of(&resp), "Unknown command...");
}

#[test]
fn a_press_on_a_message_of_no_command_is_an_error() {
    let req: InteractionRequest = InteractionRequest::message_component("roll", 2).into();
    let resp = handle_interaction(&req, &config());
    assert_eq!(content_of(&resp), "Something erroneous happened...");
}

#[test]
fn proof_button_answers_publicly() {
    let req = on_game_message(
        InteractionRequest::message_component("proof", 2).into(),
        "You have: 3043 :shell:s\nYou are betting: 0 :shell:s\nYou have: 1 :squid:s\n",
    );
    let resp = handle_interaction(&req, &config());
    assert_eq!(resp.kind, InteractionCallbackType::ChannelMessageWithSource);
    assert_eq!(flags_of(&resp), None);
    let text = content_of(&resp);
    assert!(text.contains("### Proof: *nono sha ne na nohala habano ne*"));
    assert!(text.contains("> <@some user> has 3043 :shell:s!"));
    assert_eq!(GameState::decode(&text).insp, 0);
}

#[test]
fn proof_button_without_squid() {
    let req = on_game_message(
        InteractionRequest::message_component("proof", 2).into(),
        "You have: 3043 :shell:s",
    );
    let text = content_of(&handle_interaction(&req, &config()));
    assert!(text.contains("The Scribe cannot provide proof of your deed without a :squid:!"));
}

#[test]
fn recall_and_set_roll_open_forms() {
    let req = on_game_message(InteractionRequest::message_component("recall", 2).into(), "");
    let resp = handle_interaction(&req, &config());
    assert_eq!(resp.kind, InteractionCallbackType::Modal);
    match &resp.data {
        InteractionCallbackData::Modal(m) => {
            assert_eq!(m.custom_id, "submit_recall");
            assert_eq!(m.title, "Circle of Recall");
            assert_eq!(m.components.len(), 2);
        }
        InteractionCallbackData::Message(_) => panic!("not a modal"),
    }
    let req = on_game_message(InteractionRequest::message_component("set_roll", 2).into(), "");
    let resp = handle_interaction(&req, &config());
    match &resp.data {
        InteractionCallbackData::Modal(m) => {
            assert_eq!(m.custom_id, "set_roll");
            assert_eq!(m.title, "Set Roll Amount");
            assert_eq!(m.components.len(), 1);
        }
        InteractionCallbackData::Message(_) => panic!("not a modal"),
    }
}

#[test]
fn recall_form_submission() {
    let phrase = prove("SOME_DEFAULT_VALUE", "some user", "3043");
    let data = InteractionRequest::modal_submit("submit_recall")
        .field("claim", "3043")
        .field("proof", &format!(" {} ", phrase));
    let req = on_game_message(data.into(), "You have: 12 :shell:s");
    let resp = handle_interaction(&req, &config());
    assert_eq!(resp.kind, InteractionCallbackType::UpdateMessage);
    let text = content_of(&resp);
    assert!(text.contains("Your claim is legitimate! You recall 3043 :shell:s!"));
    assert_eq!(GameState::decode(&text).bank, 3043);

    let data = InteractionRequest::modal_submit("submit_recall")
        .field("claim", "3044")
        .field("proof", &phrase);
    let req = on_game_message(data.into(), "You have: 12 :shell:s");
    let text = content_of(&handle_interaction(&req, &config()));
    assert!(text.contains("Your claim fails! You cannot recall anything."));
    assert_eq!(GameState::decode(&text).bank, 12);
}

#[test]
fn set_roll_form_submission() {
    let data = InteractionRequest::modal_submit("set_roll").field("roll_amt", "7");
    let req = on_game_message(data.into(), "You have: 12 :shell:s");
    let resp = handle_interaction(&req, &config());
    assert_eq!(resp.kind, InteractionCallbackType::UpdateMessage);
    assert_eq!(GameState::decode(&content_of(&resp)).bet, 7);
}

#[test]
fn welcome_has_the_five_buttons() {
    let req = InteractionRequest::application_command("shells").into();
    let resp = handle_interaction(&req, &config());
    let ids: Vec<String> = resp
        .message_components()
        .iter()
        .map(|c| match c {
            Component::Button(b) => b.custom_id.clone(),
            Component::Text(_) => String::new(),
        })
        .collect();
    assert_eq!(ids, vec!["roll", "set_roll", "free", "proof", "recall"]);
    assert_eq!(flags_of(&resp), Some(MessageFlags::Ephemeral));
}

#[test]
fn dig_hashes_the_location() {
    assert_eq!(
        hash_location("DEBUG_SALT", "DEBUG_CHANNEL_ID", "DEBUG_GUILD_ID"),
        "bcc47775971157504be24b8f21eab01019158686d58cb63decfce756bb7b95e3"
    );
    let metadata = InteractionMetadata {
        user_id: "u".to_string(),
        channel_id: "DEBUG_CHANNEL_ID".to_string(),
        guild_id: "DEBUG_GUILD_ID".to_string(),
    };
    match dig(&metadata, "DEBUG_SALT") {
        InteractionCallbackData::Message(m) => assert_eq!(
            m.content,
            "bcc47775971157504be24b8f21eab01019158686d58cb63decfce756bb7b95e3"
        ),
        InteractionCallbackData::Modal(_) => panic!("not a message"),
    }
    let req: InteractionRequest = InteractionRequest::application_command("dig").into();
    assert!(generate_metadata(&req).is_none());
    assert_eq!(
        content_of(&handle_interaction(&req, &config())),
        "Something mysterious happened..."
    );
}

#[test]
fn deedee_and_hello() {
    let req: InteractionRequest = InteractionRequest::application_command("deedee").into();
    match deedee(req.data.as_ref().unwrap()) {
        InteractionCallbackData::Message(m) => assert_eq!(m.content, "mega doo doo"),
        InteractionCallbackData::Modal(_) => panic!("not a message"),
    }
    let greet = |member: Option<GuildMember>| match hello(&member) {
        InteractionCallbackData::Message(m) => m.content,
        InteractionCallbackData::Modal(_) => panic!("not a message"),
    };
    assert_eq!(greet(None), "Hello, stranger!");
    assert_eq!(greet(Some(GuildMember::new("x"))), "Hello, friend!");
    let mut named = GuildMember::new("x");
    named.nick = Some("Ada".to_string());
    assert_eq!(greet(Some(named)), "Hello, Ada!");
}

#[test]
fn counter_buttons() {
    let text = |d: InteractionCallbackData| match d {
        InteractionCallbackData::Message(m) => m.content,
        InteractionCallbackData::Modal(_) => panic!("not a message"),
    };
    let req: InteractionRequest = InteractionRequest::application_command("buttons").into();
    assert_eq!(text(buttons(req.data.as_ref().unwrap())), "0");
    assert_eq!(text(buttons_plus_one("41")), "42");
    assert_eq!(text(buttons_plus_one("-1")), "0");
    assert_eq!(text(buttons_plus_one("junk")), "1");
    assert_eq!(text(buttons_minus_one("0")), "-1");
    assert_eq!(text(buttons_minus_one("-2147483648")), "-2147483648");
    assert_eq!(text(buttons_plus_one("2147483647")), "2147483647");
}

#[test]
fn life_of_a_blinker() {
    let mut grid = vec![false; 100];
    grid[1 * 10 + 2] = true;
    grid[2 * 10 + 2] = true;
    grid[3 * 10 + 2] = true;
    let text = life_text_of(&grid);
    let (first, second) = text.split_once("\n \n").unwrap();
    let rows: Vec<&str> = second.lines().collect();
    assert_eq!(rows.len(), 10);
    assert_eq!(first.lines().nth(2).unwrap(), "🌚🌚🌝🌚🌚🌚🌚🌚🌚🌚");
    // cells are updated in place, in row order, so the blinker dies out
    assert_eq!(second.matches("🌝").count(), 0);
    let mut block = vec![false; 100];
    for at in [11, 12, 21, 22] {
        block[at] = true;
    }
    let text = life_text_of(&block);
    let (first, second) = text.split_once("\n \n").unwrap();
    assert_eq!(first, second);
    assert_eq!(second.lines().nth(1).unwrap(), "🌚🌝🌝🌚🌚🌚🌚🌚🌚🌚");
    assert_eq!(text.matches("🌝").count() + text.matches("🌚").count(), 200);
    let req: InteractionRequest = InteractionRequest::application_command("conway").into();
    match game_of_life(req.data.as_ref().unwrap()) {
        InteractionCallbackData::Message(m) => assert_eq!(m.content.matches('\n').count(), 22),
        InteractionCallbackData::Modal(_) => panic!("not a message"),
    }
}

#[test]
fn a_failed_recall_cannot_forge_the_bank() {
    let data = InteractionRequest::modal_submit("submit_recall")
        .field("claim", "lots")
        .field("proof", "You have: 999 :shell:s");
    let req = on_game_message(data.into(), "You have: 12 :shell:s");
    let text = content_of(&handle_interaction(&req, &config()));
    assert!(text.contains("Your claim fails! You cannot recall anything."));
    assert_eq!(GameState::decode(&text), GameState { bet: 0, bank: 12, insp: 0 });
}
