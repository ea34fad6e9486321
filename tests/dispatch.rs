use sommelier::handlers::{handle_interaction, Config};
use sommelier::interactions::{
    GuildMember, InteractionCallbackData, InteractionCallbackType, InteractionRequest,
    InteractionResponse,
};

fn config() -> Config {
    Config {
        salt: "SOME_DEFAULT_VALUE".to_string(),
        location_salt: "DEBUG_SALT".to_string(),
    }
}

#[test]
fn app_test_ping_pong() {
    let req = InteractionRequest::ping();

    let resp = handle_interaction(&req, &config());

    assert_eq!(resp, InteractionResponse::pong());
}

#[test]
fn lib_test_ping_pong() {
    let req = InteractionRequest::ping();

    let resp = handle_interaction(&req, &config());

    assert_eq!(resp, InteractionResponse::pong());
}

#[test]
fn test_dig() {
    let req: InteractionRequest = InteractionRequest::application_command("dig").into();
    let mut req = req.member(GuildMember::new("DEBUG_USER_ID"));
    req.guild_id = Some("DEBUG_GUILD_ID".to_string());
    req.channel_id = Some("DEBUG_CHANNEL_ID".to_string());

    let resp = handle_interaction(&req, &config());

    assert!(matches!(resp.kind, InteractionCallbackType::ChannelMessageWithSource));
    assert!(matches!(resp.data, InteractionCallbackData::Message(_)));
}

#[test]
fn main_test_deedee() {
    let req = InteractionRequest::application_command("deedee").into();

    let resp = handle_interaction(&req, &config());

    let expected_resp: InteractionResponse =
        InteractionResponse::message().content("mega doo doo").into();

    assert_eq!(resp, expected_resp);
}

#[test]
fn lib_test_deedee() {
    let req = InteractionRequest::application_command("deedee").into();

    let resp = handle_interaction(&req, &config());

    let expected_resp: InteractionResponse =
        InteractionResponse::message().content("mega doo doo").into();

    assert_eq!(resp, expected_resp);
}

#[test]
fn main_shell_game() {
    let req = InteractionRequest::application_command("shells").into();

    let resp = handle_interaction(&req, &config());

    let components = resp.message_components();

    assert_eq!(components.len(), 5);
}

#[test]
fn lib_shell_game() {
    let req = InteractionRequest::application_command("shells").into();

    let resp = handle_interaction(&req, &config());

    let components = resp.message_components();

    assert_eq!(components.len(), 5);
}

const SIZE: usize = sommelier::game_of_life::SIZE;

#[test]
fn main_test_conway() {
    let req: InteractionRequest = InteractionRequest::application_command("conway").into();

    let resp = handle_interaction(&req, &config());

    let content = resp.message_content().unwrap();

    let resp_emoji_count = content.matches("🌝").count() + content.matches("🌚").count();

    let expected_emoji_count = SIZE.pow(2) * 2;

    println!("{}", content);
    assert_eq!(expected_emoji_count, resp_emoji_count);
}

#[test]
fn lib_test_conway() {
    let req: InteractionRequest = InteractionRequest::application_command("conway").into();

    let resp = handle_interaction(&req, &config());

    let content = resp.message_content().unwrap();

    let resp_emoji_count = content.matches("🌝").count() + content.matches("🌚").count();

    let expected_emoji_count = SIZE.pow(2) * 2;

    assert_eq!(expected_emoji_count, resp_emoji_count);
}
