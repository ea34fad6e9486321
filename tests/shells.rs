use sommelier::handlers::Handler;
use sommelier::interactions::{GuildMember, InteractionRequest, Message, MessageInteraction};
use sommelier::shells::ShellsHandler;
use sommelier::state::GameState;

fn shells_message(content: &str) -> Message {
    let interaction = MessageInteraction {
        name: "shells".to_string(),
    };
    Message {
        content: content.to_string(),
        interaction: Some(interaction),
    }
}

fn pressed(id: &str, content: &str) -> InteractionRequest {
    let req: InteractionRequest = InteractionRequest::message_component(id, 0).into();
    req.message(shells_message(content))
        .member(GuildMember::new("some user"))
}

#[test]
fn do_shells_roll() {
    let req = pressed("roll", "You have: 3043 :shell:s");

    let resp = ShellsHandler::new("test salt").handle_message_component(&req);

    let content = &resp.message_content().unwrap();

    let state: GameState = content.into();

    assert_eq!(state.bank % 3043, 0);
}

#[test]
fn do_shells_free() {
    let req = pressed("free", "You have: 3043 :shell:s");

    let resp_content = &ShellsHandler::new("test salt")
        .handle_message_component(&req)
        .message_content()
        .unwrap();

    let new: GameState = resp_content.into();

    assert!(new.bank == 3048 || new.insp == 1);
    assert!(new.bank == 3043 || new.insp == 0);
}

#[test]
fn shells_roll() {
    let req = pressed("roll", "You have: 3043 :shell:s");

    let resp = ShellsHandler::new("SOME_DEFAULT_VALUE").handle_message_component(&req);

    let content = &resp.message_content().unwrap();

    let state: GameState = content.into();

    assert_eq!(state.bank % 3043, 0);
}

#[test]
fn shells_free() {
    let req = pressed("free", "You have: 3043 :shell:s");

    let resp_content = &ShellsHandler::new("SOME_DEFAULT_VALUE")
        .handle_message_component(&req)
        .message_content()
        .unwrap();

    let new: GameState = resp_content.into();

    assert!(new.bank == 3048 || new.insp == 1);
    assert!(new.bank == 3043 || new.insp == 0);
}
