//! Routing: each interaction goes to the handler of the command that it names
//! or that made the message it acts on. An unknown name gets a private notice.
use vstd::prelude::*;

use crate::game_of_life::{is_board, life_text, random_life_text};
use crate::interactions::{
    InteractionCallbackData, InteractionCallbackType, InteractionData,
    InteractionRequest, InteractionResponse, InteractionType, MessageFlags,
};
use crate::shells::{
    is_message, is_unknown_response, shells_invoked, shells_reacted, shells_submitted,
    unknown_response, ShellsHandler,
};
use crate::sselvish::{sha256_digest, sha256_hex};

verus! {

/// What a command's handler does with each kind of interaction: its command
/// being invoked, a press on one of its components, a submission of one of
/// its forms.
pub trait Handler {
    spec fn invoked(&self, req: InteractionRequest, r: InteractionResponse) -> bool;

    spec fn reacted(&self, req: InteractionRequest, r: InteractionResponse) -> bool;

    spec fn submitted(&self, req: InteractionRequest, r: InteractionResponse) -> bool;

    fn handle_application_command(&self, req: &InteractionRequest) -> (r: InteractionResponse)
        ensures
            self.invoked(*req, r),
    ;

    fn handle_message_component(&self, req: &InteractionRequest) -> (r: InteractionResponse)
        ensures
            self.reacted(*req, r),
    ;

    fn handle_modal_submit(&self, req: &InteractionRequest) -> (r: InteractionResponse)
        ensures
            self.submitted(*req, r),
    ;
}

impl Handler for ShellsHandler {
    open spec fn invoked(&self, req: InteractionRequest, r: InteractionResponse) -> bool {
        shells_invoked(req, r)
    }

    open spec fn reacted(&self, req: InteractionRequest, r: InteractionResponse) -> bool {
        shells_reacted(self.salt@, req, r)
    }

    open spec fn submitted(&self, req: InteractionRequest, r: InteractionResponse) -> bool {
        shells_submitted(self.salt@, req, r)
    }

    fn handle_application_command(&self, req: &InteractionRequest) -> (r: InteractionResponse) {
        self.invoke(req)
    }

    fn handle_message_component(&self, req: &InteractionRequest) -> (r: InteractionResponse) {
        self.react(req)
    }

    fn handle_modal_submit(&self, req: &InteractionRequest) -> (r: InteractionResponse) {
        self.submit(req)
    }
}

/// The handler of names that no command has.
pub struct ErrorHandler;

impl Handler for ErrorHandler {
    open spec fn invoked(&self, req: InteractionRequest, r: InteractionResponse) -> bool {
        is_unknown_response(r)
    }

    open spec fn reacted(&self, req: InteractionRequest, r: InteractionResponse) -> bool {
        is_unknown_response(r)
    }

    open spec fn submitted(&self, req: InteractionRequest, r: InteractionResponse) -> bool {
        is_unknown_response(r)
    }

    fn handle_application_command(&self, req: &InteractionRequest) -> (r: InteractionResponse) {
        unknown_response()
    }

    fn handle_message_component(&self, req: &InteractionRequest) -> (r: InteractionResponse) {
        self.handle_application_command(req)
    }

    fn handle_modal_submit(&self, req: &InteractionRequest) -> (r: InteractionResponse) {
        self.handle_application_command(req)
    }
}

pub const DEEDEE_TEXT: &'static str = "mega doo doo";

/// The reply of the deedee command.
pub fn deedee(data: &InteractionData) -> (r: InteractionCallbackData)
    ensures
        r matches InteractionCallbackData::Message(m) && m.content@ == DEEDEE_TEXT@ && m.flags
            == Some(MessageFlags::Ephemeral) && m.components@.len() == 0,
{
    InteractionCallbackData::Message(InteractionResponse::message().content(DEEDEE_TEXT))
}

pub open spec fn is_deedee_response(r: InteractionResponse) -> bool {
    is_message(r, InteractionCallbackType::ChannelMessageWithSource, DEEDEE_TEXT@, true, false)
}

/// The deedee command, which answers every interaction the same way.
pub struct DeedeeHandler;

impl Handler for DeedeeHandler {
    open spec fn invoked(&self, req: InteractionRequest, r: InteractionResponse) -> bool {
        is_deedee_response(r)
    }

    open spec fn reacted(&self, req: InteractionRequest, r: InteractionResponse) -> bool {
        is_deedee_response(r)
    }

    open spec fn submitted(&self, req: InteractionRequest, r: InteractionResponse) -> bool {
        is_deedee_response(r)
    }

    fn handle_application_command(&self, req: &InteractionRequest) -> (r: InteractionResponse) {
        InteractionResponse::message().content(DEEDEE_TEXT).into()
    }

    fn handle_message_component(&self, req: &InteractionRequest) -> (r: InteractionResponse) {
        self.handle_application_command(req)
    }

    fn handle_modal_submit(&self, req: &InteractionRequest) -> (r: InteractionResponse) {
        self.handle_application_command(req)
    }
}

/// The secrets that the bot is configured with: the salt of the shell game's
/// proofs, and the salt of the dig command's location hashes.
pub struct Config {
    pub salt: String,
    pub location_salt: String,
}

/// Who acted, and where.
pub struct InteractionMetadata {
    pub user_id: String,
    pub channel_id: String,
    pub guild_id: String,
}

/// Who acted and where, where the request says all three.
pub fn generate_metadata(request: &InteractionRequest) -> (r: Option<InteractionMetadata>)
    ensures
        r is Some <==> (request.member is Some && request.channel_id is Some
            && request.guild_id is Some),
        r is Some ==> r->0.user_id@ == request.member->0.user.id@ && r->0.channel_id@
            == request.channel_id->0@ && r->0.guild_id@ == request.guild_id->0@,
{
    let user_id = match &request.member {
        Some(m) => m.user.id.clone(),
        None => {
            return None;
        },
    };
    let channel_id = match &request.channel_id {
        Some(c) => c.clone(),
        None => {
            return None;
        },
    };
    let guild_id = match &request.guild_id {
        Some(g) => g.clone(),
        None => {
            return None;
        },
    };
    Some(InteractionMetadata { user_id, channel_id, guild_id })
}

/// The hash of a location: the digest of the salt, the channel and the server.
pub open spec fn location_hash(salt: Seq<char>, channel_id: Seq<char>, guild_id: Seq<char>) -> Seq<
    char,
> {
    sha256_hex(salt + channel_id + guild_id)
}

/// Hashes a location under `salt`.
pub fn hash_location(salt: &str, channel_id: &str, guild_id: &str) -> (r: String)
    ensures
        r@ == location_hash(salt@, channel_id@, guild_id@),
{
    let mut s = String::from_str(salt);
    s.append(channel_id);
    s.append(guild_id);
    assert(s@ =~= salt@ + channel_id@ + guild_id@);
    sha256_digest(s.as_str())
}

/// The reply of the dig command: the hash of where it was dug, for all to see.
pub fn dig(metadata: &InteractionMetadata, salt: &str) -> (r: InteractionCallbackData)
    ensures
        r matches InteractionCallbackData::Message(m) && m.content@ == location_hash(
            salt@,
            metadata.channel_id@,
            metadata.guild_id@,
        ) && m.flags is None && m.components@.len() == 0,
{
    let hash = hash_location(salt, metadata.channel_id.as_str(), metadata.guild_id.as_str());
    InteractionCallbackData::Message(InteractionResponse::message().content(hash.as_str()).shout())
}

pub const ERROR_TEXT: &'static str = "Something erroneous happened...";

/// The private notice that a request could not be handled.
pub fn make_error_response() -> (r: InteractionResponse)
    ensures
        is_error_response(r),
{
    InteractionResponse::message().content(ERROR_TEXT).into()
}

pub open spec fn is_error_response(r: InteractionResponse) -> bool {
    is_message(r, InteractionCallbackType::ChannelMessageWithSource, ERROR_TEXT@, true, false)
}

/// The dig command's answer: the location's hash, or the error notice where
/// the request does not say where it was made.
pub open spec fn dug(salt: Seq<char>, req: InteractionRequest, r: InteractionResponse) -> bool {
    if req.member is Some && req.channel_id is Some && req.guild_id is Some {
        is_message(
            r,
            InteractionCallbackType::ChannelMessageWithSource,
            location_hash(salt, req.channel_id->0@, req.guild_id->0@),
            false,
            false,
        )
    } else {
        is_message(r, InteractionCallbackType::ChannelMessageWithSource, MYSTERY_TEXT@, true, false)
    }
}

pub const MYSTERY_TEXT: &'static str = "Something mysterious happened...";

/// The dig command's private notice that the request does not say where it
/// was made.
pub fn generate_error_response() -> (r: InteractionResponse)
    ensures
        is_message(r, InteractionCallbackType::ChannelMessageWithSource, MYSTERY_TEXT@, true, false),
{
    InteractionResponse::message().content(MYSTERY_TEXT).into()
}

/// The dig command, with the salt of its location hashes.
pub struct DigHandler {
    pub salt: String,
}

impl DigHandler {
    fn respond(&self, req: &InteractionRequest) -> (r: InteractionResponse)
        ensures
            dug(self.salt@, *req, r),
    {
        match generate_metadata(req) {
            Some(metadata) => {
                let data = dig(&metadata, self.salt.as_str());
                InteractionResponse { kind: InteractionCallbackType::ChannelMessageWithSource, data }
            },
            None => generate_error_response(),
        }
    }
}

impl Handler for DigHandler {
    open spec fn invoked(&self, req: InteractionRequest, r: InteractionResponse) -> bool {
        dug(self.salt@, req, r)
    }

    open spec fn reacted(&self, req: InteractionRequest, r: InteractionResponse) -> bool {
        dug(self.salt@, req, r)
    }

    open spec fn submitted(&self, req: InteractionRequest, r: InteractionResponse) -> bool {
        dug(self.salt@, req, r)
    }

    fn handle_application_command(&self, req: &InteractionRequest) -> (r: InteractionResponse) {
        self.respond(req)
    }

    fn handle_message_component(&self, req: &InteractionRequest) -> (r: InteractionResponse) {
        self.respond(req)
    }

    fn handle_modal_submit(&self, req: &InteractionRequest) -> (r: InteractionResponse) {
        self.respond(req)
    }
}

/// A board and its next generation, privately.
pub open spec fn is_life_response(r: InteractionResponse) -> bool {
    exists|g: Seq<bool>|
        is_board(g) && is_message(
            r,
            InteractionCallbackType::ChannelMessageWithSource,
            #[trigger] life_text(g),
            true,
            false,
        )
}

/// The game of life command, which draws a random board on every interaction.
pub struct GameOfLifeHandler;

impl Handler for GameOfLifeHandler {
    open spec fn invoked(&self, req: InteractionRequest, r: InteractionResponse) -> bool {
        is_life_response(r)
    }

    open spec fn reacted(&self, req: InteractionRequest, r: InteractionResponse) -> bool {
        is_life_response(r)
    }

    open spec fn submitted(&self, req: InteractionRequest, r: InteractionResponse) -> bool {
        is_life_response(r)
    }

    fn handle_application_command(&self, req: &InteractionRequest) -> (r: InteractionResponse) {
        let text = random_life_text();
        let r: InteractionResponse = InteractionResponse::message().content(text.as_str()).into();
        let ghost g = choose|g: Seq<bool>| is_board(g) && text@ == life_text(g);
        assert(is_message(r, InteractionCallbackType::ChannelMessageWithSource, life_text(g), true, false));
        r
    }

    fn handle_message_component(&self, req: &InteractionRequest) -> (r: InteractionResponse) {
        self.handle_application_command(req)
    }

    fn handle_modal_submit(&self, req: &InteractionRequest) -> (r: InteractionResponse) {
        self.handle_application_command(req)
    }
}

/// The commands that the bot knows.
#[derive(Clone, Copy, Debug, PartialEq, Eq, Structural)]
pub enum HandlerKind {
    GameOfLife,
    Deedee,
    Shells,
    Dig,
    Unknown,
}

pub open spec fn handler_for(name: Seq<char>) -> HandlerKind {
    if name == "conway"@ {
        HandlerKind::GameOfLife
    } else if name == "deedee"@ {
        HandlerKind::Deedee
    } else if name == "shells"@ {
        HandlerKind::Shells
    } else if name == "dig"@ {
        HandlerKind::Dig
    } else {
        HandlerKind::Unknown
    }
}

/// The handler of the command `name`.
pub fn select_handler(name: &str) -> (r: HandlerKind)
    ensures
        r == handler_for(name@),
{
    let n = String::from_str(name);
    if n == String::from_str("conway") {
        HandlerKind::GameOfLife
    } else if n == String::from_str("deedee") {
        HandlerKind::Deedee
    } else if n == String::from_str("shells") {
        HandlerKind::Shells
    } else if n == String::from_str("dig") {
        HandlerKind::Dig
    } else {
        HandlerKind::Unknown
    }
}

/// How an interaction reaches its handler.
#[derive(Clone, Copy, Debug, PartialEq, Eq, Structural)]
pub enum Entry {
    Invoke,
    React,
    Submit,
}

/// `r` is what the handler `kind` answers to `req` through `entry`.
pub open spec fn routed(
    kind: HandlerKind,
    entry: Entry,
    cfg: Config,
    req: InteractionRequest,
    r: InteractionResponse,
) -> bool {
    match kind {
        HandlerKind::GameOfLife => is_life_response(r),
        HandlerKind::Deedee => is_deedee_response(r),
        HandlerKind::Shells => match entry {
            Entry::Invoke => shells_invoked(req, r),
            Entry::React => shells_reacted(cfg.salt@, req, r),
            Entry::Submit => shells_submitted(cfg.salt@, req, r),
        },
        HandlerKind::Dig => dug(cfg.location_salt@, req, r),
        HandlerKind::Unknown => is_unknown_response(r),
    }
}

fn route(kind: HandlerKind, entry: Entry, cfg: &Config, req: &InteractionRequest) -> (r:
    InteractionResponse)
    ensures
        routed(kind, entry, *cfg, *req, r),
{
    match kind {
        HandlerKind::GameOfLife => match entry {
            Entry::Invoke => GameOfLifeHandler.handle_application_command(req),
            Entry::React => GameOfLifeHandler.handle_message_component(req),
            Entry::Submit => GameOfLifeHandler.handle_modal_submit(req),
        },
        HandlerKind::Deedee => match entry {
            Entry::Invoke => DeedeeHandler.handle_application_command(req),
            Entry::React => DeedeeHandler.handle_message_component(req),
            Entry::Submit => DeedeeHandler.handle_modal_submit(req),
        },
        HandlerKind::Shells => {
            let h = ShellsHandler::new(cfg.salt.as_str());
            match entry {
                Entry::Invoke => h.handle_application_command(req),
                Entry::React => h.handle_message_component(req),
                Entry::Submit => h.handle_modal_submit(req),
            }
        },
        HandlerKind::Dig => {
            let h = DigHandler { salt: String::from_str(cfg.location_salt.as_str()) };
            match entry {
                Entry::Invoke => h.handle_application_command(req),
                Entry::React => h.handle_message_component(req),
                Entry::Submit => h.handle_modal_submit(req),
            }
        },
        HandlerKind::Unknown => match entry {
            Entry::Invoke => ErrorHandler.handle_application_command(req),
            Entry::React => ErrorHandler.handle_message_component(req),
            Entry::Submit => ErrorHandler.handle_modal_submit(req),
        },
    }
}

/// The name of the command that made the message acted on.
pub open spec fn owner_name(req: InteractionRequest) -> Option<Seq<char>> {
    match req.message {
        Some(m) => match m.interaction {
            Some(i) => Some(i.name@),
            None => None,
        },
        None => None,
    }
}

pub open spec fn command_name_of(req: InteractionRequest) -> Option<Seq<char>> {
    match req.data {
        Some(InteractionData::Command(c)) => Some(c.name@),
        _ => None,
    }
}

/// The answer to an interaction: a ping is acknowledged; a command goes to
/// the handler of its name; a press or a submission goes to the handler of the
/// command that made the message acted on. Where no name is given, the answer
/// is the error notice.
pub open spec fn handled(cfg: Config, req: InteractionRequest, r: InteractionResponse) -> bool {
    match req.kind {
        InteractionType::Ping => is_pong(r),
        InteractionType::ApplicationCommand => match command_name_of(req) {
            Some(n) => routed(handler_for(n), Entry::Invoke, cfg, req, r),
            None => is_error_response(r),
        },
        InteractionType::MessageComponent => match owner_name(req) {
            Some(n) => routed(handler_for(n), Entry::React, cfg, req, r),
            None => is_error_response(r),
        },
        InteractionType::ModalSubmit => match owner_name(req) {
            Some(n) => routed(handler_for(n), Entry::Submit, cfg, req, r),
            None => is_error_response(r),
        },
    }
}

/// `r` acknowledges a ping: an empty message of the pong kind.
pub open spec fn is_pong(r: InteractionResponse) -> bool {
    &&& r.kind == InteractionCallbackType::Pong
    &&& r.data matches InteractionCallbackData::Message(m)
    &&& r.data->Message_0.content@.len() == 0
    &&& r.data->Message_0.flags is None
    &&& r.data->Message_0.components@.len() == 0
}

/// The answer to a ping.
pub fn handle_ping(request: &InteractionRequest) -> (r: InteractionResponse)
    ensures
        is_pong(r),
{
    InteractionResponse::pong()
}

/// Routes an invoked command to the handler of its name.
pub fn handle_application_command(request: &InteractionRequest, cfg: &Config) -> (r:
    InteractionResponse)
    ensures
        match command_name_of(*request) {
            Some(n) => routed(handler_for(n), Entry::Invoke, *cfg, *request, r),
            None => is_error_response(r),
        },
{
    match request.command_name() {
        Some(name) => route(select_handler(name.as_str()), Entry::Invoke, cfg, request),
        None => make_error_response(),
    }
}

/// Routes a press on a component to the handler of the command that made the
/// message it belongs to.
pub fn handle_message_component(request: &InteractionRequest, cfg: &Config) -> (r:
    InteractionResponse)
    ensures
        match owner_name(*request) {
            Some(n) => routed(handler_for(n), Entry::React, *cfg, *request, r),
            None => is_error_response(r),
        },
{
    match request.interaction_name() {
        Some(name) => route(select_handler(name.as_str()), Entry::React, cfg, request),
        None => make_error_response(),
    }
}

/// Routes a submitted form to the handler of the command that made the
/// message it was opened from.
pub fn handle_modal_submit(request: &InteractionRequest, cfg: &Config) -> (r: InteractionResponse)
    ensures
        match owner_name(*request) {
            Some(n) => routed(handler_for(n), Entry::Submit, *cfg, *request, r),
            None => is_error_response(r),
        },
{
    match request.interaction_name() {
        Some(name) => route(select_handler(name.as_str()), Entry::Submit, cfg, request),
        None => make_error_response(),
    }
}

/// Answers one interaction.
pub fn handle_interaction(request: &InteractionRequest, cfg: &Config) -> (r: InteractionResponse)
    ensures
        handled(*cfg, *request, r),
{
    match request.kind {
        InteractionType::Ping => handle_ping(request),
        InteractionType::ApplicationCommand => handle_application_command(request, cfg),
        InteractionType::MessageComponent => handle_message_component(request, cfg),
        InteractionType::ModalSubmit => handle_modal_submit(request, cfg),
    }
}

} // verus!
