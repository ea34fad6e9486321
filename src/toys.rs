//! Small commands: a greeting, and a counter worked with buttons.
use vstd::prelude::*;

use crate::interactions::{
    Component, GuildMember, InteractionCallbackData, InteractionData,
    InteractionResponse, MessageFlags,
};
use crate::shells::is_button;
use crate::text::{i32_string, parse_i32, parse_i32_spec, signed_decimal};

verus! {

/// The greeting for a member: by nickname, as a friend without one, as a
/// stranger where nobody is known.
pub open spec fn greeting(member: Option<GuildMember>) -> Seq<char> {
    match member {
        Some(m) => "Hello, "@ + match m.nick {
            Some(n) => n@,
            None => "friend"@,
        } + "!"@,
        None => "Hello, stranger!"@,
    }
}

/// Greets the acting member.
pub fn hello(member: &Option<GuildMember>) -> (r: InteractionCallbackData)
    ensures
        r matches InteractionCallbackData::Message(m) && m.content@ == greeting(*member)
            && m.flags == Some(MessageFlags::Ephemeral) && m.components@.len() == 0,
{
    let mut message = String::new();
    match member {
        Some(m) => {
            message.append("Hello, ");
            match &m.nick {
                Some(n) => message.append(n.as_str()),
                None => message.append("friend"),
            }
            message.append("!");
        },
        None => message.append("Hello, stranger!"),
    }
    assert(message@ =~= greeting(*member));
    InteractionCallbackData::Message(InteractionResponse::message().content(message.as_str()))
}

/// The counter's buttons: add one, take one, deedee, and the game of life.
pub open spec fn is_counter_row(v: Seq<Component>) -> bool {
    v.len() == 4 && is_button(v[0], "+1"@, "buttons_+1"@) && is_button(v[1], "-1"@, "buttons_-1"@)
        && is_button(v[2], "deedee"@, "deedee"@) && is_button(v[3], "game of life"@, "cgol"@)
}

/// A private message showing `text` above the counter's buttons.
pub open spec fn is_counter(r: InteractionCallbackData, text: Seq<char>) -> bool {
    &&& r matches InteractionCallbackData::Message(m)
    &&& r->Message_0.content@ == text
    &&& r->Message_0.flags == Some(MessageFlags::Ephemeral)
    &&& r->Message_0.components@.len() == 1
    &&& is_counter_row(r->Message_0.components@[0].components@)
}

fn set_up_buttons(text: &str) -> (r: InteractionCallbackData)
    ensures
        is_counter(r, text@),
{
    let plus_one = Component::button().label("+1").id("buttons_+1").into();
    let minus_one = Component::button().label("-1").id("buttons_-1").into();
    let deedee_button = Component::button().label("deedee").id("deedee").into();
    let cgol_button = Component::button().label("game of life").id("cgol").into();
    let row = vec![plus_one, minus_one, deedee_button, cgol_button];
    InteractionCallbackData::Message(InteractionResponse::message().content(text).components(row))
}

/// The counter, at zero.
pub fn buttons(data: &InteractionData) -> (r: InteractionCallbackData)
    ensures
        is_counter(r, "0"@),
{
    set_up_buttons("0")
}

/// The count that `old` shows, or zero where it shows none.
pub open spec fn count_of(old: Seq<char>) -> int {
    match parse_i32_spec(old) {
        Some(n) => n as int,
        None => 0,
    }
}

/// `x` held to the range of `i32`.
pub open spec fn clamp_i32(x: int) -> int {
    if x > i32::MAX {
        i32::MAX as int
    } else if x < i32::MIN {
        i32::MIN as int
    } else {
        x
    }
}

/// The counter, one higher than `old` shows (at most the largest `i32`).
pub fn buttons_plus_one(old: &str) -> (r: InteractionCallbackData)
    ensures
        is_counter(r, signed_decimal(clamp_i32(count_of(old@) + 1))),
{
    let n = match parse_i32(old) {
        Some(n) => n,
        None => 0,
    };
    let next = if n == i32::MAX {
        n
    } else {
        n + 1
    };
    let new = i32_string(next);
    set_up_buttons(new.as_str())
}

/// The counter, one lower than `old` shows (at least the smallest `i32`).
pub fn buttons_minus_one(old: &str) -> (r: InteractionCallbackData)
    ensures
        is_counter(r, signed_decimal(clamp_i32(count_of(old@) - 1))),
{
    let n = match parse_i32(old) {
        Some(n) => n,
        None => 0,
    };
    let next = if n == i32::MIN {
        n
    } else {
        n - 1
    };
    let new = i32_string(next);
    set_up_buttons(new.as_str())
}

} // verus!
