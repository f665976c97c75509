//! The user-visible reply texts and the log lines the handlers emit.
//!
//! Replies are in the bot's own voice (Russian); each rejection reason has
//! one fixed one-line message, the greeting is personalized with the
//! sender's display name when one is known, and each log line carries the
//! sender's handle (or nothing, when the sender has none).

use crate::numfmt::signed_decimal;
use crate::video::RejectionReason;
use vstd::prelude::*;
use vstd::string::StringExecFns;

verus! {

/// The view of an optional text, for contracts over `Option<&str>`.
pub open spec fn opt_text_view(s: Option<&str>) -> Option<Seq<char>> {
    match s {
        Some(t) => Some(t@),
        None => None,
    }
}

/// The view of an optional owned text, for contracts over `Option<String>`.
pub open spec fn opt_string_view(s: Option<String>) -> Option<Seq<char>> {
    match s {
        Some(t) => Some(t@),
        None => None,
    }
}

/// A known text, or the empty text: the logs print a sender without a
/// username, and a fallback update without a text, this way.
pub open spec fn or_empty(text: Option<Seq<char>>) -> Seq<char> {
    match text {
        Some(t) => t,
        None => Seq::empty(),
    }
}

/// The four format rules, as the greeting recites them.
pub open spec fn rules_spec() -> Seq<char> {
    "ПРАВИЛА:\nвидео не должно быть больше 360p\nвидео должно быть квадратным\nвидео должно быть короче 60 секунд\nвидео не должно быть тяжелее 8 мегабайт"@
}

/// The greeting the start command earns: a salutation, personalized when a
/// display name is known, then the four rules.
pub open spec fn greeting_spec(first_name: Option<Seq<char>>) -> Seq<char> {
    match first_name {
        Some(name) => "привет, "@ + name + ", пришли видео\n"@ + rules_spec(),
        None => "привет, "@ + "пришли видео\n"@ + rules_spec(),
    }
}

/// The one-line message sent for each rejection reason.
pub open spec fn rejection_text_spec(reason: RejectionReason) -> Seq<char> {
    match reason {
        RejectionReason::ResolutionTooHigh => "видео не должно быть больше 360p:("@,
        RejectionReason::NotSquare => "видео должно быть квадратным:("@,
        RejectionReason::TooLong => "видео должно быть короче 60 секунд:("@,
        RejectionReason::TooHeavy => "видео не должно быть тяжелее 8 мегабайт:("@,
    }
}

/// The reply to an update that is neither a command nor a video.
pub open spec fn fallback_text_spec() -> Seq<char> {
    "не понял тебя. пришли видео!"@
}

/// The log line for a handled start command.
pub open spec fn start_log_spec(username: Option<Seq<char>>) -> Seq<char> {
    "@"@ + or_empty(username) + ", /start"@
}

/// The log line shape shared by the video and fallback handlers: handle,
/// chat id, then one detail text (a local path, or the update's text).
pub open spec fn chat_log_spec(
    username: Option<Seq<char>>,
    chat_id: int,
    detail: Seq<char>,
) -> Seq<char> {
    "@"@ + or_empty(username) + ", id="@ + signed_decimal(chat_id) + ", "@ + detail
}

/// Builds the greeting for a sender with the given display name.
pub fn greeting(first_name: Option<&str>) -> (r: String)
    ensures
        r@ == greeting_spec(opt_text_view(first_name)),
{
    let mut r = String::from_str("привет, ");
    match first_name {
        Some(name) => {
            r.append(name);
            r.append(", пришли видео\n");
        },
        None => {
            r.append("пришли видео\n");
        },
    }
    r.append(
        "ПРАВИЛА:\nвидео не должно быть больше 360p\nвидео должно быть квадратным\nвидео должно быть короче 60 секунд\nвидео не должно быть тяжелее 8 мегабайт",
    );
    r
}

/// The fixed message for each rejection reason.
pub fn rejection_text(reason: RejectionReason) -> (r: &'static str)
    ensures
        r@ == rejection_text_spec(reason),
{
    match reason {
        RejectionReason::ResolutionTooHigh => "видео не должно быть больше 360p:(",
        RejectionReason::NotSquare => "видео должно быть квадратным:(",
        RejectionReason::TooLong => "видео должно быть короче 60 секунд:(",
        RejectionReason::TooHeavy => "видео не должно быть тяжелее 8 мегабайт:(",
    }
}

/// The fixed fallback reply.
pub fn fallback_text() -> (r: &'static str)
    ensures
        r@ == fallback_text_spec(),
{
    "не понял тебя. пришли видео!"
}

/// The handle a log line prints for a sender.
pub fn handle_text<'a>(username: Option<&'a str>) -> (r: &'a str)
    ensures
        r@ == or_empty(opt_text_view(username)),
{
    match username {
        Some(u) => u,
        None => {
            let e = "";
            proof {
                reveal_strlit("");
            }
            e
        },
    }
}

/// Builds the log line for a handled start command.
pub fn start_log(username: Option<&str>) -> (r: String)
    ensures
        r@ == start_log_spec(opt_text_view(username)),
{
    let mut r = String::from_str("@");
    r.append(handle_text(username));
    r.append(", /start");
    r
}

/// Builds the log line shared by the video and fallback handlers.
pub fn chat_log(username: Option<&str>, chat_id: i64, detail: &str) -> (r: String)
    ensures
        r@ == chat_log_spec(opt_text_view(username), chat_id as int, detail@),
{
    let mut r = String::from_str("@");
    r.append(handle_text(username));
    r.append(", id=");
    let id = crate::numfmt::i64_to_decimal(chat_id);
    r.append(id.as_str());
    r.append(", ");
    r.append(detail);
    r
}

/// The fallback handler's log line: a missing text is printed as the empty
/// marker.
pub fn fallback_log(username: Option<&str>, chat_id: i64, text: Option<&str>) -> (r: String)
    ensures
        r@ == chat_log_spec(
            opt_text_view(username),
            chat_id as int,
            or_empty(opt_text_view(text)),
        ),
{
    let detail = handle_text(text);
    chat_log(username, chat_id, detail)
}

} // verus!
