//! Update classification and the three handlers' decisions.
//!
//! Every inbound update is routed to exactly one handler, in a fixed
//! priority order: recognized command text first, then a video payload,
//! then the fallback. Each handler's decision is a `Reaction`: the texts to
//! send and log, and, for an accepted video, the transfer to perform. The
//! surrounding program carries the reaction out; nothing here touches the
//! chat transport or the filesystem.

use crate::command::Command;
use crate::command::is_start_text;
use crate::command::parse_command;
use crate::messages::chat_log;
use crate::messages::chat_log_spec;
use crate::messages::fallback_text;
use crate::messages::fallback_text_spec;
use crate::messages::greeting;
use crate::messages::greeting_spec;
use crate::messages::opt_string_view;
use crate::messages::opt_text_view;
use crate::messages::or_empty;
use crate::messages::rejection_text;
use crate::messages::rejection_text_spec;
use crate::messages::start_log;
use crate::messages::start_log_spec;
use crate::transfer::fresh_local_path;
use crate::transfer::local_path_spec;
use crate::video::ValidationResult;
use crate::video::VideoDescriptor;
use crate::video::validate;
use crate::video::validate_spec;
use vstd::prelude::*;

verus! {

/// One inbound chat event, with the attributes the handlers read: the
/// originating chat, the sender's optional display name and handle, and the
/// optional text and video payloads.
pub struct Update {
    pub chat_id: i64,
    pub first_name: Option<String>,
    pub username: Option<String>,
    pub text: Option<String>,
    pub video: Option<VideoDescriptor>,
}

/// The handler an update is routed to.
#[derive(Clone, Copy, Debug, PartialEq, Eq, Structural)]
pub enum Route {
    Command(Command),
    Video,
    Fallback,
}

/// What the program should do for one update: the decision made here, which
/// the surrounding transport performs.
pub enum Reaction {
    /// Send `text` to the chat and, when one is given, print `log`.
    Reply { text: String, log: Option<String> },
    /// Download the remote file named by `file_id` into `local_path`, signal
    /// that a video note is being uploaded, send the local file back as a
    /// video note, and on full success print `log`.
    SendVideoNote { file_id: String, local_path: String, log: String },
}

/// Where an update is routed: command text wins over a video payload, a
/// video payload over the fallback.
pub open spec fn route_spec(u: Update) -> Route {
    if u.text matches Some(t) && is_start_text(t@) {
        Route::Command(Command::Start)
    } else if u.video is Some {
        Route::Video
    } else {
        Route::Fallback
    }
}

/// What the start handler owes: the greeting for the sender's display name,
/// and the start log line.
pub open spec fn start_reaction_spec(u: Update, r: Reaction) -> bool {
    &&& r matches Reaction::Reply { text, log }
    &&& text@ == greeting_spec(opt_string_view(u.first_name))
    &&& log matches Some(l) && l@ == start_log_spec(opt_string_view(u.username))
}

/// What the video handler owes. A rejected video earns exactly the one-line
/// message of the first rule it breaks, and no log; an accepted one earns a
/// transfer of its remote file into a timestamped local path, logged with
/// the sender's handle, the chat id and that path.
pub open spec fn video_reaction_spec(u: Update, r: Reaction) -> bool
    recommends
        u.video is Some,
{
    match validate_spec(u.video.unwrap()) {
        ValidationResult::Accepted => {
            &&& r matches Reaction::SendVideoNote { file_id, local_path, log }
            &&& file_id@ == u.video.unwrap().file_id@
            &&& exists|ts: Seq<char>|
                local_path@ == local_path_spec(or_empty(opt_string_view(u.username)), ts)
            &&& log@ == chat_log_spec(opt_string_view(u.username), u.chat_id as int, local_path@)
        },
        ValidationResult::Rejected(reason) => {
            &&& r matches Reaction::Reply { text, log }
            &&& text@ == rejection_text_spec(reason)
            &&& log is None
        },
    }
}

/// What the fallback handler owes: the fixed reply, and a log line carrying
/// the update's text or the empty marker.
pub open spec fn fallback_reaction_spec(u: Update, r: Reaction) -> bool {
    &&& r matches Reaction::Reply { text, log }
    &&& text@ == fallback_text_spec()
    &&& log matches Some(l) && l@ == chat_log_spec(
        opt_string_view(u.username),
        u.chat_id as int,
        or_empty(opt_string_view(u.text)),
    )
}

/// An optional owned text as an optional borrowed one.
fn opt_as_str(s: &Option<String>) -> (r: Option<&str>)
    ensures
        opt_text_view(r) == opt_string_view(*s),
{
    match s {
        Some(t) => Some(t.as_str()),
        None => None,
    }
}

/// Routes an update to its handler: the first classification that matches
/// wins, and exactly one handler is named.
pub fn classify(u: &Update) -> (r: Route)
    ensures
        r == route_spec(*u),
{
    let is_command = match &u.text {
        Some(t) => parse_command(t.as_str()).is_some(),
        None => false,
    };
    if is_command {
        Route::Command(Command::Start)
    } else if u.video.is_some() {
        Route::Video
    } else {
        Route::Fallback
    }
}

/// Decides the start handler's reaction.
pub fn start_reaction(u: &Update) -> (r: Reaction)
    ensures
        start_reaction_spec(*u, r),
{
    let text = greeting(opt_as_str(&u.first_name));
    let log = start_log(opt_as_str(&u.username));
    Reaction::Reply { text, log: Some(log) }
}

/// Decides the video handler's reaction: runs the validation chain, and on
/// acceptance plans the transfer.
pub fn video_reaction(u: &Update) -> (r: Reaction)
    requires
        u.video is Some,
    ensures
        video_reaction_spec(*u, r),
{
    let d = u.video.as_ref().unwrap();
    match validate(d) {
        ValidationResult::Accepted => {
            let username = opt_as_str(&u.username);
            let path = fresh_local_path(username);
            let log = chat_log(username, u.chat_id, path.as_str());
            Reaction::SendVideoNote { file_id: d.file_id.clone(), local_path: path, log }
        },
        ValidationResult::Rejected(reason) => {
            let text = rejection_text(reason).to_owned();
            Reaction::Reply { text, log: None }
        },
    }
}

/// Decides the fallback handler's reaction.
pub fn fallback_reaction(u: &Update) -> (r: Reaction)
    ensures
        fallback_reaction_spec(*u, r),
{
    let text = fallback_text().to_owned();
    let username = opt_as_str(&u.username);
    let log = crate::messages::fallback_log(username, u.chat_id, opt_as_str(&u.text));
    Reaction::Reply { text, log: Some(log) }
}

/// The whole pipeline for one update: routes it, invokes the one matching
/// handler, and returns that handler's reaction.
pub fn plan_reaction(u: &Update) -> (r: Reaction)
    ensures
        route_spec(*u) matches Route::Command(c) ==> c == Command::Start && start_reaction_spec(
            *u,
            r,
        ),
        route_spec(*u) == Route::Video ==> video_reaction_spec(*u, r),
        route_spec(*u) == Route::Fallback ==> fallback_reaction_spec(*u, r),
{
    match classify(u) {
        Route::Command(Command::Start) => start_reaction(u),
        Route::Video => video_reaction(u),
        Route::Fallback => fallback_reaction(u),
    }
}

/// Recognized command text routes to the command handler whatever else the
/// update carries: in particular, an update with both command text and a
/// video payload goes to the command handler, never the video handler.
pub proof fn lemma_command_text_wins(u: Update)
    requires
        u.text matches Some(t) && is_start_text(t@),
    ensures
        route_spec(u) == Route::Command(Command::Start),
{
}

/// An update without recognized command text but with a video payload
/// routes to the video handler.
pub proof fn lemma_video_routes(u: Update)
    requires
        !(u.text matches Some(t) && is_start_text(t@)),
        u.video is Some,
    ensures
        route_spec(u) == Route::Video,
{
}

} // verus!
