//! The decisions behind the bot's handlers: which link a message or command
//! is about, what to fetch, and what to answer. The handlers themselves,
//! which talk to the chat service, run these and carry out the result.

use vstd::prelude::*;
use crate::config::{Config, kind_for_spec, matches_any};
use crate::links::{extract_url, first_url_link, resolve_url, resolve_url_spec};
use crate::media::MediaKind;
use crate::routing::fetch_view;
use crate::text::{join, trim, trim_result};
use crate::text::opt_str_view;

verus! {

/// Seconds between two "uploading" chat actions while a download runs.
pub const CHAT_ACTION_INTERVAL_SECS: u64 = 4;

/// The bot's commands: `/start` shows the help text, `/dl <url>` downloads a
/// link (or, without an argument, the first link of the replied-to message).
#[derive(Debug, PartialEq, Eq)]
pub enum Command {
    Start,
    Dl(String),
}

/// What to do about a command; `S` is the type of the link.
#[derive(Debug, PartialEq, Eq)]
pub enum CommandPlan<S> {
    /// Post the list of commands with their descriptions.
    ShowHelp,
    /// Ask for a link: the command had none and the replied-to message none.
    AskForUrl,
    /// Download the link as the given kind and post it under the command.
    Fetch(S, MediaKind),
}

/// The chat action shown while a download of some kind runs.
#[derive(Clone, Copy, Debug, PartialEq, Eq, Structural)]
pub enum ChatAction {
    UploadVideo,
    UploadDocument,
}

/// What happened while waiting for a download: the timer ticked, or the
/// download finished with some outcome.
pub enum PollEvent<T> {
    Tick,
    Finished(T),
}

/// What to do next while waiting: show the chat action again, or stop
/// waiting and hand back the outcome.
pub enum PollStep<T> {
    SendChatAction,
    Return(T),
}

/// The link to fetch for a message whose first URL is `link`, and as what:
/// nothing unless the configuration assigns the link a kind.
pub open spec fn route_link_spec(link: Option<Seq<char>>, config: Config) -> Option<(Seq<char>, MediaKind)> {
    match link {
        Some(url) => match kind_for_spec(config, url) {
            Some(kind) => Some((url, kind)),
            None => None,
        },
        None => None,
    }
}

/// The link fetched for a message with text `text`, unasked, and as what.
pub open spec fn plan_auto_spec(text: Option<Seq<char>>, config: Config) -> Option<(Seq<char>, MediaKind)> {
    match text {
        Some(t) => route_link_spec(first_url_link(t), config),
        None => None,
    }
}

/// The view of a command plan.
pub open spec fn plan_view(p: CommandPlan<String>) -> CommandPlan<Seq<char>> {
    match p {
        CommandPlan::ShowHelp => CommandPlan::ShowHelp,
        CommandPlan::AskForUrl => CommandPlan::AskForUrl,
        CommandPlan::Fetch(url, kind) => CommandPlan::Fetch(url@, kind),
    }
}

/// What to do about `cmd`, sent in reply to a message with text
/// `replied_text` (if any). A link given to `/dl` is downloaded as the
/// configuration says, and as video where it says nothing.
pub open spec fn plan_command_spec(cmd: Command, replied_text: Option<Seq<char>>, config: Config) -> CommandPlan<Seq<char>> {
    match cmd {
        Command::Start => CommandPlan::ShowHelp,
        Command::Dl(arg) => match resolve_url_spec(trim_result(arg@), replied_text) {
            None => CommandPlan::AskForUrl,
            Some(url) => CommandPlan::Fetch(url, match kind_for_spec(config, url) {
                Some(kind) => kind,
                None => MediaKind::Video,
            }),
        },
    }
}

/// The chat action shown while fetching `kind`.
pub open spec fn chat_action_spec(kind: MediaKind) -> ChatAction {
    match kind {
        MediaKind::Video => ChatAction::UploadVideo,
        MediaKind::Audio => ChatAction::UploadDocument,
    }
}

/// The file id kept after uploading a download of `kind`: that of the
/// uploaded video for a video, of the uploaded audio for audio.
pub open spec fn select_file_id_spec(
    kind: MediaKind,
    video_file_id: Option<Seq<char>>,
    audio_file_id: Option<Seq<char>>,
) -> Result<Seq<char>, Seq<char>> {
    let id = match kind {
        MediaKind::Video => video_file_id,
        MediaKind::Audio => audio_file_id,
    };
    match id {
        Some(i) => Ok(i),
        None => Err("Internal error: missing file_id after upload"@),
    }
}

/// The link to fetch for a message whose first URL is `link`, and as what.
pub fn route_link(link: Option<String>, config: &Config) -> (fetch: Option<(String, MediaKind)>)
    ensures
        fetch_view(fetch) == route_link_spec(link.deep_view(), *config),
{
    match link {
        Some(url) => match config.kind_for(url.as_str()) {
            Some(kind) => Some((url, kind)),
            None => None,
        },
        None => None,
    }
}

/// The link fetched, unasked, for a message with text `text` (`None` for a
/// message without text), and as what: its first URL, where the
/// configuration assigns it a kind.
pub fn plan_auto(text: Option<&str>, config: &Config) -> (fetch: Option<(String, MediaKind)>)
    ensures
        fetch_view(fetch) == plan_auto_spec(opt_str_view(text), *config),
{
    match text {
        Some(t) => route_link(extract_url(t), config),
        None => None,
    }
}

/// What to do about `cmd`, sent in reply to a message with text
/// `replied_text` (if any).
pub fn plan_command(cmd: &Command, replied_text: Option<&str>, config: &Config) -> (plan: CommandPlan<String>)
    ensures
        plan_view(plan) == plan_command_spec(*cmd, opt_str_view(replied_text), *config),
{
    match cmd {
        Command::Start => CommandPlan::ShowHelp,
        Command::Dl(arg) => match resolve_url(trim(arg.as_str()), replied_text) {
            None => CommandPlan::AskForUrl,
            Some(url) => {
                let kind = match config.kind_for(url.as_str()) {
                    Some(kind) => kind,
                    None => MediaKind::Video,
                };
                CommandPlan::Fetch(url, kind)
            },
        },
    }
}

/// The request behind a message sent through a guest query: its query id,
/// the link and the kind. There is one only for an ordinary message with a
/// guest query id and a sender, whose first URL the configuration assigns a
/// kind.
pub open spec fn guest_request_spec(
    text: Option<Seq<char>>,
    config: Config,
    is_common: bool,
    guest_query_id: Option<Seq<char>>,
    has_sender: bool,
) -> Option<(Seq<char>, Seq<char>, MediaKind)> {
    match plan_auto_spec(text, config) {
        Some((url, kind)) => match guest_query_id {
            Some(id) => if is_common && has_sender {
                Some((id, url, kind))
            } else {
                None
            },
            None => None,
        },
        None => None,
    }
}

/// The request behind a guest message: `is_common` tells whether it is an
/// ordinary message, `guest_query_id` is its guest query id, `has_sender`
/// whether its sender is known.
pub fn guest_request(
    text: Option<&str>,
    config: &Config,
    is_common: bool,
    guest_query_id: Option<String>,
    has_sender: bool,
) -> (request: Option<(String, String, MediaKind)>)
    ensures
        request.deep_view() == guest_request_spec(
            opt_str_view(text),
            *config,
            is_common,
            guest_query_id.deep_view(),
            has_sender,
        ),
{
    match plan_auto(text, config) {
        Some((url, kind)) => match guest_query_id {
            Some(id) => if is_common && has_sender {
                Some((id, url, kind))
            } else {
                None
            },
            None => None,
        },
        None => None,
    }
}

/// The placeholder answer to a guest query while its download runs: the
/// article's id, title and text.
pub fn progress_article() -> (article: (String, String, String))
    ensures
        article.0@ == "progress"@,
        article.1@ == "\u{23f3} Downloading..."@,
        article.2@ == "Downloading..."@,
{
    (
        String::from_str("progress"),
        String::from_str("\u{23f3} Downloading..."),
        String::from_str("Downloading..."),
    )
}

/// The chat action shown while fetching `kind`.
pub fn chat_action_for(kind: MediaKind) -> (action: ChatAction)
    ensures
        action == chat_action_spec(kind),
{
    match kind {
        MediaKind::Video => ChatAction::UploadVideo,
        MediaKind::Audio => ChatAction::UploadDocument,
    }
}

/// The next step while waiting for a download: each tick shows the chat
/// action again; the download's outcome is handed back unchanged.
pub fn poll_step<T>(event: PollEvent<T>) -> (step: PollStep<T>)
    ensures
        match event {
            PollEvent::Tick => step is SendChatAction,
            PollEvent::Finished(outcome) => step == PollStep::Return(outcome),
        },
{
    match event {
        PollEvent::Tick => PollStep::SendChatAction,
        PollEvent::Finished(outcome) => PollStep::Return(outcome),
    }
}

/// The reply to `/dl` when there is no link to download.
pub fn missing_url_reply() -> (reply: String)
    ensures
        reply@ == "Provide a URL, or reply to a message containing one."@,
{
    String::from_str("Provide a URL, or reply to a message containing one.")
}

/// The text shown to a guest when the download itself failed with `cause`.
pub fn download_failed_text(cause: &str) -> (text: String)
    ensures
        text@ == "Download failed: "@ + cause@,
{
    join("Download failed: ", cause)
}

/// The text shown to a guest when the file could not be sent to their
/// private chat, which the bot may only write to after `/start`.
pub fn upload_failed_text() -> (text: String)
    ensures
        text@ == "To receive downloads, open a private chat with this bot and send /start first."@,
{
    String::from_str("To receive downloads, open a private chat with this bot and send /start first.")
}

/// The file id to reuse after uploading a download of `kind`, given the ids
/// of the video and of the audio that the uploaded message carries.
pub fn select_file_id(
    kind: MediaKind,
    video_file_id: Option<String>,
    audio_file_id: Option<String>,
) -> (id: Result<String, String>)
    ensures
        match (id, select_file_id_spec(kind, video_file_id.deep_view(), audio_file_id.deep_view())) {
            (Ok(a), Ok(b)) => a@ == b,
            (Err(a), Err(b)) => a@ == b,
            _ => false,
        },
{
    let chosen = match kind {
        MediaKind::Video => video_file_id,
        MediaKind::Audio => audio_file_id,
    };
    match chosen {
        Some(i) => Ok(i),
        None => Err(String::from_str("Internal error: missing file_id after upload")),
    }
}

/// A `/dl` whose argument is not blank downloads exactly that argument, with
/// its surrounding white space removed, whatever message it replies to; it
/// uses the configured kind and falls back to video.
pub proof fn law_argument_takes_precedence(
    arg: String,
    replied_text: Option<Seq<char>>,
    config: Config,
)
    requires
        trim_result(arg@).len() != 0,
    ensures
        plan_command_spec(Command::Dl(arg), replied_text, config) == CommandPlan::Fetch(
            trim_result(arg@),
            match kind_for_spec(config, trim_result(arg@)) {
                Some(kind) => kind,
                None => MediaKind::Video,
            },
        ),
{
}

/// A `/dl` without an argument, sent in reply to a message that the bot
/// would have fetched on its own, downloads the same link as the same kind.
pub proof fn law_reply_fetches_what_auto_would(
    arg: String,
    replied: Seq<char>,
    config: Config,
    url: Seq<char>,
    kind: MediaKind,
)
    requires
        trim_result(arg@).len() == 0,
        plan_auto_spec(Some(replied), config) == Some((url, kind)),
    ensures
        plan_command_spec(Command::Dl(arg), Some(replied), config) == CommandPlan::Fetch(url, kind),
{
}

/// A `/dl` with a blank argument asks for a link when it replies to no
/// message, or to one in which no URL is found.
pub proof fn law_no_link_asks_for_one(arg: String, replied_text: Option<Seq<char>>, config: Config)
    requires
        trim_result(arg@).len() == 0,
        match replied_text {
            Some(t) => first_url_link(t) is None,
            None => true,
        },
    ensures
        plan_command_spec(Command::Dl(arg), replied_text, config) == CommandPlan::<Seq<char>>::AskForUrl,
{
}

/// A guest request downloads exactly what the same message would have made
/// the bot download unasked.
pub proof fn law_guest_follows_auto(
    text: Option<Seq<char>>,
    config: Config,
    is_common: bool,
    guest_query_id: Option<Seq<char>>,
    has_sender: bool,
)
    ensures
        guest_request_spec(text, config, is_common, guest_query_id, has_sender) matches Some((id, url, kind))
            ==> plan_auto_spec(text, config) == Some((url, kind)) && guest_query_id == Some(id),
        (is_common && has_sender && guest_query_id is Some && plan_auto_spec(text, config) is Some)
            ==> guest_request_spec(text, config, is_common, guest_query_id, has_sender) is Some,
{
}

/// The unasked download of a message is its first URL, fetched whenever a
/// pattern matches it: as video when a video pattern occurs in it, else as
/// audio when an audio pattern occurs in it; without a matching pattern, or
/// without a URL, nothing is fetched.
pub proof fn law_auto_fetches_every_configured_link(text: Seq<char>, config: Config)
    ensures
        first_url_link(text) is None ==> plan_auto_spec(Some(text), config) is None,
        first_url_link(text) matches Some(url) ==> {
            &&& matches_any(config.video@, url)
                ==> plan_auto_spec(Some(text), config) == Some((url, MediaKind::Video))
            &&& (!matches_any(config.video@, url) && matches_any(config.audio@, url))
                ==> plan_auto_spec(Some(text), config) == Some((url, MediaKind::Audio))
            &&& (!matches_any(config.video@, url) && !matches_any(config.audio@, url))
                ==> plan_auto_spec(Some(text), config) is None
        },
        plan_auto_spec(None, config) is None,
{
}

/// Routing a found link is complete: a link that the configuration assigns
/// a kind is fetched, unchanged, as that kind; only links it assigns none
/// are dropped.
pub proof fn law_route_link_is_complete(url: Seq<char>, config: Config)
    ensures
        matches_any(config.video@, url) ==> route_link_spec(Some(url), config) == Some((url, MediaKind::Video)),
        (!matches_any(config.video@, url) && matches_any(config.audio@, url))
            ==> route_link_spec(Some(url), config) == Some((url, MediaKind::Audio)),
        (!matches_any(config.video@, url) && !matches_any(config.audio@, url))
            ==> route_link_spec(Some(url), config) is None,
        route_link_spec(None, config) is None,
{
}

/// A `/dl` without an argument, in reply to a message with a URL, always
/// downloads that message's first URL, whether or not the configuration
/// lists it: as audio only when an audio pattern but no video pattern
/// occurs in it, as video otherwise. It asks for a link only when neither
/// the argument nor the replied-to message gives one.
pub proof fn law_blank_dl_fetches_the_replied_link(
    arg: String,
    replied_text: Option<Seq<char>>,
    config: Config,
)
    requires
        trim_result(arg@).len() == 0,
    ensures
        replied_text matches Some(t) ==> (first_url_link(t) matches Some(url) ==> {
            &&& (!matches_any(config.video@, url) && matches_any(config.audio@, url))
                ==> plan_command_spec(Command::Dl(arg), replied_text, config)
                == CommandPlan::Fetch(url, MediaKind::Audio)
            &&& !(!matches_any(config.video@, url) && matches_any(config.audio@, url))
                ==> plan_command_spec(Command::Dl(arg), replied_text, config)
                == CommandPlan::Fetch(url, MediaKind::Video)
        }),
        plan_command_spec(Command::Dl(arg), replied_text, config) == CommandPlan::<Seq<char>>::AskForUrl
            <==> match replied_text {
                Some(t) => first_url_link(t) is None,
                None => true,
            },
{
}

/// A `/dl` with a non-blank argument downloads that argument with its
/// surrounding white space removed: as audio only when an audio pattern but
/// no video pattern occurs in it, as video otherwise. It never asks for a
/// link and never looks at the replied-to message.
pub proof fn law_dl_argument_is_downloaded(
    arg: String,
    replied_text: Option<Seq<char>>,
    other_reply: Option<Seq<char>>,
    config: Config,
)
    requires
        trim_result(arg@).len() != 0,
    ensures
        (!matches_any(config.video@, trim_result(arg@)) && matches_any(config.audio@, trim_result(arg@)))
            ==> plan_command_spec(Command::Dl(arg), replied_text, config)
            == CommandPlan::Fetch(trim_result(arg@), MediaKind::Audio),
        !(!matches_any(config.video@, trim_result(arg@)) && matches_any(config.audio@, trim_result(arg@)))
            ==> plan_command_spec(Command::Dl(arg), replied_text, config)
            == CommandPlan::Fetch(trim_result(arg@), MediaKind::Video),
        plan_command_spec(Command::Dl(arg), replied_text, config)
            == plan_command_spec(Command::Dl(arg), other_reply, config),
{
}

/// `/start` shows the help whatever else is given.
pub proof fn law_start_shows_help(replied_text: Option<Seq<char>>, config: Config)
    ensures
        plan_command_spec(Command::Start, replied_text, config) == CommandPlan::<Seq<char>>::ShowHelp,
{
}

/// The file id kept after an upload is the one of the uploaded kind: a
/// video's for a video, an audio's for audio; a missing one is an error.
pub proof fn law_file_id_of_the_uploaded_kind(
    kind: MediaKind,
    video_file_id: Option<Seq<char>>,
    audio_file_id: Option<Seq<char>>,
)
    ensures
        kind == MediaKind::Video ==> match video_file_id {
            Some(id) => select_file_id_spec(kind, video_file_id, audio_file_id) == Ok::<Seq<char>, Seq<char>>(id),
            None => select_file_id_spec(kind, video_file_id, audio_file_id) is Err,
        },
        kind == MediaKind::Audio ==> match audio_file_id {
            Some(id) => select_file_id_spec(kind, video_file_id, audio_file_id) == Ok::<Seq<char>, Seq<char>>(id),
            None => select_file_id_spec(kind, video_file_id, audio_file_id) is Err,
        },
{
}

} // verus!
