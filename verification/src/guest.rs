//! The conversation behind a guest query: a message that mentions the bot
//! in a chat it is not part of. The bot answers with a placeholder, fetches
//! the link, uploads the file to the asker's private chat to obtain a
//! reusable file id, then replaces the placeholder with the media (or with
//! a text saying what went wrong). The chat service's calls are made by the
//! caller; `guest_step` decides what comes next after each of them.

use vstd::prelude::*;
use crate::config::{Config, matches_any};
use crate::handlers::{
    download_failed_text, guest_request, guest_request_spec, progress_article,
    select_file_id, select_file_id_spec, upload_failed_text,
};
use crate::media::MediaKind;
use crate::links::first_url_link;
use crate::text::opt_str_view;

verus! {

/// Where a guest conversation stands.
pub enum GuestState {
    /// Nothing has happened yet.
    Start,
    /// The placeholder answer for this link and kind is being posted.
    Answering { url: String, kind: MediaKind },
    /// The file of this kind is being downloaded.
    Downloading { kind: MediaKind },
    /// The downloaded file of this kind is being uploaded to the asker.
    Uploading { kind: MediaKind },
    /// The conversation is over.
    Finished,
}

/// The ids carried by the message that uploaded the file to the asker.
pub struct UploadedIds {
    pub video_file_id: Option<String>,
    pub audio_file_id: Option<String>,
    pub message_id: i32,
}

/// What the caller reports after carrying out the previous action.
pub enum GuestEvent {
    /// A guest message arrived: its text, whether it is an ordinary message,
    /// its guest query id, and whether its sender is known.
    Received { text: Option<String>, is_common: bool, guest_query_id: Option<String>, has_sender: bool },
    /// The placeholder answer was posted.
    ProgressAnswered,
    /// The download ended: `Err` holds the failure's text.
    Downloaded(Result<(), String>),
    /// The upload to the asker ended: `Err` when the chat service refused it.
    Uploaded(Result<UploadedIds, ()>),
}

/// What the caller does next.
pub enum GuestAction {
    /// Nothing: the message is not for the bot, or the conversation is over.
    Ignore,
    /// Answer guest query `query_id` with an article (`id`, `title`, `text`).
    AnswerProgress { query_id: String, article_id: String, title: String, text: String },
    /// Download `url` as `kind`, showing the matching chat action meanwhile.
    Download { url: String, kind: MediaKind },
    /// Upload the downloaded file to the asker's private chat as `kind`.
    UploadToAsker { kind: MediaKind },
    /// Delete the upload message `upload_message`, then replace the
    /// placeholder with the media `file_id` of `kind`.
    ShowMedia { kind: MediaKind, file_id: String, upload_message: i32 },
    /// Replace the placeholder with `text`.
    ShowText { text: String },
}

/// `next` and `action` are what follows `state` on `event`.
pub open spec fn guest_step_spec(
    state: GuestState,
    event: GuestEvent,
    config: Config,
    next: GuestState,
    action: GuestAction,
) -> bool {
    match (state, event) {
        (GuestState::Start, GuestEvent::Received { text, is_common, guest_query_id, has_sender }) =>
            match guest_request_spec(text.deep_view(), config, is_common, guest_query_id.deep_view(), has_sender) {
                Some((id, url, kind)) => {
                    &&& next matches GuestState::Answering { url: u, kind: k } && u@ == url && k == kind
                    &&& action matches GuestAction::AnswerProgress { query_id, article_id, title, text }
                        && query_id@ == id && article_id@ == "progress"@
                        && title@ == "\u{23f3} Downloading..."@ && text@ == "Downloading..."@
                },
                None => next is Finished && action is Ignore,
            },
        (GuestState::Answering { url, kind }, GuestEvent::ProgressAnswered) => {
            &&& next == GuestState::Downloading { kind }
            &&& action matches GuestAction::Download { url: u, kind: k } && u@ == url@ && k == kind
        },
        (GuestState::Downloading { kind }, GuestEvent::Downloaded(outcome)) => match outcome {
            Ok(()) => next == GuestState::Uploading { kind } && action == GuestAction::UploadToAsker { kind },
            Err(cause) => next is Finished && (action matches GuestAction::ShowText { text }
                && text@ == "Download failed: "@ + cause@),
        },
        (GuestState::Uploading { kind }, GuestEvent::Uploaded(outcome)) => next is Finished && (match outcome {
            Ok(ids) => match select_file_id_spec(kind, ids.video_file_id.deep_view(), ids.audio_file_id.deep_view()) {
                Ok(id) => action matches GuestAction::ShowMedia { kind: k, file_id, upload_message }
                    && k == kind && file_id@ == id && upload_message == ids.message_id,
                Err(t) => action matches GuestAction::ShowText { text } && text@ == t,
            },
            Err(()) => action matches GuestAction::ShowText { text }
                && text@ == "To receive downloads, open a private chat with this bot and send /start first."@,
        }),
        _ => next is Finished && action is Ignore,
    }
}

/// The next state and action of a guest conversation in `state` on `event`.
/// Events that do not fit the state end the conversation quietly.
pub fn guest_step(state: GuestState, event: GuestEvent, config: &Config) -> (step: (GuestState, GuestAction))
    ensures
        guest_step_spec(state, event, *config, step.0, step.1),
{
    match (state, event) {
        (GuestState::Start, GuestEvent::Received { text, is_common, guest_query_id, has_sender }) => {
            let text_ref: Option<&str> = match &text {
                Some(t) => Some(t.as_str()),
                None => None,
            };
            assert(opt_str_view(text_ref) == text.deep_view());
            match guest_request(text_ref, config, is_common, guest_query_id, has_sender) {
                Some((query_id, url, kind)) => {
                    let (article_id, title, body) = progress_article();
                    (
                        GuestState::Answering { url, kind },
                        GuestAction::AnswerProgress { query_id, article_id, title, text: body },
                    )
                },
                None => (GuestState::Finished, GuestAction::Ignore),
            }
        },
        (GuestState::Answering { url, kind }, GuestEvent::ProgressAnswered) => {
            (GuestState::Downloading { kind }, GuestAction::Download { url, kind })
        },
        (GuestState::Downloading { kind }, GuestEvent::Downloaded(outcome)) => match outcome {
            Ok(()) => (GuestState::Uploading { kind }, GuestAction::UploadToAsker { kind }),
            Err(cause) => (
                GuestState::Finished,
                GuestAction::ShowText { text: download_failed_text(cause.as_str()) },
            ),
        },
        (GuestState::Uploading { kind }, GuestEvent::Uploaded(outcome)) => match outcome {
            Ok(ids) => {
                let message_id = ids.message_id;
                match select_file_id(kind, ids.video_file_id, ids.audio_file_id) {
                    Ok(file_id) => (
                        GuestState::Finished,
                        GuestAction::ShowMedia { kind, file_id, upload_message: message_id },
                    ),
                    Err(text) => (GuestState::Finished, GuestAction::ShowText { text }),
                }
            },
            Err(()) => (GuestState::Finished, GuestAction::ShowText { text: upload_failed_text() }),
        },
        _ => (GuestState::Finished, GuestAction::Ignore),
    }
}

/// A finished conversation stays finished and does nothing more, whatever
/// is reported; and a failed download or upload finishes the conversation
/// with a text in place of the placeholder, so the asker always learns the
/// outcome.
pub proof fn law_conversations_end_visibly(
    event: GuestEvent,
    config: Config,
    kind: MediaKind,
    cause: String,
    next: GuestState,
    action: GuestAction,
)
    ensures
        guest_step_spec(GuestState::Finished, event, config, next, action)
            ==> next is Finished && action is Ignore,
        guest_step_spec(GuestState::Downloading { kind }, GuestEvent::Downloaded(Err(cause)), config, next, action)
            ==> next is Finished && action is ShowText,
        guest_step_spec(GuestState::Uploading { kind }, GuestEvent::Uploaded(Err(())), config, next, action)
            ==> next is Finished && action is ShowText,
{
}

/// The kind of media a state is about, if any.
pub open spec fn state_kind(state: GuestState) -> Option<MediaKind> {
    match state {
        GuestState::Answering { kind, .. } => Some(kind),
        GuestState::Downloading { kind } => Some(kind),
        GuestState::Uploading { kind } => Some(kind),
        _ => None,
    }
}

/// The kind of media an action is about, if any.
pub open spec fn action_kind(action: GuestAction) -> Option<MediaKind> {
    match action {
        GuestAction::Download { kind, .. } => Some(kind),
        GuestAction::UploadToAsker { kind } => Some(kind),
        GuestAction::ShowMedia { kind, .. } => Some(kind),
        _ => None,
    }
}

/// Once a conversation is about a kind of media, every later state and
/// every action stays about that same kind: what is downloaded as video is
/// uploaded and shown as video, and likewise for audio.
pub proof fn law_guest_kind_is_kept(
    state: GuestState,
    event: GuestEvent,
    config: Config,
    next: GuestState,
    action: GuestAction,
)
    requires
        state_kind(state) is Some,
        guest_step_spec(state, event, config, next, action),
    ensures
        state_kind(next) is Some ==> state_kind(next) == state_kind(state),
        action_kind(action) is Some ==> action_kind(action) == state_kind(state),
{
}

/// Every stage that succeeds moves the conversation on: the placeholder
/// leads to the download of the same link, a finished download to the
/// upload of the downloaded kind, and an upload carrying the file id of its
/// kind to showing that very file.
pub proof fn law_guest_progresses(
    url: String,
    kind: MediaKind,
    ids: UploadedIds,
    config: Config,
    next: GuestState,
    action: GuestAction,
)
    ensures
        guest_step_spec((GuestState::Answering { url, kind }), GuestEvent::ProgressAnswered, config, next, action)
            ==> next == (GuestState::Downloading { kind })
                && (action matches GuestAction::Download { url: u, kind: k } && u@ == url@ && k == kind),
        guest_step_spec((GuestState::Downloading { kind }), GuestEvent::Downloaded(Ok(())), config, next, action)
            ==> next == (GuestState::Uploading { kind }) && action == (GuestAction::UploadToAsker { kind }),
        guest_step_spec((GuestState::Uploading { kind: MediaKind::Video }), GuestEvent::Uploaded(Ok(ids)), config, next, action)
            ==> (ids.video_file_id matches Some(id) ==> (action matches GuestAction::ShowMedia { kind: k, file_id, upload_message }
                && k == MediaKind::Video && file_id@ == id@ && upload_message == ids.message_id)),
        guest_step_spec((GuestState::Uploading { kind: MediaKind::Audio }), GuestEvent::Uploaded(Ok(ids)), config, next, action)
            ==> (ids.audio_file_id matches Some(id) ==> (action matches GuestAction::ShowMedia { kind: k, file_id, upload_message }
                && k == MediaKind::Audio && file_id@ == id@ && upload_message == ids.message_id)),
{
}

/// A guest message from a known sender, with a query id, whose first URL a
/// pattern matches, is answered with the placeholder and then fetched as the
/// configured kind: video when a video pattern occurs in the URL, else audio.
pub proof fn law_guest_answers_configured_links(
    text: String,
    query_id: String,
    config: Config,
    next: GuestState,
    action: GuestAction,
)
    requires
        first_url_link(text@) is Some,
        matches_any(config.video@, first_url_link(text@)->0) || matches_any(config.audio@, first_url_link(text@)->0),
        guest_step_spec(
            GuestState::Start,
            (GuestEvent::Received { text: Some(text), is_common: true, guest_query_id: Some(query_id), has_sender: true }),
            config,
            next,
            action,
        ),
    ensures
        (action matches GuestAction::AnswerProgress { query_id: q, .. } && q@ == query_id@),
        (next matches GuestState::Answering { url, kind } && url@ == first_url_link(text@)->0
            && kind == (if matches_any(config.video@, first_url_link(text@)->0) {
                MediaKind::Video
            } else {
                MediaKind::Audio
            })),
{
    assert(Some(text).deep_view() == Some(text@));
    assert(Some(query_id).deep_view() == Some(query_id@));
}

} // verus!
