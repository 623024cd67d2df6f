//! Fetching a link and posting the file under the message that asked for
//! it. The caller downloads and sends; `delivery_step` decides what comes
//! next after each of them, and which error a failure becomes.

use vstd::prelude::*;
use crate::error::DownloadError;
use crate::handlers::{chat_action_for, chat_action_spec, ChatAction};
use crate::media::MediaKind;

verus! {

/// Where a delivery stands.
pub enum DeliveryState {
    /// Nothing has happened yet.
    Start,
    /// The file of this kind is being downloaded.
    Downloading { kind: MediaKind },
    /// The downloaded file is being posted.
    Sending,
    /// The delivery is over.
    Finished,
}

/// What the caller reports after carrying out the previous action.
pub enum DeliveryEvent {
    /// A delivery of this kind was asked for.
    Requested { kind: MediaKind },
    /// The download ended: `Err` holds the failure's text.
    Downloaded(Result<(), String>),
    /// Posting the file ended: `Err` holds the failure's text.
    Sent(Result<(), String>),
}

/// What the caller does next.
pub enum DeliveryAction {
    /// Download the link, showing `chat_action` in the chat meanwhile.
    Download { chat_action: ChatAction },
    /// Post the file as a video, in reply to the request.
    SendVideo,
    /// Post the file as audio, in reply to the request.
    SendAudio,
    /// Stop: the delivery failed with this error.
    Fail(DownloadError),
    /// Stop: the file was posted.
    Succeed,
    /// Nothing: the event does not fit the delivery's state.
    Ignore,
}

/// `next` and `action` are what follows `state` on `event`.
pub open spec fn delivery_step_spec(
    state: DeliveryState,
    event: DeliveryEvent,
    next: DeliveryState,
    action: DeliveryAction,
) -> bool {
    match (state, event) {
        (DeliveryState::Start, DeliveryEvent::Requested { kind }) => {
            &&& next == DeliveryState::Downloading { kind }
            &&& action == DeliveryAction::Download { chat_action: chat_action_spec(kind) }
        },
        (DeliveryState::Downloading { kind }, DeliveryEvent::Downloaded(outcome)) => match outcome {
            Ok(()) => next is Sending && match kind {
                MediaKind::Video => action is SendVideo,
                MediaKind::Audio => action is SendAudio,
            },
            Err(cause) => next is Finished && (action matches DeliveryAction::Fail(DownloadError::Download(c))
                && c@ == cause@),
        },
        (DeliveryState::Sending, DeliveryEvent::Sent(outcome)) => next is Finished && match outcome {
            Ok(()) => action is Succeed,
            Err(cause) => action matches DeliveryAction::Fail(DownloadError::Send(c)) && c@ == cause@,
        },
        _ => next is Finished && action is Ignore,
    }
}

/// The next state and action of a delivery in `state` on `event`. Events
/// that do not fit the state end the delivery quietly.
pub fn delivery_step(state: DeliveryState, event: DeliveryEvent) -> (step: (DeliveryState, DeliveryAction))
    ensures
        delivery_step_spec(state, event, step.0, step.1),
{
    match (state, event) {
        (DeliveryState::Start, DeliveryEvent::Requested { kind }) => (
            DeliveryState::Downloading { kind },
            DeliveryAction::Download { chat_action: chat_action_for(kind) },
        ),
        (DeliveryState::Downloading { kind }, DeliveryEvent::Downloaded(outcome)) => match outcome {
            Ok(()) => match kind {
                MediaKind::Video => (DeliveryState::Sending, DeliveryAction::SendVideo),
                MediaKind::Audio => (DeliveryState::Sending, DeliveryAction::SendAudio),
            },
            Err(cause) => (DeliveryState::Finished, DeliveryAction::Fail(DownloadError::Download(cause))),
        },
        (DeliveryState::Sending, DeliveryEvent::Sent(outcome)) => match outcome {
            Ok(()) => (DeliveryState::Finished, DeliveryAction::Succeed),
            Err(cause) => (DeliveryState::Finished, DeliveryAction::Fail(DownloadError::Send(cause))),
        },
        _ => (DeliveryState::Finished, DeliveryAction::Ignore),
    }
}

/// A delivery posts the file in the form of its kind, and a failure is
/// reported as the error of the stage that failed: a failed download as a
/// download error, a failed post as a send error, each with the cause's
/// text.
pub proof fn law_failures_name_their_stage(
    kind: MediaKind,
    cause: String,
    next: DeliveryState,
    action: DeliveryAction,
)
    ensures
        delivery_step_spec(DeliveryState::Downloading { kind }, DeliveryEvent::Downloaded(Err(cause)), next, action)
            ==> (action matches DeliveryAction::Fail(e) && e is Download),
        delivery_step_spec(DeliveryState::Sending, DeliveryEvent::Sent(Err(cause)), next, action)
            ==> (action matches DeliveryAction::Fail(e) && e is Send),
        delivery_step_spec(DeliveryState::Downloading { kind: MediaKind::Audio }, DeliveryEvent::Downloaded(Ok(())), next, action)
            ==> action is SendAudio,
        delivery_step_spec(DeliveryState::Downloading { kind: MediaKind::Video }, DeliveryEvent::Downloaded(Ok(())), next, action)
            ==> action is SendVideo,
{
}

/// After a successful download the delivery posts the file, whatever its
/// kind, and the outcome of that post decides how it ends: a post that
/// succeeds ends in success, a post that fails with `cause` ends in a send
/// error carrying `cause`, never silently.
pub proof fn law_post_outcome_is_reported(
    kind: MediaKind,
    outcome: Result<(), String>,
    mid: DeliveryState,
    posted: DeliveryAction,
    last: DeliveryState,
    ended: DeliveryAction,
)
    requires
        delivery_step_spec((DeliveryState::Downloading { kind }), DeliveryEvent::Downloaded(Ok(())), mid, posted),
        delivery_step_spec(mid, DeliveryEvent::Sent(outcome), last, ended),
    ensures
        mid is Sending,
        kind == MediaKind::Video ==> posted is SendVideo,
        kind == MediaKind::Audio ==> posted is SendAudio,
        last is Finished,
        outcome is Ok ==> ended is Succeed,
        outcome matches Err(cause) ==> (ended matches DeliveryAction::Fail(DownloadError::Send(c)) && c@ == cause@),
{
}

/// A requested delivery first downloads, showing the upload action of its
/// kind (a video upload for video, a document upload for audio); a failed
/// download ends it with a download error carrying the cause.
pub proof fn law_download_stage(
    kind: MediaKind,
    cause: String,
    next: DeliveryState,
    action: DeliveryAction,
    last: DeliveryState,
    ended: DeliveryAction,
)
    requires
        delivery_step_spec(DeliveryState::Start, (DeliveryEvent::Requested { kind }), next, action),
        delivery_step_spec(next, DeliveryEvent::Downloaded(Err(cause)), last, ended),
    ensures
        next == (DeliveryState::Downloading { kind }),
        kind == MediaKind::Video ==> action == (DeliveryAction::Download { chat_action: ChatAction::UploadVideo }),
        kind == MediaKind::Audio ==> action == (DeliveryAction::Download { chat_action: ChatAction::UploadDocument }),
        last is Finished,
        (ended matches DeliveryAction::Fail(DownloadError::Download(c)) && c@ == cause@),
{
}

} // verus!
