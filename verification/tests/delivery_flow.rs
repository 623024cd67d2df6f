use rusty_dlp_bot::delivery::{delivery_step, DeliveryAction, DeliveryEvent, DeliveryState};
use rusty_dlp_bot::error::DownloadError;
use rusty_dlp_bot::handlers::ChatAction;
use rusty_dlp_bot::media::MediaKind;

#[test]
fn audio_delivery_succeeds() {
    let (state, action) = delivery_step(DeliveryState::Start, DeliveryEvent::Requested { kind: MediaKind::Audio });
    assert!(matches!(action, DeliveryAction::Download { chat_action: ChatAction::UploadDocument }));
    let (state, action) = delivery_step(state, DeliveryEvent::Downloaded(Ok(())));
    assert!(matches!(action, DeliveryAction::SendAudio));
    let (state, action) = delivery_step(state, DeliveryEvent::Sent(Ok(())));
    assert!(matches!(action, DeliveryAction::Succeed));
    assert!(matches!(state, DeliveryState::Finished));
}

#[test]
fn video_delivery_sends_video() {
    let (state, action) = delivery_step(DeliveryState::Start, DeliveryEvent::Requested { kind: MediaKind::Video });
    assert!(matches!(action, DeliveryAction::Download { chat_action: ChatAction::UploadVideo }));
    let (_, action) = delivery_step(state, DeliveryEvent::Downloaded(Ok(())));
    assert!(matches!(action, DeliveryAction::SendVideo));
}

#[test]
fn failed_download_is_a_download_error() {
    let state = DeliveryState::Downloading { kind: MediaKind::Video };
    let (state, action) = delivery_step(state, DeliveryEvent::Downloaded(Err("failed to spawn yt-dlp".to_string())));
    assert!(matches!(state, DeliveryState::Finished));
    match action {
        DeliveryAction::Fail(e) => {
            assert_eq!(e, DownloadError::Download("failed to spawn yt-dlp".to_string()));
            assert_eq!(e.reply_text(), "`failed to download video: failed to spawn yt-dlp`");
        }
        _ => panic!("expected a failure"),
    }
}

#[test]
fn failed_post_is_a_send_error() {
    let (_, action) = delivery_step(DeliveryState::Sending, DeliveryEvent::Sent(Err("timeout".to_string())));
    match action {
        DeliveryAction::Fail(e) => assert_eq!(e, DownloadError::Send("timeout".to_string())),
        _ => panic!("expected a failure"),
    }
}

#[test]
fn stray_events_end_the_delivery() {
    let (state, action) = delivery_step(DeliveryState::Start, DeliveryEvent::Sent(Ok(())));
    assert!(matches!(state, DeliveryState::Finished));
    assert!(matches!(action, DeliveryAction::Ignore));
    let (_, action) = delivery_step(DeliveryState::Finished, DeliveryEvent::Requested { kind: MediaKind::Audio });
    assert!(matches!(action, DeliveryAction::Ignore));
}
