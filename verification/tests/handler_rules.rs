use rusty_dlp_bot::config::Config;
use rusty_dlp_bot::handlers::{
    chat_action_for, download_failed_text, guest_request, missing_url_reply, plan_auto,
    plan_command, poll_step, progress_article, route_link, select_file_id, upload_failed_text,
    ChatAction, Command, CommandPlan, PollEvent, PollStep, CHAT_ACTION_INTERVAL_SECS,
};
use rusty_dlp_bot::links::resolve_url;
use rusty_dlp_bot::media::MediaKind;

fn sample() -> Config {
    Config {
        video: vec!["tiktok.com".to_string()],
        audio: vec!["soundcloud.com".to_string()],
    }
}

#[test]
fn auto_fetches_first_configured_link() {
    let c = sample();
    assert_eq!(
        plan_auto(Some("look https://soundcloud.com/a/b and https://tiktok.com/x"), &c),
        Some(("https://soundcloud.com/a/b".to_string(), MediaKind::Audio))
    );
    assert_eq!(
        plan_auto(Some("https://www.tiktok.com/@u/video/7"), &c),
        Some(("https://www.tiktok.com/@u/video/7".to_string(), MediaKind::Video))
    );
}

#[test]
fn auto_ignores_other_messages() {
    let c = sample();
    assert_eq!(plan_auto(None, &c), None);
    assert_eq!(plan_auto(Some("no links here"), &c), None);
    assert_eq!(plan_auto(Some("https://example.org/page"), &c), None);
    assert_eq!(plan_auto(Some("write to me@soundcloud.com"), &c), None);
}

#[test]
fn auto_checks_only_the_first_link() {
    let c = sample();
    assert_eq!(plan_auto(Some("https://example.org then https://tiktok.com/x"), &c), None);
}

#[test]
fn route_link_uses_configuration() {
    let c = sample();
    assert_eq!(
        route_link(Some("https://tiktok.com/v".to_string()), &c),
        Some(("https://tiktok.com/v".to_string(), MediaKind::Video))
    );
    assert_eq!(route_link(Some("https://a.b".to_string()), &c), None);
    assert_eq!(route_link(None, &c), None);
}

#[test]
fn resolve_url_prefers_argument() {
    assert_eq!(
        resolve_url("https://a.example/x", Some("https://b.example/y")),
        Some("https://a.example/x".to_string())
    );
    assert_eq!(
        resolve_url("", Some("see https://b.example/y")),
        Some("https://b.example/y".to_string())
    );
    assert_eq!(resolve_url("", Some("nothing")), None);
    assert_eq!(resolve_url("", None), None);
}

#[test]
fn start_shows_help() {
    assert_eq!(plan_command(&Command::Start, Some("https://tiktok.com/x"), &sample()), CommandPlan::ShowHelp);
}

#[test]
fn dl_argument_is_trimmed_and_takes_precedence() {
    let c = sample();
    let cmd = Command::Dl("  https://soundcloud.com/t \n".to_string());
    assert_eq!(
        plan_command(&cmd, Some("https://tiktok.com/x"), &c),
        CommandPlan::Fetch("https://soundcloud.com/t".to_string(), MediaKind::Audio)
    );
}

#[test]
fn dl_defaults_to_video() {
    let cmd = Command::Dl("https://example.org/clip".to_string());
    assert_eq!(
        plan_command(&cmd, None, &sample()),
        CommandPlan::Fetch("https://example.org/clip".to_string(), MediaKind::Video)
    );
}

#[test]
fn dl_without_argument_uses_the_reply() {
    let c = sample();
    let cmd = Command::Dl("   ".to_string());
    let text = "listen: https://soundcloud.com/a/b";
    assert_eq!(
        plan_command(&cmd, Some(text), &c),
        CommandPlan::Fetch("https://soundcloud.com/a/b".to_string(), MediaKind::Audio)
    );
    let auto = plan_auto(Some(text), &c).unwrap();
    assert_eq!(plan_command(&cmd, Some(text), &c), CommandPlan::Fetch(auto.0, auto.1));
}

#[test]
fn dl_without_any_link_asks_for_one() {
    let c = sample();
    assert_eq!(plan_command(&Command::Dl(String::new()), None, &c), CommandPlan::AskForUrl);
    assert_eq!(plan_command(&Command::Dl(" ".to_string()), Some("hi"), &c), CommandPlan::AskForUrl);
    assert_eq!(missing_url_reply(), "Provide a URL, or reply to a message containing one.");
}

#[test]
fn guest_requests() {
    let c = sample();
    let text = Some("https://tiktok.com/v/1");
    assert_eq!(
        guest_request(text, &c, true, Some("q1".to_string()), true),
        Some(("q1".to_string(), "https://tiktok.com/v/1".to_string(), MediaKind::Video))
    );
    assert_eq!(guest_request(text, &c, false, Some("q1".to_string()), true), None);
    assert_eq!(guest_request(text, &c, true, None, true), None);
    assert_eq!(guest_request(text, &c, true, Some("q1".to_string()), false), None);
    assert_eq!(guest_request(Some("https://example.org"), &c, true, Some("q".to_string()), true), None);
    assert_eq!(guest_request(None, &c, true, Some("q".to_string()), true), None);
}

#[test]
fn guest_texts() {
    let (id, title, content) = progress_article();
    assert_eq!(id, "progress");
    assert_eq!(title, "\u{23f3} Downloading...");
    assert_eq!(content, "Downloading...");
    assert_eq!(download_failed_text("yt-dlp failed: x"), "Download failed: yt-dlp failed: x");
    assert_eq!(
        upload_failed_text(),
        "To receive downloads, open a private chat with this bot and send /start first."
    );
}

#[test]
fn file_id_follows_the_kind() {
    let v = Some("vid".to_string());
    let a = Some("aud".to_string());
    assert_eq!(select_file_id(MediaKind::Video, v.clone(), a.clone()), Ok("vid".to_string()));
    assert_eq!(select_file_id(MediaKind::Audio, v.clone(), a.clone()), Ok("aud".to_string()));
    assert_eq!(
        select_file_id(MediaKind::Audio, v, None),
        Err("Internal error: missing file_id after upload".to_string())
    );
    assert_eq!(
        select_file_id(MediaKind::Video, None, a),
        Err("Internal error: missing file_id after upload".to_string())
    );
}

#[test]
fn chat_actions_and_polling() {
    assert_eq!(chat_action_for(MediaKind::Video), ChatAction::UploadVideo);
    assert_eq!(chat_action_for(MediaKind::Audio), ChatAction::UploadDocument);
    assert_eq!(CHAT_ACTION_INTERVAL_SECS, 4);
    assert!(matches!(poll_step::<u8>(PollEvent::Tick), PollStep::SendChatAction));
    assert!(matches!(poll_step(PollEvent::Finished(7u8)), PollStep::Return(7)));
}
