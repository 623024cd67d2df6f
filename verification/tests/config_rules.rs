use rusty_dlp_bot::config::{config_path, Config};
use rusty_dlp_bot::media::MediaKind;
use rusty_dlp_bot::text::str_contains;

fn strings(items: &[&str]) -> Vec<String> {
    items.iter().map(|s| s.to_string()).collect()
}

fn sample() -> Config {
    Config {
        video: strings(&["tiktok.com", "reddit.com", "instagram.com"]),
        audio: strings(&["music.youtube.com", "soundcloud.com"]),
    }
}

#[test]
fn contains_finds_inner_text() {
    assert!(str_contains("https://www.tiktok.com/@a/video/1", "tiktok.com"));
    assert!(!str_contains("https://example.org", "tiktok.com"));
}

#[test]
fn contains_edge_cases() {
    assert!(str_contains("", ""));
    assert!(str_contains("abc", ""));
    assert!(!str_contains("ab", "abc"));
    assert!(str_contains("abc", "abc"));
    assert!(str_contains("aab", "ab"));
    assert!(str_contains("ünïcödé", "ïcö"));
    assert!(!str_contains("ünïcödé", "ico"));
}

#[test]
fn filter_video_matches_video_patterns() {
    let c = sample();
    assert!(c.filter_video("https://www.reddit.com/r/x/comments/1"));
    assert!(!c.filter_video("https://soundcloud.com/artist/track"));
}

#[test]
fn filter_audio_matches_audio_patterns() {
    let c = sample();
    assert!(c.filter_audio("https://soundcloud.com/artist/track"));
    assert!(!c.filter_audio("https://www.instagram.com/reel/1"));
}

#[test]
fn kind_for_picks_the_configured_kind() {
    let c = sample();
    assert_eq!(c.kind_for("https://vm.tiktok.com/abc"), Some(MediaKind::Video));
    assert_eq!(c.kind_for("https://music.youtube.com/watch?v=1"), Some(MediaKind::Audio));
    assert_eq!(c.kind_for("https://example.org/page"), None);
}

#[test]
fn video_patterns_take_precedence() {
    let c = Config { video: strings(&["example"]), audio: strings(&["example.org"]) };
    assert_eq!(c.kind_for("https://example.org"), Some(MediaKind::Video));
}

#[test]
fn empty_configuration_matches_nothing() {
    let c = Config { video: vec![], audio: vec![] };
    assert!(!c.filter_video("https://tiktok.com"));
    assert!(!c.filter_audio("https://tiktok.com"));
    assert_eq!(c.kind_for("https://tiktok.com"), None);
}

#[test]
fn empty_video_pattern_selects_everything() {
    let c = Config { video: strings(&[""]), audio: strings(&["soundcloud.com"]) };
    assert_eq!(c.kind_for("https://soundcloud.com/x"), Some(MediaKind::Video));
    assert_eq!(c.kind_for(""), Some(MediaKind::Video));
}

#[test]
fn matching_survives_extension() {
    let c = sample();
    assert!(c.filter_audio("soundcloud.com"));
    assert!(c.filter_audio("https://soundcloud.com/a/b?c=d"));
}

#[test]
fn config_path_defaults_to_config_toml() {
    assert_eq!(config_path(None), "config.toml");
    assert_eq!(config_path(Some("/etc/bot.toml".to_string())), "/etc/bot.toml");
}

#[test]
fn media_kind_names() {
    assert_eq!(MediaKind::Video.as_ref(), "video");
    assert_eq!(MediaKind::Audio.as_ref(), "audio");
    assert_eq!(MediaKind::Audio.to_string(), "audio");
    assert_eq!(MediaKind::Video.to_string(), MediaKind::Video.as_ref());
}
