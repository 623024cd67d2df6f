use rusty_dlp_bot::error::DownloadError;
use rusty_dlp_bot::media::MediaKind;
use rusty_dlp_bot::text::{join, trim};
use rusty_dlp_bot::ytdlp::{failure_text, yt_dlp_args, yt_dlp_executable};

#[test]
fn video_arguments() {
    let args = yt_dlp_args("/tmp/w/%(title)s.%(ext)s", None, "https://x.com/v", MediaKind::Video);
    assert_eq!(
        args,
        vec![
            "--no-playlist",
            "--embed-thumbnail",
            "--output",
            "/tmp/w/%(title)s.%(ext)s",
            "https://x.com/v"
        ]
    );
}

#[test]
fn audio_arguments_with_cookies() {
    let args = yt_dlp_args("t", Some("/c.txt"), "u", MediaKind::Audio);
    assert_eq!(
        args,
        vec![
            "--no-playlist",
            "--embed-thumbnail",
            "--output",
            "t",
            "--cookies",
            "/c.txt",
            "u",
            "--extract-audio",
            "--audio-format",
            "mp3",
            "--embed-metadata"
        ]
    );
}

#[test]
fn audio_arguments_without_cookies_end_with_mp3_options() {
    let args = yt_dlp_args("t", None, "u", MediaKind::Audio);
    assert_eq!(args.len(), 9);
    assert_eq!(args[4], "u");
    assert_eq!(&args[5..], &["--extract-audio", "--audio-format", "mp3", "--embed-metadata"]);
}

#[test]
fn executable_defaults_to_yt_dlp() {
    assert_eq!(yt_dlp_executable(None), "yt-dlp");
    assert_eq!(yt_dlp_executable(Some("/usr/bin/yt-dlp".to_string())), "/usr/bin/yt-dlp");
}

#[test]
fn failure_text_trims_error_output() {
    assert_eq!(failure_text("  ERROR: no video\n\n"), "yt-dlp failed: ERROR: no video");
    assert_eq!(failure_text(" \t\n"), "yt-dlp failed: ");
}

#[test]
fn trim_and_join() {
    assert_eq!(trim("\u{2003} a b \n"), "a b");
    assert_eq!(trim(""), "");
    assert_eq!(join("ab", "cd"), "abcd");
}

#[test]
fn download_error_texts() {
    let d = DownloadError::Download("yt-dlp failed: boom".to_string());
    assert_eq!(d.to_string(), "failed to download video: yt-dlp failed: boom");
    assert_eq!(d.reply_text(), "`failed to download video: yt-dlp failed: boom`");
    let s = DownloadError::Send("request timed out".to_string());
    assert_eq!(s.to_string(), "failed to send video: request timed out");
    assert_eq!(s.reply_text(), "`failed to send video: request timed out`");
}

#[test]
fn trim_strips_every_unicode_white_space() {
    let all = "\u{9}\u{a}\u{b}\u{c}\u{d}\u{20}\u{85}\u{a0}\u{1680}\u{2000}\u{200a}\u{2028}\u{2029}\u{202f}\u{205f}\u{3000}";
    let padded = format!("{all}x y{all}");
    assert_eq!(trim(&padded), "x y");
    assert_eq!(trim("\u{200b}x"), "\u{200b}x");
}
