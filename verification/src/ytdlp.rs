//! The yt-dlp command line the bot runs, and how its failure is reported.

use vstd::prelude::*;
use crate::media::MediaKind;
use crate::text::{join, law_trim_removes_only_surrounding_white_space, opt_str_view, trim, trim_result, white_space};

verus! {

/// The arguments given to yt-dlp for one download: no playlists, the
/// thumbnail embedded, output written by `template`, the cookie file where
/// one is configured, the link itself, and for audio an MP3 extraction with
/// the metadata embedded.
pub open spec fn yt_dlp_args_spec(
    template: Seq<char>,
    cookies: Option<Seq<char>>,
    url: Seq<char>,
    kind: MediaKind,
) -> Seq<Seq<char>> {
    seq!["--no-playlist"@, "--embed-thumbnail"@, "--output"@, template]
        + match cookies {
        Some(c) => seq!["--cookies"@, c],
        None => Seq::empty(),
    } + seq![url] + match kind {
        MediaKind::Audio => seq!["--extract-audio"@, "--audio-format"@, "mp3"@, "--embed-metadata"@],
        MediaKind::Video => Seq::empty(),
    }
}

/// The program run for downloads: the `YT_DLP_PATH` setting where it is
/// given, `yt-dlp` (looked up on the search path) otherwise.
pub open spec fn executable_spec(from_env: Option<Seq<char>>) -> Seq<char> {
    match from_env {
        Some(path) => path,
        None => "yt-dlp"@,
    }
}

/// The error text when yt-dlp exits unsuccessfully: its error output with
/// the surrounding white space removed.
pub open spec fn failure_text_spec(stderr: Seq<char>) -> Seq<char> {
    "yt-dlp failed: "@ + trim_result(stderr)
}

/// The arguments for downloading `url` as `kind`, writing files named by
/// `output_template`, with the cookie file `cookies` where there is one.
pub fn yt_dlp_args(
    output_template: &str,
    cookies: Option<&str>,
    url: &str,
    kind: MediaKind,
) -> (args: Vec<String>)
    ensures
        args.deep_view() == yt_dlp_args_spec(output_template@, opt_str_view(cookies), url@, kind),
{
    let mut args: Vec<String> = Vec::new();
    args.push(String::from_str("--no-playlist"));
    args.push(String::from_str("--embed-thumbnail"));
    args.push(String::from_str("--output"));
    args.push(String::from_str(output_template));
    match cookies {
        Some(c) => {
            args.push(String::from_str("--cookies"));
            args.push(String::from_str(c));
        },
        None => {},
    }
    args.push(String::from_str(url));
    match kind {
        MediaKind::Audio => {
            args.push(String::from_str("--extract-audio"));
            args.push(String::from_str("--audio-format"));
            args.push(String::from_str("mp3"));
            args.push(String::from_str("--embed-metadata"));
        },
        MediaKind::Video => {},
    }
    assert(args.deep_view() =~= yt_dlp_args_spec(output_template@, opt_str_view(cookies), url@, kind));
    args
}

/// The program to run, given the `YT_DLP_PATH` setting where there is one.
pub fn yt_dlp_executable(from_env: Option<String>) -> (path: String)
    ensures
        path@ == executable_spec(from_env.deep_view()),
{
    match from_env {
        Some(path) => path,
        None => String::from_str("yt-dlp"),
    }
}

/// The error text for an unsuccessful run with error output `stderr`.
pub fn failure_text(stderr: &str) -> (text: String)
    ensures
        text@ == failure_text_spec(stderr@),
{
    join("yt-dlp failed: ", trim(stderr))
}

/// Every run refuses playlists and embeds the thumbnail; audio runs extract
/// the audio as MP3 with its metadata, and end with those options; video
/// runs end with the link itself.
pub proof fn law_audio_runs_extract_mp3(
    template: Seq<char>,
    cookies: Option<Seq<char>>,
    url: Seq<char>,
    kind: MediaKind,
)
    ensures
        ({
            let args = yt_dlp_args_spec(template, cookies, url, kind);
            &&& args[0] == "--no-playlist"@
            &&& args[1] == "--embed-thumbnail"@
            &&& args[2] == "--output"@
            &&& args[3] == template
            &&& kind == MediaKind::Audio ==> {
                &&& args[args.len() - 4] == "--extract-audio"@
                &&& args[args.len() - 3] == "--audio-format"@
                &&& args[args.len() - 2] == "mp3"@
                &&& args[args.len() - 1] == "--embed-metadata"@
                &&& args[args.len() - 5] == url
            }
            &&& kind == MediaKind::Video ==> args[args.len() - 1] == url
        }),
{
}

/// The cookie file is passed exactly when one is configured, right after
/// the output template; without one the link follows the template.
pub proof fn law_cookies_only_when_configured(
    template: Seq<char>,
    cookies: Option<Seq<char>>,
    url: Seq<char>,
    kind: MediaKind,
)
    ensures
        ({
            let args = yt_dlp_args_spec(template, cookies, url, kind);
            match cookies {
                Some(c) => args[4] == "--cookies"@ && args[5] == c && args[6] == url,
                None => args[4] == url,
            }
        }),
{
}

/// A run has exactly the five fixed arguments, plus two for a cookie file
/// and four for audio: nothing else is passed.
pub proof fn law_argument_count(
    template: Seq<char>,
    cookies: Option<Seq<char>>,
    url: Seq<char>,
    kind: MediaKind,
)
    ensures
        yt_dlp_args_spec(template, cookies, url, kind).len()
            == 5 + (if cookies is Some { 2int } else { 0int }) + (if kind == MediaKind::Audio { 4int } else { 0int }),
{
}

/// The failure text is `yt-dlp failed: ` followed by a contiguous part of
/// the error output that neither starts nor ends with white space, all of
/// the output outside that part being white space.
pub proof fn law_failure_text_shows_trimmed_output(stderr: Seq<char>)
    ensures
        failure_text_spec(stderr).take(15) == "yt-dlp failed: "@,
        ({
            let shown = failure_text_spec(stderr).skip(15);
            &&& shown.len() == 0 || (!white_space(shown[0]) && !white_space(shown.last()))
            &&& exists|i: int|
                0 <= i <= stderr.len() - shown.len() && shown == #[trigger] stderr.skip(i).take(shown.len() as int)
                && (forall|k: int| 0 <= k < stderr.len() && !(i <= k < i + shown.len())
                    ==> white_space(#[trigger] stderr[k]))
        }),
{
    reveal_strlit("yt-dlp failed: ");
    let t = trim_result(stderr);
    assert(failure_text_spec(stderr).take(15) =~= "yt-dlp failed: "@);
    assert(failure_text_spec(stderr).skip(15) =~= t);
    law_trim_removes_only_surrounding_white_space(stderr);
}

/// Without a `YT_DLP_PATH` setting the program is `yt-dlp`; with one it is
/// exactly the setting.
pub proof fn law_executable_setting(path: Seq<char>)
    ensures
        executable_spec(None) == "yt-dlp"@,
        executable_spec(Some(path)) == path,
{
}

} // verus!
