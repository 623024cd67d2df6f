//! Which links the bot answers on its own, and with which kind of media.

use vstd::prelude::*;
use crate::media::MediaKind;
use crate::text::{occurs_at, occurs_in, str_contains};

verus! {

/// The patterns that select links: a link whose text contains one of the
/// `video` patterns is fetched as video, otherwise one that contains one of
/// the `audio` patterns is fetched as audio.
pub struct Config {
    pub video: Vec<String>,
    pub audio: Vec<String>,
}

/// Some pattern of `patterns` occurs in `url`.
pub open spec fn matches_any(patterns: Seq<String>, url: Seq<char>) -> bool {
    exists|i: int| 0 <= i < patterns.len() && occurs_in(url, #[trigger] patterns[i]@)
}

/// The kind of media that `config` assigns to `url`; video patterns win over
/// audio patterns.
pub open spec fn kind_for_spec(config: Config, url: Seq<char>) -> Option<MediaKind> {
    if matches_any(config.video@, url) {
        Some(MediaKind::Video)
    } else if matches_any(config.audio@, url) {
        Some(MediaKind::Audio)
    } else {
        None
    }
}

/// The file the configuration is read from: the `CONFIG_PATH` setting where
/// it is given, `config.toml` otherwise.
pub open spec fn config_path_spec(from_env: Option<Seq<char>>) -> Seq<char> {
    match from_env {
        Some(path) => path,
        None => "config.toml"@,
    }
}

/// Whether some pattern of `patterns` occurs in `url`.
fn any_pattern_in(patterns: &Vec<String>, url: &str) -> (res: bool)
    ensures
        res == matches_any(patterns@, url@),
{
    let mut i: usize = 0;
    while i < patterns.len()
        invariant
            i <= patterns.len(),
            forall|k: int| 0 <= k < i ==> !occurs_in(url@, #[trigger] patterns@[k]@),
        decreases patterns.len() - i,
    {
        if str_contains(url, patterns[i].as_str()) {
            return true;
        }
        i += 1;
    }
    false
}

impl Config {
    /// Whether `url` contains one of the video patterns.
    pub fn filter_video(&self, url: &str) -> (res: bool)
        ensures
            res == matches_any(self.video@, url@),
    {
        any_pattern_in(&self.video, url)
    }

    /// Whether `url` contains one of the audio patterns.
    pub fn filter_audio(&self, url: &str) -> (res: bool)
        ensures
            res == matches_any(self.audio@, url@),
    {
        any_pattern_in(&self.audio, url)
    }

    /// The kind of media to fetch for `url`: video where a video pattern
    /// matches, else audio where an audio pattern matches, else none.
    pub fn kind_for(&self, url: &str) -> (kind: Option<MediaKind>)
        ensures
            kind == kind_for_spec(*self, url@),
    {
        if self.filter_video(url) {
            Some(MediaKind::Video)
        } else if self.filter_audio(url) {
            Some(MediaKind::Audio)
        } else {
            None
        }
    }
}

/// The path of the configuration file, given the value of the `CONFIG_PATH`
/// setting where there is one.
pub fn config_path(from_env: Option<String>) -> (path: String)
    ensures
        path@ == config_path_spec(from_env.deep_view()),
{
    match from_env {
        Some(path) => path,
        None => String::from_str("config.toml"),
    }
}

/// A link that matches both a video and an audio pattern is fetched as
/// video; it is fetched as audio only when no video pattern matches it; and
/// it is fetched at all only when some pattern matches it.
pub proof fn law_video_patterns_take_precedence(config: Config, url: Seq<char>)
    ensures
        matches_any(config.video@, url) ==> kind_for_spec(config, url) == Some(MediaKind::Video),
        kind_for_spec(config, url) == Some(MediaKind::Audio)
            <==> (!matches_any(config.video@, url) && matches_any(config.audio@, url)),
        kind_for_spec(config, url) is None
            <==> (!matches_any(config.video@, url) && !matches_any(config.audio@, url)),
{
}

/// A link that contains the `i`-th video pattern is fetched as video.
pub proof fn law_contained_video_pattern_selects_video(config: Config, url: Seq<char>, i: int, at: int)
    requires
        0 <= i < config.video@.len(),
        occurs_at(url, config.video@[i]@, at),
    ensures
        kind_for_spec(config, url) == Some(MediaKind::Video),
{
    assert(occurs_in(url, config.video@[i]@));
}

/// An empty pattern occurs in every link: with one among the video patterns
/// every link is fetched as video.
pub proof fn law_empty_video_pattern_selects_everything(config: Config, url: Seq<char>, i: int)
    requires
        0 <= i < config.video@.len(),
        config.video@[i]@.len() == 0,
    ensures
        kind_for_spec(config, url) == Some(MediaKind::Video),
{
    assert(url.subrange(0, 0) =~= config.video@[i]@);
    assert(occurs_at(url, config.video@[i]@, 0));
    law_contained_video_pattern_selects_video(config, url, i, 0);
}

/// Patterns are matched anywhere in a link: a link that matches keeps
/// matching when text is added before or after it.
pub proof fn law_matching_survives_extension(patterns: Seq<String>, url: Seq<char>, before: Seq<char>, after: Seq<char>)
    requires
        matches_any(patterns, url),
    ensures
        matches_any(patterns, before + url + after),
{
    let i = choose|i: int| 0 <= i < patterns.len() && occurs_in(url, #[trigger] patterns[i]@);
    let at = choose|at: int| occurs_at(url, patterns[i]@, at);
    let whole = before + url + after;
    let n = patterns[i]@.len();
    assert(whole.subrange(before.len() + at, before.len() + at + n) =~= url.subrange(at, at + n));
    assert(occurs_at(whole, patterns[i]@, before.len() + at));
    assert(occurs_in(whole, patterns[i]@));
}

/// Without a `CONFIG_PATH` setting the configuration is read from
/// `config.toml`; with one, from exactly the setting.
pub proof fn law_config_path_setting(path: Seq<char>)
    ensures
        config_path_spec(None) == "config.toml"@,
        config_path_spec(Some(path)) == path,
{
}

} // verus!
