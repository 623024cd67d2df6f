//! The two kinds of media the bot fetches.

use vstd::prelude::*;

verus! {

/// What the bot downloads for a link: a video file, or audio extracted as MP3.
#[derive(Clone, Copy, Debug, PartialEq, Eq, Structural)]
pub enum MediaKind {
    Video,
    Audio,
}

/// The lower-case name of a kind, as it is shown and logged.
pub open spec fn kind_name(kind: MediaKind) -> Seq<char> {
    match kind {
        MediaKind::Video => "video"@,
        MediaKind::Audio => "audio"@,
    }
}

impl View for MediaKind {
    type V = MediaKind;

    open spec fn view(&self) -> MediaKind {
        *self
    }
}

impl DeepView for MediaKind {
    type V = MediaKind;

    open spec fn deep_view(&self) -> MediaKind {
        *self
    }
}

impl MediaKind {
    /// The lower-case name of this kind: `"video"` or `"audio"`.
    pub fn as_ref(&self) -> (name: &'static str)
        ensures
            name@ == kind_name(*self),
    {
        match self {
            MediaKind::Video => "video",
            MediaKind::Audio => "audio",
        }
    }

    /// The displayed form of this kind, which is its name.
    pub fn to_string(&self) -> (shown: String)
        ensures
            shown@ == kind_name(*self),
    {
        String::from_str(self.as_ref())
    }
}

} // verus!
