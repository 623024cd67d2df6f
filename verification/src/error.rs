//! Why a download that was asked for did not reach the chat.

use vstd::prelude::*;
use crate::text::join;

verus! {

/// A failed download-and-send, with the message of the underlying failure.
#[derive(Debug, PartialEq, Eq)]
pub enum DownloadError {
    /// yt-dlp (or preparing for it) failed; the message says why.
    Download(String),
    /// The file was fetched but the chat service refused it.
    Send(String),
}

/// The text shown for an error.
pub open spec fn download_error_text(e: DownloadError) -> Seq<char> {
    match e {
        DownloadError::Download(cause) => "failed to download video: "@ + cause@,
        DownloadError::Send(cause) => "failed to send video: "@ + cause@,
    }
}

/// The reply the bot posts under a request that failed: the error's text as
/// inline code.
pub open spec fn error_reply_text(e: DownloadError) -> Seq<char> {
    "`"@ + download_error_text(e) + "`"@
}

impl DownloadError {
    /// The error's text, such as `failed to download video: <cause>`.
    pub fn to_string(&self) -> (text: String)
        ensures
            text@ == download_error_text(*self),
    {
        match self {
            DownloadError::Download(cause) => join("failed to download video: ", cause.as_str()),
            DownloadError::Send(cause) => join("failed to send video: ", cause.as_str()),
        }
    }

    /// The reply posted under the request: the text wrapped in backticks.
    pub fn reply_text(&self) -> (reply: String)
        ensures
            reply@ == error_reply_text(*self),
    {
        let text = self.to_string();
        let mut reply = join("`", text.as_str());
        reply.append("`");
        reply
    }
}

/// The reply to a failed request is the failure's cause, introduced by the
/// stage that failed, inside a pair of backticks.
pub proof fn law_reply_names_stage_and_cause(cause: String)
    ensures
        error_reply_text(DownloadError::Download(cause)) == "`failed to download video: "@ + cause@ + "`"@,
        error_reply_text(DownloadError::Send(cause)) == "`failed to send video: "@ + cause@ + "`"@,
{
    reveal_strlit("`");
    reveal_strlit("failed to download video: ");
    reveal_strlit("`failed to download video: ");
    reveal_strlit("failed to send video: ");
    reveal_strlit("`failed to send video: ");
    assert("`"@ + ("failed to download video: "@ + cause@) + "`"@ =~= "`failed to download video: "@ + cause@ + "`"@);
    assert("`"@ + ("failed to send video: "@ + cause@) + "`"@ =~= "`failed to send video: "@ + cause@ + "`"@);
}

} // verus!
