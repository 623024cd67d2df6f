//! Finding the link a message is about.

use vstd::prelude::*;
use crate::text::{occurs_in, opt_str_view};

verus! {

/// The text of the first URL that `linkify` finds in `text` when it looks
/// for URLs only (e-mail addresses are not links here).
pub uninterp spec fn first_url_link(text: Seq<char>) -> Option<Seq<char>>;

/// The first URL in `text`, found with `linkify::LinkFinder` restricted to
/// `LinkKind::Url`. The contract names the result and states what the
/// crate's source shows of it: a link is the slice `text[start..end]`, so
/// it is a contiguous part of `text`; URLs must have a scheme by default, so
/// the link contains `://` (the trigger the URL scanner requires) and starts
/// at the first ASCII letter of its scheme.
#[verifier::external_body]
pub(crate) fn extract_url(text: &str) -> (link: Option<String>)
    ensures
        link.deep_view() == first_url_link(text@),
        link matches Some(l) ==> exists|span: (int, int)|
            0 <= span.0 <= span.1 <= text@.len() && l@ == #[trigger] text@.subrange(span.0, span.1),
        link matches Some(l) ==> occurs_in(l@, "://"@),
        link matches Some(l) ==> (l@.len() > 0 && (('a' <= l@[0] && l@[0] <= 'z') || ('A' <= l@[0] && l@[0] <= 'Z'))),
{
    linkify::LinkFinder::new()
        .kinds(&[linkify::LinkKind::Url])
        .links(text)
        .next()
        .map(|l| l.as_str().to_string())
}

/// The link a download command is about: the command's own argument where it
/// is not empty, else the first URL of the message it replies to.
pub open spec fn resolve_url_spec(arg: Seq<char>, replied_text: Option<Seq<char>>) -> Option<Seq<char>> {
    if arg.len() != 0 {
        Some(arg)
    } else {
        match replied_text {
            Some(t) => first_url_link(t),
            None => None,
        }
    }
}

/// The link for a download command with argument `arg` (already trimmed),
/// sent in reply to a message with text `replied_text` (if any).
pub fn resolve_url(arg: &str, replied_text: Option<&str>) -> (url: Option<String>)
    ensures
        url.deep_view() == resolve_url_spec(arg@, opt_str_view(replied_text)),
{
    if !arg.is_empty() {
        Some(String::from_str(arg))
    } else {
        match replied_text {
            Some(t) => extract_url(t),
            None => None,
        }
    }
}

/// The link of a download command is its argument whenever that is not
/// empty, whatever it replies to; an empty argument takes the first URL of
/// the replied-to message, and there is none without a reply.
pub proof fn law_argument_before_reply(arg: Seq<char>, replied_text: Option<Seq<char>>)
    ensures
        arg.len() != 0 ==> resolve_url_spec(arg, replied_text) == Some(arg),
        arg.len() == 0 ==> (replied_text matches Some(t) ==> resolve_url_spec(arg, replied_text) == first_url_link(t)),
        arg.len() == 0 ==> (replied_text is None ==> resolve_url_spec(arg, replied_text) is None),
{
}

} // verus!
