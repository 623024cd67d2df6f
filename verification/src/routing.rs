//! Routing a plain message by the host of the URL it consists of.

use vstd::prelude::*;
use crate::media::MediaKind;

verus! {

/// A URL as the `url` crate parses it: its normalized text and its host.
pub struct ParsedUrl {
    pub serialization: String,
    pub host: Option<String>,
}

impl View for ParsedUrl {
    type V = (Seq<char>, Option<Seq<char>>);

    open spec fn view(&self) -> (Seq<char>, Option<Seq<char>>) {
        (self.serialization@, self.host.deep_view())
    }
}

/// The view of an optional parsed URL.
pub open spec fn parsed_view(p: Option<ParsedUrl>) -> Option<(Seq<char>, Option<Seq<char>>)> {
    match p {
        Some(u) => Some(u@),
        None => None,
    }
}

/// What `url::Url::parse` makes of `input`: `None` where it refuses it,
/// else the URL's serialization (`as_str`) and host (`host_str`).
pub uninterp spec fn url_parse_result(input: Seq<char>) -> Option<(Seq<char>, Option<Seq<char>>)>;

/// Parses `input` with `url::Url::parse` and reads back `as_str` and
/// `host_str`. The contract names the result; beyond that it states what
/// the crate's source shows: the host is a slice of the serialization.
#[verifier::external_body]
pub(crate) fn parse_url(input: &str) -> (parsed: Option<ParsedUrl>)
    ensures
        parsed_view(parsed) == url_parse_result(input@),
        parsed matches Some(u) ==> (u.host matches Some(h) ==> exists|i: int|
            0 <= i <= u.serialization@.len() - h@.len()
            && h@ == #[trigger] u.serialization@.skip(i).take(h@.len() as int)),
{
    match url::Url::parse(input) {
        Ok(u) => Some(ParsedUrl {
            serialization: u.as_str().to_string(),
            host: u.host_str().map(|h| h.to_string()),
        }),
        Err(_) => None,
    }
}

/// The hosts the bot serves in plain messages, each with the kind of media
/// fetched for it. Entries are kept in insertion order; a later entry for a
/// host replaces an earlier one, as inserting into a map does.
pub struct AllowedDomains {
    pub entries: Vec<(String, MediaKind)>,
}

/// The view of a list of (host, kind) entries.
pub open spec fn entries_view(entries: Seq<(String, MediaKind)>) -> Seq<(Seq<char>, MediaKind)> {
    entries.map_values(|e: (String, MediaKind)| (e.0@, e.1))
}

/// The kind recorded for `host`: that of the last entry for it.
pub open spec fn lookup_domain(entries: Seq<(Seq<char>, MediaKind)>, host: Seq<char>) -> Option<MediaKind>
    decreases entries.len(),
{
    if entries.len() == 0 {
        None
    } else if entries.last().0 == host {
        Some(entries.last().1)
    } else {
        lookup_domain(entries.drop_last(), host)
    }
}

impl View for AllowedDomains {
    type V = Seq<(Seq<char>, MediaKind)>;

    open spec fn view(&self) -> Seq<(Seq<char>, MediaKind)> {
        entries_view(self.entries@)
    }
}

/// Whether two strings hold the same characters.
fn same_text(a: &str, b: &str) -> (same: bool)
    ensures
        same == (a@ == b@),
{
    let x = String::from_str(a);
    let y = String::from_str(b);
    x == y
}

impl AllowedDomains {
    /// A table with no hosts.
    pub fn new() -> (table: Self)
        ensures
            table@ == Seq::<(Seq<char>, MediaKind)>::empty(),
    {
        AllowedDomains { entries: Vec::new() }
    }

    /// Records that links to `host` are fetched as `kind`.
    pub fn insert(&mut self, host: String, kind: MediaKind)
        ensures
            final(self)@ == old(self)@.push((host@, kind)),
    {
        self.entries.push((host, kind));
        assert(entries_view(self.entries@) =~= entries_view(old(self).entries@).push((host@, kind)));
    }

    /// The kind of media fetched for links to `host`, if it is served.
    pub fn get(&self, host: &str) -> (kind: Option<MediaKind>)
        ensures
            kind == lookup_domain(self@, host@),
    {
        let mut i: usize = self.entries.len();
        assert(self@.take(i as int) =~= self@);
        while i > 0
            invariant
                i <= self.entries.len(),
                lookup_domain(self@, host@) == lookup_domain(self@.take(i as int), host@),
            decreases i,
        {
            let ghost prefix = self@.take(i as int);
            assert(prefix.drop_last() =~= self@.take(i - 1));
            assert(prefix.last() == (self.entries@[i - 1].0@, self.entries@[i - 1].1));
            if same_text(self.entries[i - 1].0.as_str(), host) {
                return Some(self.entries[i - 1].1);
            }
            i -= 1;
        }
        None
    }
}

/// Where a plain message goes: nowhere unless it parses as a URL whose host
/// is in `table`; then the URL's normalized text, with the host's kind.
pub open spec fn route_parsed_spec(
    parsed: Option<(Seq<char>, Option<Seq<char>>)>,
    table: Seq<(Seq<char>, MediaKind)>,
) -> Option<(Seq<char>, MediaKind)> {
    match parsed {
        Some((text, Some(host))) => match lookup_domain(table, host) {
            Some(kind) => Some((text, kind)),
            None => None,
        },
        _ => None,
    }
}

/// The view of an optional (link, kind) decision.
pub open spec fn fetch_view(f: Option<(String, MediaKind)>) -> Option<(Seq<char>, MediaKind)> {
    match f {
        Some((url, kind)) => Some((url@, kind)),
        None => None,
    }
}

/// The link to fetch, and as what, for a message whose text parsed to
/// `parsed` (`None` where it did not parse as a URL).
pub fn route_parsed(parsed: Option<ParsedUrl>, table: &AllowedDomains) -> (fetch: Option<(String, MediaKind)>)
    ensures
        fetch_view(fetch) == route_parsed_spec(parsed_view(parsed), table@),
{
    match parsed {
        Some(u) => match u.host {
            Some(host) => match table.get(host.as_str()) {
                Some(kind) => Some((u.serialization, kind)),
                None => None,
            },
            None => None,
        },
        None => None,
    }
}

/// The link to fetch, and as what, for a plain message with text `text`
/// (`None` for a message without text): the whole text must parse as a URL
/// whose host is in `table`.
pub fn route_message(text: Option<&str>, table: &AllowedDomains) -> (fetch: Option<(String, MediaKind)>)
    ensures
        fetch_view(fetch) == match text {
            Some(t) => route_parsed_spec(url_parse_result(t@), table@),
            None => None,
        },
{
    match text {
        Some(t) => route_parsed(parse_url(t), table),
        None => None,
    }
}

/// Looking a host up after recording it gives the kind just recorded, and
/// recording a host leaves every other host as it was.
pub proof fn law_get_after_insert(
    entries: Seq<(Seq<char>, MediaKind)>,
    host: Seq<char>,
    kind: MediaKind,
    other: Seq<char>,
)
    ensures
        lookup_domain(entries.push((host, kind)), host) == Some(kind),
        other != host ==> lookup_domain(entries.push((host, kind)), other) == lookup_domain(entries, other),
{
    assert(entries.push((host, kind)).drop_last() =~= entries);
}

/// The kind recorded for a host is that of the last entry for the host; a
/// host without entries has none.
pub proof fn law_lookup_finds_the_last_entry(entries: Seq<(Seq<char>, MediaKind)>, host: Seq<char>)
    ensures
        lookup_domain(entries, host) matches Some(kind) ==> exists|i: int|
            0 <= i < entries.len() && #[trigger] entries[i] == (host, kind)
            && (forall|j: int| i < j < entries.len() ==> (#[trigger] entries[j]).0 != host),
        lookup_domain(entries, host) is None ==> forall|i: int| 0 <= i < entries.len() ==> (#[trigger] entries[i]).0 != host,
    decreases entries.len(),
{
    if entries.len() > 0 && entries.last().0 != host {
        let rest = entries.drop_last();
        law_lookup_finds_the_last_entry(rest, host);
        if lookup_domain(rest, host) is Some {
            let i = choose|i: int|
                0 <= i < rest.len() && #[trigger] rest[i] == (host, lookup_domain(rest, host)->0)
                && (forall|j: int| i < j < rest.len() ==> (#[trigger] rest[j]).0 != host);
            assert(entries[i] == rest[i]);
            assert forall|j: int| i < j < entries.len() implies (#[trigger] entries[j]).0 != host by {
                if j < rest.len() {
                    assert(entries[j] == rest[j]);
                }
            }
        } else {
            assert forall|i: int| 0 <= i < entries.len() implies (#[trigger] entries[i]).0 != host by {
                if i < rest.len() {
                    assert(entries[i] == rest[i]);
                }
            }
        }
    } else if entries.len() > 0 {
        assert(entries[entries.len() - 1] == (host, entries.last().1));
    }
}

/// Routing depends only on the host: a message that parses as a URL whose
/// host has a recorded kind is fetched, with exactly the URL's normalized
/// text, as that kind, whatever else the URL holds; a URL without a host,
/// or with a host that has no entry, and text that is not a URL, are not
/// fetched.
pub proof fn law_routing_follows_the_host(
    text: Seq<char>,
    table: Seq<(Seq<char>, MediaKind)>,
)
    ensures
        url_parse_result(text) matches Some((url, Some(host))) ==> (lookup_domain(table, host) matches Some(kind)
            ==> route_parsed_spec(url_parse_result(text), table) == Some((url, kind))),
        url_parse_result(text) matches Some((url, Some(host))) ==> (lookup_domain(table, host) is None
            ==> route_parsed_spec(url_parse_result(text), table) is None),
        url_parse_result(text) matches Some((url, None)) ==> route_parsed_spec(url_parse_result(text), table) is None,
        url_parse_result(text) is None ==> route_parsed_spec(url_parse_result(text), table) is None,
{
}

/// The same for a URL given already parsed: it is fetched exactly when its
/// host has a recorded kind, unchanged and as that kind.
pub proof fn law_route_parsed_is_complete(
    url: Seq<char>,
    host: Seq<char>,
    table: Seq<(Seq<char>, MediaKind)>,
    kind: MediaKind,
)
    requires
        lookup_domain(table, host) == Some(kind),
    ensures
        route_parsed_spec(Some((url, Some(host))), table) == Some((url, kind)),
{
}

} // verus!
