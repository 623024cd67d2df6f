//! Verified string helpers: substring search, concatenation and trimming.

use vstd::prelude::*;

verus! {

/// `needle` occurs in `hay` as a contiguous run of characters.
pub open spec fn occurs_in(hay: Seq<char>, needle: Seq<char>) -> bool {
    exists|i: int| occurs_at(hay, needle, i)
}

/// `needle` occurs in `hay` starting at index `i`.
pub open spec fn occurs_at(hay: Seq<char>, needle: Seq<char>, i: int) -> bool {
    0 <= i && i + needle.len() <= hay.len() && hay.subrange(i, i + needle.len()) == needle
}

/// The view of an optional borrowed string.
pub open spec fn opt_str_view(s: Option<&str>) -> Option<Seq<char>> {
    match s {
        Some(t) => Some(t@),
        None => None,
    }
}

/// The characters of `s`, in order.
pub fn chars_of(s: &str) -> (v: Vec<char>)
    ensures
        v@ == s@,
{
    let mut v: Vec<char> = Vec::new();
    for c in it: s.chars()
        invariant
            v@ == it.seq().take(it.index()),
    {
        v.push(c);
    }
    v
}

/// Whether `needle` occurs in `hay` as a contiguous run of characters,
/// which is what `str::contains` answers for a string pattern.
pub fn str_contains(hay: &str, needle: &str) -> (res: bool)
    ensures
        res == occurs_in(hay@, needle@),
{
    let h = chars_of(hay);
    let n = chars_of(needle);
    if n.len() > h.len() {
        proof {
            assert forall|i: int| !occurs_at(hay@, needle@, i) by {}
        }
        return false;
    }
    let last = h.len() - n.len();
    let mut i: usize = 0;
    while i <= last
        invariant
            h@ == hay@,
            n@ == needle@,
            n.len() <= h.len(),
            last == h.len() - n.len(),
            i <= last + 1,
            forall|k: int| 0 <= k < i ==> !occurs_at(hay@, needle@, k),
        decreases last + 1 - i,
    {
        let mut j: usize = 0;
        while j < n.len() && h[i + j] == n[j]
            invariant
                h@ == hay@,
                n@ == needle@,
                i <= last,
                last == h.len() - n.len(),
                j <= n.len(),
                forall|m: int| 0 <= m < j ==> h@[i + m] == n@[m],
            decreases n.len() - j,
        {
            j += 1;
        }
        if j == n.len() {
            assert(hay@.subrange(i as int, i + needle@.len()) =~= needle@);
            assert(occurs_at(hay@, needle@, i as int));
            return true;
        }
        assert(!occurs_at(hay@, needle@, i as int)) by {
            if occurs_at(hay@, needle@, i as int) {
                assert(hay@.subrange(i as int, i + needle@.len())[j as int] == needle@[j as int]);
            }
        }
        i += 1;
    }
    assert forall|k: int| !occurs_at(hay@, needle@, k) by {}
    false
}

/// Whether `c` has the Unicode `White_Space` property, the property that
/// `char::is_whitespace` reports and that `str::trim` strips: the 25 code
/// points U+0009 to U+000D, U+0020, U+0085, U+00A0, U+1680, U+2000 to
/// U+200A, U+2028, U+2029, U+202F, U+205F and U+3000.
pub open spec fn white_space(c: char) -> bool {
    ||| ('\u{9}' <= c && c <= '\u{d}')
    ||| c == '\u{20}'
    ||| c == '\u{85}'
    ||| c == '\u{a0}'
    ||| c == '\u{1680}'
    ||| ('\u{2000}' <= c && c <= '\u{200a}')
    ||| c == '\u{2028}'
    ||| c == '\u{2029}'
    ||| c == '\u{202f}'
    ||| c == '\u{205f}'
    ||| c == '\u{3000}'
}

/// `s` without its leading white space.
pub open spec fn trim_start_spec(s: Seq<char>) -> Seq<char>
    decreases s.len(),
{
    if s.len() > 0 && white_space(s[0]) {
        trim_start_spec(s.drop_first())
    } else {
        s
    }
}

/// `s` without its trailing white space.
pub open spec fn trim_end_spec(s: Seq<char>) -> Seq<char>
    decreases s.len(),
{
    if s.len() > 0 && white_space(s.last()) {
        trim_end_spec(s.drop_last())
    } else {
        s
    }
}

/// `s` without its leading and trailing white space: what `str::trim`
/// returns.
pub open spec fn trim_result(s: Seq<char>) -> Seq<char> {
    trim_end_spec(trim_start_spec(s))
}

/// `str::trim`, from the standard library. Its documentation says that it
/// returns the string without its leading and trailing white space, white
/// space being the Unicode `White_Space` property; the contract states
/// exactly that.
#[verifier::external_body]
pub fn trim(s: &str) -> (t: &str)
    ensures
        t@ == trim_result(s@),
{
    s.trim()
}

/// Cutting white space off the start leaves a suffix of `s` that is empty or
/// starts with a character that is not white space, and everything cut off
/// is white space.
proof fn lemma_trim_start(s: Seq<char>)
    ensures
        ({
            let t = trim_start_spec(s);
            &&& t.len() <= s.len()
            &&& t == s.skip(s.len() - t.len())
            &&& t.len() == 0 || !white_space(t[0])
            &&& forall|k: int| 0 <= k < s.len() - t.len() ==> white_space(#[trigger] s[k])
        }),
    decreases s.len(),
{
    if s.len() > 0 && white_space(s[0]) {
        lemma_trim_start(s.drop_first());
        let t = trim_start_spec(s.drop_first());
        assert(s.drop_first().skip(s.drop_first().len() - t.len()) =~= s.skip(s.len() - t.len()));
        assert forall|k: int| 0 <= k < s.len() - t.len() implies white_space(#[trigger] s[k]) by {
            if k > 0 {
                assert(s[k] == s.drop_first()[k - 1]);
            }
        }
    } else {
        assert(s.skip(0) =~= s);
    }
}

/// Cutting white space off the end leaves a prefix of `s` that is empty or
/// ends with a character that is not white space, and everything cut off is
/// white space.
proof fn lemma_trim_end(s: Seq<char>)
    ensures
        ({
            let t = trim_end_spec(s);
            &&& t.len() <= s.len()
            &&& t == s.take(t.len() as int)
            &&& t.len() == 0 || !white_space(t.last())
            &&& forall|k: int| t.len() <= k < s.len() ==> white_space(#[trigger] s[k])
        }),
    decreases s.len(),
{
    if s.len() > 0 && white_space(s.last()) {
        lemma_trim_end(s.drop_last());
        let t = trim_end_spec(s.drop_last());
        assert(s.drop_last().take(t.len() as int) =~= s.take(t.len() as int));
        assert forall|k: int| t.len() <= k < s.len() implies white_space(#[trigger] s[k]) by {
            if k < s.len() - 1 {
                assert(s[k] == s.drop_last()[k]);
            }
        }
    } else {
        assert(s.take(s.len() as int) =~= s);
    }
}

/// Trimming keeps a contiguous part of the text that neither starts nor
/// ends with white space, and removes only white space around it.
pub proof fn law_trim_removes_only_surrounding_white_space(s: Seq<char>)
    ensures
        ({
            let t = trim_result(s);
            &&& t.len() == 0 || (!white_space(t[0]) && !white_space(t.last()))
            &&& exists|i: int|
                0 <= i <= s.len() - t.len() && t == #[trigger] s.skip(i).take(t.len() as int)
                && (forall|k: int| 0 <= k < s.len() && !(i <= k < i + t.len())
                    ==> white_space(#[trigger] s[k]))
        }),
{
    let u = trim_start_spec(s);
    lemma_trim_start(s);
    lemma_trim_end(u);
    let t = trim_end_spec(u);
    let i = s.len() - u.len();
    assert(t == s.skip(i).take(t.len() as int));
    if t.len() > 0 {
        assert(t[0] == u[0]);
    }
    assert forall|k: int| 0 <= k < s.len() && !(i <= k < i + t.len()) implies white_space(#[trigger] s[k]) by {
        if k >= i {
            assert(s[k] == u[k - i]);
        }
    }
}

/// The characters of `prefix` followed by those of `rest`, as a new string.
pub fn join(prefix: &str, rest: &str) -> (s: String)
    ensures
        s@ == prefix@ + rest@,
{
    let mut s = String::from_str(prefix);
    s.append(rest);
    s
}

/// The empty text occurs in every text, and no text occurs in a shorter
/// one; a text occurs in itself.
pub proof fn law_occurrence_basics(hay: Seq<char>, needle: Seq<char>)
    ensures
        occurs_in(hay, Seq::<char>::empty()),
        needle.len() > hay.len() ==> !occurs_in(hay, needle),
        occurs_in(hay, hay),
{
    assert(hay.subrange(0, 0) =~= Seq::<char>::empty());
    assert(occurs_at(hay, Seq::<char>::empty(), 0));
    assert(hay.subrange(0, hay.len() as int) =~= hay);
    assert(occurs_at(hay, hay, 0));
}

} // verus!
