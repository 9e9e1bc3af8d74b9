//! Operations on text that the rest of the crate is built from: trimming the
//! separators off an endpoint, joining it to a base URL, and comparing header
//! names without regard to ASCII case.
use vstd::prelude::*;
use vstd::string::*;

verus! {

/// `s` without the slashes it starts with.
pub open spec fn trimmed_start(s: Seq<char>) -> Seq<char>
    decreases s.len(),
{
    if s.len() > 0 && s[0] == '/' {
        trimmed_start(s.drop_first())
    } else {
        s
    }
}

/// `s` without the slashes it ends with.
pub open spec fn trimmed_end(s: Seq<char>) -> Seq<char>
    decreases s.len(),
{
    if s.len() > 0 && s.last() == '/' {
        trimmed_end(s.drop_last())
    } else {
        s
    }
}

/// `s` without leading and trailing slashes; slashes inside stay.
pub open spec fn trimmed(s: Seq<char>) -> Seq<char> {
    trimmed_end(trimmed_start(s))
}

/// The absolute URL of an endpoint: the base, one separator, and the endpoint
/// without the slashes around it.
pub open spec fn joined(base: Seq<char>, endpoint: Seq<char>) -> Seq<char> {
    base + seq!['/'] + trimmed(endpoint)
}

/// Once `from` leading slashes are skipped, trimming the start of `s` leaves
/// what trimming the start of the rest leaves.
pub proof fn lemma_trimmed_start_skips(s: Seq<char>, from: int)
    requires
        0 <= from <= s.len(),
        forall|k: int| 0 <= k < from ==> s[k] == '/',
    ensures
        trimmed_start(s) == trimmed_start(s.skip(from)),
    decreases from,
{
    if from == 0 {
        assert(s.skip(0) =~= s);
    } else {
        assert(s[0] == '/');
        let rest = s.drop_first();
        assert forall|k: int| 0 <= k < from - 1 implies rest[k] == '/' by {
            assert(rest[k] == s[k + 1]);
        }
        lemma_trimmed_start_skips(rest, from - 1);
        assert(rest.skip(from - 1) =~= s.skip(from));
    }
}

/// Once the trailing slashes behind `to` are dropped, trimming the end of `s`
/// leaves what trimming the end of the rest leaves.
pub proof fn lemma_trimmed_end_takes(s: Seq<char>, to: int)
    requires
        0 <= to <= s.len(),
        forall|k: int| to <= k < s.len() ==> s[k] == '/',
    ensures
        trimmed_end(s) == trimmed_end(s.take(to)),
    decreases s.len() - to,
{
    if to == s.len() {
        assert(s.take(to) =~= s);
    } else {
        assert(s.last() == '/');
        let rest = s.drop_last();
        assert forall|k: int| to <= k < rest.len() implies rest[k] == '/' by {
            assert(rest[k] == s[k]);
        }
        lemma_trimmed_end_takes(rest, to);
        assert(rest.take(to) =~= s.take(to));
    }
}

/// A trimmed text neither starts nor ends with a slash.
pub proof fn lemma_trimmed_has_no_outer_slash(s: Seq<char>)
    ensures
        trimmed(s).len() > 0 ==> trimmed(s)[0] != '/' && trimmed(s).last() != '/',
        trimmed(s).len() <= s.len(),
{
    lemma_trimmed_start_is_suffix(s);
    lemma_trimmed_end_keeps_start(trimmed_start(s));
}

/// Trimming the start leaves a suffix that does not start with a slash.
pub proof fn lemma_trimmed_start_is_suffix(s: Seq<char>)
    ensures
        trimmed_start(s).len() <= s.len(),
        trimmed_start(s).len() > 0 ==> trimmed_start(s)[0] != '/',
    decreases s.len(),
{
    if s.len() > 0 && s[0] == '/' {
        lemma_trimmed_start_is_suffix(s.drop_first());
    }
}

/// Trimming the end leaves a prefix that does not end with a slash, and that
/// starts as `s` starts.
pub proof fn lemma_trimmed_end_keeps_start(s: Seq<char>)
    ensures
        trimmed_end(s).len() <= s.len(),
        trimmed_end(s).len() > 0 ==> trimmed_end(s).last() != '/' && trimmed_end(s)[0] == s[0],
    decreases s.len(),
{
    if s.len() > 0 && s.last() == '/' {
        lemma_trimmed_end_keeps_start(s.drop_last());
    }
}

/// Removes the slashes around an endpoint.
pub fn trim_slashes(s: &str) -> (t: String)
    ensures
        t@ == trimmed(s@),
{
    let n = s.unicode_len();
    let mut from: usize = 0;
    while from < n && s.get_char(from) == '/'
        invariant
            n == s@.len(),
            from <= n,
            forall|k: int| 0 <= k < from ==> s@[k] == '/',
        decreases n - from,
    {
        from += 1;
    }
    let mut to: usize = n;
    while to > from && s.get_char(to - 1) == '/'
        invariant
            n == s@.len(),
            from <= to <= n,
            forall|k: int| to <= k < n ==> s@[k] == '/',
        decreases to,
    {
        to -= 1;
    }
    let inner = s.substring_char(from, to);
    proof {
        let rest = s@.skip(from as int);
        lemma_trimmed_start_skips(s@, from as int);
        assert(trimmed_start(rest) == rest);
        assert forall|k: int| to - from <= k < rest.len() implies rest[k] == '/' by {
            assert(rest[k] == s@[k + from]);
        }
        lemma_trimmed_end_takes(rest, to - from);
        assert(rest.take(to - from) =~= s@.subrange(from as int, to as int));
        assert(trimmed_end(inner@) == inner@);
    }
    String::from_str(inner)
}

/// Joins an endpoint to a base URL with exactly one separator.
pub fn join_url(base: &str, endpoint: &str) -> (url: String)
    ensures
        url@ == joined(base@, endpoint@),
{
    let mut url = String::from_str(base);
    let tail = trim_slashes(endpoint);
    proof {
        reveal_strlit("/");
        assert("/"@ =~= seq!['/']);
    }
    url.append("/");
    url.append(tail.as_str());
    url
}

/// The lower-case form of an ASCII letter; any other character is itself.
pub open spec fn lower_char(c: char) -> char {
    if 'A' <= c && c <= 'Z' {
        ((c as u8) + 32) as char
    } else {
        c
    }
}

/// A text with its ASCII letters in lower case.
pub open spec fn lowered(s: Seq<char>) -> Seq<char> {
    s.map_values(|c: char| lower_char(c))
}

/// Whether two header names are the same name: header names do not
/// distinguish the case of ASCII letters.
pub open spec fn same_name(a: Seq<char>, b: Seq<char>) -> bool {
    lowered(a) == lowered(b)
}

/// Puts one character in lower case.
pub fn to_lower(c: char) -> (l: char)
    ensures
        l == lower_char(c),
{
    if 'A' <= c && c <= 'Z' {
        ((c as u8) + 32) as char
    } else {
        c
    }
}

/// Compares two header names without regard to ASCII case.
pub fn names_match(a: &str, b: &str) -> (same: bool)
    ensures
        same == same_name(a@, b@),
{
    let n = a.unicode_len();
    if n != b.unicode_len() {
        assert(lowered(a@).len() != lowered(b@).len());
        return false;
    }
    let mut i: usize = 0;
    while i < n
        invariant
            n == a@.len(),
            n == b@.len(),
            i <= n,
            forall|k: int| 0 <= k < i ==> lower_char(a@[k]) == lower_char(b@[k]),
        decreases n - i,
    {
        if to_lower(a.get_char(i)) != to_lower(b.get_char(i)) {
            assert(lowered(a@)[i as int] != lowered(b@)[i as int]);
            return false;
        }
        i += 1;
    }
    assert(lowered(a@) =~= lowered(b@));
    true
}

} // verus!
