//! Parsing of raw `key:value` header tokens from the command line.
//!
//! Each token is split on its first colon only; both sides are trimmed of
//! leading and trailing whitespace. A token without a colon is silently
//! dropped: a malformed header flag never fails the invocation. Surviving
//! pairs keep their input order and duplicate names are kept, not merged.

use vstd::prelude::*;
use vstd::string::*;

verus! {

/// Whether a character has the Unicode `White_Space` property, the set that
/// trimming removes from the ends of a header name or value.
pub open spec fn is_ws(c: char) -> bool {
    let u = c as u32;
    (0x09 <= u && u <= 0x0D) || u == 0x20 || u == 0x85 || u == 0xA0 || u == 0x1680 || (0x2000
        <= u && u <= 0x200A) || u == 0x2028 || u == 0x2029 || u == 0x202F || u == 0x205F || u
        == 0x3000
}

fn is_ws_char(c: char) -> (r: bool)
    ensures
        r == is_ws(c),
{
    let u = c as u32;
    (0x09 <= u && u <= 0x0D) || u == 0x20 || u == 0x85 || u == 0xA0 || u == 0x1680 || (0x2000
        <= u && u <= 0x200A) || u == 0x2028 || u == 0x2029 || u == 0x202F || u == 0x205F || u
        == 0x3000
}

/// The string with its leading whitespace removed.
pub open spec fn trim_start_spec(s: Seq<char>) -> Seq<char>
    decreases s.len(),
{
    if s.len() > 0 && is_ws(s[0]) {
        trim_start_spec(s.drop_first())
    } else {
        s
    }
}

/// The string with its trailing whitespace removed.
pub open spec fn trim_end_spec(s: Seq<char>) -> Seq<char>
    decreases s.len(),
{
    if s.len() > 0 && is_ws(s[s.len() - 1]) {
        trim_end_spec(s.drop_last())
    } else {
        s
    }
}

/// The string with whitespace removed from both ends.
pub open spec fn trim_spec(s: Seq<char>) -> Seq<char> {
    trim_end_spec(trim_start_spec(s))
}

proof fn lemma_trim_start_at(s: Seq<char>, i: int)
    requires
        0 <= i <= s.len(),
        forall|j: int| 0 <= j < i ==> is_ws(s[j]),
        i < s.len() ==> !is_ws(s[i]),
    ensures
        trim_start_spec(s) == s.subrange(i, s.len() as int),
    decreases i,
{
    if i == 0 {
        assert(trim_start_spec(s) =~= s.subrange(0, s.len() as int));
    } else {
        let t = s.drop_first();
        assert(forall|j: int| 0 <= j < i - 1 ==> is_ws(t[j]));
        lemma_trim_start_at(t, i - 1);
        assert(t.subrange(i - 1, t.len() as int) =~= s.subrange(i, s.len() as int));
    }
}

proof fn lemma_trim_end_at(s: Seq<char>, e: int)
    requires
        0 <= e <= s.len(),
        forall|k: int| e <= k < s.len() ==> is_ws(s[k]),
        e > 0 ==> !is_ws(s[e - 1]),
    ensures
        trim_end_spec(s) == s.subrange(0, e),
    decreases s.len() - e,
{
    if e == s.len() {
        assert(trim_end_spec(s) =~= s.subrange(0, e));
    } else {
        let t = s.drop_last();
        assert(forall|k: int| e <= k < t.len() ==> is_ws(t[k]));
        lemma_trim_end_at(t, e);
        assert(t.subrange(0, e) =~= s.subrange(0, e));
    }
}

/// Removes leading and trailing whitespace from a string.
pub fn trim(s: &str) -> (r: String)
    ensures
        r@ == trim_spec(s@),
{
    let n = s.unicode_len();
    let mut i: usize = 0;
    while i < n && is_ws_char(s.get_char(i))
        invariant
            0 <= i <= n,
            n == s@.len(),
            forall|j: int| 0 <= j < i ==> is_ws(s@[j]),
        decreases n - i,
    {
        i = i + 1;
    }
    let mut e: usize = n;
    while e > i && is_ws_char(s.get_char(e - 1))
        invariant
            i <= e <= n,
            n == s@.len(),
            forall|k: int| e <= k < n ==> is_ws(s@[k]),
        decreases e,
    {
        e = e - 1;
    }
    let out = s.substring_char(i, e);
    proof {
        lemma_trim_start_at(s@, i as int);
        let t = s@.subrange(i as int, s@.len() as int);
        assert(forall|k: int| e - i <= k < t.len() ==> is_ws(t[k]));
        lemma_trim_end_at(t, e - i);
        assert(t.subrange(0, e - i) =~= s@.subrange(i as int, e as int));
    }
    out.to_owned()
}

/// The index of the first colon in the string, if there is one.
pub open spec fn colon_index(s: Seq<char>) -> Option<int>
    decreases s.len(),
{
    if s.len() == 0 {
        None
    } else if s[0] == ':' {
        Some(0int)
    } else {
        match colon_index(s.drop_first()) {
            None => None,
            Some(i) => Some(i + 1),
        }
    }
}

proof fn lemma_colon_index_found(s: Seq<char>, i: int)
    requires
        0 <= i < s.len(),
        s[i] == ':',
        forall|j: int| 0 <= j < i ==> s[j] != ':',
    ensures
        colon_index(s) == Some(i),
    decreases i,
{
    if i > 0 {
        let t = s.drop_first();
        assert(forall|j: int| 0 <= j < i - 1 ==> t[j] != ':');
        lemma_colon_index_found(t, i - 1);
    }
}

proof fn lemma_colon_index_none(s: Seq<char>)
    requires
        forall|j: int| 0 <= j < s.len() ==> s[j] != ':',
    ensures
        colon_index(s) is None,
    decreases s.len(),
{
    if s.len() > 0 {
        let t = s.drop_first();
        assert(forall|j: int| 0 <= j < t.len() ==> t[j] != ':');
        lemma_colon_index_none(t);
    }
}

/// What one header token parses to: `None` for a token without a colon;
/// otherwise the text before the first colon and the text after it, both
/// trimmed. Colons after the first stay part of the value.
pub open spec fn parse_token_spec(s: Seq<char>) -> Option<(Seq<char>, Seq<char>)> {
    match colon_index(s) {
        None => None,
        Some(i) => Some((trim_spec(s.take(i)), trim_spec(s.skip(i + 1)))),
    }
}

/// Splits one raw header token on its first colon, trimming both sides;
/// `None` when the token holds no colon.
pub fn split_header(s: &str) -> (r: Option<(String, String)>)
    ensures
        r matches Some(p) ==> parse_token_spec(s@) == Some((p.0@, p.1@)),
        r is None ==> parse_token_spec(s@) is None,
{
    let n = s.unicode_len();
    let mut i: usize = 0;
    while i < n && s.get_char(i) != ':'
        invariant
            0 <= i <= n,
            n == s@.len(),
            forall|j: int| 0 <= j < i ==> s@[j] != ':',
        decreases n - i,
    {
        i = i + 1;
    }
    if i == n {
        proof {
            lemma_colon_index_none(s@);
        }
        None
    } else {
        proof {
            lemma_colon_index_found(s@, i as int);
            assert(s@.subrange(0, i as int) =~= s@.take(i as int));
            assert(s@.subrange(i + 1, n as int) =~= s@.skip(i + 1));
        }
        let name = trim(s.substring_char(0, i));
        let value = trim(s.substring_char(i + 1, n));
        Some((name, value))
    }
}

/// The views of a sequence of owned header tokens.
pub open spec fn token_views(ts: Seq<String>) -> Seq<Seq<char>> {
    ts.map_values(|t: String| t@)
}

/// The views of a sequence of owned header pairs.
pub open spec fn headers_view(hs: Seq<(String, String)>) -> Seq<(Seq<char>, Seq<char>)> {
    hs.map_values(|p: (String, String)| (p.0@, p.1@))
}

/// What a whole token sequence parses to: the pairs of the tokens that hold
/// a colon, in input order, tokens without a colon silently dropped.
pub open spec fn parse_headers_spec(tokens: Seq<Seq<char>>) -> Seq<(Seq<char>, Seq<char>)>
    decreases tokens.len(),
{
    if tokens.len() == 0 {
        Seq::empty()
    } else {
        let rest = parse_headers_spec(tokens.drop_last());
        match parse_token_spec(tokens.last()) {
            None => rest,
            Some(p) => rest.push(p),
        }
    }
}

/// Parses repeated raw header tokens into an ordered header collection,
/// dropping tokens without a colon and keeping duplicates.
pub fn parse_headers(tokens: &Vec<String>) -> (r: Vec<(String, String)>)
    ensures
        headers_view(r@) == parse_headers_spec(token_views(tokens@)),
{
    let mut out: Vec<(String, String)> = Vec::new();
    let mut k: usize = 0;
    proof {
        assert(headers_view(out@) =~= parse_headers_spec(token_views(tokens@).take(0)));
    }
    while k < tokens.len()
        invariant
            0 <= k <= tokens@.len(),
            headers_view(out@) == parse_headers_spec(token_views(tokens@).take(k as int)),
        decreases tokens@.len() - k,
    {
        let ghost prefix = token_views(tokens@).take(k as int);
        match split_header(tokens[k].as_str()) {
            Some(pair) => {
                let ghost pv = (pair.0@, pair.1@);
                out.push(pair);
                proof {
                    assert(token_views(tokens@).take(k + 1).drop_last() =~= prefix);
                    assert(headers_view(out@) =~= parse_headers_spec(prefix).push(pv));
                }
            },
            None => {
                proof {
                    assert(token_views(tokens@).take(k + 1).drop_last() =~= prefix);
                }
            },
        }
        k = k + 1;
    }
    proof {
        assert(token_views(tokens@).take(tokens@.len() as int) =~= token_views(tokens@));
    }
    out
}

/// The pair a colon-holding token parses to.
pub open spec fn parsed_pair(t: Seq<char>) -> (Seq<char>, Seq<char>) {
    match parse_token_spec(t) {
        Some(p) => p,
        None => (Seq::empty(), Seq::empty()),
    }
}

/// Law: header parsing keeps exactly the tokens that hold a colon, in their
/// input order (duplicates included), each split on its first colon and
/// trimmed; tokens without a colon never appear in the result.
pub proof fn lemma_header_leniency(tokens: Seq<Seq<char>>)
    ensures
        parse_headers_spec(tokens) == tokens.filter(
            |t: Seq<char>| parse_token_spec(t) is Some,
        ).map_values(|t: Seq<char>| parsed_pair(t)),
    decreases tokens.len(),
{
    reveal(Seq::filter);
    let pred = |t: Seq<char>| parse_token_spec(t) is Some;
    let f = |t: Seq<char>| parsed_pair(t);
    if tokens.len() == 0 {
        assert(parse_headers_spec(tokens) =~= tokens.filter(pred).map_values(f));
    } else {
        let front = tokens.drop_last();
        lemma_header_leniency(front);
        if pred(tokens.last()) {
            front.filter(pred).lemma_push_map_commute(f, tokens.last());
            assert(parse_headers_spec(tokens) =~= tokens.filter(pred).map_values(f));
        } else {
            assert(parse_headers_spec(tokens) =~= tokens.filter(pred).map_values(f));
        }
    }
}

} // verus!
