//! The run configuration consumed by the engine, and its validation.
//!
//! A configuration is built once before the run and never mutated. Header
//! parsing and method parsing reject bad input before any worker starts.

use vstd::prelude::*;

use crate::errors::{AppResult, ErrorType};

verus! {

/// The HTTP methods a load test can use.
#[derive(Clone, Copy, Debug, PartialEq, Eq, Structural)]
pub enum HttpMethod {
    Get,
    Post,
    Put,
    Delete,
    Head,
    Options,
}

impl HttpMethod {
    /// The method's name on the wire.
    pub open spec fn spec_name(self) -> Seq<char> {
        match self {
            HttpMethod::Get => "GET"@,
            HttpMethod::Post => "POST"@,
            HttpMethod::Put => "PUT"@,
            HttpMethod::Delete => "DELETE"@,
            HttpMethod::Head => "HEAD"@,
            HttpMethod::Options => "OPTIONS"@,
        }
    }

    /// The method's name on the wire.
    pub fn as_str(&self) -> (r: &'static str)
        ensures
            r@ == self.spec_name(),
    {
        match *self {
            HttpMethod::Get => "GET",
            HttpMethod::Post => "POST",
            HttpMethod::Put => "PUT",
            HttpMethod::Delete => "DELETE",
            HttpMethod::Head => "HEAD",
            HttpMethod::Options => "OPTIONS",
        }
    }
}

/// Everything the engine needs for one run: the target and how to call it,
/// plus the worker count and the two time budgets (both in seconds).
#[derive(Debug, Clone)]
pub struct Arguments {
    pub target: String,
    pub method: HttpMethod,
    pub proxy: Option<String>,
    pub duration: u64,
    pub connections: usize,
    pub payload: Option<String>,
    pub headers: Option<Vec<(String, String)>>,
    pub timeout: u64,
}

/// ASCII upper-casing of one character; everything outside `a`..`z` is kept.
pub open spec fn upper_char(c: char) -> char {
    if c == 'a' {
        'A'
    } else if c == 'b' {
        'B'
    } else if c == 'c' {
        'C'
    } else if c == 'd' {
        'D'
    } else if c == 'e' {
        'E'
    } else if c == 'f' {
        'F'
    } else if c == 'g' {
        'G'
    } else if c == 'h' {
        'H'
    } else if c == 'i' {
        'I'
    } else if c == 'j' {
        'J'
    } else if c == 'k' {
        'K'
    } else if c == 'l' {
        'L'
    } else if c == 'm' {
        'M'
    } else if c == 'n' {
        'N'
    } else if c == 'o' {
        'O'
    } else if c == 'p' {
        'P'
    } else if c == 'q' {
        'Q'
    } else if c == 'r' {
        'R'
    } else if c == 's' {
        'S'
    } else if c == 't' {
        'T'
    } else if c == 'u' {
        'U'
    } else if c == 'v' {
        'V'
    } else if c == 'w' {
        'W'
    } else if c == 'x' {
        'X'
    } else if c == 'y' {
        'Y'
    } else if c == 'z' {
        'Z'
    } else {
        c
    }
}

/// ASCII upper-casing of a whole string.
pub open spec fn spec_upper(s: Seq<char>) -> Seq<char> {
    Seq::new(s.len(), |i: int| upper_char(s[i]))
}

/// What parsing a method string yields: the string is upper-cased and must
/// spell one of the six supported methods, else the method is invalid.
pub open spec fn spec_parse_method(s: Seq<char>) -> AppResult<HttpMethod> {
    if spec_upper(s) == "GET"@ {
        Ok(HttpMethod::Get)
    } else if spec_upper(s) == "POST"@ {
        Ok(HttpMethod::Post)
    } else if spec_upper(s) == "PUT"@ {
        Ok(HttpMethod::Put)
    } else if spec_upper(s) == "DELETE"@ {
        Ok(HttpMethod::Delete)
    } else if spec_upper(s) == "HEAD"@ {
        Ok(HttpMethod::Head)
    } else if spec_upper(s) == "OPTIONS"@ {
        Ok(HttpMethod::Options)
    } else {
        Err(ErrorType::InvalidMethod)
    }
}

/// ASCII upper-casing of one character.
fn upper_char_exec(c: char) -> (u: char)
    ensures
        u == upper_char(c),
{
    match c {
        'a' => 'A',
        'b' => 'B',
        'c' => 'C',
        'd' => 'D',
        'e' => 'E',
        'f' => 'F',
        'g' => 'G',
        'h' => 'H',
        'i' => 'I',
        'j' => 'J',
        'k' => 'K',
        'l' => 'L',
        'm' => 'M',
        'n' => 'N',
        'o' => 'O',
        'p' => 'P',
        'q' => 'Q',
        'r' => 'R',
        's' => 'S',
        't' => 'T',
        'u' => 'U',
        'v' => 'V',
        'w' => 'W',
        'x' => 'X',
        'y' => 'Y',
        'z' => 'Z',
        _ => c,
    }
}

/// Whether the ASCII upper-casing of `s` spells exactly `word`.
fn matches_upper(s: &str, word: &str) -> (r: bool)
    ensures
        r == (spec_upper(s@) == word@),
{
    let n = s.unicode_len();
    if n != word.unicode_len() {
        proof {
            assert(spec_upper(s@).len() == s@.len());
        }
        return false;
    }
    let mut i: usize = 0;
    while i < n
        invariant
            i <= n,
            n == s@.len(),
            n == word@.len(),
            forall|j: int| 0 <= j < i ==> #[trigger] upper_char(s@[j]) == word@[j],
        decreases n - i,
    {
        if upper_char_exec(s.get_char(i)) != word.get_char(i) {
            proof {
                assert(spec_upper(s@)[i as int] != word@[i as int]);
            }
            return false;
        }
        i = i + 1;
    }
    proof {
        assert(spec_upper(s@) =~= word@);
    }
    true
}

/// Parse an HTTP method name, ignoring ASCII case, into one of the six
/// supported methods; anything else is `InvalidMethod`.
pub fn parse_method(method: String) -> (r: AppResult<HttpMethod>)
    ensures
        r == spec_parse_method(method@),
{
    let s = method.as_str();
    if matches_upper(s, "GET") {
        Ok(HttpMethod::Get)
    } else if matches_upper(s, "POST") {
        Ok(HttpMethod::Post)
    } else if matches_upper(s, "PUT") {
        Ok(HttpMethod::Put)
    } else if matches_upper(s, "DELETE") {
        Ok(HttpMethod::Delete)
    } else if matches_upper(s, "HEAD") {
        Ok(HttpMethod::Head)
    } else if matches_upper(s, "OPTIONS") {
        Ok(HttpMethod::Options)
    } else {
        Err(ErrorType::InvalidMethod)
    }
}

/// The characters the `http` crate accepts in a header name: the HTTP
/// token characters, letters of either case included (a name is stored
/// lower-cased).
pub open spec fn header_name_char_ok(c: char) -> bool {
    ('a' <= c && c <= 'z') || ('A' <= c && c <= 'Z') || ('0' <= c && c <= '9') || c == '!'
        || c == '#' || c == '$' || c == '%' || c == '&' || c == '\'' || c == '*' || c == '+'
        || c == '-' || c == '.' || c == '^' || c == '_' || c == '`' || c == '|' || c == '~'
}

/// The characters the `http` crate accepts in a header value: horizontal
/// tab and everything from space upward except delete. A character beyond
/// ASCII is accepted, since each byte of its encoding lies in that range.
pub open spec fn header_value_char_ok(c: char) -> bool {
    c == '\t' || (c as u32 >= 32 && c as u32 != 127)
}

/// Whether a string is a valid HTTP header name: non-empty, at most 65535
/// characters (the `http` crate's name-length cap), each a token character.
pub open spec fn valid_header_name(s: Seq<char>) -> bool {
    1 <= s.len() <= 65535 && (forall|i: int| 0 <= i < s.len() ==> header_name_char_ok(#[trigger] s[i]))
}

/// Whether a string is a valid HTTP header value: every character accepted
/// by the `http` crate's value grammar.
pub open spec fn valid_header_value(s: Seq<char>) -> bool {
    forall|i: int| 0 <= i < s.len() ==> header_value_char_ok(#[trigger] s[i])
}

/// Whether a string is a valid HTTP header name.
pub fn is_valid_header_name(s: &str) -> (r: bool)
    ensures
        r == valid_header_name(s@),
{
    let n = s.unicode_len();
    if n == 0 || n > 65535 {
        return false;
    }
    let mut i: usize = 0;
    while i < n
        invariant
            i <= n,
            n == s@.len(),
            forall|j: int| 0 <= j < i ==> header_name_char_ok(#[trigger] s@[j]),
        decreases n - i,
    {
        let c = s.get_char(i);
        if !(('a' <= c && c <= 'z') || ('A' <= c && c <= 'Z') || ('0' <= c && c <= '9') || c == '!'
            || c == '#' || c == '$' || c == '%' || c == '&' || c == '\'' || c == '*' || c == '+'
            || c == '-' || c == '.' || c == '^' || c == '_' || c == '`' || c == '|' || c == '~') {
            return false;
        }
        i = i + 1;
    }
    true
}

/// Whether a string is a valid HTTP header value.
pub fn is_valid_header_value(s: &str) -> (r: bool)
    ensures
        r == valid_header_value(s@),
{
    let n = s.unicode_len();
    let mut i: usize = 0;
    while i < n
        invariant
            i <= n,
            n == s@.len(),
            forall|j: int| 0 <= j < i ==> header_value_char_ok(#[trigger] s@[j]),
        decreases n - i,
    {
        let c = s.get_char(i);
        if !(c == '\t' || (c as u32 >= 32 && c as u32 != 127)) {
            return false;
        }
        i = i + 1;
    }
    true
}

/// ASCII lower-casing of one character; everything outside `A`..`Z` is
/// kept. Header names are stored lower-cased, so this is the key under
/// which a header map files a name.
pub open spec fn lower_char(c: char) -> char {
    if c == 'A' {
        'a'
    } else if c == 'B' {
        'b'
    } else if c == 'C' {
        'c'
    } else if c == 'D' {
        'd'
    } else if c == 'E' {
        'e'
    } else if c == 'F' {
        'f'
    } else if c == 'G' {
        'g'
    } else if c == 'H' {
        'h'
    } else if c == 'I' {
        'i'
    } else if c == 'J' {
        'j'
    } else if c == 'K' {
        'k'
    } else if c == 'L' {
        'l'
    } else if c == 'M' {
        'm'
    } else if c == 'N' {
        'n'
    } else if c == 'O' {
        'o'
    } else if c == 'P' {
        'p'
    } else if c == 'Q' {
        'q'
    } else if c == 'R' {
        'r'
    } else if c == 'S' {
        's'
    } else if c == 'T' {
        't'
    } else if c == 'U' {
        'u'
    } else if c == 'V' {
        'v'
    } else if c == 'W' {
        'w'
    } else if c == 'X' {
        'x'
    } else if c == 'Y' {
        'y'
    } else if c == 'Z' {
        'z'
    } else {
        c
    }
}

/// ASCII lower-casing of a whole string.
pub open spec fn spec_lower(s: Seq<char>) -> Seq<char> {
    Seq::new(s.len(), |i: int| lower_char(s[i]))
}

/// How many occurrences of `c` the string holds.
pub open spec fn count_char(s: Seq<char>, c: char) -> nat
    decreases s.len(),
{
    if s.len() == 0 {
        0nat
    } else {
        count_char(s.drop_last(), c) + if s.last() == c {
            1nat
        } else {
            0nat
        }
    }
}

/// The index of the first occurrence of `c`, or the length when absent.
pub open spec fn find_char(s: Seq<char>, c: char) -> int
    decreases s.len(),
{
    if s.len() == 0 {
        0
    } else if s[0] == c {
        0
    } else {
        1 + find_char(s.subrange(1, s.len() as int), c)
    }
}

/// A string holds no occurrence of `c` exactly when its count is zero.
pub proof fn lemma_count_char_zero(s: Seq<char>, c: char)
    ensures
        (count_char(s, c) == 0) <==> (forall|i: int| 0 <= i < s.len() ==> s[i] != c),
    decreases s.len(),
{
    if s.len() > 0 {
        lemma_count_char_zero(s.drop_last(), c);
        if count_char(s, c) == 0 {
            assert forall|i: int| 0 <= i < s.len() implies s[i] != c by {
                if i < s.len() - 1 {
                    assert(s[i] == s.drop_last()[i]);
                } else {
                    assert(s[i] == s.last());
                }
            }
        } else {
            if s.last() == c {
                assert(s[s.len() - 1] == c);
            } else {
                let i = choose|i: int| 0 <= i < s.drop_last().len() && s.drop_last()[i] == c;
                assert(s[i] == c);
            }
        }
    }
}

/// If `c` stands at `j` and nowhere earlier, then `j` is where the first
/// occurrence is found.
pub proof fn lemma_find_char_at(s: Seq<char>, c: char, j: int)
    requires
        0 <= j < s.len(),
        s[j] == c,
        count_char(s.subrange(0, j), c) == 0,
    ensures
        find_char(s, c) == j,
    decreases j,
{
    lemma_count_char_zero(s.subrange(0, j), c);
    if j == 0 {
    } else {
        assert(s[0] == s.subrange(0, j)[0]);
        let t = s.subrange(1, s.len() as int);
        assert(t[j - 1] == c);
        assert(t.subrange(0, j - 1) =~= s.subrange(1, j));
        lemma_count_char_zero(s.subrange(1, j), c);
        assert(forall|i: int| 0 <= i < j - 1 ==> s.subrange(1, j)[i] == s.subrange(0, j)[i + 1]);
        lemma_find_char_at(t, c, j - 1);
    }
}

/// What splitting one raw `name:value` header yields: the string must hold
/// exactly one colon, the part before it must be a valid header name and
/// the part after it a valid header value; the first offence decides the
/// error.
pub open spec fn spec_split_header(s: Seq<char>) -> Result<(Seq<char>, Seq<char>), ErrorType> {
    if count_char(s, ':') != 1 {
        Err(ErrorType::InvalidHeaderStructure)
    } else {
        let i = find_char(s, ':');
        if !valid_header_name(s.subrange(0, i)) {
            Err(ErrorType::InvalidHeaderName)
        } else if !valid_header_value(s.subrange(i + 1, s.len() as int)) {
            Err(ErrorType::InvalidHeaderValue)
        } else {
            Ok((s.subrange(0, i), s.subrange(i + 1, s.len() as int)))
        }
    }
}

/// What parsing the raw headers from position `i` on yields: the split
/// name/value pairs in order, or the first header's error.
pub open spec fn spec_parse_headers_from(hs: Seq<Seq<char>>, i: int) -> Result<
    Seq<(Seq<char>, Seq<char>)>,
    ErrorType,
>
    decreases hs.len() - i,
{
    if i < 0 || i >= hs.len() {
        Ok(Seq::empty())
    } else {
        match spec_split_header(hs[i]) {
            Err(e) => Err(e),
            Ok(p) => match spec_parse_headers_from(hs, i + 1) {
                Err(e) => Err(e),
                Ok(rest) => Ok(seq![p] + rest),
            },
        }
    }
}

/// What parsing a whole list of raw `name:value` headers yields.
pub open spec fn spec_parse_headers(hs: Seq<Seq<char>>) -> Result<
    Seq<(Seq<char>, Seq<char>)>,
    ErrorType,
> {
    spec_parse_headers_from(hs, 0)
}

/// The views of a list of split header pairs.
pub open spec fn spec_pairs_view(pairs: Seq<(String, String)>) -> Seq<(Seq<char>, Seq<char>)> {
    pairs.map_values(|p: (String, String)| (p.0@, p.1@))
}

/// The views of a list of raw header strings.
pub open spec fn spec_headers_view(headers: Seq<String>) -> Seq<Seq<char>> {
    headers.map_values(|h: String| h@)
}

/// The validity offence of one already-split header pair, if any: a name
/// the `http` grammar rejects, else a value it rejects.
pub open spec fn spec_header_pair_error(name: Seq<char>, value: Seq<char>) -> Option<ErrorType> {
    if !valid_header_name(name) {
        Some(ErrorType::InvalidHeaderName)
    } else if !valid_header_value(value) {
        Some(ErrorType::InvalidHeaderValue)
    } else {
        None
    }
}

/// The first validity offence among already-split header pairs from
/// position `i` on, if any.
pub open spec fn spec_headers_error_from(hs: Seq<(Seq<char>, Seq<char>)>, i: int) -> Option<
    ErrorType,
>
    decreases hs.len() - i,
{
    if i < 0 || i >= hs.len() {
        None
    } else {
        match spec_header_pair_error(hs[i].0, hs[i].1) {
            Some(e) => Some(e),
            None => spec_headers_error_from(hs, i + 1),
        }
    }
}

/// The first validity offence among already-split header pairs, if any.
pub open spec fn spec_headers_error(hs: Seq<(Seq<char>, Seq<char>)>) -> Option<ErrorType> {
    spec_headers_error_from(hs, 0)
}

/// Every pair that successful parsing yields carries a valid name and a
/// valid value.
proof fn lemma_parsed_pairs_have_no_offence(hs: Seq<Seq<char>>, i: int)
    requires
        0 <= i,
        spec_parse_headers_from(hs, i) is Ok,
    ensures
        forall|j: int|
            0 <= j < spec_parse_headers_from(hs, i)->Ok_0.len()
                ==> #[trigger] spec_header_pair_error(
                spec_parse_headers_from(hs, i)->Ok_0[j].0,
                spec_parse_headers_from(hs, i)->Ok_0[j].1,
            ) is None,
    decreases hs.len() - i,
{
    if i < hs.len() {
        lemma_parsed_pairs_have_no_offence(hs, i + 1);
        let p = spec_split_header(hs[i])->Ok_0;
        let rest = spec_parse_headers_from(hs, i + 1)->Ok_0;
        let all = spec_parse_headers_from(hs, i)->Ok_0;
        assert(all == seq![p] + rest);
        assert forall|j: int|
            0 <= j < all.len() implies #[trigger] spec_header_pair_error(
            all[j].0,
            all[j].1,
        ) is None by {
            if j == 0 {
                assert(all[0] == p);
            } else {
                assert(all[j] == rest[j - 1]);
            }
        }
    }
}

/// Pairs without a validity offence raise no header error.
proof fn lemma_no_offence_means_no_error(ps: Seq<(Seq<char>, Seq<char>)>, i: int)
    requires
        0 <= i <= ps.len(),
        forall|j: int|
            i <= j < ps.len() ==> #[trigger] spec_header_pair_error(ps[j].0, ps[j].1) is None,
    ensures
        spec_headers_error_from(ps, i) is None,
    decreases ps.len() - i,
{
    if i < ps.len() {
        lemma_no_offence_means_no_error(ps, i + 1);
    }
}

/// Headers that parsed successfully are past validation for good: no
/// validity offence is left among the returned pairs, so building a client
/// from them can never fail for a header reason.
pub proof fn lemma_parsed_headers_are_valid(hs: Seq<Seq<char>>)
    requires
        spec_parse_headers(hs) is Ok,
    ensures
        spec_headers_error(spec_parse_headers(hs)->Ok_0) is None,
{
    lemma_parsed_pairs_have_no_offence(hs, 0);
    lemma_no_offence_means_no_error(spec_parse_headers(hs)->Ok_0, 0);
}

/// Split one raw `name:value` header at its colon and validate both parts.
fn split_header(header: &str) -> (r: Result<(String, String), ErrorType>)
    ensures
        match r {
            Ok(p) => spec_split_header(header@) == Ok::<_, ErrorType>((p.0@, p.1@)),
            Err(e) => spec_split_header(header@) == Err::<(Seq<char>, Seq<char>), _>(e),
        },
{
    let n = header.unicode_len();
    let mut colons: usize = 0;
    let mut first: usize = 0;
    let mut have: bool = false;
    let mut j: usize = 0;
    while j < n
        invariant
            j <= n,
            n == header@.len(),
            colons == count_char(header@.subrange(0, j as int), ':'),
            colons <= j,
            !have ==> colons == 0,
            have ==> first < j && header@[first as int] == ':' && count_char(
                header@.subrange(0, first as int),
                ':',
            ) == 0,
        decreases n - j,
    {
        proof {
            assert(header@.subrange(0, j + 1 as int).drop_last() =~= header@.subrange(0, j as int));
            assert(header@.subrange(0, j + 1 as int).last() == header@[j as int]);
        }
        if header.get_char(j) == ':' {
            if !have {
                first = j;
                have = true;
            }
            colons = colons + 1;
        }
        j = j + 1;
    }
    proof {
        assert(header@.subrange(0, n as int) =~= header@);
    }
    if colons != 1 {
        return Err(ErrorType::InvalidHeaderStructure);
    }
    proof {
        lemma_find_char_at(header@, ':', first as int);
    }
    let name = header.substring_char(0, first);
    let value = header.substring_char(first + 1, n);
    if !is_valid_header_name(name) {
        return Err(ErrorType::InvalidHeaderName);
    }
    if !is_valid_header_value(value) {
        return Err(ErrorType::InvalidHeaderValue);
    }
    Ok((name.to_owned(), value.to_owned()))
}

/// Parse a list of raw `name:value` headers into validated name/value
/// pairs, in order; the first bad header decides the error. A header must
/// hold exactly one colon (`InvalidHeaderStructure`), a name the `http`
/// grammar accepts (`InvalidHeaderName`) and a value it accepts
/// (`InvalidHeaderValue`).
pub fn parse_headers(headers: Vec<String>) -> (r: AppResult<Option<Vec<(String, String)>>>)
    ensures
        match r {
            Ok(opt) => opt matches Some(pairs) && spec_parse_headers(spec_headers_view(headers@))
                == Ok::<_, ErrorType>(spec_pairs_view(pairs@)),
            Err(e) => spec_parse_headers(spec_headers_view(headers@)) == Err::<
                Seq<(Seq<char>, Seq<char>)>,
                _,
            >(e),
        },
{
    let ghost v = spec_headers_view(headers@);
    let n = headers.len();
    let mut out: Vec<(String, String)> = Vec::new();
    let mut k: usize = 0;
    while k < n
        invariant
            k <= n,
            n == headers@.len(),
            v == spec_headers_view(headers@),
            match spec_parse_headers_from(v, k as int) {
                Ok(rest) => spec_parse_headers_from(v, 0) == Ok::<_, ErrorType>(
                    spec_pairs_view(out@) + rest,
                ),
                Err(e) => spec_parse_headers_from(v, 0) == Err::<
                    Seq<(Seq<char>, Seq<char>)>,
                    _,
                >(e),
            },
        decreases n - k,
    {
        proof {
            assert(v[k as int] == headers@[k as int]@);
        }
        match split_header(headers[k].as_str()) {
            Ok(pair) => {
                let ghost pv = (pair.0@, pair.1@);
                let ghost out_before = out@;
                out.push(pair);
                proof {
                    assert(spec_pairs_view(out@) =~= spec_pairs_view(out_before) + seq![pv]);
                    if spec_parse_headers_from(v, k + 1) is Ok {
                        let rest = spec_parse_headers_from(v, k + 1)->Ok_0;
                        assert((spec_pairs_view(out_before) + seq![pv]) + rest =~= spec_pairs_view(
                            out_before,
                        ) + (seq![pv] + rest));
                    }
                }
            },
            Err(e) => {
                return Err(e);
            },
        }
        k = k + 1;
    }
    proof {
        assert(spec_parse_headers_from(v, n as int) == Ok::<Seq<(Seq<char>, Seq<char>)>, ErrorType>(
            Seq::empty(),
        ));
        assert(spec_pairs_view(out@) + Seq::<(Seq<char>, Seq<char>)>::empty() =~= spec_pairs_view(
            out@,
        ));
    }
    Ok(Some(out))
}

} // verus!
