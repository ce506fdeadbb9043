//! Finding the web links in the text of a message.
use vstd::prelude::*;

use crate::enrich::parse_url;
use crate::text::{chars_of, find_in, is_whitespace, str_eq, string_of_range};

verus! {

/// A character that ends a link: white space, angle brackets, quotes, and
/// full-width punctuation.
pub open spec fn is_url_delimiter(c: char) -> bool {
    ||| crate::text::is_ws(c)
    ||| c == '<'
    ||| c == '>'
    ||| c == '"'
    ||| c == '\''
    ||| c == '\u{201c}'
    ||| c == '\u{201d}'
    ||| c == '\u{2018}'
    ||| c == '\u{2019}'
    ||| c == '\u{ff0c}'
    ||| c == '\u{3002}'
    ||| c == '\u{ff1b}'
    ||| c == '\u{ff1a}'
    ||| c == '\u{ff01}'
    ||| c == '\u{ff1f}'
    ||| c == '\u{3001}'
}

/// Punctuation trimmed from both ends of a link candidate.
pub open spec fn is_url_trim_char(c: char) -> bool {
    ||| c == '.'
    ||| c == ','
    ||| c == ';'
    ||| c == ':'
    ||| c == '!'
    ||| c == '?'
    ||| c == ')'
    ||| c == ']'
    ||| c == '}'
    ||| c == '\u{ff0c}'
    ||| c == '\u{3002}'
    ||| c == '\u{ff1b}'
    ||| c == '\u{ff1a}'
    ||| c == '\u{ff01}'
    ||| c == '\u{ff1f}'
    ||| c == '\u{ff09}'
    ||| c == '\u{3011}'
    ||| c == '\u{300b}'
    ||| c == '\u{3001}'
}

/// The text without leading trim punctuation.
pub open spec fn trim_start_punct(s: Seq<char>) -> Seq<char>
    decreases s.len(),
{
    if s.len() > 0 && is_url_trim_char(s[0]) {
        trim_start_punct(s.drop_first())
    } else {
        s
    }
}

/// The text without trailing trim punctuation.
pub open spec fn trim_end_punct(s: Seq<char>) -> Seq<char>
    decreases s.len(),
{
    if s.len() > 0 && is_url_trim_char(s.last()) {
        trim_end_punct(s.drop_last())
    } else {
        s
    }
}

/// A link candidate without punctuation at either end.
pub open spec fn trim_url_spec(s: Seq<char>) -> Seq<char> {
    trim_end_punct(trim_start_punct(s))
}

/// Whether the url crate reads a text as an `http` or `https` URL with a host.
pub open spec fn is_http_url_spec(s: Seq<char>) -> bool {
    match crate::enrich::url_parse_spec(s) {
        Ok((_, scheme, host)) => (scheme == "http"@ || scheme == "https"@) && host is Some,
        Err(_) => false,
    }
}

/// The earlier of two positions, either of which may be missing.
pub open spec fn earliest(a: Option<int>, b: Option<int>) -> Option<int> {
    match (a, b) {
        (Some(x), Some(y)) => Some(if x <= y {
            x
        } else {
            y
        }),
        (Some(x), None) => Some(x),
        (None, y) => y,
    }
}

/// Where the next link begins at or after `from`: the first `https://` or
/// `http://`.
pub open spec fn next_url_start(t: Seq<char>, from: int) -> Option<int> {
    earliest(crate::text::find_from(t, "https://"@, from), crate::text::find_from(t, "http://"@, from))
}

/// Where a link that begins at `start` ends: at the first delimiter, or at
/// the end of the text.
pub open spec fn url_end(t: Seq<char>, start: int) -> int
    decreases t.len() - start,
{
    if start >= t.len() {
        t.len() as int
    } else if is_url_delimiter(t[start]) {
        start
    } else {
        url_end(t, start + 1)
    }
}

/// A link ends at or after its start, within the text.
pub proof fn lemma_url_end_bounds(t: Seq<char>, start: int)
    requires
        0 <= start <= t.len(),
    ensures
        start <= url_end(t, start) <= t.len(),
    decreases t.len() - start,
{
    if start < t.len() && !is_url_delimiter(t[start]) {
        lemma_url_end_bounds(t, start + 1);
    }
}

/// The links found from `offset` on, added to `acc`: each candidate runs
/// from a link start to the next delimiter, is trimmed of punctuation, and is
/// kept when it is an http(s) URL with a host not found before.
pub open spec fn urls_from(t: Seq<char>, offset: int, acc: Seq<Seq<char>>) -> Seq<Seq<char>>
    decreases t.len() - offset,
{
    if offset < 0 || offset >= t.len() {
        acc
    } else {
        match next_url_start(t, offset) {
            None => acc,
            Some(start) => if start < offset || start >= t.len() {
                acc
            } else {
                let end = url_end(t, start);
                proof {
                    lemma_url_end_bounds(t, start);
                }
                let candidate = trim_url_spec(t.subrange(start, end));
                let next_acc = if is_http_url_spec(candidate) && !acc.contains(candidate) {
                    acc.push(candidate)
                } else {
                    acc
                };
                urls_from(t, if end > start { end } else { start + 1 }, next_acc)
            },
        }
    }
}

/// The http(s) links of a text, in order of first appearance, each once.
pub open spec fn extract_urls_spec(t: Seq<char>) -> Seq<Seq<char>> {
    urls_from(t, 0, Seq::empty())
}

/// Every link is an http(s) URL and no link occurs twice.
pub open spec fn distinct_http_urls(urls: Seq<Seq<char>>) -> bool {
    &&& forall|i: int| 0 <= i < urls.len() ==> #[trigger] is_http_url_spec(urls[i])
    &&& forall|i: int, j: int| 0 <= i < j < urls.len() ==> #[trigger] urls[i] != #[trigger] urls[j]
}

proof fn lemma_urls_from_distinct_http(t: Seq<char>, offset: int, acc: Seq<Seq<char>>)
    requires
        distinct_http_urls(acc),
    ensures
        distinct_http_urls(urls_from(t, offset, acc)),
    decreases t.len() - offset,
{
    if offset >= 0 && offset < t.len() {
        match next_url_start(t, offset) {
            None => {},
            Some(start) => {
                if start >= offset && start < t.len() {
                    let end = url_end(t, start);
                    lemma_url_end_bounds(t, start);
                    let candidate = trim_url_spec(t.subrange(start, end));
                    if is_http_url_spec(candidate) && !acc.contains(candidate) {
                        let next = acc.push(candidate);
                        assert forall|i: int, j: int| 0 <= i < j < next.len() implies #[trigger] next[i]
                            != #[trigger] next[j] by {
                            if j == acc.len() {
                                assert(acc[i] == next[i]);
                                if acc[i] == candidate {
                                    assert(acc.contains(candidate));
                                }
                            }
                        }
                        assert forall|i: int| 0 <= i < next.len() implies #[trigger] is_http_url_spec(next[i]) by {
                            if i < acc.len() {
                                assert(next[i] == acc[i]);
                            }
                        }
                        lemma_urls_from_distinct_http(t, if end > start { end } else { start + 1 }, next);
                    } else {
                        lemma_urls_from_distinct_http(t, if end > start { end } else { start + 1 }, acc);
                    }
                }
            },
        }
    }
}

/// The links found in a text are http(s) URLs, each listed once.
pub proof fn lemma_extracted_urls_are_distinct_http(text: Seq<char>)
    ensures
        distinct_http_urls(extract_urls_spec(text)),
{
    lemma_urls_from_distinct_http(text, 0, Seq::empty());
}

/// Whether a character ends a link.
pub fn url_delimiter(c: char) -> (r: bool)
    ensures
        r == is_url_delimiter(c),
{
    is_whitespace(c) || c == '<' || c == '>' || c == '"' || c == '\'' || c == '\u{201c}' || c
        == '\u{201d}' || c == '\u{2018}' || c == '\u{2019}' || c == '\u{ff0c}' || c == '\u{3002}'
        || c == '\u{ff1b}' || c == '\u{ff1a}' || c == '\u{ff01}' || c == '\u{ff1f}' || c
        == '\u{3001}'
}

fn url_trim_char(c: char) -> (r: bool)
    ensures
        r == is_url_trim_char(c),
{
    c == '.' || c == ',' || c == ';' || c == ':' || c == '!' || c == '?' || c == ')' || c == ']'
        || c == '}' || c == '\u{ff0c}' || c == '\u{3002}' || c == '\u{ff1b}' || c == '\u{ff1a}'
        || c == '\u{ff01}' || c == '\u{ff1f}' || c == '\u{ff09}' || c == '\u{3011}' || c
        == '\u{300b}' || c == '\u{3001}'
}

/// A link candidate without punctuation at either end.
pub fn trim_url_token(value: &Vec<char>, from: usize, to: usize) -> (r: String)
    requires
        from <= to <= value.len(),
    ensures
        r@ == trim_url_spec(value@.subrange(from as int, to as int)),
{
    let ghost s = value@.subrange(from as int, to as int);
    let mut a: usize = from;
    proof {
        reveal_strlit("https://");
        reveal_strlit("http://");
    }
    assert(value@.subrange(a as int, to as int) == s);
    while a < to && url_trim_char(value[a])
        invariant
            from <= a <= to <= value.len(),
            s == value@.subrange(from as int, to as int),
            trim_start_punct(s) == trim_start_punct(value@.subrange(a as int, to as int)),
        decreases to - a,
    {
        assert(value@.subrange(a as int, to as int).drop_first() == value@.subrange(a + 1, to as int));
        a += 1;
    }
    let ghost ts = value@.subrange(a as int, to as int);
    assert(trim_start_punct(ts) == ts);
    let mut b: usize = to;
    assert(value@.subrange(a as int, b as int) == ts);
    while b > a && url_trim_char(value[b - 1])
        invariant
            a <= b <= to <= value.len(),
            trim_end_punct(ts) == trim_end_punct(value@.subrange(a as int, b as int)),
        decreases b,
    {
        assert(value@.subrange(a as int, b as int).drop_last() == value@.subrange(a as int, b - 1));
        b -= 1;
    }
    string_of_range(value, a, b)
}

/// Whether the url crate reads a text as an http(s) URL with a host.
pub fn is_http_url(value: &str) -> (r: bool)
    ensures
        r == is_http_url_spec(value@),
{
    match parse_url(value) {
        Ok(p) => (str_eq(p.scheme.as_str(), "http") || str_eq(p.scheme.as_str(), "https"))
            && p.host.is_some(),
        Err(_) => false,
    }
}

/// Where the next link begins at or after `from`.
pub fn find_next_url_start(t: &Vec<char>, from: usize) -> (r: Option<usize>)
    requires
        from <= t.len(),
    ensures
        match r {
            Some(i) => next_url_start(t@, from as int) == Some(i as int) && from <= i <= t.len(),
            None => next_url_start(t@, from as int) is None,
        },
{
    let https = chars_of("https://");
    let http = chars_of("http://");
    match (find_in(t, &https, from), find_in(t, &http, from)) {
        (Some(a), Some(b)) => Some(if a <= b {
            a
        } else {
            b
        }),
        (Some(a), None) => Some(a),
        (None, Some(b)) => Some(b),
        (None, None) => None,
    }
}

fn contains_string(v: &Vec<String>, s: &str) -> (r: bool)
    ensures
        r == crate::config::app::strings_view(v@).contains(s@),
{
    let ghost sv = crate::config::app::strings_view(v@);
    let mut i: usize = 0;
    while i < v.len()
        invariant
            i <= v.len(),
            sv == crate::config::app::strings_view(v@),
            forall|j: int| 0 <= j < i ==> sv[j] != s@,
        decreases v.len() - i,
    {
        if str_eq(v[i].as_str(), s) {
            assert(sv[i as int] == s@);
            return true;
        }
        i += 1;
    }
    false
}

/// The http(s) links of a text (see `extract_urls_spec`).
pub fn extract_http_urls(text: &str) -> (r: Vec<String>)
    ensures
        crate::config::app::strings_view(r@) == extract_urls_spec(text@),
{
    let t = chars_of(text);
    let mut urls: Vec<String> = Vec::new();
    let mut offset: usize = 0;
    assert(crate::config::app::strings_view(urls@) =~= Seq::<Seq<char>>::empty());
    while offset < t.len()
        invariant
            t@ == text@,
            offset <= t.len(),
            extract_urls_spec(t@) == urls_from(t@, offset as int, crate::config::app::strings_view(urls@)),
        ensures
            extract_urls_spec(t@) == crate::config::app::strings_view(urls@),
        decreases t.len() - offset,
    {
        let start = match find_next_url_start(&t, offset) {
            Some(s) => s,
            None => break,
        };
        if start >= t.len() {
            break;
        }
        let mut end: usize = start;
        while end < t.len() && !url_delimiter(t[end])
            invariant
                start <= end <= t.len(),
                url_end(t@, start as int) == url_end(t@, end as int),
            decreases t.len() - end,
        {
            end += 1;
        }
        assert(url_end(t@, end as int) == end);
        proof {
            lemma_url_end_bounds(t@, start as int);
        }
        let candidate = trim_url_token(&t, start, end);
        let ghost before = crate::config::app::strings_view(urls@);
        if is_http_url(candidate.as_str()) && !contains_string(&urls, candidate.as_str()) {
            urls.push(candidate);
            assert(crate::config::app::strings_view(urls@) =~= before.push(candidate@));
        }
        offset = if end > start {
            end
        } else {
            start + 1
        };
    }
    urls
}

/// No character of `s` ends a link.
spec fn free_of_delimiters(s: Seq<char>) -> bool {
    forall|j: int| 0 <= j < s.len() ==> !is_url_delimiter(#[trigger] s[j])
}

proof fn lemma_trim_url_keeps_free(s: Seq<char>)
    requires
        free_of_delimiters(s),
    ensures
        free_of_delimiters(trim_start_punct(s)),
        free_of_delimiters(trim_url_spec(s)),
    decreases s.len(),
{
    if s.len() > 0 {
        let a = s.drop_first();
        assert forall|j: int| 0 <= j < a.len() implies !is_url_delimiter(#[trigger] a[j]) by {
            assert(a[j] == s[j + 1]);
        }
        lemma_trim_url_keeps_free(a);
    }
    lemma_trim_url_keeps_free_end(trim_start_punct(s));
}

proof fn lemma_trim_url_keeps_free_end(s: Seq<char>)
    requires
        free_of_delimiters(s),
    ensures
        free_of_delimiters(trim_end_punct(s)),
    decreases s.len(),
{
    if s.len() > 0 {
        let b = s.drop_last();
        assert forall|j: int| 0 <= j < b.len() implies !is_url_delimiter(#[trigger] b[j]) by {
            assert(b[j] == s[j]);
        }
        lemma_trim_url_keeps_free_end(b);
    }
}

proof fn lemma_url_end_free(t: Seq<char>, start: int)
    requires
        0 <= start <= t.len(),
    ensures
        free_of_delimiters(t.subrange(start, url_end(t, start))),
    decreases t.len() - start,
{
    lemma_url_end_bounds(t, start);
    let e = url_end(t, start);
    if start < t.len() && !is_url_delimiter(t[start]) {
        lemma_url_end_free(t, start + 1);
        let r = t.subrange(start + 1, e);
        assert forall|j: int| 0 <= j < e - start implies !is_url_delimiter(#[trigger] t.subrange(start, e)[j]) by {
            if j > 0 {
                assert(t.subrange(start, e)[j] == r[j - 1]);
            }
        }
    }
}

proof fn lemma_urls_from_free(t: Seq<char>, offset: int, acc: Seq<Seq<char>>)
    requires
        forall|i: int| 0 <= i < acc.len() ==> free_of_delimiters(#[trigger] acc[i]),
    ensures
        forall|i: int|
            0 <= i < urls_from(t, offset, acc).len() ==> free_of_delimiters(#[trigger] urls_from(t, offset, acc)[i]),
    decreases t.len() - offset,
{
    if offset >= 0 && offset < t.len() {
        match next_url_start(t, offset) {
            None => {},
            Some(start) => {
                if start >= offset && start < t.len() {
                    let end = url_end(t, start);
                    lemma_url_end_bounds(t, start);
                    lemma_url_end_free(t, start);
                    let candidate = trim_url_spec(t.subrange(start, end));
                    lemma_trim_url_keeps_free(t.subrange(start, end));
                    if is_http_url_spec(candidate) && !acc.contains(candidate) {
                        let next = acc.push(candidate);
                        assert forall|i: int| 0 <= i < next.len() implies free_of_delimiters(#[trigger] next[i]) by {
                            if i < acc.len() {
                                assert(next[i] == acc[i]);
                            }
                        }
                        assert(urls_from(t, offset, acc) == urls_from(t, if end > start { end } else { start + 1 }, next));
                        lemma_urls_from_free(t, if end > start { end } else { start + 1 }, next);
                    } else {
                        assert(urls_from(t, offset, acc) == urls_from(t, if end > start { end } else { start + 1 }, acc));
                        lemma_urls_from_free(t, if end > start { end } else { start + 1 }, acc);
                    }
                }
            },
        }
    }
}

/// A link found in a text never runs past a delimiter: it holds no white
/// space, no angle bracket, no straight or curly quote, and none of the
/// full-width marks `，。；：！？、`.
pub proof fn lemma_links_hold_no_delimiter(text: Seq<char>)
    ensures
        forall|i: int, j: int|
            0 <= i < extract_urls_spec(text).len() && 0 <= j < extract_urls_spec(text)[i].len() ==> {
                let c = #[trigger] extract_urls_spec(text)[i][j];
                &&& !crate::text::is_ws(c)
                &&& c != ' ' && c != '\t' && c != '\n' && c != '\r'
                &&& c != '<' && c != '>'
                &&& c != '"' && c != '\'' && c != '\u{201c}' && c != '\u{201d}' && c != '\u{2018}'
                    && c != '\u{2019}'
                &&& c != '\u{ff0c}' && c != '\u{3002}' && c != '\u{ff1b}' && c != '\u{ff1a}' && c != '\u{ff01}'
                    && c != '\u{ff1f}' && c != '\u{3001}'
            },
{
    lemma_urls_from_free(text, 0, Seq::empty());
    assert forall|i: int, j: int|
        0 <= i < extract_urls_spec(text).len() && 0 <= j < extract_urls_spec(text)[i].len() implies !is_url_delimiter(
        #[trigger] extract_urls_spec(text)[i][j],
    ) by {
        assert(free_of_delimiters(extract_urls_spec(text)[i]));
    }
}

/// A link candidate that begins with a link start and ends with no trim
/// punctuation.
spec fn link_shaped(s: Seq<char>) -> bool {
    &&& crate::text::starts_with_spec(s, "http://"@) || crate::text::starts_with_spec(s, "https://"@)
    &&& s.len() > 0
    &&& !is_url_trim_char(s.last())
}

proof fn lemma_trim_end_punct_keeps(s: Seq<char>, n: int)
    requires
        0 < n <= s.len(),
        !is_url_trim_char(s[n - 1]),
    ensures
        n <= trim_end_punct(s).len() <= s.len(),
        trim_end_punct(s) == s.take(trim_end_punct(s).len() as int),
        !is_url_trim_char(trim_end_punct(s).last()),
    decreases s.len(),
{
    if is_url_trim_char(s.last()) {
        assert(s.drop_last()[n - 1] == s[n - 1]);
        lemma_trim_end_punct_keeps(s.drop_last(), n);
        let k = trim_end_punct(s).len() as int;
        assert(s.drop_last().take(k) =~= s.take(k));
    } else {
        assert(s.take(s.len() as int) =~= s);
    }
}

proof fn lemma_url_end_past(t: Seq<char>, start: int, n: int)
    requires
        0 <= start,
        0 <= n,
        start + n <= t.len(),
        forall|k: int| start <= k < start + n ==> !is_url_delimiter(#[trigger] t[k]),
    ensures
        url_end(t, start) >= start + n,
    decreases t.len() - start,
{
    if n > 0 {
        lemma_url_end_past(t, start + 1, n - 1);
    } else {
        lemma_url_end_bounds(t, start);
    }
}

/// A candidate cut at a link start is link shaped once trimmed.
proof fn lemma_candidate_shaped(t: Seq<char>, start: int, pat: Seq<char>)
    requires
        pat == "http://"@ || pat == "https://"@,
        crate::text::occurs_at(t, pat, start),
    ensures
        link_shaped(trim_url_spec(t.subrange(start, url_end(t, start)))),
{
    reveal_strlit("http://");
    reveal_strlit("https://");
    let n = pat.len() as int;
    assert forall|k: int| start <= k < start + n implies !is_url_delimiter(#[trigger] t[k]) by {
        assert(t[k] == t.subrange(start, start + n)[k - start]);
    }
    lemma_url_end_past(t, start, n);
    let end = url_end(t, start);
    lemma_url_end_bounds(t, start);
    let c = t.subrange(start, end);
    assert(c[0] == t.subrange(start, start + n)[0]);
    assert(c[0] == 'h');
    assert(trim_start_punct(c) == c);
    assert(c[n - 1] == t.subrange(start, start + n)[n - 1]);
    assert(c[n - 1] == '/');
    lemma_trim_end_punct_keeps(c, n);
    let r = trim_end_punct(c);
    assert(r.take(n) =~= c.take(n));
    assert(c.take(n) =~= t.subrange(start, start + n));
}

proof fn lemma_urls_from_shaped(t: Seq<char>, offset: int, acc: Seq<Seq<char>>)
    requires
        forall|i: int| 0 <= i < acc.len() ==> link_shaped(#[trigger] acc[i]),
    ensures
        forall|i: int|
            0 <= i < urls_from(t, offset, acc).len() ==> link_shaped(#[trigger] urls_from(t, offset, acc)[i]),
    decreases t.len() - offset,
{
    if offset >= 0 && offset < t.len() {
        match next_url_start(t, offset) {
            None => {},
            Some(start) => {
                if start >= offset && start < t.len() {
                    let end = url_end(t, start);
                    lemma_url_end_bounds(t, start);
                    crate::text::lemma_find_from_some(t, "https://"@, offset);
                    crate::text::lemma_find_from_some(t, "http://"@, offset);
                    if crate::text::find_from(t, "https://"@, offset) == Some(start) {
                        lemma_candidate_shaped(t, start, "https://"@);
                    } else {
                        lemma_candidate_shaped(t, start, "http://"@);
                    }
                    let candidate = trim_url_spec(t.subrange(start, end));
                    let next_off = if end > start { end } else { start + 1 };
                    if is_http_url_spec(candidate) && !acc.contains(candidate) {
                        let next = acc.push(candidate);
                        assert forall|i: int| 0 <= i < next.len() implies link_shaped(#[trigger] next[i]) by {
                            if i < acc.len() {
                                assert(next[i] == acc[i]);
                            }
                        }
                        assert(urls_from(t, offset, acc) == urls_from(t, next_off, next));
                        lemma_urls_from_shaped(t, next_off, next);
                    } else {
                        assert(urls_from(t, offset, acc) == urls_from(t, next_off, acc));
                        lemma_urls_from_shaped(t, next_off, acc);
                    }
                }
            },
        }
    }
}

/// Every link found in a text begins with `http://` or `https://` and does
/// not end in trailing punctuation: `.`, `,`, `;`, `:`, `!`, `?`, a closing
/// bracket, or a full-width mark `，。；：！？）】》、`.
pub proof fn lemma_links_start_and_end_cleanly(text: Seq<char>)
    ensures
        forall|i: int|
            0 <= i < extract_urls_spec(text).len() ==> {
                let u = #[trigger] extract_urls_spec(text)[i];
                let c = u.last();
                &&& crate::text::starts_with_spec(u, "http://"@) || crate::text::starts_with_spec(u, "https://"@)
                &&& c != '.' && c != ',' && c != ';' && c != ':' && c != '!' && c != '?'
                &&& c != ')' && c != ']' && c != '}'
                &&& c != '\u{ff0c}' && c != '\u{3002}' && c != '\u{ff1b}' && c != '\u{ff1a}' && c != '\u{ff01}'
                    && c != '\u{ff1f}' && c != '\u{ff09}' && c != '\u{3011}' && c != '\u{300b}' && c != '\u{3001}'
            },
{
    lemma_urls_from_shaped(text, 0, Seq::empty());
    assert forall|i: int| 0 <= i < extract_urls_spec(text).len() implies link_shaped(
        #[trigger] extract_urls_spec(text)[i],
    ) by {}
}

} // verus!
