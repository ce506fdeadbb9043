//! Character-level string operations with their mathematical meaning.
//!
//! Every string of the library is viewed as a `Seq<char>`; the functions here
//! are the building blocks that the rest of the crate uses to scan, trim,
//! escape and render text.
use vstd::prelude::*;
use vstd::string::StringExecFns;

verus! {

// ---------------------------------------------------------------------------
// Specifications
// ---------------------------------------------------------------------------

/// Unicode `White_Space`, the set that `char::is_whitespace` tests.
pub open spec fn is_ws(c: char) -> bool {
    let u: u32 = c as u32;
    ||| 9 <= u <= 13
    ||| u == 32
    ||| u == 0x85
    ||| u == 0xa0
    ||| u == 0x1680
    ||| 0x2000 <= u <= 0x200a
    ||| u == 0x2028
    ||| u == 0x2029
    ||| u == 0x202f
    ||| u == 0x205f
    ||| u == 0x3000
}

/// The string without its leading white space.
pub open spec fn trim_start_spec(s: Seq<char>) -> Seq<char>
    decreases s.len(),
{
    if s.len() > 0 && is_ws(s[0]) {
        trim_start_spec(s.drop_first())
    } else {
        s
    }
}

/// The string without its trailing white space.
pub open spec fn trim_end_spec(s: Seq<char>) -> Seq<char>
    decreases s.len(),
{
    if s.len() > 0 && is_ws(s.last()) {
        trim_end_spec(s.drop_last())
    } else {
        s
    }
}

/// The string without leading and trailing white space.
pub open spec fn trim_spec(s: Seq<char>) -> Seq<char> {
    trim_end_spec(trim_start_spec(s))
}

/// The string without its trailing `'\n'` characters.
pub open spec fn trim_newlines_end_spec(s: Seq<char>) -> Seq<char>
    decreases s.len(),
{
    if s.len() > 0 && s.last() == '\n' {
        trim_newlines_end_spec(s.drop_last())
    } else {
        s
    }
}

/// The string without its leading `'\n'` characters.
pub open spec fn trim_newlines_start_spec(s: Seq<char>) -> Seq<char>
    decreases s.len(),
{
    if s.len() > 0 && s[0] == '\n' {
        trim_newlines_start_spec(s.drop_first())
    } else {
        s
    }
}

/// `pat` occurs in `s` at position `i`.
pub open spec fn occurs_at(s: Seq<char>, pat: Seq<char>, i: int) -> bool {
    &&& 0 <= i
    &&& i + pat.len() <= s.len()
    &&& s.subrange(i, i + pat.len()) == pat
}

/// The first position at or after `i` where `pat` occurs in `s`.
pub open spec fn find_from(s: Seq<char>, pat: Seq<char>, i: int) -> Option<int>
    decreases s.len() + 1 - i,
{
    if i < 0 || i + pat.len() > s.len() {
        None
    } else if occurs_at(s, pat, i) {
        Some(i)
    } else {
        find_from(s, pat, i + 1)
    }
}

/// The first position where `pat` occurs in `s` (what `str::find` returns).
pub open spec fn find_spec(s: Seq<char>, pat: Seq<char>) -> Option<int> {
    find_from(s, pat, 0)
}

/// What `find_from` finds is an occurrence at or after the start.
pub proof fn lemma_find_from_some(s: Seq<char>, pat: Seq<char>, i: int)
    ensures
        find_from(s, pat, i) matches Some(k) ==> i <= k && occurs_at(s, pat, k),
    decreases s.len() + 1 - i,
{
    if !(i < 0 || i + pat.len() > s.len()) && !occurs_at(s, pat, i) {
        lemma_find_from_some(s, pat, i + 1);
    }
}

/// When `find_from` finds nothing, nothing occurs at or after the start.
pub proof fn lemma_find_from_none(s: Seq<char>, pat: Seq<char>, i: int, j: int)
    requires
        find_from(s, pat, i) is None,
        0 <= i <= j,
    ensures
        !occurs_at(s, pat, j),
    decreases s.len() + 1 - i,
{
    if i + pat.len() <= s.len() && j > i {
        lemma_find_from_none(s, pat, i + 1, j);
    }
}

/// Nothing occurs between the start and what `find_from` finds.
pub proof fn lemma_find_from_before(s: Seq<char>, pat: Seq<char>, i: int, k: int, j: int)
    requires
        find_from(s, pat, i) == Some(k),
        0 <= i <= j < k,
    ensures
        !occurs_at(s, pat, j),
    decreases s.len() + 1 - i,
{
    if j > i {
        lemma_find_from_before(s, pat, i + 1, k, j);
    }
}

/// An occurrence with none before it, from the start on, is what
/// `find_from` finds.
pub proof fn lemma_find_from_first(s: Seq<char>, pat: Seq<char>, i: int, k: int)
    requires
        0 <= i <= k,
        occurs_at(s, pat, k),
        forall|j: int| i <= j < k ==> !occurs_at(s, pat, j),
    ensures
        find_from(s, pat, i) == Some(k),
    decreases k - i,
{
    if i < k {
        lemma_find_from_first(s, pat, i + 1, k);
    }
}

/// `trim_end_spec` keeps a prefix and drops only white space after it; the
/// prefix is empty or ends in a character that is not white space.
pub proof fn lemma_trim_end_prefix(s: Seq<char>)
    ensures
        trim_end_spec(s).len() <= s.len(),
        trim_end_spec(s) == s.take(trim_end_spec(s).len() as int),
        forall|j: int| trim_end_spec(s).len() <= j < s.len() ==> is_ws(#[trigger] s[j]),
        trim_end_spec(s).len() == 0 || !is_ws(s[trim_end_spec(s).len() - 1]),
    decreases s.len(),
{
    if s.len() > 0 && is_ws(s.last()) {
        lemma_trim_end_prefix(s.drop_last());
        let k = trim_end_spec(s).len() as int;
        assert(s.drop_last().take(k) == s.take(k));
        assert forall|j: int| k <= j < s.len() implies is_ws(#[trigger] s[j]) by {
            if j < s.len() - 1 {
                assert(s.drop_last()[j] == s[j]);
            }
        }
    } else {
        assert(s.take(s.len() as int) == s);
    }
}

/// `s` begins with `p`.
pub open spec fn starts_with_spec(s: Seq<char>, p: Seq<char>) -> bool {
    p.len() <= s.len() && s.take(p.len() as int) == p
}

/// `s` ends with `p`.
pub open spec fn ends_with_spec(s: Seq<char>, p: Seq<char>) -> bool {
    p.len() <= s.len() && s.skip(s.len() - p.len()) == p
}

/// `c` occurs in `s`.
pub open spec fn has_char(s: Seq<char>, c: char) -> bool {
    exists|i: int| 0 <= i < s.len() && s[i] == c
}

/// `rep` before, between and after the characters of `s` (what
/// `str::replace` computes for an empty pattern).
pub open spec fn interleave_spec(s: Seq<char>, rep: Seq<char>) -> Seq<char>
    decreases s.len(),
{
    if s.len() == 0 {
        rep
    } else {
        interleave_spec(s.drop_last(), rep) + seq![s.last()] + rep
    }
}

/// Left-to-right replacement of every non-overlapping occurrence of `pat`
/// by `rep` (what `str::replace` computes); an empty pattern puts `rep`
/// around every character.
pub open spec fn replace_spec(s: Seq<char>, pat: Seq<char>, rep: Seq<char>) -> Seq<char>
    decreases s.len(),
{
    if pat.len() == 0 {
        interleave_spec(s, rep)
    } else if s.len() < pat.len() {
        s
    } else if s.take(pat.len() as int) == pat {
        rep + replace_spec(s.skip(pat.len() as int), pat, rep)
    } else {
        seq![s[0]] + replace_spec(s.drop_first(), pat, rep)
    }
}

/// ASCII letters and digits.
pub open spec fn is_ascii_alnum(c: char) -> bool {
    let u: u32 = c as u32;
    ||| 48 <= u <= 57
    ||| 65 <= u <= 90
    ||| 97 <= u <= 122
}

/// An ASCII decimal digit.
pub open spec fn is_digit(c: char) -> bool {
    48 <= (c as u32) <= 57
}

/// The value of a decimal digit.
pub open spec fn digit_value(c: char) -> nat {
    ((c as u32) - 48) as nat
}

/// The character of a decimal digit value.
pub open spec fn digit_char(d: nat) -> char {
    ((d + 48) as u32) as char
}

/// `c` with ASCII upper-case letters mapped to lower case.
pub open spec fn ascii_lower_char(c: char) -> char {
    if 65 <= (c as u32) <= 90 {
        ((c as u32) + 32) as char
    } else {
        c
    }
}

/// The string with ASCII upper-case letters mapped to lower case.
pub open spec fn ascii_lower_spec(s: Seq<char>) -> Seq<char> {
    s.map_values(|c: char| ascii_lower_char(c))
}

/// Every character of `s` is a decimal digit.
pub open spec fn all_digits(s: Seq<char>) -> bool {
    forall|i: int| 0 <= i < s.len() ==> is_digit(#[trigger] s[i])
}

/// The number that the decimal digits `s` denote.
pub open spec fn dec_value(s: Seq<char>) -> nat
    decreases s.len(),
{
    if s.len() == 0 {
        0
    } else {
        10 * dec_value(s.drop_last()) + digit_value(s.last())
    }
}

/// The digits of an unsigned number as read by `str::parse`: an optional
/// `+` followed by at least one decimal digit.
pub open spec fn unsigned_digits(s: Seq<char>) -> Option<Seq<char>> {
    let ds = if s.len() > 0 && s[0] == '+' { s.drop_first() } else { s };
    if ds.len() > 0 && all_digits(ds) {
        Some(ds)
    } else {
        None
    }
}

/// What `str::parse` returns for an unsigned integer type whose largest value is `max`.
pub open spec fn parse_unsigned_spec(s: Seq<char>, max: nat) -> Option<nat> {
    match unsigned_digits(s) {
        Some(ds) => if dec_value(ds) <= max {
            Some(dec_value(ds))
        } else {
            None
        },
        None => None,
    }
}

/// The decimal digits of `n`, without leading zeros (`"0"` for zero).
pub open spec fn dec_spec(n: nat) -> Seq<char>
    decreases n,
{
    if n < 10 {
        seq![digit_char(n)]
    } else {
        dec_spec(n / 10).push(digit_char(n % 10))
    }
}

/// The decimal form of a signed number, as `Display` writes it.
pub open spec fn signed_dec_spec(n: int) -> Seq<char> {
    if n < 0 {
        seq!['-'] + dec_spec((-n) as nat)
    } else {
        dec_spec(n as nat)
    }
}

/// The lower-case hexadecimal digit of a value below 16.
pub open spec fn hex_char(d: nat) -> char {
    if d < 10 {
        ((d + 48) as u32) as char
    } else {
        ((d + 87) as u32) as char
    }
}

/// Lower-case hexadecimal encoding of a byte string, two digits per byte.
pub open spec fn hex_spec(bytes: Seq<u8>) -> Seq<char>
    decreases bytes.len(),
{
    if bytes.len() == 0 {
        Seq::empty()
    } else {
        hex_spec(bytes.drop_last()) + seq![
            hex_char((bytes.last() / 16) as nat),
            hex_char((bytes.last() % 16) as nat),
        ]
    }
}

// ---------------------------------------------------------------------------
// Building strings
// ---------------------------------------------------------------------------

/// Appends one character to a `String`.
/// Trusted: `String::push` appends `c` at the end of the string.
#[verifier::external_body]
pub(crate) fn push_char(s: &mut String, c: char)
    ensures
        final(s)@ == old(s)@.push(c),
{
    s.push(c);
}

/// Appends a string slice to a `String`.
pub fn push_str(s: &mut String, t: &str)
    ensures
        final(s)@ == old(s)@ + t@,
{
    s.append(t);
}

/// A `String` holding the given text.
pub fn string_from(t: &str) -> (r: String)
    ensures
        r@ == t@,
{
    String::from_str(t)
}

/// Collects the characters of a string slice.
pub fn chars_of(s: &str) -> (v: Vec<char>)
    ensures
        v@ == s@,
{
    broadcast use vstd::string::group_string_axioms;

    let mut v: Vec<char> = Vec::new();
    for c in it: s.chars()
        invariant
            it.seq() == s@,
            v@ == it.seq().take(it.index() as int),
    {
        v.push(c);
        assert(v@ == it.seq().take(it.index() as int + 1));
    }
    v
}

/// The string made of `v[from..to]`.
pub fn string_of_range(v: &Vec<char>, from: usize, to: usize) -> (r: String)
    requires
        from <= to <= v.len(),
    ensures
        r@ == v@.subrange(from as int, to as int),
{
    let mut r = String::new();
    let mut i: usize = from;
    while i < to
        invariant
            from <= i <= to <= v.len(),
            r@ == v@.subrange(from as int, i as int),
        decreases to - i,
    {
        push_char(&mut r, v[i]);
        assert(r@ == v@.subrange(from as int, i + 1));
        i += 1;
    }
    r
}

/// The string made of all of `v`.
pub fn string_of(v: &Vec<char>) -> (r: String)
    ensures
        r@ == v@,
{
    let r = string_of_range(v, 0, v.len());
    assert(v@.subrange(0, v@.len() as int) == v@);
    r
}

/// Appends `v[from..to]` to `s`.
pub fn push_range(s: &mut String, v: &Vec<char>, from: usize, to: usize)
    requires
        from <= to <= v.len(),
    ensures
        final(s)@ == old(s)@ + v@.subrange(from as int, to as int),
{
    let ghost start = s@;
    let mut i: usize = from;
    while i < to
        invariant
            from <= i <= to <= v.len(),
            s@ == start + v@.subrange(from as int, i as int),
        decreases to - i,
    {
        push_char(s, v[i]);
        assert(v@.subrange(from as int, i + 1) == v@.subrange(from as int, i as int).push(v[i as int]));
        i += 1;
    }
}

// ---------------------------------------------------------------------------
// Comparing and scanning
// ---------------------------------------------------------------------------

/// Whether two strings hold the same characters.
pub fn str_eq(a: &str, b: &str) -> (r: bool)
    ensures
        r == (a@ == b@),
{
    let av = chars_of(a);
    let bv = chars_of(b);
    seq_eq(&av, &bv)
}

/// Whether two character vectors are equal.
pub fn seq_eq(a: &Vec<char>, b: &Vec<char>) -> (r: bool)
    ensures
        r == (a@ == b@),
{
    if a.len() != b.len() {
        return false;
    }
    let mut i: usize = 0;
    while i < a.len()
        invariant
            a.len() == b.len(),
            0 <= i <= a.len(),
            forall|j: int| 0 <= j < i ==> a@[j] == b@[j],
        decreases a.len() - i,
    {
        if a[i] != b[i] {
            return false;
        }
        i += 1;
    }
    assert(a@ =~= b@);
    true
}

/// Whether `v[i..]` begins with `pat`.
pub fn matches_at(v: &Vec<char>, pat: &Vec<char>, i: usize) -> (r: bool)
    requires
        i <= v.len(),
    ensures
        r == occurs_at(v@, pat@, i as int),
{
    if pat.len() > v.len() - i {
        return false;
    }
    let mut k: usize = 0;
    while k < pat.len()
        invariant
            i + pat.len() <= v.len(),
            0 <= k <= pat.len(),
            forall|j: int| 0 <= j < k ==> v@[i + j] == pat@[j],
        decreases pat.len() - k,
    {
        if v[i + k] != pat[k] {
            assert(v@.subrange(i as int, i + pat.len())[k as int] != pat@[k as int]);
            return false;
        }
        k += 1;
    }
    assert(v@.subrange(i as int, i + pat.len()) =~= pat@);
    true
}

/// The first position at or after `from` where `pat` occurs in `v`.
pub fn find_in(v: &Vec<char>, pat: &Vec<char>, from: usize) -> (r: Option<usize>)
    requires
        from <= v.len(),
    ensures
        match r {
            Some(i) => find_from(v@, pat@, from as int) == Some(i as int) && from <= i
                && occurs_at(v@, pat@, i as int),
            None => find_from(v@, pat@, from as int) is None,
        },
{
    let mut i: usize = from;
    while i <= v.len()
        invariant
            from <= i,
            i <= v.len() + 1,
            find_from(v@, pat@, from as int) == find_from(v@, pat@, i as int),
        decreases v.len() + 1 - i,
    {
        if pat.len() > v.len() - i {
            return None;
        }
        if matches_at(v, pat, i) {
            return Some(i);
        }
        if pat.len() == 0 {
            assert(v@.subrange(i as int, i as int) =~= pat@);
        }
        i += 1;
    }
    None
}

/// Whether `s` begins with `p`.
pub fn starts_with(s: &Vec<char>, p: &Vec<char>) -> (r: bool)
    ensures
        r == starts_with_spec(s@, p@),
{
    let r = matches_at(s, p, 0);
    assert(r == starts_with_spec(s@, p@)) by {
        if p@.len() <= s@.len() {
            assert(s@.subrange(0, p@.len() as int) == s@.take(p@.len() as int));
        }
    }
    r
}

/// Whether the character `c` occurs in `v`.
pub fn contains_char(v: &Vec<char>, c: char) -> (r: bool)
    ensures
        r == has_char(v@, c),
{
    let mut i: usize = 0;
    while i < v.len()
        invariant
            0 <= i <= v.len(),
            forall|j: int| 0 <= j < i ==> v@[j] != c,
        decreases v.len() - i,
    {
        if v[i] == c {
            return true;
        }
        i += 1;
    }
    false
}

// ---------------------------------------------------------------------------
// Trimming
// ---------------------------------------------------------------------------

/// Whether `c` is white space (`char::is_whitespace`).
pub fn is_whitespace(c: char) -> (r: bool)
    ensures
        r == is_ws(c),
{
    let u: u32 = c as u32;
    (9 <= u && u <= 13) || u == 32 || u == 0x85 || u == 0xa0 || u == 0x1680 || (0x2000 <= u
        && u <= 0x200a) || u == 0x2028 || u == 0x2029 || u == 0x202f || u == 0x205f || u
        == 0x3000
}

proof fn lemma_trim_start_step(s: Seq<char>, i: int)
    requires
        0 <= i < s.len(),
        is_ws(s[i]),
    ensures
        trim_start_spec(s.subrange(i, s.len() as int)) == trim_start_spec(
            s.subrange(i + 1, s.len() as int),
        ),
{
    assert(s.subrange(i, s.len() as int).drop_first() == s.subrange(i + 1, s.len() as int));
}

proof fn lemma_trim_end_step(s: Seq<char>, a: int, j: int)
    requires
        0 <= a < j <= s.len(),
        is_ws(s[j - 1]),
    ensures
        trim_end_spec(s.subrange(a, j)) == trim_end_spec(s.subrange(a, j - 1)),
{
    assert(s.subrange(a, j).drop_last() == s.subrange(a, j - 1));
}

/// The bounds `(a, b)` such that `trim_spec(v) == v[a..b]`.
pub fn trim_bounds(v: &Vec<char>) -> (r: (usize, usize))
    ensures
        r.0 <= r.1 <= v.len(),
        trim_spec(v@) == v@.subrange(r.0 as int, r.1 as int),
        trim_start_spec(v@) == v@.subrange(r.0 as int, v.len() as int),
{
    let mut a: usize = 0;
    assert(v@.subrange(0, v@.len() as int) == v@);
    while a < v.len() && is_whitespace(v[a])
        invariant
            0 <= a <= v.len(),
            trim_start_spec(v@) == trim_start_spec(v@.subrange(a as int, v.len() as int)),
        decreases v.len() - a,
    {
        proof {
            lemma_trim_start_step(v@, a as int);
        }
        a += 1;
    }
    assert(v@.subrange(0, v@.len() as int) == v@);
    let ghost ts = v@.subrange(a as int, v.len() as int);
    assert(trim_start_spec(ts) == ts);
    let mut b: usize = v.len();
    while b > a && is_whitespace(v[b - 1])
        invariant
            a <= b <= v.len(),
            trim_end_spec(ts) == trim_end_spec(v@.subrange(a as int, b as int)),
        decreases b,
    {
        proof {
            lemma_trim_end_step(v@, a as int, b as int);
        }
        b -= 1;
    }
    (a, b)
}

/// `str::trim`.
pub fn trim(s: &str) -> (r: String)
    ensures
        r@ == trim_spec(s@),
{
    let v = chars_of(s);
    let (a, b): (usize, usize) = trim_bounds(&v);
    string_of_range(&v, a, b)
}

/// `str::trim_end`.
pub fn trim_end(s: &str) -> (r: String)
    ensures
        r@ == trim_end_spec(s@),
{
    let v = chars_of(s);
    let mut b: usize = v.len();
    assert(v@.subrange(0, v@.len() as int) == v@);
    while b > 0 && is_whitespace(v[b - 1])
        invariant
            b <= v.len(),
            trim_end_spec(v@) == trim_end_spec(v@.subrange(0, b as int)),
        decreases b,
    {
        proof {
            lemma_trim_end_step(v@, 0, b as int);
        }
        b -= 1;
    }
    string_of_range(&v, 0, b)
}

/// `str::trim_start_matches('\n')`.
pub fn trim_newlines_start(s: &str) -> (r: String)
    ensures
        r@ == trim_newlines_start_spec(s@),
{
    let v = chars_of(s);
    let mut a: usize = 0;
    assert(v@.subrange(0, v@.len() as int) == v@);
    while a < v.len() && v[a] == '\n'
        invariant
            a <= v.len(),
            trim_newlines_start_spec(v@) == trim_newlines_start_spec(
                v@.subrange(a as int, v.len() as int),
            ),
        decreases v.len() - a,
    {
        assert(v@.subrange(a as int, v.len() as int).drop_first() == v@.subrange(
            a + 1,
            v.len() as int,
        ));
        a += 1;
    }
    string_of_range(&v, a, v.len())
}

/// `str::trim().is_empty()`.
pub fn is_blank(s: &str) -> (r: bool)
    ensures
        r == (trim_spec(s@).len() == 0),
{
    let v = chars_of(s);
    let (a, b): (usize, usize) = trim_bounds(&v);
    a == b
}

// ---------------------------------------------------------------------------
// Rewriting
// ---------------------------------------------------------------------------

proof fn lemma_replace_skip(s: Seq<char>, pat: Seq<char>, rep: Seq<char>, i: int)
    requires
        pat.len() > 0,
        0 <= i,
        i + pat.len() <= s.len(),
    ensures
        occurs_at(s, pat, i) ==> replace_spec(s.skip(i), pat, rep) == rep + replace_spec(
            s.skip(i + pat.len()),
            pat,
            rep,
        ),
        !occurs_at(s, pat, i) ==> replace_spec(s.skip(i), pat, rep) == seq![s[i]]
            + replace_spec(s.skip(i + 1), pat, rep),
{
    let t = s.skip(i);
    assert(t.take(pat.len() as int) == s.subrange(i, i + pat.len()));
    assert(t.skip(pat.len() as int) == s.skip(i + pat.len()));
    assert(t.drop_first() == s.skip(i + 1));
}

fn interleave(v: &Vec<char>, rep: &str) -> (r: String)
    ensures
        r@ == interleave_spec(v@, rep@),
{
    let mut out = string_from(rep);
    let mut i: usize = 0;
    assert(v@.take(0).len() == 0);
    while i < v.len()
        invariant
            i <= v.len(),
            out@ == interleave_spec(v@.take(i as int), rep@),
        decreases v.len() - i,
    {
        assert(v@.take(i + 1).drop_last() == v@.take(i as int));
        assert(v@.take(i + 1).last() == v@[i as int]);
        push_char(&mut out, v[i]);
        push_str(&mut out, rep);
        i += 1;
    }
    assert(v@.take(v.len() as int) == v@);
    out
}

/// `str::replace(pat, rep)`.
pub fn replace_all(s: &str, pat: &str, rep: &str) -> (r: String)
    ensures
        r@ == replace_spec(s@, pat@, rep@),
{
    let v = chars_of(s);
    let p = chars_of(pat);
    if p.len() == 0 {
        return interleave(&v, rep);
    }
    let mut out = String::new();
    let mut i: usize = 0;
    assert(v@.skip(0) == v@);
    while i < v.len()
        invariant
            v@ == s@,
            p@ == pat@,
            p@.len() > 0,
            i <= v.len(),
            out@ + replace_spec(v@.skip(i as int), p@, rep@) == replace_spec(v@, p@, rep@),
        decreases v.len() - i,
    {
        if p.len() > v.len() - i {
            assert(replace_spec(v@.skip(i as int), p@, rep@) == v@.skip(i as int));
            assert(v@.skip(i as int) == v@.subrange(i as int, v.len() as int));
            let ghost before = out@;
            push_range(&mut out, &v, i, v.len());
            assert(out@ == before + v@.skip(i as int));
            assert(out@ == replace_spec(v@, p@, rep@));
            assert(v@ == s@);
            assert(p@ == pat@);
            return out;
        }
        proof {
            lemma_replace_skip(v@, p@, rep@, i as int);
        }
        if matches_at(&v, &p, i) {
            push_str(&mut out, rep);
            i += p.len();
        } else {
            push_char(&mut out, v[i]);
            i += 1;
        }
    }
    assert(v@.skip(i as int).len() == 0);
    out
}

/// `str::to_ascii_lowercase`.
pub fn ascii_lowercase(s: &str) -> (r: String)
    ensures
        r@ == ascii_lower_spec(s@),
{
    let v = chars_of(s);
    let mut out = String::new();
    let mut i: usize = 0;
    while i < v.len()
        invariant
            i <= v.len(),
            out@ == ascii_lower_spec(v@.take(i as int)),
        decreases v.len() - i,
    {
        let c = v[i];
        let u: u32 = c as u32;
        let d = if 65 <= u && u <= 90 {
            let lower: u8 = (u + 32) as u8;
            lower as char
        } else {
            c
        };
        assert(d == ascii_lower_char(c));
        push_char(&mut out, d);
        assert(v@.take(i + 1) == v@.take(i as int).push(c));
        assert(ascii_lower_spec(v@.take(i + 1)) =~= ascii_lower_spec(v@.take(i as int)).push(d));
        i += 1;
    }
    assert(v@.take(v.len() as int) == v@);
    out
}

// ---------------------------------------------------------------------------
// Numbers
// ---------------------------------------------------------------------------

proof fn lemma_dec_value_push(s: Seq<char>, c: char)
    ensures
        dec_value(s.push(c)) == 10 * dec_value(s) + digit_value(c),
{
    assert(s.push(c).drop_last() == s);
}

/// `str::parse::<u64>`.
pub fn parse_u64(s: &str) -> (r: Option<u64>)
    ensures
        match r {
            Some(n) => parse_unsigned_spec(s@, u64::MAX as nat) == Some(n as nat),
            None => parse_unsigned_spec(s@, u64::MAX as nat) is None,
        },
{
    let v = chars_of(s);
    let start: usize = if v.len() > 0 && v[0] == '+' {
        1
    } else {
        0
    };
    let ghost ds = v@.skip(start as int);
    assert(ds == (if v@.len() > 0 && v@[0] == '+' {
        v@.drop_first()
    } else {
        v@
    }));
    if start == v.len() {
        return None;
    }
    let mut acc: u64 = 0;
    let mut overflow = false;
    let mut i: usize = start;
    while i < v.len()
        invariant
            v@ == s@,
            start <= i <= v.len(),
            ds == v@.skip(start as int),
            ds == (if v@.len() > 0 && v@[0] == '+' {
                v@.drop_first()
            } else {
                v@
            }),
            all_digits(v@.subrange(start as int, i as int)),
            !overflow ==> acc as nat == dec_value(v@.subrange(start as int, i as int)),
            overflow ==> dec_value(v@.subrange(start as int, i as int)) > u64::MAX,
        decreases v.len() - i,
    {
        let c = v[i];
        let u: u32 = c as u32;
        if !(48 <= u && u <= 57) {
            assert(!all_digits(ds)) by {
                assert(ds[i - start] == c);
                assert(!is_digit(c));
            }
            assert(v@ == s@);
            assert(unsigned_digits(s@) is None);
            return None;
        }
        let d: u64 = (u - 48) as u64;
        proof {
            assert(v@.subrange(start as int, i + 1) == v@.subrange(start as int, i as int).push(c));
            lemma_dec_value_push(v@.subrange(start as int, i as int), c);
        }
        if !overflow {
            if acc > (u64::MAX - d) / 10 {
                overflow = true;
            } else {
                acc = acc * 10 + d;
            }
        }
        i += 1;
    }
    assert(v@.subrange(start as int, v.len() as int) == ds);
    if overflow {
        None
    } else {
        Some(acc)
    }
}

/// `str::parse::<u32>`.
pub fn parse_u32(s: &str) -> (r: Option<u32>)
    ensures
        match r {
            Some(n) => parse_unsigned_spec(s@, u32::MAX as nat) == Some(n as nat),
            None => parse_unsigned_spec(s@, u32::MAX as nat) is None,
        },
{
    match parse_u64(s) {
        Some(n) => if n <= u32::MAX as u64 {
            Some(n as u32)
        } else {
            None
        },
        None => {
            proof {
                match unsigned_digits(s@) {
                    Some(ds) => {},
                    None => {},
                }
            }
            None
        },
    }
}

/// `str::parse::<usize>`.
pub fn parse_usize(s: &str) -> (r: Option<usize>)
    ensures
        match r {
            Some(n) => parse_unsigned_spec(s@, usize::MAX as nat) == Some(n as nat),
            None => parse_unsigned_spec(s@, usize::MAX as nat) is None,
        },
{
    match parse_u64(s) {
        Some(n) => if n as u128 <= usize::MAX as u128 {
            Some(n as usize)
        } else {
            None
        },
        None => None,
    }
}

/// The decimal form of `n` is a non-empty run of digits that reads back as
/// `n`.
pub proof fn lemma_dec_spec_digits(n: nat)
    ensures
        dec_spec(n).len() >= 1,
        forall|i: int| 0 <= i < dec_spec(n).len() ==> '0' <= #[trigger] dec_spec(n)[i] <= '9',
        dec_value(dec_spec(n)) == n,
    decreases n,
{
    let c = digit_char(n % 10);
    assert(c as u32 == (n % 10) + 48);
    assert(digit_value(c) == n % 10);
    if n < 10 {
        assert(dec_spec(n) =~= seq![c]);
        assert(seq![c].drop_last() =~= Seq::<char>::empty());
        assert(dec_value(Seq::<char>::empty()) == 0);
        assert(dec_value(seq![c]) == 10 * dec_value(seq![c].drop_last()) + digit_value(seq![c].last()));
    } else {
        lemma_dec_spec_digits(n / 10);
        let d = dec_spec(n / 10);
        assert(dec_spec(n) == d.push(c));
        assert(d.push(c).drop_last() =~= d);
        lemma_dec_value_push(d, c);
        assert(n == 10 * (n / 10) + n % 10);
        assert forall|i: int| 0 <= i < d.push(c).len() implies '0' <= #[trigger] d.push(c)[i] <= '9' by {
            if i < d.len() {
                assert(d.push(c)[i] == d[i]);
            }
        }
    }
}

proof fn lemma_dec_spec_len(n: nat)
    ensures
        dec_spec(n).len() >= 1,
    decreases n,
{
    if n >= 10 {
        lemma_dec_spec_len(n / 10);
    }
}

/// The decimal digits of `n` (`u64::to_string`).
pub fn u64_to_dec(n: u64) -> (r: String)
    ensures
        r@ == dec_spec(n as nat),
{
    // Collect the digits least significant first, then emit them in order.
    let mut digits: Vec<char> = Vec::new();
    let mut m: u64 = n;
    let ghost mut rest: nat = n as nat;
    loop
        invariant_except_break
            m as nat == rest,
            dec_spec(n as nat) == dec_spec(rest) + digits@.reverse(),
        ensures
            dec_spec(n as nat) == digits@.reverse(),
        decreases m,
    {
        let d: u8 = (m % 10) as u8;
        let c = (d + 48) as char;
        assert(c == digit_char((m % 10) as nat));
        if m < 10 {
            proof {
                assert(dec_spec(rest) == seq![c]);
                assert(digits@.push(c).reverse() =~= seq![c] + digits@.reverse());
            }
            digits.push(c);
            break;
        }
        proof {
            assert(dec_spec(rest) == dec_spec(rest / 10).push(c));
            assert(digits@.push(c).reverse() =~= seq![c] + digits@.reverse());
            assert(dec_spec(rest / 10).push(c) + digits@.reverse() =~= dec_spec(rest / 10)
                + digits@.push(c).reverse());
        }
        digits.push(c);
        m = m / 10;
        proof {
            rest = rest / 10;
        }
    }
    let mut out = String::new();
    let mut k: usize = digits.len();
    while k > 0
        invariant
            k <= digits.len(),
            out@ == digits@.reverse().take((digits.len() - k) as int),
        decreases k,
    {
        k -= 1;
        push_char(&mut out, digits[k]);
        assert(digits@.reverse().take((digits.len() - k) as int) =~= digits@.reverse().take(
            (digits.len() - k - 1) as int,
        ).push(digits@[k as int]));
    }
    assert(digits@.reverse().take(digits.len() as int) =~= digits@.reverse());
    out
}

/// The decimal form of a signed number (`i64::to_string`).
pub fn i64_to_dec(n: i64) -> (r: String)
    ensures
        r@ == signed_dec_spec(n as int),
{
    if n < 0 {
        let m: u64 = if n == i64::MIN {
            9223372036854775808u64
        } else {
            (-n) as u64
        };
        let mut out = String::new();
        push_char(&mut out, '-');
        let digits = u64_to_dec(m);
        push_str(&mut out, digits.as_str());
        out
    } else {
        u64_to_dec(n as u64)
    }
}

/// Lower-case hexadecimal encoding of `bytes` (`{:x}` of a digest).
pub fn hex_lower(bytes: &[u8]) -> (r: String)
    ensures
        r@ == hex_spec(bytes@),
{
    let mut out = String::new();
    let mut i: usize = 0;
    while i < bytes.len()
        invariant
            i <= bytes.len(),
            out@ == hex_spec(bytes@.take(i as int)),
        decreases bytes.len() - i,
    {
        let b: u8 = bytes[i];
        let hi: u8 = b / 16;
        let lo: u8 = b % 16;
        let ch = if hi < 10 {
            (hi + 48) as char
        } else {
            (hi + 87) as char
        };
        let cl = if lo < 10 {
            (lo + 48) as char
        } else {
            (lo + 87) as char
        };
        assert(ch == hex_char(hi as nat));
        assert(cl == hex_char(lo as nat));
        push_char(&mut out, ch);
        push_char(&mut out, cl);
        assert(bytes@.take(i + 1).drop_last() == bytes@.take(i as int));
        i += 1;
    }
    assert(bytes@.take(bytes.len() as int) == bytes@);
    out
}


} // verus!
