//! Dotenv-style files: `KEY=value` lines, blank lines and `#` comments.
use vstd::prelude::*;

use crate::config::app::strings_view;
use crate::config::settings::pairs_view;
use crate::error::{BridgeError, ErrorKind, ErrorView};
use crate::text::{chars_of, push_str, string_from, string_of, string_of_range, trim, u64_to_dec};

verus! {

/// The lines finished so far and the line under way, after reading `s`.
pub open spec fn scan_lines(s: Seq<char>) -> (Seq<Seq<char>>, Seq<char>)
    decreases s.len(),
{
    if s.len() == 0 {
        (Seq::empty(), Seq::empty())
    } else {
        let (lines, current) = scan_lines(s.drop_last());
        if s.last() == '\n' {
            (lines.push(current), Seq::empty())
        } else {
            (lines, current.push(s.last()))
        }
    }
}

/// The lines of a text, split at `'\n'`; a final line ending adds no empty
/// line. (A `'\r'` before the line ending stays on the line; every use of a
/// line trims it first.)
pub open spec fn lines_spec(s: Seq<char>) -> Seq<Seq<char>> {
    if scan_lines(s).1.len() == 0 {
        scan_lines(s).0
    } else {
        scan_lines(s).0.push(scan_lines(s).1)
    }
}

/// An ASCII letter, digit or underscore: the characters of a key.
pub open spec fn is_key_char(c: char) -> bool {
    crate::text::is_ascii_alnum(c) || c == '_'
}

/// A value without one pair of matching surrounding quotes.
pub open spec fn unquote_spec(v: Seq<char>) -> Seq<char> {
    if v.len() >= 2 && ((v[0] == '"' && v.last() == '"') || (v[0] == '\'' && v.last() == '\'')) {
        v.subrange(1, v.len() - 1)
    } else {
        v
    }
}

/// The error of line `i` (counted from zero) of the env file at `path`.
pub open spec fn line_error(path: Seq<char>, i: int, what: Seq<char>) -> ErrorView {
    (
        ErrorKind::Config,
        "invalid env file "@ + path + " line "@ + crate::text::dec_spec((i + 1) as nat) + what,
    )
}

/// Reading `lines` from position `i` on, with the pairs `acc` read so far.
pub open spec fn env_from(path: Seq<char>, lines: Seq<Seq<char>>, i: int, acc: Seq<(Seq<char>, Seq<char>)>) -> Result<Seq<(Seq<char>, Seq<char>)>, ErrorView>
    decreases lines.len() - i,
{
    if i < 0 || i >= lines.len() {
        Ok(acc)
    } else {
        let line = crate::text::trim_spec(lines[i]);
        if line.len() == 0 || line[0] == '#' {
            env_from(path, lines, i + 1, acc)
        } else {
            match crate::text::find_spec(line, "="@) {
                None => Err(line_error(path, i, ": missing '='"@)),
                Some(p) => {
                    let key = crate::text::trim_spec(line.take(p));
                    let value = unquote_spec(crate::text::trim_spec(line.skip(p + 1)));
                    if key.len() == 0 || !(forall|k: int| 0 <= k < key.len() ==> is_key_char(#[trigger] key[k])) {
                        Err(line_error(path, i, ": invalid key"@))
                    } else {
                        env_from(path, lines, i + 1, acc.push((key, value)))
                    }
                },
            }
        }
    }
}

/// The pairs of an env file, in the order of its lines, or the error of its
/// first bad line.
pub open spec fn env_file_spec(path: Seq<char>, content: Seq<char>) -> Result<Seq<(Seq<char>, Seq<char>)>, ErrorView> {
    env_from(path, lines_spec(content), 0, Seq::empty())
}

/// Whether `k` is a non-empty run of ASCII letters, digits and `_`.
pub open spec fn plain_key(k: Seq<char>) -> bool {
    &&& k.len() > 0
    &&& forall|i: int|
        0 <= i < k.len() ==> {
            let u = (#[trigger] k[i]) as u32;
            ||| ('a' as u32) <= u <= ('z' as u32)
            ||| ('A' as u32) <= u <= ('Z' as u32)
            ||| ('0' as u32) <= u <= ('9' as u32)
            ||| u == ('_' as u32)
        }
}

proof fn lemma_env_from_plain_keys(path: Seq<char>, lines: Seq<Seq<char>>, i: int, acc: Seq<(Seq<char>, Seq<char>)>)
    requires
        forall|j: int| 0 <= j < acc.len() ==> plain_key(#[trigger] acc[j].0),
    ensures
        env_from(path, lines, i, acc) is Ok ==> forall|j: int|
            0 <= j < env_from(path, lines, i, acc)->Ok_0.len() ==> plain_key(
                #[trigger] env_from(path, lines, i, acc)->Ok_0[j].0,
            ),
    decreases lines.len() - i,
{
    if 0 <= i < lines.len() {
        let line = crate::text::trim_spec(lines[i]);
        if line.len() == 0 || line[0] == '#' {
            lemma_env_from_plain_keys(path, lines, i + 1, acc);
        } else {
            match crate::text::find_spec(line, "="@) {
                None => {},
                Some(p) => {
                    let key = crate::text::trim_spec(line.take(p));
                    let value = unquote_spec(crate::text::trim_spec(line.skip(p + 1)));
                    if key.len() > 0 && (forall|k: int| 0 <= k < key.len() ==> is_key_char(#[trigger] key[k])) {
                        let next = acc.push((key, value));
                        assert forall|j: int| 0 <= j < next.len() implies plain_key(#[trigger] next[j].0) by {
                            if j < acc.len() {
                                assert(next[j] == acc[j]);
                            } else {
                                assert(next[j].0 == key);
                                assert forall|k: int| 0 <= k < key.len() implies is_key_char(#[trigger] key[k]) by {}
                            }
                        }
                        lemma_env_from_plain_keys(path, lines, i + 1, next);
                    }
                },
            }
        }
    }
}

/// Every key read from an env file is a non-empty run of ASCII letters,
/// digits and underscores.
pub proof fn lemma_env_file_keys_are_plain(path: Seq<char>, content: Seq<char>)
    ensures
        env_file_spec(path, content) is Ok ==> forall|j: int|
            0 <= j < env_file_spec(path, content)->Ok_0.len() ==> plain_key(#[trigger] env_file_spec(path, content)->Ok_0[j].0),
{
    lemma_env_from_plain_keys(path, lines_spec(content), 0, Seq::empty());
}

/// Splits a text into its lines (see `lines_spec`).
pub fn split_lines(content: &str) -> (r: Vec<String>)
    ensures
        strings_view(r@) == lines_spec(content@),
{
    let v = chars_of(content);
    let mut lines: Vec<String> = Vec::new();
    let mut current: Vec<char> = Vec::new();
    let mut i: usize = 0;
    assert(v@.take(0) == Seq::<char>::empty());
    assert(strings_view(lines@) =~= Seq::<Seq<char>>::empty());
    while i < v.len()
        invariant
            i <= v.len(),
            (strings_view(lines@), current@) == scan_lines(v@.take(i as int)),
        decreases v.len() - i,
    {
        assert(v@.take(i + 1).drop_last() == v@.take(i as int));
        let c = v[i];
        if c == '\n' {
            let ghost before = lines@;
            lines.push(string_of(&current));
            assert(strings_view(lines@) == strings_view(before).push(current@));
            current = Vec::new();
        } else {
            current.push(c);
        }
        i += 1;
    }
    assert(v@.take(v.len() as int) == v@);
    if current.len() > 0 {
        let ghost before = lines@;
        lines.push(string_of(&current));
        assert(strings_view(lines@) == strings_view(before).push(current@));
    }
    lines
}

/// `str` without one pair of matching surrounding quotes.
pub fn unquote_env_value(value: &str) -> (r: String)
    ensures
        r@ == unquote_spec(value@),
{
    let v = chars_of(value);
    let n = v.len();
    if n >= 2 && ((v[0] == '"' && v[n - 1] == '"') || (v[0] == '\'' && v[n - 1] == '\'')) {
        string_of_range(&v, 1, n - 1)
    } else {
        string_from(value)
    }
}

fn valid_key(key: &Vec<char>) -> (r: bool)
    ensures
        r == (key@.len() > 0 && forall|k: int| 0 <= k < key@.len() ==> is_key_char(#[trigger] key@[k])),
{
    if key.len() == 0 {
        return false;
    }
    let mut i: usize = 0;
    while i < key.len()
        invariant
            i <= key.len(),
            forall|k: int| 0 <= k < i ==> is_key_char(#[trigger] key@[k]),
        decreases key.len() - i,
    {
        let u: u32 = key[i] as u32;
        let ok = (48 <= u && u <= 57) || (65 <= u && u <= 90) || (97 <= u && u <= 122) || key[i]
            == '_';
        if !ok {
            assert(!is_key_char(key@[i as int]));
            return false;
        }
        i += 1;
    }
    true
}

fn line_error_of(path: &str, i: usize, what: &str) -> (e: BridgeError)
    requires
        i < u64::MAX,
    ensures
        e@ == line_error(path@, i as int, what@),
{
    let mut m = string_from("invalid env file ");
    push_str(&mut m, path);
    push_str(&mut m, " line ");
    let n = u64_to_dec(i as u64 + 1);
    push_str(&mut m, n.as_str());
    push_str(&mut m, what);
    BridgeError::Config(m)
}

/// Reads the pairs of an env file whose text is `content` (see
/// `env_file_spec`); `path` names the file in error messages.
pub fn parse_env_file(path: &str, content: &str) -> (r: Result<Vec<(String, String)>, BridgeError>)
    ensures
        match r {
            Ok(pairs) => env_file_spec(path@, content@) == Ok::<
                Seq<(Seq<char>, Seq<char>)>,
                ErrorView,
            >(pairs_view(pairs@)),
            Err(e) => env_file_spec(path@, content@) == Err::<Seq<(Seq<char>, Seq<char>)>, ErrorView>(
                e@,
            ),
        },
{
    let lines = split_lines(content);
    let ghost lv = strings_view(lines@);
    let mut values: Vec<(String, String)> = Vec::new();
    assert(pairs_view(values@) =~= Seq::<(Seq<char>, Seq<char>)>::empty());
    let mut i: usize = 0;
    while i < lines.len()
        invariant
            lv == strings_view(lines@),
            lv == lines_spec(content@),
            i <= lines.len(),
            env_file_spec(path@, content@) == env_from(path@, lv, i as int, pairs_view(values@)),
        decreases lines.len() - i,
    {
        assert(lv[i as int] == lines@[i as int]@);
        let line = trim(lines[i].as_str());
        let lc = chars_of(line.as_str());
        if lc.len() == 0 || lc[0] == '#' {
            i += 1;
        } else {
            let eq = chars_of("=");
            proof {
                reveal_strlit("=");
            }
            match crate::text::find_in(&lc, &eq, 0) {
                None => {
                    return Err(line_error_of(path, i, ": missing '='"));
                },
                Some(p) => {
                    assert(lc@.subrange(0, p as int) == lc@.take(p as int));
                    assert(lc@.subrange(p + 1, lc.len() as int) == lc@.skip(p + 1));
                    let key_raw = string_of_range(&lc, 0, p);
                    let key = trim(key_raw.as_str());
                    let value_raw = string_of_range(&lc, p + 1, lc.len());
                    let value_trimmed = trim(value_raw.as_str());
                    let value = unquote_env_value(value_trimmed.as_str());
                    let kc = chars_of(key.as_str());
                    if !valid_key(&kc) {
                        return Err(line_error_of(path, i, ": invalid key"));
                    }
                    let ghost before = values@;
                    values.push((key, value));
                    assert(pairs_view(values@) == pairs_view(before).push((kc@, value@)));
                    i += 1;
                },
            }
        }
    }
    Ok(values)
}

} // verus!
