//! Reading typed settings out of resolved key/value pairs.
//!
//! A setting that is missing or blank takes its default; a present value
//! that does not read as the setting's type is a configuration error.
use vstd::prelude::*;

use crate::error::{BridgeError, ErrorKind, ErrorView};
use crate::text::{ascii_lowercase, is_blank, parse_u32, parse_u64, parse_usize, push_str, str_eq, string_from, trim};

verus! {

/// The value last given for `key` among `pairs`: a later pair overrides an
/// earlier one, as a later insert into a map does.
pub open spec fn lookup_spec(pairs: Seq<(Seq<char>, Seq<char>)>, key: Seq<char>) -> Option<Seq<char>>
    decreases pairs.len(),
{
    if pairs.len() == 0 {
        None
    } else if pairs.last().0 == key {
        Some(pairs.last().1)
    } else {
        lookup_spec(pairs.drop_last(), key)
    }
}

/// A value that is only white space counts as absent.
pub open spec fn non_blank(v: Option<Seq<char>>) -> Option<Seq<char>> {
    match v {
        Some(s) => if crate::text::trim_spec(s).len() == 0 {
            None
        } else {
            Some(s)
        },
        None => None,
    }
}

/// The value of `key` unless it is missing or blank.
pub open spec fn present_spec(pairs: Seq<(Seq<char>, Seq<char>)>, key: Seq<char>) -> Option<Seq<char>> {
    non_blank(lookup_spec(pairs, key))
}

/// A string setting: the present value, else the default.
pub open spec fn string_setting(pairs: Seq<(Seq<char>, Seq<char>)>, key: Seq<char>, default: Seq<char>) -> Seq<char> {
    match present_spec(pairs, key) {
        Some(v) => v,
        None => default,
    }
}

/// The boolean a word stands for: `1`, `true`, `yes`, `on` and `0`, `false`,
/// `no`, `off`, in any ASCII case and with white space around.
pub open spec fn bool_word(v: Seq<char>) -> Option<bool> {
    let w = crate::text::ascii_lower_spec(crate::text::trim_spec(v));
    if w == "1"@ || w == "true"@ || w == "yes"@ || w == "on"@ {
        Some(true)
    } else if w == "0"@ || w == "false"@ || w == "no"@ || w == "off"@ {
        Some(false)
    } else {
        None
    }
}

/// The error of a setting that must be a boolean.
pub open spec fn bool_error(key: Seq<char>) -> ErrorView {
    (ErrorKind::Config, key + " must be a boolean"@)
}

/// The error of a setting that must be a number.
pub open spec fn number_error(key: Seq<char>) -> ErrorView {
    (ErrorKind::Config, key + " must be a positive integer"@)
}

/// A boolean setting.
pub open spec fn bool_setting(pairs: Seq<(Seq<char>, Seq<char>)>, key: Seq<char>, default: bool) -> Result<bool, ErrorView> {
    match present_spec(pairs, key) {
        None => Ok(default),
        Some(v) => match bool_word(v) {
            Some(b) => Ok(b),
            None => Err(bool_error(key)),
        },
    }
}

/// An unsigned setting whose type holds numbers up to `max`; the value is
/// read as `str::parse` reads it, white space included.
pub open spec fn unsigned_setting(
    pairs: Seq<(Seq<char>, Seq<char>)>,
    key: Seq<char>,
    default: nat,
    max: nat,
) -> Result<nat, ErrorView> {
    match present_spec(pairs, key) {
        None => Ok(default),
        Some(v) => match crate::text::parse_unsigned_spec(v, max) {
            Some(n) => Ok(n),
            None => Err(number_error(key)),
        },
    }
}

/// An optional `u32` setting: absent when missing or blank.
pub open spec fn optional_u32_setting(pairs: Seq<(Seq<char>, Seq<char>)>, key: Seq<char>) -> Result<Option<nat>, ErrorView> {
    match present_spec(pairs, key) {
        None => Ok(None),
        Some(v) => match crate::text::parse_unsigned_spec(v, u32::MAX as nat) {
            Some(n) => Ok(Some(n)),
            None => Err(number_error(key)),
        },
    }
}

/// An optional string setting: the trimmed value, absent when it is empty.
pub open spec fn optional_string_setting(pairs: Seq<(Seq<char>, Seq<char>)>, key: Seq<char>) -> Option<Seq<char>> {
    match lookup_spec(pairs, key) {
        Some(v) => if crate::text::trim_spec(v).len() == 0 {
            None
        } else {
            Some(crate::text::trim_spec(v))
        },
        None => None,
    }
}

/// The value of the first of two keys that is given at all, kept only when
/// it is not blank.
pub open spec fn first_lookup_spec(pairs: Seq<(Seq<char>, Seq<char>)>, k1: Seq<char>, k2: Seq<char>) -> Option<Seq<char>> {
    match lookup_spec(pairs, k1) {
        Some(v) => non_blank(Some(v)),
        None => non_blank(lookup_spec(pairs, k2)),
    }
}

/// The views of a list of string pairs.
pub open spec fn pairs_view(v: Seq<(String, String)>) -> Seq<(Seq<char>, Seq<char>)> {
    v.map_values(|p: (String, String)| (p.0@, p.1@))
}

/// The view of an optional string.
pub open spec fn opt_str(o: Option<String>) -> Option<Seq<char>> {
    match o {
        Some(s) => Some(s@),
        None => None,
    }
}

/// The value last given for `key`.
pub fn lookup(pairs: &Vec<(String, String)>, key: &str) -> (r: Option<String>)
    ensures
        opt_str(r) == lookup_spec(pairs_view(pairs@), key@),
{
    let ghost pv = pairs_view(pairs@);
    let mut i: usize = pairs.len();
    assert(pv.take(i as int) == pv);
    while i > 0
        invariant
            i <= pairs.len(),
            pv == pairs_view(pairs@),
            lookup_spec(pv, key@) == lookup_spec(pv.take(i as int), key@),
        decreases i,
    {
        assert(pv.take(i as int).last() == (pairs@[i - 1].0@, pairs@[i - 1].1@));
        assert(pv.take(i as int).drop_last() == pv.take(i - 1));
        if str_eq(pairs[i - 1].0.as_str(), key) {
            return Some(string_from(pairs[i - 1].1.as_str()));
        }
        i -= 1;
    }
    None
}

/// The value of `key` unless it is missing or blank.
pub fn get_optional_from_lookup(pairs: &Vec<(String, String)>, key: &str) -> (r: Option<String>)
    ensures
        opt_str(r) == present_spec(pairs_view(pairs@), key@),
{
    match lookup(pairs, key) {
        Some(v) => if is_blank(v.as_str()) {
            None
        } else {
            Some(v)
        },
        None => None,
    }
}

/// The value of the first of `k1` and `k2` that is given, unless blank.
pub fn first_lookup(pairs: &Vec<(String, String)>, k1: &str, k2: &str) -> (r: Option<String>)
    ensures
        opt_str(r) == first_lookup_spec(pairs_view(pairs@), k1@, k2@),
{
    let found = match lookup(pairs, k1) {
        Some(v) => Some(v),
        None => lookup(pairs, k2),
    };
    match found {
        Some(v) => if is_blank(v.as_str()) {
            None
        } else {
            Some(v)
        },
        None => None,
    }
}

/// A string setting with its default.
pub fn get_string(pairs: &Vec<(String, String)>, key: &str, default: &str) -> (r: String)
    ensures
        r@ == string_setting(pairs_view(pairs@), key@, default@),
{
    match get_optional_from_lookup(pairs, key) {
        Some(v) => v,
        None => string_from(default),
    }
}

fn bool_of_word(v: &str) -> (r: Option<bool>)
    ensures
        r == bool_word(v@),
{
    let t = trim(v);
    let w = ascii_lowercase(t.as_str());
    let s = w.as_str();
    if str_eq(s, "1") || str_eq(s, "true") || str_eq(s, "yes") || str_eq(s, "on") {
        Some(true)
    } else if str_eq(s, "0") || str_eq(s, "false") || str_eq(s, "no") || str_eq(s, "off") {
        Some(false)
    } else {
        None
    }
}

fn config_error(key: &str, what: &str) -> (e: BridgeError)
    ensures
        e@ == (ErrorKind::Config, key@ + what@),
{
    let mut m = string_from(key);
    push_str(&mut m, what);
    BridgeError::Config(m)
}

/// A boolean setting with its default.
pub fn get_bool(pairs: &Vec<(String, String)>, key: &str, default: bool) -> (r: Result<bool, BridgeError>)
    ensures
        match r {
            Ok(b) => bool_setting(pairs_view(pairs@), key@, default) == Ok::<bool, ErrorView>(b),
            Err(e) => bool_setting(pairs_view(pairs@), key@, default) == Err::<bool, ErrorView>(e@),
        },
{
    match get_optional_from_lookup(pairs, key) {
        None => Ok(default),
        Some(v) => match bool_of_word(v.as_str()) {
            Some(b) => Ok(b),
            None => Err(config_error(key, " must be a boolean")),
        },
    }
}

/// A `u64` setting with its default.
pub fn get_u64(pairs: &Vec<(String, String)>, key: &str, default: u64) -> (r: Result<u64, BridgeError>)
    ensures
        match r {
            Ok(n) => unsigned_setting(pairs_view(pairs@), key@, default as nat, u64::MAX as nat) == Ok::<
                nat,
                ErrorView,
            >(n as nat),
            Err(e) => unsigned_setting(pairs_view(pairs@), key@, default as nat, u64::MAX as nat) == Err::<
                nat,
                ErrorView,
            >(e@),
        },
{
    match get_optional_from_lookup(pairs, key) {
        None => Ok(default),
        Some(v) => match parse_u64(v.as_str()) {
            Some(n) => Ok(n),
            None => Err(config_error(key, " must be a positive integer")),
        },
    }
}

/// A `u32` setting with its default.
pub fn get_u32(pairs: &Vec<(String, String)>, key: &str, default: u32) -> (r: Result<u32, BridgeError>)
    ensures
        match r {
            Ok(n) => unsigned_setting(pairs_view(pairs@), key@, default as nat, u32::MAX as nat) == Ok::<
                nat,
                ErrorView,
            >(n as nat),
            Err(e) => unsigned_setting(pairs_view(pairs@), key@, default as nat, u32::MAX as nat) == Err::<
                nat,
                ErrorView,
            >(e@),
        },
{
    match get_optional_from_lookup(pairs, key) {
        None => Ok(default),
        Some(v) => match parse_u32(v.as_str()) {
            Some(n) => Ok(n),
            None => Err(config_error(key, " must be a positive integer")),
        },
    }
}

/// A `usize` setting with its default.
pub fn get_usize(pairs: &Vec<(String, String)>, key: &str, default: usize) -> (r: Result<usize, BridgeError>)
    ensures
        match r {
            Ok(n) => unsigned_setting(pairs_view(pairs@), key@, default as nat, usize::MAX as nat) == Ok::<
                nat,
                ErrorView,
            >(n as nat),
            Err(e) => unsigned_setting(pairs_view(pairs@), key@, default as nat, usize::MAX as nat) == Err::<
                nat,
                ErrorView,
            >(e@),
        },
{
    match get_optional_from_lookup(pairs, key) {
        None => Ok(default),
        Some(v) => match parse_usize(v.as_str()) {
            Some(n) => Ok(n),
            None => Err(config_error(key, " must be a positive integer")),
        },
    }
}

/// An optional `u32` setting.
pub fn get_optional_u32(pairs: &Vec<(String, String)>, key: &str) -> (r: Result<Option<u32>, BridgeError>)
    ensures
        match r {
            Ok(Some(n)) => optional_u32_setting(pairs_view(pairs@), key@) == Ok::<Option<nat>, ErrorView>(
                Some(n as nat),
            ),
            Ok(None) => optional_u32_setting(pairs_view(pairs@), key@) == Ok::<Option<nat>, ErrorView>(None),
            Err(e) => optional_u32_setting(pairs_view(pairs@), key@) == Err::<Option<nat>, ErrorView>(e@),
        },
{
    match get_optional_from_lookup(pairs, key) {
        None => Ok(None),
        Some(v) => match parse_u32(v.as_str()) {
            Some(n) => Ok(Some(n)),
            None => Err(config_error(key, " must be a positive integer")),
        },
    }
}

/// An optional string setting, trimmed.
pub fn get_optional_string(pairs: &Vec<(String, String)>, key: &str) -> (r: Option<String>)
    ensures
        opt_str(r) == optional_string_setting(pairs_view(pairs@), key@),
{
    match lookup(pairs, key) {
        Some(v) => {
            let t = trim(v.as_str());
            if t.as_str().is_empty() {
                None
            } else {
                Some(t)
            }
        },
        None => None,
    }
}

} // verus!
