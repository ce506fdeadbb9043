//! Inserting or replacing the entry of a message in a daily document.
use vstd::prelude::*;

use crate::text::{chars_of, find_in, push_str, starts_with, string_from, string_of_range, trim_end, trim_newlines_start};

verus! {

/// The prefix of entries in the AI format.
pub open spec fn ai_start_prefix() -> Seq<char> {
    "<!-- swb:start:"@
}

/// The markers that delimit the entry of `key`, in the format of `entry`.
pub open spec fn markers_spec(entry: Seq<char>, key: Seq<char>) -> (Seq<char>, Seq<char>) {
    if crate::text::starts_with_spec(entry, ai_start_prefix()) {
        ("<!-- swb:start:"@ + key + " -->"@, "<!-- swb:end:"@ + key + " -->"@)
    } else {
        (
            "<!-- sage-wiki-bridge-message-start:"@ + key + " -->"@,
            "<!-- sage-wiki-bridge-message-end:"@ + key + " -->"@,
        )
    }
}

/// The document with `entry` appended after its trimmed text and a blank line.
pub open spec fn appended_spec(current: Seq<char>, entry: Seq<char>) -> Seq<char> {
    crate::text::trim_end_spec(current) + "\n\n"@ + crate::text::trim_end_spec(entry) + "\n"@
}

/// The document with the entry of `key` put in: the first delimited entry
/// of that key is replaced, with what stood before it trimmed, a blank line,
/// the new entry and what followed without its leading newlines; without
/// such an entry the new one is appended.
pub open spec fn upsert_spec(current: Seq<char>, key: Seq<char>, entry: Seq<char>) -> Seq<char> {
    let (start_marker, end_marker) = markers_spec(entry, key);
    match crate::text::find_spec(current, start_marker) {
        None => appended_spec(current, entry),
        Some(start) => match crate::text::find_from(current, end_marker, start) {
            None => appended_spec(current, entry),
            Some(at) => {
                let end = at + end_marker.len();
                crate::text::trim_end_spec(current.take(start)) + "\n\n"@
                    + crate::text::trim_end_spec(entry) + "\n"@
                    + crate::text::trim_newlines_start_spec(current.skip(end))
            },
        },
    }
}

fn markers(entry: &str, key: &str) -> (r: (String, String))
    ensures
        (r.0@, r.1@) == markers_spec(entry@, key@),
{
    let ev = chars_of(entry);
    let pv = chars_of("<!-- swb:start:");
    if starts_with(&ev, &pv) {
        let mut s = string_from("<!-- swb:start:");
        push_str(&mut s, key);
        push_str(&mut s, " -->");
        let mut e = string_from("<!-- swb:end:");
        push_str(&mut e, key);
        push_str(&mut e, " -->");
        (s, e)
    } else {
        let mut s = string_from("<!-- sage-wiki-bridge-message-start:");
        push_str(&mut s, key);
        push_str(&mut s, " -->");
        let mut e = string_from("<!-- sage-wiki-bridge-message-end:");
        push_str(&mut e, key);
        push_str(&mut e, " -->");
        (s, e)
    }
}

fn appended(current: &str, entry: &str) -> (r: String)
    ensures
        r@ == appended_spec(current@, entry@),
{
    let mut next = trim_end(current);
    push_str(&mut next, "\n\n");
    let e = trim_end(entry);
    push_str(&mut next, e.as_str());
    push_str(&mut next, "\n");
    next
}

/// Puts the entry of `message_key` into a daily document (see `upsert_spec`).
pub fn upsert_daily_entry(current: &str, message_key: &str, entry: &str) -> (r: String)
    ensures
        r@ == upsert_spec(current@, message_key@, entry@),
{
    let (start_marker, end_marker) = markers(entry, message_key);
    let cv = chars_of(current);
    let sv = chars_of(start_marker.as_str());
    let ev = chars_of(end_marker.as_str());
    let start = match find_in(&cv, &sv, 0) {
        Some(s) => s,
        None => return appended(current, entry),
    };
    let at = match find_in(&cv, &ev, start) {
        Some(a) => a,
        None => return appended(current, entry),
    };
    let end = at + ev.len();
    let before = string_of_range(&cv, 0, start);
    assert(cv@.subrange(0, start as int) == cv@.take(start as int));
    let after = string_of_range(&cv, end, cv.len());
    assert(cv@.subrange(end as int, cv.len() as int) == cv@.skip(end as int));
    let mut next = trim_end(before.as_str());
    push_str(&mut next, "\n\n");
    let e = trim_end(entry);
    push_str(&mut next, e.as_str());
    push_str(&mut next, "\n");
    let tail = trim_newlines_start(after.as_str());
    push_str(&mut next, tail.as_str());
    next
}

proof fn lemma_no_newline_concat(a: Seq<char>, b: Seq<char>)
    requires
        forall|i: int| 0 <= i < a.len() ==> a[i] != '\n',
        forall|i: int| 0 <= i < b.len() ==> b[i] != '\n',
    ensures
        forall|i: int| 0 <= i < (a + b).len() ==> #[trigger] (a + b)[i] != '\n',
{
    assert forall|i: int| 0 <= i < (a + b).len() implies #[trigger] (a + b)[i] != '\n' by {
        if i < a.len() {
            assert((a + b)[i] == a[i]);
        } else {
            assert((a + b)[i] == b[i - a.len()]);
        }
    }
}

/// The markers of a key without line breaks hold no line break; the start
/// marker begins with `<` and ends with `>`.
proof fn lemma_marker_shape(entry: Seq<char>, key: Seq<char>)
    requires
        forall|i: int| 0 <= i < key.len() ==> key[i] != '\n',
    ensures
        markers_spec(entry, key).0.len() > 0,
        markers_spec(entry, key).0[0] == '<',
        markers_spec(entry, key).0.last() == '>',
        forall|i: int|
            0 <= i < markers_spec(entry, key).0.len() ==> #[trigger] markers_spec(entry, key).0[i]
                != '\n',
{
    reveal_strlit("<!-- swb:start:");
    reveal_strlit("<!-- sage-wiki-bridge-message-start:");
    reveal_strlit(" -->");
    let tail = " -->"@;
    if crate::text::starts_with_spec(entry, ai_start_prefix()) {
        let head = "<!-- swb:start:"@;
        lemma_no_newline_concat(head, key);
        lemma_no_newline_concat(head + key, tail);
        assert((head + key + tail)[0] == head[0]);
        assert((head + key + tail).last() == tail.last());
    } else {
        let head = "<!-- sage-wiki-bridge-message-start:"@;
        lemma_no_newline_concat(head, key);
        lemma_no_newline_concat(head + key, tail);
        assert((head + key + tail)[0] == head[0]);
        assert((head + key + tail).last() == tail.last());
    }
}

proof fn lemma_trim_end_blank_lines(ht: Seq<char>)
    requires
        crate::text::trim_end_spec(ht) == ht,
    ensures
        crate::text::trim_end_spec(ht + "\n\n"@) == ht,
{
    reveal_strlit("\n\n");
    reveal_strlit("\n");
    let a = ht + "\n\n"@;
    let b = ht + "\n"@;
    assert(a.last() == '\n');
    assert(a.drop_last() =~= b);
    assert(b.last() == '\n');
    assert(b.drop_last() =~= ht);
    assert(crate::text::trim_end_spec(b) == crate::text::trim_end_spec(ht));
}

/// In a document made of a trimmed header without the start marker, a blank
/// line and an entry that begins with it, the marker is first found where
/// the entry begins.
proof fn lemma_start_found(header: Seq<char>, sm: Seq<char>, f: Seq<char>)
    requires
        sm.len() > 0,
        sm[0] == '<',
        forall|i: int| 0 <= i < sm.len() ==> #[trigger] sm[i] != '\n',
        crate::text::find_spec(header, sm) is None,
        sm.len() <= f.len(),
        f.take(sm.len() as int) == sm,
    ensures
        crate::text::find_spec(crate::text::trim_end_spec(header) + "\n\n"@ + f + "\n"@, sm) == Some(
            crate::text::trim_end_spec(header).len() as int + 2,
        ),
{
    reveal_strlit("\n\n");
    reveal_strlit("\n");
    let ht = crate::text::trim_end_spec(header);
    crate::text::lemma_trim_end_prefix(header);
    let d1 = ht + "\n\n"@ + f + "\n"@;
    let p: int = ht.len() as int + 2;
    assert(d1.subrange(p, p + sm.len()) =~= f.take(sm.len() as int));
    assert forall|j: int| 0 <= j < p implies !crate::text::occurs_at(d1, sm, j) by {
        if crate::text::occurs_at(d1, sm, j) {
            if j + sm.len() <= ht.len() {
                assert(d1.subrange(j, j + sm.len()) =~= header.subrange(j, j + sm.len())) by {
                    assert forall|i: int| 0 <= i < sm.len() implies #[trigger] d1.subrange(
                        j,
                        j + sm.len(),
                    )[i] == header.subrange(j, j + sm.len())[i] by {
                        assert(d1[j + i] == ht[j + i]);
                        assert(ht[j + i] == header[j + i]);
                    }
                }
                crate::text::lemma_find_from_none(header, sm, 0, j);
            } else if j >= ht.len() {
                assert(d1.subrange(j, j + sm.len())[0] == d1[j]);
            } else {
                assert(d1.subrange(j, j + sm.len())[ht.len() - j] == d1[ht.len() as int]);
            }
        }
    }
    crate::text::lemma_find_from_first(d1, sm, 0, p);
}

/// In a document holding an entry at `p` whose end marker occurs only at
/// its end, the end marker is first found, from `p` on, at that end.
proof fn lemma_end_found(d1: Seq<char>, p: int, f: Seq<char>, em: Seq<char>)
    requires
        0 <= p,
        p + f.len() <= d1.len(),
        d1.subrange(p, p + f.len()) == f,
        crate::text::find_spec(f, em) == Some(f.len() - em.len()),
    ensures
        em.len() <= f.len(),
        crate::text::find_from(d1, em, p) == Some(p + f.len() - em.len()),
{
    crate::text::lemma_find_from_some(f, em, 0);
    let q: int = p + f.len() - em.len();
    assert(d1.subrange(q, q + em.len()) =~= f.subrange(f.len() - em.len(), f.len() as int)) by {
        assert forall|i: int| 0 <= i < em.len() implies #[trigger] d1.subrange(q, q + em.len())[i]
            == f.subrange(f.len() - em.len(), f.len() as int)[i] by {
            assert(d1[q + i] == d1.subrange(p, p + f.len())[q + i - p]);
        }
    }
    assert forall|j: int| p <= j < q implies !crate::text::occurs_at(d1, em, j) by {
        if crate::text::occurs_at(d1, em, j) {
            assert(d1.subrange(j, j + em.len()) =~= f.subrange(j - p, j - p + em.len())) by {
                assert forall|i: int| 0 <= i < em.len() implies #[trigger] d1.subrange(
                    j,
                    j + em.len(),
                )[i] == f.subrange(j - p, j - p + em.len())[i] by {
                    assert(d1[j + i] == d1.subrange(p, p + f.len())[j + i - p]);
                }
            }
            crate::text::lemma_find_from_before(f, em, 0, f.len() - em.len(), j - p);
        }
    }
    crate::text::lemma_find_from_first(d1, em, p, q);
}

/// Writing the entry of a key a second time replaces the first: put into a
/// document without an entry of that key, an entry followed by another one
/// of the same key and format leaves the document the second alone would.
/// Keys hold no line break, and the first entry (trimmed) holds its end
/// marker only at its end.
pub proof fn lemma_upsert_rewrite_replaces(header: Seq<char>, key: Seq<char>, first: Seq<char>, second: Seq<char>)
    requires
        forall|i: int| 0 <= i < key.len() ==> key[i] != '\n',
        markers_spec(first, key) == markers_spec(second, key),
        crate::text::find_spec(header, markers_spec(first, key).0) is None,
        crate::text::starts_with_spec(first, markers_spec(first, key).0),
        crate::text::find_spec(crate::text::trim_end_spec(first), markers_spec(first, key).1) == Some(
            crate::text::trim_end_spec(first).len() - markers_spec(first, key).1.len(),
        ),
    ensures
        upsert_spec(upsert_spec(header, key, first), key, second) == upsert_spec(header, key, second),
{
    let sm = markers_spec(first, key).0;
    let em = markers_spec(first, key).1;
    lemma_marker_shape(first, key);
    let ht = crate::text::trim_end_spec(header);
    let f = crate::text::trim_end_spec(first);
    crate::text::lemma_trim_end_prefix(header);
    crate::text::lemma_trim_end_prefix(first);
    reveal_strlit("\n\n");
    reveal_strlit("\n");
    let d1 = ht + "\n\n"@ + f + "\n"@;
    assert(upsert_spec(header, key, first) == d1);
    assert(first.take(sm.len() as int) == sm);
    assert(sm.len() <= f.len()) by {
        if f.len() < sm.len() {
            assert(first[sm.len() - 1] == sm[sm.len() - 1]);
        }
    }
    assert(f.take(sm.len() as int) =~= sm) by {
        assert forall|i: int| 0 <= i < sm.len() implies f.take(sm.len() as int)[i] == sm[i] by {
            assert(f[i] == first[i]);
            assert(first.take(sm.len() as int)[i] == first[i]);
        }
    }
    lemma_start_found(header, sm, f);
    let p: int = ht.len() as int + 2;
    assert(d1.subrange(p, p + f.len()) =~= f);
    lemma_end_found(d1, p, f, em);
    let end: int = p + f.len();
    assert(d1.skip(end) =~= "\n"@);
    assert(crate::text::trim_newlines_start_spec(Seq::<char>::empty()) == Seq::<char>::empty());
    assert("\n"@.drop_first() =~= Seq::<char>::empty());
    assert(crate::text::trim_newlines_start_spec("\n"@) == Seq::<char>::empty());
    assert(d1.take(p) =~= ht + "\n\n"@);
    assert(crate::text::trim_end_spec(ht) == ht) by {
        if ht.len() > 0 {
            assert(ht.last() == header[ht.len() - 1]);
        }
    }
    lemma_trim_end_blank_lines(ht);
    assert(markers_spec(second, key).0 == sm);
    assert(upsert_spec(d1, key, second) =~= upsert_spec(header, key, second));
}

/// Writing the same entry twice leaves the document as writing it once: a
/// retried message does not duplicate its entry (for a document without an
/// entry of that key, under the same conditions on keys and entries as
/// `lemma_upsert_rewrite_replaces`).
pub proof fn lemma_upsert_is_idempotent(header: Seq<char>, key: Seq<char>, entry: Seq<char>)
    requires
        forall|i: int| 0 <= i < key.len() ==> key[i] != '\n',
        crate::text::find_spec(header, markers_spec(entry, key).0) is None,
        crate::text::starts_with_spec(entry, markers_spec(entry, key).0),
        crate::text::find_spec(crate::text::trim_end_spec(entry), markers_spec(entry, key).1) == Some(
            crate::text::trim_end_spec(entry).len() - markers_spec(entry, key).1.len(),
        ),
    ensures
        upsert_spec(upsert_spec(header, key, entry), key, entry) == upsert_spec(header, key, entry),
{
    lemma_upsert_rewrite_replaces(header, key, entry, entry);
}

proof fn lemma_trim_newlines_start_idempotent(s: Seq<char>)
    ensures
        crate::text::trim_newlines_start_spec(crate::text::trim_newlines_start_spec(s))
            == crate::text::trim_newlines_start_spec(s),
        crate::text::trim_newlines_start_spec(s).len() == 0 || crate::text::trim_newlines_start_spec(s)[0] != '\n',
    decreases s.len(),
{
    if s.len() > 0 && s[0] == '\n' {
        lemma_trim_newlines_start_idempotent(s.drop_first());
    }
}

/// As `lemma_start_found`, with more text after the entry.
proof fn lemma_start_found_before_tail(header: Seq<char>, sm: Seq<char>, f: Seq<char>, t: Seq<char>)
    requires
        sm.len() > 0,
        sm[0] == '<',
        forall|i: int| 0 <= i < sm.len() ==> #[trigger] sm[i] != '\n',
        crate::text::find_spec(header, sm) is None,
        sm.len() <= f.len(),
        f.take(sm.len() as int) == sm,
    ensures
        crate::text::find_spec(crate::text::trim_end_spec(header) + "\n\n"@ + f + "\n"@ + t, sm) == Some(
            crate::text::trim_end_spec(header).len() as int + 2,
        ),
{
    reveal_strlit("\n\n");
    reveal_strlit("\n");
    let ht = crate::text::trim_end_spec(header);
    crate::text::lemma_trim_end_prefix(header);
    let d1 = ht + "\n\n"@ + f + "\n"@ + t;
    let p: int = ht.len() as int + 2;
    assert(d1.subrange(p, p + sm.len()) =~= f.take(sm.len() as int));
    assert forall|j: int| 0 <= j < p implies !crate::text::occurs_at(d1, sm, j) by {
        if crate::text::occurs_at(d1, sm, j) {
            if j + sm.len() <= ht.len() {
                assert(d1.subrange(j, j + sm.len()) =~= header.subrange(j, j + sm.len())) by {
                    assert forall|i: int| 0 <= i < sm.len() implies #[trigger] d1.subrange(
                        j,
                        j + sm.len(),
                    )[i] == header.subrange(j, j + sm.len())[i] by {
                        assert(d1[j + i] == ht[j + i]);
                        assert(ht[j + i] == header[j + i]);
                    }
                }
                crate::text::lemma_find_from_none(header, sm, 0, j);
            } else if j >= ht.len() {
                assert(d1.subrange(j, j + sm.len())[0] == d1[j]);
            } else {
                assert(d1.subrange(j, j + sm.len())[ht.len() - j] == d1[ht.len() as int]);
            }
        }
    }
    crate::text::lemma_find_from_first(d1, sm, 0, p);
}

/// What comes before the first occurrence of a pattern holds no occurrence.
proof fn lemma_prefix_before_first(s: Seq<char>, pat: Seq<char>, start: int)
    requires
        pat.len() > 0,
        crate::text::find_spec(s, pat) == Some(start),
    ensures
        crate::text::find_spec(s.take(start), pat) is None,
{
    crate::text::lemma_find_from_some(s, pat, 0);
    let x = s.take(start);
    crate::text::lemma_find_from_some(x, pat, 0);
    if let Some(k) = crate::text::find_spec(x, pat) {
        assert(x.subrange(k, k + pat.len()) =~= s.subrange(k, k + pat.len()));
        crate::text::lemma_find_from_before(s, pat, 0, start, k);
    }
}

/// A document made of text without the start marker of `key`, a blank line,
/// the (trimmed) entry, a line break and text that does not begin with a
/// line break is left as it is when the same entry is written again.
proof fn lemma_upsert_keeps_written_document(x: Seq<char>, key: Seq<char>, entry: Seq<char>, t: Seq<char>)
    requires
        forall|i: int| 0 <= i < key.len() ==> key[i] != '\n',
        crate::text::find_spec(x, markers_spec(entry, key).0) is None,
        crate::text::starts_with_spec(entry, markers_spec(entry, key).0),
        crate::text::find_spec(crate::text::trim_end_spec(entry), markers_spec(entry, key).1) == Some(
            crate::text::trim_end_spec(entry).len() - markers_spec(entry, key).1.len(),
        ),
        crate::text::trim_newlines_start_spec(t) == t,
    ensures
        ({
            let d = crate::text::trim_end_spec(x) + "\n\n"@ + crate::text::trim_end_spec(entry) + "\n"@ + t;
            &&& upsert_spec(d, key, entry) == d
            &&& crate::text::find_spec(d, markers_spec(entry, key).0) == Some(
                crate::text::trim_end_spec(x).len() as int + 2,
            )
        }),
{
    let sm = markers_spec(entry, key).0;
    let em = markers_spec(entry, key).1;
    lemma_marker_shape(entry, key);
    let ht = crate::text::trim_end_spec(x);
    let f = crate::text::trim_end_spec(entry);
    crate::text::lemma_trim_end_prefix(x);
    crate::text::lemma_trim_end_prefix(entry);
    reveal_strlit("\n\n");
    reveal_strlit("\n");
    let d = ht + "\n\n"@ + f + "\n"@ + t;
    assert(entry.take(sm.len() as int) == sm);
    assert(sm.len() <= f.len()) by {
        if f.len() < sm.len() {
            assert(entry[sm.len() - 1] == sm[sm.len() - 1]);
        }
    }
    assert(f.take(sm.len() as int) =~= sm) by {
        assert forall|i: int| 0 <= i < sm.len() implies f.take(sm.len() as int)[i] == sm[i] by {
            assert(f[i] == entry[i]);
            assert(entry.take(sm.len() as int)[i] == entry[i]);
        }
    }
    lemma_start_found_before_tail(x, sm, f, t);
    let p: int = ht.len() as int + 2;
    assert(d.subrange(p, p + f.len()) =~= f);
    lemma_end_found(d, p, f, em);
    let end: int = p + f.len();
    assert(d.skip(end) =~= "\n"@ + t);
    assert(("\n"@ + t).drop_first() =~= t);
    assert(crate::text::trim_newlines_start_spec("\n"@ + t) == crate::text::trim_newlines_start_spec(t));
    assert(d.take(p) =~= ht + "\n\n"@);
    assert(crate::text::trim_end_spec(ht) == ht) by {
        if ht.len() > 0 {
            assert(ht.last() == x[ht.len() - 1]);
        }
    }
    lemma_trim_end_blank_lines(ht);
    assert(upsert_spec(d, key, entry) =~= d);
}

/// Putting an entry into a daily document keeps what was around it and is
/// stable: where the document holds no entry of the key, or holds one whose
/// end marker follows its start marker, the result holds the (trimmed)
/// entry right after the text before the old entry (trimmed, then a blank
/// line), followed by the text after the old entry (without leading line
/// breaks); its first start marker of the key is the new entry's; and
/// writing the same entry into the result again changes nothing.
pub proof fn lemma_upsert_keeps_context_and_is_stable(current: Seq<char>, key: Seq<char>, entry: Seq<char>)
    requires
        forall|i: int| 0 <= i < key.len() ==> key[i] != '\n',
        crate::text::starts_with_spec(entry, markers_spec(entry, key).0),
        crate::text::find_spec(crate::text::trim_end_spec(entry), markers_spec(entry, key).1) == Some(
            crate::text::trim_end_spec(entry).len() - markers_spec(entry, key).1.len(),
        ),
        crate::text::find_spec(current, markers_spec(entry, key).0) matches Some(s)
            ==> crate::text::find_from(current, markers_spec(entry, key).1, s) is Some,
    ensures
        ({
            let sm = markers_spec(entry, key).0;
            let em = markers_spec(entry, key).1;
            let result = upsert_spec(current, key, entry);
            let (before, after) = match crate::text::find_spec(current, sm) {
                None => (current, Seq::<char>::empty()),
                Some(s) => {
                    let at = crate::text::find_from(current, em, s)->Some_0;
                    (current.take(s), crate::text::trim_newlines_start_spec(current.skip(at + em.len())))
                },
            };
            &&& result == crate::text::trim_end_spec(before) + "\n\n"@ + crate::text::trim_end_spec(entry) + "\n"@ + after
            &&& crate::text::find_spec(result, sm) == Some(crate::text::trim_end_spec(before).len() as int + 2)
            &&& upsert_spec(result, key, entry) == result
        }),
{
    let sm = markers_spec(entry, key).0;
    let em = markers_spec(entry, key).1;
    reveal_strlit("\n\n");
    reveal_strlit("\n");
    match crate::text::find_spec(current, sm) {
        None => {
            let e: Seq<char> = Seq::empty();
            assert(crate::text::trim_newlines_start_spec(e) == e);
            assert(upsert_spec(current, key, entry) =~= crate::text::trim_end_spec(current) + "\n\n"@
                + crate::text::trim_end_spec(entry) + "\n"@ + e);
            lemma_upsert_keeps_written_document(current, key, entry, e);
        },
        Some(s) => {
            let at = crate::text::find_from(current, em, s)->Some_0;
            let t = crate::text::trim_newlines_start_spec(current.skip(at + em.len()));
            lemma_trim_newlines_start_idempotent(current.skip(at + em.len()));
            lemma_marker_shape(entry, key);
            lemma_prefix_before_first(current, sm, s);
            lemma_upsert_keeps_written_document(current.take(s), key, entry, t);
        },
    }
}

proof fn lemma_trim_newlines_start_suffix(s: Seq<char>)
    ensures
        crate::text::trim_newlines_start_spec(s).len() <= s.len(),
        crate::text::trim_newlines_start_spec(s) == s.skip(
            s.len() - crate::text::trim_newlines_start_spec(s).len(),
        ),
    decreases s.len(),
{
    if s.len() > 0 && s[0] == '\n' {
        lemma_trim_newlines_start_suffix(s.drop_first());
        let t = crate::text::trim_newlines_start_spec(s);
        assert(s.drop_first().skip(s.len() - 1 - t.len()) =~= s.skip(s.len() - t.len()));
    } else {
        assert(s.skip(0) =~= s);
    }
}

/// An occurrence in `s` that lies within `a..b` is one in that part.
proof fn lemma_occurs_within(s: Seq<char>, pat: Seq<char>, j: int, a: int, b: int)
    requires
        crate::text::occurs_at(s, pat, j),
        0 <= a <= j,
        j + pat.len() <= b <= s.len(),
    ensures
        crate::text::occurs_at(s.subrange(a, b), pat, j - a),
{
    assert(s.subrange(a, b).subrange(j - a, j - a + pat.len()) =~= s.subrange(j, j + pat.len()));
}

/// An occurrence of a pattern without line breaks covers no line break.
proof fn lemma_occurs_without_newline(s: Seq<char>, pat: Seq<char>, j: int, n: int)
    requires
        crate::text::occurs_at(s, pat, j),
        j <= n < j + pat.len(),
        forall|i: int| 0 <= i < pat.len() ==> #[trigger] pat[i] != '\n',
    ensures
        s[n] != '\n',
{
    assert(s[n] == s.subrange(j, j + pat.len())[n - j]);
}

/// An occurrence of a pattern without line breaks in `tb`, two line breaks,
/// `te`, a line break and `after` lies in one of the three parts.
proof fn lemma_occurrence_in_parts(tb: Seq<char>, te: Seq<char>, after: Seq<char>, pat: Seq<char>, j: int)
    requires
        crate::text::occurs_at(tb + "\n\n"@ + te + "\n"@ + after, pat, j),
        pat.len() > 0,
        forall|i: int| 0 <= i < pat.len() ==> #[trigger] pat[i] != '\n',
    ensures
        crate::text::occurs_at(tb, pat, j) || crate::text::occurs_at(te, pat, j - tb.len() - 2)
            || crate::text::occurs_at(after, pat, j - tb.len() - te.len() - 3),
{
    reveal_strlit("\n\n");
    reveal_strlit("\n");
    let result = tb + "\n\n"@ + te + "\n"@ + after;
    let l = pat.len() as int;
    let a: int = tb.len() as int + 2;
    let b: int = a + te.len();
    assert(result[tb.len() as int] == '\n');
    assert(result[tb.len() as int + 1] == '\n');
    assert(result[b] == '\n');
    if j + l <= tb.len() {
        lemma_occurs_within(result, pat, j, 0, tb.len() as int);
        assert(result.subrange(0, tb.len() as int) =~= tb);
    } else if j < a {
        let n = if j < tb.len() { tb.len() as int } else { j };
        lemma_occurs_without_newline(result, pat, j, n);
    } else if j <= b {
        if j + l > b {
            lemma_occurs_without_newline(result, pat, j, b);
        } else {
            lemma_occurs_within(result, pat, j, a, b);
            assert(result.subrange(a, b) =~= te);
        }
    } else {
        lemma_occurs_within(result, pat, j, b + 1, result.len() as int);
        assert(result.subrange(b + 1, result.len() as int) =~= after);
    }
}

/// Where the entry holds its start marker only at its beginning and the
/// document holds that marker at most once (followed by its end marker),
/// the document after the entry is put in holds the start marker exactly
/// once: where it is first found.
pub proof fn lemma_upsert_marks_the_entry_once(current: Seq<char>, key: Seq<char>, entry: Seq<char>)
    requires
        forall|i: int| 0 <= i < key.len() ==> key[i] != '\n',
        crate::text::starts_with_spec(entry, markers_spec(entry, key).0),
        crate::text::find_spec(crate::text::trim_end_spec(entry), markers_spec(entry, key).1) == Some(
            crate::text::trim_end_spec(entry).len() - markers_spec(entry, key).1.len(),
        ),
        forall|j: int| #[trigger] crate::text::occurs_at(entry, markers_spec(entry, key).0, j) ==> j == 0,
        forall|j1: int, j2: int|
            #[trigger] crate::text::occurs_at(current, markers_spec(entry, key).0, j1)
                && #[trigger] crate::text::occurs_at(current, markers_spec(entry, key).0, j2) ==> j1 == j2,
        crate::text::find_spec(current, markers_spec(entry, key).0) matches Some(s)
            ==> crate::text::find_from(current, markers_spec(entry, key).1, s) is Some,
    ensures
        crate::text::find_spec(upsert_spec(current, key, entry), markers_spec(entry, key).0) is Some,
        forall|j: int|
            #[trigger] crate::text::occurs_at(upsert_spec(current, key, entry), markers_spec(entry, key).0, j)
                ==> crate::text::find_spec(upsert_spec(current, key, entry), markers_spec(entry, key).0)
                == Some(j),
{
    let sm = markers_spec(entry, key).0;
    let em = markers_spec(entry, key).1;
    let result = upsert_spec(current, key, entry);
    lemma_upsert_keeps_context_and_is_stable(current, key, entry);
    lemma_marker_shape(entry, key);
    reveal_strlit(" -->");
    let (before, after) = match crate::text::find_spec(current, sm) {
        None => (current, Seq::<char>::empty()),
        Some(s) => {
            let at = crate::text::find_from(current, em, s)->Some_0;
            (current.take(s), crate::text::trim_newlines_start_spec(current.skip(at + em.len())))
        },
    };
    let tb = crate::text::trim_end_spec(before);
    let te = crate::text::trim_end_spec(entry);
    crate::text::lemma_trim_end_prefix(before);
    crate::text::lemma_trim_end_prefix(entry);
    assert(result == tb + "\n\n"@ + te + "\n"@ + after);
    let l = sm.len() as int;
    assert forall|j: int| #[trigger] crate::text::occurs_at(result, sm, j) implies crate::text::find_spec(result, sm)
        == Some(j) by {
        lemma_occurrence_in_parts(tb, te, after, sm, j);
        if crate::text::occurs_at(tb, sm, j) {
            assert(current.subrange(j, j + l) =~= tb.subrange(j, j + l));
            match crate::text::find_spec(current, sm) {
                None => {
                    crate::text::lemma_find_from_none(current, sm, 0, j);
                },
                Some(s) => {
                    crate::text::lemma_find_from_before(current, sm, 0, s, j);
                },
            }
        } else if crate::text::occurs_at(te, sm, j - tb.len() - 2) {
            let q = j - tb.len() - 2;
            assert(entry.subrange(q, q + l) =~= te.subrange(q, q + l));
            assert(crate::text::occurs_at(entry, sm, q));
        } else {
            match crate::text::find_spec(current, sm) {
                None => {},
                Some(s) => {
                    let at = crate::text::find_from(current, em, s)->Some_0;
                    let rest = current.skip(at + em.len());
                    crate::text::lemma_find_from_some(current, sm, 0);
                    crate::text::lemma_find_from_some(current, em, s);
                    lemma_trim_newlines_start_suffix(rest);
                    let k = rest.len() - after.len();
                    let q = j - tb.len() - te.len() - 3;
                    let c = at + em.len() + k + q;
                    assert(current.subrange(c, c + l) =~= after.subrange(q, q + l));
                    assert(crate::text::occurs_at(current, sm, c));
                    assert(em.len() > 0);
                },
            }
        }
    }
}

} // verus!
