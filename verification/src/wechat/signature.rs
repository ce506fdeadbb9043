//! WeChat callback signatures: the SHA-1 of the lexicographically sorted
//! parameters, in lower-case hex.
use vstd::prelude::*;

use crate::digest::{self, bytes_eq_constant_time, sha1_digest};
use crate::text::{self, chars_of, hex_lower, push_char};

verus! {

/// Lexicographic order on strings, by code point (the order of `str`'s `Ord`
/// on UTF-8 text).
pub open spec fn str_le(a: Seq<char>, b: Seq<char>) -> bool
    decreases a.len(),
{
    if a.len() == 0 {
        true
    } else if b.len() == 0 {
        false
    } else if a[0] != b[0] {
        (a[0] as u32) < (b[0] as u32)
    } else {
        str_le(a.drop_first(), b.drop_first())
    }
}

/// `x` placed into the sorted list `s` before the first element it does not exceed.
pub open spec fn insert_sorted(x: Seq<char>, s: Seq<Seq<char>>) -> Seq<Seq<char>>
    decreases s.len(),
{
    if s.len() == 0 {
        seq![x]
    } else if str_le(x, s[0]) {
        seq![x] + s
    } else {
        seq![s[0]] + insert_sorted(x, s.drop_first())
    }
}

/// The strings in ascending lexicographic order.
pub open spec fn sort_spec(s: Seq<Seq<char>>) -> Seq<Seq<char>>
    decreases s.len(),
{
    if s.len() == 0 {
        Seq::empty()
    } else {
        insert_sorted(s.last(), sort_spec(s.drop_last()))
    }
}

/// The strings written one after another.
pub open spec fn concat_spec(s: Seq<Seq<char>>) -> Seq<char>
    decreases s.len(),
{
    if s.len() == 0 {
        Seq::empty()
    } else {
        concat_spec(s.drop_last()) + s.last()
    }
}

/// The signature of a list of parameters: the lower-case hex SHA-1 of the
/// UTF-8 bytes of the sorted parameters, concatenated.
pub open spec fn signature_spec(parts: Seq<Seq<char>>) -> Seq<char> {
    text::hex_spec(digest::sha1_spec(vstd::utf8::encode_utf8(concat_spec(sort_spec(parts)))))
}

/// The views of a list of character vectors.
pub open spec fn views(v: Seq<Vec<char>>) -> Seq<Seq<char>> {
    v.map_values(|x: Vec<char>| x@)
}

/// Whether `a` precedes or equals `b` lexicographically.
fn chars_le(a: &Vec<char>, b: &Vec<char>) -> (r: bool)
    ensures
        r == str_le(a@, b@),
{
    let mut i: usize = 0;
    assert(a@.skip(0) == a@ && b@.skip(0) == b@);
    while i < a.len() && i < b.len() && a[i] == b[i]
        invariant
            i <= a.len(),
            i <= b.len(),
            str_le(a@, b@) == str_le(a@.skip(i as int), b@.skip(i as int)),
        decreases a.len() - i,
    {
        assert(a@.skip(i as int).drop_first() == a@.skip(i + 1));
        assert(b@.skip(i as int).drop_first() == b@.skip(i + 1));
        i += 1;
    }
    assert(a@.skip(i as int).len() > 0 ==> a@.skip(i as int)[0] == a@[i as int]);
    assert(b@.skip(i as int).len() > 0 ==> b@.skip(i as int)[0] == b@[i as int]);
    if i == a.len() {
        true
    } else if i == b.len() {
        false
    } else {
        (a[i] as u32) < (b[i] as u32)
    }
}

proof fn lemma_insert_sorted_at(x: Seq<char>, s: Seq<Seq<char>>, k: int)
    requires
        0 <= k <= s.len(),
        forall|j: int| 0 <= j < k ==> !str_le(x, #[trigger] s[j]),
        k < s.len() ==> str_le(x, s[k]),
    ensures
        insert_sorted(x, s) == s.take(k) + seq![x] + s.skip(k),
    decreases k,
{
    if k == 0 {
        assert(s.take(0) + seq![x] + s.skip(0) =~= seq![x] + s);
        if s.len() == 0 {
            assert(seq![x] + s =~= seq![x]);
        }
    } else {
        let t = s.drop_first();
        assert forall|j: int| 0 <= j < k - 1 implies !str_le(x, #[trigger] t[j]) by {
            assert(t[j] == s[j + 1]);
        }
        assert(k - 1 < t.len() ==> t[k - 1] == s[k]);
        lemma_insert_sorted_at(x, t, k - 1);
        assert(!str_le(x, s[0]));
        assert(seq![s[0]] + (t.take(k - 1) + seq![x] + t.skip(k - 1)) =~= s.take(k) + seq![x]
            + s.skip(k));
    }
}

/// Inserts `x` into the sorted list `s`, as `insert_sorted` does.
fn insert_sorted_exec(s: &mut Vec<Vec<char>>, x: Vec<char>)
    ensures
        views(final(s)@) == insert_sorted(x@, views(old(s)@)),
{
    let ghost xs = views(s@);
    let mut k: usize = 0;
    while k < s.len() && !chars_le(&x, &s[k])
        invariant
            k <= s.len(),
            xs == views(s@),
            forall|j: int| 0 <= j < k ==> !str_le(x@, #[trigger] xs[j]),
        decreases s.len() - k,
    {
        k += 1;
    }
    proof {
        lemma_insert_sorted_at(x@, xs, k as int);
    }
    let ghost xv = x@;
    let ghost before = s@;
    s.insert(k, x);
    assert(views(s@) =~= xs.take(k as int) + seq![xv] + xs.skip(k as int)) by {
        assert(s@ == before.insert(k as int, x));
    }
}

/// The parameters sorted, as `sort_unstable` orders them.
fn sort_parts(parts: &Vec<Vec<char>>) -> (r: Vec<Vec<char>>)
    ensures
        views(r@) == sort_spec(views(parts@)),
{
    let mut sorted: Vec<Vec<char>> = Vec::new();
    let mut i: usize = 0;
    while i < parts.len()
        invariant
            i <= parts.len(),
            views(sorted@) == sort_spec(views(parts@).take(i as int)),
        decreases parts.len() - i,
    {
        let ghost prefix = views(parts@).take(i + 1);
        assert(prefix.drop_last() == views(parts@).take(i as int));
        assert(prefix.last() == parts@[i as int]@);
        insert_sorted_exec(&mut sorted, parts[i].clone());
        i += 1;
    }
    assert(views(parts@).take(parts.len() as int) == views(parts@));
    sorted
}

/// The signature of a list of parameters.
fn signature_of(parts: &Vec<Vec<char>>) -> (r: String)
    ensures
        r@ == signature_spec(views(parts@)),
{
    let sorted = sort_parts(parts);
    let mut joined = String::new();
    let mut i: usize = 0;
    while i < sorted.len()
        invariant
            i <= sorted.len(),
            joined@ == concat_spec(views(sorted@).take(i as int)),
        decreases sorted.len() - i,
    {
        let part = &sorted[i];
        let mut k: usize = 0;
        let ghost start = joined@;
        while k < part.len()
            invariant
                k <= part.len(),
                joined@ == start + part@.take(k as int),
            decreases part.len() - k,
        {
            push_char(&mut joined, part[k]);
            assert(part@.take(k + 1) == part@.take(k as int).push(part@[k as int]));
            k += 1;
        }
        assert(part@.take(part.len() as int) == part@);
        let ghost prefix = views(sorted@).take(i + 1);
        assert(prefix.drop_last() == views(sorted@).take(i as int));
        i += 1;
    }
    assert(views(sorted@).take(sorted.len() as int) == views(sorted@));
    let digest = sha1_digest(joined.as_str().as_bytes());
    hex_lower(digest.as_slice())
}

/// The signature WeChat puts on a plain callback.
pub fn calculate_signature(token: &str, timestamp: &str, nonce: &str) -> (r: String)
    ensures
        r@ == signature_spec(seq![token@, timestamp@, nonce@]),
{
    let mut parts: Vec<Vec<char>> = Vec::new();
    parts.push(chars_of(token));
    parts.push(chars_of(timestamp));
    parts.push(chars_of(nonce));
    assert(views(parts@) =~= seq![token@, timestamp@, nonce@]);
    signature_of(&parts)
}

/// The signature WeChat puts on an encrypted callback.
pub fn calculate_encrypted_signature(
    token: &str,
    timestamp: &str,
    nonce: &str,
    encrypted_payload: &str,
) -> (r: String)
    ensures
        r@ == signature_spec(seq![token@, timestamp@, nonce@, encrypted_payload@]),
{
    let mut parts: Vec<Vec<char>> = Vec::new();
    parts.push(chars_of(token));
    parts.push(chars_of(timestamp));
    parts.push(chars_of(nonce));
    parts.push(chars_of(encrypted_payload));
    assert(views(parts@) =~= seq![token@, timestamp@, nonce@, encrypted_payload@]);
    signature_of(&parts)
}

proof fn lemma_encode_utf8_injective(a: Seq<char>, b: Seq<char>)
    ensures
        (vstd::utf8::encode_utf8(a) == vstd::utf8::encode_utf8(b)) == (a == b),
{
    vstd::utf8::encode_utf8_decode_utf8(a);
    vstd::utf8::encode_utf8_decode_utf8(b);
}

/// Whether two strings are equal, compared in constant time over their bytes.
fn str_eq_constant_time(a: &str, b: &str) -> (r: bool)
    ensures
        r == (a@ == b@),
{
    let r = bytes_eq_constant_time(a.as_bytes(), b.as_bytes());
    proof {
        lemma_encode_utf8_injective(a@, b@);
    }
    r
}

/// Whether `signature` is the signature of a plain callback.
pub fn verify_signature(token: &str, timestamp: &str, nonce: &str, signature: &str) -> (r: bool)
    ensures
        r == (signature@ == signature_spec(seq![token@, timestamp@, nonce@])),
{
    let expected = calculate_signature(token, timestamp, nonce);
    str_eq_constant_time(expected.as_str(), signature)
}

/// Whether `signature` is the signature of an encrypted callback.
pub fn verify_encrypted_signature(
    token: &str,
    timestamp: &str,
    nonce: &str,
    encrypted_payload: &str,
    signature: &str,
) -> (r: bool)
    ensures
        r == (signature@ == signature_spec(seq![token@, timestamp@, nonce@, encrypted_payload@])),
{
    let expected = calculate_encrypted_signature(token, timestamp, nonce, encrypted_payload);
    str_eq_constant_time(expected.as_str(), signature)
}

/// `str_le` as a relation.
pub open spec fn str_order() -> spec_fn(Seq<char>, Seq<char>) -> bool {
    |a: Seq<char>, b: Seq<char>| str_le(a, b)
}

proof fn lemma_str_le_reflexive(a: Seq<char>)
    ensures
        str_le(a, a),
    decreases a.len(),
{
    if a.len() > 0 {
        lemma_str_le_reflexive(a.drop_first());
    }
}

proof fn lemma_str_le_antisymmetric(a: Seq<char>, b: Seq<char>)
    requires
        str_le(a, b),
        str_le(b, a),
    ensures
        a == b,
    decreases a.len(),
{
    if a.len() > 0 && b.len() > 0 && a[0] == b[0] {
        lemma_str_le_antisymmetric(a.drop_first(), b.drop_first());
        assert(a =~= seq![a[0]] + a.drop_first());
        assert(b =~= seq![b[0]] + b.drop_first());
    } else {
        assert(a =~= b);
    }
}

proof fn lemma_str_le_transitive(a: Seq<char>, b: Seq<char>, c: Seq<char>)
    requires
        str_le(a, b),
        str_le(b, c),
    ensures
        str_le(a, c),
    decreases a.len(),
{
    if a.len() > 0 && b.len() > 0 && c.len() > 0 && a[0] == b[0] && b[0] == c[0] {
        lemma_str_le_transitive(a.drop_first(), b.drop_first(), c.drop_first());
    }
}

proof fn lemma_str_le_total(a: Seq<char>, b: Seq<char>)
    ensures
        str_le(a, b) || str_le(b, a),
    decreases a.len(),
{
    if a.len() > 0 && b.len() > 0 {
        if a[0] == b[0] {
            lemma_str_le_total(a.drop_first(), b.drop_first());
        } else {
            vstd::utf8::char_u32_cast(a[0], a[0] as u32);
            vstd::utf8::char_u32_cast(b[0], b[0] as u32);
        }
    }
}

proof fn lemma_str_order_total()
    ensures
        vstd::relations::total_ordering(str_order()),
{
    assert forall|x: Seq<char>| #[trigger] str_order()(x, x) by {
        lemma_str_le_reflexive(x);
    }
    assert forall|x: Seq<char>, y: Seq<char>| #[trigger] str_order()(x, y) && #[trigger] str_order()(y, x)
        implies x == y by {
        lemma_str_le_antisymmetric(x, y);
    }
    assert forall|x: Seq<char>, y: Seq<char>, z: Seq<char>|
        #[trigger] str_order()(x, y) && #[trigger] str_order()(y, z) implies str_order()(x, z) by {
        lemma_str_le_transitive(x, y, z);
    }
    assert forall|x: Seq<char>, y: Seq<char>| #[trigger] str_order()(x, y) || #[trigger] str_order()(y, x) by {
        lemma_str_le_total(x, y);
    }
}

proof fn lemma_insert_sorted_keeps_order(x: Seq<char>, s: Seq<Seq<char>>)
    requires
        vstd::relations::sorted_by(s, str_order()),
    ensures
        vstd::relations::sorted_by(insert_sorted(x, s), str_order()),
        insert_sorted(x, s).to_multiset() =~= s.to_multiset().insert(x),
    decreases s.len(),
{
    broadcast use vstd::seq_lib::group_to_multiset_ensures;
    broadcast use vstd::multiset::group_multiset_axioms;

    lemma_str_order_total();
    if s.len() == 0 {
        assert(seq![x] =~= Seq::<Seq<char>>::empty().push(x));
    } else if str_le(x, s[0]) {
        let r = seq![x] + s;
        assert forall|i: int, j: int| 0 <= i < j < r.len() implies #[trigger] str_order()(r[i], r[j]) by {
            if i == 0 {
                if j > 1 {
                    assert(str_order()(s[0], s[j - 1]));
                    lemma_str_le_transitive(x, s[0], s[j - 1]);
                }
            } else {
                assert(str_order()(s[i - 1], s[j - 1]));
            }
        }
        vstd::seq_lib::lemma_multiset_commutative(seq![x], s);
        assert(seq![x] =~= Seq::<Seq<char>>::empty().push(x));
    } else {
        let t = s.drop_first();
        assert forall|i: int, j: int| 0 <= i < j < t.len() implies #[trigger] str_order()(t[i], t[j]) by {
            assert(str_order()(s[i + 1], s[j + 1]));
        }
        lemma_insert_sorted_keeps_order(x, t);
        lemma_str_le_total(x, s[0]);
        let tail = insert_sorted(x, t);
        let r = seq![s[0]] + tail;
        assert forall|i: int, j: int| 0 <= i < j < r.len() implies #[trigger] str_order()(r[i], r[j]) by {
            if i == 0 {
                let e = tail[j - 1];
                assert(tail.to_multiset().count(e) > 0);
                assert(tail.contains(e));
                if e == x {
                } else {
                    assert(t.to_multiset().count(e) > 0);
                    assert(t.contains(e));
                    let k = choose|k: int| 0 <= k < t.len() && t[k] == e;
                    assert(str_order()(s[0], s[k + 1]));
                }
            } else {
                assert(str_order()(tail[i - 1], tail[j - 1]));
            }
        }
        vstd::seq_lib::lemma_multiset_commutative(seq![s[0]], tail);
        vstd::seq_lib::lemma_multiset_commutative(seq![s[0]], t);
        assert(seq![s[0]] + t =~= s);
        assert(seq![s[0]] =~= Seq::<Seq<char>>::empty().push(s[0]));
    }
}

proof fn lemma_sort_spec_sorted(s: Seq<Seq<char>>)
    ensures
        vstd::relations::sorted_by(sort_spec(s), str_order()),
        sort_spec(s).to_multiset() =~= s.to_multiset(),
    decreases s.len(),
{
    broadcast use vstd::seq_lib::group_to_multiset_ensures;

    if s.len() > 0 {
        lemma_sort_spec_sorted(s.drop_last());
        lemma_insert_sorted_keeps_order(s.last(), sort_spec(s.drop_last()));
        assert(s.drop_last().push(s.last()) =~= s);
    }
}

/// A signature does not depend on the order of its parameters: any two
/// lists with the same parameters, each as often, have the same signature.
pub proof fn lemma_signature_order_independent(a: Seq<Seq<char>>, b: Seq<Seq<char>>)
    requires
        a.to_multiset() == b.to_multiset(),
    ensures
        signature_spec(a) == signature_spec(b),
{
    lemma_sort_spec_sorted(a);
    lemma_sort_spec_sorted(b);
    lemma_str_order_total();
    vstd::seq_lib::lemma_sorted_unique(sort_spec(a), sort_spec(b), str_order());
}

} // verus!
