use vstd::prelude::*;
use vstd::relations::*;
use vstd::seq_lib::*;
use vstd::utf8::*;

use crate::text::texts;

verus! {

/// Byte-wise lexicographic order: `a` comes no later than `b`. A proper prefix
/// comes first. This is how the standard library orders `OsStr` values on Unix.
pub open spec fn bytes_le(a: Seq<u8>, b: Seq<u8>) -> bool
    decreases a.len(),
{
    if a.len() == 0 {
        true
    } else if b.len() == 0 {
        false
    } else if a[0] != b[0] {
        a[0] < b[0]
    } else {
        bytes_le(a.drop_first(), b.drop_first())
    }
}

/// Directory name `a` is tried no later than `b`: its UTF-8 bytes are greater
/// than or equal to those of `b`.
pub open spec fn no_later_descending(a: Seq<char>, b: Seq<char>) -> bool {
    bytes_le(encode_utf8(b), encode_utf8(a))
}

/// Descending byte order on directory names, as a relation.
pub open spec fn descending_bytes_order() -> spec_fn(Seq<char>, Seq<char>) -> bool {
    |a: Seq<char>, b: Seq<char>| no_later_descending(a, b)
}

proof fn lemma_bytes_le_reflexive(a: Seq<u8>)
    ensures
        bytes_le(a, a),
    decreases a.len(),
{
    if a.len() > 0 {
        lemma_bytes_le_reflexive(a.drop_first());
    }
}

proof fn lemma_bytes_le_antisymmetric(a: Seq<u8>, b: Seq<u8>)
    requires
        bytes_le(a, b),
        bytes_le(b, a),
    ensures
        a == b,
    decreases a.len(),
{
    if a.len() > 0 && b.len() > 0 {
        lemma_bytes_le_antisymmetric(a.drop_first(), b.drop_first());
        assert(a =~= seq![a[0]] + a.drop_first());
        assert(b =~= seq![b[0]] + b.drop_first());
    }
}

proof fn lemma_bytes_le_transitive(a: Seq<u8>, b: Seq<u8>, c: Seq<u8>)
    requires
        bytes_le(a, b),
        bytes_le(b, c),
    ensures
        bytes_le(a, c),
    decreases a.len(),
{
    if a.len() > 0 && b.len() > 0 && c.len() > 0 {
        if a[0] == b[0] && b[0] == c[0] {
            lemma_bytes_le_transitive(a.drop_first(), b.drop_first(), c.drop_first());
        }
    }
}

proof fn lemma_bytes_le_total(a: Seq<u8>, b: Seq<u8>)
    ensures
        bytes_le(a, b) || bytes_le(b, a),
    decreases a.len(),
{
    if a.len() > 0 && b.len() > 0 && a[0] == b[0] {
        lemma_bytes_le_total(a.drop_first(), b.drop_first());
    }
}

/// Descending byte order is a total order on texts.
pub proof fn lemma_descending_bytes_total()
    ensures
        total_ordering(descending_bytes_order()),
{
    let r = descending_bytes_order();
    assert forall|x: Seq<char>| #[trigger] r(x, x) by {
        lemma_bytes_le_reflexive(encode_utf8(x));
    }
    assert forall|x: Seq<char>, y: Seq<char>| #[trigger] r(x, y) && #[trigger] r(y, x) implies x
        == y by {
        lemma_bytes_le_antisymmetric(encode_utf8(x), encode_utf8(y));
        encode_utf8_decode_utf8(x);
        encode_utf8_decode_utf8(y);
    }
    assert forall|x: Seq<char>, y: Seq<char>, z: Seq<char>| #[trigger]
        r(x, y) && #[trigger] r(y, z) implies r(x, z) by {
        lemma_bytes_le_transitive(encode_utf8(z), encode_utf8(y), encode_utf8(x));
    }
    assert forall|x: Seq<char>, y: Seq<char>| #[trigger] r(x, y) || #[trigger] r(y, x) by {
        lemma_bytes_le_total(encode_utf8(x), encode_utf8(y));
    }
}

/// Compares two byte strings in byte-wise lexicographic order.
fn bytes_at_most(a: &[u8], b: &[u8]) -> (r: bool)
    ensures
        r == bytes_le(a@, b@),
{
    let mut i: usize = 0;
    assert(a@.skip(0) =~= a@);
    assert(b@.skip(0) =~= b@);
    while i < a.len() && i < b.len()
        invariant
            i <= a@.len(),
            i <= b@.len(),
            bytes_le(a@, b@) == bytes_le(a@.skip(i as int), b@.skip(i as int)),
        decreases a.len() - i,
    {
        if a[i] != b[i] {
            return a[i] < b[i];
        }
        assert(a@.skip(i as int).drop_first() =~= a@.skip(i + 1));
        assert(b@.skip(i as int).drop_first() =~= b@.skip(i + 1));
        i = i + 1;
    }
    i == a.len()
}

/// Whether directory name `a` is tried no later than `b`.
fn is_no_later_descending(a: &String, b: &String) -> (r: bool)
    ensures
        r == no_later_descending(a@, b@),
{
    bytes_at_most(b.as_str().as_bytes(), a.as_str().as_bytes())
}

/// Orders directory names by their UTF-8 bytes, greatest first (so `v9` comes
/// before `v20`), which is the reverse of how paths that differ in one
/// component are ordered on Unix.
pub fn sort_descending_by_bytes(names: Vec<String>) -> (r: Vec<String>)
    ensures
        texts(r@) == texts(names@).sort_by(descending_bytes_order()),
{
    broadcast use group_to_multiset_ensures;

    proof {
        lemma_descending_bytes_total();
    }
    let ghost ord = descending_bytes_order();
    let mut result: Vec<String> = Vec::new();
    let mut i: usize = 0;
    while i < names.len()
        invariant
            i <= names@.len(),
            ord == descending_bytes_order(),
            total_ordering(ord),
            sorted_by(texts(result@), ord),
            texts(result@).to_multiset() == texts(names@.subrange(0, i as int)).to_multiset(),
        decreases names.len() - i,
    {
        let name = names[i].clone();
        let mut j: usize = 0;
        while j < result.len() && is_no_later_descending(&result[j], &name)
            invariant
                j <= result@.len(),
                forall|k: int| 0 <= k < j ==> no_later_descending(#[trigger] result@[k]@, name@),
            decreases result.len() - j,
        {
            j = j + 1;
        }
        let ghost before = texts(result@);
        proof {
            if j < result.len() {
                assert(!ord(result@[j as int]@, name@));
                assert(ord(name@, result@[j as int]@));
            }
        }
        result.insert(j, name);
        let ghost after = texts(result@);
        assert(after =~= before.insert(j as int, name@));
        assert(sorted_by(after, ord)) by {
            assert forall|p: int, q: int| 0 <= p < q < after.len() implies #[trigger] ord(
                after[p],
                after[q],
            ) by {
                if q < j {
                } else if q == j {
                    assert(after[p] == before[p]);
                } else if p < j {
                    assert(ord(after[p], name@));
                    assert(ord(name@, before[j as int]));
                    assert(ord(before[j as int], before[q - 1])) by {
                        if j as int != q - 1 {
                        }
                    }
                } else if p == j {
                    assert(ord(before[j as int], before[q - 1])) by {
                        if j as int != q - 1 {
                        }
                    }
                } else {
                }
            }
        }
        proof {
            to_multiset_insert(before, j as int, name@);
            texts(names@.subrange(0, i as int)).to_multiset_ensures();
        }
        assert(after.to_multiset() == before.to_multiset().insert(name@));
        assert(texts(names@.subrange(0, i + 1)) =~= texts(names@.subrange(0, i as int)).push(
            names@[i as int]@,
        ));
        assert(texts(names@.subrange(0, i as int)).push(names@[i as int]@).to_multiset()
            == texts(names@.subrange(0, i as int)).to_multiset().insert(names@[i as int]@));
        i = i + 1;
    }
    proof {
        assert(names@.subrange(0, names@.len() as int) =~= names@);
        texts(names@).lemma_sort_by_ensures(ord);
        lemma_sorted_unique(texts(result@), texts(names@).sort_by(ord), ord);
    }
    result
}

/// `a` is a prefix of `b`.
pub open spec fn is_byte_prefix(a: Seq<u8>, b: Seq<u8>) -> bool {
    a.len() <= b.len() && a == b.subrange(0, a.len() as int)
}

/// `a` and `b` agree before position `i`, where `a` has the smaller byte.
pub open spec fn smaller_at(a: Seq<u8>, b: Seq<u8>, i: int) -> bool {
    &&& 0 <= i < a.len()
    &&& i < b.len()
    &&& a.subrange(0, i) == b.subrange(0, i)
    &&& a[i] < b[i]
}

proof fn lemma_bytes_le_characterized(a: Seq<u8>, b: Seq<u8>)
    ensures
        bytes_le(a, b) <==> (is_byte_prefix(a, b) || exists|i: int| #[trigger]
            smaller_at(a, b, i)),
    decreases a.len(),
{
    if a.len() == 0 {
        assert(is_byte_prefix(a, b)) by {
            assert(a =~= b.subrange(0, 0));
        }
    } else if b.len() == 0 {
        assert(!is_byte_prefix(a, b));
        assert forall|i: int| !smaller_at(a, b, i) by {}
    } else if a[0] != b[0] {
        if a[0] < b[0] {
            assert(smaller_at(a, b, 0)) by {
                assert(a.subrange(0, 0) =~= b.subrange(0, 0));
            }
        } else {
            assert(!is_byte_prefix(a, b)) by {
                if is_byte_prefix(a, b) {
                    assert(a[0] == b.subrange(0, a.len() as int)[0]);
                }
            }
            assert forall|i: int| !smaller_at(a, b, i) by {
                if smaller_at(a, b, i) && i > 0 {
                    assert(a.subrange(0, i)[0] == b.subrange(0, i)[0]);
                }
            }
        }
    } else {
        let a1 = a.drop_first();
        let b1 = b.drop_first();
        lemma_bytes_le_characterized(a1, b1);
        assert(is_byte_prefix(a, b) <==> is_byte_prefix(a1, b1)) by {
            if is_byte_prefix(a1, b1) {
                assert forall|k: int| 0 <= k < a.len() implies a[k] == b.subrange(
                    0,
                    a.len() as int,
                )[k] by {
                    if k > 0 {
                        assert(a[k] == a1[k - 1]);
                        assert(a1[k - 1] == b1.subrange(0, a1.len() as int)[k - 1]);
                    }
                }
                assert(a =~= b.subrange(0, a.len() as int));
            }
            if is_byte_prefix(a, b) {
                assert(a1 =~= b1.subrange(0, a1.len() as int));
            }
        }
        assert((exists|i: int| #[trigger] smaller_at(a, b, i)) <==> (exists|i: int| #[trigger]
            smaller_at(a1, b1, i))) by {
            if exists|i: int| #[trigger] smaller_at(a, b, i) {
                let i = choose|i: int| #[trigger] smaller_at(a, b, i);
                assert(i > 0);
                assert(a1.subrange(0, i - 1) =~= a.subrange(0, i).drop_first());
                assert(b1.subrange(0, i - 1) =~= b.subrange(0, i).drop_first());
                assert(smaller_at(a1, b1, i - 1));
            }
            if exists|i: int| #[trigger] smaller_at(a1, b1, i) {
                let i = choose|i: int| #[trigger] smaller_at(a1, b1, i);
                assert(a.subrange(0, i + 1) =~= seq![a[0]] + a1.subrange(0, i));
                assert(b.subrange(0, i + 1) =~= seq![b[0]] + b1.subrange(0, i));
                assert(smaller_at(a, b, i + 1));
            }
        }
    }
}

/// The order in which Node version directories are tried: name `x` comes no
/// later than name `y` exactly when the UTF-8 bytes of `y` are a prefix of
/// those of `x`, or the two agree up to a byte where `y` has the smaller one.
/// So the greatest name in byte order comes first.
pub proof fn lemma_descending_bytes_order_is_reverse_lexicographic(x: Seq<char>, y: Seq<char>)
    ensures
        descending_bytes_order()(x, y) <==> (is_byte_prefix(encode_utf8(y), encode_utf8(x))
            || exists|i: int| #[trigger] smaller_at(encode_utf8(y), encode_utf8(x), i)),
{
    lemma_bytes_le_characterized(encode_utf8(y), encode_utf8(x));
}

} // verus!
