//! Lexicographic ordering of names.
//!
//! Category names sort the way Rust orders `str`: lexicographically by
//! UTF-8 byte values, which coincides with code-point order.

use vstd::prelude::*;
use vstd::string::StringSliceAdditionalSpecFns;

verus! {

/// Lexicographic "less than or equal" on byte sequences.
pub open spec fn lex_leq(a: Seq<u8>, b: Seq<u8>) -> bool
    decreases a.len(),
{
    if a.len() == 0 {
        true
    } else if b.len() == 0 {
        false
    } else if a[0] < b[0] {
        true
    } else if a[0] > b[0] {
        false
    } else {
        lex_leq(a.drop_first(), b.drop_first())
    }
}

/// Name order: lexicographic on the UTF-8 encoding of the text.
pub open spec fn name_leq(a: Seq<char>, b: Seq<char>) -> bool {
    lex_leq(vstd::utf8::encode_utf8(a), vstd::utf8::encode_utf8(b))
}

/// Whether `a` sorts at or before `b` in name order.
pub fn str_leq(a: &str, b: &str) -> (r: bool)
    ensures
        r == name_leq(a@, b@),
{
    let ab = a.as_bytes();
    let bb = b.as_bytes();
    let mut i: usize = 0;
    proof {
        assert(ab@.skip(0) =~= ab@);
        assert(bb@.skip(0) =~= bb@);
    }
    loop
        invariant
            i <= ab@.len(),
            i <= bb@.len(),
            ab@ == a.spec_bytes(),
            bb@ == b.spec_bytes(),
            lex_leq(ab@.skip(i as int), bb@.skip(i as int)) == lex_leq(ab@, bb@),
        decreases ab@.len() - i,
    {
        proof {
            assert(ab@.skip(i as int).len() == ab@.len() - i);
            assert(bb@.skip(i as int).len() == bb@.len() - i);
        }
        if i >= ab.len() {
            return true;
        }
        if i >= bb.len() {
            proof {
                assert(ab@.skip(i as int).len() > 0 && bb@.skip(i as int).len() == 0);
            }
            return false;
        }
        let x = ab[i];
        let y = bb[i];
        proof {
            assert(ab@.skip(i as int)[0] == ab@[i as int]);
            assert(bb@.skip(i as int)[0] == bb@[i as int]);
        }
        if x < y {
            return true;
        }
        if x > y {
            return false;
        }
        proof {
            assert(ab@.skip(i as int).drop_first() =~= ab@.skip(i as int + 1));
            assert(bb@.skip(i as int).drop_first() =~= bb@.skip(i as int + 1));
        }
        i = i + 1;
    }
}

/// Any two byte sequences compare one way or the other.
pub proof fn lemma_lex_total(a: Seq<u8>, b: Seq<u8>)
    ensures
        lex_leq(a, b) || lex_leq(b, a),
    decreases a.len(),
{
    if a.len() > 0 && b.len() > 0 && a[0] == b[0] {
        lemma_lex_total(a.drop_first(), b.drop_first());
    }
}

/// The byte order is transitive.
pub proof fn lemma_lex_trans(a: Seq<u8>, b: Seq<u8>, c: Seq<u8>)
    requires
        lex_leq(a, b),
        lex_leq(b, c),
    ensures
        lex_leq(a, c),
    decreases a.len(),
{
    if a.len() > 0 {
        if a[0] == b[0] && b[0] == c[0] {
            lemma_lex_trans(a.drop_first(), b.drop_first(), c.drop_first());
        }
    }
}

/// Name order is total.
pub proof fn lemma_name_total(a: Seq<char>, b: Seq<char>)
    ensures
        name_leq(a, b) || name_leq(b, a),
{
    lemma_lex_total(vstd::utf8::encode_utf8(a), vstd::utf8::encode_utf8(b));
}

/// Name order is transitive.
pub proof fn lemma_name_trans(a: Seq<char>, b: Seq<char>, c: Seq<char>)
    requires
        name_leq(a, b),
        name_leq(b, c),
    ensures
        name_leq(a, c),
{
    lemma_lex_trans(
        vstd::utf8::encode_utf8(a),
        vstd::utf8::encode_utf8(b),
        vstd::utf8::encode_utf8(c),
    );
}

/// Inserting an element into a sequence adds exactly that element to its
/// multiset of values.
pub proof fn lemma_insert_to_multiset<A>(s: Seq<A>, i: int, a: A)
    requires
        0 <= i <= s.len(),
    ensures
        s.insert(i, a).to_multiset() =~= s.to_multiset().insert(a),
{
    broadcast use vstd::multiset::group_multiset_axioms;

    let sub1 = s.subrange(0, i);
    let sub2 = s.subrange(i, s.len() as int);
    assert(s =~= sub1 + sub2);
    vstd::seq_lib::lemma_multiset_commutative(sub1.push(a), sub2);
    vstd::seq_lib::lemma_multiset_commutative(sub1, sub2);
    sub1.to_multiset_ensures();
}

/// Mapping a function over a sequence commutes with inserting an element.
pub proof fn lemma_map_insert<A, B>(s: Seq<A>, i: int, a: A, f: spec_fn(A) -> B)
    requires
        0 <= i <= s.len(),
    ensures
        s.insert(i, a).map_values(f) =~= s.map_values(f).insert(i, f(a)),
{
    s.insert_ensures(i, a);
    s.map_values(f).insert_ensures(i, f(a));
}

/// Filtering a sequence extended by one element keeps the element exactly
/// when it satisfies the predicate.
pub proof fn lemma_filter_one_more<A>(s: Seq<A>, x: A, pred: spec_fn(A) -> bool)
    ensures
        (s + seq![x]).filter(pred) == (if pred(x) {
            s.filter(pred).push(x)
        } else {
            s.filter(pred)
        }),
{
    reveal(Seq::filter);
    assert((s + seq![x]).drop_last() =~= s);
    assert((s + seq![x]).last() == x);
}

} // verus!
