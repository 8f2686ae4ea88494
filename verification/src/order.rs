//! Byte-wise ordering of strings (the order of `String`'s `Ord`) and sorting.

use vstd::prelude::*;
use vstd::multiset::Multiset;
use vstd::utf8::encode_utf8;

verus! {

broadcast use vstd::seq_lib::group_to_multiset_ensures;

/// Lexicographic order on byte sequences: a proper prefix comes first.
pub open spec fn bytes_le(a: Seq<u8>, b: Seq<u8>) -> bool
    decreases a.len(),
{
    if a.len() == 0 {
        true
    } else if b.len() == 0 {
        false
    } else if a[0] < b[0] {
        true
    } else if a[0] > b[0] {
        false
    } else {
        bytes_le(a.drop_first(), b.drop_first())
    }
}

/// Strings compared by their UTF-8 bytes, as `String`'s `Ord` compares them.
pub open spec fn text_le(a: Seq<char>, b: Seq<char>) -> bool {
    bytes_le(encode_utf8(a), encode_utf8(b))
}

/// Any two byte sequences are ordered one way or the other.
pub proof fn lemma_bytes_le_total(a: Seq<u8>, b: Seq<u8>)
    ensures
        bytes_le(a, b) || bytes_le(b, a),
    decreases a.len(),
{
    if a.len() > 0 && b.len() > 0 && a[0] == b[0] {
        lemma_bytes_le_total(a.drop_first(), b.drop_first());
    }
}

/// The order is transitive.
pub proof fn lemma_bytes_le_transitive(a: Seq<u8>, b: Seq<u8>, c: Seq<u8>)
    requires
        bytes_le(a, b),
        bytes_le(b, c),
    ensures
        bytes_le(a, c),
    decreases a.len(),
{
    if a.len() > 0 && b.len() > 0 && c.len() > 0 && a[0] == b[0] && b[0] == c[0] {
        lemma_bytes_le_transitive(a.drop_first(), b.drop_first(), c.drop_first());
    }
}

/// Whether `a` comes no later than `b` in byte order.
pub fn str_le(a: &str, b: &str) -> (r: bool)
    ensures
        r == text_le(a@, b@),
{
    let x = a.as_bytes();
    let y = b.as_bytes();
    let mut i: usize = 0;
    proof {
        assert(x@.subrange(0, x@.len() as int) =~= x@);
        assert(y@.subrange(0, y@.len() as int) =~= y@);
    }
    while i < x.len() && i < y.len() && x[i] == y[i]
        invariant
            i <= x@.len(),
            i <= y@.len(),
            x@ == encode_utf8(a@),
            y@ == encode_utf8(b@),
            bytes_le(x@, y@) == bytes_le(x@.subrange(i as int, x@.len() as int), y@.subrange(
                i as int,
                y@.len() as int,
            )),
        decreases x@.len() - i,
    {
        proof {
            let xs = x@.subrange(i as int, x@.len() as int);
            let ys = y@.subrange(i as int, y@.len() as int);
            assert(xs.drop_first() =~= x@.subrange(i + 1, x@.len() as int));
            assert(ys.drop_first() =~= y@.subrange(i + 1, y@.len() as int));
        }
        i = i + 1;
    }
    let ghost xs = x@.subrange(i as int, x@.len() as int);
    let ghost ys = y@.subrange(i as int, y@.len() as int);
    if i == x.len() {
        true
    } else if i == y.len() {
        false
    } else {
        assert(xs[0] == x@[i as int] && ys[0] == y@[i as int]);
        x[i] < y[i]
    }
}

/// Whether a sequence of strings is in byte order.
pub open spec fn sorted_texts(s: Seq<String>) -> bool {
    forall|i: int, j: int| 0 <= i < j < s.len() ==> text_le(s[i]@, s[j]@)
}

fn position_of_least(v: &Vec<String>) -> (m: usize)
    requires
        v@.len() > 0,
    ensures
        m < v@.len(),
        forall|j: int| 0 <= j < v@.len() ==> text_le(v@[m as int]@, #[trigger] v@[j]@),
{
    let mut m: usize = 0;
    let mut k: usize = 1;
    proof {
        lemma_bytes_le_total(encode_utf8(v@[0]@), encode_utf8(v@[0]@));
    }
    while k < v.len()
        invariant
            m < k <= v@.len(),
            forall|j: int| 0 <= j < k ==> text_le(v@[m as int]@, #[trigger] v@[j]@),
        decreases v@.len() - k,
    {
        if !str_le(v[m].as_str(), v[k].as_str()) {
            proof {
                let bk = encode_utf8(v@[k as int]@);
                let bm = encode_utf8(v@[m as int]@);
                lemma_bytes_le_total(bk, bm);
                assert forall|j: int| 0 <= j < k + 1 implies text_le(v@[k as int]@, #[trigger] v@[j]@) by {
                    if j < k {
                        lemma_bytes_le_transitive(bk, bm, encode_utf8(v@[j]@));
                    } else {
                        lemma_bytes_le_total(bk, bk);
                    }
                }
            }
            m = k;
        }
        k = k + 1;
    }
    m
}

/// Whether no two strings of a sequence hold the same characters.
pub open spec fn distinct_texts(s: Seq<String>) -> bool {
    forall|i: int, j: int| 0 <= i < j < s.len() ==> s[i]@ != s[j]@
}

/// The same strings in byte order (`sort` on strings).
pub fn sort_strings(v: Vec<String>) -> (r: Vec<String>)
    ensures
        r@.to_multiset() == v@.to_multiset(),
        sorted_texts(r@),
        distinct_texts(v@) ==> distinct_texts(r@),
{
    let mut rest = v;
    let mut out: Vec<String> = Vec::new();
    while rest.len() > 0
        invariant
            out@.to_multiset().add(rest@.to_multiset()) == v@.to_multiset(),
            sorted_texts(out@),
            forall|i: int, j: int|
                #![trigger out@[i], rest@[j]]
                0 <= i < out@.len() && 0 <= j < rest@.len() ==> text_le(out@[i]@, rest@[j]@),
            distinct_texts(v@) ==> distinct_texts(out@) && distinct_texts(rest@) && forall|
                i: int,
                j: int,
            |
                #![trigger out@[i], rest@[j]]
                0 <= i < out@.len() && 0 <= j < rest@.len() ==> out@[i]@ != rest@[j]@,
        decreases rest@.len(),
    {
        let m = position_of_least(&rest);
        let ghost before_rest = rest@;
        let ghost before_out = out@;
        let x = rest.remove(m);
        out.push(x);
        proof {
            assert(before_rest.remove(m as int).to_multiset() =~= before_rest.to_multiset().remove(
                before_rest[m as int],
            ));
            assert(out@.to_multiset() =~= before_out.to_multiset().insert(before_rest[m as int]));
            assert(before_rest.to_multiset().count(before_rest[m as int]) > 0);
            assert(out@.to_multiset().add(rest@.to_multiset()) =~= v@.to_multiset());
            assert forall|i: int, j: int| 0 <= i < j < out@.len() implies text_le(
                out@[i]@,
                out@[j]@,
            ) by {
                if j == out@.len() - 1 {
                    assert(out@[j] == before_rest[m as int]);
                }
            }
            assert forall|i: int, j: int|
                #![trigger out@[i], rest@[j]]
                0 <= i < out@.len() && 0 <= j < rest@.len() implies text_le(out@[i]@, rest@[j]@) by {
                let jj = if j < m { j } else { j + 1 };
                assert(rest@[j] == before_rest[jj]);
            }
            if distinct_texts(v@) {
                assert forall|i: int, j: int| 0 <= i < j < out@.len() implies out@[i]@ != out@[j]@ by {
                    if j == out@.len() - 1 {
                        assert(out@[j] == before_rest[m as int]);
                        assert(out@[i] == before_out[i]);
                    } else {
                        assert(out@[i] == before_out[i] && out@[j] == before_out[j]);
                    }
                }
                assert forall|i: int, j: int| 0 <= i < j < rest@.len() implies rest@[i]@ != rest@[j]@ by {
                    let ii = if i < m { i } else { i + 1 };
                    let jj = if j < m { j } else { j + 1 };
                    assert(rest@[i] == before_rest[ii] && rest@[j] == before_rest[jj]);
                }
                assert forall|i: int, j: int|
                    #![trigger out@[i], rest@[j]]
                    0 <= i < out@.len() && 0 <= j < rest@.len() implies out@[i]@ != rest@[j]@ by {
                    let jj = if j < m { j } else { j + 1 };
                    assert(rest@[j] == before_rest[jj]);
                    if i == out@.len() - 1 {
                        assert(out@[i] == before_rest[m as int]);
                        if jj < m {
                            assert(before_rest[jj]@ != before_rest[m as int]@);
                        } else {
                            assert(before_rest[m as int]@ != before_rest[jj]@);
                        }
                    } else {
                        assert(out@[i] == before_out[i]);
                        assert(before_out[i]@ != before_rest[jj]@);
                    }
                }
            }
        }
    }
    proof {
        assert(rest@.to_multiset() =~= Multiset::<String>::empty());
        assert(out@.to_multiset().add(rest@.to_multiset()) =~= out@.to_multiset());
    }
    out
}

} // verus!
