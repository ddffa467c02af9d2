use std::cmp::Ordering;

use vstd::prelude::*;
use vstd::string::StringSliceAdditionalSpecFns;
use vstd::utf8::encode_utf8;

use super::sorting::index_value;

verus! {

/// `a` comes strictly before `b` in lexicographic byte order.
pub open spec fn bytes_before(a: Seq<u8>, b: Seq<u8>) -> bool
    decreases a.len(),
{
    if a.len() == 0 {
        b.len() > 0
    } else if b.len() == 0 {
        false
    } else if a[0] != b[0] {
        a[0] < b[0]
    } else {
        bytes_before(a.drop_first(), b.drop_first())
    }
}

/// `a` comes strictly before `b` in lexicographic order of byte strings.
pub open spec fn texts_before(a: Seq<Seq<u8>>, b: Seq<Seq<u8>>) -> bool
    decreases a.len(),
{
    if a.len() == 0 {
        b.len() > 0
    } else if b.len() == 0 {
        false
    } else if a[0] != b[0] {
        bytes_before(a[0], b[0])
    } else {
        texts_before(a.drop_first(), b.drop_first())
    }
}

/// The UTF-8 bytes of each string, in order.
pub open spec fn text_bytes(texts: Seq<String>) -> Seq<Seq<u8>> {
    Seq::new(texts.len(), |i: int| encode_utf8(texts[i]@))
}

/// Byte order is a strict total order.
pub proof fn lemma_bytes_order(a: Seq<u8>, b: Seq<u8>, c: Seq<u8>)
    ensures
        !bytes_before(a, a),
        bytes_before(a, b) ==> !bytes_before(b, a),
        bytes_before(a, b) || bytes_before(b, a) || a == b,
        bytes_before(a, b) && bytes_before(b, c) ==> bytes_before(a, c),
    decreases a.len(),
{
    if a.len() > 0 && b.len() > 0 {
        if c.len() > 0 {
            lemma_bytes_order(a.drop_first(), b.drop_first(), c.drop_first());
        } else {
            lemma_bytes_order(a.drop_first(), b.drop_first(), c);
        }
        if a[0] == b[0] && a.drop_first() == b.drop_first() {
            assert(a =~= seq![a[0]] + a.drop_first());
            assert(b =~= seq![b[0]] + b.drop_first());
        }
    } else if a.len() > 0 {
        lemma_bytes_order(a.drop_first(), a.drop_first(), a.drop_first());
    } else if b.len() == 0 {
        assert(a =~= b);
    }
}

/// Text-list order is a strict total order.
pub proof fn lemma_texts_order(a: Seq<Seq<u8>>, b: Seq<Seq<u8>>, c: Seq<Seq<u8>>)
    ensures
        !texts_before(a, a),
        texts_before(a, b) ==> !texts_before(b, a),
        texts_before(a, b) || texts_before(b, a) || a == b,
        texts_before(a, b) && texts_before(b, c) ==> texts_before(a, c),
    decreases a.len(),
{
    if a.len() > 0 && b.len() > 0 {
        if c.len() > 0 {
            lemma_texts_order(a.drop_first(), b.drop_first(), c.drop_first());
            lemma_bytes_order(a[0], b[0], c[0]);
        } else {
            lemma_texts_order(a.drop_first(), b.drop_first(), c);
        }
        lemma_bytes_order(a[0], b[0], a[0]);
        if a[0] == b[0] && a.drop_first() == b.drop_first() {
            assert(a =~= seq![a[0]] + a.drop_first());
            assert(b =~= seq![b[0]] + b.drop_first());
        }
    } else if a.len() > 0 {
        lemma_texts_order(a.drop_first(), a.drop_first(), a.drop_first());
        lemma_bytes_order(a[0], a[0], a[0]);
    } else if b.len() == 0 {
        assert(a =~= b);
    }
}

/// Three-way comparison answering `Less`, `Greater` or `Equal` exactly as
/// `before` orders `a` and `b`.
pub open spec fn answers_order(order: Ordering, a_first: bool, b_first: bool) -> bool {
    &&& (order == Ordering::Less) == a_first
    &&& (order == Ordering::Greater) == b_first
}

/// Compares byte strings lexicographically.
pub fn compare_bytes(a: &[u8], b: &[u8]) -> (order: Ordering)
    ensures
        answers_order(order, bytes_before(a@, b@), bytes_before(b@, a@)),
        (order == Ordering::Equal) == (a@ == b@),
{
    proof {
        lemma_bytes_order(a@, b@, a@);
    }
    let n = a.len();
    let m = b.len();
    let mut i: usize = 0;
    assert(a@.skip(0) =~= a@);
    assert(b@.skip(0) =~= b@);
    while i < n && i < m
        invariant
            n == a@.len(),
            m == b@.len(),
            i <= n,
            i <= m,
            a@.take(index_value(i)) == b@.take(index_value(i)),
            bytes_before(a@, b@) == bytes_before(a@.skip(index_value(i)), b@.skip(index_value(i))),
            bytes_before(b@, a@) == bytes_before(b@.skip(index_value(i)), a@.skip(index_value(i))),
        decreases n - i,
    {
        let x = a[i];
        let y = b[i];
        assert(a@.skip(index_value(i))[0] == x);
        assert(b@.skip(index_value(i))[0] == y);
        if x < y {
            return Ordering::Less;
        }
        if y < x {
            return Ordering::Greater;
        }
        assert(a@.skip(index_value(i)).drop_first() =~= a@.skip(i + 1));
        assert(b@.skip(index_value(i)).drop_first() =~= b@.skip(i + 1));
        assert(a@.take(i + 1) =~= a@.take(index_value(i)).push(x));
        assert(b@.take(i + 1) =~= b@.take(index_value(i)).push(y));
        i = i + 1;
    }
    if i == n && i == m {
        assert(a@ =~= a@.take(index_value(i)));
        assert(b@ =~= b@.take(index_value(i)));
        Ordering::Equal
    } else if i == n {
        assert(a@.skip(index_value(i)).len() == 0);
        Ordering::Less
    } else {
        assert(b@.skip(index_value(i)).len() == 0);
        Ordering::Greater
    }
}

/// Compares two strings by their UTF-8 bytes.
pub fn compare_text(a: &str, b: &str) -> (order: Ordering)
    ensures
        answers_order(order, bytes_before(a.spec_bytes(), b.spec_bytes()), bytes_before(
            b.spec_bytes(),
            a.spec_bytes(),
        )),
{
    compare_bytes(a.as_bytes(), b.as_bytes())
}

/// Compares two string lists lexicographically, each string by its UTF-8 bytes.
pub fn compare_texts(a: &[String], b: &[String]) -> (order: Ordering)
    ensures
        answers_order(order, texts_before(text_bytes(a@), text_bytes(b@)), texts_before(
            text_bytes(b@),
            text_bytes(a@),
        )),
{
    let ghost ta = text_bytes(a@);
    let ghost tb = text_bytes(b@);
    proof {
        lemma_texts_order(ta, tb, ta);
    }
    let n = a.len();
    let m = b.len();
    let mut i: usize = 0;
    assert(ta.skip(0) =~= ta);
    assert(tb.skip(0) =~= tb);
    while i < n && i < m
        invariant
            n == a@.len(),
            m == b@.len(),
            ta == text_bytes(a@),
            tb == text_bytes(b@),
            i <= n,
            i <= m,
            texts_before(ta, tb) == texts_before(ta.skip(index_value(i)), tb.skip(index_value(i))),
            texts_before(tb, ta) == texts_before(tb.skip(index_value(i)), ta.skip(index_value(i))),
        decreases n - i,
    {
        let x = a[i].as_str();
        let y = b[i].as_str();
        assert(ta.skip(index_value(i))[0] == x.spec_bytes());
        assert(tb.skip(index_value(i))[0] == y.spec_bytes());
        let order = compare_bytes(x.as_bytes(), y.as_bytes());
        match order {
            Ordering::Less => {
                return Ordering::Less;
            },
            Ordering::Greater => {
                return Ordering::Greater;
            },
            Ordering::Equal => {},
        }
        assert(ta.skip(index_value(i)).drop_first() =~= ta.skip(i + 1));
        assert(tb.skip(index_value(i)).drop_first() =~= tb.skip(i + 1));
        i = i + 1;
    }
    if i == n && i == m {
        assert(ta.skip(index_value(i)).len() == 0);
        assert(tb.skip(index_value(i)).len() == 0);
        Ordering::Equal
    } else if i == n {
        assert(ta.skip(index_value(i)).len() == 0);
        Ordering::Less
    } else {
        assert(tb.skip(index_value(i)).len() == 0);
        Ordering::Greater
    }
}

} // verus!
