//! Lists that travel in one parameter, their items separated by commas.

use crate::text::{list_view, TextSlice};
use vstd::prelude::*;
use vstd::slice::slice_subrange;

verus! {

/// The byte that separates the items of a list.
pub const COMMA: u8 = 0x2c;

/// The first offset at or after `i` that holds a comma, or the length of
/// `s` if there is none.
pub open spec fn next_comma(s: Seq<u8>, i: int) -> int
    decreases s.len() - i,
{
    if i >= s.len() || s[i] == COMMA {
        i
    } else {
        next_comma(s, i + 1)
    }
}

/// `next_comma` stays between its start and the end, passes over no comma
/// and stops at one.
pub proof fn lemma_next_comma(s: Seq<u8>, i: int)
    requires
        0 <= i <= s.len(),
    ensures
        i <= next_comma(s, i) <= s.len(),
        forall|x: int| i <= x < next_comma(s, i) ==> s[x] != COMMA,
        next_comma(s, i) < s.len() ==> s[next_comma(s, i)] == COMMA,
    decreases s.len() - i,
{
    if i < s.len() && s[i] != COMMA {
        lemma_next_comma(s, i + 1);
    }
}

/// The items of the list that starts at offset `i` of `s`: the bytes
/// between one comma and the next are one item; an item may be empty.
pub open spec fn split_from(s: Seq<u8>, i: int) -> Seq<Seq<u8>>
    decreases s.len() - i,
    when 0 <= i <= s.len()
    via split_from_decreases
{
    let j = next_comma(s, i);
    if j >= s.len() {
        seq![s.subrange(i, s.len() as int)]
    } else {
        seq![s.subrange(i, j)] + split_from(s, j + 1)
    }
}

#[via_fn]
proof fn split_from_decreases(s: Seq<u8>, i: int) {
    lemma_next_comma(s, i);
}

/// The items of the list `s`. A list always has at least one item: the
/// empty parameter is the list of one empty item.
pub open spec fn split_list(s: Seq<u8>) -> Seq<Seq<u8>> {
    split_from(s, 0)
}

/// The parameter that holds the items of `l`, a comma between each two.
pub open spec fn join_list(l: Seq<Seq<u8>>) -> Seq<u8>
    decreases l.len(),
{
    if l.len() == 0 {
        Seq::empty()
    } else if l.len() == 1 {
        l[0]
    } else {
        join_list(l.drop_last()) + seq![COMMA] + l.last()
    }
}

/// Whether `s` holds no comma.
pub open spec fn commaless(s: Seq<u8>) -> bool {
    forall|i: int| 0 <= i < s.len() ==> s[i] != COMMA
}

/// Where `next_comma` stops, given the bytes it passes.
pub proof fn lemma_next_comma_is(s: Seq<u8>, i: int, k: int)
    requires
        0 <= i <= k <= s.len(),
        forall|x: int| i <= x < k ==> s[x] != COMMA,
        k == s.len() || s[k] == COMMA,
    ensures
        next_comma(s, i) == k,
    decreases k - i,
{
    if i < k {
        lemma_next_comma_is(s, i + 1, k);
    }
}

/// The list behind a comma does not depend on what stands before the comma.
pub proof fn lemma_split_shift(x: Seq<u8>, y: Seq<u8>, j: int)
    requires
        0 <= j <= y.len(),
    ensures
        split_from(x + y, x.len() + j) == split_from(y, j),
    decreases y.len() - j,
{
    let s = x + y;
    let n = x.len() as int;
    lemma_next_comma(y, j);
    let k = next_comma(y, j);
    assert forall|i: int| n + j <= i < n + k implies s[i] != COMMA by {
        assert(s[i] == y[i - n]);
    }
    if k < y.len() {
        assert(s[n + k] == y[k]);
    }
    lemma_next_comma_is(s, n + j, n + k);
    if k >= y.len() {
        assert(s.subrange(n + j, s.len() as int) =~= y.subrange(j, y.len() as int));
    } else {
        assert(s.subrange(n + j, n + k) =~= y.subrange(j, k));
        lemma_split_shift(x, y, k + 1);
    }
}

/// Splitting two lists that a comma joins gives the items of the first, then
/// those of the second.
pub proof fn lemma_split_joined(a: Seq<u8>, b: Seq<u8>, i: int)
    requires
        0 <= i <= a.len(),
    ensures
        split_from(a + seq![COMMA] + b, i) == split_from(a, i) + split_from(b, 0),
    decreases a.len() - i,
{
    let s = a + seq![COMMA] + b;
    lemma_next_comma(a, i);
    let k = next_comma(a, i);
    assert forall|x: int| i <= x < k implies s[x] != COMMA by {
        assert(s[x] == a[x]);
    }
    if k < a.len() {
        assert(s[k] == a[k]);
        lemma_next_comma_is(s, i, k);
        assert(s.subrange(i, k) =~= a.subrange(i, k));
        lemma_split_joined(a, b, k + 1);
        assert(seq![a.subrange(i, k)] + (split_from(a, k + 1) + split_from(b, 0)) =~= (seq![
            a.subrange(i, k),
        ] + split_from(a, k + 1)) + split_from(b, 0));
    } else {
        assert(s[k] == COMMA);
        lemma_next_comma_is(s, i, k);
        assert(s.subrange(i, k) =~= a.subrange(i, a.len() as int));
        lemma_split_shift(a + seq![COMMA], b, 0);
        assert((a + seq![COMMA]) + b =~= s);
    }
}

/// Splitting the parameter that holds a list gives the list back, if the
/// list is not empty and none of its items holds a comma.
pub proof fn lemma_split_join(l: Seq<Seq<u8>>)
    requires
        l.len() > 0,
        forall|i: int| 0 <= i < l.len() ==> commaless(#[trigger] l[i]),
    ensures
        split_list(join_list(l)) == l,
    decreases l.len(),
{
    let last = l.last();
    assert(commaless(last));
    lemma_next_comma_is(last, 0, last.len() as int);
    assert(last.subrange(0, last.len() as int) =~= last);
    assert(split_from(last, 0) == seq![last]);
    if l.len() == 1 {
        assert(l =~= seq![last]);
    } else {
        let init = l.drop_last();
        assert forall|i: int| 0 <= i < init.len() implies commaless(#[trigger] init[i]) by {
            assert(init[i] == l[i]);
        }
        lemma_split_join(init);
        lemma_split_joined(join_list(init), last, 0);
        assert(init + seq![last] =~= l);
    }
}

/// Cuts a parameter into the items of its list.
pub fn split<'a>(b: &'a [u8]) -> (v: Vec<TextSlice<'a>>)
    ensures
        list_view(v@) == split_list(b@),
        v@.len() > 0,
        forall|i: int| 0 <= i < v@.len() ==> #[trigger] v@[i] is Raw,
{
    let n = b.len();
    let mut v: Vec<TextSlice<'a>> = Vec::new();
    let mut start: usize = 0;
    let mut i: usize = 0;
    while i < n
        invariant
            start <= i <= n == b@.len(),
            next_comma(b@, start as int) == next_comma(b@, i as int),
            split_list(b@) == list_view(v@) + split_from(b@, start as int),
            forall|x: int| 0 <= x < v@.len() ==> #[trigger] v@[x] is Raw,
        decreases n - i,
    {
        if b[i] == COMMA {
            let ghost before = v@;
            v.push(TextSlice::Raw(slice_subrange(b, start, i)));
            proof {
                assert(list_view(v@) =~= list_view(before).push(b@.subrange(start as int, i as int)));
                assert(list_view(before) + (seq![b@.subrange(start as int, i as int)] + split_from(
                    b@,
                    i + 1,
                )) =~= list_view(v@) + split_from(b@, i + 1));
            }
            start = i + 1;
        }
        i += 1;
    }
    let ghost before = v@;
    v.push(TextSlice::Raw(slice_subrange(b, start, n)));
    proof {
        assert(list_view(v@) =~= list_view(before).push(b@.subrange(start as int, n as int)));
        assert(list_view(before) + seq![b@.subrange(start as int, n as int)] =~= list_view(v@));
    }
    v
}

/// Writes the items of a list into one parameter, a comma between each two.
pub fn join(l: &Vec<TextSlice<'_>>) -> (s: Vec<u8>)
    ensures
        s@ == join_list(list_view(l@)),
{
    let mut s: Vec<u8> = Vec::new();
    let mut k: usize = 0;
    while k < l.len()
        invariant
            k <= l@.len(),
            s@ == join_list(list_view(l@).subrange(0, k as int)),
        decreases l@.len() - k,
    {
        if k > 0 {
            s.push(COMMA);
        }
        s.extend_from_slice(l[k].as_bytes());
        k += 1;
        proof {
            let now = list_view(l@).subrange(0, k as int);
            assert(now.drop_last() =~= list_view(l@).subrange(0, k - 1));
            assert(now.last() == l@[k - 1]@);
        }
    }
    assert(list_view(l@).subrange(0, k as int) =~= list_view(l@));
    s
}

} // verus!
