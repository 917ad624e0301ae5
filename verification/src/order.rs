//! The browse order of the song list: by album, with the track number as
//! tie-break.
//!
//! Album titles are compared as their UTF-8 bytes, lexicographically — the
//! same order the standard library gives strings.

use vstd::prelude::*;
use vstd::relations::sorted_by;
use vstd::seq_lib::group_to_multiset_ensures;
use vstd::utf8::encode_utf8;
use crate::song::Song;

verus! {

/// Strict lexicographic order on byte sequences: a proper prefix comes first,
/// otherwise the first differing byte decides.
pub open spec fn lex_lt(a: Seq<u8>, b: Seq<u8>) -> bool
    decreases a.len(),
{
    if b.len() == 0 {
        false
    } else if a.len() == 0 {
        true
    } else if a[0] != b[0] {
        a[0] < b[0]
    } else {
        lex_lt(a.drop_first(), b.drop_first())
    }
}

/// The UTF-8 bytes a string's characters encode to.
pub open spec fn str_bytes(s: Seq<char>) -> Seq<u8> {
    encode_utf8(s)
}

/// The browse order: by album bytes, then by track number. Total, but not
/// antisymmetric — two distinct songs of one album and track compare equal.
pub open spec fn song_le(a: Song, b: Song) -> bool {
    let ab = str_bytes(a.album@);
    let bb = str_bytes(b.album@);
    lex_lt(ab, bb) || (ab == bb && a.track_num <= b.track_num)
}

/// `song_le` as a first-class relation, for `sorted_by`.
pub open spec fn song_order() -> spec_fn(Song, Song) -> bool {
    |a: Song, b: Song| song_le(a, b)
}

/// At most one of `lex_lt(a, b)` and `lex_lt(b, a)` holds, and when neither
/// does the sequences are equal.
pub proof fn lemma_lex_lt_connected(a: Seq<u8>, b: Seq<u8>)
    ensures
        lex_lt(a, b) ==> !lex_lt(b, a),
        !lex_lt(a, b) && !lex_lt(b, a) ==> a == b,
    decreases a.len(),
{
    if a.len() > 0 && b.len() > 0 && a[0] == b[0] {
        lemma_lex_lt_connected(a.drop_first(), b.drop_first());
        if !lex_lt(a, b) && !lex_lt(b, a) {
            assert(a =~= seq![a[0]] + a.drop_first());
            assert(b =~= seq![b[0]] + b.drop_first());
        }
    }
}

/// Lexicographic order is transitive.
pub proof fn lemma_lex_lt_trans(a: Seq<u8>, b: Seq<u8>, c: Seq<u8>)
    requires
        lex_lt(a, b),
        lex_lt(b, c),
    ensures
        lex_lt(a, c),
    decreases a.len(),
{
    if a.len() > 0 && b.len() > 0 && c.len() > 0 && a[0] == b[0] && b[0] == c[0] {
        lemma_lex_lt_trans(a.drop_first(), b.drop_first(), c.drop_first());
    }
}

/// The browse order is total: any two songs compare one way or the other.
pub proof fn lemma_song_le_total(a: Song, b: Song)
    ensures
        song_le(a, b) || song_le(b, a),
{
    lemma_lex_lt_connected(str_bytes(a.album@), str_bytes(b.album@));
}

/// The browse order is transitive.
pub proof fn lemma_song_le_trans(a: Song, b: Song, c: Song)
    requires
        song_le(a, b),
        song_le(b, c),
    ensures
        song_le(a, c),
{
    let ab = str_bytes(a.album@);
    let bb = str_bytes(b.album@);
    let cb = str_bytes(c.album@);
    if lex_lt(ab, bb) && lex_lt(bb, cb) {
        lemma_lex_lt_trans(ab, bb, cb);
    }
}

/// Equal prefixes do not decide the order: it is settled by the rest.
proof fn lemma_lex_lt_common_prefix(a: Seq<u8>, b: Seq<u8>, i: int)
    requires
        0 <= i <= a.len(),
        i <= b.len(),
        forall|k: int| 0 <= k < i ==> a[k] == b[k],
    ensures
        lex_lt(a, b) == lex_lt(a.skip(i), b.skip(i)),
    decreases i,
{
    if i > 0 {
        assert(a.len() > 0 && b.len() > 0 && a[0] == b[0]);
        lemma_lex_lt_common_prefix(a.drop_first(), b.drop_first(), i - 1);
        assert(a.drop_first().skip(i - 1) =~= a.skip(i));
        assert(b.drop_first().skip(i - 1) =~= b.skip(i));
    } else {
        assert(a.skip(0) =~= a);
        assert(b.skip(0) =~= b);
    }
}

/// Decide `lex_lt` on two byte slices.
fn bytes_lt(a: &[u8], b: &[u8]) -> (r: bool)
    ensures
        r == lex_lt(a@, b@),
{
    let mut i: usize = 0;
    loop
        invariant
            i <= a@.len(),
            i <= b@.len(),
            forall|k: int| 0 <= k < i ==> a@[k] == b@[k],
        decreases a@.len() - i,
    {
        proof {
            lemma_lex_lt_common_prefix(a@, b@, i as int);
        }
        if i < a.len() && i < b.len() {
            let x = a[i];
            let y = b[i];
            if x != y {
                proof {
                    assert(a@.skip(i as int)[0] == x);
                    assert(b@.skip(i as int)[0] == y);
                }
                return x < y;
            }
            i += 1;
        } else {
            proof {
                if i == a@.len() {
                    assert(a@.skip(i as int).len() == 0);
                } else {
                    assert(b@.skip(i as int).len() == 0);
                }
            }
            return i < b.len();
        }
    }
}

/// Decide the browse order on two songs.
pub fn song_le_exec(a: &Song, b: &Song) -> (r: bool)
    ensures
        r == song_le(*a, *b),
{
    let ab = a.album.as_str().as_bytes();
    let bb = b.album.as_str().as_bytes();
    if bytes_lt(ab, bb) {
        true
    } else if bytes_lt(bb, ab) {
        proof {
            lemma_lex_lt_connected(ab@, bb@);
        }
        false
    } else {
        proof {
            lemma_lex_lt_connected(ab@, bb@);
        }
        a.track_num <= b.track_num
    }
}

/// Two songs the browse order cannot tell apart: same album bytes, same track
/// number.
pub open spec fn same_sort_key(a: Song, b: Song) -> bool {
    str_bytes(a.album@) == str_bytes(b.album@) && a.track_num == b.track_num
}

/// The subsequence of songs whose album bytes are `kb` and whose track number
/// is `kt`, in their current order. A stable sort preserves every such
/// subsequence.
pub open spec fn key_class(s: Seq<Song>, kb: Seq<u8>, kt: i64) -> Seq<Song> {
    s.filter(|x: Song| str_bytes(x.album@) == kb && x.track_num == kt)
}

/// Filtering keeps nothing when no element satisfies the predicate.
proof fn lemma_filter_none(s: Seq<Song>, pred: spec_fn(Song) -> bool)
    requires
        forall|i: int| 0 <= i < s.len() ==> !pred(#[trigger] s[i]),
    ensures
        s.filter(pred) == Seq::<Song>::empty(),
    decreases s.len(),
{
    reveal(Seq::filter);
    if s.len() == 0 {
        assert(s =~= Seq::<Song>::empty());
    } else {
        lemma_filter_none(s.drop_last(), pred);
    }
}

/// Moving one row left across rows of other keys only leaves every key class
/// as it was.
proof fn lemma_move_left_keeps_classes(pre: Seq<Song>, p: int, i: int)
    requires
        0 <= p < i < pre.len(),
        forall|k: int| p <= k < i ==> !same_sort_key(#[trigger] pre[k], pre[i]),
    ensures
        forall|kb: Seq<u8>, kt: i64| #[trigger] key_class(pre.remove(i).insert(p, pre[i]), kb, kt)
            == key_class(pre, kb, kt),
{
    let x = pre[i];
    let a = pre.subrange(0, p);
    let b = pre.subrange(p, i);
    let c = pre.subrange(i + 1, pre.len() as int);
    let post = pre.remove(i).insert(p, x);
    assert(pre =~= a + b + seq![x] + c);
    assert(post =~= a + seq![x] + b + c);
    assert forall|kb: Seq<u8>, kt: i64| #[trigger] key_class(post, kb, kt) == key_class(
        pre,
        kb,
        kt,
    ) by {
        let pred = (|s: Song| str_bytes(s.album@) == kb && s.track_num == kt);
        Seq::filter_distributes_over_add(a + b + seq![x], c, pred);
        Seq::filter_distributes_over_add(a + b, seq![x], pred);
        Seq::filter_distributes_over_add(a, b, pred);
        Seq::filter_distributes_over_add(a + seq![x] + b, c, pred);
        Seq::filter_distributes_over_add(a + seq![x], b, pred);
        Seq::filter_distributes_over_add(a, seq![x], pred);
        if pred(x) {
            assert forall|k: int| 0 <= k < b.len() implies !pred(#[trigger] b[k]) by {
                assert(b[k] == pre[p + k]);
                assert(!same_sort_key(pre[p + k], x));
            }
            lemma_filter_none(b, pred);
        } else {
            lemma_filter_none(seq![x], pred);
        }
        assert(key_class(post, kb, kt) =~= key_class(pre, kb, kt));
    }
}

/// Stable insertion sort by the browse order: the result is sorted, holds
/// exactly the songs that went in, and keeps songs of equal keys in their
/// original relative order.
pub fn sort_songs(v: &mut Vec<Song>)
    ensures
        sorted_by(final(v)@, song_order()),
        final(v)@.to_multiset() == old(v)@.to_multiset(),
        final(v)@.len() == old(v)@.len(),
        forall|kb: Seq<u8>, kt: i64| #[trigger] key_class(final(v)@, kb, kt) == key_class(
            old(v)@,
            kb,
            kt,
        ),
{
    broadcast use group_to_multiset_ensures;

    let ghost orig = old(v)@;
    let mut i: usize = 1;
    while i < v.len()
        invariant
            i >= 1,
            v@.len() == orig.len(),
            v@.to_multiset() == orig.to_multiset(),
            forall|kb: Seq<u8>, kt: i64| #[trigger] key_class(v@, kb, kt) == key_class(
                orig,
                kb,
                kt,
            ),
            sorted_by(v@.subrange(0, if i <= v@.len() { i as int } else { v@.len() as int }), song_order()),
        decreases v@.len() - i,
    {
        let ghost pre = v@;
        let mut p: usize = 0;
        while p < i && song_le_exec(&v[p], &v[i])
            invariant
                p <= i < v@.len(),
                v@ == pre,
                forall|k: int| 0 <= k < p ==> song_le(v@[k], v@[i as int]),
            decreases i - p,
        {
            p += 1;
        }
        if p < i {
            let ghost x = pre[i as int];
            proof {
                lemma_song_le_total(pre[p as int], x);
                assert(song_le(x, pre[p as int]));
                assert forall|k: int| p <= k < i implies song_le(x, pre[k]) by {
                    if k > p {
                        let oldpref = pre.subrange(0, i as int);
                        assert(song_order()(oldpref[p as int], oldpref[k]));
                        assert(oldpref[p as int] == pre[p as int]);
                        assert(oldpref[k] == pre[k]);
                        lemma_song_le_trans(x, pre[p as int], pre[k]);
                    }
                }
                assert forall|k: int| p <= k < i implies !same_sort_key(
                    #[trigger] pre[k],
                    pre[i as int],
                ) by {
                    if same_sort_key(pre[k], x) {
                        assert(song_le(pre[k], x));
                        if k > p {
                            let oldpref = pre.subrange(0, i as int);
                            assert(song_order()(oldpref[p as int], oldpref[k]));
                            lemma_song_le_trans(pre[p as int], pre[k], x);
                        }
                        assert(false);
                    }
                }
            }
            let moved = v.remove(i);
            v.insert(p, moved);
            proof {
                broadcast use vstd::multiset::group_multiset_axioms;

                let now = v@;
                assert(now == pre.remove(i as int).insert(p as int, x));
                lemma_move_left_keeps_classes(pre, p as int, i as int);
                assert(now =~= pre.subrange(0, p as int) + seq![x] + pre.subrange(p as int, i as int)
                    + pre.subrange(i as int + 1, pre.len() as int));
                assert(now.to_multiset() == orig.to_multiset()) by {
                    vstd::seq_lib::to_multiset_remove(pre, i as int);
                    vstd::seq_lib::to_multiset_insert(pre.remove(i as int), p as int, x);
                    assert(pre.remove(i as int).to_multiset() == pre.to_multiset().remove(x));
                    assert(now.to_multiset() == pre.to_multiset().remove(x).insert(x));
                    assert(pre.contains(x)) by {
                        assert(pre[i as int] == x);
                    }
                    vstd::seq_lib::to_multiset_contains(pre, x);
                    assert(pre.to_multiset().count(x) > 0);
                    assert(pre.to_multiset().remove(x).insert(x) =~= pre.to_multiset());
                }
                let newpref = now.subrange(0, i as int + 1);
                assert forall|m: int, n: int| 0 <= m < n < newpref.len() implies song_order()(
                    newpref[m],
                    newpref[n],
                ) by {
                    let oldpref = pre.subrange(0, i as int);
                    assert forall|k: int| 0 <= k <= i implies newpref[k] == (if k < p {
                        oldpref[k]
                    } else if k == p {
                        x
                    } else {
                        oldpref[k - 1]
                    }) by {}
                    if n < p {
                        assert(song_order()(oldpref[m], oldpref[n]));
                    } else if n == p {
                        assert(song_le(pre[m], x));
                    } else if m < p {
                        if n - 1 < p {
                            assert(song_order()(oldpref[m], oldpref[n - 1]));
                        } else {
                            assert(song_le(pre[m], x));
                            assert(song_le(x, pre[n - 1]));
                            lemma_song_le_trans(pre[m], x, pre[n - 1]);
                        }
                    } else if m == p {
                        assert(song_le(x, pre[n - 1]));
                    } else {
                        assert(song_order()(oldpref[m - 1], oldpref[n - 1]));
                    }
                    assert(song_le(newpref[m], newpref[n]));
                }
            }
        } else {
            proof {
                let newpref = v@.subrange(0, i as int + 1);
                let oldpref = v@.subrange(0, i as int);
                assert forall|m: int, n: int| 0 <= m < n < newpref.len() implies song_order()(
                    newpref[m],
                    newpref[n],
                ) by {
                    if n < i {
                        assert(song_order()(oldpref[m], oldpref[n]));
                    } else {
                        assert(song_le(v@[m], v@[i as int]));
                    }
                    assert(song_le(newpref[m], newpref[n]));
                }
            }
        }
        i += 1;
    }
    proof {
        if v@.len() == 0 {
            assert(v@.subrange(0, 0) =~= v@);
        } else {
            assert(v@.subrange(0, v@.len() as int) =~= v@);
        }
    }
}

} // verus!
