//! Form-encoded request data: a text `k1=v1&k2=v2&...` is split on `&` into
//! pairs, each pair is split at its first `=`, pairs with no `=` are dropped,
//! and of two pairs with the same key the later one wins.

use vstd::prelude::*;

verus! {

/// The pieces of `s` split at every occurrence of `sep`: the empty text gives
/// one empty piece, and each separator ends the piece before it.
pub open spec fn split_at_sep(s: Seq<char>, sep: char) -> Seq<Seq<char>>
    decreases s.len(),
{
    if s.len() == 0 {
        seq![Seq::<char>::empty()]
    } else if s[0] == sep {
        seq![Seq::<char>::empty()] + split_at_sep(s.drop_first(), sep)
    } else {
        let rest = split_at_sep(s.drop_first(), sep);
        seq![seq![s[0]] + rest[0]] + rest.drop_first()
    }
}

/// A pair split at its first `=`: the key before it, the value after (which
/// may itself contain `=`); a piece with no `=` yields nothing.
pub open spec fn split_at_first_eq(p: Seq<char>) -> Option<(Seq<char>, Seq<char>)>
    decreases p.len(),
{
    if p.len() == 0 {
        None
    } else if p[0] == '=' {
        Some((Seq::<char>::empty(), p.drop_first()))
    } else {
        match split_at_first_eq(p.drop_first()) {
            None => None,
            Some(kv) => Some((seq![p[0]] + kv.0, kv.1)),
        }
    }
}

/// The mapping of a sequence of pieces, inserted left to right, so a later
/// duplicate key overrides an earlier one; a piece with no `=` is dropped.
pub open spec fn form_pairs(pieces: Seq<Seq<char>>) -> Map<Seq<char>, Seq<char>>
    decreases pieces.len(),
{
    if pieces.len() == 0 {
        Map::empty()
    } else {
        let m = form_pairs(pieces.drop_last());
        match split_at_first_eq(pieces.last()) {
            None => m,
            Some(kv) => m.insert(kv.0, kv.1),
        }
    }
}

/// The mapping a form data text denotes.
pub open spec fn form_map_of(s: Seq<char>) -> Map<Seq<char>, Seq<char>> {
    form_pairs(split_at_sep(s, '&'))
}

/// The mapping that a vector of key/value pairs denotes.
pub open spec fn pairs_map(ps: Seq<(String, String)>) -> Map<Seq<char>, Seq<char>>
    decreases ps.len(),
{
    if ps.len() == 0 {
        Map::empty()
    } else {
        pairs_map(ps.drop_last()).insert(ps.last().0@, ps.last().1@)
    }
}

/// No two pairs of the vector share a key.
pub open spec fn unique_keys(ps: Seq<(String, String)>) -> bool {
    forall|i: int, j: int| 0 <= i < j < ps.len() ==> ps[i].0@ != ps[j].0@
}

/// Splitting always yields at least one piece.
proof fn lemma_split_nonempty(s: Seq<char>, sep: char)
    ensures
        split_at_sep(s, sep).len() >= 1,
    decreases s.len(),
{
    if s.len() == 0 {
    } else {
        lemma_split_nonempty(s.drop_first(), sep);
    }
}

/// A text without the separator splits into the one piece it is.
proof fn lemma_split_no_sep(p: Seq<char>, sep: char)
    requires
        forall|i: int| 0 <= i < p.len() ==> p[i] != sep,
    ensures
        split_at_sep(p, sep) == seq![p],
    decreases p.len(),
{
    if p.len() == 0 {
        assert(p =~= Seq::<char>::empty());
    } else {
        lemma_split_no_sep(p.drop_first(), sep);
        let rest = split_at_sep(p.drop_first(), sep);
        assert(rest[0] == p.drop_first());
        assert(seq![p[0]] + p.drop_first() =~= p);
        assert(rest.drop_first() =~= Seq::<Seq<char>>::empty());
        assert(split_at_sep(p, sep) =~= seq![p]);
    }
}

/// Splitting a text that starts with a separator-free piece followed by the
/// separator peels that piece off the front.
proof fn lemma_split_step(p: Seq<char>, sep: char, r: Seq<char>)
    requires
        forall|i: int| 0 <= i < p.len() ==> p[i] != sep,
    ensures
        split_at_sep(p + seq![sep] + r, sep) == seq![p] + split_at_sep(r, sep),
    decreases p.len(),
{
    let s = p + seq![sep] + r;
    if p.len() == 0 {
        assert(s[0] == sep);
        assert(s.drop_first() =~= r);
        assert(p =~= Seq::<char>::empty());
        assert(split_at_sep(s, sep) =~= seq![p] + split_at_sep(r, sep));
    } else {
        assert(s[0] == p[0]);
        assert(s.drop_first() =~= p.drop_first() + seq![sep] + r);
        lemma_split_step(p.drop_first(), sep, r);
        lemma_split_nonempty(r, sep);
        let rest = split_at_sep(s.drop_first(), sep);
        assert(rest == seq![p.drop_first()] + split_at_sep(r, sep));
        assert(rest[0] == p.drop_first());
        assert(seq![p[0]] + p.drop_first() =~= p);
        assert(rest.drop_first() =~= split_at_sep(r, sep));
        assert(split_at_sep(s, sep) =~= seq![p] + split_at_sep(r, sep));
    }
}

/// If the first `=` of `p` stands at position `j`, the key is what precedes
/// it and the value what follows it.
proof fn lemma_first_eq_found(p: Seq<char>, j: int)
    requires
        0 <= j < p.len(),
        p[j] == '=',
        forall|k: int| 0 <= k < j ==> p[k] != '=',
    ensures
        split_at_first_eq(p) == Some((p.subrange(0, j), p.subrange(j + 1, p.len() as int))),
    decreases j,
{
    if j == 0 {
        assert(p.subrange(0, 0) =~= Seq::<char>::empty());
        assert(p.subrange(1, p.len() as int) =~= p.drop_first());
    } else {
        let d = p.drop_first();
        assert(d[j - 1] == '=');
        assert(forall|k: int| 0 <= k < j - 1 ==> d[k] != '=');
        lemma_first_eq_found(d, j - 1);
        assert(seq![p[0]] + d.subrange(0, j - 1) =~= p.subrange(0, j));
        assert(d.subrange(j, d.len() as int) =~= p.subrange(j + 1, p.len() as int));
    }
}

/// A piece with no `=` anywhere yields no pair.
proof fn lemma_first_eq_none(p: Seq<char>)
    requires
        forall|k: int| 0 <= k < p.len() ==> p[k] != '=',
    ensures
        split_at_first_eq(p) is None,
    decreases p.len(),
{
    if p.len() == 0 {
    } else {
        lemma_first_eq_none(p.drop_first());
    }
}

/// Removing the one pair that holds key `k` and then inserting `k` anew leads
/// to the same mapping as inserting `k` directly.
proof fn lemma_pairs_map_override(ps: Seq<(String, String)>, idx: int, k: Seq<char>, v: Seq<char>)
    requires
        unique_keys(ps),
        0 <= idx < ps.len(),
        ps[idx].0@ == k,
    ensures
        pairs_map(ps.remove(idx)).insert(k, v) == pairs_map(ps).insert(k, v),
    decreases ps.len(),
{
    if idx == ps.len() - 1 {
        assert(ps.remove(idx) =~= ps.drop_last());
        assert(pairs_map(ps.drop_last()).insert(k, v) =~= pairs_map(ps.drop_last()).insert(
            k,
            ps.last().1@,
        ).insert(k, v));
    } else {
        let qs = ps.remove(idx);
        assert(qs.last() == ps.last());
        assert(qs.drop_last() =~= ps.drop_last().remove(idx));
        assert(unique_keys(ps.drop_last()));
        lemma_pairs_map_override(ps.drop_last(), idx, k, v);
        let m = pairs_map(ps.drop_last().remove(idx));
        let lastk = ps.last().0@;
        let lastv = ps.last().1@;
        assert(k != lastk);
        assert(pairs_map(qs) == m.insert(lastk, lastv));
        assert(m.insert(lastk, lastv).insert(k, v) =~= m.insert(k, v).insert(lastk, lastv));
        assert(pairs_map(ps.drop_last()).insert(k, v).insert(lastk, lastv) =~= pairs_map(
            ps.drop_last(),
        ).insert(lastk, lastv).insert(k, v));
        assert(pairs_map(ps) == pairs_map(ps.drop_last()).insert(lastk, lastv));
    }
}

/// Law: a piece without an `=` separator contributes nothing to the mapping.
pub proof fn lemma_malformed_piece_dropped(pieces: Seq<Seq<char>>, p: Seq<char>)
    requires
        split_at_first_eq(p) is None,
    ensures
        form_pairs(pieces.push(p)) == form_pairs(pieces),
{
    assert(pieces.push(p).drop_last() =~= pieces);
    assert(pieces.push(p).last() == p);
}

/// Law: of two pieces that carry the same key, the later one decides what the
/// key maps to.
pub proof fn lemma_last_key_wins(
    pieces: Seq<Seq<char>>,
    p1: Seq<char>,
    p2: Seq<char>,
    k: Seq<char>,
    v1: Seq<char>,
    v2: Seq<char>,
)
    requires
        split_at_first_eq(p1) == Some((k, v1)),
        split_at_first_eq(p2) == Some((k, v2)),
    ensures
        form_pairs(pieces.push(p1).push(p2)) == form_pairs(pieces.push(p2)),
{
    assert(pieces.push(p1).push(p2).drop_last() =~= pieces.push(p1));
    assert(pieces.push(p1).push(p2).last() == p2);
    assert(pieces.push(p1).drop_last() =~= pieces);
    assert(pieces.push(p1).last() == p1);
    assert(pieces.push(p2).drop_last() =~= pieces);
    assert(pieces.push(p2).last() == p2);
    assert(form_pairs(pieces.push(p1).push(p2)) == form_pairs(pieces.push(p1)).insert(k, v2));
    assert(form_pairs(pieces.push(p1)) == form_pairs(pieces).insert(k, v1));
    assert(form_pairs(pieces.push(p2)) == form_pairs(pieces).insert(k, v2));
    assert(form_pairs(pieces).insert(k, v1).insert(k, v2) =~= form_pairs(pieces).insert(k, v2));
}

/// Split a piece at its first `=` into a key and a value; a piece with no `=`
/// yields nothing.
fn split_pair(piece: &str) -> (r: Option<(String, String)>)
    ensures
        match r {
            Some(kv) => split_at_first_eq(piece@) == Some((kv.0@, kv.1@)),
            None => split_at_first_eq(piece@) is None,
        },
{
    let m = piece.unicode_len();
    let mut j: usize = 0;
    while j < m
        invariant
            j <= m,
            m == piece@.len(),
            forall|t: int| 0 <= t < j ==> piece@[t] != '=',
        decreases m - j,
    {
        if piece.get_char(j) == '=' {
            let key = piece.substring_char(0, j);
            let val = piece.substring_char(j + 1, m);
            proof {
                lemma_first_eq_found(piece@, j as int);
            }
            return Some((String::from_str(key), String::from_str(val)));
        }
        j += 1;
    }
    proof {
        lemma_first_eq_none(piece@);
    }
    None
}

/// Insert a pair, overriding any earlier pair with the same key.
fn upsert_pair(out: &mut Vec<(String, String)>, key: String, val: String)
    requires
        unique_keys(old(out)@),
    ensures
        unique_keys(final(out)@),
        pairs_map(final(out)@) == pairs_map(old(out)@).insert(key@, val@),
{
    let mut i: usize = 0;
    let n = out.len();
    while i < n
        invariant
            i <= n,
            n == out@.len(),
            unique_keys(out@),
            out@ == old(out)@,
            forall|t: int| 0 <= t < i ==> out@[t].0@ != key@,
        decreases n - i,
    {
        if out[i].0 == key {
            let ghost before = out@;
            out.remove(i);
            out.push((key, val));
            proof {
                let shorter = before.remove(i as int);
                lemma_pairs_map_override(before, i as int, key@, val@);
                assert(out@.drop_last() =~= shorter);
                assert(out@.last() == (key, val));
                assert(pairs_map(out@) == pairs_map(shorter).insert(key@, val@));
                assert(unique_keys(shorter));
                assert(forall|a: int| 0 <= a < shorter.len() ==> shorter[a].0@ != key@);
                assert(unique_keys(out@));
            }
            return ;
        }
        i += 1;
    }
    out.push((key, val));
    proof {
        assert(out@.drop_last() =~= old(out)@);
        assert(out@.last() == (key, val));
        assert(unique_keys(out@));
    }
}

/// Parse a form data text into its key/value pairs. The resulting vector
/// carries each key once, bound to the value that the text's last pair with
/// that key gives it; pairs with no `=` are dropped.
pub fn parse_form(data: &str) -> (r: Vec<(String, String)>)
    ensures
        pairs_map(r@) == form_map_of(data@),
        unique_keys(r@),
{
    let n = data.unicode_len();
    let mut out: Vec<(String, String)> = Vec::new();
    let mut start: usize = 0;
    let mut i: usize = 0;
    let ghost full = split_at_sep(data@, '&');
    let ghost mut done: Seq<Seq<char>> = Seq::empty();
    proof {
        assert(data@.subrange(0, n as int) =~= data@);
        assert(done + split_at_sep(data@.subrange(0, n as int), '&') =~= full);
    }
    while i < n
        invariant
            start <= i <= n,
            n == data@.len(),
            unique_keys(out@),
            pairs_map(out@) == form_pairs(done),
            full == done + split_at_sep(data@.subrange(start as int, n as int), '&'),
            forall|t: int| start <= t < i ==> data@[t] != '&',
        decreases n - i,
    {
        if data.get_char(i) == '&' {
            let piece = data.substring_char(start, i);
            proof {
                let p = piece@;
                let tail = data@.subrange(i + 1, n as int);
                assert(data@.subrange(start as int, n as int) =~= p + seq!['&'] + tail);
                lemma_split_step(p, '&', tail);
                assert(done + (seq![p] + split_at_sep(tail, '&')) =~= done.push(p) + split_at_sep(
                    tail,
                    '&',
                ));
            }
            match split_pair(piece) {
                Some(kv) => {
                    upsert_pair(&mut out, kv.0, kv.1);
                },
                None => {},
            }
            proof {
                let done2 = done.push(piece@);
                assert(done2.drop_last() =~= done);
                assert(done2.last() == piece@);
                assert(pairs_map(out@) == form_pairs(done2));
                done = done2;
            }
            start = i + 1;
        }
        i += 1;
    }
    let piece = data.substring_char(start, n);
    proof {
        let p = piece@;
        assert(p =~= data@.subrange(start as int, n as int));
        lemma_split_no_sep(p, '&');
        assert(done + seq![p] =~= done.push(p));
    }
    match split_pair(piece) {
        Some(kv) => {
            upsert_pair(&mut out, kv.0, kv.1);
        },
        None => {},
    }
    proof {
        let done2 = done.push(piece@);
        assert(done2.drop_last() =~= done);
        assert(done2.last() == piece@);
        assert(pairs_map(out@) == form_pairs(done2));
        assert(full == done2);
    }
    out
}

} // verus!
