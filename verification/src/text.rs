use vstd::prelude::*;

verus! {

// ---------------------------------------------------------------------------
// Mathematical model of text: a string is its sequence of characters.
// ---------------------------------------------------------------------------

/// The character views of a sequence of strings.
pub open spec fn views(v: Seq<String>) -> Seq<Seq<char>> {
    v.map_values(|s: String| s@)
}

/// `p` occurs in `t` at position `i`.
pub open spec fn occurs_at(t: Seq<char>, p: Seq<char>, i: int) -> bool {
    &&& 0 <= i
    &&& i + p.len() <= t.len()
    &&& t.subrange(i, i + p.len()) == p
}

/// `p` occurs somewhere in `t` (the empty sequence occurs in every text).
pub open spec fn contains_seq(t: Seq<char>, p: Seq<char>) -> bool {
    exists|i: int| occurs_at(t, p, i)
}

/// `t` ends with `s`.
pub open spec fn ends_with(t: Seq<char>, s: Seq<char>) -> bool {
    s.len() <= t.len() && t.subrange(t.len() - s.len(), t.len() as int) == s
}

/// The first position at or after `k` at which `p` occurs in `t`, or -1 when there is none.
pub open spec fn find_from(t: Seq<char>, p: Seq<char>, k: int) -> int
    decreases t.len() + 1 - k,
{
    if k + p.len() > t.len() {
        -1
    } else if occurs_at(t, p, k) {
        k
    } else {
        find_from(t, p, k + 1)
    }
}

/// `find_from` gives the first occurrence at or after `k`, and -1 only when there is
/// none.
pub proof fn lemma_find_from(t: Seq<char>, p: Seq<char>, k: int)
    requires
        0 <= k,
    ensures
        find_from(t, p, k) == -1 ==> forall|j: int| k <= j ==> !#[trigger] occurs_at(t, p, j),
        find_from(t, p, k) != -1 ==> {
            &&& k <= find_from(t, p, k)
            &&& occurs_at(t, p, find_from(t, p, k))
            &&& forall|j: int| k <= j < find_from(t, p, k) ==> !#[trigger] occurs_at(t, p, j)
        },
    decreases t.len() + 1 - k,
{
    if k + p.len() > t.len() {
    } else if occurs_at(t, p, k) {
    } else {
        lemma_find_from(t, p, k + 1);
    }
}

/// Pieces of `t` from position `last` on, split at the leftmost non-overlapping
/// occurrences of a non-empty `p`: the text before an occurrence (when not empty),
/// then the occurrence itself, and finally the rest of the text (when not empty).
pub open spec fn split_from(t: Seq<char>, p: Seq<char>, last: int) -> Seq<Seq<char>>
    decreases t.len() - last,
{
    if p.len() == 0 || last < 0 || last > t.len() {
        Seq::empty()
    } else {
        let i = find_from(t, p, last);
        if i < 0 {
            if last < t.len() {
                seq![t.subrange(last, t.len() as int)]
            } else {
                Seq::empty()
            }
        } else {
            proof {
                lemma_find_from(t, p, last);
            }
            (if i > last {
                seq![t.subrange(last, i)]
            } else {
                Seq::empty()
            }) + seq![p] + split_from(t, p, i + p.len())
        }
    }
}

/// With an empty pattern, the pattern occurs at every character boundary: the pieces
/// are an empty match, then each character followed by an empty match.
pub open spec fn split_every(t: Seq<char>) -> Seq<Seq<char>>
    decreases t.len(),
{
    if t.len() == 0 {
        seq![Seq::empty()]
    } else {
        seq![Seq::empty(), t.subrange(0, 1)] + split_every(t.subrange(1, t.len() as int))
    }
}

/// The pieces of `t` around and including the occurrences of `p`.
pub open spec fn split_keep_spec(t: Seq<char>, p: Seq<char>) -> Seq<Seq<char>> {
    if p.len() == 0 {
        split_every(t)
    } else {
        split_from(t, p, 0)
    }
}

/// The digit character of a number below ten.
pub open spec fn digit_char(d: nat) -> char {
    (48 + d) as char
}

/// The decimal representation of `n`, without leading zeros.
pub open spec fn decimal(n: nat) -> Seq<char>
    decreases n,
{
    if n < 10 {
        seq![digit_char(n)]
    } else {
        decimal(n / 10).push(digit_char(n % 10))
    }
}

/// `s` with every `from` character replaced by `to`.
pub open spec fn replace_char_spec(s: Seq<char>, from: char, to: char) -> Seq<char> {
    s.map_values(|c: char| if c == from { to } else { c })
}

/// `a` + "/" + `b`.
pub open spec fn join_spec(a: Seq<char>, b: Seq<char>) -> Seq<char> {
    a + seq!['/'] + b
}

/// Some piece of `pieces` contains `p`.
pub open spec fn some_piece_contains(pieces: Seq<Seq<char>>, p: Seq<char>) -> bool {
    exists|k: int| 0 <= k < pieces.len() && contains_seq(#[trigger] pieces[k], p)
}

proof fn lemma_flatten_single(a: Seq<char>)
    ensures
        seq![a].flatten() == a,
{
    seq![a].lemma_flatten_one_element();
}

proof fn lemma_split_from_rejoins(t: Seq<char>, p: Seq<char>, last: int)
    requires
        p.len() > 0,
        0 <= last <= t.len(),
    ensures
        split_from(t, p, last).flatten() == t.subrange(last, t.len() as int),
    decreases t.len() - last,
{
    let i = find_from(t, p, last);
    lemma_find_from(t, p, last);
    if i < 0 {
        if last < t.len() {
            lemma_flatten_single(t.subrange(last, t.len() as int));
        } else {
            assert(t.subrange(last, t.len() as int) =~= Seq::<char>::empty());
        }
    } else {
        let rest = split_from(t, p, i + p.len());
        lemma_split_from_rejoins(t, p, i + p.len());
        lemma_flatten_single(p);
        if i > last {
            let head = seq![t.subrange(last, i)];
            lemma_flatten_single(t.subrange(last, i));
            vstd::seq_lib::lemma_flatten_concat(head + seq![p], rest);
            vstd::seq_lib::lemma_flatten_concat(head, seq![p]);
            assert(t.subrange(last, t.len() as int) =~= t.subrange(last, i) + p + t.subrange(
                i + p.len(),
                t.len() as int,
            ));
        } else {
            let head = Seq::<Seq<char>>::empty();
            assert(head + seq![p] =~= seq![p]);
            vstd::seq_lib::lemma_flatten_concat(seq![p], rest);
            assert(t.subrange(last, t.len() as int) =~= p + t.subrange(
                i + p.len(),
                t.len() as int,
            ));
        }
    }
}

proof fn lemma_split_every_rejoins(t: Seq<char>)
    ensures
        split_every(t).flatten() == t,
    decreases t.len(),
{
    if t.len() == 0 {
        lemma_flatten_single(Seq::<char>::empty());
    } else {
        let rest = t.subrange(1, t.len() as int);
        lemma_split_every_rejoins(rest);
        let two = seq![Seq::<char>::empty(), t.subrange(0, 1)];
        vstd::seq_lib::lemma_flatten_concat(two, split_every(rest));
        assert(two.drop_first() =~= seq![t.subrange(0, 1)]);
        lemma_flatten_single(t.subrange(0, 1));
        assert(two.flatten() =~= t.subrange(0, 1));
        assert(t =~= t.subrange(0, 1) + rest);
    }
}

/// Joining the pieces of `split_keep` gives back the text: nothing is lost, nothing added.
pub proof fn lemma_split_keep_rejoins(t: Seq<char>, p: Seq<char>)
    ensures
        split_keep_spec(t, p).flatten() == t,
{
    if p.len() == 0 {
        lemma_split_every_rejoins(t);
    } else {
        lemma_split_from_rejoins(t, p, 0);
        assert(t.subrange(0, t.len() as int) =~= t);
    }
}

proof fn lemma_split_from_pieces(t: Seq<char>, p: Seq<char>, last: int)
    requires
        p.len() > 0,
        0 <= last <= t.len(),
    ensures
        forall|k: int|
            0 <= k < split_from(t, p, last).len() ==> {
                let piece = #[trigger] split_from(t, p, last)[k];
                piece == p || (piece.len() > 0 && !contains_seq(piece, p))
            },
    decreases t.len() - last,
{
    let i = find_from(t, p, last);
    lemma_find_from(t, p, last);
    if i < 0 {
        if last < t.len() {
            let piece = t.subrange(last, t.len() as int);
            assert forall|j: int| !occurs_at(piece, p, j) by {
                if occurs_at(piece, p, j) {
                    assert(t.subrange(last + j, last + j + p.len()) =~= piece.subrange(
                        j,
                        j + p.len(),
                    ));
                    assert(occurs_at(t, p, last + j));
                }
            }
        }
    } else {
        lemma_split_from_pieces(t, p, i + p.len());
        let rest = split_from(t, p, i + p.len());
        if i > last {
            let piece = t.subrange(last, i);
            assert forall|j: int| !occurs_at(piece, p, j) by {
                if occurs_at(piece, p, j) {
                    assert(t.subrange(last + j, last + j + p.len()) =~= piece.subrange(
                        j,
                        j + p.len(),
                    ));
                    assert(occurs_at(t, p, last + j));
                }
            }
            let all = seq![piece] + seq![p] + rest;
            assert forall|k: int| 0 <= k < all.len() implies {
                let q = #[trigger] all[k];
                q == p || (q.len() > 0 && !contains_seq(q, p))
            } by {
                if k >= 2 {
                    assert(all[k] == rest[k - 2]);
                }
            }
        } else {
            let all = Seq::<Seq<char>>::empty() + seq![p] + rest;
            assert forall|k: int| 0 <= k < all.len() implies {
                let q = #[trigger] all[k];
                q == p || (q.len() > 0 && !contains_seq(q, p))
            } by {
                if k >= 1 {
                    assert(all[k] == rest[k - 1]);
                }
            }
        }
    }
}

/// With a non-empty pattern, every piece is either an occurrence of the pattern or a
/// non-empty stretch of text in which the pattern does not occur.
pub proof fn lemma_split_keep_pieces(t: Seq<char>, p: Seq<char>)
    requires
        p.len() > 0,
    ensures
        forall|k: int|
            0 <= k < split_keep_spec(t, p).len() ==> {
                let piece = #[trigger] split_keep_spec(t, p)[k];
                piece == p || (piece.len() > 0 && !contains_seq(piece, p))
            },
{
    lemma_split_from_pieces(t, p, 0);
}

proof fn lemma_split_from_neighbours(t: Seq<char>, p: Seq<char>, last: int)
    requires
        p.len() > 0,
        0 <= last <= t.len(),
    ensures
        forall|k: int|
            0 <= k < split_from(t, p, last).len() - 1 && #[trigger] split_from(t, p, last)[k]
                != p ==> split_from(t, p, last)[k + 1] == p,
    decreases t.len() - last,
{
    let i = find_from(t, p, last);
    lemma_find_from(t, p, last);
    if i >= 0 {
        lemma_split_from_neighbours(t, p, i + p.len());
        let rest = split_from(t, p, i + p.len());
        let head: Seq<Seq<char>> = if i > last {
            seq![t.subrange(last, i)]
        } else {
            Seq::empty()
        };
        let all = head + seq![p] + rest;
        assert(split_from(t, p, last) == all);
        let h = head.len() as int;
        assert forall|k: int| 0 <= k < all.len() - 1 && #[trigger] all[k] != p implies all[k + 1]
            == p by {
            if k > h {
                assert(all[k] == rest[k - h - 1]);
                assert(all[k + 1] == rest[k - h]);
            }
        }
    }
}

/// With a non-empty pattern, a piece that is not an occurrence is always followed by
/// an occurrence: two stretches of plain text never stand side by side.
pub proof fn lemma_split_keep_neighbours(t: Seq<char>, p: Seq<char>)
    requires
        p.len() > 0,
    ensures
        forall|k: int|
            0 <= k < split_keep_spec(t, p).len() - 1 && #[trigger] split_keep_spec(t, p)[k] != p
                ==> split_keep_spec(t, p)[k + 1] == p,
{
    lemma_split_from_neighbours(t, p, 0);
}

/// Some piece of the split contains the pattern exactly when the text does.
pub proof fn lemma_split_keep_finds(t: Seq<char>, p: Seq<char>)
    ensures
        some_piece_contains(split_keep_spec(t, p), p) == contains_seq(t, p),
{
    let pieces = split_keep_spec(t, p);
    if p.len() == 0 {
        assert(t.subrange(0, 0) =~= p);
        assert(occurs_at(t, p, 0));
        assert(pieces[0] =~= Seq::<char>::empty());
        assert(pieces[0].subrange(0, 0) =~= p);
        assert(occurs_at(pieces[0], p, 0));
        assert(contains_seq(pieces[0], p));
    } else {
        lemma_find_from(t, p, 0);
        let i = find_from(t, p, 0);
        if i < 0 {
            if t.len() > 0 {
                assert(t.subrange(0, t.len() as int) =~= t);
                assert(pieces == seq![t.subrange(0, t.len() as int)]);
                assert forall|k: int| 0 <= k < pieces.len() implies !contains_seq(
                    #[trigger] pieces[k],
                    p,
                ) by {
                    assert(pieces[k] == t.subrange(0, t.len() as int));
                    assert(t.subrange(0, t.len() as int) =~= t);
                    if contains_seq(t, p) {
                        let j = choose|j: int| occurs_at(t, p, j);
                        assert(occurs_at(t, p, j));
                    }
                }
            } else {
                assert(pieces.len() == 0);
                if contains_seq(t, p) {
                    let j = choose|j: int| occurs_at(t, p, j);
                    assert(occurs_at(t, p, j));
                }
            }
        } else {
            assert(occurs_at(t, p, i));
            assert(p.subrange(0, p.len() as int) =~= p);
            assert(occurs_at(p, p, 0));
            let k = if i > 0 { 1int } else { 0int };
            assert(pieces[k] == p);
            assert(contains_seq(pieces[k], p));
        }
    }
}

// ---------------------------------------------------------------------------
// Conversions between strings and characters.
// ---------------------------------------------------------------------------

/// The characters of `s`, in order.
pub fn chars_of(s: &str) -> (v: Vec<char>)
    ensures
        v@ == s@,
{
    let mut v: Vec<char> = Vec::new();
    for c in it: s.chars()
        invariant
            v@ == it.seq().take(it.index() as int),
    {
        v.push(c);
    }
    v
}

/// Collects characters into a `String` through std's `FromIterator<&char>` impl for
/// `String`. Claimed: the string holds exactly the given characters, in order.
#[verifier::external_body]
pub(crate) fn string_from_chars(cs: &[char]) -> (s: String)
    ensures
        s@ == cs@,
{
    cs.iter().collect()
}

/// Calls std's `str::to_lowercase`. Claimed: the result is the name `lowercase`
/// applied to the argument's characters (Unicode lowercase mapping, which depends on
/// the characters alone).
#[verifier::external_body]
pub(crate) fn to_lowercase(s: &str) -> (r: String)
    ensures
        r@ == lowercase(s@),
{
    s.to_lowercase()
}

/// What std's `str::to_lowercase` returns for a string with these characters.
pub uninterp spec fn lowercase(s: Seq<char>) -> Seq<char>;

// ---------------------------------------------------------------------------
// Searching.
// ---------------------------------------------------------------------------

/// Whether `p` occurs in `t` at position `k`.
pub fn occurs_at_exec(t: &Vec<char>, p: &Vec<char>, k: usize) -> (r: bool)
    ensures
        r == occurs_at(t@, p@, k as int),
{
    let n = t.len();
    let m = p.len();
    if k > n || m > n - k {
        return false;
    }
    let mut j: usize = 0;
    while j < m
        invariant
            k + m <= n,
            n == t@.len(),
            m == p@.len(),
            j <= m,
            forall|q: int| 0 <= q < j ==> t@[k + q] == p@[q],
        decreases m - j,
    {
        if t[k + j] != p[j] {
            assert(t@.subrange(k as int, k + m)[j as int] != p@[j as int]);
            return false;
        }
        j = j + 1;
    }
    assert(t@.subrange(k as int, k + m) =~= p@);
    true
}

/// Whether `needle` occurs in `hay`, as `str::contains` answers it.
pub fn contains_str(hay: &str, needle: &str) -> (r: bool)
    ensures
        r == contains_seq(hay@, needle@),
{
    let t = chars_of(hay);
    let p = chars_of(needle);
    contains_chars(&t, &p)
}

pub fn contains_chars(t: &Vec<char>, p: &Vec<char>) -> (r: bool)
    ensures
        r == contains_seq(t@, p@),
{
    let n = t.len();
    let m = p.len();
    if m == 0 {
        assert(t@.subrange(0, 0) =~= p@);
        assert(occurs_at(t@, p@, 0));
        return true;
    }
    if m > n {
        return false;
    }
    let mut k: usize = 0;
    while k <= n - m
        invariant
            0 < m <= n,
            n == t@.len(),
            m == p@.len(),
            forall|j: int| 0 <= j < k ==> !#[trigger] occurs_at(t@, p@, j),
        decreases n - k + 1,
    {
        if occurs_at_exec(t, p, k) {
            return true;
        }
        k = k + 1;
    }
    false
}

/// Whether `t` ends with `s`.
pub fn ends_with_chars(t: &Vec<char>, s: &Vec<char>) -> (r: bool)
    ensures
        r == ends_with(t@, s@),
{
    if s.len() > t.len() {
        return false;
    }
    let r = occurs_at_exec(t, s, t.len() - s.len());
    r
}

/// Splits `text` at the leftmost non-overlapping occurrences of `search`, keeping the
/// occurrences as pieces of their own, as `str::match_indices` finds them.
pub fn split_keep(text: &str, search: &str) -> (pieces: Vec<String>)
    ensures
        views(pieces@) == split_keep_spec(text@, search@),
{
    let t = chars_of(text);
    let p = chars_of(search);
    let n = t.len();
    let m = p.len();
    let mut out: Vec<String> = Vec::new();
    if m == 0 {
        let mut i: usize = 0;
        proof {
            assert(t@.subrange(0, n as int) =~= t@);
            assert(views(out@) =~= Seq::<Seq<char>>::empty());
        }
        while i < n
            invariant
                i <= n,
                n == t@.len(),
                views(out@) + split_every(t@.subrange(i as int, n as int)) == split_every(t@),
            decreases n - i,
        {
            let ghost rest = t@.subrange(i as int, n as int);
            let e = String::new();
            let c = string_from_chars(vstd::slice::slice_subrange(t.as_slice(), i, i + 1));
            proof {
                assert(rest.subrange(0, 1) =~= t@.subrange(i as int, i + 1));
                assert(rest.subrange(1, rest.len() as int) =~= t@.subrange(i + 1, n as int));
                assert(split_every(rest) == seq![Seq::<char>::empty(), rest.subrange(0, 1)]
                    + split_every(t@.subrange(i + 1, n as int)));
            }
            let ghost before = views(out@);
            out.push(e);
            out.push(c);
            proof {
                assert(views(out@) =~= before + seq![Seq::<char>::empty(), rest.subrange(0, 1)]);
            }
            i = i + 1;
        }
        let ghost before = views(out@);
        out.push(String::new());
        proof {
            assert(t@.subrange(n as int, n as int) =~= Seq::<char>::empty());
            assert(views(out@) =~= before + seq![Seq::<char>::empty()]);
        }
        return out;
    }
    let mut last: usize = 0;
    let mut pos: usize = 0;
    while m <= n && pos <= n - m
        invariant
            0 < m,
            n == t@.len(),
            m == p@.len(),
            last <= pos <= n,
            find_from(t@, p@, last as int) == find_from(t@, p@, pos as int),
            views(out@) + split_from(t@, p@, last as int) == split_from(t@, p@, 0),
        decreases n - pos,
    {
        if occurs_at_exec(&t, &p, pos) {
            let ghost before = views(out@);
            proof {
                lemma_find_from(t@, p@, last as int);
                assert(find_from(t@, p@, last as int) == pos);
            }
            if last != pos {
                let piece = string_from_chars(
                    vstd::slice::slice_subrange(t.as_slice(), last, pos),
                );
                out.push(piece);
            }
            let found = string_from_chars(vstd::slice::slice_subrange(t.as_slice(), pos, pos + m));
            out.push(found);
            proof {
                assert(t@.subrange(pos as int, pos + m) =~= p@);
                if last != pos {
                    assert(views(out@) =~= before + seq![t@.subrange(last as int, pos as int)]
                        + seq![p@]);
                } else {
                    assert(views(out@) =~= before + seq![p@]);
                }
            }
            pos = pos + m;
            last = pos;
        } else {
            pos = pos + 1;
        }
    }
    proof {
        assert(find_from(t@, p@, pos as int) == -1);
    }
    if last < n {
        let ghost before = views(out@);
        let piece = string_from_chars(vstd::slice::slice_subrange(t.as_slice(), last, n));
        out.push(piece);
        proof {
            assert(views(out@) =~= before + seq![t@.subrange(last as int, n as int)]);
        }
    }
    out
}



/// `s` with every `from` character replaced by `to`, as `str::replace` does with
/// one-character patterns.
pub fn replace_char(s: &str, from: char, to: char) -> (r: String)
    ensures
        r@ == replace_char_spec(s@, from, to),
{
    let cs = chars_of(s);
    let mut out: Vec<char> = Vec::new();
    let mut i: usize = 0;
    while i < cs.len()
        invariant
            i <= cs@.len(),
            out@ == replace_char_spec(cs@.subrange(0, i as int), from, to),
        decreases cs.len() - i,
    {
        let c = cs[i];
        out.push(if c == from { to } else { c });
        proof {
            assert(replace_char_spec(cs@.subrange(0, i + 1), from, to) =~= replace_char_spec(
                cs@.subrange(0, i as int),
                from,
                to,
            ).push(if c == from { to } else { c }));
        }
        i = i + 1;
    }
    proof {
        assert(cs@.subrange(0, cs@.len() as int) =~= cs@);
    }
    string_from_chars(out.as_slice())
}

/// Replacing keeps the length, and no `from` character is left (unless `to` is `from`).
pub proof fn lemma_replace_char_clears(s: Seq<char>, from: char, to: char)
    ensures
        replace_char_spec(s, from, to).len() == s.len(),
        from != to ==> !replace_char_spec(s, from, to).contains(from),
{
}

/// Replacing touches exactly the `from` characters: each of them becomes `to`, every
/// other character stays as it was, in its place.
pub proof fn lemma_replace_char_pointwise(s: Seq<char>, from: char, to: char)
    ensures
        replace_char_spec(s, from, to).len() == s.len(),
        forall|i: int|
            0 <= i < s.len() ==> (s[i] == from ==> #[trigger] replace_char_spec(s, from, to)[i]
                == to) && (s[i] != from ==> replace_char_spec(s, from, to)[i] == s[i]),
{
}

/// `a` + "/" + `b`, the way paths are put together here.
pub fn join_path(a: &str, b: &str) -> (r: String)
    ensures
        r@ == join_spec(a@, b@),
{
    let r = String::from_str(a).concat("/").concat(b);
    proof {
        reveal_strlit("/");
        assert(r@ =~= join_spec(a@, b@));
    }
    r
}

fn push_decimal(n: usize, out: &mut Vec<char>)
    ensures
        final(out)@ == old(out)@ + decimal(n as nat),
    decreases n,
{
    if n >= 10 {
        push_decimal(n / 10, out);
    }
    let d: u8 = (n % 10) as u8;
    let c = (48u8 + d) as char;
    out.push(c);
    proof {
        assert(c == digit_char((n % 10) as nat));
        if n >= 10 {
            assert(out@ =~= old(out)@ + decimal((n / 10) as nat).push(digit_char((n % 10) as nat)));
        } else {
            assert(out@ =~= old(out)@ + seq![digit_char(n as nat)]);
        }
    }
}

/// The decimal representation of `n`, as `format!("{}", n)` writes it.
pub fn decimal_string(n: usize) -> (s: String)
    ensures
        s@ == decimal(n as nat),
{
    let mut v: Vec<char> = Vec::new();
    push_decimal(n, &mut v);
    proof {
        assert(v@ =~= decimal(n as nat));
    }
    string_from_chars(v.as_slice())
}

} // verus!
