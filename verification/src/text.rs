//! Whitespace handling for literal JSX text, following the HTML
//! collapsing convention: a whitespace run that contains a newline is
//! removed entirely at either end of the text and collapses to a single
//! space in the interior, while whitespace runs without any newline are
//! preserved exactly as written.

use vstd::prelude::*;

verus! {

/// Template whitespace other than the line break.
pub open spec fn is_tpl_ws(c: char) -> bool {
    c == ' ' || c == '\t'
}

/// Does the text contain a newline at all?  Text without one is kept
/// verbatim.
pub open spec fn has_nl(s: Seq<char>) -> bool {
    exists|i: int| 0 <= i < s.len() && s[i] == '\n'
}

/// The chunks of `s` between newlines, from position `i`, with `cur`
/// the part of the current chunk read so far.  `split_nl(s)` is the
/// full split.
pub open spec fn split_acc(s: Seq<char>, i: int, cur: Seq<char>) -> Seq<Seq<char>>
    decreases s.len() - i,
{
    if i < 0 || i >= s.len() {
        seq![cur]
    } else if s[i] == '\n' {
        seq![cur] + split_acc(s, i + 1, Seq::empty())
    } else {
        split_acc(s, i + 1, cur.push(s[i]))
    }
}

pub open spec fn split_nl(s: Seq<char>) -> Seq<Seq<char>> {
    split_acc(s, 0, Seq::empty())
}

/// Leading template whitespace removed.
pub open spec fn trim_start(s: Seq<char>) -> Seq<char>
    decreases s.len(),
{
    if s.len() > 0 && is_tpl_ws(s[0]) {
        trim_start(s.drop_first())
    } else {
        s
    }
}

/// Trailing template whitespace removed.
pub open spec fn trim_end(s: Seq<char>) -> Seq<char>
    decreases s.len(),
{
    if s.len() > 0 && is_tpl_ws(s.last()) {
        trim_end(s.drop_last())
    } else {
        s
    }
}

/// What chunk `i` of `n` contributes: the first chunk keeps its leading
/// whitespace, the last keeps its trailing whitespace, interior chunks
/// are trimmed on both sides.
pub open spec fn piece_of(cs: Seq<Seq<char>>, i: int) -> Seq<char> {
    if i == 0 {
        trim_end(cs[0])
    } else if i == cs.len() - 1 {
        trim_start(cs[i])
    } else {
        trim_end(trim_start(cs[i]))
    }
}

pub open spec fn pieces_of(cs: Seq<Seq<char>>) -> Seq<Seq<char>> {
    Seq::new(cs.len(), |i: int| piece_of(cs, i))
}

/// Join the pieces that follow an already-emitted piece: each nonempty
/// one is preceded by a single space.
pub open spec fn join_rest(ps: Seq<Seq<char>>) -> Seq<char>
    decreases ps.len(),
{
    if ps.len() == 0 {
        Seq::empty()
    } else if ps[0].len() == 0 {
        join_rest(ps.drop_first())
    } else {
        seq![' '] + ps[0] + join_rest(ps.drop_first())
    }
}

/// Join all pieces, separating nonempty ones with single spaces.
pub open spec fn join_ws(ps: Seq<Seq<char>>) -> Seq<char>
    decreases ps.len(),
{
    if ps.len() == 0 {
        Seq::empty()
    } else if ps[0].len() == 0 {
        join_ws(ps.drop_first())
    } else {
        ps[0] + join_rest(ps.drop_first())
    }
}

/// The whole collapsing function: text without a newline is kept as it
/// is; otherwise the text is split at newlines, each chunk trimmed as
/// `piece_of` says, and the nonempty pieces joined by single spaces.
/// `None` means the text contributes nothing.
pub open spec fn trim_spec(s: Seq<char>) -> Option<Seq<char>> {
    if !has_nl(s) {
        Some(s)
    } else {
        let j = join_ws(pieces_of(split_nl(s)));
        if j.len() == 0 {
            None
        } else {
            Some(j)
        }
    }
}

// ---------------------------------------------------------------------
// Lemmas about the pieces.
// ---------------------------------------------------------------------

/// `join_ws` yields something exactly when some piece is nonempty.
pub proof fn lemma_join_ws_empty(ps: Seq<Seq<char>>)
    ensures
        (join_ws(ps).len() == 0) <==> (forall|i: int| 0 <= i < ps.len() ==> ps[i].len() == 0),
    decreases ps.len(),
{
    if ps.len() > 0 {
        lemma_join_ws_empty(ps.drop_first());
        if ps[0].len() == 0 {
            assert forall|i: int| 1 <= i < ps.len() implies ps.drop_first()[i - 1] == ps[i] by {}
        }
    }
}

/// Appending one more piece to a join.
pub proof fn lemma_join_ws_push(ps: Seq<Seq<char>>, q: Seq<char>)
    ensures
        join_ws(ps.push(q)) == if q.len() == 0 {
            join_ws(ps)
        } else if join_ws(ps).len() == 0 {
            q
        } else {
            join_ws(ps) + seq![' '] + q
        },
    decreases ps.len(),
{
    reveal_with_fuel(join_ws, 3);
    reveal_with_fuel(join_rest, 3);
    lemma_join_ws_empty(ps);
    if ps.len() == 0 {
        assert(ps.push(q)[0] == q);
        if q.len() == 0 {
            assert(join_ws(ps.push(q)) == join_ws(ps.push(q).drop_first()));
            assert(ps.push(q).drop_first() =~= Seq::<Seq<char>>::empty());
        } else {
            assert(ps.push(q).drop_first() =~= Seq::<Seq<char>>::empty());
            assert(join_ws(ps.push(q)) =~= q);
        }
    } else {
        assert(ps.push(q).drop_first() =~= ps.drop_first().push(q));
        assert(ps.push(q)[0] == ps[0]);
        lemma_join_ws_push(ps.drop_first(), q);
        lemma_join_rest_push(ps.drop_first(), q);
        if ps[0].len() == 0 {
        } else {
            if q.len() == 0 {
            } else {
                assert(join_ws(ps.push(q)) =~= join_ws(ps) + seq![' '] + q);
            }
        }
    }
}

pub proof fn lemma_join_rest_push(ps: Seq<Seq<char>>, q: Seq<char>)
    ensures
        join_rest(ps.push(q)) == if q.len() == 0 {
            join_rest(ps)
        } else {
            join_rest(ps) + seq![' '] + q
        },
    decreases ps.len(),
{
    reveal_with_fuel(join_rest, 3);
    if ps.len() == 0 {
        assert(ps.push(q)[0] == q);
        if q.len() == 0 {
            assert(ps.push(q).drop_first() =~= Seq::<Seq<char>>::empty());
        } else {
            assert(ps.push(q).drop_first() =~= Seq::<Seq<char>>::empty());
            assert(join_rest(ps.push(q)) =~= join_rest(ps) + seq![' '] + q);
        }
    } else {
        assert(ps.push(q).drop_first() =~= ps.drop_first().push(q));
        assert(ps.push(q)[0] == ps[0]);
        lemma_join_rest_push(ps.drop_first(), q);
        if ps[0].len() == 0 {
        } else {
            if q.len() == 0 {
            } else {
                assert(join_rest(ps.push(q)) =~= join_rest(ps) + seq![' '] + q);
            }
        }
    }
}

/// If the remaining text holds no newline, splitting adds one final
/// chunk holding `cur` and the rest of the text.
pub proof fn lemma_split_acc_no_nl(s: Seq<char>, i: int, cur: Seq<char>)
    requires
        0 <= i <= s.len(),
        forall|j: int| i <= j < s.len() ==> s[j] != '\n',
    ensures
        split_acc(s, i, cur) == seq![cur + s.skip(i)],
    decreases s.len() - i,
{
    if i >= s.len() {
        assert(cur + s.skip(i) =~= cur);
        assert(split_acc(s, i, cur) =~= seq![cur + s.skip(i)]);
    } else {
        lemma_split_acc_no_nl(s, i + 1, cur.push(s[i]));
        assert(cur.push(s[i]) + s.skip(i + 1) =~= cur + s.skip(i));
    }
}

// ---------------------------------------------------------------------
// Executable functions.
// ---------------------------------------------------------------------

/// The views of a vector of chunks.
pub open spec fn chunksv(c: Seq<Vec<char>>) -> Seq<Seq<char>> {
    Seq::new(c.len(), |i: int| c[i]@)
}

#[verifier::loop_isolation(false)]
fn trim_start_exec(v: &Vec<char>) -> (r: Vec<char>)
    ensures
        r@ == trim_start(v@),
{
    let mut lo: usize = 0;
    proof {
        assert(v@.skip(0) =~= v@);
    }
    while lo < v.len() && (v[lo] == ' ' || v[lo] == '\t')
        invariant
            0 <= lo <= v.len(),
            trim_start(v@) == trim_start(v@.skip(lo as int)),
        decreases v.len() - lo,
    {
        proof {
            assert(v@.skip(lo as int).drop_first() =~= v@.skip(lo as int + 1));
        }
        lo += 1;
    }
    let mut out: Vec<char> = Vec::new();
    let mut i: usize = lo;
    while i < v.len()
        invariant
            lo <= i <= v.len(),
            out@ =~= v@.subrange(lo as int, i as int),
        decreases v.len() - i,
    {
        out.push(v[i]);
        i += 1;
    }
    proof {
        assert(out@ =~= v@.skip(lo as int));
        if lo < v.len() {
            assert(!is_tpl_ws(v@.skip(lo as int)[0]));
        }
        assert(trim_start(v@.skip(lo as int)) == v@.skip(lo as int));
    }
    out
}

#[verifier::loop_isolation(false)]
fn trim_end_exec(v: &Vec<char>) -> (r: Vec<char>)
    ensures
        r@ == trim_end(v@),
{
    let mut hi: usize = v.len();
    proof {
        assert(v@.take(v.len() as int) =~= v@);
    }
    while hi > 0 && (v[hi - 1] == ' ' || v[hi - 1] == '\t')
        invariant
            0 <= hi <= v.len(),
            trim_end(v@) == trim_end(v@.take(hi as int)),
        decreases hi,
    {
        proof {
            assert(v@.take(hi as int).drop_last() =~= v@.take(hi as int - 1));
            assert(v@.take(hi as int).last() == v@[hi as int - 1]);
        }
        hi -= 1;
    }
    let mut out: Vec<char> = Vec::new();
    let mut i: usize = 0;
    while i < hi
        invariant
            0 <= i <= hi <= v.len(),
            out@ =~= v@.subrange(0, i as int),
        decreases hi - i,
    {
        out.push(v[i]);
        i += 1;
    }
    proof {
        assert(out@ =~= v@.take(hi as int));
        if hi > 0 {
            assert(!is_tpl_ws(v@.take(hi as int).last()));
        }
        assert(trim_end(v@.take(hi as int)) == v@.take(hi as int));
    }
    out
}

/// Collapse whitespace in literal JSX text.  Text without a newline is
/// returned as written; otherwise whitespace runs containing a newline
/// are removed at the ends and collapsed to one space in the interior.
/// `None` means the text renders nothing.
#[verifier::loop_isolation(false)]
pub fn trim_html_text(text: &Vec<char>) -> (r: Option<Vec<char>>)
    ensures
        match r {
            Some(v) => trim_spec(text@) == Some(v@),
            None => trim_spec(text@) is None,
        },
{
    let ghost s = text@;
    let mut chunks: Vec<Vec<char>> = Vec::new();
    let mut cur: Vec<char> = Vec::new();
    let mut met_nl = false;
    let mut i: usize = 0;
    while i < text.len()
        invariant
            0 <= i <= text.len(),
            split_nl(s) == chunksv(chunks@) + split_acc(s, i as int, cur@),
            met_nl == has_nl(s.take(i as int)),
            met_nl ==> chunks@.len() >= 1,
        decreases text.len() - i,
    {
        let c = text[i];
        proof {
            if c == '\n' {
                assert(has_nl(s.take(i as int + 1))) by {
                    assert(s.take(i as int + 1)[i as int] == '\n');
                }
            } else {
                if has_nl(s.take(i as int + 1)) {
                    let k = choose|k: int|
                        0 <= k < s.take(i as int + 1).len() && #[trigger] s.take(i as int + 1)[k]
                            == '\n';
                    assert(s.take(i as int)[k] == '\n');
                }
            }
        }
        if c == '\n' {
            proof {
                assert(chunksv(chunks@.push(cur)) =~= chunksv(chunks@) + seq![cur@]);
                assert(chunksv(chunks@) + (seq![cur@] + split_acc(s, i as int + 1, Seq::empty()))
                    =~= (chunksv(chunks@) + seq![cur@]) + split_acc(s, i as int + 1, Seq::empty()));
            }
            chunks.push(cur);
            cur = Vec::new();
            met_nl = true;
        } else {
            cur.push(c);
        }
        i += 1;
    }
    proof {
        assert(s.take(text.len() as int) =~= s);
    }
    if !met_nl {
        return Some(crate::sym::sym_dup(text));
    }
    proof {
        assert(chunksv(chunks@.push(cur)) =~= chunksv(chunks@) + seq![cur@]);
        assert(split_acc(s, text.len() as int, cur@) == seq![cur@]);
    }
    chunks.push(cur);
    proof {
        assert(split_nl(s) =~= chunksv(chunks@));
    }
    let ghost cs = split_nl(s);
    let n = chunks.len();
    let mut out: Vec<char> = Vec::new();
    let mut k: usize = 0;
    while k < n
        invariant
            0 <= k <= n,
            n == chunks@.len(),
            cs == chunksv(chunks@),
            out@ == join_ws(pieces_of(cs).take(k as int)),
        decreases n - k,
    {
        let mut piece = if k == 0 {
            trim_end_exec(&chunks[0])
        } else if k == n - 1 {
            trim_start_exec(&chunks[k])
        } else {
            let t = trim_start_exec(&chunks[k]);
            trim_end_exec(&t)
        };
        proof {
            assert(cs[k as int] == chunks@[k as int]@);
            assert(piece@ == piece_of(cs, k as int));
            assert(pieces_of(cs).take(k as int + 1)
                =~= pieces_of(cs).take(k as int).push(piece_of(cs, k as int)));
            lemma_join_ws_push(pieces_of(cs).take(k as int), piece_of(cs, k as int));
        }
        if piece.len() > 0 {
            if out.len() > 0 {
                out.push(' ');
            }
            out.append(&mut piece);
        }
        k += 1;
    }
    proof {
        assert(pieces_of(cs).take(n as int) =~= pieces_of(cs));
    }
    if out.len() == 0 {
        None
    } else {
        Some(out)
    }
}

// ---------------------------------------------------------------------
// Corollaries of the collapsing law.
// ---------------------------------------------------------------------

/// No newline anywhere in the text.
pub open spec fn no_nl(x: Seq<char>) -> bool {
    forall|k: int| 0 <= k < x.len() ==> x[k] != '\n'
}

/// Text without a newline is kept exactly as written.
pub proof fn lemma_trim_no_newline_unchanged(s: Seq<char>)
    requires
        !has_nl(s),
    ensures
        trim_spec(s) == Some(s),
{
}

/// Every chunk of the split is newline-free.
pub proof fn lemma_split_chunks_no_nl(s: Seq<char>, i: int, cur: Seq<char>)
    requires
        no_nl(cur),
    ensures
        forall|j: int|
            0 <= j < split_acc(s, i, cur).len() ==> #[trigger] no_nl(split_acc(s, i, cur)[j]),
    decreases s.len() - i,
{
    if i < 0 || i >= s.len() {
        assert(split_acc(s, i, cur) =~= seq![cur]);
    } else if s[i] == '\n' {
        lemma_split_chunks_no_nl(s, i + 1, Seq::empty());
        assert forall|j: int| 0 <= j < split_acc(s, i, cur).len() implies #[trigger] no_nl(
            split_acc(s, i, cur)[j],
        ) by {
            if j == 0 {
                assert(split_acc(s, i, cur)[0] == cur);
            } else {
                assert(split_acc(s, i, cur)[j] == split_acc(s, i + 1, Seq::empty())[j - 1]);
                assert(no_nl(split_acc(s, i + 1, Seq::empty())[j - 1]));
            }
        }
    } else {
        assert(no_nl(cur.push(s[i])));
        lemma_split_chunks_no_nl(s, i + 1, cur.push(s[i]));
        assert(split_acc(s, i, cur) == split_acc(s, i + 1, cur.push(s[i])));
        assert forall|j: int| 0 <= j < split_acc(s, i, cur).len() implies #[trigger] no_nl(
            split_acc(s, i, cur)[j],
        ) by {
            assert(no_nl(split_acc(s, i + 1, cur.push(s[i]))[j]));
        }
    }
}

/// Trimming keeps the text newline-free.
pub proof fn lemma_trim_start_no_nl(x: Seq<char>)
    requires
        no_nl(x),
    ensures
        no_nl(trim_start(x)),
    decreases x.len(),
{
    if x.len() > 0 && is_tpl_ws(x[0]) {
        assert(no_nl(x.drop_first()));
        lemma_trim_start_no_nl(x.drop_first());
    }
}

pub proof fn lemma_trim_end_no_nl(x: Seq<char>)
    requires
        no_nl(x),
    ensures
        no_nl(trim_end(x)),
    decreases x.len(),
{
    if x.len() > 0 && is_tpl_ws(x.last()) {
        assert(no_nl(x.drop_last()));
        lemma_trim_end_no_nl(x.drop_last());
    }
}

/// Joining newline-free pieces yields newline-free text.
pub proof fn lemma_join_rest_no_nl(ps: Seq<Seq<char>>)
    requires
        forall|j: int| 0 <= j < ps.len() ==> #[trigger] no_nl(ps[j]),
    ensures
        no_nl(join_rest(ps)),
    decreases ps.len(),
{
    if ps.len() > 0 {
        assert forall|j: int| 0 <= j < ps.drop_first().len() implies #[trigger] no_nl(
            ps.drop_first()[j],
        ) by {
            assert(ps.drop_first()[j] == ps[j + 1]);
        }
        lemma_join_rest_no_nl(ps.drop_first());
        if ps[0].len() == 0 {
        } else {
            assert(no_nl(ps[0]));
            assert(no_nl(seq![' '] + ps[0] + join_rest(ps.drop_first())));
        }
    }
}

pub proof fn lemma_join_ws_no_nl(ps: Seq<Seq<char>>)
    requires
        forall|j: int| 0 <= j < ps.len() ==> #[trigger] no_nl(ps[j]),
    ensures
        no_nl(join_ws(ps)),
    decreases ps.len(),
{
    if ps.len() > 0 {
        assert forall|j: int| 0 <= j < ps.drop_first().len() implies #[trigger] no_nl(
            ps.drop_first()[j],
        ) by {
            assert(ps.drop_first()[j] == ps[j + 1]);
        }
        if ps[0].len() == 0 {
            lemma_join_ws_no_nl(ps.drop_first());
        } else {
            lemma_join_rest_no_nl(ps.drop_first());
            assert(no_nl(ps[0]));
            assert(no_nl(ps[0] + join_rest(ps.drop_first())));
        }
    }
}

/// The collapsed text never holds a newline.
pub proof fn lemma_trim_result_no_nl(s: Seq<char>, t: Seq<char>)
    requires
        trim_spec(s) == Some(t),
        has_nl(s),
    ensures
        no_nl(t),
{
    let cs = split_nl(s);
    lemma_split_chunks_no_nl(s, 0, Seq::empty());
    assert forall|j: int| 0 <= j < pieces_of(cs).len() implies #[trigger] no_nl(
        pieces_of(cs)[j],
    ) by {
        assert(no_nl(cs[j]));
        if j == 0 {
            lemma_trim_end_no_nl(cs[0]);
        } else if j == cs.len() - 1 {
            lemma_trim_start_no_nl(cs[j]);
        } else {
            lemma_trim_start_no_nl(cs[j]);
            lemma_trim_end_no_nl(trim_start(cs[j]));
        }
    }
    lemma_join_ws_no_nl(pieces_of(cs));
}

/// Collapsing is idempotent: applying it to its own output returns the
/// output unchanged.
pub proof fn lemma_trim_idempotent(s: Seq<char>, t: Seq<char>)
    requires
        trim_spec(s) == Some(t),
    ensures
        trim_spec(t) == Some(t),
{
    if !has_nl(s) {
        assert(t == s);
    } else {
        lemma_trim_result_no_nl(s, t);
        assert(!has_nl(t)) by {
            if has_nl(t) {
                let k = choose|k: int| 0 <= k < t.len() && t[k] == '\n';
                assert(t[k] != '\n');
            }
        }
        lemma_trim_no_newline_unchanged(t);
    }
}

} // verus!
