use vstd::prelude::*;
use crate::text::{chars_of, push_chars, string_of};

verus! {

/// A path piece that does not start at the root.
pub open spec fn is_relative(comp: Seq<char>) -> bool {
    !(comp.len() > 0 && comp[0] == '/')
}

/// The path that pushing `comp` onto `base` gives, as Rust's `PathBuf::push`
/// does on Unix: an absolute `comp` (one that starts with `/`) replaces `base`;
/// otherwise `comp` is appended, after a `/` where `base` is non-empty and does
/// not already end in one.
pub open spec fn spec_push(base: Seq<char>, comp: Seq<char>) -> Seq<char> {
    if !is_relative(comp) {
        comp
    } else if base.len() > 0 && base.last() != '/' {
        base + seq!['/'] + comp
    } else {
        base + comp
    }
}

/// Pushes the pieces of `comps` onto `base` one after the other.
pub open spec fn spec_push_all(base: Seq<char>, comps: Seq<Seq<char>>) -> Seq<char>
    decreases comps.len(),
{
    if comps.len() == 0 {
        base
    } else {
        spec_push_all(spec_push(base, comps[0]), comps.drop_first())
    }
}

/// Pushes `comp` onto `path` (see `spec_push`).
pub fn push_path(path: &mut String, comp: &str)
    ensures
        final(path)@ == spec_push(old(path)@, comp@),
{
    let cs = chars_of(comp);
    assert(cs@.subrange(0, cs@.len() as int) =~= cs@);
    if cs.len() > 0 && cs[0] == '/' {
        let mut fresh = String::new();
        push_chars(&mut fresh, &cs, 0, cs.len());
        assert(fresh@ =~= comp@);
        *path = fresh;
    } else {
        let ps = chars_of(path.as_str());
        if ps.len() > 0 && ps[ps.len() - 1] != '/' {
            crate::text::push_char(path, '/');
        }
        push_chars(path, &cs, 0, cs.len());
    }
}

/// `base` with `comp` pushed onto it, as a new string.
pub fn joined(base: &str, comp: &str) -> (res: String)
    ensures
        res@ == spec_push(base@, comp@),
{
    let mut p = crate::text::to_string(base);
    push_path(&mut p, comp);
    p
}

/// Pushing a relative piece keeps the base as a prefix of the result.
pub proof fn lemma_push_relative_extends(base: Seq<char>, comp: Seq<char>)
    requires
        is_relative(comp),
    ensures
        base.is_prefix_of(spec_push(base, comp)),
{
    let r = spec_push(base, comp);
    assert(r.subrange(0, base.len() as int) =~= base);
}

/// The parent that Rust's `Path::parent` gives for the path `p`.
pub uninterp spec fn path_parent_of(p: Seq<char>) -> Option<Seq<char>>;

/// Whether the path `p` starts at the root.
pub open spec fn starts_at_root(p: Seq<char>) -> bool {
    p.len() > 0 && p[0] == '/'
}

/// The pieces `comps` without a leading root piece.
pub open spec fn below_root(comps: Seq<Seq<char>>) -> Seq<Seq<char>> {
    if comps.len() > 0 && comps[0] == seq!['/'] {
        comps.drop_first()
    } else {
        comps
    }
}

/// Whether a piece between separators is kept as a component: empty pieces
/// (from repeated or trailing separators) and `.` are dropped.
pub open spec fn kept_piece(piece: Seq<char>) -> bool {
    piece.len() > 0 && piece != seq!['.']
}

/// The index of the first separator in `p` at or after `i`; the length of `p`
/// where there is none.
pub open spec fn next_sep(p: Seq<char>, i: int) -> int
    decreases p.len() - i,
{
    if i < 0 || i >= p.len() || p[i] == '/' {
        i
    } else {
        next_sep(p, i + 1)
    }
}

/// The search for a separator goes forward.
pub proof fn lemma_next_sep(p: Seq<char>, i: int)
    requires
        0 <= i <= p.len(),
    ensures
        i <= next_sep(p, i) <= p.len(),
        next_sep(p, i) < p.len() ==> p[next_sep(p, i)] == '/',
        forall|k: int| i <= k < next_sep(p, i) ==> p[k] != '/',
    decreases p.len() - i,
{
    if i < p.len() && p[i] != '/' {
        lemma_next_sep(p, i + 1);
    }
}

/// The components of the text of `p` from `i` on: the pieces between
/// separators, without the empty ones and `.`.
pub open spec fn pieces_from(p: Seq<char>, i: int) -> Seq<Seq<char>>
    decreases p.len() + 1 - i,
{
    if i < 0 || i >= p.len() {
        Seq::empty()
    } else {
        let j = next_sep(p, i);
        proof {
            lemma_next_sep(p, i);
        }
        let head = p.subrange(i, j);
        if kept_piece(head) {
            seq![head] + pieces_from(p, j + 1)
        } else {
            pieces_from(p, j + 1)
        }
    }
}

/// Whether the path `p` starts with a `.` component: it is `.` or starts with
/// `./`.
pub open spec fn starts_at_current_dir(p: Seq<char>) -> bool {
    p == seq!['.'] || (p.len() >= 2 && p[0] == '.' && p[1] == '/')
}

/// The components of the path `p` on Unix, as Rust's `Path::iter` yields
/// them, each as text: the root `/` first where `p` starts with it; else `.`
/// first where `p` is `.` or starts with `./`; then the pieces between
/// separators, without empty pieces (from repeated or trailing separators) and
/// without `.`.
pub open spec fn spec_components(p: Seq<char>) -> Seq<Seq<char>> {
    if starts_at_root(p) {
        seq![seq!['/']] + pieces_from(p, 1)
    } else if starts_at_current_dir(p) {
        seq![seq!['.']] + pieces_from(p, 1)
    } else {
        pieces_from(p, 0)
    }
}

/// The pieces between separators are non-empty and hold no separator.
pub proof fn lemma_pieces_plain(p: Seq<char>, i: int)
    ensures
        forall|k: int|
            0 <= k < pieces_from(p, i).len() ==> !(#[trigger] pieces_from(p, i)[k]).contains('/')
                && pieces_from(p, i)[k].len() > 0,
    decreases p.len() + 1 - i,
{
    if 0 <= i < p.len() {
        let j = next_sep(p, i);
        lemma_next_sep(p, i);
        lemma_pieces_plain(p, j + 1);
        let head = p.subrange(i, j);
        assert(!head.contains('/')) by {
            if head.contains('/') {
                let k = choose|k: int| 0 <= k < head.len() && head[k] == '/';
                assert(p[i + k] == '/');
            }
        }
        let rest = pieces_from(p, j + 1);
        if kept_piece(head) {
            assert forall|k: int| 0 <= k < pieces_from(p, i).len() implies !(#[trigger] pieces_from(
                p,
                i,
            )[k]).contains('/') && pieces_from(p, i)[k].len() > 0 by {
                if k > 0 {
                    assert(pieces_from(p, i)[k] == rest[k - 1]);
                }
            }
        }
    }
}

/// Below the root, every component of a path is relative.
pub proof fn lemma_components_below_root_relative(p: Seq<char>)
    ensures
        forall|k: int|
            0 <= k < below_root(spec_components(p)).len() ==> is_relative(
                #[trigger] below_root(spec_components(p))[k],
            ),
{
    let start = if starts_at_root(p) || starts_at_current_dir(p) { 1int } else { 0int };
    lemma_pieces_plain(p, start);
    let ps = pieces_from(p, start);
    let cs = spec_components(p);
    let br = below_root(cs);
    assert forall|k: int| 0 <= k < br.len() implies is_relative(#[trigger] br[k]) by {
        if starts_at_root(p) {
            assert(cs.drop_first() =~= ps);
            lemma_no_separator_is_relative(ps[k]);
        } else if starts_at_current_dir(p) {
            assert(seq!['.'] != seq!['/']) by {
                assert(seq!['.'][0] != seq!['/'][0]);
            }
            assert(br == cs);
            if k > 0 {
                assert(br[k] == ps[k - 1]);
                lemma_no_separator_is_relative(ps[k - 1]);
            }
        } else {
            if ps.len() > 0 {
                assert(ps[0] != seq!['/']) by {
                    assert(!ps[0].contains('/'));
                    if ps[0] == seq!['/'] {
                        assert(ps[0][0] == '/');
                    }
                }
            }
            assert(br == ps);
            lemma_no_separator_is_relative(ps[k]);
        }
    }
}

/// The components of the path `p` (`spec_components`).
pub fn path_components(p: &str) -> (res: Vec<String>)
    ensures
        res@.map_values(|s: String| s@) == spec_components(p@),
{
    let cs = chars_of(p);
    let n = cs.len();
    let ghost pv = cs@;
    let mut res: Vec<String> = Vec::new();
    let mut i: usize;
    if n > 0 && cs[0] == '/' {
        res.push(string_of(&cs, 0, 1));
        i = 1;
    } else if (n == 1 && cs[0] == '.') || (n >= 2 && cs[0] == '.' && cs[1] == '/') {
        res.push(string_of(&cs, 0, 1));
        i = 1;
    } else {
        i = 0;
    }
    proof {
        if n > 0 {
            assert(cs@.subrange(0, 1) =~= seq![cs@[0]]);
        }
        if n == 1 && cs@[0] == '.' {
            assert(pv =~= seq!['.']);
        }
        if pv == seq!['.'] {
            assert(pv[0] == '.');
        }
        assert(res@.map_values(|s: String| s@) + pieces_from(pv, i as int) =~= spec_components(p@));
    }
    while i < n
        invariant
            n == cs.len(),
            pv == cs@,
            pv == p@,
            i <= n,
            res@.map_values(|s: String| s@) + pieces_from(pv, i as int) == spec_components(p@),
        decreases n - i,
    {
        let mut j = i;
        proof {
            lemma_next_sep(pv, i as int);
        }
        while j < n && cs[j] != '/'
            invariant
                n == cs.len(),
                pv == cs@,
                i <= j <= n,
                next_sep(pv, i as int) == next_sep(pv, j as int),
            decreases n - j,
        {
            j += 1;
        }
        assert(next_sep(pv, j as int) == j as int);
        let ghost before = res@.map_values(|s: String| s@);
        let ghost rest = pieces_from(pv, j + 1);
        let keep = j > i && !(j == i + 1 && cs[i] == '.');
        let piece = string_of(&cs, i, j);
        proof {
            let head = pv.subrange(i as int, j as int);
            if j == i + 1 && cs@[i as int] == '.' {
                assert(head =~= seq!['.']);
            }
            assert(head.len() == j - i);
            if j > i {
                assert(head[0] == pv[i as int]);
            }
            if head == seq!['.'] {
                assert(head[0] == '.');
            }
            assert(keep == kept_piece(head));
        }
        if keep {
            res.push(piece);
            assert(res@.map_values(|s: String| s@) =~= before.push(pv.subrange(i as int, j as int)));
            assert(before.push(pv.subrange(i as int, j as int)) + rest =~= before + (seq![
                pv.subrange(i as int, j as int),
            ] + rest));
        }
        if j < n {
            i = j + 1;
        } else {
            assert(pieces_from(pv, j + 1) == Seq::<Seq<char>>::empty());
            i = n;
        }
    }
    proof {
        assert(pieces_from(pv, i as int) == Seq::<Seq<char>>::empty());
        assert(res@.map_values(|s: String| s@) + Seq::<Seq<char>>::empty() =~= res@.map_values(
            |s: String| s@,
        ));
    }
    res
}

/// The path `p` without its final piece (`std::path::Path::parent`).
/// Trusted: the result is `path_parent_of(p)`.
#[verifier::external_body]
pub(crate) fn path_parent(p: &str) -> (res: Option<String>)
    ensures
        match res {
            Some(q) => path_parent_of(p@) == Some(q@),
            None => path_parent_of(p@) is None,
        },
{
    std::path::Path::new(p).parent().map(|q| q.to_string_lossy().into_owned())
}

/// Pushes the pieces `comps[from..]` onto `base` one after the other.
pub fn push_all(base: &str, comps: &Vec<String>, from: usize) -> (res: String)
    requires
        from <= comps.len(),
    ensures
        res@ == spec_push_all(base@, comps@.map_values(|s: String| s@).skip(from as int)),
{
    let ghost cv = comps@.map_values(|s: String| s@);
    let mut p = crate::text::to_string(base);
    let mut i: usize = from;
    while i < comps.len()
        invariant
            from <= i <= comps.len(),
            cv == comps@.map_values(|s: String| s@),
            spec_push_all(p@, cv.skip(i as int)) == spec_push_all(base@, cv.skip(from as int)),
        decreases comps.len() - i,
    {
        proof {
            assert(cv.skip(i as int)[0] == cv[i as int]);
            assert(cv.skip(i as int).drop_first() =~= cv.skip(i + 1));
        }
        push_path(&mut p, comps[i].as_str());
        i += 1;
    }
    proof {
        assert(cv.skip(i as int) =~= Seq::<Seq<char>>::empty());
    }
    p
}

/// Being a prefix is transitive.
pub proof fn lemma_prefix_trans(a: Seq<char>, b: Seq<char>, c: Seq<char>)
    requires
        a.is_prefix_of(b),
        b.is_prefix_of(c),
    ensures
        a.is_prefix_of(c),
{
    assert(c.subrange(0, a.len() as int) =~= b.subrange(0, a.len() as int));
}

/// Pushing a relative piece onto a path whose text starts with `root` gives a
/// path whose text still starts with `root`.
pub proof fn lemma_push_stays_under(root: Seq<char>, base: Seq<char>, comp: Seq<char>)
    requires
        root.is_prefix_of(base),
        is_relative(comp),
    ensures
        root.is_prefix_of(spec_push(base, comp)),
{
    lemma_push_relative_extends(base, comp);
    lemma_prefix_trans(root, base, spec_push(base, comp));
}

/// Pushing relative pieces onto a path whose text starts with `root` gives a
/// path whose text still starts with `root`.
pub proof fn lemma_push_all_stays_under(root: Seq<char>, base: Seq<char>, comps: Seq<Seq<char>>)
    requires
        root.is_prefix_of(base),
        forall|i: int| 0 <= i < comps.len() ==> is_relative(#[trigger] comps[i]),
    ensures
        root.is_prefix_of(spec_push_all(base, comps)),
    decreases comps.len(),
{
    if comps.len() > 0 {
        assert(is_relative(comps[0]));
        lemma_push_stays_under(root, base, comps[0]);
        let rest = comps.drop_first();
        assert forall|i: int| 0 <= i < rest.len() implies is_relative(#[trigger] rest[i]) by {
            assert(rest[i] == comps[i + 1]);
        }
        lemma_push_all_stays_under(root, spec_push(base, comps[0]), rest);
    }
}

/// A piece without a separator does not start at the root.
pub proof fn lemma_no_separator_is_relative(comp: Seq<char>)
    requires
        !comp.contains('/'),
    ensures
        is_relative(comp),
{
    if comp.len() > 0 && comp[0] == '/' {
        assert(comp.contains('/'));
    }
}

/// A path in plain form from `i` on: every separator at or after `i - 1` is
/// followed by a piece that is neither empty nor `.`, and the path does not
/// end in a separator.
pub open spec fn plain_from(p: Seq<char>, i: int) -> bool {
    &&& 1 <= i < p.len()
    &&& p[i - 1] == '/'
    &&& p.last() != '/'
    &&& forall|k: int|
        i - 1 <= k < p.len() - 1 && #[trigger] p[k] == '/' ==> p[k + 1] != '/' && !(p[k + 1] == '.' && (k
            + 2 == p.len() || p[k + 2] == '/'))
}

/// An absolute path in plain form: it starts at the root, has at least one
/// piece, no empty piece, no `.` piece, and no separator at its end.
pub open spec fn plain_absolute(p: Seq<char>) -> bool {
    plain_from(p, 1)
}

/// Pushing the pieces of a path in plain form onto a base that does not end
/// in a separator appends the text of the path, separators included.
pub proof fn lemma_push_all_plain_pieces(base: Seq<char>, p: Seq<char>, i: int)
    requires
        base.len() > 0,
        base.last() != '/',
        plain_from(p, i),
    ensures
        spec_push_all(base, pieces_from(p, i)) == base + p.subrange(i - 1, p.len() as int),
    decreases p.len() - i,
{
    let j = next_sep(p, i);
    lemma_next_sep(p, i);
    let head = p.subrange(i, j);
    assert(p[i] != '/');
    assert(j > i);
    assert(kept_piece(head)) by {
        if head == seq!['.'] {
            assert(head.len() == 1);
            assert(head[0] == p[i]);
            assert(p[i - 1] == '/');
            assert(j == p.len() || p[j] == '/');
        }
    }
    assert(is_relative(head));
    let base2 = spec_push(base, head);
    assert(base2 == base + seq!['/'] + head);
    let ps = pieces_from(p, i);
    assert(ps == seq![head] + pieces_from(p, j + 1));
    assert(ps[0] == head);
    assert(ps.drop_first() =~= pieces_from(p, j + 1));
    assert(spec_push_all(base, ps) == spec_push_all(base2, pieces_from(p, j + 1)));
    if j == p.len() {
        assert(pieces_from(p, j + 1) == Seq::<Seq<char>>::empty());
        assert(base2 =~= base + p.subrange(i - 1, p.len() as int));
    } else {
        assert(p[j] == '/');
        assert(j + 1 < p.len());
        assert(base2.last() == p[j - 1]);
        assert(plain_from(p, j + 1));
        lemma_push_all_plain_pieces(base2, p, j + 1);
        assert(base2 + p.subrange(j, p.len() as int) =~= base + p.subrange(i - 1, p.len() as int));
    }
}

} // verus!
