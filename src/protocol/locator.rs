use vstd::prelude::*;

verus! {

/// Holds when a path segment of `s` that is exactly `..` starts at `i`.
pub open spec fn dot_dot_at(s: Seq<char>, i: int) -> bool {
    &&& 0 <= i && i + 2 <= s.len()
    &&& s[i] == '.' && s[i + 1] == '.'
    &&& i == 0 || s[i - 1] == '/'
    &&& i + 2 == s.len() || s[i + 2] == '/'
}

/// Holds when `s` has a path segment that is exactly `..`.
pub open spec fn has_dot_dot_segment(s: Seq<char>) -> bool {
    exists|i: int| #[trigger] dot_dot_at(s, i)
}

/// A locator that names a path inside its root: it starts with `/` and
/// has no `..` segment.
pub open spec fn is_rooted_locator(s: Seq<char>) -> bool {
    s.len() > 0 && s[0] == '/' && !has_dot_dot_segment(s)
}

/// The segments of `s` between slashes, in order; empty ones are kept.
pub open spec fn split_slashes(s: Seq<char>) -> Seq<Seq<char>>
    decreases s.len(),
{
    if s.len() == 0 {
        seq![Seq::<char>::empty()]
    } else {
        let rest = split_slashes(s.drop_last());
        if s.last() == '/' {
            rest.push(Seq::<char>::empty())
        } else {
            rest.update(rest.len() - 1, rest.last().push(s.last()))
        }
    }
}

pub open spec fn is_dot(s: Seq<char>) -> bool {
    s == seq!['.']
}

pub open spec fn is_dot_dot(s: Seq<char>) -> bool {
    s == seq!['.', '.']
}

/// The segments that remain once each `.` is dropped and each `..` drops
/// the segment before it; a `..` at the root stays at the root.
pub open spec fn resolve_segments(segs: Seq<Seq<char>>) -> Seq<Seq<char>>
    decreases segs.len(),
{
    if segs.len() == 0 {
        Seq::empty()
    } else {
        let st = resolve_segments(segs.drop_last());
        let s = segs.last();
        if is_dot(s) {
            st
        } else if is_dot_dot(s) {
            if st.len() > 0 {
                st.drop_last()
            } else {
                st
            }
        } else {
            st.push(s)
        }
    }
}

/// The resolved segments; a path that ends in `.` or `..` keeps naming a
/// directory, so it ends with an empty segment.
pub open spec fn resolved_segments(segs: Seq<Seq<char>>) -> Seq<Seq<char>> {
    if segs.len() > 0 && (is_dot(segs.last()) || is_dot_dot(segs.last())) {
        resolve_segments(segs).push(Seq::empty())
    } else {
        resolve_segments(segs)
    }
}

/// Each segment after a slash.
pub open spec fn join_segments(st: Seq<Seq<char>>) -> Seq<char>
    decreases st.len(),
{
    if st.len() == 0 {
        Seq::empty()
    } else {
        join_segments(st.drop_last()) + seq!['/'] + st.last()
    }
}

/// The absolute path that segments write: the root alone when there are none.
pub open spec fn path_of_segments(st: Seq<Seq<char>>) -> Seq<char> {
    if st.len() == 0 {
        seq!['/']
    } else {
        join_segments(st)
    }
}

/// An absolute path with its `.` and `..` segments resolved; `None` when the
/// path is not absolute.
pub open spec fn dot_segments_removed(path: Seq<char>) -> Option<Seq<char>> {
    if path.len() > 0 && path[0] == '/' {
        Some(path_of_segments(resolved_segments(split_slashes(path.drop_first()))))
    } else {
        None
    }
}

pub open spec fn has_no_slash(s: Seq<char>) -> bool {
    forall|i: int| 0 <= i < s.len() ==> s[i] != '/'
}

/// Segments that can be joined without climbing: none holds a slash or is `..`.
pub open spec fn plain_segments(st: Seq<Seq<char>>) -> bool {
    forall|k: int| 0 <= k < st.len() ==> has_no_slash(#[trigger] st[k]) && !is_dot_dot(st[k])
}

proof fn lemma_split_slashes_plain(s: Seq<char>)
    ensures
        split_slashes(s).len() >= 1,
        forall|k: int| 0 <= k < split_slashes(s).len() ==> has_no_slash(#[trigger] split_slashes(s)[k]),
    decreases s.len(),
{
    if s.len() > 0 {
        lemma_split_slashes_plain(s.drop_last());
        let rest = split_slashes(s.drop_last());
        if s.last() != '/' {
            let l = rest.last().push(s.last());
            assert(has_no_slash(rest[rest.len() - 1]));
            assert(has_no_slash(l));
        }
    }
}

proof fn lemma_resolve_plain(segs: Seq<Seq<char>>)
    requires
        forall|k: int| 0 <= k < segs.len() ==> has_no_slash(#[trigger] segs[k]),
    ensures
        plain_segments(resolve_segments(segs)),
        plain_segments(resolved_segments(segs)),
    decreases segs.len(),
{
    if segs.len() > 0 {
        let d = segs.drop_last();
        assert forall|k: int| 0 <= k < d.len() implies has_no_slash(#[trigger] d[k]) by {
            assert(d[k] == segs[k]);
        }
        lemma_resolve_plain(d);
        assert(has_no_slash(segs[segs.len() - 1]));
    }
    let r = resolve_segments(segs);
    if segs.len() > 0 && (is_dot(segs.last()) || is_dot_dot(segs.last())) {
        let e = Seq::<char>::empty();
        assert(!is_dot_dot(e)) by {
            assert(e.len() != seq!['.', '.'].len());
        }
        assert(plain_segments(r.push(e)));
    }
}

proof fn lemma_join_rooted(st: Seq<Seq<char>>)
    requires
        plain_segments(st),
    ensures
        !has_dot_dot_segment(join_segments(st)),
        st.len() > 0 ==> join_segments(st).len() > 0 && join_segments(st)[0] == '/',
    decreases st.len(),
{
    if st.len() > 0 {
        let d = st.drop_last();
        assert(plain_segments(d)) by {
            assert forall|k: int| 0 <= k < d.len() implies has_no_slash(#[trigger] d[k])
                && !is_dot_dot(d[k]) by {
                assert(d[k] == st[k]);
            }
        }
        lemma_join_rooted(d);
        let jp = join_segments(d);
        let x = st.last();
        assert(has_no_slash(st[st.len() - 1]) && !is_dot_dot(st[st.len() - 1]));
        let j = jp + seq!['/'] + x;
        assert(j == join_segments(st));
        let n = jp.len() as int;
        assert forall|i: int| !dot_dot_at(j, i) by {
            if dot_dot_at(j, i) {
                if i + 2 <= n {
                    if i + 2 == n {
                        assert(dot_dot_at(jp, i));
                    } else {
                        assert(dot_dot_at(jp, i));
                    }
                } else if i == n - 1 || i == n {
                    assert(j[n] == '/');
                } else {
                    let k = i - n - 1;
                    assert(j[i] == x[k]);
                    if k > 0 {
                        assert(j[i - 1] == x[k - 1]);
                    }
                    if i + 2 < j.len() {
                        assert(j[i + 2] == x[k + 2]);
                    }
                    assert(k == 0 && x.len() == 2);
                    assert(x =~= seq!['.', '.']);
                }
            }
        }
        if d.len() > 0 {
        } else {
            assert(jp.len() == 0);
        }
    }
}

/// Resolving the dot segments of an absolute path gives a locator inside
/// its root, whatever `.`, `..` or empty segments the path held.
pub proof fn lemma_dot_segments_removed_is_rooted(path: Seq<char>)
    requires
        path.len() > 0,
        path[0] == '/',
    ensures
        is_rooted_locator(dot_segments_removed(path)->Some_0),
{
    let segs = split_slashes(path.drop_first());
    lemma_split_slashes_plain(path.drop_first());
    lemma_resolve_plain(segs);
    let st = resolved_segments(segs);
    lemma_join_rooted(st);
    if st.len() == 0 {
        let p = seq!['/'];
        assert forall|i: int| !dot_dot_at(p, i) by {
        }
    }
}

/// The texts of a list of strings.
pub open spec fn texts(v: Seq<String>) -> Seq<Seq<char>> {
    v.map_values(|p: String| p@)
}

/// The segments of `s[1..]`, between slashes.
fn segments_after_root(s: &str) -> (r: Vec<String>)
    requires
        s@.len() > 0,
    ensures
        texts(r@) == split_slashes(s@.drop_first()),
{
    let n = s.unicode_len();
    let mut done: Vec<String> = Vec::new();
    let mut start: usize = 1;
    let mut i: usize = 1;
    assert(s@.subrange(1, 1) =~= Seq::<char>::empty());
    assert(texts(done@) =~= Seq::<Seq<char>>::empty());
    assert(split_slashes(Seq::<char>::empty()) == seq![Seq::<char>::empty()]);
    while i < n
        invariant
            n == s@.len(),
            1 <= start <= i <= n,
            split_slashes(s@.subrange(1, i as int)) == texts(done@).push(
                s@.subrange(start as int, i as int),
            ),
        decreases n - i,
    {
        let c = s.get_char(i);
        assert(s@.subrange(1, i + 1).drop_last() =~= s@.subrange(1, i as int));
        if c == '/' {
            let piece = s.substring_char(start, i).to_owned();
            let ghost before = done@;
            done.push(piece);
            assert(texts(done@) =~= texts(before).push(piece@));
            start = i + 1;
            assert(s@.subrange(start as int, i + 1) =~= Seq::<char>::empty());
        } else {
            assert(s@.subrange(start as int, i as int).push(c) =~= s@.subrange(
                start as int,
                i + 1,
            ));
        }
        i = i + 1;
    }
    let piece = s.substring_char(start, n).to_owned();
    let ghost before = done@;
    done.push(piece);
    assert(texts(done@) =~= texts(before).push(piece@));
    assert(s@.subrange(1, n as int) =~= s@.drop_first());
    done
}

/// An absolute path with its `.` and `..` segments resolved; `None` when the
/// path does not start with `/`.
pub fn remove_dot_segments(path: &str) -> (r: Option<String>)
    ensures
        r is Some <==> dot_segments_removed(path@) is Some,
        r matches Some(t) ==> dot_segments_removed(path@) == Some(t@),
{
    let n = path.unicode_len();
    if n == 0 || path.get_char(0) != '/' {
        return None;
    }
    let pieces = segments_after_root(path);
    let ghost segs = split_slashes(path@.drop_first());
    proof {
        lemma_split_slashes_plain(path@.drop_first());
    }
    let dot = String::from_str(".");
    let dot_dot = String::from_str("..");
    proof {
        reveal_strlit(".");
        reveal_strlit("..");
        assert(dot@ =~= seq!['.']);
        assert(dot_dot@ =~= seq!['.', '.']);
    }
    let mut st: Vec<String> = Vec::new();
    let mut j: usize = 0;
    while j < pieces.len()
        invariant
            j <= pieces@.len(),
            texts(pieces@) == segs,
            dot@ == seq!['.'],
            dot_dot@ == seq!['.', '.'],
            texts(st@) == resolve_segments(segs.take(j as int)),
        decreases pieces@.len() - j,
    {
        let piece = &pieces[j];
        assert(segs.take(j + 1).drop_last() =~= segs.take(j as int));
        assert(segs.take(j + 1).last() == piece@);
        let ghost before = st@;
        if *piece == dot {
        } else if *piece == dot_dot {
            if st.len() > 0 {
                st.pop();
                assert(texts(st@) =~= texts(before).drop_last());
            }
        } else {
            st.push(piece.clone());
            assert(texts(st@) =~= texts(before).push(piece@));
        }
        j = j + 1;
    }
    assert(segs.take(pieces@.len() as int) =~= segs);
    let last = pieces.len() - 1;
    assert(pieces@[last as int]@ == segs.last());
    if pieces[last] == dot || pieces[last] == dot_dot {
        let ghost before = st@;
        st.push(String::new());
        assert(texts(st@) =~= texts(before).push(Seq::<char>::empty()));
    }
    if st.len() == 0 {
        proof {
            reveal_strlit("/");
        }
        let r = String::from_str("/");
        assert(r@ =~= seq!['/']);
        return Some(r);
    }
    let mut out = String::new();
    let mut k: usize = 0;
    while k < st.len()
        invariant
            k <= st@.len(),
            out@ == join_segments(texts(st@).take(k as int)),
        decreases st@.len() - k,
    {
        proof {
            reveal_strlit("/");
        }
        assert(texts(st@).take(k + 1).drop_last() =~= texts(st@).take(k as int));
        out.append("/");
        out.append(st[k].as_str());
        assert(out@ =~= join_segments(texts(st@).take(k + 1)));
        k = k + 1;
    }
    assert(texts(st@).take(st@.len() as int) =~= texts(st@));
    Some(out)
}

} // verus!
