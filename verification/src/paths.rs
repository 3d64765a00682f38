//! The library's path model: a path is a string whose segments are the
//! maximal runs of characters between `/` separators. A segment is a
//! normal component unless it is `.` or `..`. Paths are compared, joined
//! and renamed over this model.

use vstd::prelude::*;

verus! {

/// Whether the path begins with the separator.
pub open spec fn spec_is_absolute(p: Seq<char>) -> bool {
    p.len() > 0 && p[0] == '/'
}

/// The segments of `cur + p`, where `cur` holds the pending run of
/// characters read so far since the last separator.
pub open spec fn spec_segments_acc(p: Seq<char>, cur: Seq<char>) -> Seq<Seq<char>>
    decreases p.len(),
{
    if p.len() == 0 {
        if cur.len() == 0 {
            Seq::empty()
        } else {
            seq![cur]
        }
    } else if p.first() == '/' {
        if cur.len() == 0 {
            spec_segments_acc(p.drop_first(), Seq::empty())
        } else {
            seq![cur] + spec_segments_acc(p.drop_first(), Seq::empty())
        }
    } else {
        spec_segments_acc(p.drop_first(), cur.push(p.first()))
    }
}

/// The segments of a path: empty runs between separators are dropped.
pub open spec fn spec_segments(p: Seq<char>) -> Seq<Seq<char>> {
    spec_segments_acc(p, Seq::empty())
}

/// Whether a segment is a normal component.
pub open spec fn spec_is_normal(s: Seq<char>) -> bool {
    s != seq!['.'] && s != seq!['.', '.']
}

/// The segments of a path, as vectors of characters.
pub fn split_segments(p: &Vec<char>) -> (r: Vec<Vec<char>>)
    ensures
        r.deep_view() == spec_segments(p@),
{
    let mut acc: Vec<Vec<char>> = Vec::new();
    let mut cur: Vec<char> = Vec::new();
    let mut i: usize = 0;
    proof {
        assert(p@.skip(0) =~= p@);
        assert(acc.deep_view() =~~= Seq::<Seq<char>>::empty());
    }
    while i < p.len()
        invariant
            i <= p@.len(),
            spec_segments(p@) == acc.deep_view() + spec_segments_acc(p@.skip(i as int), cur@),
        decreases p@.len() - i,
    {
        let ghost old_acc = acc.deep_view();
        let ghost old_cur = cur@;
        let ghost rest = p@.skip(i as int);
        proof {
            assert(rest.first() == p@[i as int]);
            assert(rest.drop_first() =~= p@.skip(i as int + 1));
        }
        if p[i] == '/' {
            if cur.len() > 0 {
                acc.push(cur);
                cur = Vec::new();
                proof {
                    assert(acc.deep_view() =~~= old_acc.push(old_cur));
                    assert(cur@ =~= Seq::<char>::empty());
                    assert(old_acc + spec_segments_acc(rest, old_cur) =~~= acc.deep_view()
                        + spec_segments_acc(p@.skip(i as int + 1), cur@));
                }
            } else {
                proof {
                    assert(cur@ =~= Seq::<char>::empty());
                }
            }
        } else {
            cur.push(p[i]);
            proof {
                assert(cur@ == old_cur.push(rest.first()));
            }
        }
        i = i + 1;
    }
    proof {
        assert(p@.skip(p@.len() as int) =~= Seq::<char>::empty());
    }
    if cur.len() > 0 {
        let ghost old_acc = acc.deep_view();
        let ghost old_cur = cur@;
        acc.push(cur);
        proof {
            assert(acc.deep_view() =~~= old_acc.push(old_cur));
            assert(old_acc + seq![old_cur] =~= acc.deep_view());
        }
    } else {
        proof {
            assert(acc.deep_view() + Seq::<Seq<char>>::empty() =~= acc.deep_view());
        }
    }
    acc
}

/// Whether two character vectors hold the same characters.
pub fn chars_eq(a: &Vec<char>, b: &Vec<char>) -> (r: bool)
    ensures
        r == (a@ == b@),
{
    if a.len() != b.len() {
        return false;
    }
    let mut i: usize = 0;
    while i < a.len()
        invariant
            i <= a@.len(),
            a@.len() == b@.len(),
            forall|j: int| 0 <= j < i ==> a@[j] == b@[j],
        decreases a@.len() - i,
    {
        if a[i] != b[i] {
            return false;
        }
        i = i + 1;
    }
    proof {
        assert(a@ =~= b@);
    }
    true
}

/// Whether a segment is a normal component, exactly as `spec_is_normal`
/// states.
pub fn is_normal_segment(s: &Vec<char>) -> (r: bool)
    ensures
        r == spec_is_normal(s@),
{
    proof {
        assert((s@ == seq!['.']) == (s@.len() == 1 && s@[0] == '.')) by {
            if s@.len() == 1 && s@[0] == '.' {
                assert(s@ =~= seq!['.']);
            }
        }
        assert((s@ == seq!['.', '.']) == (s@.len() == 2 && s@[0] == '.' && s@[1] == '.')) by {
            if s@.len() == 2 && s@[0] == '.' && s@[1] == '.' {
                assert(s@ =~= seq!['.', '.']);
            }
        }
    }
    if s.len() == 1 && s[0] == '.' {
        false
    } else if s.len() == 2 && s[0] == '.' && s[1] == '.' {
        false
    } else {
        true
    }
}

/// The file name of a path: its last segment, when that segment is a
/// normal component.
pub open spec fn spec_file_name(p: Seq<char>) -> Option<Seq<char>> {
    let segs = spec_segments(p);
    if segs.len() > 0 && spec_is_normal(segs.last()) {
        Some(segs.last())
    } else {
        None
    }
}

/// The file name of a path, exactly as `spec_file_name` states.
pub fn file_name(p: &Vec<char>) -> (r: Option<Vec<char>>)
    ensures
        match r {
            Some(f) => spec_file_name(p@) == Some(f@),
            None => spec_file_name(p@) is None,
        },
{
    let mut segs = split_segments(p);
    let ghost sview = spec_segments(p@);
    match segs.pop() {
        Some(last) => {
            proof {
                assert(last@ == sview.last());
            }
            if is_normal_segment(&last) {
                Some(last)
            } else {
                None
            }
        },
        None => None,
    }
}

/// The normal components among the given segments, in order.
pub open spec fn spec_normal_segments(segs: Seq<Seq<char>>) -> Seq<Seq<char>>
    decreases segs.len(),
{
    if segs.len() == 0 {
        Seq::empty()
    } else {
        let rest = spec_normal_segments(segs.drop_last());
        if spec_is_normal(segs.last()) {
            rest.push(segs.last())
        } else {
            rest
        }
    }
}

/// The normal components of the path's parent: every segment but the last,
/// with `.` and `..` dropped.
pub open spec fn spec_parent_normal_segments(p: Seq<char>) -> Seq<Seq<char>> {
    let segs = spec_segments(p);
    if segs.len() == 0 {
        Seq::empty()
    } else {
        spec_normal_segments(segs.drop_last())
    }
}

/// The normal components of the path's parent, exactly as
/// `spec_parent_normal_segments` states.
pub fn parent_normal_segments(p: &Vec<char>) -> (r: Vec<Vec<char>>)
    ensures
        r.deep_view() == spec_parent_normal_segments(p@),
{
    let mut segs = split_segments(p);
    let ghost sview = spec_segments(p@);
    if segs.pop().is_none() {
        let r: Vec<Vec<char>> = Vec::new();
        proof {
            assert(r.deep_view() =~~= Seq::<Seq<char>>::empty());
        }
        return r;
    }
    proof {
        assert(segs.deep_view() =~~= sview.drop_last());
    }
    let mut r: Vec<Vec<char>> = Vec::new();
    let ghost parent = sview.drop_last();
    let mut i: usize = 0;
    proof {
        assert(r.deep_view() =~~= spec_normal_segments(parent.take(0)));
    }
    while i < segs.len()
        invariant
            i <= segs@.len(),
            segs.deep_view() == parent,
            r.deep_view() == spec_normal_segments(parent.take(i as int)),
        decreases segs@.len() - i,
    {
        let ghost old_r = r.deep_view();
        proof {
            assert(parent.take(i as int + 1).drop_last() =~~= parent.take(i as int));
            assert(parent.take(i as int + 1).last() == parent[i as int]);
            assert(segs@[i as int]@ =~= parent[i as int]);
        }
        let s = &segs[i];
        if is_normal_segment(s) {
            let copy = copy_chars(s);
            r.push(copy);
            proof {
                assert(r.deep_view() =~~= old_r.push(parent[i as int]));
            }
        }
        i = i + 1;
    }
    proof {
        assert(parent.take(parent.len() as int) =~~= parent);
    }
    r
}

/// A copy of the characters.
pub fn copy_chars(s: &Vec<char>) -> (r: Vec<char>)
    ensures
        r@ == s@,
{
    let mut r: Vec<char> = Vec::new();
    let mut i: usize = 0;
    while i < s.len()
        invariant
            i <= s@.len(),
            r@ == s@.take(i as int),
        decreases s@.len() - i,
    {
        r.push(s[i]);
        i = i + 1;
        proof {
            assert(r@ =~= s@.take(i as int));
        }
    }
    proof {
        assert(s@.take(s@.len() as int) =~= s@);
    }
    r
}

/// A path extended by one more segment: a separator is added unless the
/// path is empty or already ends with one.
pub open spec fn spec_join(dir: Seq<char>, name: Seq<char>) -> Seq<char> {
    if dir.len() == 0 {
        name
    } else if dir.last() == '/' {
        dir + name
    } else {
        dir + seq!['/'] + name
    }
}

/// Extends a path by one segment, exactly as `spec_join` states.
pub fn push_segment(dir: &mut Vec<char>, name: &Vec<char>)
    ensures
        final(dir)@ == spec_join(old(dir)@, name@),
{
    let ghost old_dir = dir@;
    if dir.len() > 0 && dir[dir.len() - 1] != '/' {
        dir.push('/');
    }
    let mut i: usize = 0;
    let ghost base = dir@;
    while i < name.len()
        invariant
            i <= name@.len(),
            dir@ == base + name@.take(i as int),
        decreases name@.len() - i,
    {
        dir.push(name[i]);
        i = i + 1;
        proof {
            assert(dir@ =~= base + name@.take(i as int));
        }
    }
    proof {
        assert(base + name@.take(name@.len() as int) =~= base + name@);
        if old_dir.len() == 0 {
            assert(dir@ =~= name@);
        } else if old_dir.last() == '/' {
            assert(dir@ =~= old_dir + name@);
        } else {
            assert(dir@ =~= old_dir + seq!['/'] + name@);
        }
    }
}

/// Whether `p` starts with `prefix` as a path: both are absolute or both
/// relative, and the segments of `prefix` lead the segments of `p`.
pub open spec fn spec_path_starts_with(p: Seq<char>, prefix: Seq<char>) -> bool {
    &&& spec_is_absolute(p) == spec_is_absolute(prefix)
    &&& spec_segments(prefix).is_prefix_of(spec_segments(p))
}

/// Whether one path starts with another, exactly as
/// `spec_path_starts_with` states.
pub fn path_starts_with(p: &Vec<char>, prefix: &Vec<char>) -> (r: bool)
    ensures
        r == spec_path_starts_with(p@, prefix@),
{
    let p_abs = p.len() > 0 && p[0] == '/';
    let q_abs = prefix.len() > 0 && prefix[0] == '/';
    if p_abs != q_abs {
        return false;
    }
    let psegs = split_segments(p);
    let qsegs = split_segments(prefix);
    if qsegs.len() > psegs.len() {
        proof {
            assert(spec_segments(prefix@).len() == qsegs@.len());
            assert(spec_segments(p@).len() == psegs@.len());
            assert(!spec_segments(prefix@).is_prefix_of(spec_segments(p@)));
        }
        return false;
    }
    let mut i: usize = 0;
    while i < qsegs.len()
        invariant
            i <= qsegs@.len(),
            qsegs@.len() <= psegs@.len(),
            psegs.deep_view() == spec_segments(p@),
            qsegs.deep_view() == spec_segments(prefix@),
            forall|j: int| 0 <= j < i ==> qsegs.deep_view()[j] == psegs.deep_view()[j],
        decreases qsegs@.len() - i,
    {
        if !chars_eq(&qsegs[i], &psegs[i]) {
            proof {
                assert(qsegs.deep_view()[i as int] =~= qsegs@[i as int]@);
                assert(psegs.deep_view()[i as int] =~= psegs@[i as int]@);
                if spec_segments(prefix@).is_prefix_of(spec_segments(p@)) {
                    assert(qsegs.deep_view()[i as int] == psegs.deep_view().subrange(
                        0,
                        qsegs.deep_view().len() as int,
                    )[i as int]);
                }
            }
            return false;
        }
        i = i + 1;
    }
    proof {
        assert(spec_segments(prefix@) =~~= spec_segments(p@).subrange(
            0,
            spec_segments(prefix@).len() as int,
        ));
    }
    true
}

/// Strict lexicographic order on character runs, by code point; a proper
/// prefix comes first.
pub open spec fn spec_lex_lt(a: Seq<char>, b: Seq<char>) -> bool
    decreases a.len(),
{
    if b.len() == 0 {
        false
    } else if a.len() == 0 {
        true
    } else if a.first() != b.first() {
        (a.first() as u32) < (b.first() as u32)
    } else {
        spec_lex_lt(a.drop_first(), b.drop_first())
    }
}

/// Segment-wise order on segment lists: segments are compared in turn, and
/// a path whose segments are a proper prefix of another's comes first, so
/// a parent directory precedes its children.
pub open spec fn spec_segs_le(a: Seq<Seq<char>>, b: Seq<Seq<char>>) -> bool
    decreases a.len(),
{
    if a.len() == 0 {
        true
    } else if b.len() == 0 {
        false
    } else if a.first() != b.first() {
        spec_lex_lt(a.first(), b.first())
    } else {
        spec_segs_le(a.drop_first(), b.drop_first())
    }
}

/// The path comparator: paths are ordered by their segments, not by their
/// raw characters, so directory-traversal order is respected.
pub open spec fn spec_path_le(a: Seq<char>, b: Seq<char>) -> bool {
    spec_segs_le(spec_segments(a), spec_segments(b))
}

/// Nothing is strictly below itself.
pub proof fn lemma_lex_lt_irreflexive(a: Seq<char>)
    ensures
        !spec_lex_lt(a, a),
    decreases a.len(),
{
    if a.len() > 0 {
        lemma_lex_lt_irreflexive(a.drop_first());
    }
}

/// Two character runs are equal or one is strictly below the other.
pub proof fn lemma_lex_lt_trichotomy(a: Seq<char>, b: Seq<char>)
    ensures
        a == b || spec_lex_lt(a, b) || spec_lex_lt(b, a),
    decreases a.len(),
{
    if a.len() == 0 && b.len() == 0 {
        assert(a =~= b);
    } else if a.len() > 0 && b.len() > 0 {
        if a.first() == b.first() {
            lemma_lex_lt_trichotomy(a.drop_first(), b.drop_first());
            if a.drop_first() == b.drop_first() {
                assert(a =~= seq![a.first()] + a.drop_first());
                assert(b =~= seq![b.first()] + b.drop_first());
            }
        } else {
            assert((a.first() as u32) != (b.first() as u32)) by {
                vstd::utf8::char_u32_cast(a.first(), a.first() as u32);
                vstd::utf8::char_u32_cast(b.first(), b.first() as u32);
            }
        }
    }
}

/// Strict lexicographic order is transitive.
pub proof fn lemma_lex_lt_transitive(a: Seq<char>, b: Seq<char>, c: Seq<char>)
    requires
        spec_lex_lt(a, b),
        spec_lex_lt(b, c),
    ensures
        spec_lex_lt(a, c),
    decreases a.len(),
{
    if a.len() > 0 && b.len() > 0 && c.len() > 0 {
        if a.first() == b.first() && b.first() == c.first() {
            lemma_lex_lt_transitive(a.drop_first(), b.drop_first(), c.drop_first());
        }
    }
}

/// Segment-wise order is total: one of any two segment lists comes first.
pub proof fn lemma_segs_le_total(a: Seq<Seq<char>>, b: Seq<Seq<char>>)
    ensures
        spec_segs_le(a, b) || spec_segs_le(b, a),
    decreases a.len(),
{
    if a.len() > 0 && b.len() > 0 {
        if a.first() == b.first() {
            lemma_segs_le_total(a.drop_first(), b.drop_first());
        } else {
            lemma_lex_lt_trichotomy(a.first(), b.first());
        }
    }
}

/// Segment-wise order is transitive.
pub proof fn lemma_segs_le_transitive(a: Seq<Seq<char>>, b: Seq<Seq<char>>, c: Seq<Seq<char>>)
    requires
        spec_segs_le(a, b),
        spec_segs_le(b, c),
    ensures
        spec_segs_le(a, c),
    decreases a.len(),
{
    if a.len() == 0 || b.len() == 0 || c.len() == 0 {
    } else if a.first() == b.first() {
        if b.first() == c.first() {
            lemma_segs_le_transitive(a.drop_first(), b.drop_first(), c.drop_first());
        }
    } else {
        if b.first() == c.first() {
        } else {
            lemma_lex_lt_transitive(a.first(), b.first(), c.first());
            if a.first() == c.first() {
                lemma_lex_lt_transitive(b.first(), c.first(), b.first());
                lemma_lex_lt_irreflexive(b.first());
            }
        }
    }
}

/// The path order is total.
pub proof fn lemma_path_le_total(a: Seq<char>, b: Seq<char>)
    ensures
        spec_path_le(a, b) || spec_path_le(b, a),
{
    lemma_segs_le_total(spec_segments(a), spec_segments(b));
}

/// The path order is transitive.
pub proof fn lemma_path_le_transitive(a: Seq<char>, b: Seq<char>, c: Seq<char>)
    requires
        spec_path_le(a, b),
        spec_path_le(b, c),
    ensures
        spec_path_le(a, c),
{
    lemma_segs_le_transitive(spec_segments(a), spec_segments(b), spec_segments(c));
}

/// Whether one character run is strictly below another, exactly as
/// `spec_lex_lt` states.
pub fn lex_lt(a: &Vec<char>, b: &Vec<char>) -> (r: bool)
    ensures
        r == spec_lex_lt(a@, b@),
{
    let mut i: usize = 0;
    proof {
        assert(a@.skip(0) =~= a@);
        assert(b@.skip(0) =~= b@);
    }
    loop
        invariant
            i <= a@.len(),
            i <= b@.len(),
            spec_lex_lt(a@, b@) == spec_lex_lt(a@.skip(i as int), b@.skip(i as int)),
        decreases a@.len() - i,
    {
        let ghost ra = a@.skip(i as int);
        let ghost rb = b@.skip(i as int);
        proof {
            if i < a@.len() {
                assert(ra.first() == a@[i as int]);
                assert(ra.drop_first() =~= a@.skip(i as int + 1));
            }
            if i < b@.len() {
                assert(rb.first() == b@[i as int]);
                assert(rb.drop_first() =~= b@.skip(i as int + 1));
            }
            assert(ra.len() == a@.len() - i);
            assert(rb.len() == b@.len() - i);
        }
        if i >= b.len() {
            return false;
        }
        if i >= a.len() {
            return true;
        }
        let ca = a[i];
        let cb = b[i];
        if ca != cb {
            return (ca as u32) < (cb as u32);
        }
        i = i + 1;
    }
}

/// Whether one path comes at or before another in the path order, exactly
/// as `spec_path_le` states.
pub fn path_le(a: &Vec<char>, b: &Vec<char>) -> (r: bool)
    ensures
        r == spec_path_le(a@, b@),
{
    let asegs = split_segments(a);
    let bsegs = split_segments(b);
    let ghost av = spec_segments(a@);
    let ghost bv = spec_segments(b@);
    let mut i: usize = 0;
    proof {
        assert(av.skip(0) =~~= av);
        assert(bv.skip(0) =~~= bv);
    }
    loop
        invariant
            i <= av.len(),
            i <= bv.len(),
            av == spec_segments(a@),
            bv == spec_segments(b@),
            asegs.deep_view() == av,
            bsegs.deep_view() == bv,
            spec_segs_le(av, bv) == spec_segs_le(av.skip(i as int), bv.skip(i as int)),
        decreases av.len() - i,
    {
        let ghost ra = av.skip(i as int);
        let ghost rb = bv.skip(i as int);
        proof {
            assert(av.len() == asegs@.len());
            assert(bv.len() == bsegs@.len());
            if i < av.len() {
                assert(ra.first() == av[i as int]);
                assert(ra.drop_first() =~~= av.skip(i as int + 1));
                assert(asegs@[i as int]@ =~= av[i as int]);
            }
            if i < bv.len() {
                assert(rb.first() == bv[i as int]);
                assert(rb.drop_first() =~~= bv.skip(i as int + 1));
                assert(bsegs@[i as int]@ =~= bv[i as int]);
            }
            assert(ra.len() == av.len() - i);
            assert(rb.len() == bv.len() - i);
        }
        if i >= asegs.len() {
            return true;
        }
        if i >= bsegs.len() {
            return false;
        }
        if !chars_eq(&asegs[i], &bsegs[i]) {
            return lex_lt(&asegs[i], &bsegs[i]);
        }
        i = i + 1;
    }
}

/// The index at which the file part of a path begins: just past the last
/// separator, or 0 when the path has none.
pub open spec fn spec_file_start(p: Seq<char>) -> int
    decreases p.len(),
{
    if p.len() == 0 {
        0
    } else if p.last() == '/' {
        p.len() as int
    } else {
        spec_file_start(p.drop_last())
    }
}

/// Where the file part begins: within bounds, preceded by a separator when
/// positive, and with no separator anywhere in the file part.
pub proof fn lemma_file_start_characterization(p: Seq<char>)
    ensures
        0 <= spec_file_start(p) <= p.len(),
        forall|j: int| spec_file_start(p) <= j < p.len() ==> p[j] != '/',
        spec_file_start(p) > 0 ==> p[spec_file_start(p) - 1] == '/',
    decreases p.len(),
{
    if p.len() > 0 && p.last() != '/' {
        lemma_file_start_characterization(p.drop_last());
        let fs = spec_file_start(p);
        assert forall|j: int| fs <= j < p.len() implies p[j] != '/' by {
            if j < p.len() - 1 {
                assert(p.drop_last()[j] == p[j]);
            }
        }
    }
}

/// Appending characters without a separator does not move the start of the
/// file part.
pub proof fn lemma_file_start_append(p: Seq<char>, t: Seq<char>)
    requires
        forall|j: int| 0 <= j < t.len() ==> t[j] != '/',
    ensures
        spec_file_start(p + t) == spec_file_start(p),
    decreases t.len(),
{
    if t.len() == 0 {
        assert(p + t =~= p);
    } else {
        assert((p + t).last() == t.last());
        assert((p + t).drop_last() =~= p + t.drop_last());
        lemma_file_start_append(p, t.drop_last());
    }
}

/// The index of the last dot in a file part, if any.
pub open spec fn spec_last_dot(f: Seq<char>) -> Option<int>
    decreases f.len(),
{
    if f.len() == 0 {
        None
    } else if f.last() == '.' {
        Some(f.len() - 1)
    } else {
        spec_last_dot(f.drop_last())
    }
}

/// Appending characters without a dot does not move the last dot.
pub proof fn lemma_last_dot_append(f: Seq<char>, t: Seq<char>)
    requires
        forall|j: int| 0 <= j < t.len() ==> t[j] != '.',
    ensures
        spec_last_dot(f + t) == spec_last_dot(f),
    decreases t.len(),
{
    if t.len() == 0 {
        assert(f + t =~= f);
    } else {
        assert((f + t).last() == t.last());
        assert((f + t).drop_last() =~= f + t.drop_last());
        lemma_last_dot_append(f, t.drop_last());
    }
}

/// The stem of a file part: what precedes the extension. A dot at the very
/// start marks a hidden file, not an extension.
pub open spec fn spec_stem(f: Seq<char>) -> Seq<char> {
    match spec_last_dot(f) {
        Some(i) => if i >= 1 {
            f.take(i)
        } else {
            f
        },
        None => f,
    }
}

/// The path with its trailing separators dropped, so that the file part is
/// the last segment, as `spec_file_name` sees it.
pub open spec fn spec_trim_trailing_separators(p: Seq<char>) -> Seq<char>
    decreases p.len(),
{
    if p.len() > 0 && p.last() == '/' {
        spec_trim_trailing_separators(p.drop_last())
    } else {
        p
    }
}

/// A path with the extension of its file part replaced: trailing
/// separators are dropped, the stem of the last segment keeps its
/// characters, and a nonempty extension is appended after a dot. A path
/// without a file part, or whose file part is not a normal component, is
/// left unchanged.
pub open spec fn spec_with_extension(p: Seq<char>, ext: Seq<char>) -> Seq<char> {
    let q = spec_trim_trailing_separators(p);
    let fs = spec_file_start(q);
    let f = q.skip(fs);
    if f.len() == 0 || !spec_is_normal(f) {
        p
    } else {
        let stem = spec_stem(f);
        if ext.len() == 0 {
            q.take(fs) + stem
        } else {
            q.take(fs) + stem + seq!['.'] + ext
        }
    }
}

/// Law: replacing an extension is idempotent. Once a path carries the
/// target extension, replacing it again with the same extension gives the
/// same path, so the second request succeeds without touching anything.
/// The extension must be a plain one: nonempty, without dots or separators
/// of its own.
#[verifier::rlimit(60)]
pub proof fn law_with_extension_idempotent(p: Seq<char>, ext: Seq<char>)
    requires
        ext.len() > 0,
        forall|j: int| 0 <= j < ext.len() ==> ext[j] != '.',
        forall|j: int| 0 <= j < ext.len() ==> ext[j] != '/',
    ensures
        spec_with_extension(spec_with_extension(p, ext), ext) == spec_with_extension(p, ext),
{
    let q = spec_trim_trailing_separators(p);
    let fs = spec_file_start(q);
    let f = q.skip(fs);
    lemma_file_start_characterization(q);
    if f.len() == 0 || !spec_is_normal(f) {
        // the path is unchanged, so the second replacement sees the same path
    } else {
        let stem = spec_stem(f);
        lemma_last_dot_in_range(f);
        assert(stem.len() >= 1);
        let r = spec_with_extension(p, ext);
        let rest = stem + seq!['.'] + ext;
        assert(r =~= q.take(fs) + rest);
        // the new path ends in the extension, not a separator, so the
        // second replacement trims nothing away
        assert(r.last() == ext.last());
        assert(spec_trim_trailing_separators(r) == r);
        // the appended part holds no separator, so the file part of r
        // starts where the file part of q did
        assert forall|j: int| 0 <= j < stem.len() implies stem[j] != '/' by {
            assert(stem[j] == f[j]);
        }
        assert forall|j: int| 0 <= j < rest.len() implies rest[j] != '/' by {
            if j < stem.len() {
                assert(rest[j] == stem[j]);
            } else if j == stem.len() {
                assert(rest[j] == '.');
            } else {
                assert(rest[j] == ext[j - stem.len() - 1]);
            }
        }
        lemma_file_start_append(q.take(fs), rest);
        assert(spec_file_start(q.take(fs)) == fs) by {
            if fs > 0 {
                assert(q.take(fs).last() == q[fs - 1]);
            }
        }
        assert(spec_file_start(r) == fs);
        let f2 = r.skip(fs);
        assert(f2 =~= rest);
        assert(f2.len() >= 3);
        assert(spec_is_normal(f2)) by {
            assert(f2 != seq!['.']);
            assert(f2 != seq!['.', '.']);
        }
        // the last dot of the new file part is the one that was added
        assert(spec_last_dot(f2) == Some(stem.len() as int)) by {
            assert(stem + seq!['.'] + ext =~= (stem + seq!['.']) + ext);
            lemma_last_dot_append(stem + seq!['.'], ext);
            assert((stem + seq!['.']).last() == '.');
        }
        assert(spec_stem(f2) =~= stem);
        assert(spec_with_extension(r, ext) =~= r.take(fs) + stem + seq!['.'] + ext);
        assert(r.take(fs) =~= q.take(fs));
        assert(spec_with_extension(r, ext) =~= r);
    }
}

/// The last dot of a nonempty file part lies within it.
pub proof fn lemma_last_dot_in_range(f: Seq<char>)
    ensures
        spec_last_dot(f) is Some ==> {
            let i = spec_last_dot(f)->Some_0;
            0 <= i < f.len() && f[i] == '.'
        },
    decreases f.len(),
{
    if f.len() > 0 && f.last() != '.' {
        lemma_last_dot_in_range(f.drop_last());
    }
}

/// The path with its extension replaced, exactly as `spec_with_extension`
/// states.
#[verifier::rlimit(100)]
pub fn with_extension(p: &Vec<char>, ext: &Vec<char>) -> (r: Vec<char>)
    ensures
        r@ == spec_with_extension(p@, ext@),
{
    // drop trailing separators: the file part is the last segment
    let mut t: usize = p.len();
    proof {
        assert(p@.take(p@.len() as int) =~= p@);
    }
    while t > 0 && p[t - 1] == '/'
        invariant
            t <= p@.len(),
            spec_trim_trailing_separators(p@) == spec_trim_trailing_separators(
                p@.take(t as int),
            ),
        decreases t,
    {
        t = t - 1;
        proof {
            assert(p@.take(t as int + 1).last() == p@[t as int]);
            assert(p@.take(t as int + 1).drop_last() =~= p@.take(t as int));
        }
    }
    let ghost q = p@.take(t as int);
    proof {
        if t > 0 {
            assert(q.last() == p@[t as int - 1]);
        }
        assert(spec_trim_trailing_separators(p@) == q);
    }
    // locate the start of the file part
    let mut fs: usize = t;
    proof {
        assert(q.take(t as int) =~= q);
    }
    while fs > 0 && p[fs - 1] != '/'
        invariant
            fs <= t <= p@.len(),
            q == p@.take(t as int),
            spec_file_start(q) == spec_file_start(p@.take(fs as int)),
            forall|j: int| fs <= j < t ==> p@[j] != '/',
        decreases fs,
    {
        fs = fs - 1;
        proof {
            assert(p@.take(fs as int + 1).last() == p@[fs as int]);
            assert(p@.take(fs as int + 1).drop_last() =~= p@.take(fs as int));
        }
    }
    proof {
        if fs > 0 {
            assert(p@.take(fs as int).last() == p@[fs as int - 1]);
        }
        assert(spec_file_start(q) == fs as int);
    }
    let ghost f = q.skip(fs as int);
    let flen: usize = t - fs;
    proof {
        assert(f.len() == flen as int);
        assert(forall|j: int| 0 <= j < f.len() ==> f[j] == p@[fs + j]);
    }
    if flen == 0 {
        return copy_chars(p);
    }
    if flen == 1 && p[fs] == '.' {
        proof {
            assert(f =~= seq!['.']);
        }
        return copy_chars(p);
    }
    if flen == 2 && p[fs] == '.' && p[fs + 1] == '.' {
        proof {
            assert(f =~= seq!['.', '.']);
        }
        return copy_chars(p);
    }
    proof {
        assert(spec_is_normal(f)) by {
            if f == seq!['.'] {
                assert(f.len() == 1 && f[0] == '.');
            }
            if f == seq!['.', '.'] {
                assert(f.len() == 2 && f[0] == '.' && f[1] == '.');
            }
        }
    }
    // locate the last dot within the file part
    let mut j: usize = t;
    proof {
        assert(f.take(flen as int) =~= f);
        lemma_last_dot_append(f.take(flen as int), f.skip(flen as int));
        assert(f.take(flen as int) + f.skip(flen as int) =~= f);
    }
    while j > fs && p[j - 1] != '.'
        invariant
            fs <= j <= t <= p@.len(),
            f == q.skip(fs as int),
            f.len() == t - fs,
            spec_last_dot(f) == spec_last_dot(f.take(j - fs as int)),
            forall|k: int| 0 <= k < f.len() ==> f[k] == p@[fs + k],
        decreases j,
    {
        j = j - 1;
        proof {
            assert(f.take(j - fs as int + 1).last() == f[j - fs as int]);
            assert(f.take(j - fs as int + 1).drop_last() =~= f.take(j - fs as int));
        }
    }
    let stem_len: usize = if j == fs {
        proof {
            assert(f.take(0) =~= Seq::<char>::empty());
            assert(spec_last_dot(f) is None);
        }
        flen
    } else {
        proof {
            assert(f.take(j - fs as int).last() == f[j - 1 - fs as int]);
            assert(spec_last_dot(f) == Some(j - 1 - fs as int));
        }
        if j - 1 - fs >= 1 {
            j - 1 - fs
        } else {
            flen
        }
    };
    proof {
        assert(spec_stem(f).len() == stem_len as int);
        assert(spec_stem(f) =~= f.take(stem_len as int));
    }
    // assemble the result: prefix, stem, and the new extension
    let mut r: Vec<char> = Vec::new();
    let upto: usize = fs + stem_len;
    let mut i: usize = 0;
    while i < upto
        invariant
            upto <= p@.len(),
            i <= upto,
            r@ == p@.take(i as int),
        decreases upto - i,
    {
        r.push(p[i]);
        i = i + 1;
        proof {
            assert(r@ =~= p@.take(i as int));
        }
    }
    if ext.len() > 0 {
        push_char_vec(&mut r, '.');
        let mut k: usize = 0;
        let ghost base = r@;
        while k < ext.len()
            invariant
                k <= ext@.len(),
                r@ == base + ext@.take(k as int),
            decreases ext@.len() - k,
        {
            r.push(ext[k]);
            k = k + 1;
            proof {
                assert(r@ =~= base + ext@.take(k as int));
            }
        }
        proof {
            assert(base + ext@.take(ext@.len() as int) =~= base + ext@);
        }
    }
    proof {
        assert(p@.take(upto as int) =~= q.take(fs as int) + spec_stem(f));
        if ext@.len() == 0 {
            assert(r@ =~= spec_with_extension(p@, ext@));
        } else {
            assert(r@ =~= q.take(fs as int) + spec_stem(f) + seq!['.'] + ext@);
        }
    }
    r
}

/// Appends one character to a character vector.
fn push_char_vec(v: &mut Vec<char>, c: char)
    ensures
        final(v)@ == old(v)@ + seq![c],
{
    v.push(c);
    proof {
        assert(v@ =~= old(v)@ + seq![c]);
    }
}

} // verus!
