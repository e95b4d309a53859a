//! Path manipulation on Unix-style paths held as strings: joining a path
//! onto a base, splitting a path into its components and testing whether
//! one path lies under another.

use vstd::prelude::*;
use vstd::string::*;

verus! {

/// A path is rooted (absolute) when it starts with a separator.
pub open spec fn is_rooted(p: Seq<char>) -> bool {
    p.len() > 0 && p[0] == '/'
}

/// Joining `p` onto `base`: an absolute `p` replaces `base`; otherwise a
/// separator is put between the two unless `base` is empty or already ends
/// with one.
pub open spec fn spec_join(base: Seq<char>, p: Seq<char>) -> Seq<char> {
    if is_rooted(p) {
        p
    } else if base.len() == 0 || base.last() == '/' {
        base + p
    } else {
        base + seq!['/'] + p
    }
}

/// Keeps a segment unless it is empty or the current directory `.`.
pub open spec fn push_segment(acc: Seq<Seq<char>>, s: Seq<char>) -> Seq<Seq<char>> {
    if s.len() == 0 || s == seq!['.'] {
        acc
    } else {
        acc.push(s)
    }
}

/// The segments finished so far and the segment being read, after reading
/// all of `p` from left to right.
pub open spec fn split_state(p: Seq<char>) -> (Seq<Seq<char>>, Seq<char>)
    decreases p.len(),
{
    if p.len() == 0 {
        (seq![], seq![])
    } else {
        let prev = split_state(p.drop_last());
        if p.last() == '/' {
            (push_segment(prev.0, prev.1), seq![])
        } else {
            (prev.0, prev.1.push(p.last()))
        }
    }
}

/// The named segments of `p`: the pieces between separators, without the
/// empty ones and without `.`.
pub open spec fn normal_segments(p: Seq<char>) -> Seq<Seq<char>> {
    push_segment(split_state(p).0, split_state(p).1)
}

/// A relative path that starts with the current directory (`.` or `./...`).
pub open spec fn leading_cur_dir(p: Seq<char>) -> bool {
    &&& !is_rooted(p)
    &&& p.len() > 0
    &&& p[0] == '.'
    &&& (p.len() == 1 || p[1] == '/')
}

/// The components of a path head first: the root `/` if the path is
/// absolute, `.` if a relative path starts with the current directory, then
/// its named segments.
pub open spec fn leading_components(p: Seq<char>) -> Seq<Seq<char>> {
    if is_rooted(p) {
        seq![seq!['/']]
    } else if leading_cur_dir(p) {
        seq![seq!['.']]
    } else {
        seq![]
    }
}

pub open spec fn spec_components(p: Seq<char>) -> Seq<Seq<char>> {
    leading_components(p) + normal_segments(p)
}

/// `child` starts with `base` when the components of `base` are a prefix
/// of the components of `child`; whole components only are compared.
pub open spec fn spec_starts_with(child: Seq<char>, base: Seq<char>) -> bool {
    let c = spec_components(child);
    let b = spec_components(base);
    b.len() <= c.len() && c.subrange(0, b.len() as int) == b
}

/// `s` starts with the entries of `t`.
pub open spec fn seq_extends<A>(s: Seq<A>, t: Seq<A>) -> bool {
    t.len() <= s.len() && s.subrange(0, t.len() as int) == t
}

proof fn lemma_extends_trans<A>(a: Seq<A>, b: Seq<A>, c: Seq<A>)
    requires
        seq_extends(a, b),
        seq_extends(b, c),
    ensures
        seq_extends(a, c),
{
    assert(a.subrange(0, c.len() as int) =~= b.subrange(0, c.len() as int));
}

proof fn lemma_push_segment_extends(acc: Seq<Seq<char>>, seg: Seq<char>)
    ensures
        seq_extends(push_segment(acc, seg), acc),
{
    assert(push_segment(acc, seg).subrange(0, acc.len() as int) =~= acc);
}

/// Reading more text only adds finished segments.
proof fn lemma_split_extends(x: Seq<char>, y: Seq<char>)
    ensures
        seq_extends(split_state(x + y).0, split_state(x).0),
    decreases y.len(),
{
    if y.len() == 0 {
        assert(x + y =~= x);
        assert(split_state(x).0.subrange(0, split_state(x).0.len() as int) =~= split_state(x).0);
    } else {
        let xy = x + y;
        assert(xy.drop_last() =~= x + y.drop_last());
        lemma_split_extends(x, y.drop_last());
        let prev = split_state(xy.drop_last());
        if xy.last() == '/' {
            lemma_push_segment_extends(prev.0, prev.1);
            lemma_extends_trans(split_state(xy).0, prev.0, split_state(x).0);
        } else {
            assert(split_state(xy).0 == prev.0);
        }
    }
}

/// After a separator, the finished segments are the named segments of the
/// text before it.
proof fn lemma_split_after_separator(a: Seq<char>)
    ensures
        split_state(a.push('/')).0 == normal_segments(a),
        split_state(a.push('/')).1 == Seq::<char>::empty(),
{
    assert(a.push('/').drop_last() =~= a);
}

/// A path that is not rooted, joined onto `base`, lies under `base`: the
/// components of `base` come first in those of the result.
pub proof fn lemma_join_stays_under_base(base: Seq<char>, p: Seq<char>)
    requires
        !is_rooted(p),
    ensures
        spec_starts_with(spec_join(base, p), base),
{
    let r = spec_join(base, p);
    if base.len() == 0 {
        assert(spec_components(base) =~= Seq::<Seq<char>>::empty());
        assert(spec_components(r).subrange(0, 0) =~= Seq::<Seq<char>>::empty());
    } else {
        // `a` is the text of `base` before the separator that follows it.
        let a = if base.last() == '/' { base.drop_last() } else { base };
        assert(a.push('/') + p =~= r) by {
            if base.last() == '/' {
                assert(a.push('/') =~= base);
            } else {
                assert(a.push('/') =~= base + seq!['/']);
            }
        }
        lemma_split_after_separator(a);
        lemma_split_extends(a.push('/'), p);
        let mid = split_state(r).0;
        lemma_push_segment_extends(mid, split_state(r).1);
        lemma_extends_trans(normal_segments(r), mid, normal_segments(a));
        // The named segments of `base` are those of `a`.
        if base.last() == '/' {
            assert(normal_segments(base) == normal_segments(a)) by {
                assert(base =~= a.push('/'));
            }
        }
        // Both start alike, so both have the same leading components.
        assert(r[0] == base[0]);
        assert(base.len() > 1 ==> r[1] == base[1]);
        assert(base.len() == 1 && base[0] != '/' ==> r.len() > 1 && r[1] == '/');
        assert(leading_components(r) == leading_components(base));
        let lead = leading_components(base);
        let nb = normal_segments(base);
        let nr = normal_segments(r);
        assert(spec_components(r).subrange(0, spec_components(base).len() as int) =~= lead
            + nr.subrange(0, nb.len() as int));
    }
}

/// Joins `p` onto `base`.
pub fn join(base: &str, p: &str) -> (res: String)
    ensures
        res@ == spec_join(base@, p@),
{
    let nb = base.unicode_len();
    let np = p.unicode_len();
    if np > 0 && p.get_char(0) == '/' {
        return p.to_owned();
    }
    let mut res = base.to_owned();
    if !(nb == 0 || base.get_char(nb - 1) == '/') {
        res.append("/");
        proof {
            reveal_strlit("/");
        }
    }
    res.append(p);
    res
}

fn push_segment_of(res: &mut Vec<String>, p: &str, start: usize, end: usize)
    requires
        start <= end <= p@.len(),
    ensures
        final(res).deep_view() == push_segment(old(res).deep_view(), p@.subrange(start as int, end as int)),
{
    let ghost s = p@.subrange(start as int, end as int);
    if end == start {
        assert(s.len() == 0);
        return;
    }
    if end == start + 1 {
        if p.get_char(start) == '.' {
            assert(s =~= seq!['.']);
            return;
        }
        assert(s[0] == p@[start as int]);
    }
    assert(s != seq!['.']) by {
        if s == seq!['.'] {
            assert(s.len() == 1);
            assert(s[0] == '.');
        }
    }
    let seg = p.substring_char(start, end).to_owned();
    let ghost before = res.deep_view();
    res.push(seg);
    assert(res.deep_view() =~= before.push(s));
}

/// Splits `p` into its components (see `spec_components`).
pub fn components(p: &str) -> (res: Vec<String>)
    ensures
        res.deep_view() == spec_components(p@),
{
    let n = p.unicode_len();
    let mut res: Vec<String> = Vec::new();
    if n > 0 {
        let c0 = p.get_char(0);
        if c0 == '/' {
            let root = "/".to_owned();
            proof {
                reveal_strlit("/");
            }
            assert(root@ =~= seq!['/']);
            res.push(root);
            assert(res.deep_view() =~= seq![seq!['/']]);
        } else if c0 == '.' && (n == 1 || p.get_char(1) == '/') {
            let cur = ".".to_owned();
            proof {
                reveal_strlit(".");
            }
            assert(cur@ =~= seq!['.']);
            res.push(cur);
            assert(res.deep_view() =~= seq![seq!['.']]);
        } else {
            assert(res.deep_view() =~= Seq::<Seq<char>>::empty());
        }
    } else {
        assert(res.deep_view() =~= Seq::<Seq<char>>::empty());
    }
    let ghost lead = res.deep_view();
    assert(lead =~= leading_components(p@));
    let mut start: usize = 0;
    let mut i: usize = 0;
    assert(p@.subrange(0, 0) =~= Seq::<char>::empty());
    while i < n
        invariant
            n == p@.len(),
            start <= i <= n,
            res.deep_view() == lead + split_state(p@.subrange(0, i as int)).0,
            split_state(p@.subrange(0, i as int)).1 == p@.subrange(start as int, i as int),
        decreases n - i,
    {
        let ghost pre = p@.subrange(0, i as int);
        let ghost next = p@.subrange(0, i + 1);
        assert(next.drop_last() =~= pre);
        assert(next.last() == p@[i as int]);
        if p.get_char(i) == '/' {
            let ghost acc = split_state(pre).0;
            push_segment_of(&mut res, p, start, i);
            assert(lead + push_segment(acc, p@.subrange(start as int, i as int)) =~= push_segment(
                lead + acc,
                p@.subrange(start as int, i as int),
            ));
            start = i + 1;
            assert(p@.subrange(start as int, i + 1) =~= Seq::<char>::empty());
        } else {
            assert(p@.subrange(start as int, i + 1) =~= p@.subrange(start as int, i as int).push(
                p@[i as int],
            ));
        }
        i = i + 1;
    }
    assert(p@.subrange(0, n as int) =~= p@);
    let ghost acc = split_state(p@).0;
    push_segment_of(&mut res, p, start, n);
    assert(lead + push_segment(acc, p@.subrange(start as int, n as int)) =~= push_segment(
        lead + acc,
        p@.subrange(start as int, n as int),
    ));
    res
}

/// Whether `child` lies under `base`, comparing whole components.
pub fn starts_with(child: &str, base: &str) -> (res: bool)
    ensures
        res == spec_starts_with(child@, base@),
{
    let c = components(child);
    let b = components(base);
    if b.len() > c.len() {
        return false;
    }
    let mut k: usize = 0;
    while k < b.len()
        invariant
            b.len() <= c.len(),
            k <= b.len(),
            b.deep_view() == spec_components(base@),
            c.deep_view() == spec_components(child@),
            forall|j: int| 0 <= j < k ==> c.deep_view()[j] == b.deep_view()[j],
        decreases b.len() - k,
    {
        assert(c.deep_view()[k as int] == c[k as int]@);
        assert(b.deep_view()[k as int] == b[k as int]@);
        if c[k] != b[k] {
            assert(c.deep_view().subrange(0, b.len() as int)[k as int] == c.deep_view()[k as int]);
            return false;
        }
        k = k + 1;
    }
    assert(c.deep_view().subrange(0, b.len() as int) =~= b.deep_view());
    true
}

} // verus!
