//! Unix paths as byte strings, read component by component.
//!
//! A path is split on `/`. A leading `/` is the root; otherwise a leading `.`
//! piece is the current directory. The remaining pieces that are neither
//! empty nor `.` are the path's significant pieces; `..` is a parent
//! component and every other piece is a normal component.

use vstd::prelude::*;

verus! {

/// The separator byte `/`.
pub const SEP: u8 = 47;

/// The byte `.`.
pub const DOT: u8 = 46;

/// One component of a path.
pub enum Component {
    Root,
    Current,
    Parent,
    Normal(Seq<u8>),
}

pub open spec fn has_root(p: Seq<u8>) -> bool {
    p.len() > 0 && p[0] == SEP
}

pub open spec fn has_cur_dir(p: Seq<u8>) -> bool {
    !has_root(p) && p.len() > 0 && p[0] == DOT && (p.len() == 1 || p[1] == SEP)
}

/// Where the pieces after the root or leading `.` begin.
pub open spec fn body_start(p: Seq<u8>) -> int {
    if has_root(p) || has_cur_dir(p) {
        1
    } else {
        0
    }
}

pub open spec fn is_significant(piece: Seq<u8>) -> bool {
    piece.len() > 0 && piece != seq![DOT]
}

pub open spec fn piece_if_significant(p: Seq<u8>, s: int, e: int) -> Seq<(int, int)> {
    if is_significant(p.subrange(s, e)) {
        seq![(s, e)]
    } else {
        Seq::empty()
    }
}

/// The significant pieces of `p` from position `i` on, where the piece being
/// read began at `start`.
pub open spec fn scan(p: Seq<u8>, i: int, start: int) -> Seq<(int, int)>
    decreases p.len() - i,
{
    if i >= p.len() {
        piece_if_significant(p, start, p.len() as int)
    } else if p[i] == SEP {
        piece_if_significant(p, start, i) + scan(p, i + 1, i + 1)
    } else {
        scan(p, i + 1, start)
    }
}

/// The byte ranges of the significant pieces of `p`, in order.
pub open spec fn pieces(p: Seq<u8>) -> Seq<(int, int)> {
    scan(p, body_start(p), body_start(p))
}

pub open spec fn leading(p: Seq<u8>) -> Seq<Component> {
    if has_root(p) {
        seq![Component::Root]
    } else if has_cur_dir(p) {
        seq![Component::Current]
    } else {
        Seq::empty()
    }
}

pub open spec fn piece_component(p: Seq<u8>, r: (int, int)) -> Component {
    let b = p.subrange(r.0, r.1);
    if b == seq![DOT, DOT] {
        Component::Parent
    } else {
        Component::Normal(b)
    }
}

/// The components of `p`.
pub open spec fn components(p: Seq<u8>) -> Seq<Component> {
    leading(p) + pieces(p).map_values(|r: (int, int)| piece_component(p, r))
}

/// `base` names whole leading components of `path`.
pub open spec fn path_starts_with(path: Seq<u8>, base: Seq<u8>) -> bool {
    components(base).is_prefix_of(components(path))
}

/// The last component of `p` when it is a normal one.
pub open spec fn file_name(p: Seq<u8>) -> Option<Seq<u8>> {
    let ps = pieces(p);
    if ps.len() == 0 {
        None
    } else {
        let b = p.subrange(ps.last().0, ps.last().1);
        if b == seq![DOT, DOT] {
            None
        } else {
            Some(b)
        }
    }
}

/// `p` without its last component; none when `p` is empty or ends in the root.
pub open spec fn parent(p: Seq<u8>) -> Option<Seq<u8>> {
    let ps = pieces(p);
    if ps.len() >= 2 {
        Some(p.subrange(0, ps[ps.len() - 2].1))
    } else if ps.len() == 1 {
        Some(p.subrange(0, body_start(p)))
    } else if has_cur_dir(p) {
        Some(Seq::empty())
    } else {
        None
    }
}

/// `name` appended to `dir`; an absolute `name` replaces `dir`.
pub open spec fn join(dir: Seq<u8>, name: Seq<u8>) -> Seq<u8> {
    if has_root(name) {
        name
    } else if dir.len() > 0 && dir.last() != SEP {
        dir.push(SEP) + name
    } else {
        dir + name
    }
}

/// The end of the last significant piece, or of the root or leading `.`.
pub open spec fn right_end(p: Seq<u8>) -> int {
    let ps = pieces(p);
    if ps.len() > 0 {
        ps.last().1
    } else {
        body_start(p)
    }
}

/// What remains of `p` after the components of `base`, when `base` names
/// leading components of `p`.
pub open spec fn strip_prefix(p: Seq<u8>, base: Seq<u8>) -> Option<Seq<u8>> {
    let cb = components(base);
    if !cb.is_prefix_of(components(p)) {
        None
    } else if cb.len() == 0 {
        Some(p.subrange(0, right_end(p)))
    } else {
        let ps = pieces(p);
        let j = cb.len() - leading(p).len();
        if j < ps.len() {
            Some(p.subrange(ps[j].0, ps.last().1))
        } else {
            Some(Seq::empty())
        }
    }
}

pub open spec fn ranges_view(r: Seq<(usize, usize)>) -> Seq<(int, int)> {
    r.map_values(|x: (usize, usize)| (x.0 as int, x.1 as int))
}

pub open spec fn ranges_within(r: Seq<(usize, usize)>, len: int) -> bool {
    &&& forall|k: int| 0 <= k < r.len() ==> #[trigger] r[k].0 <= r[k].1 && r[k].1 <= len
    &&& forall|k1: int, k2: int| 0 <= k1 < k2 < r.len() ==> #[trigger] r[k1].1 <= #[trigger] r[k2].0
}

/// A copy of the bytes `p[s..e]`.
pub fn copy_range(p: &Vec<u8>, s: usize, e: usize) -> (r: Vec<u8>)
    requires
        s <= e <= p.len(),
    ensures
        r@ == p@.subrange(s as int, e as int),
{
    let mut r: Vec<u8> = Vec::new();
    let mut i: usize = s;
    while i < e
        invariant
            s <= i <= e <= p.len(),
            r@ == p@.subrange(s as int, i as int),
        decreases e - i,
    {
        r.push(p[i]);
        i = i + 1;
        assert(r@ =~= p@.subrange(s as int, i as int));
    }
    r
}

/// A copy of all of `p`.
pub fn copy_bytes(p: &Vec<u8>) -> (r: Vec<u8>)
    ensures
        r@ == p@,
{
    let r = copy_range(p, 0, p.len());
    assert(r@ =~= p@);
    r
}

/// Whether `p[s1..e1]` and `q[s2..e2]` hold the same bytes.
pub fn range_equals(p: &Vec<u8>, s1: usize, e1: usize, q: &Vec<u8>, s2: usize, e2: usize) -> (r:
    bool)
    requires
        s1 <= e1 <= p.len(),
        s2 <= e2 <= q.len(),
    ensures
        r == (p@.subrange(s1 as int, e1 as int) == q@.subrange(s2 as int, e2 as int)),
{
    if e1 - s1 != e2 - s2 {
        assert(p@.subrange(s1 as int, e1 as int).len() != q@.subrange(s2 as int, e2 as int).len());
        return false;
    }
    let n = e1 - s1;
    let mut k: usize = 0;
    while k < n
        invariant
            n == e1 - s1,
            n == e2 - s2,
            s1 <= e1 <= p.len(),
            s2 <= e2 <= q.len(),
            k <= n,
            forall|j: int|
                0 <= j < k ==> #[trigger] p@.subrange(s1 as int, e1 as int)[j] == q@.subrange(
                    s2 as int,
                    e2 as int,
                )[j],
        decreases n - k,
    {
        if p[s1 + k] != q[s2 + k] {
            assert(p@.subrange(s1 as int, e1 as int)[k as int] != q@.subrange(
                s2 as int,
                e2 as int,
            )[k as int]);
            return false;
        }
        k = k + 1;
    }
    assert(p@.subrange(s1 as int, e1 as int) =~= q@.subrange(s2 as int, e2 as int));
    true
}

/// Whether `p[s..e]` is `..`.
fn is_dot_dot(p: &Vec<u8>, s: usize, e: usize) -> (r: bool)
    requires
        s <= e <= p.len(),
    ensures
        r == (p@.subrange(s as int, e as int) == seq![DOT, DOT]),
{
    let r = e - s == 2 && p[s] == DOT && p[s + 1] == DOT;
    if r {
        assert(p@.subrange(s as int, e as int) =~= seq![DOT, DOT]);
    } else if e - s == 2 {
        assert(p@.subrange(s as int, e as int)[0] == p@[s as int]);
        assert(p@.subrange(s as int, e as int)[1] == p@[s + 1]);
    } else {
        assert(p@.subrange(s as int, e as int).len() != seq![DOT, DOT].len());
    }
    r
}

/// Whether `p` holds a zero byte.
pub fn contains_nul(p: &Vec<u8>) -> (r: bool)
    ensures
        r == p@.contains(0u8),
{
    let mut i: usize = 0;
    while i < p.len()
        invariant
            i <= p.len(),
            forall|j: int| 0 <= j < i ==> p@[j] != 0u8,
        decreases p.len() - i,
    {
        if p[i] == 0 {
            assert(p@[i as int] == 0u8);
            return true;
        }
        i = i + 1;
    }
    false
}

fn body_start_exec(p: &Vec<u8>) -> (r: usize)
    ensures
        r == body_start(p@),
        r <= p.len(),
{
    if p.len() > 0 && p[0] == SEP {
        1
    } else if p.len() > 0 && p[0] == DOT && (p.len() == 1 || p[1] == SEP) {
        1
    } else {
        0
    }
}

fn range_significant(p: &Vec<u8>, s: usize, e: usize) -> (r: bool)
    requires
        s <= e <= p.len(),
    ensures
        r == is_significant(p@.subrange(s as int, e as int)),
{
    if e == s {
        false
    } else if e == s + 1 && p[s] == DOT {
        assert(p@.subrange(s as int, e as int) =~= seq![DOT]);
        false
    } else {
        if e == s + 1 {
            assert(p@.subrange(s as int, e as int)[0] != seq![DOT][0]);
        } else {
            assert(p@.subrange(s as int, e as int).len() != seq![DOT].len());
        }
        true
    }
}

/// The byte ranges of the significant pieces of `p`.
pub fn piece_ranges(p: &Vec<u8>) -> (r: Vec<(usize, usize)>)
    ensures
        ranges_view(r@) == pieces(p@),
        ranges_within(r@, p.len() as int),
{
    let b = body_start_exec(p);
    let mut r: Vec<(usize, usize)> = Vec::new();
    let mut start: usize = b;
    let mut i: usize = b;
    assert(ranges_view(r@) + scan(p@, i as int, start as int) =~= pieces(p@));
    while i < p.len()
        invariant
            start <= i <= p.len(),
            ranges_view(r@) + scan(p@, i as int, start as int) == pieces(p@),
            ranges_within(r@, p.len() as int),
            forall|k: int| 0 <= k < r@.len() ==> #[trigger] r@[k].1 < start,
        decreases p.len() - i,
    {
        if p[i] == SEP {
            let ghost before = r@;
            if range_significant(p, start, i) {
                r.push((start, i));
            }
            assert(ranges_view(r@) =~= ranges_view(before) + piece_if_significant(
                p@,
                start as int,
                i as int,
            ));
            assert(ranges_view(before) + scan(p@, i as int, start as int) =~= ranges_view(r@)
                + scan(p@, i + 1, i + 1));
            start = i + 1;
        }
        i = i + 1;
    }
    let ghost before = r@;
    let n = p.len();
    if range_significant(p, start, n) {
        r.push((start, n));
    }
    assert(ranges_view(r@) =~= ranges_view(before) + piece_if_significant(
        p@,
        start as int,
        n as int,
    ));
    r
}

/// 1 when `p` has a root, 2 when it begins with the current directory, else 0.
fn leading_kind(p: &Vec<u8>) -> (k: u8)
    ensures
        k <= 2,
        (k == 1) == has_root(p@),
        (k == 2) == has_cur_dir(p@),
{
    if p.len() > 0 && p[0] == SEP {
        1
    } else if p.len() > 0 && p[0] == DOT && (p.len() == 1 || p[1] == SEP) {
        2
    } else {
        0
    }
}

/// Two pieces name the same component exactly when they hold the same bytes.
proof fn lemma_piece_component_eq(p: Seq<u8>, r1: (int, int), q: Seq<u8>, r2: (int, int))
    ensures
        (piece_component(p, r1) == piece_component(q, r2)) == (p.subrange(r1.0, r1.1)
            == q.subrange(r2.0, r2.1)),
{
}

/// The components of `p` after its leading ones are those of its pieces.
proof fn lemma_components_index(p: Seq<u8>)
    ensures
        components(p).len() == leading(p).len() + pieces(p).len(),
        leading(p).len() <= 1,
        forall|i: int|
            0 <= i < pieces(p).len() ==> components(p)[leading(p).len() + i] == piece_component(
                p,
                #[trigger] pieces(p)[i],
            ),
        leading(p).len() == 1 ==> components(p)[0] == leading(p)[0],
{
}

/// A nonempty prefix of components begins the same way: both paths have the
/// same root or leading `.`.
proof fn lemma_prefix_same_leading(path: Seq<u8>, base: Seq<u8>)
    requires
        path_starts_with(path, base),
        components(base).len() > 0,
    ensures
        leading(base) == leading(path),
{
    lemma_components_index(path);
    lemma_components_index(base);
    let cp = components(path);
    let cb = components(base);
    assert(cb[0] == cp.subrange(0, cb.len() as int)[0]);
    assert(cb[0] == cp[0]);
    if leading(base).len() == 0 {
        assert(cb[0] == piece_component(base, pieces(base)[0]));
        if leading(path).len() == 1 {
            assert(cp[0] == leading(path)[0]);
        }
    } else {
        if leading(path).len() == 0 {
            assert(cp[0] == piece_component(path, pieces(path)[0]));
        }
    }
}

/// Whether `base` names whole leading components of `path`.
pub fn starts_with_bytes(path: &Vec<u8>, base: &Vec<u8>) -> (r: bool)
    ensures
        r == path_starts_with(path@, base@),
{
    let kp = leading_kind(path);
    let kb = leading_kind(base);
    let pp = piece_ranges(path);
    let pb = piece_ranges(base);
    let ghost cp = components(path@);
    let ghost cb = components(base@);
    proof {
        lemma_components_index(path@);
        lemma_components_index(base@);
    }
    if kp != kb {
        if kb == 0 && pb.len() == 0 {
            assert(cb =~= cp.subrange(0, 0));
            return true;
        }
        proof {
            if path_starts_with(path@, base@) {
                lemma_prefix_same_leading(path@, base@);
            }
        }
        return false;
    }
    assert(leading(path@) == leading(base@));
    if pb.len() > pp.len() {
        return false;
    }
    let mut k: usize = 0;
    while k < pb.len()
        invariant
            kp == kb,
            pb.len() <= pp.len(),
            k <= pb.len(),
            cp == components(path@),
            cb == components(base@),
            leading(path@) == leading(base@),
            ranges_view(pp@) == pieces(path@),
            ranges_view(pb@) == pieces(base@),
            ranges_within(pp@, path.len() as int),
            ranges_within(pb@, base.len() as int),
            cp.len() == leading(path@).len() + pp@.len(),
            cb.len() == leading(base@).len() + pb@.len(),
            forall|i: int|
                0 <= i < pp@.len() ==> cp[leading(path@).len() + i] == piece_component(
                    path@,
                    #[trigger] pieces(path@)[i],
                ),
            forall|i: int|
                0 <= i < pb@.len() ==> cb[leading(base@).len() + i] == piece_component(
                    base@,
                    #[trigger] pieces(base@)[i],
                ),
            leading(path@).len() == 1 ==> cp[0] == leading(path@)[0],
            leading(base@).len() == 1 ==> cb[0] == leading(base@)[0],
            forall|j: int| 0 <= j < leading(base@).len() + k ==> #[trigger] cb[j] == cp[j],
        decreases pb.len() - k,
    {
        let (ps, pe) = pp[k];
        let (bs, be) = pb[k];
        assert(pieces(path@)[k as int] == (ps as int, pe as int));
        assert(pieces(base@)[k as int] == (bs as int, be as int));
        proof {
            lemma_piece_component_eq(path@, (ps as int, pe as int), base@, (bs as int, be as int));
        }
        let ghost at = leading(base@).len() + k;
        if !range_equals(path, ps, pe, base, bs, be) {
            proof {
                assert(cb[at] != cp[at]);
                if cb.is_prefix_of(cp) {
                    assert(cb[at] == cp.subrange(0, cb.len() as int)[at]);
                }
            }
            return false;
        }
        assert(cb[at] == cp[at]);
        k = k + 1;
    }
    assert(cb =~= cp.subrange(0, cb.len() as int));
    true
}

/// The last component of `p` when it is a normal one.
pub fn file_name_bytes(p: &Vec<u8>) -> (r: Option<Vec<u8>>)
    ensures
        match r {
            Some(v) => file_name(p@) == Some(v@),
            None => file_name(p@) is None,
        },
{
    let ps = piece_ranges(p);
    if ps.len() == 0 {
        return None;
    }
    let (s, e) = ps[ps.len() - 1];
    assert(pieces(p@).last() == (s as int, e as int));
    if is_dot_dot(p, s, e) {
        None
    } else {
        Some(copy_range(p, s, e))
    }
}

/// `p` without its last component.
pub fn parent_bytes(p: &Vec<u8>) -> (r: Option<Vec<u8>>)
    ensures
        match r {
            Some(v) => parent(p@) == Some(v@),
            None => parent(p@) is None,
        },
{
    let ps = piece_ranges(p);
    let n = ps.len();
    if n >= 2 {
        let (_, e) = ps[n - 2];
        assert(pieces(p@)[n - 2] == (ps@[n - 2].0 as int, e as int));
        Some(copy_range(p, 0, e))
    } else if n == 1 {
        let b = body_start_exec(p);
        Some(copy_range(p, 0, b))
    } else if leading_kind(p) == 2 {
        Some(Vec::new())
    } else {
        None
    }
}

/// `name` appended to `dir` as `PathBuf::push` does.
pub fn join_bytes(dir: &Vec<u8>, name: &Vec<u8>) -> (r: Vec<u8>)
    ensures
        r@ == join(dir@, name@),
{
    if name.len() > 0 && name[0] == SEP {
        return copy_bytes(name);
    }
    let mut r = copy_bytes(dir);
    if dir.len() > 0 && dir[dir.len() - 1] != SEP {
        r.push(SEP);
    }
    let ghost head = r@;
    let mut i: usize = 0;
    while i < name.len()
        invariant
            i <= name.len(),
            r@ == head + name@.subrange(0, i as int),
        decreases name.len() - i,
    {
        r.push(name[i]);
        i = i + 1;
        assert(r@ =~= head + name@.subrange(0, i as int));
    }
    assert(name@.subrange(0, name.len() as int) =~= name@);
    r
}

/// What remains of `p` after the components of `base`.
pub fn strip_prefix_bytes(p: &Vec<u8>, base: &Vec<u8>) -> (r: Option<Vec<u8>>)
    ensures
        match r {
            Some(v) => strip_prefix(p@, base@) == Some(v@),
            None => strip_prefix(p@, base@) is None,
        },
{
    if !starts_with_bytes(p, base) {
        return None;
    }
    let ps = piece_ranges(p);
    let pb = piece_ranges(base);
    let kb = leading_kind(base);
    let kp = leading_kind(p);
    proof {
        lemma_components_index(p@);
        lemma_components_index(base@);
        if components(base@).len() > 0 {
            lemma_prefix_same_leading(p@, base@);
        }
    }
    if kb == 0 && pb.len() == 0 {
        assert(components(base@).len() == 0);
        let end = if ps.len() > 0 {
            ps[ps.len() - 1].1
        } else {
            body_start_exec(p)
        };
        return Some(copy_range(p, 0, end));
    }
    assert(components(base@).len() > 0);
    assert(kb == kp);
    let j = pb.len();
    assert(j == components(base@).len() - leading(p@).len());
    if j < ps.len() {
        let s = ps[j].0;
        let e = ps[ps.len() - 1].1;
        assert(pieces(p@)[j as int].0 == s);
        assert(pieces(p@).last().1 == e);
        if j + 1 < ps.len() {
            assert(ps@[j as int].1 <= ps@[ps.len() - 1].0);
        }
        Some(copy_range(p, s, e))
    } else {
        Some(Vec::new())
    }
}

// ---------------------------------------------------------------------------
// Laws.

/// Every path names all of its own components.
pub proof fn starts_with_itself(p: Seq<u8>)
    ensures
        path_starts_with(p, p),
{
    assert(components(p) =~= components(p).subrange(0, components(p).len() as int));
}

/// Scanning runs over bytes other than `/` until the next `/` or the end.
proof fn lemma_scan_run(p: Seq<u8>, i: int, start: int, k: int)
    requires
        0 <= start <= i <= k <= p.len(),
        forall|j: int| i <= j < k ==> p[j] != SEP,
        k == p.len() || p[k] == SEP,
    ensures
        scan(p, i, start) == if k == p.len() {
            piece_if_significant(p, start, k)
        } else {
            piece_if_significant(p, start, k) + scan(p, k + 1, k + 1)
        },
    decreases k - i,
{
    if i < k {
        lemma_scan_run(p, i + 1, start, k);
    }
}

/// The pieces found from `start` on lie within `p`, after `start`, in order,
/// hold no `/`, and are not empty.
proof fn lemma_scan_shape(p: Seq<u8>, i: int, start: int)
    requires
        0 <= start <= i <= p.len(),
        forall|j: int| start <= j < i ==> p[j] != SEP,
    ensures
        forall|k: int|
            0 <= k < scan(p, i, start).len() ==> {
                let r = #[trigger] scan(p, i, start)[k];
                &&& start <= r.0 < r.1 <= p.len()
                &&& forall|j: int| r.0 <= j < r.1 ==> p[j] != SEP
                &&& is_significant(p.subrange(r.0, r.1))
            },
        forall|k1: int, k2: int|
            0 <= k1 < k2 < scan(p, i, start).len() ==> #[trigger] scan(p, i, start)[k1].1
                < #[trigger] scan(p, i, start)[k2].0,
    decreases p.len() - i,
{
    if i >= p.len() {
        assert(p.subrange(start, p.len() as int).len() == p.len() - start);
        if is_significant(p.subrange(start, p.len() as int)) {
            assert(scan(p, i, start) == seq![(start, p.len() as int)]);
        } else {
            assert(scan(p, i, start).len() == 0);
        }
    } else if p[i] == SEP {
        lemma_scan_shape(p, i + 1, i + 1);
        let head = piece_if_significant(p, start, i);
        assert(p.subrange(start, i).len() == i - start);
        let tail = scan(p, i + 1, i + 1);
        assert(scan(p, i, start) == head + tail);
        assert forall|k: int| 0 <= k < scan(p, i, start).len() implies {
            let r = #[trigger] scan(p, i, start)[k];
            &&& start <= r.0 < r.1 <= p.len()
            &&& forall|j: int| r.0 <= j < r.1 ==> p[j] != SEP
            &&& is_significant(p.subrange(r.0, r.1))
        } by {
            if k < head.len() {
                assert(scan(p, i, start)[k] == head[k]);
                assert(head == seq![(start, i)]);
            } else {
                assert(scan(p, i, start)[k] == tail[k - head.len()]);
            }
        }
        assert forall|k1: int, k2: int|
            0 <= k1 < k2 < scan(p, i, start).len() implies #[trigger] scan(p, i, start)[k1].1
                < #[trigger] scan(p, i, start)[k2].0 by {
            if k2 < head.len() {
            } else if k1 < head.len() {
                assert(head == seq![(start, i)]);
                assert(scan(p, i, start)[k1] == head[k1]);
                assert(scan(p, i, start)[k2] == tail[k2 - head.len()]);
            } else {
                assert(scan(p, i, start)[k1] == tail[k1 - head.len()]);
                assert(scan(p, i, start)[k2] == tail[k2 - head.len()]);
            }
        }
    } else {
        lemma_scan_shape(p, i + 1, start);
        assert(scan(p, i, start) == scan(p, i + 1, start));
    }
}

/// The pieces of `p` lie in its body, hold no `/`, and are not empty.
pub proof fn lemma_pieces_shape(p: Seq<u8>)
    ensures
        0 <= body_start(p) <= p.len(),
        forall|k: int|
            0 <= k < pieces(p).len() ==> {
                let r = #[trigger] pieces(p)[k];
                &&& body_start(p) <= r.0 < r.1 <= p.len()
                &&& forall|j: int| r.0 <= j < r.1 ==> p[j] != SEP
                &&& is_significant(p.subrange(r.0, r.1))
            },
        forall|k1: int, k2: int|
            0 <= k1 < k2 < pieces(p).len() ==> #[trigger] pieces(p)[k1].1 < #[trigger] pieces(
                p,
            )[k2].0,
{
    lemma_scan_shape(p, body_start(p), body_start(p));
}

/// When `q` continues `p` with a `/`, scanning `q` reads the pieces of `p`
/// and then those after the `/`.
proof fn lemma_scan_split(p: Seq<u8>, q: Seq<u8>, i: int, start: int)
    requires
        p.len() < q.len(),
        q.subrange(0, p.len() as int) == p,
        q[p.len() as int] == SEP,
        0 <= start <= i <= p.len(),
    ensures
        scan(q, i, start) == scan(p, i, start) + scan(q, p.len() + 1 as int, p.len() + 1 as int),
    decreases p.len() - i,
{
    let n = p.len() as int;
    assert(q.subrange(start, i) =~= p.subrange(start, i)) by {
        assert forall|j: int| 0 <= j < i - start implies q.subrange(start, i)[j] == p.subrange(
            start,
            i,
        )[j] by {
            assert(q.subrange(0, n)[start + j] == q[start + j]);
        }
    }
    if i == n {
        assert(scan(q, i, start) == piece_if_significant(q, start, i) + scan(q, i + 1, i + 1));
    } else {
        assert(q.subrange(0, n)[i] == q[i]);
        if p[i] == SEP {
            lemma_scan_split(p, q, i + 1, i + 1);
            assert(scan(q, i, start) =~= scan(p, i, start) + scan(q, n + 1, n + 1));
        } else {
            lemma_scan_split(p, q, i + 1, start);
        }
    }
}

/// A nonempty `p` followed by `/` keeps its root or leading `.`.
proof fn lemma_leading_extend(p: Seq<u8>, q: Seq<u8>)
    requires
        p.len() > 0,
        p.len() < q.len(),
        q.subrange(0, p.len() as int) == p,
        q[p.len() as int] == SEP,
    ensures
        body_start(q) == body_start(p),
        leading(q) == leading(p),
{
    assert(q.subrange(0, p.len() as int)[0] == q[0]);
    if p.len() >= 2 {
        assert(q.subrange(0, p.len() as int)[1] == q[1]);
    }
}

/// When `q` continues a nonempty `p` with a `/`, the components of `p` are
/// the first components of `q`.
proof fn lemma_components_extend(p: Seq<u8>, q: Seq<u8>)
    requires
        p.len() > 0,
        p.len() < q.len(),
        q.subrange(0, p.len() as int) == p,
        q[p.len() as int] == SEP,
    ensures
        components(p).is_prefix_of(components(q)),
        pieces(q) == pieces(p) + scan(q, p.len() + 1 as int, p.len() + 1 as int),
{
    lemma_leading_extend(p, q);
    lemma_scan_split(p, q, body_start(p), body_start(p));
    lemma_pieces_shape(p);
    let cp = components(p);
    let cq = components(q);
    let lp = leading(p);
    assert forall|k: int| 0 <= k < cp.len() implies cp[k] == cq[k] by {
        if k >= lp.len() {
            let r = pieces(p)[k - lp.len()];
            assert(pieces(q)[k - lp.len()] == r);
            assert(q.subrange(r.0, r.1) =~= p.subrange(r.0, r.1)) by {
                assert forall|j: int| 0 <= j < r.1 - r.0 implies q.subrange(r.0, r.1)[j]
                    == p.subrange(r.0, r.1)[j] by {
                    assert(q.subrange(0, p.len() as int)[r.0 + j] == q[r.0 + j]);
                }
            }
        }
    }
    assert(cp =~= cq.subrange(0, cp.len() as int));
}

/// A path ending in `/` has the components of the path without it.
proof fn lemma_components_trailing_sep(p: Seq<u8>)
    requires
        p.len() >= 2,
        p.last() == SEP,
    ensures
        components(p) == components(p.drop_last()),
{
    let p0 = p.drop_last();
    assert(p.subrange(0, p0.len() as int) =~= p0);
    lemma_components_extend(p0, p);
    assert(scan(p, p0.len() + 1 as int, p0.len() + 1 as int) == piece_if_significant(p, p.len() as int, p.len() as int));
    assert(p.subrange(p.len() as int, p.len() as int).len() == 0);
    assert(pieces(p) =~= pieces(p0));
    lemma_leading_extend(p0, p);
}

/// A relative path joined to a directory lies below that directory.
pub proof fn join_stays_below(dir: Seq<u8>, rel: Seq<u8>)
    requires
        !has_root(rel),
    ensures
        path_starts_with(join(dir, rel), dir),
{
    let q = join(dir, rel);
    if dir.len() == 0 {
        assert(components(dir) =~= Seq::<Component>::empty()) by {
            assert(pieces(dir) == piece_if_significant(dir, 0, 0));
            assert(dir.subrange(0, 0).len() == 0);
        }
        assert(components(dir) =~= components(q).subrange(0, 0));
    } else if dir.last() != SEP {
        assert(q =~= dir.push(SEP) + rel);
        assert(q.subrange(0, dir.len() as int) =~= dir);
        lemma_components_extend(dir, q);
    } else if dir.len() == 1 {
        assert(q =~= dir + rel);
        assert(has_root(dir));
        assert(has_root(q));
        assert(pieces(dir) == piece_if_significant(dir, 1, 1));
        assert(dir.subrange(1, 1).len() == 0);
        assert(components(dir) =~= seq![Component::Root]);
        assert(components(q)[0] == Component::Root);
        assert(components(dir) =~= components(q).subrange(0, 1));
    } else {
        let d0 = dir.drop_last();
        lemma_components_trailing_sep(dir);
        assert(q =~= dir + rel);
        assert(q.subrange(0, d0.len() as int) =~= d0);
        assert(q[d0.len() as int] == SEP);
        lemma_components_extend(d0, q);
    }
}

/// A name that is a single normal component.
pub open spec fn is_plain_name(name: Seq<u8>) -> bool {
    &&& name.len() > 0
    &&& forall|j: int| 0 <= j < name.len() ==> name[j] != SEP
    &&& name != seq![DOT]
    &&& name != seq![DOT, DOT]
}

/// Scanning a last run without `/` yields it as the last piece.
proof fn lemma_scan_tail_name(q: Seq<u8>, k: int)
    requires
        0 <= k < q.len(),
        is_plain_name(q.subrange(k, q.len() as int)),
    ensures
        scan(q, k, k) == seq![(k, q.len() as int)],
{
    assert forall|j: int| k <= j < q.len() implies q[j] != SEP by {
        assert(q.subrange(k, q.len() as int)[j - k] == q[j]);
    }
    lemma_scan_run(q, k, k, q.len() as int);
}

/// Joining a plain name to a directory gives a path whose final name is that
/// name and whose parent has the directory's components.
pub proof fn join_names_the_child(dir: Seq<u8>, name: Seq<u8>)
    requires
        is_plain_name(name),
    ensures
        file_name(join(dir, name)) == Some(name),
        path_starts_with(join(dir, name), dir),
{
    let q = join(dir, name);
    assert(!has_root(name)) by {
        assert(name[0] != SEP);
    }
    join_stays_below(dir, name);
    let k: int = if dir.len() > 0 && dir.last() != SEP {
        dir.len() + 1 as int
    } else {
        dir.len() as int
    };
    if dir.len() > 0 && dir.last() != SEP {
        assert(q =~= dir.push(SEP) + name);
    } else {
        assert(q =~= dir + name);
    }
    assert(q.subrange(k, q.len() as int) =~= name);
    lemma_scan_tail_name(q, k);
    if dir.len() == 0 {
        assert(q =~= name);
        assert(!has_cur_dir(q)) by {
            if q.len() == 1 && q[0] == DOT {
                assert(q =~= seq![DOT]);
            }
        }
        assert(pieces(q) == seq![(0int, q.len() as int)]);
    } else if dir.last() != SEP {
        assert(q.subrange(0, dir.len() as int) =~= dir);
        lemma_components_extend(dir, q);
        assert(pieces(q).last() == (k, q.len() as int));
    } else if dir.len() == 1 {
        assert(has_root(q));
        assert(pieces(q) == scan(q, 1, 1));
    } else {
        let d0 = dir.drop_last();
        assert(q.subrange(0, d0.len() as int) =~= d0);
        assert(q[d0.len() as int] == SEP);
        lemma_components_extend(d0, q);
        assert(pieces(q).last() == (k, q.len() as int));
    }
}

/// A piece that starts out significant is found.
proof fn lemma_scan_finds_piece(p: Seq<u8>, i: int, start: int)
    requires
        0 <= start < i <= p.len(),
        forall|j: int| start <= j < i ==> p[j] != SEP,
        i - start >= 2 || p[start] != DOT,
    ensures
        scan(p, i, start).len() > 0,
    decreases p.len() - i,
{
    let b = p.subrange(start, i);
    if i - start == 1 {
        assert(b[0] == p[start]);
        assert(b != seq![DOT]) by {
            if b == seq![DOT] {
                assert(b[0] == DOT);
            }
        }
    } else {
        assert(b.len() != seq![DOT].len());
    }
    if i >= p.len() {
        assert(is_significant(p.subrange(start, p.len() as int)));
    } else if p[i] == SEP {
        assert(is_significant(p.subrange(start, i)));
        assert(scan(p, i, start) == piece_if_significant(p, start, i) + scan(p, i + 1, i + 1));
    } else {
        lemma_scan_finds_piece(p, i + 1, start);
    }
}

/// Only the empty path has no components.
pub proof fn lemma_components_nonempty(p: Seq<u8>)
    requires
        p.len() > 0,
    ensures
        components(p).len() > 0,
{
    lemma_components_index(p);
    if !has_root(p) && !has_cur_dir(p) {
        assert(body_start(p) == 0);
        if p[0] == DOT {
            assert(p.len() >= 2 && p[1] != SEP);
            lemma_scan_finds_piece(p, 2, 0);
            assert(scan(p, 1, 0) == scan(p, 2, 0));
            assert(scan(p, 0, 0) == scan(p, 1, 0));
        } else {
            lemma_scan_finds_piece(p, 1, 0);
            assert(scan(p, 0, 0) == scan(p, 1, 0));
        }
    }
}

/// What remains of a path after a nonempty base is relative.
pub proof fn strip_prefix_is_relative(p: Seq<u8>, base: Seq<u8>)
    requires
        base.len() > 0,
        strip_prefix(p, base) is Some,
    ensures
        !has_root(strip_prefix(p, base)->0),
{
    lemma_components_nonempty(base);
    lemma_pieces_shape(p);
    let ps = pieces(p);
    let j = components(base).len() - leading(p).len();
    if 0 <= j < ps.len() {
        let first = ps[j];
        if j < ps.len() - 1 {
            assert(ps[j].1 < ps[ps.len() - 1].0);
        }
        let r = p.subrange(ps[j].0, ps.last().1);
        assert(p[first.0] != SEP);
        assert(r[0] == p[first.0]);
    }
}

/// A final name is a single normal component.
pub proof fn file_name_is_plain(p: Seq<u8>)
    requires
        file_name(p) is Some,
    ensures
        is_plain_name(file_name(p)->0),
{
    lemma_pieces_shape(p);
    let ps = pieces(p);
    let r = ps.last();
    assert(ps[ps.len() - 1] == r);
    let n = p.subrange(r.0, r.1);
    assert forall|j: int| 0 <= j < n.len() implies n[j] != SEP by {
        assert(n[j] == p[r.0 + j]);
    }
}

/// Two paths that a third lies at or below are nested: one of them lies at
/// or below the other.
pub proof fn bases_are_nested(p: Seq<u8>, a: Seq<u8>, b: Seq<u8>)
    requires
        path_starts_with(p, a),
        path_starts_with(p, b),
    ensures
        path_starts_with(a, b) || path_starts_with(b, a),
{
    let ca = components(a);
    let cb = components(b);
    let cp = components(p);
    if ca.len() <= cb.len() {
        assert forall|i: int| 0 <= i < ca.len() implies cb.subrange(0, ca.len() as int)[i] == ca[i] by {
            assert(cp.subrange(0, ca.len() as int)[i] == cp[i]);
            assert(cp.subrange(0, cb.len() as int)[i] == cp[i]);
        }
        assert(cb.subrange(0, ca.len() as int) =~= ca);
    } else {
        assert forall|i: int| 0 <= i < cb.len() implies ca.subrange(0, cb.len() as int)[i] == cb[i] by {
            assert(cp.subrange(0, ca.len() as int)[i] == cp[i]);
            assert(cp.subrange(0, cb.len() as int)[i] == cp[i]);
        }
        assert(ca.subrange(0, cb.len() as int) =~= cb);
    }
}

/// A path with a final name has a parent, and a parent holds no byte that
/// the path does not.
pub proof fn parent_of_named_path(p: Seq<u8>, b: u8)
    requires
        file_name(p) is Some,
        !p.contains(b),
    ensures
        parent(p) is Some,
        !parent(p)->0.contains(b),
{
    lemma_pieces_shape(p);
    let ps = pieces(p);
    let q = parent(p)->0;
    let k: int = if ps.len() >= 2 {
        ps[ps.len() - 2].1
    } else {
        body_start(p)
    };
    assert(0 <= k <= p.len());
    assert(q =~= p.subrange(0, k));
    assert forall|i: int| 0 <= i < q.len() implies q[i] != b by {
        assert(q[i] == p[i]);
    }
}

} // verus!
