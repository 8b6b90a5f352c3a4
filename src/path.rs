//! Lexical path operations: joining, normalising, and checking that a
//! relative path stays inside the directory it is joined to.

use vstd::prelude::*;
use vstd::string::*;
use crate::platform::Platform;
use crate::text::{concat2, concat3};

verus! {

/// A path separator of the platform: `/` everywhere, and `\` on Windows too.
pub open spec fn is_sep(p: Platform, c: char) -> bool {
    c == '/' || (p is WindowsX64 && c == '\\')
}

pub fn is_sep_char(p: Platform, c: char) -> (r: bool)
    ensures
        r == is_sep(p, c),
{
    c == '/' || (matches!(p, Platform::WindowsX64) && c == '\\')
}

/// `b` appended to `a` as `Path::join` does for a relative `b`: a
/// separator is put between them unless `a` is empty or already ends in one.
pub open spec fn join_spec(p: Platform, a: Seq<char>, b: Seq<char>) -> Seq<char> {
    if a.len() == 0 {
        b
    } else if is_sep(p, a.last()) {
        a + b
    } else {
        a + p.separator_spec() + b
    }
}

pub fn join(p: Platform, a: &str, b: &str) -> (r: String)
    ensures
        r@ == join_spec(p, a@, b@),
{
    let n: usize = a.unicode_len();
    if n == 0 {
        String::from_str(b)
    } else if is_sep_char(p, a.get_char(n - 1)) {
        concat2(a, b)
    } else {
        concat3(a, p.separator(), b)
    }
}

/// The segment is `.`.
pub open spec fn is_dot(seg: Seq<char>) -> bool {
    seg.len() == 1 && seg[0] == '.'
}

/// The segment is `..`.
pub open spec fn is_dotdot(seg: Seq<char>) -> bool {
    seg.len() == 2 && seg[0] == '.' && seg[1] == '.'
}

/// Adds a segment to normalised segments: empty and `.` segments change
/// nothing, `..` removes the last segment (the root's parent is the root),
/// any other segment is appended.
pub open spec fn push_segment(stack: Seq<Seq<char>>, seg: Seq<char>) -> Seq<Seq<char>> {
    if seg.len() == 0 || is_dot(seg) {
        stack
    } else if is_dotdot(seg) {
        if stack.len() == 0 { stack } else { stack.drop_last() }
    } else {
        stack.push(seg)
    }
}

/// The normalised segments of the first `n` characters whose segment has
/// ended, and the characters of the segment still open.
pub open spec fn scan(p: Platform, s: Seq<char>, n: nat) -> (Seq<Seq<char>>, Seq<char>)
    decreases n,
{
    if n == 0 || n > s.len() {
        (Seq::empty(), Seq::empty())
    } else {
        let prev = scan(p, s, (n - 1) as nat);
        if is_sep(p, s[n - 1]) {
            (push_segment(prev.0, prev.1), Seq::empty())
        } else {
            (prev.0, prev.1.push(s[n - 1]))
        }
    }
}

/// The segments of the directory that the path names, resolved lexically;
/// the root has none.
pub open spec fn normalize(p: Platform, s: Seq<char>) -> Seq<Seq<char>> {
    let st = scan(p, s, s.len());
    push_segment(st.0, st.1)
}

/// The depth below the starting directory after a segment, or none once a
/// `..` has climbed above it.
pub open spec fn climb(depth: Option<nat>, seg: Seq<char>) -> Option<nat> {
    match depth {
        None => None,
        Some(d) => if seg.len() == 0 || is_dot(seg) {
            Some(d)
        } else if is_dotdot(seg) {
            if d == 0 { None } else { Some((d - 1) as nat) }
        } else {
            Some(d + 1)
        },
    }
}

/// The depth reached by the ended segments of the first `n` characters,
/// and the characters of the segment still open.
pub open spec fn depth_scan(p: Platform, s: Seq<char>, n: nat) -> (Option<nat>, Seq<char>)
    decreases n,
{
    if n == 0 || n > s.len() {
        (Some(0), Seq::empty())
    } else {
        let prev = depth_scan(p, s, (n - 1) as nat);
        if is_sep(p, s[n - 1]) {
            (climb(prev.0, prev.1), Seq::empty())
        } else {
            (prev.0, prev.1.push(s[n - 1]))
        }
    }
}

/// A relative path that cannot leave the directory it is joined to: it is
/// not empty, does not start with a separator, and walking its segments
/// (`.` stays, `..` goes up, any other goes down) never climbs above the
/// starting directory.
pub open spec fn is_contained(p: Platform, rel: Seq<char>) -> bool {
    &&& rel.len() > 0
    &&& !is_sep(p, rel[0])
    &&& climb(depth_scan(p, rel, rel.len()).0, depth_scan(p, rel, rel.len()).1) is Some
}

proof fn lemma_climb_stays_above(p: Platform, s: Seq<char>, i: nat, j: nat)
    requires
        i <= j <= s.len(),
        depth_scan(p, s, i).0 is None,
    ensures
        depth_scan(p, s, j).0 is None,
    decreases j - i,
{
    if i < j {
        lemma_climb_stays_above(p, s, i, (j - 1) as nat);
    }
}

fn climb_exec(depth: usize, cur: &Vec<char>) -> (r: Option<usize>)
    requires
        depth + cur@.len() <= usize::MAX,
    ensures
        r is Some <==> climb(Some(depth as nat), cur@) is Some,
        r is Some ==> climb(Some(depth as nat), cur@) == Some(r->Some_0 as nat),
{
    let n = cur.len();
    if n == 0 || (n == 1 && cur[0] == '.') {
        Some(depth)
    } else if n == 2 && cur[0] == '.' && cur[1] == '.' {
        if depth == 0 { None } else { Some(depth - 1) }
    } else {
        Some(depth + 1)
    }
}

/// Tells whether `rel` is a contained relative path.
pub fn check_contained(p: Platform, rel: &str) -> (r: bool)
    ensures
        r == is_contained(p, rel@),
{
    let n: usize = rel.unicode_len();
    if n == 0 {
        return false;
    }
    if is_sep_char(p, rel.get_char(0)) {
        return false;
    }
    let mut depth: usize = 0;
    let mut cur: Vec<char> = Vec::new();
    let mut i: usize = 0;
    while i < n
        invariant
            n == rel@.len(),
            i <= n,
            depth + cur@.len() <= i,
            depth_scan(p, rel@, i as nat) == (Some(depth as nat), cur@),
        decreases n - i,
    {
        let c = rel.get_char(i);
        if is_sep_char(p, c) {
            match climb_exec(depth, &cur) {
                None => {
                    proof {
                        lemma_climb_stays_above(p, rel@, (i + 1) as nat, n as nat);
                    }
                    return false;
                },
                Some(d) => {
                    depth = d;
                    cur = Vec::new();
                },
            }
        } else {
            cur.push(c);
        }
        i = i + 1;
    }
    climb_exec(depth, &cur).is_some()
}

/// The character sequences of segments held as character vectors.
pub open spec fn views(v: Seq<Vec<char>>) -> Seq<Seq<char>> {
    v.map_values(|x: Vec<char>| x@)
}

fn push_segment_exec(stack: &mut Vec<Vec<char>>, seg: Vec<char>)
    ensures
        views(final(stack)@) == push_segment(views(old(stack)@), seg@),
{
    let n = seg.len();
    if n == 0 || (n == 1 && seg[0] == '.') {
    } else if n == 2 && seg[0] == '.' && seg[1] == '.' {
        if stack.len() > 0 {
            stack.pop();
            assert(views(stack@) =~= views(old(stack)@).drop_last());
        }
    } else {
        stack.push(seg);
        assert(views(stack@) =~= views(old(stack)@).push(seg@));
    }
}

/// The normalised segments of a path.
pub fn normalized(p: Platform, s: &str) -> (r: Vec<Vec<char>>)
    ensures
        views(r@) == normalize(p, s@),
{
    let n: usize = s.unicode_len();
    let mut stack: Vec<Vec<char>> = Vec::new();
    let mut cur: Vec<char> = Vec::new();
    let mut i: usize = 0;
    assert(views(stack@) =~= Seq::<Seq<char>>::empty());
    while i < n
        invariant
            n == s@.len(),
            i <= n,
            scan(p, s@, i as nat) == (views(stack@), cur@),
        decreases n - i,
    {
        let c = s.get_char(i);
        if is_sep_char(p, c) {
            push_segment_exec(&mut stack, cur);
            cur = Vec::new();
        } else {
            cur.push(c);
        }
        i = i + 1;
    }
    push_segment_exec(&mut stack, cur);
    stack
}

fn same_chars(a: &Vec<char>, b: &Vec<char>) -> (r: bool)
    ensures
        r == (a@ == b@),
{
    if a.len() != b.len() {
        return false;
    }
    let mut i: usize = 0;
    while i < a.len()
        invariant
            a@.len() == b@.len(),
            i <= a@.len(),
            forall|j: int| 0 <= j < i ==> a@[j] == b@[j],
        decreases a.len() - i,
    {
        if a[i] != b[i] {
            return false;
        }
        i = i + 1;
    }
    assert(a@ =~= b@);
    true
}

/// Tells whether two paths name the same directory once resolved lexically.
pub fn same_directory(p: Platform, a: &str, b: &str) -> (r: bool)
    ensures
        r == (normalize(p, a@) == normalize(p, b@)),
{
    let x = normalized(p, a);
    let y = normalized(p, b);
    if x.len() != y.len() {
        assert(views(x@).len() != views(y@).len());
        return false;
    }
    let mut i: usize = 0;
    while i < x.len()
        invariant
            x@.len() == y@.len(),
            views(x@) == normalize(p, a@),
            views(y@) == normalize(p, b@),
            i <= x@.len(),
            forall|j: int| 0 <= j < i ==> views(x@)[j] == views(y@)[j],
        decreases x.len() - i,
    {
        assert(views(x@)[i as int] == x@[i as int]@);
        assert(views(y@)[i as int] == y@[i as int]@);
        if !same_chars(&x[i], &y[i]) {
            assert(views(x@)[i as int] != views(y@)[i as int]);
            assert(views(x@) != views(y@));
            return false;
        }
        i = i + 1;
    }
    assert(views(x@) =~= views(y@));
    true
}

} // verus!
