//! Textual paths with `/` separators: components, parents, names and joins,
//! following the component rules of the standard library's `Path`.

use vstd::prelude::*;
use crate::text::{chars_eq, chars_of, string_of};

verus! {

/// The path begins at the root.
pub open spec fn is_absolute(p: Seq<char>) -> bool {
    p.len() > 0 && p[0] == '/'
}

/// Adds a finished piece to the component list; empty and `.` pieces are no components.
pub open spec fn flush(acc: Seq<Seq<char>>, cur: Seq<char>) -> Seq<Seq<char>> {
    if cur.len() == 0 || cur == seq!['.'] {
        acc
    } else {
        acc.push(cur)
    }
}

/// Components of `s`, given the piece read so far and the components before it.
pub open spec fn comps_acc(s: Seq<char>, cur: Seq<char>, acc: Seq<Seq<char>>) -> Seq<Seq<char>>
    decreases s.len(),
{
    if s.len() == 0 {
        flush(acc, cur)
    } else if s[0] == '/' {
        comps_acc(s.drop_first(), Seq::empty(), flush(acc, cur))
    } else {
        comps_acc(s.drop_first(), cur.push(s[0]), acc)
    }
}

/// The named components of a path, in order.
pub open spec fn components(p: Seq<char>) -> Seq<Seq<char>> {
    comps_acc(p, Seq::empty(), Seq::empty())
}

/// `a` lies at or below `b`, compared component by component.
pub open spec fn path_starts_with(a: Seq<char>, b: Seq<char>) -> bool {
    is_absolute(a) == is_absolute(b) && components(b).len() <= components(a).len()
        && components(a).subrange(0, components(b).len() as int) == components(b)
}

/// The two paths name the same location, compared component by component.
pub open spec fn same_path(a: Seq<char>, b: Seq<char>) -> bool {
    is_absolute(a) == is_absolute(b) && components(a) == components(b)
}

/// Some component is `..`.
pub open spec fn has_parent_component(p: Seq<char>) -> bool {
    components(p).contains(seq!['.', '.'])
}

/// Components joined by `/`, behind a leading `/` for absolute paths.
pub open spec fn rebuild(absolute: bool, comps: Seq<Seq<char>>) -> Seq<char>
    decreases comps.len(),
{
    if comps.len() == 0 {
        if absolute { seq!['/'] } else { Seq::empty() }
    } else if comps.len() == 1 {
        if absolute { seq!['/'] + comps[0] } else { comps[0] }
    } else {
        rebuild(absolute, comps.drop_last()) + seq!['/'] + comps.last()
    }
}

/// The containing path; none for a root or an empty path.
pub open spec fn parent_of(p: Seq<char>) -> Option<Seq<char>> {
    if components(p).len() == 0 {
        None
    } else {
        Some(rebuild(is_absolute(p), components(p).drop_last()))
    }
}

/// The last component, unless there is none or it is `..`.
pub open spec fn file_name_of(p: Seq<char>) -> Option<Seq<char>> {
    if components(p).len() == 0 || components(p).last() == seq!['.', '.'] {
        None
    } else {
        Some(components(p).last())
    }
}

/// `name` appended to `base` with one separator; an absolute `name` replaces `base`.
pub open spec fn join_path(base: Seq<char>, name: Seq<char>) -> Seq<char> {
    if is_absolute(name) {
        name
    } else if base.len() == 0 {
        name
    } else if base.last() == '/' {
        base + name
    } else {
        base + seq!['/'] + name
    }
}

/// Whether the path begins at the root.
pub fn path_is_absolute(p: &str) -> (r: bool)
    ensures
        r == is_absolute(p@),
{
    let v = chars_of(p);
    v.len() > 0 && v[0] == '/'
}

proof fn lemma_comps_step(s: Seq<char>, i: int, cur: Seq<char>, acc: Seq<Seq<char>>)
    requires
        0 <= i < s.len(),
    ensures
        comps_acc(s.skip(i), cur, acc) == if s[i] == '/' {
            comps_acc(s.skip(i + 1), Seq::empty(), flush(acc, cur))
        } else {
            comps_acc(s.skip(i + 1), cur.push(s[i]), acc)
        },
{
    assert(s.skip(i).drop_first() =~= s.skip(i + 1));
    assert(s.skip(i)[0] == s[i]);
}

fn is_dot(cur: &Vec<char>) -> (r: bool)
    ensures
        r == (cur@ == seq!['.']),
{
    if cur.len() == 1 && cur[0] == '.' {
        assert(cur@ =~= seq!['.']);
        true
    } else {
        false
    }
}

/// The named components of a path.
pub fn path_components(p: &str) -> (r: Vec<Vec<char>>)
    ensures
        r@.len() == components(p@).len(),
        forall|i: int| 0 <= i < r@.len() ==> #[trigger] r@[i]@ == components(p@)[i],
{
    let s = chars_of(p);
    let mut acc: Vec<Vec<char>> = Vec::new();
    let mut cur: Vec<char> = Vec::new();
    let mut i: usize = 0;
    let ghost views: Seq<Seq<char>> = Seq::empty();
    assert(s@.skip(0) =~= s@);
    while i < s.len()
        invariant
            s@ == p@,
            i <= s.len(),
            views.len() == acc@.len(),
            forall|j: int| 0 <= j < acc@.len() ==> #[trigger] acc@[j]@ == views[j],
            components(p@) == comps_acc(s@.skip(i as int), cur@, views),
        decreases s.len() - i,
    {
        proof {
            lemma_comps_step(s@, i as int, cur@, views);
        }
        if s[i] == '/' {
            if cur.len() != 0 && !is_dot(&cur) {
                proof { views = views.push(cur@); }
                acc.push(cur);
            }
            cur = Vec::new();
            assert(cur@ =~= Seq::<char>::empty());
        } else {
            cur.push(s[i]);
        }
        i = i + 1;
    }
    assert(s@.skip(i as int) =~= Seq::<char>::empty());
    if cur.len() != 0 && !is_dot(&cur) {
        proof { views = views.push(cur@); }
        acc.push(cur);
    }
    acc
}

/// Whether `a` lies at or below `b`, compared component by component.
pub fn starts_with_path(a: &str, b: &str) -> (r: bool)
    ensures
        r == path_starts_with(a@, b@),
{
    if path_is_absolute(a) != path_is_absolute(b) {
        return false;
    }
    let ca = path_components(a);
    let cb = path_components(b);
    if cb.len() > ca.len() {
        return false;
    }
    let mut i: usize = 0;
    while i < cb.len()
        invariant
            cb@.len() <= ca@.len(),
            i <= cb@.len(),
            ca@.len() == components(a@).len(),
            cb@.len() == components(b@).len(),
            forall|j: int| 0 <= j < ca@.len() ==> #[trigger] ca@[j]@ == components(a@)[j],
            forall|j: int| 0 <= j < cb@.len() ==> #[trigger] cb@[j]@ == components(b@)[j],
            forall|j: int| 0 <= j < i ==> components(a@)[j] == components(b@)[j],
        decreases cb.len() - i,
    {
        if !chars_eq(ca[i].as_slice(), cb[i].as_slice()) {
            assert(components(a@).subrange(0, components(b@).len() as int)[i as int] != components(b@)[i as int]);
            return false;
        }
        i = i + 1;
    }
    assert(components(a@).subrange(0, components(b@).len() as int) =~= components(b@));
    true
}

/// Whether the two paths name the same location.
pub fn is_same_path(a: &str, b: &str) -> (r: bool)
    ensures
        r == same_path(a@, b@),
{
    let x = starts_with_path(a, b);
    let y = starts_with_path(b, a);
    proof {
        if x && y {
            assert(components(a@) =~= components(b@));
        }
        if same_path(a@, b@) {
            assert(components(a@).subrange(0, components(b@).len() as int) =~= components(b@));
            assert(components(b@).subrange(0, components(a@).len() as int) =~= components(a@));
        }
    }
    x && y
}

/// Whether some component is `..`.
pub fn contains_parent_component(p: &str) -> (r: bool)
    ensures
        r == has_parent_component(p@),
{
    let c = path_components(p);
    let mut i: usize = 0;
    while i < c.len()
        invariant
            i <= c@.len(),
            c@.len() == components(p@).len(),
            forall|j: int| 0 <= j < c@.len() ==> #[trigger] c@[j]@ == components(p@)[j],
            forall|j: int| 0 <= j < i ==> components(p@)[j] != seq!['.', '.'],
        decreases c.len() - i,
    {
        if c[i].len() == 2 && c[i][0] == '.' && c[i][1] == '.' {
            assert(c@[i as int]@ =~= seq!['.', '.']);
            assert(components(p@)[i as int] == seq!['.', '.']);
            return true;
        }
        proof {
            if components(p@)[i as int] == seq!['.', '.'] {
                assert(c@[i as int]@[0] == '.');
            }
        }
        i = i + 1;
    }
    proof {
        if components(p@).contains(seq!['.', '.']) {
            let k = choose|k: int| 0 <= k < components(p@).len() && components(p@)[k] == seq!['.', '.'];
            assert(components(p@)[k] != seq!['.', '.']);
        }
    }
    false
}

fn rebuild_exec(absolute: bool, comps: &Vec<Vec<char>>, n: usize) -> (r: Vec<char>)
    requires
        n <= comps@.len(),
    ensures
        r@ == rebuild(absolute, Seq::new(n as nat, |j: int| comps@[j]@)),
    decreases n,
{
    let ghost cs = Seq::new(n as nat, |j: int| comps@[j]@);
    if n == 0 {
        let mut r: Vec<char> = Vec::new();
        if absolute {
            r.push('/');
        }
        assert(r@ =~= rebuild(absolute, cs));
        r
    } else if n == 1 {
        let mut r: Vec<char> = Vec::new();
        if absolute {
            r.push('/');
        }
        let mut k: usize = 0;
        let piece = &comps[0];
        while k < piece.len()
            invariant
                k <= piece@.len(),
                r@ == (if absolute { seq!['/'] } else { Seq::<char>::empty() }) + piece@.subrange(0, k as int),
            decreases piece.len() - k,
        {
            r.push(piece[k]);
            k = k + 1;
            assert(r@ =~= (if absolute { seq!['/'] } else { Seq::<char>::empty() }) + piece@.subrange(0, k as int));
        }
        assert(piece@.subrange(0, piece@.len() as int) =~= piece@);
        assert(cs[0] == piece@);
        r
    } else {
        let mut r = rebuild_exec(absolute, comps, n - 1);
        assert(Seq::new((n - 1) as nat, |j: int| comps@[j]@) =~= cs.drop_last());
        r.push('/');
        let piece = &comps[n - 1];
        let ghost base = r@;
        let mut k: usize = 0;
        while k < piece.len()
            invariant
                k <= piece@.len(),
                r@ == base + piece@.subrange(0, k as int),
            decreases piece.len() - k,
        {
            r.push(piece[k]);
            k = k + 1;
            assert(r@ =~= base + piece@.subrange(0, k as int));
        }
        assert(piece@.subrange(0, piece@.len() as int) =~= piece@);
        assert(cs.last() == piece@);
        r
    }
}

/// The containing path; none for a root or an empty path.
pub fn parent_path(p: &str) -> (r: Option<String>)
    ensures
        match r {
            Some(s) => parent_of(p@) == Some(s@),
            None => parent_of(p@) is None,
        },
{
    let c = path_components(p);
    if c.len() == 0 {
        return None;
    }
    let abs = path_is_absolute(p);
    let v = rebuild_exec(abs, &c, c.len() - 1);
    assert(Seq::new((c@.len() - 1) as nat, |j: int| c@[j]@) =~= components(p@).drop_last());
    Some(string_of(v.as_slice()))
}

/// The last component, unless there is none or it is `..`.
pub fn file_name(p: &str) -> (r: Option<String>)
    ensures
        match r {
            Some(s) => file_name_of(p@) == Some(s@),
            None => file_name_of(p@) is None,
        },
{
    let c = path_components(p);
    if c.len() == 0 {
        return None;
    }
    let last = &c[c.len() - 1];
    if last.len() == 2 && last[0] == '.' && last[1] == '.' {
        assert(last@ =~= seq!['.', '.']);
        return None;
    }
    proof {
        if components(p@).last() == seq!['.', '.'] {
            assert(last@[0] == '.' && last@[1] == '.');
        }
    }
    Some(string_of(last.as_slice()))
}

/// `name` appended to `base` with one separator.
pub fn join(base: &str, name: &str) -> (r: String)
    ensures
        r@ == join_path(base@, name@),
{
    let b = chars_of(base);
    if path_is_absolute(name) {
        return String::from_str(name);
    }
    if b.len() == 0 {
        return String::from_str(name);
    }
    let mut r = String::from_str(base);
    if b[b.len() - 1] != '/' {
        r.append("/");
        proof { reveal_strlit("/"); }
        assert("/"@ =~= seq!['/']);
    }
    r.append(name);
    r
}

} // verus!
