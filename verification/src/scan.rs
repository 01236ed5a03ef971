//! Scanning command output: whitespace-separated words, lines, trimming and
//! first occurrences.

use vstd::prelude::*;
use crate::text::{chars_of, string_of};

verus! {

/// ASCII whitespace.
pub open spec fn is_space(c: char) -> bool {
    c == ' ' || c == '\t' || c == '\n' || c == '\r' || c == '\x0B' || c == '\x0C'
}

/// The views of a list of strings.
pub open spec fn string_views(v: Seq<String>) -> Seq<Seq<char>> {
    Seq::new(v.len(), |i: int| v[i]@)
}

/// Adds a finished word; empty pieces are no words.
pub open spec fn word_flush(acc: Seq<Seq<char>>, cur: Seq<char>) -> Seq<Seq<char>> {
    if cur.len() == 0 { acc } else { acc.push(cur) }
}

/// The words of `s`, given the piece read so far and the words before it.
pub open spec fn words_acc(s: Seq<char>, cur: Seq<char>, acc: Seq<Seq<char>>) -> Seq<Seq<char>>
    decreases s.len(),
{
    if s.len() == 0 {
        word_flush(acc, cur)
    } else if is_space(s[0]) {
        words_acc(s.drop_first(), Seq::empty(), word_flush(acc, cur))
    } else {
        words_acc(s.drop_first(), cur.push(s[0]), acc)
    }
}

/// The maximal runs of non-whitespace characters of `s`, in order.
pub open spec fn words(s: Seq<char>) -> Seq<Seq<char>> {
    words_acc(s, Seq::empty(), Seq::empty())
}

proof fn lemma_words_step(s: Seq<char>, i: int, cur: Seq<char>, acc: Seq<Seq<char>>)
    requires
        0 <= i < s.len(),
    ensures
        words_acc(s.skip(i), cur, acc) == if is_space(s[i]) {
            words_acc(s.skip(i + 1), Seq::empty(), word_flush(acc, cur))
        } else {
            words_acc(s.skip(i + 1), cur.push(s[i]), acc)
        },
{
    assert(s.skip(i).drop_first() =~= s.skip(i + 1));
    assert(s.skip(i)[0] == s[i]);
}

fn is_space_char(c: char) -> (r: bool)
    ensures
        r == is_space(c),
{
    c == ' ' || c == '\t' || c == '\n' || c == '\r' || c == '\x0B' || c == '\x0C'
}

/// The whitespace-separated words of a text.
pub fn split_words(text: &str) -> (r: Vec<String>)
    ensures
        string_views(r@) == words(text@),
{
    let s = chars_of(text);
    let mut acc: Vec<String> = Vec::new();
    let mut cur: Vec<char> = Vec::new();
    let mut i: usize = 0;
    assert(s@.skip(0) =~= s@);
    assert(string_views(acc@) =~= Seq::<Seq<char>>::empty());
    assert(cur@ =~= Seq::<char>::empty());
    while i < s.len()
        invariant
            s@ == text@,
            i <= s.len(),
            words(text@) == words_acc(s@.skip(i as int), cur@, string_views(acc@)),
        decreases s.len() - i,
    {
        proof {
            lemma_words_step(s@, i as int, cur@, string_views(acc@));
        }
        if is_space_char(s[i]) {
            if cur.len() != 0 {
                let w = string_of(cur.as_slice());
                let ghost before = string_views(acc@);
                acc.push(w);
                assert(string_views(acc@) =~= before.push(cur@));
            }
            cur = Vec::new();
            assert(cur@ =~= Seq::<char>::empty());
        } else {
            cur.push(s[i]);
        }
        i = i + 1;
    }
    assert(s@.skip(i as int) =~= Seq::<char>::empty());
    if cur.len() != 0 {
        let w = string_of(cur.as_slice());
        let ghost before = string_views(acc@);
        acc.push(w);
        assert(string_views(acc@) =~= before.push(cur@));
    }
    acc
}

/// A line without its trailing carriage return.
pub open spec fn strip_cr(line: Seq<char>) -> Seq<char> {
    if line.len() > 0 && line.last() == '\r' { line.drop_last() } else { line }
}

/// The lines of `s`, given the line read so far and the lines before it:
/// every newline ends a line, and a final line without one counts when it is
/// not empty.
pub open spec fn lines_acc(s: Seq<char>, cur: Seq<char>, acc: Seq<Seq<char>>) -> Seq<Seq<char>>
    decreases s.len(),
{
    if s.len() == 0 {
        if cur.len() == 0 { acc } else { acc.push(strip_cr(cur)) }
    } else if s[0] == '\n' {
        lines_acc(s.drop_first(), Seq::empty(), acc.push(strip_cr(cur)))
    } else {
        lines_acc(s.drop_first(), cur.push(s[0]), acc)
    }
}

/// The lines of a text, as the standard library's `lines` splits them.
pub open spec fn text_lines(s: Seq<char>) -> Seq<Seq<char>> {
    lines_acc(s, Seq::empty(), Seq::empty())
}

proof fn lemma_lines_step(s: Seq<char>, i: int, cur: Seq<char>, acc: Seq<Seq<char>>)
    requires
        0 <= i < s.len(),
    ensures
        lines_acc(s.skip(i), cur, acc) == if s[i] == '\n' {
            lines_acc(s.skip(i + 1), Seq::empty(), acc.push(strip_cr(cur)))
        } else {
            lines_acc(s.skip(i + 1), cur.push(s[i]), acc)
        },
{
    assert(s.skip(i).drop_first() =~= s.skip(i + 1));
    assert(s.skip(i)[0] == s[i]);
}

fn strip_cr_exec(cur: &Vec<char>) -> (r: String)
    ensures
        r@ == strip_cr(cur@),
{
    if cur.len() > 0 && cur[cur.len() - 1] == '\r' {
        let mut v: Vec<char> = Vec::new();
        let mut k: usize = 0;
        while k < cur.len() - 1
            invariant
                cur@.len() > 0,
                k <= cur@.len() - 1,
                v@ == cur@.subrange(0, k as int),
            decreases cur.len() - 1 - k,
        {
            v.push(cur[k]);
            k = k + 1;
        }
        assert(v@ =~= cur@.drop_last());
        string_of(v.as_slice())
    } else {
        string_of(cur.as_slice())
    }
}

/// The lines of a text.
pub fn split_lines(text: &str) -> (r: Vec<String>)
    ensures
        string_views(r@) == text_lines(text@),
{
    let s = chars_of(text);
    let mut acc: Vec<String> = Vec::new();
    let mut cur: Vec<char> = Vec::new();
    let mut i: usize = 0;
    assert(s@.skip(0) =~= s@);
    assert(string_views(acc@) =~= Seq::<Seq<char>>::empty());
    assert(cur@ =~= Seq::<char>::empty());
    while i < s.len()
        invariant
            s@ == text@,
            i <= s.len(),
            text_lines(text@) == lines_acc(s@.skip(i as int), cur@, string_views(acc@)),
        decreases s.len() - i,
    {
        proof {
            lemma_lines_step(s@, i as int, cur@, string_views(acc@));
        }
        if s[i] == '\n' {
            let line = strip_cr_exec(&cur);
            let ghost before = string_views(acc@);
            acc.push(line);
            assert(string_views(acc@) =~= before.push(strip_cr(cur@)));
            cur = Vec::new();
            assert(cur@ =~= Seq::<char>::empty());
        } else {
            cur.push(s[i]);
        }
        i = i + 1;
    }
    assert(s@.skip(i as int) =~= Seq::<char>::empty());
    if cur.len() != 0 {
        let line = strip_cr_exec(&cur);
        let ghost before = string_views(acc@);
        acc.push(line);
        assert(string_views(acc@) =~= before.push(strip_cr(cur@)));
    }
    acc
}

/// `t` occurs in `s` at `i`.
pub open spec fn occurs_at(s: Seq<char>, t: Seq<char>, i: int) -> bool {
    0 <= i && i + t.len() <= s.len() && s.subrange(i, i + t.len()) == t
}

/// The first position at which `t` occurs in `s`.
#[verifier::opaque]
pub open spec fn first_index(s: Seq<char>, t: Seq<char>) -> Option<int> {
    if exists|i: int| #[trigger] occurs_at(s, t, i) {
        Some(choose|i: int| #[trigger] occurs_at(s, t, i) && forall|j: int| 0 <= j < i ==> !occurs_at(s, t, j))
    } else {
        None
    }
}

/// The first position at which `t` occurs in the characters `s`.
pub fn find_first(s: &Vec<char>, t: &Vec<char>) -> (r: Option<usize>)
    ensures
        r matches Some(i) ==> first_index(s@, t@) == Some(i as int),
        r is None ==> first_index(s@, t@) is None,
{
    reveal(first_index);
    let n = s.len();
    let m = t.len();
    if m > n {
        proof {
            assert forall|i: int| !#[trigger] occurs_at(s@, t@, i) by {}
        }
        return None;
    }
    if m == 0 {
        proof {
            assert(s@.subrange(0, 0 + m as int) =~= t@);
            assert(occurs_at(s@, t@, 0));
            lemma_minimal_exists(s@, t@, 0);
            let c = choose|c: int| #[trigger] occurs_at(s@, t@, c) && forall|j: int| 0 <= j < c ==> !occurs_at(s@, t@, j);
            if c > 0 {
                assert(!occurs_at(s@, t@, 0));
            }
        }
        return Some(0);
    }
    let count: usize = n - m + 1;
    let mut i: usize = 0;
    while i < count
        invariant
            n == s@.len(),
            m == t@.len(),
            0 < m <= n,
            count == n - m + 1,
            i <= count,
            forall|k: int| 0 <= k < i ==> !#[trigger] occurs_at(s@, t@, k),
        decreases count - i,
    {
        let mut j: usize = 0;
        let mut same = true;
        while j < m
            invariant
                n == s@.len(),
                m == t@.len(),
                i + m <= n,
                j <= m,
                same == (forall|q: int| 0 <= q < j ==> s@[i + q] == t@[q]),
            decreases m - j,
        {
            if s[i + j] != t[j] {
                same = false;
            }
            j = j + 1;
        }
        if same {
            assert(s@.subrange(i as int, i + m) =~= t@);
            proof {
                assert(occurs_at(s@, t@, i as int));
                lemma_minimal_exists(s@, t@, i as int);
                let c = choose|c: int| #[trigger] occurs_at(s@, t@, c) && forall|j: int| 0 <= j < c ==> !occurs_at(s@, t@, j);
                assert(occurs_at(s@, t@, c));
                if c < i {
                    assert(!occurs_at(s@, t@, c));
                }
                if c > i {
                    assert(!occurs_at(s@, t@, i as int));
                }
                assert(c == i);
                reveal(first_index);
                assert(first_index(s@, t@) == Some(c));
            }
            return Some(i);
        }
        proof {
            let q = choose|q: int| 0 <= q < m && s@[i + q] != t@[q];
            assert(s@.subrange(i as int, i + m)[q] != t@[q]);
        }
        i = i + 1;
    }
    proof {
        assert forall|k: int| !#[trigger] occurs_at(s@, t@, k) by {
            if 0 <= k && k + m <= n {
                assert(k < count);
            }
        }
    }
    None
}

/// Characters `from..to` of `s` as a string.
pub fn slice_string(s: &Vec<char>, from: usize, to: usize) -> (r: String)
    requires
        from <= to <= s@.len(),
    ensures
        r@ == s@.subrange(from as int, to as int),
{
    let mut v: Vec<char> = Vec::new();
    let mut k: usize = from;
    while k < to
        invariant
            from <= k <= to <= s@.len(),
            v@ == s@.subrange(from as int, k as int),
        decreases to - k,
    {
        v.push(s[k]);
        k = k + 1;
    }
    string_of(v.as_slice())
}

/// `s` without leading whitespace.
pub open spec fn trim_start_seq(s: Seq<char>) -> Seq<char>
    decreases s.len(),
{
    if s.len() > 0 && is_space(s[0]) { trim_start_seq(s.drop_first()) } else { s }
}

/// `s` without trailing whitespace.
pub open spec fn trim_end_seq(s: Seq<char>) -> Seq<char>
    decreases s.len(),
{
    if s.len() > 0 && is_space(s.last()) { trim_end_seq(s.drop_last()) } else { s }
}

/// `s` without surrounding whitespace.
pub open spec fn trim_seq(s: Seq<char>) -> Seq<char> {
    trim_end_seq(trim_start_seq(s))
}

/// The text without surrounding whitespace.
pub fn trim(text: &str) -> (r: String)
    ensures
        r@ == trim_seq(text@),
{
    let s = chars_of(text);
    let mut a: usize = 0;
    assert(s@.subrange(0, s@.len() as int) =~= s@);
    while a < s.len() && is_space_char(s[a])
        invariant
            s@ == text@,
            a <= s@.len(),
            trim_start_seq(text@) == trim_start_seq(s@.subrange(a as int, s@.len() as int)),
        decreases s.len() - a,
    {
        assert(s@.subrange(a as int, s@.len() as int).drop_first() =~= s@.subrange(a + 1, s@.len() as int));
        a = a + 1;
    }
    let mut b: usize = s.len();
    assert(trim_start_seq(text@) == s@.subrange(a as int, s@.len() as int));
    while b > a && is_space_char(s[b - 1])
        invariant
            s@ == text@,
            a <= b <= s@.len(),
            trim_seq(text@) == trim_end_seq(s@.subrange(a as int, b as int)),
        decreases b - a,
    {
        assert(s@.subrange(a as int, b as int).drop_last() =~= s@.subrange(a as int, b - 1));
        b = b - 1;
    }
    slice_string(&s, a, b)
}

/// Some occurrence is the first one.
proof fn lemma_minimal_exists(s: Seq<char>, t: Seq<char>, w: int)
    requires
        occurs_at(s, t, w),
    ensures
        exists|i: int| #[trigger] occurs_at(s, t, i) && forall|j: int| 0 <= j < i ==> !occurs_at(s, t, j),
    decreases w,
{
    if exists|j: int| 0 <= j < w && occurs_at(s, t, j) {
        let j = choose|j: int| 0 <= j < w && occurs_at(s, t, j);
        lemma_minimal_exists(s, t, j);
    } else {
        assert(occurs_at(s, t, w) && forall|j: int| 0 <= j < w ==> !occurs_at(s, t, j));
    }
}

/// A first occurrence lies inside the text.
pub proof fn lemma_first_index_bound(s: Seq<char>, t: Seq<char>, i: int)
    requires
        first_index(s, t) == Some(i),
    ensures
        0 <= i && i + t.len() <= s.len(),
{
    reveal(first_index);
    let w = choose|k: int| #[trigger] occurs_at(s, t, k);
    lemma_minimal_exists(s, t, w);
}

} // verus!
