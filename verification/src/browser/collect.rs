//! Collection of the files that make up selected kinds of browser data.
//! Links are never followed and every inspection failure is reported.

use vstd::prelude::*;
use crate::browser::detection::BrowserFs;
use crate::browser::types::BrowserDataType;
use crate::pathname::{is_absolute, join, join_path, parent_path};
use crate::shredder::errors::ShredError;
use crate::shredder::journal::{is_valid_basename, valid_basename};
use crate::text::{seq_starts_with, str_eq};
use crate::scan::string_views;

verus! {

/// What a no-follow inspection of a path found.
#[derive(Debug, Clone, Copy, PartialEq, Eq, Structural)]
pub enum EntryKind {
    /// Nothing is there (or it vanished).
    Missing,
    /// A symbolic link, junction or other reparse point.
    Link,
    File,
    Directory,
    /// Anything else: devices, sockets, pipes.
    Other,
}

/// No-follow access to a profile's files. Nothing is assumed of what an
/// implementation returns.
pub trait ProfileFs {
    /// Inspects a path without following links; `Err` carries the failure text.
    fn inspect(&self, path: &str) -> Result<EntryKind, String>;
    /// The entry names of a directory; `Err` carries the failure text.
    fn list(&self, dir: &str) -> Result<Vec<String>, String>;
}

/// The deepest directory nesting collection walks into.
pub const MAX_COLLECTION_DEPTH: usize = 4096;

/// The error reported when browser data could not be inspected.
pub fn collection_error(path: &str, detail: String) -> (r: ShredError)
    ensures
        r == (ShredError::BrowserCollectionFailed { path: r->BrowserCollectionFailed_path, detail }),
        r->BrowserCollectionFailed_path@ == path@,
{
    ShredError::BrowserCollectionFailed { path: String::from_str(path), detail }
}

/// `p` lies textually below `dir`: it extends it.
pub open spec fn strictly_inside(p: Seq<char>, dir: Seq<char>) -> bool {
    seq_starts_with(p, dir) && p.len() > dir.len()
}

/// `new` keeps `old` and adds only paths that lie below `dir`.
pub open spec fn extends_within(old: Seq<String>, new: Seq<String>, dir: Seq<char>) -> bool {
    &&& old.len() <= new.len()
    &&& forall|i: int| 0 <= i < old.len() ==> new[i] == old[i]
    &&& forall|i: int| old.len() <= i < new.len() ==> strictly_inside((#[trigger] new[i])@, dir)
}

proof fn lemma_join_inside(dir: Seq<char>, name: Seq<char>)
    requires
        valid_basename(name),
    ensures
        strictly_inside(join_path(dir, name), dir),
{
    if name[0] == '/' {
        assert(name.contains('/'));
    }
    let j = join_path(dir, name);
    if dir.len() == 0 {
        assert(j.subrange(0, 0) =~= dir);
    } else if dir.last() == '/' {
        assert(j.subrange(0, dir.len() as int) =~= dir);
    } else {
        assert(j.subrange(0, dir.len() as int) =~= dir);
    }
}

proof fn lemma_inside_trans(p: Seq<char>, mid: Seq<char>, dir: Seq<char>)
    requires
        strictly_inside(p, mid),
        strictly_inside(mid, dir),
    ensures
        strictly_inside(p, dir),
{
    assert(p.subrange(0, dir.len() as int) =~= mid.subrange(0, dir.len() as int));
}

pub(crate) proof fn lemma_extends_trans(a: Seq<String>, b: Seq<String>, c: Seq<String>, dir: Seq<char>)
    requires
        extends_within(a, b, dir),
        extends_within(b, c, dir),
    ensures
        extends_within(a, c, dir),
{
    assert forall|i: int| a.len() <= i < c.len() implies strictly_inside((#[trigger] c[i])@, dir) by {
        if i < b.len() {
            assert(c[i] == b[i]);
        }
    }
}

proof fn lemma_extends_widen(a: Seq<String>, b: Seq<String>, inner: Seq<char>, dir: Seq<char>)
    requires
        extends_within(a, b, inner),
        strictly_inside(inner, dir),
    ensures
        extends_within(a, b, dir),
{
    assert forall|i: int| a.len() <= i < b.len() implies strictly_inside((#[trigger] b[i])@, dir) by {
        lemma_inside_trans(b[i]@, inner, dir);
    }
}

/// The prefix every path inside `dir` starts with: `dir` and a separator.
pub open spec fn dir_prefix(dir: Seq<char>) -> Seq<char> {
    join_path(dir, Seq::empty())
}

/// `p` lies inside the entry `x` of `dir`.
pub open spec fn under_entry(p: Seq<char>, dir: Seq<char>, x: Seq<char>) -> bool {
    seq_starts_with(p, dir_prefix(join_path(dir, x)))
}

/// Every path added after `old` lies inside `dir`, and none inside one of
/// its excluded entries.
pub open spec fn added_outside(old: Seq<String>, new: Seq<String>, dir: Seq<char>, exclude: Seq<Seq<char>>) -> bool {
    forall|j: int| old.len() <= j < new.len() ==> seq_starts_with((#[trigger] new[j])@, dir_prefix(dir))
        && forall|k: int| 0 <= k < exclude.len() ==> !under_entry(new[j]@, dir, #[trigger] exclude[k])
}

proof fn lemma_entry_path(dir: Seq<char>, name: Seq<char>)
    requires
        valid_basename(name),
    ensures
        join_path(dir, name) == dir_prefix(dir) + name,
        dir_prefix(join_path(dir, name)) == dir_prefix(dir) + name + seq!['/'],
{
    if name[0] == '/' {
        assert(name.contains('/'));
    }
    if name.last() == '/' {
        assert(name.contains('/'));
    }
    let j = join_path(dir, name);
    assert(j.last() == name.last());
}

/// A plain entry of `dir` lies inside `dir` and inside no other entry of it.
proof fn lemma_entry_outside(dir: Seq<char>, name: Seq<char>, x: Seq<char>)
    requires
        valid_basename(name),
        valid_basename(x),
    ensures
        seq_starts_with(join_path(dir, name), dir_prefix(dir)),
        !under_entry(join_path(dir, name), dir, x),
{
    lemma_entry_path(dir, name);
    lemma_entry_path(dir, x);
    let pre = dir_prefix(dir);
    let q = join_path(dir, name);
    assert(q.subrange(0, pre.len() as int) =~= pre);
    if under_entry(q, dir, x) {
        let a = pre.len() as int;
        let t = pre + x + seq!['/'];
        assert(q.subrange(0, t.len() as int)[a + x.len()] == t[a + x.len()]);
        assert(name[x.len() as int] == '/');
        assert(name.contains('/'));
    }
}

/// A path inside the entry `name` of `dir` lies inside `dir` and inside no
/// other entry of it.
proof fn lemma_inner_outside(q: Seq<char>, dir: Seq<char>, name: Seq<char>, x: Seq<char>)
    requires
        valid_basename(name),
        valid_basename(x),
        name != x,
        seq_starts_with(q, dir_prefix(join_path(dir, name))),
    ensures
        seq_starts_with(q, dir_prefix(dir)),
        !under_entry(q, dir, x),
{
    lemma_entry_path(dir, name);
    lemma_entry_path(dir, x);
    let pre = dir_prefix(dir);
    let a = pre.len() as int;
    let s = pre + name + seq!['/'];
    let t = pre + x + seq!['/'];
    assert(q.subrange(0, s.len() as int) =~= s);
    assert(q.subrange(0, a) =~= q.subrange(0, s.len() as int).subrange(0, a));
    assert(q.subrange(0, a) =~= pre);
    if under_entry(q, dir, x) {
        assert(q.subrange(0, t.len() as int) =~= t);
        if name.len() == x.len() {
            assert forall|i: int| 0 <= i < name.len() implies name[i] == x[i] by {
                assert(q.subrange(0, s.len() as int)[a + i] == s[a + i]);
                assert(q.subrange(0, t.len() as int)[a + i] == t[a + i]);
            }
            assert(name =~= x);
        } else if name.len() < x.len() {
            assert(q.subrange(0, s.len() as int)[a + name.len()] == s[a + name.len()]);
            assert(q.subrange(0, t.len() as int)[a + name.len()] == t[a + name.len()]);
            assert(x[name.len() as int] == '/');
            assert(x.contains('/'));
        } else {
            assert(q.subrange(0, s.len() as int)[a + x.len()] == s[a + x.len()]);
            assert(q.subrange(0, t.len() as int)[a + x.len()] == t[a + x.len()]);
            assert(name[x.len() as int] == '/');
            assert(name.contains('/'));
        }
    }
}

/// Collects every regular file below `dir` without following links,
/// skipping subdirectories named in `exclude` at any depth. A missing,
/// linked or non-directory `dir` gives nothing; any failed inspection or
/// listing, an entry that is not a plain name, or nesting beyond the limit
/// is an error.
fn collect_files_recursive<F: ProfileFs>(
    fs: &F,
    dir: &str,
    files: &mut Vec<String>,
    exclude: &Vec<&'static str>,
    depth: usize,
) -> (r: Result<(), ShredError>)
    requires
        forall|k: int| 0 <= k < exclude@.len() ==> valid_basename((#[trigger] exclude@[k])@),
    ensures
        extends_within(old(files)@, final(files)@, dir@),
        added_outside(old(files)@, final(files)@, dir@, name_texts(exclude@)),
        r matches Err(e) ==> e is BrowserCollectionFailed,
    decreases depth,
{
    match fs.inspect(dir) {
        Ok(EntryKind::Directory) => {},
        Ok(_) => return Ok(()),
        Err(e) => return Err(collection_error(dir, e)),
    }
    if depth == 0 {
        return Err(collection_error(dir, String::from_str("directory depth limit exceeded")));
    }
    let names = match fs.list(dir) {
        Ok(n) => n,
        Err(e) => return Err(collection_error(dir, e)),
    };
    let ghost start = files@;
    let mut i: usize = 0;
    while i < names.len()
        invariant
            i <= names@.len(),
            depth > 0,
            extends_within(start, files@, dir@),
            added_outside(start, files@, dir@, name_texts(exclude@)),
            forall|k: int| 0 <= k < exclude@.len() ==> valid_basename((#[trigger] exclude@[k])@),
            start == old(files)@,
        decreases names.len() - i,
    {
        let name = names[i].as_str();
        if !is_valid_basename(name) {
            return Err(collection_error(dir, String::from_str("directory entry is not a plain name")));
        }
        let path = join(dir, name);
        proof {
            lemma_join_inside(dir@, name@);
        }
        match fs.inspect(path.as_str()) {
            Ok(EntryKind::File) => {
                let ghost before = files@;
                files.push(path);
                assert(extends_within(before, files@, dir@));
                proof {
                    lemma_extends_trans(start, before, files@, dir@);
                    let texts = name_texts(exclude@);
                    assert forall|j: int| start.len() <= j < files@.len() implies seq_starts_with((#[trigger] files@[j])@,
                        dir_prefix(dir@)) && forall|k: int| 0 <= k < texts.len() ==> !under_entry(files@[j]@, dir@,
                        #[trigger] texts[k]) by {
                        if j < before.len() {
                            assert(files@[j] == before[j]);
                        } else {
                            assert forall|k: int| 0 <= k < texts.len() implies !under_entry(files@[j]@, dir@,
                                #[trigger] texts[k]) by {
                                assert(texts[k] == exclude@[k]@);
                                lemma_entry_outside(dir@, name@, texts[k]);
                            }
                            lemma_entry_outside(dir@, name@, name@);
                        }
                    }
                }
            },
            Ok(EntryKind::Directory) => {
                let mut excluded = false;
                let mut k: usize = 0;
                while k < exclude.len()
                    invariant
                        k <= exclude@.len(),
                        !excluded ==> forall|q: int| 0 <= q < k ==> (#[trigger] exclude@[q])@ != name@,
                    decreases exclude.len() - k,
                {
                    if str_eq(exclude[k], name) {
                        excluded = true;
                    }
                    k = k + 1;
                }
                if !excluded {
                    let ghost before = files@;
                    let result = collect_files_recursive(fs, path.as_str(), files, exclude, depth - 1);
                    proof {
                        lemma_extends_widen(before, files@, path@, dir@);
                        lemma_extends_trans(start, before, files@, dir@);
                        let texts = name_texts(exclude@);
                        assert forall|j: int| start.len() <= j < files@.len() implies seq_starts_with(
                            (#[trigger] files@[j])@, dir_prefix(dir@)) && forall|k: int| 0 <= k < texts.len()
                            ==> !under_entry(files@[j]@, dir@, #[trigger] texts[k]) by {
                            if j < before.len() {
                                assert(files@[j] == before[j]);
                            } else {
                                assert(seq_starts_with(files@[j]@, dir_prefix(path@)));
                                assert(valid_basename(name@));
                                assert(path@ == join_path(dir@, name@));
                                assert forall|k: int| 0 <= k < texts.len() implies !under_entry(files@[j]@, dir@,
                                    #[trigger] texts[k]) by {
                                    assert(texts[k] == exclude@[k]@);
                                    assert(exclude@[k]@ != name@);
                                    assert(valid_basename(exclude@[k]@));
                                    lemma_inner_outside(files@[j]@, dir@, name@, texts[k]);
                                }
                                lemma_entry_path(dir@, name@);
                                let pre = dir_prefix(dir@);
                                let s2 = dir_prefix(path@);
                                assert(s2 == pre + name@ + seq!['/']);
                                assert(s2.subrange(0, pre.len() as int) =~= pre);
                                assert(files@[j]@.subrange(0, pre.len() as int) =~= files@[j]@.subrange(0,
                                    s2.len() as int).subrange(0, pre.len() as int));
                                assert(seq_starts_with(files@[j]@, pre));
                            }
                        }
                    }
                    if let Err(e) = result {
                        return Err(e);
                    }
                }
            },
            Ok(_) => {},
            Err(e) => return Err(collection_error(path.as_str(), e)),
        }
        i = i + 1;
    }
    Ok(())
}

/// `p` is one of the named entries of the profile.
pub open spec fn named_in(p: Seq<char>, profile: Seq<char>, names: Seq<Seq<char>>) -> bool {
    exists|k: int| 0 <= k < names.len() && p == join_path(profile, #[trigger] names[k])
}

/// Every path added after `old` is one of the named entries of the profile.
pub open spec fn added_named(old: Seq<String>, new: Seq<String>, profile: Seq<char>, names: Seq<Seq<char>>) -> bool {
    forall|j: int| old.len() <= j < new.len() ==> named_in(#[trigger] new[j]@, profile, names)
}

/// Every path added after `old` lies below one of the named directories of
/// the profile.
pub open spec fn added_below_named(old: Seq<String>, new: Seq<String>, profile: Seq<char>, names: Seq<Seq<char>>) -> bool {
    forall|j: int| old.len() <= j < new.len() ==> exists|k: int| 0 <= k < names.len()
        && strictly_inside((#[trigger] new[j])@, join_path(profile, #[trigger] names[k]))
}

/// The cache directories.
pub open spec fn cache_dirs() -> Seq<Seq<char>> {
    seq!["Cache"@, "cache2"@, "Code Cache"@, "GPUCache"@, "OfflineCache"@]
}

/// The texts of a list of names.
pub open spec fn name_texts(names: Seq<&'static str>) -> Seq<Seq<char>> {
    names.map_values(|n: &'static str| n@)
}

/// The files that hold cookies.
pub open spec fn cookie_files() -> Seq<Seq<char>> {
    seq!["Cookies"@, "cookies.sqlite"@, "cookies.txt"@, "Network/Cookies"@, "Cookies-journal"@]
}

/// The files that hold browsing history.
pub open spec fn history_files() -> Seq<Seq<char>> {
    seq!["History"@, "History-journal"@, "places.sqlite"@, "places.sqlite-wal"@, "places.sqlite-shm"@, "Favicons"@]
}

/// The files that hold saved passwords.
pub open spec fn password_files() -> Seq<Seq<char>> {
    seq!["Login Data"@, "Login Data-journal"@, "logins.json"@, "signons.sqlite"@, "key4.db"@]
}

/// What a no-follow inspection answered; `None` when it failed.
pub open spec fn inspection_answer(r: Result<EntryKind, String>) -> Option<EntryKind> {
    match r {
        Ok(k) => Some(k),
        Err(_) => None,
    }
}

/// The named entries of the profile that the inspections found to be
/// regular files, in the order of the names.
pub open spec fn present_files(profile: Seq<char>, names: Seq<Seq<char>>, answers: Seq<Option<EntryKind>>) -> Seq<Seq<char>>
    decreases names.len(),
{
    if names.len() == 0 {
        Seq::empty()
    } else {
        let prev = present_files(profile, names.drop_last(), answers.drop_last());
        if answers.last() == Some(EntryKind::File) {
            prev.push(join_path(profile, names.last()))
        } else {
            prev
        }
    }
}

/// `p` is a named entry of the profile whose inspection answered "regular
/// file".
pub open spec fn answered_file(profile: Seq<char>, names: Seq<Seq<char>>, answers: Seq<Option<EntryKind>>, p: Seq<char>) -> bool {
    exists|k: int| 0 <= k < names.len() && answers[k] == Some(EntryKind::File) && p == join_path(profile, #[trigger] names[k])
}

/// Collection of named files is complete and sound: every named entry that
/// inspected as a regular file is collected, and everything collected is a
/// named entry that inspected as a regular file (a link, a directory, a
/// missing entry or a failed inspection never is).
pub proof fn lemma_present_files_complete(profile: Seq<char>, names: Seq<Seq<char>>, answers: Seq<Option<EntryKind>>)
    requires
        names.len() == answers.len(),
    ensures
        forall|k: int| 0 <= k < names.len() && answers[k] == Some(EntryKind::File)
            ==> #[trigger] present_files(profile, names, answers).contains(join_path(profile, names[k])),
        forall|j: int| 0 <= j < present_files(profile, names, answers).len()
            ==> answered_file(profile, names, answers, #[trigger] present_files(profile, names, answers)[j]),
        present_files(profile, names, answers).len() <= names.len(),
    decreases names.len(),
{
    if names.len() > 0 {
        let n = names.len() - 1;
        lemma_present_files_complete(profile, names.drop_last(), answers.drop_last());
        let prev = present_files(profile, names.drop_last(), answers.drop_last());
        let all = present_files(profile, names, answers);
        assert forall|k: int| 0 <= k < names.len() && answers[k] == Some(EntryKind::File)
            implies #[trigger] all.contains(join_path(profile, names[k])) by {
            if k < n {
                assert(names.drop_last()[k] == names[k]);
                assert(answers.drop_last()[k] == answers[k]);
                assert(prev.contains(join_path(profile, names.drop_last()[k])));
                let w = choose|w: int| 0 <= w < prev.len() && prev[w] == join_path(profile, names.drop_last()[k]);
                assert(all[w] == prev[w]);
            } else {
                assert(all[all.len() - 1] == join_path(profile, names[k]));
            }
        }
        assert forall|j: int| 0 <= j < all.len() implies answered_file(profile, names, answers, #[trigger] all[j]) by {
            if j < prev.len() {
                assert(all[j] == prev[j]);
                assert(answered_file(profile, names.drop_last(), answers.drop_last(), prev[j]));
                let k = choose|k: int| 0 <= k < names.drop_last().len()
                    && answers.drop_last()[k] == Some(EntryKind::File)
                    && prev[j] == join_path(profile, names.drop_last()[k]);
                assert(names.drop_last()[k] == names[k] && answers.drop_last()[k] == answers[k]);
                assert(0 <= k < names.len() && answers[k] == Some(EntryKind::File) && all[j] == join_path(profile, names[k]));
            } else {
                assert(answers[n] == Some(EntryKind::File));
                assert(all[j] == join_path(profile, names[n]));
            }
        }
    }
}

/// The paths a named-file collection inspects, in order.
pub open spec fn named_paths(profile: Seq<char>, names: Seq<Seq<char>>) -> Seq<Seq<char>> {
    Seq::new(names.len(), |k: int| join_path(profile, names[k]))
}

/// The answers of an inspection log.
pub open spec fn log_answers(log: Seq<(Seq<char>, Option<EntryKind>)>) -> Seq<Option<EntryKind>> {
    Seq::new(log.len(), |k: int| log[k].1)
}

/// The paths of an inspection log.
pub open spec fn log_paths(log: Seq<(Seq<char>, Option<EntryKind>)>) -> Seq<Seq<char>> {
    Seq::new(log.len(), |k: int| log[k].0)
}

/// Adds each named file of the profile that is a regular file, not a link,
/// with the inspections logged: each named entry is inspected once, in
/// order, and exactly those that inspected as regular files are added.
fn collect_named_files<F: ProfileFs>(
    fs: &F,
    profile: &str,
    names: &Vec<&'static str>,
    files: &mut Vec<String>,
    log: &mut Ghost<Seq<(Seq<char>, Option<EntryKind>)>>,
)
    requires
        forall|k: int| 0 <= k < names@.len() ==> !is_absolute((#[trigger] names@[k])@) && names@[k]@.len() > 0,
    ensures
        extends_within(old(files)@, final(files)@, profile@),
        added_named(old(files)@, final(files)@, profile@, name_texts(names@)),
        final(log)@.len() == old(log)@.len() + names@.len(),
        forall|i: int| 0 <= i < old(log)@.len() ==> #[trigger] final(log)@[i] == old(log)@[i],
        log_paths(final(log)@.skip(old(log)@.len() as int)) == named_paths(profile@, name_texts(names@)),
        string_views(final(files)@) == string_views(old(files)@) + present_files(profile@, name_texts(names@),
            log_answers(final(log)@.skip(old(log)@.len() as int))),
{
    let ghost start = files@;
    let ghost log0 = log@;
    let ghost texts = name_texts(names@);
    let mut i: usize = 0;
    assert(string_views(files@) =~= string_views(start) + present_files(profile@, texts.take(0),
        log_answers(log@.skip(log0.len() as int))));
    while i < names.len()
        invariant
            i <= names@.len(),
            forall|k: int| 0 <= k < names@.len() ==> !is_absolute((#[trigger] names@[k])@) && names@[k]@.len() > 0,
            extends_within(start, files@, profile@),
            start == old(files)@,
            added_named(start, files@, profile@, name_texts(names@)),
            texts == name_texts(names@),
            log0 == old(log)@,
            log@.len() == log0.len() + i,
            forall|k: int| 0 <= k < log0.len() ==> #[trigger] log@[k] == log0[k],
            log_paths(log@.skip(log0.len() as int)) == named_paths(profile@, texts.take(i as int)),
            string_views(files@) == string_views(start) + present_files(profile@, texts.take(i as int),
                log_answers(log@.skip(log0.len() as int))),
        decreases names.len() - i,
    {
        let path = join(profile, names[i]);
        proof {
            let n = names@[i as int]@;
            let j = join_path(profile@, n);
            if profile@.len() > 0 {
                assert(j.subrange(0, profile@.len() as int) =~= profile@);
            } else {
                assert(j.subrange(0, 0) =~= profile@);
            }
        }
        assert(path@ == join_path(profile@, names@[i as int]@));
        let answer = fs.inspect(path.as_str());
        let ghost views_before = string_views(files@);
        let ghost log_before = log@;
        *log = Ghost(log@.push((path@, inspection_answer(answer))));
        let ghost new_log = log@.skip(log0.len() as int);
        proof {
            assert(new_log =~= log_before.skip(log0.len() as int).push((path@, inspection_answer(answer))));
            assert(texts[i as int] == names@[i as int]@);
            assert forall|k: int| 0 <= k < i + 1 implies #[trigger] log_paths(new_log)[k] == named_paths(profile@, texts.take(i + 1))[k] by {
                if k < i {
                    assert(new_log[k] == log_before.skip(log0.len() as int)[k]);
                    assert(log_paths(log_before.skip(log0.len() as int))[k] == named_paths(profile@, texts.take(i as int))[k]);
                }
            }
            assert(log_paths(new_log) =~= named_paths(profile@, texts.take(i + 1)));
            assert(texts.take(i + 1).drop_last() =~= texts.take(i as int));
            assert(log_answers(new_log).drop_last() =~= log_answers(log_before.skip(log0.len() as int)));
            assert(texts.take(i + 1).last() == names@[i as int]@);
            assert(log_answers(new_log).last() == inspection_answer(answer));
        }
        if let Ok(EntryKind::File) = answer {
            let ghost before = files@;
            files.push(path);
            assert(name_texts(names@)[i as int] == names@[i as int]@);
            assert(named_in(files@[files@.len() - 1]@, profile@, name_texts(names@)));
            proof {
                lemma_extends_trans(start, before, files@, profile@);
                assert(string_views(files@) =~= views_before.push(join_path(profile@, names@[i as int]@)));
            }
        }
        proof {
            assert(string_views(files@) =~= string_views(start) + present_files(profile@, texts.take(i + 1),
                log_answers(new_log)));
        }
        i = i + 1;
    }
    assert(texts.take(names@.len() as int) =~= texts);
}

/// Adds each named subdirectory of the profile that is a real directory,
/// with everything below it.
fn collect_named_dirs<F: ProfileFs>(fs: &F, profile: &str, names: &Vec<&'static str>, files: &mut Vec<String>) -> (r: Result<(), ShredError>)
    requires
        forall|k: int| 0 <= k < names@.len() ==> valid_basename((#[trigger] names@[k])@),
    ensures
        extends_within(old(files)@, final(files)@, profile@),
        added_below_named(old(files)@, final(files)@, profile@, name_texts(names@)),
        r matches Err(e) ==> e is BrowserCollectionFailed,
{
    let ghost start = files@;
    let none: Vec<&'static str> = Vec::new();
    let mut i: usize = 0;
    while i < names.len()
        invariant
            i <= names@.len(),
            forall|k: int| 0 <= k < names@.len() ==> valid_basename((#[trigger] names@[k])@),
            extends_within(start, files@, profile@),
            added_below_named(start, files@, profile@, name_texts(names@)),
            start == old(files)@,
            none@.len() == 0,
        decreases names.len() - i,
    {
        let path = join(profile, names[i]);
        proof {
            lemma_join_inside(profile@, names@[i as int]@);
        }
        if let Ok(EntryKind::Directory) = fs.inspect(path.as_str()) {
            let ghost before = files@;
            let result = collect_files_recursive(fs, path.as_str(), files, &none, MAX_COLLECTION_DEPTH);
            proof {
                lemma_extends_widen(before, files@, path@, profile@);
                lemma_extends_trans(start, before, files@, profile@);
                let texts = name_texts(names@);
                assert(texts[i as int] == names@[i as int]@);
                assert forall|j: int| start.len() <= j < files@.len() implies exists|k: int| 0 <= k < texts.len()
                    && strictly_inside((#[trigger] files@[j])@, join_path(profile@, #[trigger] texts[k])) by {
                    if j < before.len() {
                        assert(files@[j] == before[j]);
                    } else {
                        assert(strictly_inside(files@[j]@, join_path(profile@, texts[i as int])));
                    }
                }
            }
            result?;
        }
        i = i + 1;
    }
    Ok(())
}

/// One run of named-file collection: the inspections appended to the log
/// are those of the named entries of the profile, one each and in order, and
/// the files added are exactly the named entries those inspections found to
/// be regular files, in the order of the names.
pub open spec fn named_collection(
    old_files: Seq<String>,
    new_files: Seq<String>,
    old_log: Seq<(Seq<char>, Option<EntryKind>)>,
    new_log: Seq<(Seq<char>, Option<EntryKind>)>,
    profile: Seq<char>,
    names: Seq<Seq<char>>,
) -> bool {
    &&& new_log.len() == old_log.len() + names.len()
    &&& forall|i: int| 0 <= i < old_log.len() ==> #[trigger] new_log[i] == old_log[i]
    &&& log_paths(new_log.skip(old_log.len() as int)) == named_paths(profile, names)
    &&& string_views(new_files) == string_views(old_files) + present_files(profile, names,
        log_answers(new_log.skip(old_log.len() as int)))
}

/// `p` is a named entry of the profile that the log of a run shows inspected,
/// at its place among the names, with the answer "regular file".
pub open spec fn logged_file(run: Seq<(Seq<char>, Option<EntryKind>)>, profile: Seq<char>, names: Seq<Seq<char>>, p: Seq<char>) -> bool {
    exists|k: int| 0 <= k < names.len() && run[k] == (join_path(profile, #[trigger] names[k]), Some(EntryKind::File))
        && p == join_path(profile, names[k])
}

/// Named-file collection misses nothing and adds nothing else: after one run,
/// the `k`-th named entry of the profile is among the collected files exactly
/// when its inspection in that run answered "regular file"; a link, a
/// directory, a missing entry or a failed inspection is never collected, and
/// the files held before stay first and unchanged.
pub proof fn lemma_named_collection_exact(
    old_files: Seq<String>,
    new_files: Seq<String>,
    old_log: Seq<(Seq<char>, Option<EntryKind>)>,
    new_log: Seq<(Seq<char>, Option<EntryKind>)>,
    profile: Seq<char>,
    names: Seq<Seq<char>>,
)
    requires
        named_collection(old_files, new_files, old_log, new_log, profile, names),
    ensures
        forall|k: int| 0 <= k < names.len() && #[trigger] new_log[old_log.len() + k].1 == Some(EntryKind::File)
            ==> string_views(new_files).subrange(old_files.len() as int, new_files.len() as int).contains(
                join_path(profile, names[k])),
        forall|j: int| old_files.len() <= j < new_files.len()
            ==> logged_file(new_log.skip(old_log.len() as int), profile, names, (#[trigger] new_files[j])@),
        forall|i: int| 0 <= i < old_files.len() ==> (#[trigger] new_files[i])@ == old_files[i]@,
        new_files.len() <= old_files.len() + names.len(),
{
    let tail = new_log.skip(old_log.len() as int);
    let answers = log_answers(tail);
    let added = present_files(profile, names, answers);
    lemma_present_files_complete(profile, names, answers);
    let views = string_views(new_files);
    assert(views.len() == new_files.len());
    assert(views.subrange(old_files.len() as int, new_files.len() as int) =~= added);
    assert forall|k: int| 0 <= k < names.len() && #[trigger] new_log[old_log.len() + k].1 == Some(EntryKind::File)
        implies views.subrange(old_files.len() as int, new_files.len() as int).contains(join_path(profile, names[k])) by {
        assert(answers[k] == tail[k].1);
        assert(tail[k] == new_log[old_log.len() + k]);
    }
    assert forall|j: int| old_files.len() <= j < new_files.len()
        implies logged_file(tail, profile, names, (#[trigger] new_files[j])@) by {
        let jj = j - old_files.len();
        assert(views[j] == added[jj]);
        assert(views[j] == new_files[j]@);
        assert(answered_file(profile, names, answers, added[jj]));
        let k = choose|k: int| 0 <= k < names.len() && answers[k] == Some(EntryKind::File)
            && added[jj] == join_path(profile, names[k]);
        assert(log_paths(tail)[k] == named_paths(profile, names)[k]);
        assert(answers[k] == tail[k].1);
        assert(tail[k] == (join_path(profile, names[k]), Some(EntryKind::File)));
    }
    assert forall|i: int| 0 <= i < old_files.len() implies (#[trigger] new_files[i])@ == old_files[i]@ by {
        assert(views[i] == string_views(old_files)[i]);
    }
}

/// Adds the files of one kind of browser data, with every inspection of a
/// named file logged; see `collect_browser_data_files`. For the cookie,
/// history and password kinds each named file of the kind is inspected once,
/// in order, and exactly those that inspected as regular files are added;
/// the other kinds log nothing.
pub fn collect_browser_data_files_logged<F: ProfileFs>(
    fs: &F,
    profile_path: &str,
    data_type: BrowserDataType,
    files: &mut Vec<String>,
    log: &mut Ghost<Seq<(Seq<char>, Option<EntryKind>)>>,
) -> (r: Result<(), ShredError>)
    ensures
        extends_within(old(files)@, final(files)@, profile_path@),
        (data_type == BrowserDataType::Cookies || data_type == BrowserDataType::History
            || data_type == BrowserDataType::Passwords) ==> r is Ok,
        data_type == BrowserDataType::Cookies ==> named_collection(old(files)@, final(files)@, old(log)@, final(log)@,
            profile_path@, cookie_files()),
        data_type == BrowserDataType::History ==> named_collection(old(files)@, final(files)@, old(log)@, final(log)@,
            profile_path@, history_files()),
        data_type == BrowserDataType::Passwords ==> named_collection(old(files)@, final(files)@, old(log)@, final(log)@,
            profile_path@, password_files()),
        !(data_type == BrowserDataType::Cookies || data_type == BrowserDataType::History
            || data_type == BrowserDataType::Passwords) ==> final(log)@ == old(log)@,
        data_type == BrowserDataType::Cookies ==> added_named(old(files)@, final(files)@, profile_path@, cookie_files()),
        data_type == BrowserDataType::History ==> added_named(old(files)@, final(files)@, profile_path@, history_files()),
        data_type == BrowserDataType::Passwords ==> added_named(old(files)@, final(files)@, profile_path@, password_files()),
        data_type == BrowserDataType::Cache ==> added_below_named(old(files)@, final(files)@, profile_path@, cache_dirs()),
        data_type == BrowserDataType::Extensions ==> added_below_named(old(files)@, final(files)@, profile_path@,
            seq!["Extensions"@]),
        data_type == BrowserDataType::Profile ==> added_outside(old(files)@, final(files)@, profile_path@,
            seq!["Extensions"@]),
        r matches Err(e) ==> e is BrowserCollectionFailed,
{
    match data_type {
        BrowserDataType::Cache => {
            let dirs = vec!["Cache", "cache2", "Code Cache", "GPUCache", "OfflineCache"];
            proof {
                reveal_strlit("Cache");
                reveal_strlit("cache2");
                reveal_strlit("Code Cache");
                reveal_strlit("GPUCache");
                reveal_strlit("OfflineCache");
            }
            assert(name_texts(dirs@) =~= cache_dirs());
            collect_named_dirs(fs, profile_path, &dirs, files)
        },
        BrowserDataType::Cookies => {
            let names = vec!["Cookies", "cookies.sqlite", "cookies.txt", "Network/Cookies", "Cookies-journal"];
            proof {
                reveal_strlit("Cookies");
                reveal_strlit("cookies.sqlite");
                reveal_strlit("cookies.txt");
                reveal_strlit("Network/Cookies");
                reveal_strlit("Cookies-journal");
            }
            assert(name_texts(names@) =~= cookie_files());
            collect_named_files(fs, profile_path, &names, files, log);
            Ok(())
        },
        BrowserDataType::History => {
            let names = vec!["History", "History-journal", "places.sqlite", "places.sqlite-wal", "places.sqlite-shm", "Favicons"];
            proof {
                reveal_strlit("History");
                reveal_strlit("History-journal");
                reveal_strlit("places.sqlite");
                reveal_strlit("places.sqlite-wal");
                reveal_strlit("places.sqlite-shm");
                reveal_strlit("Favicons");
            }
            assert(name_texts(names@) =~= history_files());
            collect_named_files(fs, profile_path, &names, files, log);
            Ok(())
        },
        BrowserDataType::Passwords => {
            let names = vec!["Login Data", "Login Data-journal", "logins.json", "signons.sqlite", "key4.db"];
            proof {
                reveal_strlit("Login Data");
                reveal_strlit("Login Data-journal");
                reveal_strlit("logins.json");
                reveal_strlit("signons.sqlite");
                reveal_strlit("key4.db");
            }
            assert(name_texts(names@) =~= password_files());
            collect_named_files(fs, profile_path, &names, files, log);
            Ok(())
        },
        BrowserDataType::Extensions => {
            let dirs = vec!["Extensions"];
            proof {
                reveal_strlit("Extensions");
            }
            assert(name_texts(dirs@) =~= seq!["Extensions"@]);
            collect_named_dirs(fs, profile_path, &dirs, files)
        },
        BrowserDataType::Profile => {
            let exclude = vec!["Extensions"];
            proof {
                reveal_strlit("Extensions");
                assert(valid_basename(exclude@[0]@));
                assert(name_texts(exclude@) =~= seq!["Extensions"@]);
            }
            collect_files_recursive(fs, profile_path, files, &exclude, MAX_COLLECTION_DEPTH)
        },
    }
}


/// Adds the files of one kind of browser data: the cache directories, the
/// cookie, history or password files, the extensions directory, or the whole
/// profile without its extensions. Nothing outside the profile is ever added:
/// named files are added only under their names, directory kinds only below
/// their directories, and the whole profile never inside its `Extensions`.
/// For the named kinds, the files added are those of one run of inspections
/// of the named entries (see `named_collection`).
pub fn collect_browser_data_files<F: ProfileFs>(
    fs: &F,
    profile_path: &str,
    data_type: BrowserDataType,
    files: &mut Vec<String>,
) -> (r: Result<(), ShredError>)
    ensures
        extends_within(old(files)@, final(files)@, profile_path@),
        (data_type == BrowserDataType::Cookies || data_type == BrowserDataType::History
            || data_type == BrowserDataType::Passwords) ==> r is Ok,
        data_type == BrowserDataType::Cookies ==> exists|run: Seq<(Seq<char>, Option<EntryKind>)>|
            named_collection(old(files)@, final(files)@, Seq::empty(), run, profile_path@, cookie_files()),
        data_type == BrowserDataType::History ==> exists|run: Seq<(Seq<char>, Option<EntryKind>)>|
            named_collection(old(files)@, final(files)@, Seq::empty(), run, profile_path@, history_files()),
        data_type == BrowserDataType::Passwords ==> exists|run: Seq<(Seq<char>, Option<EntryKind>)>|
            named_collection(old(files)@, final(files)@, Seq::empty(), run, profile_path@, password_files()),
        data_type == BrowserDataType::Cookies ==> added_named(old(files)@, final(files)@, profile_path@, cookie_files()),
        data_type == BrowserDataType::History ==> added_named(old(files)@, final(files)@, profile_path@, history_files()),
        data_type == BrowserDataType::Passwords ==> added_named(old(files)@, final(files)@, profile_path@, password_files()),
        data_type == BrowserDataType::Cache ==> added_below_named(old(files)@, final(files)@, profile_path@, cache_dirs()),
        data_type == BrowserDataType::Extensions ==> added_below_named(old(files)@, final(files)@, profile_path@,
            seq!["Extensions"@]),
        data_type == BrowserDataType::Profile ==> added_outside(old(files)@, final(files)@, profile_path@,
            seq!["Extensions"@]),
        r matches Err(e) ==> e is BrowserCollectionFailed,
{
    let mut run: Ghost<Seq<(Seq<char>, Option<EntryKind>)>> = Ghost(Seq::empty());
    let r = collect_browser_data_files_logged(fs, profile_path, data_type, files, &mut run);
    r
}

/// The lock files whose presence shows a browser running: three names in the
/// profile and one in its parent.
pub fn lock_file_candidates(profile_path: &str) -> (r: Vec<String>)
    ensures
        r@.len() >= 3,
        r@[0]@ == join_path(profile_path@, "SingletonLock"@),
        r@[1]@ == join_path(profile_path@, "lock"@),
        r@[2]@ == join_path(profile_path@, ".parentlock"@),
{
    let mut out: Vec<String> = Vec::new();
    out.push(join(profile_path, "SingletonLock"));
    out.push(join(profile_path, "lock"));
    out.push(join(profile_path, ".parentlock"));
    if let Some(parent) = parent_path(profile_path) {
        out.push(join(parent.as_str(), "SingletonLock"));
    }
    out
}

/// Whether any lock file of the profile exists.
pub fn check_browser_lock_file<F: BrowserFs>(fs: &F, profile_path: &str) -> bool {
    let candidates = lock_file_candidates(profile_path);
    let mut i: usize = 0;
    while i < candidates.len()
        invariant
            i <= candidates@.len(),
        decreases candidates.len() - i,
    {
        if fs.path_exists(candidates[i].as_str()) {
            return true;
        }
        i = i + 1;
    }
    false
}

} // verus!
