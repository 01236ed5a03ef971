//! Decisions of browser data cleanup: which files a request covers, and
//! whether they may be destroyed.

use vstd::prelude::*;
use crate::browser::collect::{collect_browser_data_files, extends_within, lemma_extends_trans, strictly_inside, ProfileFs};
use crate::browser::types::{BrowserRunningStatus, BrowserShredRequest};
use crate::shredder::errors::ShredError;
use crate::shredder::root_execution::types::{ExecuteRootRequest, ExecuteRootsRequest, TargetKind};
use crate::text::{cat, cat3, decimal, owned, u64_to_string};

verus! {

/// Every data kind of the request, collected in order; nothing outside the
/// profile is ever listed. The first failed inspection stops collection.
pub fn collect_request_files<F: ProfileFs>(fs: &F, request: &BrowserShredRequest) -> (r: Result<Vec<String>, ShredError>)
    ensures
        r matches Ok(files) ==> forall|i: int| 0 <= i < files@.len() ==> strictly_inside((#[trigger] files@[i])@, request.profile_path@),
        request.data_types@.len() == 0 ==> (r matches Ok(files) && files@.len() == 0),
        r matches Err(e) ==> e is BrowserCollectionFailed,
{
    let mut files: Vec<String> = Vec::new();
    let mut i: usize = 0;
    while i < request.data_types.len()
        invariant
            i <= request.data_types@.len(),
            extends_within(Seq::empty(), files@, request.profile_path@),
            i == 0 ==> files@.len() == 0,
        decreases request.data_types.len() - i,
    {
        let ghost before = files@;
        let kind = request.data_types[i];
        collect_browser_data_files(fs, request.profile_path.as_str(), kind, &mut files)?;
        proof {
            lemma_extends_trans(Seq::empty(), before, files@, request.profile_path@);
        }
        i = i + 1;
    }
    Ok(files)
}

/// The message when a browser that is not closed would lose its data.
pub open spec fn not_closed_message(name: Seq<char>) -> Seq<char> {
    "Browser "@ + name + " must be closed before its data is destroyed."@
}

/// The message when a request covers no file.
pub open spec fn no_files_message() -> Seq<char> {
    "No browser data files found to shred"@
}

/// The identity of the root made for the `i`-th collected file.
pub open spec fn browser_root_id(i: nat) -> Seq<char> {
    "browser-"@ + decimal(i)
}

/// The deletion roots of a cleanup: only a browser known to be closed may
/// lose its data, and at least one file must have been collected; each file
/// becomes a file root of its own, in order.
pub fn browser_cleanup_roots(browser_name: &str, status: BrowserRunningStatus, files: Vec<String>) -> (r: Result<ExecuteRootsRequest, String>)
    ensures
        status != BrowserRunningStatus::Closed ==> (r matches Err(m) && m@ == not_closed_message(browser_name@)),
        status == BrowserRunningStatus::Closed && files@.len() == 0 ==> (r matches Err(m) && m@ == no_files_message()),
        status == BrowserRunningStatus::Closed && files@.len() > 0 ==> (r matches Ok(q) && q.roots@.len() == files@.len()
            && forall|i: int| 0 <= i < files@.len() ==> (#[trigger] q.roots@[i]).path@ == files@[i]@
                && q.roots@[i].kind == TargetKind::File && q.roots@[i].target_id@ == browser_root_id(i as nat)),
{
    if status != BrowserRunningStatus::Closed {
        return Err(cat3("Browser ", browser_name, " must be closed before its data is destroyed."));
    }
    if files.len() == 0 {
        return Err(owned("No browser data files found to shred"));
    }
    let mut roots: Vec<ExecuteRootRequest> = Vec::new();
    let mut i: usize = 0;
    while i < files.len()
        invariant
            i <= files@.len(),
            roots@.len() == i,
            forall|k: int| 0 <= k < i ==> (#[trigger] roots@[k]).path@ == files@[k]@
                && roots@[k].kind == TargetKind::File && roots@[k].target_id@ == browser_root_id(k as nat),
        decreases files.len() - i,
    {
        let n = u64_to_string(i as u64);
        roots.push(ExecuteRootRequest { target_id: cat("browser-", n.as_str()), path: owned(files[i].as_str()), kind: TargetKind::File });
        i = i + 1;
    }
    Ok(ExecuteRootsRequest { roots })
}

/// A cleanup request turned into deletion roots: a browser that is not
/// known to be closed is refused before any of its files is looked at;
/// otherwise the request's files are collected (a failed inspection is
/// refused with its message) and each becomes a file root.
pub fn plan_browser_cleanup<F: ProfileFs>(
    fs: &F,
    request: &BrowserShredRequest,
    status: BrowserRunningStatus,
) -> (r: Result<ExecuteRootsRequest, String>)
    ensures
        status != BrowserRunningStatus::Closed ==> (r matches Err(m) && m@ == not_closed_message(request.browser_name@)),
        r matches Ok(q) ==> status == BrowserRunningStatus::Closed && q.roots@.len() > 0
            && forall|i: int| 0 <= i < q.roots@.len() ==> strictly_inside((#[trigger] q.roots@[i]).path@,
                request.profile_path@) && q.roots@[i].kind == TargetKind::File
                && q.roots@[i].target_id@ == browser_root_id(i as nat),
        status == BrowserRunningStatus::Closed && request.data_types@.len() == 0 ==> (r matches Err(m)
            && m@ == no_files_message()),
{
    if status != BrowserRunningStatus::Closed {
        return browser_cleanup_roots(request.browser_name.as_str(), status, Vec::new());
    }
    let files = match collect_request_files(fs, request) {
        Ok(f) => f,
        Err(e) => return Err(e.message()),
    };
    let ghost collected = files@;
    let r = browser_cleanup_roots(request.browser_name.as_str(), status, files);
    proof {
        if r is Ok {
            assert forall|i: int| 0 <= i < r->Ok_0.roots@.len() implies strictly_inside(
                (#[trigger] r->Ok_0.roots@[i]).path@, request.profile_path@) by {
                assert(r->Ok_0.roots@[i].path@ == collected[i]@);
            }
        }
    }
    r
}

} // verus!
