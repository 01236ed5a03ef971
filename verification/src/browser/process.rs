//! Process-listing rules for the running-browser check.

use vstd::prelude::*;
use crate::text::{cat3, seq_contains_seq, str_contains, to_lower, lower_seq};

verus! {

/// A process that holds a file.
#[derive(Debug, Clone)]
pub struct ProcessInfo {
    pub pid: u32,
    pub name: String,
}

/// A process-listing command: the program and its arguments.
#[derive(Debug, Clone)]
pub struct ProcessQuery {
    pub program: String,
    pub args: Vec<String>,
}

/// The listing command that finds a browser's processes: `tasklist` filtered
/// by image name on Windows, `pgrep -f` elsewhere.
pub fn running_query(browser_name: &str, windows: bool) -> (r: ProcessQuery)
    ensures
        windows ==> r.program@ == "tasklist"@ && r.args@.len() == 3 && r.args@[0]@ == "/FI"@
            && r.args@[1]@ == "IMAGENAME eq "@ + lower_seq(browser_name@) + ".exe"@ && r.args@[2]@ == "/NH"@,
        !windows ==> r.program@ == "pgrep"@ && r.args@.len() == 2 && r.args@[0]@ == "-f"@
            && r.args@[1]@ == browser_name@,
{
    let mut args: Vec<String> = Vec::new();
    if windows {
        let lower = to_lower(browser_name);
        args.push(String::from_str("/FI"));
        args.push(cat3("IMAGENAME eq ", lower.as_str(), ".exe"));
        args.push(String::from_str("/NH"));
        ProcessQuery { program: String::from_str("tasklist"), args }
    } else {
        args.push(String::from_str("-f"));
        args.push(String::from_str(browser_name));
        ProcessQuery { program: String::from_str("pgrep"), args }
    }
}

/// Whether a listing shows the browser running: a listing that could not be
/// produced shows nothing; on Windows any listing other than the "no tasks"
/// notice shows it running, elsewhere any output does.
pub fn is_browser_running(listing: Option<&str>, windows: bool) -> (r: bool)
    ensures
        listing is None ==> !r,
        listing matches Some(out) ==> (r == if windows {
            !seq_contains_seq(out@, "No tasks are running"@)
        } else {
            out@.len() > 0
        }),
{
    match listing {
        None => false,
        Some(out) => {
            if windows {
                !str_contains(out, "No tasks are running")
            } else {
                out.unicode_len() > 0
            }
        },
    }
}

/// The processes holding a file lock. No platform query is implemented, so
/// the list is always empty.
pub fn get_locking_processes(path: &str) -> (r: Vec<ProcessInfo>)
    ensures
        r@.len() == 0,
{
    Vec::new()
}

} // verus!
