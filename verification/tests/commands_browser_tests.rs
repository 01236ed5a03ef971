use knockknock::browser::collect::{EntryKind, ProfileFs};
use knockknock::browser::{BrowserDataType, BrowserRunningStatus, BrowserShredRequest};
use knockknock::commands::browser::{browser_cleanup_roots, collect_request_files, plan_browser_cleanup};
use knockknock::shredder::root_execution::types::TargetKind;
use knockknock::shredder::types::{DeletionMethod, WriteCheck};

struct Profile;

impl ProfileFs for Profile {
    fn inspect(&self, path: &str) -> Result<EntryKind, String> {
        Ok(match path {
            "/p/Cookies" | "/p/History" | "/p/Cache/a" => EntryKind::File,
            "/p/Cache" => EntryKind::Directory,
            _ => EntryKind::Missing,
        })
    }
    fn list(&self, dir: &str) -> Result<Vec<String>, String> {
        match dir {
            "/p/Cache" => Ok(vec!["a".to_string()]),
            _ => Ok(vec![]),
        }
    }
}

fn request(types: Vec<BrowserDataType>) -> BrowserShredRequest {
    BrowserShredRequest {
        browser_id: "chrome".to_string(),
        browser_name: "Chrome".to_string(),
        profile_path: "/p".to_string(),
        data_types: types,
        method: DeletionMethod::Automatic,
        write_check: WriteCheck::Off,
    }
}

#[test]
fn requested_kinds_are_collected_in_order() {
    let files = collect_request_files(
        &Profile,
        &request(vec![BrowserDataType::History, BrowserDataType::Cookies, BrowserDataType::Cache]),
    )
    .unwrap();
    assert_eq!(files, vec!["/p/History", "/p/Cookies", "/p/Cache/a"]);
}

#[test]
fn only_a_closed_browser_loses_its_data() {
    assert_eq!(
        browser_cleanup_roots("Chrome", BrowserRunningStatus::Running, vec!["/p/Cookies".to_string()]).unwrap_err(),
        "Browser Chrome must be closed before its data is destroyed."
    );
    assert!(browser_cleanup_roots("Chrome", BrowserRunningStatus::Unknown, vec!["/p/Cookies".to_string()]).is_err());
    assert_eq!(
        browser_cleanup_roots("Chrome", BrowserRunningStatus::Closed, vec![]).unwrap_err(),
        "No browser data files found to shred"
    );
    let roots = browser_cleanup_roots(
        "Chrome",
        BrowserRunningStatus::Closed,
        vec!["/p/Cookies".to_string(), "/p/History".to_string()],
    )
    .unwrap();
    assert_eq!(roots.roots.len(), 2);
    assert_eq!(roots.roots[1].target_id, "browser-1");
    assert_eq!(roots.roots[1].path, "/p/History");
    assert_eq!(roots.roots[1].kind, TargetKind::File);
}

struct Untouchable;

impl ProfileFs for Untouchable {
    fn inspect(&self, path: &str) -> Result<EntryKind, String> {
        panic!("inspected {path} of a browser that is not closed")
    }
    fn list(&self, dir: &str) -> Result<Vec<String>, String> {
        panic!("listed {dir} of a browser that is not closed")
    }
}

#[test]
fn a_cleanup_plan_looks_at_files_only_of_a_closed_browser() {
    let req = request(vec![BrowserDataType::Cookies, BrowserDataType::History]);
    assert_eq!(
        plan_browser_cleanup(&Untouchable, &req, BrowserRunningStatus::Running).unwrap_err(),
        "Browser Chrome must be closed before its data is destroyed."
    );
    assert!(plan_browser_cleanup(&Untouchable, &req, BrowserRunningStatus::Unknown).is_err());
    let plan = plan_browser_cleanup(&Profile, &req, BrowserRunningStatus::Closed).unwrap();
    let paths: Vec<&str> = plan.roots.iter().map(|r| r.path.as_str()).collect();
    assert_eq!(paths, vec!["/p/Cookies", "/p/History"]);
    assert_eq!(plan.roots[0].target_id, "browser-0");
    assert_eq!(
        plan_browser_cleanup(&Profile, &request(vec![]), BrowserRunningStatus::Closed).unwrap_err(),
        "No browser data files found to shred"
    );
}
