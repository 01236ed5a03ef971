use std::collections::{BTreeMap, BTreeSet};

use knockknock::browser::collect::{collect_browser_data_files, lock_file_candidates, EntryKind, ProfileFs};
use knockknock::browser::detection::{browser_icon, data_types_from, detect_browsers, detect_data_types, profile_id, BrowserFs};
use knockknock::browser::paths::{
    browser_by_id, browser_running_state, find_browser_profiles, get_browser_base_paths, lock_candidates,
    windows_base_paths_for_roots, BrowserEnv, BrowserRunningDetection, LockProbe, ProfileLayout,
    WindowsRootPreference,
};
use knockknock::browser::process::{get_locking_processes, is_browser_running, running_query};
use knockknock::browser::{BrowserDataType, BrowserRunningStatus};
use knockknock::shredder::ShredError;

/// Directories and files by path; sizes are per directory.
#[derive(Default)]
struct Tree {
    dirs: BTreeSet<String>,
    files: BTreeSet<String>,
    links: BTreeSet<String>,
}

impl Tree {
    fn dir(&mut self, p: &str) {
        let mut acc = String::new();
        for part in p.split('/').filter(|s| !s.is_empty()) {
            acc.push('/');
            acc.push_str(part);
            self.dirs.insert(acc.clone());
        }
    }
    fn file(&mut self, p: &str) {
        let (d, _) = p.rsplit_once('/').unwrap();
        self.dir(d);
        self.files.insert(p.to_string());
    }
    fn children(&self, dir: &str) -> Vec<String> {
        let prefix = format!("{dir}/");
        let mut out: Vec<String> = self
            .dirs
            .iter()
            .chain(self.files.iter())
            .chain(self.links.iter())
            .filter_map(|p| p.strip_prefix(&prefix))
            .filter(|rest| !rest.contains('/'))
            .map(str::to_string)
            .collect();
        out.sort();
        out.dedup();
        out
    }
}

impl BrowserFs for Tree {
    fn path_exists(&self, path: &str) -> bool {
        self.dirs.contains(path) || self.files.contains(path)
    }
    fn real_subdirectories(&self, dir: &str) -> Option<Vec<String>> {
        if !self.dirs.contains(dir) {
            return None;
        }
        Some(self.children(dir).into_iter().filter(|c| self.dirs.contains(&format!("{dir}/{c}"))).collect())
    }
    fn directory_size(&self, _dir: &str) -> u64 {
        42
    }
}

impl ProfileFs for Tree {
    fn inspect(&self, path: &str) -> Result<EntryKind, String> {
        Ok(if self.links.contains(path) {
            EntryKind::Link
        } else if self.dirs.contains(path) {
            EntryKind::Directory
        } else if self.files.contains(path) {
            EntryKind::File
        } else {
            EntryKind::Missing
        })
    }
    fn list(&self, dir: &str) -> Result<Vec<String>, String> {
        Ok(self.children(dir))
    }
}

fn linux_env() -> BrowserEnv {
    BrowserEnv { local_app_data: None, app_data: None, home: Some("/home/u".to_string()), xdg_config_home: None }
}

#[test]
fn firefox_windows_root_preference_orders_appdata_first() {
    let firefox = browser_by_id("firefox").expect("Firefox browser configuration");
    assert_eq!(firefox.windows_root_preference, WindowsRootPreference::AppDataFirst);
    let bases = windows_base_paths_for_roots(&firefox, Some("/local"), Some("/roaming"));
    assert_eq!(bases, vec!["/roaming/Mozilla\\Firefox".to_string(), "/local/Mozilla\\Firefox".to_string()]);
    assert!(matches!(firefox.profile_layout, ProfileLayout::Subdirectory("Profiles")));
}

#[test]
fn chrome_windows_root_preference_orders_local_app_data_first() {
    let chrome = browser_by_id("chrome").expect("Chrome browser configuration");
    assert_eq!(chrome.windows_root_preference, WindowsRootPreference::LocalAppDataFirst);
    let bases = windows_base_paths_for_roots(&chrome, Some("/local"), Some("/roaming"));
    assert_eq!(
        bases,
        vec![
            "/local/Google\\Chrome\\User Data",
            "/roaming/Google\\Chrome\\User Data",
            "/local/Google\\Chrome Beta\\User Data",
            "/roaming/Google\\Chrome Beta\\User Data",
            "/local/Google\\Chrome SxS\\User Data",
            "/roaming/Google\\Chrome SxS\\User Data",
        ]
    );
}

#[test]
fn firefox_profiles_are_direct_children_on_linux_and_under_profiles_elsewhere() {
    let firefox = browser_by_id("firefox").unwrap();
    let names = vec!["abc.default-release".to_string(), "junk".to_string()];
    assert_eq!(
        find_browser_profiles("/b", &firefox, true, Some(names.clone())),
        vec!["/b/abc.default-release".to_string()]
    );
    assert_eq!(
        find_browser_profiles("/b", &firefox, false, Some(names)),
        vec!["/b/Profiles/abc.default-release".to_string()]
    );
    assert!(find_browser_profiles("/b", &firefox, false, None).is_empty());
}

#[test]
fn a_chromium_base_without_profile_directories_is_its_own_profile() {
    let chrome = browser_by_id("chrome").unwrap();
    assert_eq!(find_browser_profiles("/b", &chrome, true, Some(vec![])), vec!["/b".to_string()]);
    assert_eq!(
        find_browser_profiles("/b", &chrome, true, Some(vec!["Default".to_string(), "Profile 2".to_string(), "Crashpad".to_string()])),
        vec!["/b/Default".to_string(), "/b/Profile 2".to_string()]
    );
}

#[test]
fn linux_base_paths_follow_home_and_config() {
    let firefox = browser_by_id("firefox").unwrap();
    assert_eq!(
        get_browser_base_paths(&firefox, &linux_env()),
        vec!["/home/u/Library/Application Support/Firefox".to_string(), "/home/u/.mozilla/firefox".to_string()]
    );
    let chrome = browser_by_id("chrome").unwrap();
    let env = BrowserEnv { xdg_config_home: Some("/cfg".to_string()), ..linux_env() };
    assert!(get_browser_base_paths(&chrome, &env).contains(&"/cfg/google-chrome".to_string()));
}

#[test]
fn installed_browsers_are_detected_with_their_profiles() {
    let mut tree = Tree::default();
    tree.dir("/home/u/.config/google-chrome/Default");
    tree.dir("/home/u/.config/google-chrome/Profile 1");
    tree.dir("/home/u/.mozilla/firefox/x1.default-release");
    let browsers = detect_browsers(&tree, &linux_env(), true);
    let names: Vec<&str> = browsers.iter().map(|b| b.name.as_str()).collect();
    assert_eq!(names, vec!["Chrome", "Firefox"]);
    let chrome = &browsers[0];
    assert_eq!(chrome.id, "chrome");
    assert_eq!(chrome.icon, "GoogleChrome");
    assert_eq!(chrome.running_state, BrowserRunningStatus::Unknown);
    assert_eq!(chrome.profiles.len(), 2);
    assert_eq!(chrome.profiles[1].id, "chrome-profile-1");
    assert_eq!(chrome.profiles[1].size, 42);
    assert!(chrome.profiles.iter().all(|p| !p.selected));
}

#[test]
fn data_types_follow_marker_files() {
    let mut tree = Tree::default();
    tree.dir("/p/Cache");
    tree.file("/p/places.sqlite");
    assert_eq!(
        detect_data_types(&tree, "/p"),
        vec![BrowserDataType::Profile, BrowserDataType::Cache, BrowserDataType::History]
    );
    assert!(detect_data_types(&tree, "/missing").is_empty());
    assert_eq!(
        data_types_from(true, false, true, false, true),
        vec![BrowserDataType::Profile, BrowserDataType::Cookies, BrowserDataType::Passwords]
    );
}

#[test]
fn collection_stays_inside_the_profile_and_skips_links() {
    let mut tree = Tree::default();
    tree.file("/p/Cookies");
    tree.file("/p/Cache/a");
    tree.file("/p/Cache/sub/b");
    tree.file("/p/Extensions/ext/x.js");
    tree.file("/p/Preferences");
    tree.links.insert("/p/Cache/escape".to_string());

    let mut files = Vec::new();
    collect_browser_data_files(&tree, "/p", BrowserDataType::Cookies, &mut files).unwrap();
    assert_eq!(files, vec!["/p/Cookies".to_string()]);

    let mut files = Vec::new();
    collect_browser_data_files(&tree, "/p", BrowserDataType::Cache, &mut files).unwrap();
    files.sort();
    assert_eq!(files, vec!["/p/Cache/a".to_string(), "/p/Cache/sub/b".to_string()]);

    let mut files = Vec::new();
    collect_browser_data_files(&tree, "/p", BrowserDataType::Profile, &mut files).unwrap();
    assert!(files.iter().all(|f| f.starts_with("/p/") && !f.starts_with("/p/Extensions")));
    assert!(files.contains(&"/p/Preferences".to_string()));
    assert!(!files.contains(&"/p/Cache/escape".to_string()));
}

struct Failing;

impl ProfileFs for Failing {
    fn inspect(&self, _path: &str) -> Result<EntryKind, String> {
        Ok(EntryKind::Directory)
    }
    fn list(&self, _dir: &str) -> Result<Vec<String>, String> {
        Err("denied".to_string())
    }
}

#[test]
fn an_unreadable_directory_stops_collection_with_its_path() {
    let mut files = Vec::new();
    match collect_browser_data_files(&Failing, "/p", BrowserDataType::Profile, &mut files) {
        Err(ShredError::BrowserCollectionFailed { path, detail }) => {
            assert_eq!(path, "/p");
            assert!(detail.contains("denied"));
        }
        other => panic!("unexpected {other:?}"),
    }
}

#[test]
fn lock_files_decide_the_running_state() {
    assert_eq!(
        lock_candidates(BrowserRunningDetection::ChromiumUserData, "/u/Default", false),
        vec!["/u/Default/SingletonLock".to_string(), "/u/SingletonLock".to_string()]
    );
    assert_eq!(
        lock_candidates(BrowserRunningDetection::GeckoProfile, "/f/p", true),
        vec!["/f/p/parent.lock".to_string()]
    );
    assert_eq!(
        browser_running_state("chrome", true, &vec![LockProbe::Absent, LockProbe::Present]),
        BrowserRunningStatus::Running
    );
    assert_eq!(
        browser_running_state("chrome", true, &vec![LockProbe::Unreadable, LockProbe::Absent]),
        BrowserRunningStatus::Unknown
    );
    assert_eq!(browser_running_state("chrome", true, &vec![LockProbe::Absent]), BrowserRunningStatus::Closed);
    assert_eq!(browser_running_state("chrome", false, &vec![]), BrowserRunningStatus::Unknown);
    assert_eq!(browser_running_state("safari", true, &vec![]), BrowserRunningStatus::Unknown);
    let candidates = lock_file_candidates("/u/Default");
    assert_eq!(candidates[0], "/u/Default/SingletonLock");
    assert_eq!(candidates.len(), 4);
}

#[test]
fn process_listings_and_queries() {
    let query = running_query("Chrome", true);
    assert_eq!(query.program, "tasklist");
    assert_eq!(query.args, vec!["/FI", "IMAGENAME eq chrome.exe", "/NH"]);
    let query = running_query("firefox", false);
    assert_eq!(query.program, "pgrep");
    assert_eq!(query.args, vec!["-f", "firefox"]);
    assert!(!is_browser_running(None, false));
    assert!(!is_browser_running(Some(""), false));
    assert!(is_browser_running(Some("1234\n"), false));
    assert!(!is_browser_running(Some("INFO: No tasks are running which match"), true));
    assert!(is_browser_running(Some("chrome.exe 123"), true));
    assert!(get_locking_processes("/x").is_empty());
}

#[test]
fn icons_and_profile_ids() {
    assert_eq!(browser_icon("Firefox"), "FirefoxLogo");
    assert_eq!(browser_icon("Netscape"), "Globe");
    assert_eq!(profile_id("Chrome", "Profile 3"), "chrome-profile-3");
}

#[test]
fn test_get_browser_base_paths_returns_vec() {
    // Every browser yields a list, whatever the environment holds.
    let bare = BrowserEnv { local_app_data: None, app_data: None, home: None, xdg_config_home: None };
    for browser in knockknock::browser::paths::browser_paths() {
        let _: Vec<String> = get_browser_base_paths(&browser, &bare);
        let _: Vec<String> = get_browser_base_paths(&browser, &linux_env());
    }
}

#[test]
fn only_the_extensions_directory_itself_is_left_out_of_a_profile() {
    let mut tree = Tree::default();
    tree.file("/p/Extensions/e/x.js");
    tree.file("/p/Extensions2/y");
    tree.file("/p/Ext/z");
    let mut files = Vec::new();
    collect_browser_data_files(&tree, "/p", BrowserDataType::Profile, &mut files).unwrap();
    files.sort();
    assert_eq!(files, vec!["/p/Ext/z".to_string(), "/p/Extensions2/y".to_string()]);

    let mut files = Vec::new();
    collect_browser_data_files(&tree, "/p", BrowserDataType::Extensions, &mut files).unwrap();
    assert_eq!(files, vec!["/p/Extensions/e/x.js".to_string()]);
}
