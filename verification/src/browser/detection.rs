//! Discovery of installed browsers and of the data kinds a profile holds.

use vstd::prelude::*;
use crate::browser::paths::{
    browser_paths, find_browser_profiles, get_browser_base_paths, profile_root, BrowserEnv, BrowserPath,
};
use crate::browser::types::{BrowserDataType, BrowserProfile, BrowserRunningStatus, DetectedBrowser};
use crate::pathname::{file_name, join};
use crate::text::{cat3, lower_seq, replace_char, replace_char_seq, str_eq, to_lower};

verus! {

/// Read-only filesystem access used by discovery. Nothing is assumed of what
/// an implementation returns.
pub trait BrowserFs {
    /// Whether the path exists, following links.
    fn path_exists(&self, path: &str) -> bool;
    /// The names of the real (non-link) subdirectories of `dir`; `None` when
    /// `dir` itself is not a real directory.
    fn real_subdirectories(&self, dir: &str) -> Option<Vec<String>>;
    /// The total size in bytes of the files below `dir`.
    fn directory_size(&self, dir: &str) -> u64;
}

/// The icon identifier of a browser name.
pub open spec fn icon_text(name: Seq<char>) -> Seq<char> {
    if name == "Chrome"@ {
        "GoogleChrome"@
    } else if name == "Firefox"@ {
        "FirefoxLogo"@
    } else if name == "Edge"@ {
        "MicrosoftEdge"@
    } else if name == "Brave"@ {
        "BraveLogo"@
    } else if name == "Opera"@ {
        "OperaLogo"@
    } else if name == "Vivaldi"@ {
        "VivaldiLogo"@
    } else if name == "Safari"@ {
        "SafariLogo"@
    } else {
        "Globe"@
    }
}

/// The icon identifier the interface shows for a browser name.
pub fn browser_icon(name: &str) -> (r: String)
    ensures
        r@ == icon_text(name@),
{
    let icon = if str_eq(name, "Chrome") {
        "GoogleChrome"
    } else if str_eq(name, "Firefox") {
        "FirefoxLogo"
    } else if str_eq(name, "Edge") {
        "MicrosoftEdge"
    } else if str_eq(name, "Brave") {
        "BraveLogo"
    } else if str_eq(name, "Opera") {
        "OperaLogo"
    } else if str_eq(name, "Vivaldi") {
        "VivaldiLogo"
    } else if str_eq(name, "Safari") {
        "SafariLogo"
    } else {
        "Globe"
    };
    String::from_str(icon)
}

/// The identity of a profile: the lower-cased browser name, a dash, and the
/// lower-cased profile name with spaces turned into dashes.
pub open spec fn profile_id_text(browser: Seq<char>, profile: Seq<char>) -> Seq<char> {
    lower_seq(browser) + "-"@ + replace_char_seq(lower_seq(profile), ' ', '-')
}

/// The identity of a profile.
pub fn profile_id(browser: &str, profile: &str) -> (r: String)
    ensures
        r@ == profile_id_text(browser@, profile@),
{
    let b = to_lower(browser);
    let p = to_lower(profile);
    let q = replace_char(p.as_str(), ' ', '-');
    cat3(b.as_str(), "-", q.as_str())
}

/// The data kinds a profile holds, in fixed order: none when the profile is
/// gone, otherwise the profile itself and then each kind with a marker file.
pub open spec fn data_types_seq(profile: bool, cache: bool, cookies: bool, history: bool, passwords: bool) -> Seq<BrowserDataType> {
    if !profile {
        Seq::empty()
    } else {
        seq![BrowserDataType::Profile]
            + (if cache { seq![BrowserDataType::Cache] } else { Seq::empty() })
            + (if cookies { seq![BrowserDataType::Cookies] } else { Seq::empty() })
            + (if history { seq![BrowserDataType::History] } else { Seq::empty() })
            + (if passwords { seq![BrowserDataType::Passwords] } else { Seq::empty() })
    }
}

/// The data kinds a profile holds, from which markers were found.
pub fn data_types_from(profile: bool, cache: bool, cookies: bool, history: bool, passwords: bool) -> (r: Vec<BrowserDataType>)
    ensures
        r@ == data_types_seq(profile, cache, cookies, history, passwords),
{
    let mut types: Vec<BrowserDataType> = Vec::new();
    if !profile {
        return types;
    }
    types.push(BrowserDataType::Profile);
    if cache {
        types.push(BrowserDataType::Cache);
    }
    if cookies {
        types.push(BrowserDataType::Cookies);
    }
    if history {
        types.push(BrowserDataType::History);
    }
    if passwords {
        types.push(BrowserDataType::Passwords);
    }
    assert(types@ =~= data_types_seq(profile, cache, cookies, history, passwords));
    types
}

fn any_exists<F: BrowserFs>(fs: &F, profile: &str, names: &Vec<&'static str>) -> (r: bool)
{
    let mut i: usize = 0;
    while i < names.len()
        invariant
            i <= names@.len(),
        decreases names.len() - i,
    {
        let candidate = join(profile, names[i]);
        if fs.path_exists(candidate.as_str()) {
            return true;
        }
        i = i + 1;
    }
    false
}

/// The data kinds a profile holds: the profile itself, then cache, cookies,
/// history and passwords where one of their marker files exists.
pub fn detect_data_types<F: BrowserFs>(fs: &F, profile_path: &str) -> (r: Vec<BrowserDataType>)
    ensures
        exists|p: bool, a: bool, b: bool, c: bool, d: bool| r@ == #[trigger] data_types_seq(p, a, b, c, d),
{
    if !fs.path_exists(profile_path) {
        let r = data_types_from(false, false, false, false, false);
        return r;
    }
    let cache = any_exists(fs, profile_path, &vec!["Cache", "cache2", "Code Cache", "GPUCache", "OfflineCache"]);
    let cookies = any_exists(fs, profile_path, &vec!["Cookies", "cookies.sqlite", "cookies.txt", "Network/Cookies"]);
    let history = any_exists(fs, profile_path, &vec!["History", "places.sqlite", "Favicons"]);
    let passwords = any_exists(fs, profile_path, &vec!["Login Data", "logins.json", "signons.sqlite"]);
    data_types_from(true, cache, cookies, history, passwords)
}

/// What discovery promises of each reported browser.
pub open spec fn detected_well_formed(b: DetectedBrowser) -> bool {
    &&& b.id@ == lower_seq(b.name@)
    &&& b.icon@ == icon_text(b.name@)
    &&& b.running_state == BrowserRunningStatus::Unknown
    &&& b.profiles@.len() > 0
    &&& forall|j: int| 0 <= j < b.profiles@.len() ==> !(#[trigger] b.profiles@[j]).selected
        && b.profiles@[j].id@ == profile_id_text(b.name@, b.profiles@[j].name@)
}

fn profiles_of<F: BrowserFs>(fs: &F, browser: &BrowserPath, base: &str, linux: bool) -> (r: Vec<BrowserProfile>)
    ensures
        forall|j: int| 0 <= j < r@.len() ==> !(#[trigger] r@[j]).selected
            && r@[j].id@ == profile_id_text(browser.name@, r@[j].name@),
{
    let root = profile_root(base, browser.layout_for(linux));
    let listing = fs.real_subdirectories(root.as_str());
    let candidates = find_browser_profiles(base, browser, linux, listing);
    let mut profiles: Vec<BrowserProfile> = Vec::new();
    let mut i: usize = 0;
    while i < candidates.len()
        invariant
            i <= candidates@.len(),
            forall|j: int| 0 <= j < profiles@.len() ==> !(#[trigger] profiles@[j]).selected
                && profiles@[j].id@ == profile_id_text(browser.name@, profiles@[j].name@),
        decreases candidates.len() - i,
    {
        let path = candidates[i].as_str();
        if fs.path_exists(path) {
            let name = match file_name(path) {
                Some(n) => n,
                None => String::new(),
            };
            let size = fs.directory_size(path);
            let id = profile_id(browser.name, name.as_str());
            profiles.push(BrowserProfile { id, name, path: String::from_str(path), size, selected: false });
        }
        i = i + 1;
    }
    profiles
}

/// The installed browsers, in table order: for each configured browser the
/// first existing base directory is searched for profiles, and a browser is
/// reported when it has at least one. Running state is left unknown; it is
/// checked on demand before any cleanup.
pub fn detect_browsers<F: BrowserFs>(fs: &F, env: &BrowserEnv, linux: bool) -> (r: Vec<DetectedBrowser>)
    ensures
        forall|i: int| 0 <= i < r@.len() ==> detected_well_formed(#[trigger] r@[i]),
{
    let table = browser_paths();
    let mut browsers: Vec<DetectedBrowser> = Vec::new();
    let mut b: usize = 0;
    while b < table.len()
        invariant
            b <= table@.len(),
            forall|i: int| 0 <= i < browsers@.len() ==> detected_well_formed(#[trigger] browsers@[i]),
        decreases table.len() - b,
    {
        let browser = &table[b];
        let bases = get_browser_base_paths(browser, env);
        let mut k: usize = 0;
        let mut found = false;
        while k < bases.len() && !found
            invariant
                k <= bases@.len(),
                forall|i: int| 0 <= i < browsers@.len() ==> detected_well_formed(#[trigger] browsers@[i]),
            decreases bases.len() - k,
        {
            let base = bases[k].as_str();
            if fs.path_exists(base) {
                found = true;
                let profiles = profiles_of(fs, browser, base, linux);
                if profiles.len() > 0 {
                    let detected = DetectedBrowser {
                        id: to_lower(browser.name),
                        name: String::from_str(browser.name),
                        icon: browser_icon(browser.name),
                        running_state: BrowserRunningStatus::Unknown,
                        profiles,
                    };
                    browsers.push(detected);
                }
            }
            k = k + 1;
        }
        b = b + 1;
    }
    browsers
}

} // verus!
