//! The configured browser table, where each browser keeps its profiles, and
//! the lock-file rules that tell whether it is running.

use vstd::prelude::*;
use crate::browser::types::BrowserRunningStatus;
use crate::pathname::{join, join_path, parent_of, parent_path};
use crate::shredder::journal::opt_view;
use crate::text::{seq_contains_seq, seq_starts_with, str_contains, str_eq, str_starts_with};

verus! {

/// Where profile directories sit relative to a browser's base directory.
#[derive(Debug, Clone, Copy, PartialEq, Eq)]
pub enum ProfileLayout {
    Direct,
    Subdirectory(&'static str),
}

/// Which Windows application-data root is searched first.
#[derive(Debug, Clone, Copy, PartialEq, Eq, Structural)]
pub enum WindowsRootPreference {
    LocalAppDataFirst,
    AppDataFirst,
}

/// How a browser's running state is detected. Browsers without a reliable
/// policy are not configured at all.
#[derive(Debug, Clone, Copy, PartialEq, Eq, Structural)]
pub enum BrowserRunningDetection {
    ChromiumUserData,
    GeckoProfile,
    Unsupported,
}

/// One configured browser.
#[derive(Debug, Clone)]
pub struct BrowserPath {
    pub id: &'static str,
    pub name: &'static str,
    pub windows_paths: Vec<&'static str>,
    pub windows_root_preference: WindowsRootPreference,
    pub macos_paths: Vec<&'static str>,
    pub linux_paths: Vec<&'static str>,
    /// Pattern of profile directory names.
    pub profile_glob: &'static str,
    /// Layout of profile directories relative to the base, on Windows and macOS.
    pub profile_layout: ProfileLayout,
    /// Layout of profile directories relative to the base, on Linux.
    pub linux_profile_layout: ProfileLayout,
    pub running_detection: BrowserRunningDetection,
}

/// The identities of the configured browsers, in table order.
pub open spec fn browser_ids() -> Seq<Seq<char>> {
    seq!["chrome"@, "firefox"@, "edge"@, "brave"@, "opera"@, "vivaldi"@, "tor browser"@, "chromium"@]
}

/// The configured browsers. Every one has a running-state policy; browsers
/// without one are not offered.
pub fn browser_paths() -> (r: Vec<BrowserPath>)
    ensures
        r@.len() == browser_ids().len(),
        forall|i: int| 0 <= i < r@.len() ==> (#[trigger] r@[i]).id@ == browser_ids()[i],
        forall|i: int| 0 <= i < r@.len() ==> (#[trigger] r@[i]).running_detection != BrowserRunningDetection::Unsupported,
{
    vec![
        BrowserPath {
            id: "chrome",
            name: "Chrome",
            windows_paths: vec!["Google\\Chrome\\User Data", "Google\\Chrome Beta\\User Data", "Google\\Chrome SxS\\User Data"],
            windows_root_preference: WindowsRootPreference::LocalAppDataFirst,
            macos_paths: vec!["Google/Chrome"],
            linux_paths: vec!["google-chrome"],
            profile_glob: "Default",
            profile_layout: ProfileLayout::Direct,
            linux_profile_layout: ProfileLayout::Direct,
            running_detection: BrowserRunningDetection::ChromiumUserData,
        },
        BrowserPath {
            id: "firefox",
            name: "Firefox",
            windows_paths: vec!["Mozilla\\Firefox"],
            windows_root_preference: WindowsRootPreference::AppDataFirst,
            macos_paths: vec!["Firefox"],
            linux_paths: vec![".mozilla/firefox"],
            profile_glob: "*.default*",
            profile_layout: ProfileLayout::Subdirectory("Profiles"),
            linux_profile_layout: ProfileLayout::Direct,
            running_detection: BrowserRunningDetection::GeckoProfile,
        },
        BrowserPath {
            id: "edge",
            name: "Edge",
            windows_paths: vec!["Microsoft\\Edge\\User Data", "Microsoft\\Edge Beta\\User Data"],
            windows_root_preference: WindowsRootPreference::LocalAppDataFirst,
            macos_paths: vec!["Microsoft Edge"],
            linux_paths: vec!["microsoft-edge"],
            profile_glob: "Default",
            profile_layout: ProfileLayout::Direct,
            linux_profile_layout: ProfileLayout::Direct,
            running_detection: BrowserRunningDetection::ChromiumUserData,
        },
        BrowserPath {
            id: "brave",
            name: "Brave",
            windows_paths: vec!["BraveSoftware\\Brave-Browser\\User Data", "BraveSoftware\\Brave-Browser-Beta\\User Data"],
            windows_root_preference: WindowsRootPreference::LocalAppDataFirst,
            macos_paths: vec!["BraveSoftware/Brave-Browser"],
            linux_paths: vec!["BraveSoftware/Brave-Browser"],
            profile_glob: "Default",
            profile_layout: ProfileLayout::Direct,
            linux_profile_layout: ProfileLayout::Direct,
            running_detection: BrowserRunningDetection::ChromiumUserData,
        },
        BrowserPath {
            id: "opera",
            name: "Opera",
            windows_paths: vec!["Opera Software\\Opera Stable", "Opera Software\\Opera Next"],
            windows_root_preference: WindowsRootPreference::LocalAppDataFirst,
            macos_paths: vec!["com.operasoftware.Opera"],
            linux_paths: vec!["opera"],
            profile_glob: "Default",
            profile_layout: ProfileLayout::Direct,
            linux_profile_layout: ProfileLayout::Direct,
            running_detection: BrowserRunningDetection::ChromiumUserData,
        },
        BrowserPath {
            id: "vivaldi",
            name: "Vivaldi",
            windows_paths: vec!["Vivaldi\\User Data"],
            windows_root_preference: WindowsRootPreference::LocalAppDataFirst,
            macos_paths: vec!["Vivaldi"],
            linux_paths: vec!["vivaldi"],
            profile_glob: "Default",
            profile_layout: ProfileLayout::Direct,
            linux_profile_layout: ProfileLayout::Direct,
            running_detection: BrowserRunningDetection::ChromiumUserData,
        },
        BrowserPath {
            id: "tor browser",
            name: "Tor Browser",
            windows_paths: vec!["Tor Browser\\Browser\\TorBrowser\\Data\\Browser"],
            windows_root_preference: WindowsRootPreference::LocalAppDataFirst,
            macos_paths: vec!["TorBrowser/Data/Browser"],
            linux_paths: vec![".tor-browser"],
            profile_glob: "*.default",
            profile_layout: ProfileLayout::Direct,
            linux_profile_layout: ProfileLayout::Direct,
            running_detection: BrowserRunningDetection::GeckoProfile,
        },
        BrowserPath {
            id: "chromium",
            name: "Chromium",
            windows_paths: vec!["Chromium\\User Data"],
            windows_root_preference: WindowsRootPreference::LocalAppDataFirst,
            macos_paths: vec!["Chromium"],
            linux_paths: vec!["chromium"],
            profile_glob: "Default",
            profile_layout: ProfileLayout::Direct,
            linux_profile_layout: ProfileLayout::Direct,
            running_detection: BrowserRunningDetection::ChromiumUserData,
        },
    ]
}

/// The configured browser with this identity.
pub fn browser_by_id(id: &str) -> (r: Option<BrowserPath>)
    ensures
        r is Some <==> browser_ids().contains(id@),
        r matches Some(b) ==> b.id@ == id@ && b.running_detection != BrowserRunningDetection::Unsupported,
{
    let mut table = browser_paths();
    let n = table.len();
    let mut i: usize = 0;
    while i < n
        invariant
            n == table@.len(),
            n == browser_ids().len(),
            i <= n,
            forall|k: int| 0 <= k < n ==> (#[trigger] table@[k]).id@ == browser_ids()[k],
            forall|k: int| 0 <= k < n ==> (#[trigger] table@[k]).running_detection != BrowserRunningDetection::Unsupported,
            forall|k: int| 0 <= k < i ==> browser_ids()[k] != id@,
        decreases n - i,
    {
        if str_eq(table[i].id, id) {
            let found = table.remove(i);
            return Some(found);
        }
        i = i + 1;
    }
    proof {
        if browser_ids().contains(id@) {
            let k = choose|k: int| 0 <= k < browser_ids().len() && browser_ids()[k] == id@;
            assert(browser_ids()[k] != id@);
        }
    }
    None
}

/// The profile directories of a browser's base: the base itself, or a
/// subdirectory of it.
pub open spec fn profile_root_text(base: Seq<char>, layout: ProfileLayout) -> Seq<char> {
    match layout {
        ProfileLayout::Direct => base,
        ProfileLayout::Subdirectory(d) => join_path(base, d@),
    }
}

/// Where a base keeps its profile directories.
pub fn profile_root(base: &str, layout: ProfileLayout) -> (r: String)
    ensures
        r@ == profile_root_text(base@, layout),
{
    match layout {
        ProfileLayout::Direct => String::from_str(base),
        ProfileLayout::Subdirectory(d) => join(base, d),
    }
}

impl BrowserPath {
    /// The profile layout on the host: Linux or another desktop system.
    pub fn layout_for(&self, linux: bool) -> (r: ProfileLayout)
        ensures
            r == if linux { self.linux_profile_layout } else { self.profile_layout },
    {
        if linux { self.linux_profile_layout } else { self.profile_layout }
    }
}

/// A directory name that holds a profile: `Default`, `Profile …`, or, for a
/// wildcard pattern, any name containing `default`.
pub open spec fn is_profile_name(name: Seq<char>, glob: Seq<char>) -> bool {
    name == "Default"@ || seq_starts_with(name, "Profile "@) || (glob.contains('*') && seq_contains_seq(name, "default"@))
}

/// Whether a directory name holds a profile.
pub fn profile_name_matches(name: &str, glob: &str) -> (r: bool)
    ensures
        r == is_profile_name(name@, glob@),
{
    if str_eq(name, "Default") || str_starts_with(name, "Profile ") {
        return true;
    }
    let star = str_contains(glob, "*");
    proof {
        reveal_strlit("*");
        if glob@.contains('*') {
            let k = choose|k: int| 0 <= k < glob@.len() && glob@[k] == '*';
            assert(glob@.subrange(k, k + "*"@.len()) =~= "*"@);
        }
        if seq_contains_seq(glob@, "*"@) {
            let k = choose|k: int| 0 <= k && k + "*"@.len() <= glob@.len() && #[trigger] glob@.subrange(k, k + "*"@.len()) == "*"@;
            assert(glob@[k] == glob@.subrange(k, k + 1)[0]);
        }
    }
    star && str_contains(name, "default")
}

/// The profile paths found under a profile root: `names` are the real
/// (non-link) subdirectories of the root, in listing order.
pub open spec fn matching_profiles(root: Seq<char>, names: Seq<Seq<char>>, glob: Seq<char>) -> Seq<Seq<char>>
    decreases names.len(),
{
    if names.len() == 0 {
        Seq::empty()
    } else {
        let rest = matching_profiles(root, names.drop_last(), glob);
        if is_profile_name(names.last(), glob) {
            rest.push(join_path(root, names.last()))
        } else {
            rest
        }
    }
}

/// The views of a list of strings.
pub open spec fn views(v: Seq<String>) -> Seq<Seq<char>> {
    Seq::new(v.len(), |i: int| v[i]@)
}

/// The profiles of one base, from what a listing of its profile root found:
/// `None` when the root is not a real directory, otherwise the names of its
/// real subdirectories. A direct layout without matching profiles treats the
/// base itself as the profile.
pub fn find_browser_profiles(base: &str, browser: &BrowserPath, linux: bool, listing: Option<Vec<String>>) -> (r: Vec<String>)
    ensures
        listing is None ==> r@.len() == 0,
        listing matches Some(names) ==> {
            let found = matching_profiles(profile_root_text(base@, browser.layout_for_spec(linux)), views(names@), browser.profile_glob@);
            views(r@) == if found.len() == 0 && browser.layout_for_spec(linux) == ProfileLayout::Direct {
                seq![base@]
            } else {
                found
            }
        },
{
    let names = match listing {
        Some(n) => n,
        None => return Vec::new(),
    };
    let layout = browser.layout_for(linux);
    let root = profile_root(base, layout);
    let mut out: Vec<String> = Vec::new();
    let mut i: usize = 0;
    while i < names.len()
        invariant
            i <= names@.len(),
            root@ == profile_root_text(base@, layout),
            views(out@) == matching_profiles(root@, views(names@).take(i as int), browser.profile_glob@),
        decreases names.len() - i,
    {
        let ghost before = views(names@).take(i as int);
        assert(views(names@).take(i + 1).drop_last() =~= before);
        assert(views(names@).take(i + 1).last() == names@[i as int]@);
        if profile_name_matches(names[i].as_str(), browser.profile_glob) {
            out.push(join(root.as_str(), names[i].as_str()));
        }
        assert(views(out@) =~= matching_profiles(root@, views(names@).take(i + 1), browser.profile_glob@));
        i = i + 1;
    }
    assert(views(names@).take(names@.len() as int) =~= views(names@));
    let direct = match layout {
        ProfileLayout::Direct => true,
        _ => false,
    };
    if out.len() == 0 && direct {
        let mut only: Vec<String> = Vec::new();
        only.push(String::from_str(base));
        assert(views(only@) =~= seq![base@]);
        return only;
    }
    out
}

impl BrowserPath {
    /// The profile layout on the host, for contracts.
    pub open spec fn layout_for_spec(&self, linux: bool) -> ProfileLayout {
        if linux { self.linux_profile_layout } else { self.profile_layout }
    }
}

/// The Windows application-data roots in the browser's preferred order,
/// leaving out the ones that are not set.
pub open spec fn ordered_roots(pref: WindowsRootPreference, local: Option<Seq<char>>, app: Option<Seq<char>>) -> Seq<Seq<char>> {
    let (first, second) = match pref {
        WindowsRootPreference::LocalAppDataFirst => (local, app),
        WindowsRootPreference::AppDataFirst => (app, local),
    };
    (match first { Some(f) => seq![f], None => Seq::empty() }) + (match second { Some(s) => seq![s], None => Seq::empty() })
}

/// Each relative path joined under every root, path by path.
pub open spec fn joined_under_roots(paths: Seq<Seq<char>>, roots: Seq<Seq<char>>) -> Seq<Seq<char>>
    decreases paths.len(),
{
    if paths.len() == 0 {
        Seq::empty()
    } else {
        joined_under_roots(paths.drop_last(), roots) + Seq::new(roots.len(), |k: int| join_path(roots[k], paths.last()))
    }
}

/// The views of a list of static strings.
pub open spec fn str_views(v: Seq<&'static str>) -> Seq<Seq<char>> {
    Seq::new(v.len(), |i: int| v[i]@)
}

/// The Windows base directories of a browser, given the two
/// application-data roots.
pub fn windows_base_paths_for_roots(browser: &BrowserPath, local_app_data: Option<&str>, app_data: Option<&str>) -> (r: Vec<String>)
    ensures
        views(r@) == joined_under_roots(
            str_views(browser.windows_paths@),
            ordered_roots(
                browser.windows_root_preference,
                match local_app_data { Some(l) => Some(l@), None => None },
                match app_data { Some(a) => Some(a@), None => None },
            ),
        ),
{
    let ghost lv = match local_app_data { Some(l) => Some(l@), None => None::<Seq<char>> };
    let ghost av = match app_data { Some(a) => Some(a@), None => None::<Seq<char>> };
    let (first, second) = match browser.windows_root_preference {
        WindowsRootPreference::LocalAppDataFirst => (local_app_data, app_data),
        WindowsRootPreference::AppDataFirst => (app_data, local_app_data),
    };
    let mut roots: Vec<&str> = Vec::new();
    if let Some(f) = first {
        roots.push(f);
    }
    if let Some(s) = second {
        roots.push(s);
    }
    let ghost rv = ordered_roots(browser.windows_root_preference, lv, av);
    assert(Seq::new(roots@.len(), |k: int| roots@[k]@) =~= rv);
    let mut out: Vec<String> = Vec::new();
    let mut i: usize = 0;
    while i < browser.windows_paths.len()
        invariant
            i <= browser.windows_paths@.len(),
            Seq::new(roots@.len(), |k: int| roots@[k]@) == rv,
            views(out@) == joined_under_roots(str_views(browser.windows_paths@).take(i as int), rv),
        decreases browser.windows_paths.len() - i,
    {
        let ghost before = views(out@);
        let w = browser.windows_paths[i];
        let mut k: usize = 0;
        while k < roots.len()
            invariant
                k <= roots@.len(),
                w@ == str_views(browser.windows_paths@)[i as int],
                i < browser.windows_paths@.len(),
                Seq::new(roots@.len(), |q: int| roots@[q]@) == rv,
                views(out@) == before + Seq::new(k as nat, |q: int| join_path(rv[q], w@)),
            decreases roots.len() - k,
        {
            let joined = join(roots[k], w);
            let ghost prev = views(out@);
            out.push(joined);
            assert(views(out@) =~= prev.push(joined@));
            assert(views(out@) =~= before + Seq::new((k + 1) as nat, |q: int| join_path(rv[q], w@)));
            k = k + 1;
        }
        let ghost taken = str_views(browser.windows_paths@).take(i + 1);
        assert(taken.drop_last() =~= str_views(browser.windows_paths@).take(i as int));
        assert(taken.last() == w@);
        assert(views(out@) =~= joined_under_roots(taken, rv));
        i = i + 1;
    }
    assert(str_views(browser.windows_paths@).take(browser.windows_paths@.len() as int) =~= str_views(browser.windows_paths@));
    out
}

/// The environment browser directories are found from.
#[derive(Debug, Clone)]
pub struct BrowserEnv {
    pub local_app_data: Option<String>,
    pub app_data: Option<String>,
    pub home: Option<String>,
    pub xdg_config_home: Option<String>,
}

/// The macOS base directories: under `~/Library/Application Support`.
pub open spec fn macos_bases(paths: Seq<Seq<char>>, home: Option<Seq<char>>) -> Seq<Seq<char>> {
    match home {
        None => Seq::empty(),
        Some(h) => Seq::new(paths.len(), |i: int| join_path(join_path(h, "Library/Application Support"@), paths[i])),
    }
}

/// The Linux configuration directory: `$XDG_CONFIG_HOME`, else `$HOME/.config`.
pub open spec fn config_home_text(xdg: Option<Seq<char>>, home: Option<Seq<char>>) -> Seq<char> {
    match xdg {
        Some(x) => x,
        None => match home {
            Some(h) => h + "/.config"@,
            None => "/.config"@,
        },
    }
}

/// The Linux base directories: dot paths under the home directory (left out
/// without one), others under the configuration directory.
pub open spec fn linux_bases(paths: Seq<Seq<char>>, home: Option<Seq<char>>, config: Seq<char>) -> Seq<Seq<char>>
    decreases paths.len(),
{
    if paths.len() == 0 {
        Seq::empty()
    } else {
        let rest = linux_bases(paths.drop_last(), home, config);
        let p = paths.last();
        if seq_starts_with(p, "."@) || seq_starts_with(p, "snap/"@) {
            match home {
                Some(h) => rest.push(join_path(h, p)),
                None => rest,
            }
        } else {
            rest.push(join_path(config, p))
        }
    }
}

fn as_opt_str(o: &Option<String>) -> (r: Option<&str>)
    ensures
        match r { Some(s) => o matches Some(v) && s@ == v@, None => o is None },
{
    match o {
        Some(v) => Some(v.as_str()),
        None => None,
    }
}

/// Every base directory where a browser may keep its data: the Windows ones,
/// then the macOS ones, then the Linux ones.
pub fn get_browser_base_paths(browser: &BrowserPath, env: &BrowserEnv) -> (r: Vec<String>)
    ensures
        views(r@) == joined_under_roots(
            str_views(browser.windows_paths@),
            ordered_roots(
                browser.windows_root_preference,
                match env.local_app_data { Some(l) => Some(l@), None => None },
                match env.app_data { Some(a) => Some(a@), None => None },
            ),
        ) + macos_bases(str_views(browser.macos_paths@), match env.home { Some(h) => Some(h@), None => None })
            + linux_bases(
                str_views(browser.linux_paths@),
                match env.home { Some(h) => Some(h@), None => None },
                config_home_text(
                    match env.xdg_config_home { Some(x) => Some(x@), None => None },
                    match env.home { Some(h) => Some(h@), None => None },
                ),
            ),
{
    let mut out = windows_base_paths_for_roots(browser, as_opt_str(&env.local_app_data), as_opt_str(&env.app_data));
    let ghost win = views(out@);
    let ghost home = opt_view(env.home);
    match &env.home {
        Some(h) => {
            let support = join(h.as_str(), "Library/Application Support");
            let mut i: usize = 0;
            while i < browser.macos_paths.len()
                invariant
                    i <= browser.macos_paths@.len(),
                    support@ == join_path(h@, "Library/Application Support"@),
                    views(out@) == win + Seq::new(i as nat, |k: int| join_path(support@, str_views(browser.macos_paths@)[k])),
                decreases browser.macos_paths.len() - i,
            {
                let ghost prev = views(out@);
                out.push(join(support.as_str(), browser.macos_paths[i]));
                assert(views(out@) =~= prev.push(join_path(support@, str_views(browser.macos_paths@)[i as int])));
                assert(views(out@) =~= win + Seq::new((i + 1) as nat, |k: int| join_path(support@, str_views(browser.macos_paths@)[k])));
                i = i + 1;
            }
            assert(views(out@) =~= win + macos_bases(str_views(browser.macos_paths@), home));
        },
        None => {
            assert(views(out@) =~= win + macos_bases(str_views(browser.macos_paths@), home));
        },
    }
    let ghost with_mac = views(out@);
    let config: String = match &env.xdg_config_home {
        Some(x) => x.clone(),
        None => match &env.home {
            Some(h) => crate::text::cat(h.as_str(), "/.config"),
            None => String::from_str("/.config"),
        },
    };
    let ghost cv = config_home_text(opt_view(env.xdg_config_home), home);
    assert(config@ == cv);
    let mut i: usize = 0;
    while i < browser.linux_paths.len()
        invariant
            i <= browser.linux_paths@.len(),
            config@ == cv,
            home == opt_view(env.home),
            views(out@) == with_mac + linux_bases(str_views(browser.linux_paths@).take(i as int), home, cv),
        decreases browser.linux_paths.len() - i,
    {
        let ghost taken = str_views(browser.linux_paths@).take(i + 1);
        assert(taken.drop_last() =~= str_views(browser.linux_paths@).take(i as int));
        let p = browser.linux_paths[i];
        assert(taken.last() == p@);
        let ghost prev = views(out@);
        if str_starts_with(p, ".") || str_starts_with(p, "snap/") {
            if let Some(h) = &env.home {
                out.push(join(h.as_str(), p));
                assert(views(out@) =~= prev.push(join_path(h@, p@)));
            }
        } else {
            out.push(join(config.as_str(), p));
            assert(views(out@) =~= prev.push(join_path(cv, p@)));
        }
        assert(views(out@) =~= with_mac + linux_bases(taken, home, cv));
        i = i + 1;
    }
    assert(str_views(browser.linux_paths@).take(browser.linux_paths@.len() as int) =~= str_views(browser.linux_paths@));
    out
}

/// What inspecting one lock-file candidate found.
#[derive(Debug, Clone, Copy, PartialEq, Eq, Structural)]
pub enum LockProbe {
    /// No lock file, or one nobody holds.
    Absent,
    /// A lock file held by a running browser.
    Present,
    /// The candidate could not be inspected.
    Unreadable,
}

/// The running state the probes show: any held lock means running; otherwise
/// any failed inspection leaves the state unknown; only clean probes mean closed.
pub open spec fn lock_state(probes: Seq<LockProbe>) -> BrowserRunningStatus {
    if probes.contains(LockProbe::Present) {
        BrowserRunningStatus::Running
    } else if probes.contains(LockProbe::Unreadable) {
        BrowserRunningStatus::Unknown
    } else {
        BrowserRunningStatus::Closed
    }
}

/// A browser counts as closed only when every lock candidate was inspected
/// and found free: one held lock makes it running whatever the other probes
/// say, and a failed inspection without a held lock leaves it unknown.
pub proof fn lemma_closed_only_when_all_free(probes: Seq<LockProbe>)
    ensures
        lock_state(probes) == BrowserRunningStatus::Closed
            <==> (forall|i: int| 0 <= i < probes.len() ==> #[trigger] probes[i] == LockProbe::Absent),
        (exists|i: int| 0 <= i < probes.len() && #[trigger] probes[i] == LockProbe::Present)
            ==> lock_state(probes) == BrowserRunningStatus::Running,
        (exists|i: int| 0 <= i < probes.len() && #[trigger] probes[i] == LockProbe::Unreadable)
            && !probes.contains(LockProbe::Present) ==> lock_state(probes) == BrowserRunningStatus::Unknown,
{
    if forall|i: int| 0 <= i < probes.len() ==> #[trigger] probes[i] == LockProbe::Absent {
        assert(!probes.contains(LockProbe::Present));
        assert(!probes.contains(LockProbe::Unreadable));
    }
    if lock_state(probes) == BrowserRunningStatus::Closed {
        assert forall|i: int| 0 <= i < probes.len() implies #[trigger] probes[i] == LockProbe::Absent by {
            if probes[i] == LockProbe::Present {
                assert(probes.contains(LockProbe::Present));
            }
            if probes[i] == LockProbe::Unreadable {
                assert(probes.contains(LockProbe::Unreadable));
            }
        }
    }
    if exists|i: int| 0 <= i < probes.len() && #[trigger] probes[i] == LockProbe::Present {
        let i = choose|i: int| 0 <= i < probes.len() && #[trigger] probes[i] == LockProbe::Present;
        assert(probes.contains(probes[i]));
    }
    if exists|i: int| 0 <= i < probes.len() && #[trigger] probes[i] == LockProbe::Unreadable {
        let i = choose|i: int| 0 <= i < probes.len() && #[trigger] probes[i] == LockProbe::Unreadable;
        assert(probes.contains(probes[i]));
    }
}

/// The running state the probes of the lock candidates show.
pub fn lock_present_in(probes: &Vec<LockProbe>) -> (r: BrowserRunningStatus)
    ensures
        r == lock_state(probes@),
{
    let mut unknown = false;
    let mut i: usize = 0;
    while i < probes.len()
        invariant
            i <= probes@.len(),
            forall|k: int| 0 <= k < i ==> probes@[k] != LockProbe::Present,
            unknown <==> exists|k: int| 0 <= k < i && probes@[k] == LockProbe::Unreadable,
        decreases probes.len() - i,
    {
        match probes[i] {
            LockProbe::Present => {
                assert(probes@[i as int] == LockProbe::Present);
                return BrowserRunningStatus::Running;
            },
            LockProbe::Absent => {},
            LockProbe::Unreadable => {
                unknown = true;
            },
        }
        i = i + 1;
    }
    proof {
        if probes@.contains(LockProbe::Unreadable) {
            let k = choose|k: int| 0 <= k < probes@.len() && probes@[k] == LockProbe::Unreadable;
            assert(unknown);
        }
    }
    if unknown {
        BrowserRunningStatus::Unknown
    } else {
        BrowserRunningStatus::Closed
    }
}

/// The lock files that show a browser running, for a profile directory.
pub open spec fn lock_candidate_paths(detection: BrowserRunningDetection, profile: Seq<char>, windows: bool) -> Seq<Seq<char>> {
    match detection {
        BrowserRunningDetection::ChromiumUserData => if windows {
            match parent_of(profile) {
                Some(p) => seq![join_path(profile, "lockfile"@), join_path(p, "lockfile"@)],
                None => seq![join_path(profile, "lockfile"@)],
            }
        } else {
            let parent = match parent_of(profile) { Some(p) => p, None => profile };
            seq![join_path(profile, "SingletonLock"@), join_path(parent, "SingletonLock"@)]
        },
        BrowserRunningDetection::GeckoProfile => if windows {
            seq![join_path(profile, "parent.lock"@)]
        } else {
            seq![join_path(profile, ".parentlock"@), join_path(profile, "lock"@), join_path(profile, "parent.lock"@)]
        },
        BrowserRunningDetection::Unsupported => Seq::empty(),
    }
}

/// The lock files to inspect for a profile directory, on Windows or elsewhere.
pub fn lock_candidates(detection: BrowserRunningDetection, profile: &str, windows: bool) -> (r: Vec<String>)
    ensures
        views(r@) == lock_candidate_paths(detection, profile@, windows),
{
    let mut out: Vec<String> = Vec::new();
    match detection {
        BrowserRunningDetection::ChromiumUserData => {
            let parent = parent_path(profile);
            if windows {
                out.push(join(profile, "lockfile"));
                if let Some(p) = parent {
                    out.push(join(p.as_str(), "lockfile"));
                }
            } else {
                out.push(join(profile, "SingletonLock"));
                match parent {
                    Some(p) => out.push(join(p.as_str(), "SingletonLock")),
                    None => out.push(join(profile, "SingletonLock")),
                }
            }
        },
        BrowserRunningDetection::GeckoProfile => {
            if windows {
                out.push(join(profile, "parent.lock"));
            } else {
                out.push(join(profile, ".parentlock"));
                out.push(join(profile, "lock"));
                out.push(join(profile, "parent.lock"));
            }
        },
        BrowserRunningDetection::Unsupported => {},
    }
    assert(views(out@) =~= lock_candidate_paths(detection, profile@, windows));
    out
}

/// The running state of a browser: unknown when the profile is not a real
/// directory or the browser has no policy, otherwise what its lock files show.
pub open spec fn running_state_of(detection: BrowserRunningDetection, profile_is_dir: bool, probes: Seq<LockProbe>) -> BrowserRunningStatus {
    if !profile_is_dir || detection == BrowserRunningDetection::Unsupported {
        BrowserRunningStatus::Unknown
    } else {
        lock_state(probes)
    }
}

impl BrowserPath {
    /// The running state from an inspection of the profile directory and the
    /// probes of its lock candidates.
    pub fn running_state(&self, profile_is_dir: bool, probes: &Vec<LockProbe>) -> (r: BrowserRunningStatus)
        ensures
            r == running_state_of(self.running_detection, profile_is_dir, probes@),
    {
        if !profile_is_dir {
            return BrowserRunningStatus::Unknown;
        }
        match self.running_detection {
            BrowserRunningDetection::Unsupported => BrowserRunningStatus::Unknown,
            _ => lock_present_in(probes),
        }
    }
}

/// The running state of a configured browser; an unknown identity is never
/// reported closed.
pub fn browser_running_state(browser_id: &str, profile_is_dir: bool, probes: &Vec<LockProbe>) -> (r: BrowserRunningStatus)
    ensures
        !browser_ids().contains(browser_id@) ==> r == BrowserRunningStatus::Unknown,
        browser_ids().contains(browser_id@) ==> r == if profile_is_dir {
            lock_state(probes@)
        } else {
            BrowserRunningStatus::Unknown
        },
{
    match browser_by_id(browser_id) {
        None => BrowserRunningStatus::Unknown,
        Some(browser) => browser.running_state(profile_is_dir, probes),
    }
}

} // verus!
