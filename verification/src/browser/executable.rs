//! Where the browser's executable is found: the places that are looked at
//! and the order in which what was found there is preferred.

use vstd::prelude::*;
use vstd::string::*;
use crate::error::Error;
use crate::text::{contains, has_substring};

verus! {

/// The operating system that the browser is looked for on.
#[derive(Debug, Clone, Copy, PartialEq, Eq, Structural)]
pub enum Platform {
    Windows,
    MacOs,
    Linux,
    Other,
}

/// The name of the environment variable that names the executable.
pub const EXECUTABLE_VARIABLE: &'static str = "CHROME";

/// Where browsers are usually installed on `platform`, in the order in which
/// the places are tried.
pub open spec fn well_known_places(platform: Platform) -> Seq<Seq<char>> {
    match platform {
        Platform::Windows => seq![
            "C:\\Program Files\\Google\\Chrome\\Application\\chrome.exe"@,
            "C:\\Program Files (x86)\\Google\\Chrome\\Application\\chrome.exe"@,
            "C:\\Program Files\\Microsoft\\Edge\\Application\\msedge.exe"@,
            "C:\\Program Files (x86)\\Microsoft\\Edge\\Application\\msedge.exe"@,
        ],
        Platform::MacOs => seq![
            "/Applications/Google Chrome.app/Contents/MacOS/Google Chrome"@,
            "/Applications/Microsoft Edge.app/Contents/MacOS/Microsoft Edge"@,
        ],
        Platform::Linux => seq![
            "/usr/bin/google-chrome"@,
            "/usr/bin/google-chrome-stable"@,
            "/usr/bin/chromium"@,
            "/usr/bin/chromium-browser"@,
        ],
        Platform::Other => Seq::empty(),
    }
}

/// The names under which a browser may be found on the search path, in the
/// order in which they are tried.
pub open spec fn command_names() -> Seq<Seq<char>> {
    seq![
        "google-chrome-stable"@,
        "chromium"@,
        "chromium-browser"@,
        "chrome"@,
        "msedge"@,
        "microsoft-edge"@,
    ]
}

/// The registry keys under which a browser's path may be recorded on
/// `platform`, in the order in which they are tried.
pub open spec fn registry_keys(platform: Platform) -> Seq<Seq<char>> {
    match platform {
        Platform::Windows => seq![
            "SOFTWARE\\Microsoft\\Windows\\CurrentVersion\\App Paths\\chrome.exe"@,
            "SOFTWARE\\Microsoft\\Windows\\CurrentVersion\\App Paths\\msedge.exe"@,
        ],
        _ => Seq::empty(),
    }
}

/// The views of a list of string slices.
pub open spec fn slices_view(slices: Seq<&'static str>) -> Seq<Seq<char>> {
    slices.map_values(|s: &'static str| s@)
}

fn push_slice(list: &mut Vec<&'static str>, text: &'static str)
    ensures
        slices_view(final(list)@) == slices_view(old(list)@).push(text@),
{
    list.push(text);
    assert(slices_view(list@) =~= slices_view(old(list)@).push(text@));
}

/// Lists where browsers are usually installed on `platform`.
pub fn well_known_paths(platform: Platform) -> (places: Vec<&'static str>)
    ensures
        slices_view(places@) == well_known_places(platform),
{
    let mut places: Vec<&'static str> = Vec::new();
    assert(slices_view(places@) =~= Seq::<Seq<char>>::empty());
    match platform {
        Platform::Windows => {
            push_slice(&mut places, "C:\\Program Files\\Google\\Chrome\\Application\\chrome.exe");
            push_slice(
                &mut places,
                "C:\\Program Files (x86)\\Google\\Chrome\\Application\\chrome.exe",
            );
            push_slice(&mut places, "C:\\Program Files\\Microsoft\\Edge\\Application\\msedge.exe");
            push_slice(
                &mut places,
                "C:\\Program Files (x86)\\Microsoft\\Edge\\Application\\msedge.exe",
            );
        },
        Platform::MacOs => {
            push_slice(&mut places, "/Applications/Google Chrome.app/Contents/MacOS/Google Chrome");
            push_slice(
                &mut places,
                "/Applications/Microsoft Edge.app/Contents/MacOS/Microsoft Edge",
            );
        },
        Platform::Linux => {
            push_slice(&mut places, "/usr/bin/google-chrome");
            push_slice(&mut places, "/usr/bin/google-chrome-stable");
            push_slice(&mut places, "/usr/bin/chromium");
            push_slice(&mut places, "/usr/bin/chromium-browser");
        },
        Platform::Other => {},
    }
    assert(slices_view(places@) =~= well_known_places(platform));
    places
}

/// Lists the names under which a browser may be found on the search path.
pub fn browser_commands() -> (names: Vec<&'static str>)
    ensures
        slices_view(names@) == command_names(),
{
    let mut names: Vec<&'static str> = Vec::new();
    assert(slices_view(names@) =~= Seq::<Seq<char>>::empty());
    push_slice(&mut names, "google-chrome-stable");
    push_slice(&mut names, "chromium");
    push_slice(&mut names, "chromium-browser");
    push_slice(&mut names, "chrome");
    push_slice(&mut names, "msedge");
    push_slice(&mut names, "microsoft-edge");
    assert(slices_view(names@) =~= command_names());
    names
}

/// Lists the registry keys under which a browser's path may be recorded on
/// `platform`.
pub fn browser_registry_keys(platform: Platform) -> (keys: Vec<&'static str>)
    ensures
        slices_view(keys@) == registry_keys(platform),
{
    let mut keys: Vec<&'static str> = Vec::new();
    assert(slices_view(keys@) =~= Seq::<Seq<char>>::empty());
    match platform {
        Platform::Windows => {
            push_slice(
                &mut keys,
                "SOFTWARE\\Microsoft\\Windows\\CurrentVersion\\App Paths\\chrome.exe",
            );
            push_slice(
                &mut keys,
                "SOFTWARE\\Microsoft\\Windows\\CurrentVersion\\App Paths\\msedge.exe",
            );
        },
        _ => {},
    }
    assert(slices_view(keys@) =~= registry_keys(platform));
    keys
}

/// Whether `path` lies inside the mount point of a sandboxed package, from
/// where a program cannot be started directly.
pub open spec fn sandboxed(path: Seq<char>) -> bool {
    has_substring(path, "/var/lib/flatpak"@) || has_substring(path, "/snap/"@)
}

/// Tells whether `path` lies inside the mount point of a sandboxed package.
pub fn is_sandboxed(path: &str) -> (b: bool)
    ensures
        b == sandboxed(path@),
{
    contains(path, "/var/lib/flatpak") || contains(path, "/snap/")
}

/// A path that was looked at, and whether something exists there.
#[derive(Debug, PartialEq, Eq)]
pub struct Candidate {
    pub path: String,
    pub exists: bool,
}

/// A program found on the search path.
#[derive(Debug, PartialEq, Eq)]
pub struct PathHit {
    /// Where the program was found.
    pub found: String,
    /// Where that leads once links are followed, if that could be told.
    pub resolved: Option<String>,
}

/// What was found when the places a browser may be at were looked at.
#[derive(Debug, PartialEq, Eq)]
pub struct Probes {
    /// The path that the caller named, if the caller named one.
    pub custom: Option<Candidate>,
    /// The value of the environment variable, if it is set.
    pub env: Option<String>,
    /// The usual places of installation, in order.
    pub well_known: Vec<Candidate>,
    /// The programs found on the search path, in the order of their names.
    pub on_path: Vec<PathHit>,
    /// The paths recorded in the registry, in the order of their keys.
    pub registry: Vec<Candidate>,
}

/// The mathematical value of a [`Candidate`].
pub struct CandidateView {
    pub path: Seq<char>,
    pub exists: bool,
}

/// The mathematical value of a [`PathHit`].
pub struct PathHitView {
    pub found: Seq<char>,
    pub resolved: Option<Seq<char>>,
}

/// The mathematical value of [`Probes`].
pub struct ProbesView {
    pub custom: Option<CandidateView>,
    pub env: Option<Seq<char>>,
    pub well_known: Seq<CandidateView>,
    pub on_path: Seq<PathHitView>,
    pub registry: Seq<CandidateView>,
}

impl View for Candidate {
    type V = CandidateView;

    open spec fn view(&self) -> CandidateView {
        CandidateView { path: self.path@, exists: self.exists }
    }
}

impl View for PathHit {
    type V = PathHitView;

    open spec fn view(&self) -> PathHitView {
        PathHitView {
            found: self.found@,
            resolved: match self.resolved {
                Some(r) => Some(r@),
                None => None,
            },
        }
    }
}

/// The values of a list of candidates.
pub open spec fn candidates_view(candidates: Seq<Candidate>) -> Seq<CandidateView> {
    candidates.map_values(|c: Candidate| c@)
}

/// The values of a list of hits.
pub open spec fn hits_view(hits: Seq<PathHit>) -> Seq<PathHitView> {
    hits.map_values(|h: PathHit| h@)
}

impl View for Probes {
    type V = ProbesView;

    open spec fn view(&self) -> ProbesView {
        ProbesView {
            custom: match self.custom {
                Some(c) => Some(c@),
                None => None,
            },
            env: match self.env {
                Some(e) => Some(e@),
                None => None,
            },
            well_known: candidates_view(self.well_known@),
            on_path: hits_view(self.on_path@),
            registry: candidates_view(self.registry@),
        }
    }
}

/// The first of `candidates` that exists.
pub open spec fn first_existing(candidates: Seq<CandidateView>) -> Option<Seq<char>>
    decreases candidates.len(),
{
    if candidates.len() == 0 {
        None
    } else if candidates[0].exists {
        Some(candidates[0].path)
    } else {
        first_existing(candidates.drop_first())
    }
}

impl PathHitView {
    /// Whether the program can be started directly: neither where it was
    /// found nor where that leads lies in a sandboxed package.
    pub open spec fn runnable(self) -> bool {
        !sandboxed(self.found) && match self.resolved {
            Some(r) => !sandboxed(r),
            None => true,
        }
    }
}

/// The first of `hits` that can be started directly.
pub open spec fn first_runnable(hits: Seq<PathHitView>) -> Option<Seq<char>>
    decreases hits.len(),
{
    if hits.len() == 0 {
        None
    } else if hits[0].runnable() {
        Some(hits[0].found)
    } else {
        first_runnable(hits.drop_first())
    }
}

/// The executable found without a path named by the caller: the first of
/// the environment variable's value, the usual places that exist, the
/// programs on the search path that can be started directly, and the paths
/// recorded in the registry that exist.
pub open spec fn discovered(probes: ProbesView) -> Option<Seq<char>> {
    if probes.env is Some {
        probes.env
    } else if first_existing(probes.well_known) is Some {
        first_existing(probes.well_known)
    } else if first_runnable(probes.on_path) is Some {
        first_runnable(probes.on_path)
    } else {
        first_existing(probes.registry)
    }
}

/// The executable to start. A path named by the caller decides alone: it is
/// taken if it exists, and nothing else is considered if it does not.
pub open spec fn resolved(probes: ProbesView) -> Option<Seq<char>> {
    match probes.custom {
        Some(c) => if c.exists {
            Some(c.path)
        } else {
            None
        },
        None => discovered(probes),
    }
}

/// The value of an optional string.
pub open spec fn string_view(text: Option<String>) -> Option<Seq<char>> {
    match text {
        Some(t) => Some(t@),
        None => None,
    }
}

fn pick_existing(candidates: &Vec<Candidate>) -> (path: Option<String>)
    ensures
        string_view(path) == first_existing(candidates_view(candidates@)),
{
    let ghost all = candidates_view(candidates@);
    let mut i: usize = 0;
    assert(all.subrange(0, all.len() as int) == all);
    while i < candidates.len()
        invariant
            i <= candidates@.len(),
            all == candidates_view(candidates@),
            first_existing(all) == first_existing(all.subrange(i as int, all.len() as int)),
        decreases candidates@.len() - i,
    {
        let ghost rest = all.subrange(i as int, all.len() as int);
        assert(rest[0] == all[i as int]);
        assert(rest.drop_first() == all.subrange(i + 1, all.len() as int));
        if candidates[i].exists {
            return Some(candidates[i].path.clone());
        }
        i = i + 1;
    }
    None
}

fn hit_runnable(hit: &PathHit) -> (b: bool)
    ensures
        b == hit@.runnable(),
{
    if is_sandboxed(hit.found.as_str()) {
        return false;
    }
    match &hit.resolved {
        Some(r) => !is_sandboxed(r.as_str()),
        None => true,
    }
}

fn pick_runnable(hits: &Vec<PathHit>) -> (path: Option<String>)
    ensures
        string_view(path) == first_runnable(hits_view(hits@)),
{
    let ghost all = hits_view(hits@);
    let mut i: usize = 0;
    assert(all.subrange(0, all.len() as int) == all);
    while i < hits.len()
        invariant
            i <= hits@.len(),
            all == hits_view(hits@),
            first_runnable(all) == first_runnable(all.subrange(i as int, all.len() as int)),
        decreases hits@.len() - i,
    {
        let ghost rest = all.subrange(i as int, all.len() as int);
        assert(rest[0] == all[i as int]);
        assert(rest.drop_first() == all.subrange(i + 1, all.len() as int));
        if hit_runnable(&hits[i]) {
            return Some(hits[i].found.clone());
        }
        i = i + 1;
    }
    None
}

/// Finds the executable to start when the caller names none: the first
/// match in the order of [`discovered`].
pub fn default_executable(probes: &Probes) -> (path: Result<String, Error>)
    ensures
        match path {
            Ok(p) => discovered(probes@) == Some(p@),
            Err(e) => e == Error::ExecutableNotFound && discovered(probes@) is None,
        },
{
    if let Some(p) = &probes.env {
        return Ok(p.clone());
    }
    if let Some(p) = pick_existing(&probes.well_known) {
        return Ok(p);
    }
    if let Some(p) = pick_runnable(&probes.on_path) {
        return Ok(p);
    }
    match pick_existing(&probes.registry) {
        Some(p) => Ok(p),
        None => Err(Error::ExecutableNotFound),
    }
}

/// Finds the executable to start: the path that the caller named, or else
/// the first match in the order of [`discovered`].
pub fn find_chrome(probes: &Probes) -> (path: Result<String, Error>)
    ensures
        match path {
            Ok(p) => resolved(probes@) == Some(p@),
            Err(e) => e == Error::ExecutableNotFound && resolved(probes@) is None,
        },
{
    match &probes.custom {
        Some(c) => if c.exists {
            Ok(c.path.clone())
        } else {
            Err(Error::ExecutableNotFound)
        },
        None => default_executable(probes),
    }
}

} // verus!
