use vstd::prelude::*;

use crate::config::{Config, LaunchMode};
use crate::constants::{D2R_EXE, D2R_STEAM_APP_ID};
use crate::domain::Region;
use crate::paths::{
    is_plain_file_name, path_file_name, path_join, path_parent, paths_equal, spec_path_file_name, spec_path_join,
    spec_path_parent, spec_paths_equal,
};
use crate::text::{decimal, push_decimal};

verus! {

/// The operating system that the launcher runs on, which decides how a URI is opened.
#[derive(Debug, Clone, Copy, PartialEq, Eq, Structural)]
pub enum Platform {
    Windows,
    MacOs,
    Linux,
}

/// A program to run and the arguments to run it with.
#[derive(Debug, PartialEq, Eq)]
pub struct CommandInvocation {
    pub program: &'static str,
    pub args: Vec<String>,
}

/// How to run the game's executable directly.
#[derive(Debug, PartialEq, Eq)]
pub struct DirectCommand {
    /// The executable.
    pub program: String,
    /// The directory to run it in: the one that holds it.
    pub working_dir: String,
    pub args: Vec<String>,
}

/// What the launcher does to start the game.
#[derive(Debug, PartialEq, Eq)]
pub enum LaunchPlan {
    /// Run this command, which hands a `steam://` URI to the platform's opener.
    Steam(CommandInvocation),
    /// Run the first of these candidate executables that exists, pointed at `address`.
    Direct { candidates: Vec<String>, address: &'static str },
}

/// Why the game could not be started.
#[derive(Debug, Clone, PartialEq, Eq)]
pub enum LaunchError {
    /// No candidate executable exists; this is the first one that was looked for.
    ExecutableNotFound(String),
    /// Starting a process failed, with this message.
    Launch(String),
}

/// The text of each string.
pub open spec fn texts(v: Seq<String>) -> Seq<Seq<char>> {
    v.map_values(|s: String| s@)
}

/// The program that opens a URI on the platform.
pub open spec fn spec_opener(platform: Platform) -> Seq<char> {
    match platform {
        Platform::Windows => "cmd"@,
        Platform::MacOs => "open"@,
        Platform::Linux => "xdg-open"@,
    }
}

/// The arguments with which the platform's opener opens `uri`.
pub open spec fn spec_opener_args(platform: Platform, uri: Seq<char>) -> Seq<Seq<char>> {
    match platform {
        Platform::Windows => seq!["/c"@, "start"@, uri],
        _ => seq![uri],
    }
}

/// The Steam URI that starts the game against the region's server.
pub open spec fn spec_steam_uri(region: Region) -> Seq<char> {
    "steam://run/"@ + decimal(D2R_STEAM_APP_ID as nat) + "//-address%20"@ + region.spec_ping_host()
}

/// The ASCII lower case of a character.
pub open spec fn ascii_lower(c: char) -> char {
    if 'A' <= c && c <= 'Z' {
        ((c as u32) + 32) as char
    } else {
        c
    }
}

/// Whether two texts are equal when ASCII letters are compared without regard to case.
pub open spec fn spec_eq_ignore_ascii_case(a: Seq<char>, b: Seq<char>) -> bool {
    &&& a.len() == b.len()
    &&& forall|i: int| 0 <= i < a.len() ==> ascii_lower(#[trigger] a[i]) == ascii_lower(b[i])
}

/// The game executable that a configured path stands for: the path itself
/// where it names the executable, else the executable in that directory.
pub open spec fn spec_resolve_direct_executable(path: Seq<char>) -> Seq<char> {
    match spec_path_file_name(path) {
        Some(name) => if spec_eq_ignore_ascii_case(name, D2R_EXE@) {
            path
        } else {
            spec_path_join(path, D2R_EXE@)
        },
        None => spec_path_join(path, D2R_EXE@),
    }
}

/// The directory of a file, or the working directory where it has none.
pub open spec fn spec_parent_or_current(path: Seq<char>) -> Seq<char> {
    match spec_path_parent(path) {
        Some(parent) => parent,
        None => "."@,
    }
}

/// The game executable next to the launcher's own executable.
pub open spec fn spec_resolve_sibling_direct_executable(launcher_exe: Seq<char>) -> Seq<char> {
    spec_path_join(spec_parent_or_current(launcher_exe), D2R_EXE@)
}

/// Whether some path in `paths` is the same path as `candidate`.
pub open spec fn contains_path(paths: Seq<Seq<char>>, candidate: Seq<char>) -> bool {
    exists|i: int| 0 <= i < paths.len() && spec_paths_equal(#[trigger] paths[i], candidate)
}

/// `paths` with `candidate` added at the end, unless it is already there.
pub open spec fn spec_push_unique(paths: Seq<Seq<char>>, candidate: Seq<char>) -> Seq<Seq<char>> {
    if contains_path(paths, candidate) {
        paths
    } else {
        paths.push(candidate)
    }
}

/// The executables that direct launch looks for, in order: the one at the
/// configured path, then the one next to the launcher.
pub open spec fn spec_direct_executable_candidates(
    config_path: Option<Seq<char>>,
    launcher_exe: Option<Seq<char>>,
) -> Seq<Seq<char>> {
    let first = match config_path {
        Some(path) => seq![spec_resolve_direct_executable(path)],
        None => Seq::empty(),
    };
    match launcher_exe {
        Some(exe) => spec_push_unique(first, spec_resolve_sibling_direct_executable(exe)),
        None => first,
    }
}

/// Whether `i` is the first index at which `exists` holds.
pub open spec fn is_first_existing(exists: Seq<bool>, i: int) -> bool {
    &&& 0 <= i < exists.len()
    &&& exists[i]
    &&& forall|j: int| 0 <= j < i ==> !exists[j]
}

/// Whether the two texts are equal without regard to the case of ASCII letters.
pub fn eq_ignore_ascii_case(a: &str, b: &str) -> (eq: bool)
    ensures
        eq == spec_eq_ignore_ascii_case(a@, b@),
{
    let n = a.unicode_len();
    if n != b.unicode_len() {
        return false;
    }
    let mut i: usize = 0;
    while i < n
        invariant
            n == a@.len(),
            n == b@.len(),
            i <= n,
            forall|j: int| 0 <= j < i ==> ascii_lower(#[trigger] a@[j]) == ascii_lower(b@[j]),
        decreases n - i,
    {
        let x = a.get_char(i);
        let y = b.get_char(i);
        let lx = if 'A' <= x && x <= 'Z' {
            char_offset(x)
        } else {
            x
        };
        let ly = if 'A' <= y && y <= 'Z' {
            char_offset(y)
        } else {
            y
        };
        if lx != ly {
            return false;
        }
        i = i + 1;
    }
    true
}

/// The lower case of an ASCII capital letter.
fn char_offset(c: char) -> (lower: char)
    requires
        'A' <= c <= 'Z',
    ensures
        lower == ascii_lower(c),
{
    let code: u32 = (c as u32) + 32;
    let lower: u8 = code as u8;
    lower as char
}

/// The command that hands `uri` to the platform's opener.
pub fn open_uri_invocation(platform: Platform, uri: &str) -> (invocation: CommandInvocation)
    ensures
        invocation.program@ == spec_opener(platform),
        texts(invocation.args@) == spec_opener_args(platform, uri@),
        invocation.args@.len() >= 1,
        invocation.args@.last()@ == uri@,
{
    let mut args: Vec<String> = Vec::new();
    let program = match platform {
        Platform::Windows => {
            args.push(String::from_str("/c"));
            args.push(String::from_str("start"));
            args.push(String::from_str(uri));
            "cmd"
        },
        Platform::MacOs => {
            args.push(String::from_str(uri));
            "open"
        },
        Platform::Linux => {
            args.push(String::from_str(uri));
            "xdg-open"
        },
    };
    assert(texts(args@) =~= spec_opener_args(platform, uri@));
    CommandInvocation { program, args }
}

/// The Steam URI that starts the game against the region's server.
pub fn steam_uri(region: Region) -> (uri: String)
    ensures
        uri@ == spec_steam_uri(region),
{
    let mut uri = String::from_str("steam://run/");
    push_decimal(&mut uri, D2R_STEAM_APP_ID as u64);
    uri.append("//-address%20");
    uri.append(region.ping_host());
    uri
}

/// The command that starts the game through Steam against the region's server.
pub fn launch_steam(region: Region, platform: Platform) -> (invocation: CommandInvocation)
    ensures
        invocation.program@ == spec_opener(platform),
        texts(invocation.args@) == spec_opener_args(platform, spec_steam_uri(region)),
        invocation.args@.len() >= 1,
        invocation.args@.last()@ == spec_steam_uri(region),
        ends_with(invocation.args@.last()@, "//-address%20"@ + region.spec_ping_host()),
        invocation.args@.last()@.subrange(0, 12) == "steam://run/"@,
{
    proof {
        lemma_steam_uri_addresses_region_server(region);
    }
    let uri = steam_uri(region);
    open_uri_invocation(platform, uri.as_str())
}

/// The game executable that a configured path stands for: the path itself
/// where its file name is `D2R.exe` in any case, else `D2R.exe` in that directory.
///
/// The executable it gives is its own resolution: its file name is `D2R.exe`
/// in some case, so resolving it again gives it back.
pub fn resolve_direct_executable(path: &str) -> (exe: String)
    ensures
        exe@ == spec_resolve_direct_executable(path@),
        spec_resolve_direct_executable(exe@) == exe@,
        spec_path_file_name(exe@) matches Some(name) && spec_eq_ignore_ascii_case(name, D2R_EXE@),
{
    proof {
        lemma_executable_name_is_plain();
    }
    match path_file_name(path) {
        Some(name) => {
            if eq_ignore_ascii_case(name.as_str(), D2R_EXE) {
                String::from_str(path)
            } else {
                path_join(path, D2R_EXE)
            }
        },
        None => path_join(path, D2R_EXE),
    }
}

/// `D2R.exe` is one ordinary path component, and matches itself without
/// regard to case.
proof fn lemma_executable_name_is_plain()
    ensures
        is_plain_file_name(D2R_EXE@),
        spec_eq_ignore_ascii_case(D2R_EXE@, D2R_EXE@),
{
    reveal_strlit("D2R.exe");
    assert(D2R_EXE@.len() == 7);
    assert(D2R_EXE@ != seq!['.']);
    assert(D2R_EXE@ != seq!['.', '.']);
}

/// The directory that holds a file, or `.` where the path has no parent.
pub fn parent_or_current(path: &str) -> (dir: String)
    ensures
        dir@ == spec_parent_or_current(path@),
{
    match path_parent(path) {
        Some(parent) => parent,
        None => String::from_str("."),
    }
}

/// The game executable next to the launcher's own executable.
pub fn resolve_sibling_direct_executable(launcher_exe: &str) -> (exe: String)
    ensures
        exe@ == spec_resolve_sibling_direct_executable(launcher_exe@),
        spec_path_file_name(exe@) == Some(D2R_EXE@),
        spec_resolve_direct_executable(exe@) == exe@,
{
    proof {
        lemma_executable_name_is_plain();
    }
    let dir = parent_or_current(launcher_exe);
    path_join(dir.as_str(), D2R_EXE)
}

/// Adds `candidate` at the end of `paths`, unless the same path is already there.
pub fn push_unique_path(paths: &mut Vec<String>, candidate: String)
    ensures
        texts(final(paths)@) == spec_push_unique(texts(old(paths)@), candidate@),
{
    let ghost before = texts(paths@);
    let mut i: usize = 0;
    while i < paths.len()
        invariant
            texts(paths@) == before,
            i <= paths.len(),
            forall|j: int| 0 <= j < i ==> !spec_paths_equal(#[trigger] before[j], candidate@),
        decreases paths.len() - i,
    {
        if paths_equal(paths[i].as_str(), candidate.as_str()) {
            assert(spec_paths_equal(before[i as int], candidate@));
            return;
        }
        i = i + 1;
    }
    paths.push(candidate);
    assert(texts(paths@) =~= before.push(candidate@));
}

/// The executables that direct launch looks for, in order, without repeats:
/// the one at the configured path, then the one next to the launcher.
pub fn direct_executable_candidates(config_path: Option<&str>, launcher_exe: Option<&str>) -> (candidates: Vec<String>)
    ensures
        texts(candidates@) == spec_direct_executable_candidates(
            match config_path {
                Some(p) => Some(p@),
                None => None,
            },
            match launcher_exe {
                Some(e) => Some(e@),
                None => None,
            },
        ),
{
    let mut candidates: Vec<String> = Vec::new();
    if let Some(path) = config_path {
        push_unique_path(&mut candidates, resolve_direct_executable(path));
        assert(!contains_path(Seq::empty(), spec_resolve_direct_executable(path@)));
        assert(texts(candidates@) =~= seq![spec_resolve_direct_executable(path@)]);
    } else {
        assert(texts(candidates@) =~= Seq::empty());
    }
    if let Some(exe) = launcher_exe {
        push_unique_path(&mut candidates, resolve_sibling_direct_executable(exe));
    }
    candidates
}

/// The executable that direct launch runs, given which candidates exist: the
/// first that exists. Where none does, the error names the first candidate,
/// or `D2R.exe` where there is none.
pub fn find_direct_executable(candidates: &Vec<String>, exists: &Vec<bool>) -> (exe: Result<String, LaunchError>)
    requires
        candidates.len() == exists.len(),
    ensures
        match exe {
            Ok(path) => exists|i: int|
                is_first_existing(exists@, i) && path@ == #[trigger] candidates@[i]@,
            Err(LaunchError::ExecutableNotFound(path)) => {
                &&& forall|i: int| 0 <= i < exists@.len() ==> !exists@[i]
                &&& path@ == if candidates.len() > 0 {
                    candidates@[0]@
                } else {
                    D2R_EXE@
                }
            },
            Err(LaunchError::Launch(_)) => false,
        },
{
    let mut i: usize = 0;
    while i < candidates.len()
        invariant
            candidates.len() == exists.len(),
            i <= candidates.len(),
            forall|j: int| 0 <= j < i ==> !exists@[j],
        decreases candidates.len() - i,
    {
        if exists[i] {
            let path = candidates[i].clone();
            assert(is_first_existing(exists@, i as int) && path@ == candidates@[i as int]@);
            return Ok(path);
        }
        i = i + 1;
    }
    if candidates.len() > 0 {
        Err(LaunchError::ExecutableNotFound(candidates[0].clone()))
    } else {
        Err(LaunchError::ExecutableNotFound(String::from_str(D2R_EXE)))
    }
}

/// How to run the game's executable at `exe` against the server at `address`:
/// in the executable's directory, with `-address` and the address as arguments.
pub fn direct_command(exe: &str, address: &str) -> (command: DirectCommand)
    ensures
        command.program@ == exe@,
        command.working_dir@ == spec_parent_or_current(exe@),
        texts(command.args@) == seq!["-address"@, address@],
{
    let mut args: Vec<String> = Vec::new();
    args.push(String::from_str("-address"));
    args.push(String::from_str(address));
    assert(texts(args@) =~= seq!["-address"@, address@]);
    DirectCommand {
        program: String::from_str(exe),
        working_dir: parent_or_current(exe),
        args,
    }
}

/// What starting the game in the configured launch mode takes: through Steam,
/// the command that opens the Steam URI for the region; directly, the
/// executables to look for and the region's server address.
pub fn launch(config: &Config, region: Region, platform: Platform, launcher_exe: Option<&str>) -> (plan: LaunchPlan)
    ensures
        match config.launch_mode {
            LaunchMode::Steam => plan matches LaunchPlan::Steam(invocation) && {
                &&& invocation.program@ == spec_opener(platform)
                &&& texts(invocation.args@) == spec_opener_args(platform, spec_steam_uri(region))
            },
            LaunchMode::Direct => plan matches LaunchPlan::Direct { candidates, address } && {
                &&& address@ == region.spec_ping_host()
                &&& texts(candidates@) == spec_direct_executable_candidates(
                    match config.d2r_path {
                        Some(p) => Some(p@),
                        None => None,
                    },
                    match launcher_exe {
                        Some(e) => Some(e@),
                        None => None,
                    },
                )
            },
        },
{
    match config.launch_mode {
        LaunchMode::Steam => LaunchPlan::Steam(launch_steam(region, platform)),
        LaunchMode::Direct => {
            let configured = config.resolved_d2r_path();
            let candidates = match &configured {
                Some(path) => direct_executable_candidates(Some(path.as_str()), launcher_exe),
                None => direct_executable_candidates(None, launcher_exe),
            };
            LaunchPlan::Direct { candidates, address: region.ping_host() }
        },
    }
}

/// Direct launch looks first at the configured path, then next to the
/// launcher, and never at the same path twice.
pub proof fn lemma_candidates_order_without_repeats(
    config_path: Option<Seq<char>>,
    launcher_exe: Option<Seq<char>>,
)
    ensures
        ({
            let c = spec_direct_executable_candidates(config_path, launcher_exe);
            &&& c.len() <= 2
            &&& config_path matches Some(p) ==> c.len() >= 1 && c[0]
                == spec_resolve_direct_executable(p)
            &&& launcher_exe matches Some(e) ==> c.len() >= 1 && (c.last()
                == spec_resolve_sibling_direct_executable(e) || contains_path(
                c,
                spec_resolve_sibling_direct_executable(e),
            ))
            &&& c.len() == 2 ==> !spec_paths_equal(c[0], c[1])
            &&& config_path is None && launcher_exe is None ==> c.len() == 0
        }),
{
    let first: Seq<Seq<char>> = match config_path {
        Some(path) => seq![spec_resolve_direct_executable(path)],
        None => Seq::empty(),
    };
    if let Some(e) = launcher_exe {
        let sib = spec_resolve_sibling_direct_executable(e);
        if !contains_path(first, sib) && first.len() == 1 {
            assert(!spec_paths_equal(first[0], sib));
        }
    }
}

/// Whether `s` ends with `suffix`.
pub open spec fn ends_with(s: Seq<char>, suffix: Seq<char>) -> bool {
    suffix.len() <= s.len() && s.subrange(s.len() - suffix.len(), s.len() as int) == suffix
}

/// On every platform the opener is handed the URI unchanged, as its last
/// argument; on Windows it comes after `/c start`.
pub proof fn lemma_opener_passes_uri_unchanged(platform: Platform, uri: Seq<char>)
    ensures
        spec_opener_args(platform, uri).len() >= 1,
        spec_opener_args(platform, uri).last() == uri,
        platform == Platform::Windows ==> spec_opener_args(platform, uri).len() == 3
            && spec_opener_args(platform, uri)[0] == "/c"@ && spec_opener_args(platform, uri)[1]
            == "start"@,
        platform != Platform::Windows ==> spec_opener_args(platform, uri).len() == 1,
{
}

/// The Steam URI runs the game's Steam app and points it at the region's
/// server: it starts with `steam://run/` and ends with `//-address%20` and
/// the region's host.
pub proof fn lemma_steam_uri_addresses_region_server(region: Region)
    ensures
        ends_with(spec_steam_uri(region), "//-address%20"@ + region.spec_ping_host()),
        spec_steam_uri(region).len() >= 12,
        spec_steam_uri(region).subrange(0, 12) == "steam://run/"@,
{
    reveal_strlit("steam://run/");
    let head = "steam://run/"@ + decimal(D2R_STEAM_APP_ID as nat);
    let tail = "//-address%20"@ + region.spec_ping_host();
    assert(spec_steam_uri(region) =~= head + tail);
    assert((head + tail).subrange((head + tail).len() - tail.len(), (head + tail).len() as int)
        =~= tail);
    assert((head + tail).subrange(0, 12) =~= "steam://run/"@);
}

} // verus!
