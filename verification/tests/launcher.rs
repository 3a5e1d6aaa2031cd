use std::path::Path;

use d2rlauncher::config::{Config, LaunchMode};
use d2rlauncher::constants::D2R_EXE;
use d2rlauncher::domain::Region;
use d2rlauncher::launcher::{
    direct_command, direct_executable_candidates, eq_ignore_ascii_case, find_direct_executable,
    launch, launch_steam, open_uri_invocation, parent_or_current, push_unique_path,
    resolve_direct_executable, resolve_sibling_direct_executable, steam_uri, LaunchError,
    LaunchPlan, Platform,
};

fn joined(base: &str, tail: &str) -> String {
    Path::new(base).join(tail).to_string_lossy().into_owned()
}

#[test]
fn resolve_direct_executable_accepts_install_directory() {
    let path = "/games/d2r";
    assert_eq!(resolve_direct_executable(path), joined(path, D2R_EXE));
}

#[test]
fn resolve_direct_executable_accepts_executable_path() {
    let path = "/games/d2r/D2R.exe";
    assert_eq!(resolve_direct_executable(path), path);
}

#[test]
fn resolve_sibling_direct_executable_should_use_launcher_directory() {
    let launcher = "/games/d2rlauncher/d2rlauncher";
    assert_eq!(
        resolve_sibling_direct_executable(launcher),
        joined("/games/d2rlauncher", D2R_EXE)
    );
}

#[test]
fn direct_executable_candidates_should_prefer_configured_path_then_sibling_path() {
    let candidates = direct_executable_candidates(Some("/games/d2r"), Some("/tools/d2rlauncher"));

    assert_eq!(
        candidates,
        vec![joined("/games/d2r", D2R_EXE), joined("/tools", D2R_EXE)]
    );
}

#[test]
fn open_uri_invocation_should_use_platform_launcher() {
    let invocation = open_uri_invocation(Platform::Windows, "steam://run/2536520");
    assert_eq!(invocation.program, "cmd");
    assert_eq!(invocation.args, vec!["/c", "start", "steam://run/2536520"]);

    let invocation = open_uri_invocation(Platform::MacOs, "steam://run/2536520");
    assert_eq!(invocation.program, "open");
    assert_eq!(invocation.args, vec!["steam://run/2536520"]);

    let invocation = open_uri_invocation(Platform::Linux, "steam://run/2536520");
    assert_eq!(invocation.program, "xdg-open");
    assert_eq!(invocation.args, vec!["steam://run/2536520"]);
}

#[test]
fn resolve_direct_executable_ignores_case_of_executable_name() {
    assert_eq!(resolve_direct_executable("/games/d2r/d2r.EXE"), "/games/d2r/d2r.EXE");
    assert_eq!(resolve_direct_executable("/games/d2r/D2R.exe2"), "/games/d2r/D2R.exe2/D2R.exe");
}

#[test]
fn resolve_direct_executable_joins_when_path_has_no_file_name() {
    assert_eq!(resolve_direct_executable("/"), "/D2R.exe");
    assert_eq!(resolve_direct_executable("/games/.."), "/games/../D2R.exe");
}

#[test]
fn resolve_sibling_direct_executable_uses_current_directory_without_parent() {
    assert_eq!(resolve_sibling_direct_executable("d2rlauncher"), "D2R.exe");
    assert_eq!(resolve_sibling_direct_executable("/"), "./D2R.exe");
}

#[test]
fn parent_or_current_gives_directory() {
    assert_eq!(parent_or_current("/games/d2r/D2R.exe"), "/games/d2r");
    assert_eq!(parent_or_current(""), ".");
}

#[test]
fn candidates_without_duplicates_when_configured_next_to_launcher() {
    let candidates = direct_executable_candidates(Some("/games/d2r"), Some("/games/d2r/d2rlauncher"));
    assert_eq!(candidates, vec![joined("/games/d2r", D2R_EXE)]);
}

#[test]
fn candidates_from_one_source_only() {
    assert_eq!(
        direct_executable_candidates(None, Some("/tools/d2rlauncher")),
        vec![joined("/tools", D2R_EXE)]
    );
    assert_eq!(
        direct_executable_candidates(Some("/games/D2R.EXE"), None),
        vec!["/games/D2R.EXE".to_string()]
    );
    assert!(direct_executable_candidates(None, None).is_empty());
}

#[test]
fn push_unique_path_compares_by_components() {
    let mut paths = vec!["/games/d2r/D2R.exe".to_string()];
    push_unique_path(&mut paths, "/games//d2r/D2R.exe".to_string());
    assert_eq!(paths.len(), 1);
    push_unique_path(&mut paths, "/tools/D2R.exe".to_string());
    assert_eq!(paths, vec!["/games/d2r/D2R.exe", "/tools/D2R.exe"]);
}

#[test]
fn eq_ignore_ascii_case_compares_letters_only_by_case() {
    assert!(eq_ignore_ascii_case("D2R.exe", "d2r.EXE"));
    assert!(!eq_ignore_ascii_case("D2R.exe", "D2R.ex"));
    assert!(!eq_ignore_ascii_case("D2R.exe", "D3R.exe"));
    assert!(eq_ignore_ascii_case("", ""));
}

#[test]
fn find_direct_executable_takes_first_existing_candidate() {
    let candidates = vec!["/a/D2R.exe".to_string(), "/b/D2R.exe".to_string()];
    assert_eq!(
        find_direct_executable(&candidates, &vec![false, true]),
        Ok("/b/D2R.exe".to_string())
    );
    assert_eq!(
        find_direct_executable(&candidates, &vec![true, true]),
        Ok("/a/D2R.exe".to_string())
    );
}

#[test]
fn find_direct_executable_reports_first_candidate_when_none_exists() {
    let candidates = vec!["/a/D2R.exe".to_string(), "/b/D2R.exe".to_string()];
    assert_eq!(
        find_direct_executable(&candidates, &vec![false, false]),
        Err(LaunchError::ExecutableNotFound("/a/D2R.exe".to_string()))
    );
    assert_eq!(
        find_direct_executable(&Vec::new(), &Vec::new()),
        Err(LaunchError::ExecutableNotFound("D2R.exe".to_string()))
    );
}

#[test]
fn steam_uri_addresses_region_server() {
    assert_eq!(steam_uri(Region::Europe), "steam://run/2536520//-address%20eu.actual.battle.net");
    let invocation = launch_steam(Region::Asia, Platform::Linux);
    assert_eq!(invocation.program, "xdg-open");
    assert_eq!(invocation.args, vec!["steam://run/2536520//-address%20kr.actual.battle.net"]);
}

#[test]
fn direct_command_runs_in_executable_directory() {
    let command = direct_command("/games/d2r/D2R.exe", "us.actual.battle.net");
    assert_eq!(command.program, "/games/d2r/D2R.exe");
    assert_eq!(command.working_dir, "/games/d2r");
    assert_eq!(command.args, vec!["-address", "us.actual.battle.net"]);
    assert_eq!(direct_command("D2R.exe", "x").working_dir, "");
}

#[test]
fn launch_follows_configured_mode() {
    let mut config = Config::default();
    match launch(&config, Region::Americas, Platform::Windows, Some("/tools/d2rlauncher")) {
        LaunchPlan::Steam(invocation) => {
            assert_eq!(invocation.program, "cmd");
            assert_eq!(
                invocation.args,
                vec!["/c", "start", "steam://run/2536520//-address%20us.actual.battle.net"]
            );
        }
        other => panic!("unexpected plan {:?}", other),
    }
    config.launch_mode = LaunchMode::Direct;
    config.d2r_path = Some("/games/d2r".to_string());
    match launch(&config, Region::Europe, Platform::Linux, Some("/tools/d2rlauncher")) {
        LaunchPlan::Direct { candidates, address } => {
            assert_eq!(candidates, vec![joined("/games/d2r", D2R_EXE), joined("/tools", D2R_EXE)]);
            assert_eq!(address, "eu.actual.battle.net");
        }
        other => panic!("unexpected plan {:?}", other),
    }
}

#[test]
fn resolving_an_executable_again_gives_it_back() {
    for path in ["/games/d2r", "/games/d2r/d2r.EXE", "/", "", "/games/..", "C:/Games/D2R/"] {
        let exe = resolve_direct_executable(path);
        assert_eq!(resolve_direct_executable(&exe), exe);
        let name = Path::new(&exe).file_name().unwrap().to_string_lossy().into_owned();
        assert!(eq_ignore_ascii_case(&name, D2R_EXE));
    }
    let sibling = resolve_sibling_direct_executable("/tools/d2rlauncher");
    assert_eq!(resolve_direct_executable(&sibling), sibling);
}
