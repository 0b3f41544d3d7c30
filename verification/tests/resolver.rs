use server_supervisor::environment::Environment;
use server_supervisor::resolver::{
    bun_candidates, find_bun, FALLBACK_COMMAND, HOME_BINARY, INSTALL_ROOT_BINARY, SYSTEM_BINARY,
    SYSTEM_LOCAL_BINARY,
};

fn with_root(home: Option<&str>, install_root: Option<&str>) -> Environment {
    Environment {
        home: home.map(String::from),
        install_root: install_root.map(String::from),
        sandbox_id: None,
        source_dir: None,
    }
}

fn paths(items: &[&str]) -> Vec<String> {
    items.iter().map(|s| s.to_string()).collect()
}

#[test]
fn install_locations_are_the_conventional_ones() {
    assert_eq!(INSTALL_ROOT_BINARY, "/bin/bun");
    assert_eq!(HOME_BINARY, "/.bun/bin/bun");
    assert_eq!(SYSTEM_LOCAL_BINARY, "/usr/local/bin/bun");
    assert_eq!(SYSTEM_BINARY, "/usr/bin/bun");
    assert_eq!(FALLBACK_COMMAND, "bun");
}

#[test]
fn candidates_with_install_root() {
    let env = with_root(Some("/home/ada"), Some("/opt/bun"));
    assert_eq!(
        bun_candidates(&env),
        paths(&[
            "/opt/bun/bin/bun",
            "/home/ada/.bun/bin/bun",
            "/usr/local/bin/bun",
            "/usr/bin/bun",
        ])
    );
}

#[test]
fn candidates_without_install_root_start_with_a_blank() {
    let env = with_root(Some("/home/ada"), None);
    assert_eq!(
        bun_candidates(&env),
        paths(&["", "/home/ada/.bun/bin/bun", "/usr/local/bin/bun", "/usr/bin/bun"])
    );
}

#[test]
fn candidates_without_home_use_the_fallback_home() {
    let env = with_root(None, None);
    assert_eq!(
        bun_candidates(&env),
        paths(&["", "/home/rcollins/.bun/bin/bun", "/usr/local/bin/bun", "/usr/bin/bun"])
    );
}

#[test]
fn empty_install_root_still_names_a_path() {
    let env = with_root(Some("/home/ada"), Some(""));
    assert_eq!(bun_candidates(&env)[0], "/bin/bun");
}

#[test]
fn install_root_is_preferred_over_system_locations() {
    let env = with_root(Some("/home/ada"), Some("/opt/bun"));
    let candidates = bun_candidates(&env);
    assert_eq!(find_bun(&candidates, &vec![true, false, true, true]), "/opt/bun/bin/bun");
    assert_eq!(find_bun(&candidates, &vec![true, true, true, true]), "/opt/bun/bin/bun");
}

#[test]
fn nothing_on_disk_gives_the_bare_command() {
    let env = with_root(Some("/home/ada"), Some("/opt/bun"));
    let candidates = bun_candidates(&env);
    assert_eq!(find_bun(&candidates, &vec![false, false, false, false]), "bun");
}

#[test]
fn earlier_location_wins() {
    let env = with_root(Some("/home/ada"), Some("/opt/bun"));
    let candidates = bun_candidates(&env);
    assert_eq!(find_bun(&candidates, &vec![false, true, true, true]), "/home/ada/.bun/bin/bun");
    assert_eq!(find_bun(&candidates, &vec![false, false, true, true]), "/usr/local/bin/bun");
    assert_eq!(find_bun(&candidates, &vec![false, false, false, true]), "/usr/bin/bun");
}

#[test]
fn blank_candidate_is_never_chosen() {
    let env = with_root(Some("/home/ada"), None);
    let candidates = bun_candidates(&env);
    assert_eq!(find_bun(&candidates, &vec![true, false, false, true]), "/usr/bin/bun");
    assert_eq!(find_bun(&candidates, &vec![true, false, false, false]), "bun");
}

#[test]
fn missing_observations_count_as_absent() {
    let env = with_root(Some("/home/ada"), Some("/opt/bun"));
    let candidates = bun_candidates(&env);
    assert_eq!(find_bun(&candidates, &vec![]), "bun");
    assert_eq!(find_bun(&candidates, &vec![false, true]), "/home/ada/.bun/bin/bun");
}

#[test]
fn surplus_observations_are_ignored() {
    let candidates = paths(&["/a/bun"]);
    assert_eq!(find_bun(&candidates, &vec![false, true, true]), "bun");
    assert_eq!(find_bun(&candidates, &vec![true, false]), "/a/bun");
}

#[test]
fn no_candidates_give_the_bare_command() {
    assert_eq!(find_bun(&Vec::new(), &vec![true]), "bun");
}

#[test]
fn resolution_returns_the_candidate_not_its_argument_list() {
    let candidates = paths(&["/x/bun", "/y/bun"]);
    let found = find_bun(&candidates, &vec![false, true]);
    assert_eq!(found, "/y/bun");
    assert_ne!(found, candidates[0]);
}
