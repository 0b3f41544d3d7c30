use server_supervisor::environment::Environment;
use server_supervisor::preparation::{
    config_destination, plan_preparation, Preparation, BUNDLED_CONFIG, CONFIG_FILE_SUFFIX,
};

fn environment(home: Option<&str>, sandbox_id: Option<&str>) -> Environment {
    Environment {
        home: home.map(String::from),
        install_root: None,
        sandbox_id: sandbox_id.map(String::from),
        source_dir: None,
    }
}

fn create(path: &str) -> Preparation {
    Preparation::CreateDir { path: String::from(path) }
}

fn copy(from: &str, to: &str) -> Preparation {
    Preparation::CopyFile { from: String::from(from), to: String::from(to) }
}

fn copy_count(steps: &[Preparation]) -> usize {
    steps.iter().filter(|s| matches!(s, Preparation::CopyFile { .. })).count()
}

#[test]
fn fixed_paths() {
    assert_eq!(BUNDLED_CONFIG, "/app/share/portfolio_60/src/shared/config.json");
    assert_eq!(CONFIG_FILE_SUFFIX, "/config.json");
}

#[test]
fn config_destination_lies_in_the_data_dir() {
    assert_eq!(
        config_destination(&environment(Some("/home/ada"), None)),
        "/home/ada/.config/portfolio_60/config.json"
    );
    assert_eq!(
        config_destination(&environment(None, Some("x"))),
        "/home/rcollins/.config/portfolio_60/config.json"
    );
}

#[test]
fn first_sandboxed_run_creates_the_dir_then_copies_once() {
    let env = environment(Some("/home/ada"), Some("org.example.App"));
    let steps = plan_preparation(false, &env, false, true);
    assert_eq!(
        steps,
        vec![
            create("/home/ada/.config/portfolio_60"),
            copy(
                "/app/share/portfolio_60/src/shared/config.json",
                "/home/ada/.config/portfolio_60/config.json",
            ),
        ]
    );
    assert_eq!(copy_count(&steps), 1);
}

#[test]
fn second_sandboxed_run_copies_nothing() {
    let env = environment(Some("/home/ada"), Some("org.example.App"));
    let first = plan_preparation(false, &env, false, true);
    let exists_afterwards = copy_count(&first) > 0;
    assert!(exists_afterwards);
    let second = plan_preparation(false, &env, exists_afterwards, true);
    assert_eq!(second, vec![create("/home/ada/.config/portfolio_60")]);
    assert_eq!(copy_count(&second), 0);
}

#[test]
fn existing_config_is_kept_even_without_a_bundled_one() {
    let env = environment(Some("/home/ada"), Some("org.example.App"));
    assert_eq!(
        plan_preparation(false, &env, true, false),
        vec![create("/home/ada/.config/portfolio_60")]
    );
}

#[test]
fn nothing_to_copy_without_a_bundled_config() {
    let env = environment(Some("/home/ada"), Some("org.example.App"));
    assert_eq!(
        plan_preparation(false, &env, false, false),
        vec![create("/home/ada/.config/portfolio_60")]
    );
}

#[test]
fn normal_run_prepares_nothing() {
    let env = environment(Some("/home/ada"), None);
    for (destination_exists, bundled_exists) in
        [(false, false), (false, true), (true, false), (true, true)]
    {
        assert_eq!(
            plan_preparation(false, &env, destination_exists, bundled_exists),
            Vec::new()
        );
    }
}

#[test]
fn running_server_prepares_nothing() {
    let sandboxed = environment(Some("/home/ada"), Some("org.example.App"));
    let normal = environment(Some("/home/ada"), None);
    assert_eq!(plan_preparation(true, &sandboxed, false, true), Vec::new());
    assert_eq!(plan_preparation(true, &normal, false, true), Vec::new());
}

#[test]
fn fallback_home_is_used_for_the_data_dir() {
    let env = environment(None, Some(""));
    assert_eq!(
        plan_preparation(false, &env, false, true),
        vec![
            create("/home/rcollins/.config/portfolio_60"),
            copy(
                "/app/share/portfolio_60/src/shared/config.json",
                "/home/rcollins/.config/portfolio_60/config.json",
            ),
        ]
    );
}
