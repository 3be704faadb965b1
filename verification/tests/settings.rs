use rerman::cli::{Cli, Commands};
use rerman::settings::{
    config_file_path, repo_dir_path, select_setup, Config, Git, RerSetup, SetupError,
};

fn cli(
    system: Option<bool>,
    user: Option<bool>,
    local: Option<bool>,
    config: Option<&str>,
) -> Cli {
    Cli {
        system,
        user,
        local,
        config: config.map(|c| c.to_string()),
        commands: Commands::Setup,
    }
}

#[test]
fn explicit_flags_take_precedence_in_order() {
    let c = cli(Some(true), Some(true), Some(true), Some("f.toml"));
    assert!(matches!(select_setup(&c, None), RerSetup::System));
    let c = cli(None, Some(true), Some(true), Some("f.toml"));
    assert!(matches!(select_setup(&c, None), RerSetup::User));
    let c = cli(None, None, Some(true), Some("f.toml"));
    assert!(matches!(select_setup(&c, None), RerSetup::Local));
}

#[test]
fn config_flag_selects_custom_setup() {
    let c = cli(None, None, None, Some("f.toml"));
    match select_setup(&c, Some("system".to_string())) {
        RerSetup::Custom { config_file } => assert_eq!(config_file, "f.toml"),
        other => panic!("expected custom setup, got {:?}", other),
    }
}

#[test]
fn environment_level_decides_when_no_flag_is_given() {
    let c = cli(None, None, None, None);
    assert!(matches!(select_setup(&c, Some("system".to_string())), RerSetup::System));
    assert!(matches!(select_setup(&c, Some("user".to_string())), RerSetup::User));
    assert!(matches!(select_setup(&c, Some("local".to_string())), RerSetup::Local));
    assert!(matches!(select_setup(&c, Some("other".to_string())), RerSetup::User));
    assert!(matches!(select_setup(&c, None), RerSetup::User));
}

#[test]
fn configured_repo_dir_overrides_the_setup() {
    let r = repo_dir_path(
        &RerSetup::System,
        &Some("/data/repos".to_string()),
        "/cwd",
        &None,
        false,
    );
    assert_eq!(r, Ok("/data/repos".to_string()));
}

#[test]
fn repo_dir_per_setup() {
    assert_eq!(
        repo_dir_path(&RerSetup::Local, &None, "/work", &None, true),
        Ok("/work/.rerman/repositories".to_string())
    );
    assert_eq!(
        repo_dir_path(&RerSetup::User, &None, "/work", &Some("/home/u/.local/share".to_string()), true),
        Ok("/home/u/.local/share/rerman/repositories".to_string())
    );
    assert_eq!(
        repo_dir_path(&RerSetup::System, &None, "/work", &None, true),
        Ok("/usr/share/rerman/repositories".to_string())
    );
}

#[test]
fn repo_dir_error_cases() {
    assert_eq!(
        repo_dir_path(&RerSetup::User, &None, "/work", &None, true),
        Err(SetupError::BaseDirsUnavailable)
    );
    assert_eq!(
        repo_dir_path(&RerSetup::System, &None, "/work", &None, false),
        Err(SetupError::UnsupportedPlatform)
    );
    assert_eq!(
        repo_dir_path(
            &RerSetup::Custom { config_file: "f.toml".to_string() },
            &None,
            "/work",
            &None,
            true,
        ),
        Err(SetupError::NoRepoDirSpecified)
    );
}

#[test]
fn config_file_per_setup() {
    assert_eq!(
        config_file_path(&RerSetup::System, "/work", &None, true),
        Ok("/etc/rerman/config.toml".to_string())
    );
    assert_eq!(
        config_file_path(&RerSetup::User, "/work", &Some("/home/u/.config".to_string()), true),
        Ok("/home/u/.config/rerman/config.toml".to_string())
    );
    assert_eq!(
        config_file_path(&RerSetup::Local, "/work", &None, true),
        Ok("/work/.rerman/config.toml".to_string())
    );
    assert_eq!(
        config_file_path(&RerSetup::Custom { config_file: "/x/c.toml".to_string() }, "/w", &None, true),
        Ok("/x/c.toml".to_string())
    );
}

#[test]
fn config_file_error_cases() {
    assert_eq!(
        config_file_path(&RerSetup::System, "/work", &None, false),
        Err(SetupError::UnsupportedPlatform)
    );
    assert_eq!(
        config_file_path(&RerSetup::User, "/work", &None, true),
        Err(SetupError::BaseDirsUnavailable)
    );
}

#[test]
fn defaults_are_empty_and_git() {
    let c = Config::default();
    assert!(c.repo_dir.is_none() && c.open_with.is_none() && c.config_editor.is_none());
    assert_eq!(Git::default().exe, "git");
}
