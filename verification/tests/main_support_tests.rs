use open_aaas_server::main_support::{
    answer_or_default, apply_server_data_dir, database_dir_from_url, generate_admin_api_key,
    generate_secret, is_blank, is_blank_option, needs_data_dir, parse_pid, parse_yes_no,
    pidfile_path, runtime_admin_api_key, secret_needs_generation, settle_startup_config, DataPaths,
    StartupSettings, running_step, RunningCheck,
};

fn empty_paths() -> DataPaths {
    DataPaths { database_url: String::new(), file_storage_path: String::new() }
}

#[test]
fn test_pidfile_path() {
    let path = pidfile_path("sqlite:./data/app.db");
    assert_eq!(path, "./data/server.pid");
}

#[test]
fn pidfile_path_defaults_to_data_dir() {
    assert_eq!(pidfile_path("postgres://localhost/db"), "./data/server.pid");
    assert_eq!(pidfile_path("sqlite:////var/open-aaas/app.db"), "/var/open-aaas/server.pid");
}

#[test]
fn test_database_dir_from_url_relative() {
    let result = database_dir_from_url("sqlite:./data/app.db");
    assert_eq!(result, Some("./data".to_string()));
}

#[test]
fn test_database_dir_from_url_absolute_unix() {
    let result = database_dir_from_url("sqlite:///var/lib/open-aaas/app.db");
    assert_eq!(result, Some("var/lib/open-aaas".to_string()));
}

#[test]
fn test_database_dir_from_url_absolute_windows() {
    let result = database_dir_from_url("sqlite:///C:/data/app.db");
    assert_eq!(result, Some("C:/data".to_string()));
}

#[test]
fn test_database_dir_from_url_with_params() {
    let result = database_dir_from_url("sqlite:./data/app.db?mode=rwc");
    assert_eq!(result, Some("./data".to_string()));
}

#[test]
fn test_database_dir_from_url_non_sqlite() {
    let result = database_dir_from_url("postgres://localhost/db");
    assert!(result.is_none());
}

#[test]
fn database_dir_from_url_edge_cases() {
    assert_eq!(database_dir_from_url("sqlite:////var/open-aaas/app.db"), Some("/var/open-aaas".to_string()));
    assert_eq!(database_dir_from_url("sqlite:app.db#frag"), Some("".to_string()));
    assert_eq!(database_dir_from_url("sqlite:"), None);
    assert_eq!(database_dir_from_url("sqlite::memory:"), Some("".to_string()));
}

#[test]
fn test_secret_needs_generation_none() {
    assert!(secret_needs_generation(None));
}

#[test]
fn test_secret_needs_generation_empty() {
    assert!(secret_needs_generation(Some("")));
    assert!(secret_needs_generation(Some("   ")));
}

#[test]
fn test_secret_needs_generation_default_value() {
    assert!(secret_needs_generation(Some("change-me-in-production")));
}

#[test]
fn test_secret_needs_generation_valid() {
    assert!(!secret_needs_generation(Some("my-secret-key")));
}

#[test]
fn secret_placeholder_is_compared_after_trimming() {
    assert!(secret_needs_generation(Some("  change-me-in-production\n")));
}

#[test]
fn test_is_blank() {
    assert!(is_blank(""));
    assert!(is_blank("   "));
    assert!(is_blank("\t\n"));
    assert!(!is_blank("hello"));
    assert!(!is_blank(" hello "));
}

#[test]
fn test_is_blank_option() {
    assert!(is_blank_option(None));
    assert!(is_blank_option(Some("")));
    assert!(is_blank_option(Some("   ")));
    assert!(!is_blank_option(Some("key")));
}

#[test]
fn test_generate_secret() {
    let s1 = generate_secret();
    let s2 = generate_secret();
    assert!(!s1.is_empty());
    assert!(!s2.is_empty());
    assert_ne!(s1, s2);
    assert_eq!(s1.len(), 64);
    assert!(s1.chars().all(|c| c.is_ascii_digit() || ('a'..='f').contains(&c)));
}

#[test]
fn generated_admin_key_shape() {
    let k = generate_admin_api_key();
    assert!(k.starts_with("ak_admin_"));
    assert_eq!(k.len(), 25);
    assert!(k[9..].chars().all(|c| c.is_ascii_digit() || ('a'..='f').contains(&c)));
}

#[test]
fn test_apply_server_data_dir_relative() {
    let mut config = empty_paths();
    apply_server_data_dir(&mut config, "./data");
    assert_eq!(config.database_url, "sqlite:./data/app.db");
    assert_eq!(config.file_storage_path, "./data/files");
}

#[test]
fn test_apply_server_data_dir_absolute() {
    let mut config = empty_paths();
    apply_server_data_dir(&mut config, "/var/open-aaas");
    assert_eq!(config.database_url, "sqlite:////var/open-aaas/app.db");
    assert_eq!(config.file_storage_path, "/var/open-aaas/files");
}

#[test]
fn applied_data_dir_round_trips_through_the_url() {
    let mut config = empty_paths();
    apply_server_data_dir(&mut config, "/var/open-aaas");
    assert_eq!(database_dir_from_url(&config.database_url), Some("/var/open-aaas".to_string()));
    assert!(!needs_data_dir(&config));
    assert!(needs_data_dir(&empty_paths()));
}

#[test]
fn admin_key_from_environment_wins() {
    assert_eq!(runtime_admin_api_key(Some("env".to_string()), Some("cfg".to_string())), Some("env".to_string()));
    assert_eq!(runtime_admin_api_key(Some("  ".to_string()), Some("cfg".to_string())), Some("cfg".to_string()));
    assert_eq!(runtime_admin_api_key(None, Some(" ".to_string())), None);
    assert_eq!(runtime_admin_api_key(None, None), None);
}

#[test]
fn prompt_answers() {
    assert_eq!(answer_or_default("  ", "./data"), "./data");
    assert_eq!(answer_or_default(" /srv ", "./data"), "/srv");
    assert_eq!(parse_yes_no("", true), Some(true));
    assert_eq!(parse_yes_no("", false), Some(false));
    assert_eq!(parse_yes_no(" yes ", false), Some(true));
    assert_eq!(parse_yes_no("NO", true), Some(false));
    assert_eq!(parse_yes_no("Yes", true), None);
}

#[test]
fn pidfile_text_is_parsed_like_u32() {
    assert_eq!(parse_pid("1234\n"), Some(1234));
    assert_eq!(parse_pid(" +42 "), Some(42));
    assert_eq!(parse_pid("0"), None);
    assert_eq!(parse_pid("invalid\n"), None);
    assert_eq!(parse_pid("-5"), None);
    assert_eq!(parse_pid("+"), None);
    assert_eq!(parse_pid(""), None);
    assert_eq!(parse_pid("4294967295"), Some(4294967295));
    assert_eq!(parse_pid("4294967296"), None);
    assert_eq!(parse_pid("99999999999999999999"), None);
}

fn fresh_settings() -> StartupSettings {
    StartupSettings { paths: empty_paths(), secret_key: None, admin_api_key: None }
}

#[test]
fn settle_startup_config_fills_a_fresh_configuration() {
    let mut cfg = fresh_settings();
    let secret = "a".repeat(64);
    let changed = settle_startup_config(&mut cfg, Some("./data"), secret.clone(), "ak_admin_0123456789abcdef".to_string());
    assert!(changed);
    assert_eq!(cfg.paths.database_url, "sqlite:./data/app.db");
    assert_eq!(cfg.paths.file_storage_path, "./data/files");
    assert_eq!(cfg.secret_key, Some(secret));
    assert_eq!(cfg.admin_api_key, Some("ak_admin_0123456789abcdef".to_string()));
}

#[test]
fn settle_startup_config_keeps_a_complete_configuration() {
    let mut cfg = StartupSettings {
        paths: DataPaths { database_url: "sqlite:///srv/app.db".to_string(), file_storage_path: "/srv/files".to_string() },
        secret_key: Some("my-secret".to_string()),
        admin_api_key: Some("ak_admin_mine".to_string()),
    };
    let changed = settle_startup_config(&mut cfg, None, "b".repeat(64), "ak_admin_other".to_string());
    assert!(!changed);
    assert_eq!(cfg.paths.database_url, "sqlite:///srv/app.db");
    assert_eq!(cfg.paths.file_storage_path, "/srv/files");
    assert_eq!(cfg.secret_key, Some("my-secret".to_string()));
    assert_eq!(cfg.admin_api_key, Some("ak_admin_mine".to_string()));
}

#[test]
fn settle_startup_config_replaces_placeholder_secret_and_blank_key() {
    let mut cfg = StartupSettings {
        paths: DataPaths { database_url: "sqlite:./d/app.db".to_string(), file_storage_path: "./d/files".to_string() },
        secret_key: Some("  change-me-in-production ".to_string()),
        admin_api_key: Some("   ".to_string()),
    };
    let changed = settle_startup_config(&mut cfg, None, "c".repeat(64), "ak_admin_new".to_string());
    assert!(changed);
    assert_eq!(cfg.paths.database_url, "sqlite:./d/app.db");
    assert_eq!(cfg.secret_key, Some("c".repeat(64)));
    assert_eq!(cfg.admin_api_key, Some("ak_admin_new".to_string()));
}

#[test]
fn data_dir_reads_back_from_the_database_url() {
    for dir in ["./data", "/var/open-aaas", "data", "/srv/a b"] {
        let mut paths = empty_paths();
        apply_server_data_dir(&mut paths, dir);
        assert_eq!(database_dir_from_url(&paths.database_url), Some(dir.to_string()));
    }
    let mut paths = empty_paths();
    apply_server_data_dir(&mut paths, "/var/lib/");
    assert_eq!(paths.database_url, "sqlite:////var/lib/app.db");
    assert_eq!(paths.file_storage_path, "/var/lib/files");
}

#[test]
fn running_step_probes_a_valid_pid_and_drops_stale_pidfiles() {
    assert_eq!(running_step(" 1234\n", None), RunningCheck::Probe(1234));
    assert_eq!(running_step("1234", Some(true)), RunningCheck::Running(1234));
    assert_eq!(running_step("1234", Some(false)), RunningCheck::Stale);
    assert_eq!(running_step("0", None), RunningCheck::Stale);
    assert_eq!(running_step("abc", Some(true)), RunningCheck::Stale);
    assert_eq!(running_step("", None), RunningCheck::Stale);
}
