use gib::client::{
    config_layout, dir_exists, file_exists, finish_add_repo, first_client_working_dir, home_destination, install_start, install_step,
    installed_record_path, latest_url, parse_install_target, repo_url, unpack_layout, InstallAction, InstallEvent,
    InstallState, InstallTarget,
};
use gib::common::{ClientConfig, PackageConfig};

fn config_with(repos: &[&str]) -> ClientConfig {
    let mut c = ClientConfig::empty();
    for r in repos {
        c.add_repo(r.to_string());
    }
    c
}

fn described(name: &str, version: &str) -> PackageConfig {
    PackageConfig { name: name.to_string(), version: version.to_string(), author: "a".to_string(), post_script: None }
}

#[test]
fn layout_of_client_files() {
    let l = config_layout("/home/u");
    assert_eq!(l.config_dir, "/home/u/.config");
    assert_eq!(l.gib_dir, "/home/u/.config/gib");
    assert_eq!(l.installed_dir, "/home/u/.config/gib/installed");
    assert_eq!(l.config_file, "/home/u/.config/gib/config.toml");
    assert_eq!(installed_record_path("/home/u", "demo", "1.0"), "/home/u/.config/gib/installed/demo@1.0.toml");
}

#[test]
fn urls() {
    assert_eq!(repo_url("pkgs.example.org"), "https://pkgs.example.org/");
    assert_eq!(latest_url("https://pkgs.example.org/", "demo"), "https://pkgs.example.org/pkg/get/demo@latest");
}

#[test]
fn install_targets() {
    assert!(matches!(parse_install_target("demo"), InstallTarget::Latest { ref name } if name == "demo"));
    assert!(matches!(parse_install_target(""), InstallTarget::Latest { ref name } if name.is_empty()));
    assert!(matches!(parse_install_target("demo@1.0"), InstallTarget::Versioned));
    assert!(matches!(parse_install_target("@"), InstallTarget::Versioned));
}

#[test]
fn install_without_repos_stops() {
    let c = ClientConfig::empty();
    let (s, a) = install_start(&c, "demo".to_string());
    assert!(matches!(s, InstallState::Finished));
    assert!(matches!(a, InstallAction::NoRepos));
}

#[test]
fn install_tries_repos_in_order() {
    let mut c = config_with(&["https://a/", "https://b/", "https://c/"]);
    let (s, a) = install_start(&c, "demo".to_string());
    assert!(matches!(a, InstallAction::Check { ref url } if url == "https://a/pkg/get/demo@latest"));
    let (s, a) = install_step(&mut c, s, InstallEvent::Checked { status: Some(404) });
    assert!(matches!(a, InstallAction::Check { ref url } if url == "https://b/pkg/get/demo@latest"));
    let (s, a) = install_step(&mut c, s, InstallEvent::Checked { status: Some(200) });
    assert!(matches!(a, InstallAction::Install { ref url } if url == "https://b/pkg/get/demo@latest"));
    let (s, a) = install_step(&mut c, s, InstallEvent::Installed { config: Some(described("demo", "0.2")) });
    assert!(matches!(s, InstallState::Finished));
    assert!(matches!(a, InstallAction::Done { ref name, ref version } if name == "demo" && version == "0.2"));
    assert_eq!(c.installed.len(), 1);
    assert_eq!(c.installed[0].repo, "https://b/");
    assert_eq!(c.installed[0].name, "demo");
    assert_eq!(c.installed[0].version, "0.2");
    assert_eq!(c.repos.len(), 3);
}

#[test]
fn install_reports_missing_package_and_failures() {
    let mut c = config_with(&["https://a/"]);
    let (s, _) = install_start(&c, "demo".to_string());
    let (s, a) = install_step(&mut c, s, InstallEvent::Checked { status: Some(500) });
    assert!(matches!(s, InstallState::Finished));
    assert!(matches!(a, InstallAction::NotFound { ref name } if name == "demo"));
    let (s, _) = install_start(&c, "demo".to_string());
    let (_, a) = install_step(&mut c, s, InstallEvent::Checked { status: None });
    assert!(matches!(a, InstallAction::Fail));
    let (_, a) = install_step(&mut c, InstallState::Installing { name: "d".to_string(), repo_index: 0 }, InstallEvent::Installed { config: None });
    assert!(matches!(a, InstallAction::Fail));
    assert!(c.installed.is_empty());
}

#[test]
fn add_repo_only_keeps_answering_repos() {
    let mut c = config_with(&["https://a/"]);
    assert!(finish_add_repo(&mut c, "https://b/".to_string(), true));
    assert_eq!(c.repos, vec!["https://a/".to_string(), "https://b/".to_string()]);
    assert!(!finish_add_repo(&mut c, "https://c/".to_string(), false));
    assert_eq!(c.repos.len(), 2);
}

#[test]
fn unpack_layout_follows_first_member() {
    let l = unpack_layout(Some("demo-0.1/"));
    assert_eq!(l.working_dir, "./tmp/demo-0.1/");
    assert_eq!(l.extract_dir, "./tmp/demo-0.1/extract");
    assert_eq!(l.description_file, "./tmp/demo-0.1//package.toml");
    let l = unpack_layout(None);
    assert_eq!(l.working_dir, "./tmp");
    assert_eq!(l.extract_dir, "./tmpextract");
}

#[test]
fn home_destination_strips_extract_dir() {
    assert_eq!(home_destination("/home/u", "./tmp/p/extract", "./tmp/p/extract/.bashrc"), Some("/home/u/.bashrc".to_string()));
    assert_eq!(home_destination("/home/u", "./tmp/p/extract", "./tmp/p/extract/bin/tool"), Some("/home/u/bin/tool".to_string()));
    assert_eq!(home_destination("/home/u", "./tmp/p/extract", "./elsewhere/x"), None);
}

#[test]
fn existence_checks() {
    assert!(dir_exists("."));
    assert!(dir_exists("/"));
    assert!(!file_exists("."));
    assert!(!file_exists("/"));
    assert!(!dir_exists("./no/such/dir"));
    assert!(!file_exists("./no/such/file"));
}

#[test]
fn record_install_appends() {
    let mut c = ClientConfig::empty();
    c.record_install("r1", &described("a", "1"));
    c.record_install("r2", &described("b", "2"));
    assert_eq!(c.installed.len(), 2);
    assert_eq!(c.installed[0].name, "a");
    assert_eq!(c.installed[1].repo, "r2");
}

#[test]
fn first_client_works_in_the_first_directory() {
    assert_eq!(first_client_working_dir("pkg", true), "./tmp/pkg");
    assert_eq!(first_client_working_dir("pkg/package.toml", false), "./tmp");
}
