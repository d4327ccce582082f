use pacseek::config::Config;
use pacseek::install::{aur_build_plan, install_repo_args, refresh_command_args, remove_package};

#[test]
fn empty_name_bails() {
    let cfg = Config::default();
    assert!(remove_package("", &cfg, false).is_err());
    assert!(remove_package("   ", &cfg, false).is_err());
}

#[test]
fn traversal_names_rejected() {
    let cfg = Config::default();
    for bad in ["../x", "a/b", "a\\b", "a..b..c.."] {
        // "a..b..c.." contains ".." -> rejected per policy
        let _ = bad;
    }
    assert!(remove_package("../evil", &cfg, false).is_err());
    assert!(remove_package("a/b", &cfg, false).is_err());
}

#[test]
fn remove_errors_name_the_reason() {
    let cfg = Config::default();
    assert_eq!(remove_package(" ", &cfg, false).unwrap_err(), "empty package name");
    assert_eq!(
        remove_package(" a\\b ", &cfg, false).unwrap_err(),
        "invalid package name: \"a\\\\b\""
    );
    assert!(remove_package("a\0b", &cfg, false).is_err());
    assert!(remove_package("x..y", &cfg, false).is_err());
}

#[test]
fn remove_args_use_allowlisted_flag() {
    let mut cfg = Config::default();
    assert_eq!(remove_package(" vim ", &cfg, false).unwrap(), vec!["pacman", "-Rs", "vim"]);
    assert_eq!(
        remove_package("vim", &cfg, true).unwrap(),
        vec!["pacman", "-Rs", "--noconfirm", "vim"]
    );
    cfg.behavior.remove_flags = "--Rns".into();
    assert_eq!(remove_package("vim", &cfg, false).unwrap(), vec!["pacman", "-Rns", "vim"]);
    cfg.behavior.remove_flags = "-Rs; rm -rf /".into();
    assert_eq!(remove_package("vim", &cfg, false).unwrap(), vec!["pacman", "-Rs", "vim"]);
}

#[test]
fn refresh_args() {
    let mut cfg = Config::default();
    assert_eq!(refresh_command_args(&cfg), vec!["pacman", "-Sy"]);
    cfg.behavior.remove_noconfirm = true;
    assert_eq!(refresh_command_args(&cfg), vec!["pacman", "-Sy", "--noconfirm"]);
}

#[test]
fn install_repo_args_need_a_name() {
    assert_eq!(install_repo_args("  ").unwrap_err(), "empty package name");
    assert_eq!(install_repo_args("vim").unwrap(), vec!["pacman", "-S", "--needed", "vim"]);
}

#[test]
fn aur_builds_refuse_root_and_blank_names() {
    let cfg = Config::default();
    assert!(aur_build_plan(true, "yay", "/home/u/.cache", &cfg)
        .unwrap_err()
        .contains("must not run as root"));
    assert_eq!(aur_build_plan(false, " ", "/home/u/.cache", &cfg).unwrap_err(), "empty package name");
    let plan = aur_build_plan(false, " yay ", "/home/u/.cache", &cfg).unwrap();
    assert_eq!(plan.clone_url, "https://aur.archlinux.org/yay.git");
    assert_eq!(plan.clone_dir, "/home/u/.cache/pacseek/yay");
    assert_eq!(plan.makepkg_args, vec!["-si"]);
}

#[test]
fn aur_builds_refuse_path_names() {
    let cfg = Config::default();
    assert_eq!(
        aur_build_plan(false, "../evil", "/home/u/.cache", &cfg).unwrap_err(),
        "invalid package name: \"../evil\""
    );
    assert!(aur_build_plan(false, "a/b", "/home/u/.cache", &cfg).is_err());
    assert!(aur_build_plan(false, "a\\b", "/home/u/.cache", &cfg).is_err());
    assert!(aur_build_plan(false, "a\0b", "/home/u/.cache", &cfg).is_err());
    assert!(aur_build_plan(false, "x..y", "/home/u/.cache", &cfg).is_err());
}

#[test]
fn aur_build_plan_follows_config() {
    let mut cfg = Config::default();
    cfg.behavior.cache_dir = Some("/tmp/pacseek".to_string());
    cfg.behavior.makepkg_noconfirm = true;
    let plan = aur_build_plan(false, "paru-bin", "/home/u/.cache", &cfg).unwrap();
    assert_eq!(plan.clone_url, "https://aur.archlinux.org/paru-bin.git");
    assert_eq!(plan.clone_dir, "/tmp/pacseek/paru-bin");
    assert_eq!(plan.makepkg_args, vec!["-si", "--noconfirm"]);
}
