use pacseek::cli::{AurBy, Source};
use pacseek::config::{parse_aur_by, parse_source, parse_style, Color, Config, Modifier, ThemeStyles};

#[test]
fn parse_style_basic() {
    let st = parse_style("cyan bold");
    assert_eq!(st.fg, Some(Color::Cyan));
    assert!(st.add_modifier.contains(Modifier::Bold));
}

#[test]
fn parse_style_with_bg() {
    let st = parse_style("black on cyan bold");
    assert_eq!(st.fg, Some(Color::Black));
    assert_eq!(st.bg, Some(Color::Cyan));
    assert!(st.add_modifier.contains(Modifier::Bold));
}

#[test]
fn empty_strings_keep_defaults() {
    // A file with `[search] source = "" by = ""`, as loaded, then normalised.
    let mut cfg = Config::default();
    cfg.search.source = "".into();
    cfg.search.by = "".into();
    cfg.normalize_loaded();
    assert_eq!(cfg.search.source, "all");
    assert_eq!(cfg.search.by, "name-desc");
}

#[test]
fn remove_flag_allowlist() {
    let mut cfg = Config::default();
    assert_eq!(cfg.remove_flag_arg(), "-Rs");
    cfg.behavior.remove_flags = "Rns".into();
    assert_eq!(cfg.remove_flag_arg(), "-Rns");
    cfg.behavior.remove_flags = "--noconfirm; rm -rf".into();
    assert_eq!(cfg.remove_flag_arg(), "-Rs");
}

#[test]
fn theme_styles_cache_builds() {
    let cfg = Config::default();
    let styles = ThemeStyles::from_theme(&cfg.theme);
    assert_eq!(styles.text.fg, Some(Color::White));
    assert_eq!(styles.tab_selected.bg, Some(Color::Cyan));
}

#[test]
fn defaults_match_documentation() {
    let cfg = Config::default();
    assert_eq!(cfg.search.limit, 50);
    assert_eq!(cfg.tui.floor_width, 60);
    assert_eq!(cfg.search.source, "all");
    assert_eq!(cfg.search.by, "name-desc");
    assert!(!cfg.behavior.remove_noconfirm);
}

#[test]
fn load_prefers_project_then_user_then_defaults() {
    let mut project = Config::default();
    project.search.limit = 7;
    let mut user = Config::default();
    user.search.limit = 9;
    assert_eq!(Config::load(Some(project.duplicate()), Some(user.duplicate())).search.limit, 7);
    assert_eq!(Config::load(None, Some(user.duplicate())).search.limit, 9);
    assert_eq!(Config::load(None, None).search.limit, 50);
}

#[test]
fn parse_source_and_by_ignore_case_and_space() {
    assert_eq!(parse_source("  AUR "), Source::Aur);
    assert_eq!(parse_source("repo"), Source::Repo);
    assert_eq!(parse_source("whatever"), Source::All);
    assert_eq!(parse_aur_by("Maintainer"), AurBy::Maintainer);
    assert_eq!(parse_aur_by(""), AurBy::NameDesc);
}

#[test]
fn aur_by_names_read_back() {
    for b in [
        AurBy::Name,
        AurBy::NameDesc,
        AurBy::Maintainer,
        AurBy::Depends,
        AurBy::Makedepends,
        AurBy::Optdepends,
        AurBy::Checkdepends,
    ] {
        assert_eq!(parse_aur_by(b.as_str()), b);
    }
}

#[test]
fn effective_source_and_rpc_url() {
    let mut cfg = Config::default();
    cfg.search.source = "Repo".into();
    assert_eq!(cfg.effective_source(), Source::Repo);
    assert_eq!(cfg.aur_rpc_url(), "https://aur.archlinux.org/rpc/v5");
    cfg.behavior.aur_rpc = Some("http://localhost:8080/rpc".into());
    assert_eq!(cfg.aur_rpc_url(), "http://localhost:8080/rpc");
}

#[test]
fn timeout_and_spinner_defaults() {
    let mut cfg = Config::default();
    cfg.search.timeout_secs = 0;
    assert_eq!(cfg.request_timeout_secs(), 1);
    assert_eq!(cfg.spinner_template_text(), "{spinner:.cyan} {msg}");
    assert!(cfg.spinner_ticks().starts_with('⠋'));
}

#[test]
fn remove_noconfirm_from_config_or_env() {
    let mut cfg = Config::default();
    assert!(!cfg.remove_noconfirm(false));
    assert!(cfg.remove_noconfirm(true));
    cfg.behavior.remove_noconfirm = true;
    assert!(cfg.remove_noconfirm(false));
    assert!(cfg.refresh_noconfirm());
}

#[test]
fn example_toml_mentions_every_section() {
    let t = Config::example_toml();
    for s in ["[search]", "[tui]", "[theme]", "[behavior]"] {
        assert!(t.contains(s));
    }
}
