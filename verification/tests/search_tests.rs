use pacseek::config::Config;
use pacseek::error::AppError;
use pacseek::model::Package;
use pacseek::search::aur::{aur_search_url, finish_aur_search, AurPackage, AurResponse};
use pacseek::search::fallback::{fallback_outcome, parse_pacman_listing};
use pacseek::search::rank::sort_and_truncate;
use pacseek::search::repo::{search_repo_in, sort_by_repo_name, RepoDb, RepoPkg};

fn aur_pkg(name: &str, desc: &str, votes: i32, pop: f64) -> AurPackage {
    AurPackage {
        name: name.into(),
        package_base: None,
        version: "1.0-1".into(),
        description: Some(desc.into()),
        url: None,
        num_votes: Some(votes),
        popularity: Some(pop.to_bits()),
        out_of_date: None,
        maintainer: Some("me".into()),
        first_submitted: None,
        last_modified: Some(1),
        depends: None,
    }
}

fn reply(results: Vec<AurPackage>) -> AurResponse {
    AurResponse {
        version: 5,
        type_: "search".into(),
        resultcount: results.len() as u32,
        results,
        error: None,
    }
}

#[test]
fn aur_url_encodes_the_query() {
    let cfg = Config::default();
    assert_eq!(
        aur_search_url(&cfg, "a b+c/d", "name").unwrap(),
        "https://aur.archlinux.org/rpc/v5/search/a%20b%2Bc%2Fd?by=name"
    );
    assert!(aur_search_url(&cfg, "   ", "name").is_none());
}

#[test]
fn aur_reply_is_ranked_and_cut() {
    let r = reply(vec![
        aur_pkg("low", "x", 1, 0.5),
        aur_pkg("high", "x", 1, 9.0),
        aur_pkg("mid", "x", 100, 2.0),
    ]);
    let out = finish_aur_search(r, "x", 2, false).unwrap();
    let names: Vec<&str> = out.iter().map(|p| p.name.as_str()).collect();
    assert_eq!(names, vec!["high", "mid"]);
    assert_eq!(out[0].repo, "aur");
    assert_eq!(out[0].votes, Some(1));
}

#[test]
fn aur_error_reply_and_bad_regex() {
    let mut r = reply(vec![]);
    r.type_ = "error".into();
    r.error = Some("Too many package results.".into());
    match finish_aur_search(r, "x", 0, false) {
        Err(AppError::Aur(m)) => assert_eq!(m, "Too many package results."),
        _ => panic!("expected an AUR error"),
    }
    assert!(matches!(finish_aur_search(reply(vec![]), "(", 0, true), Err(AppError::Regex(_))));
}

#[test]
fn aur_regex_filters_name_or_description() {
    let r = reply(vec![aur_pkg("foo", "bar", 1, 1.0), aur_pkg("baz", "FOObar", 1, 1.0), aur_pkg("qux", "none", 1, 1.0)]);
    let out = finish_aur_search(r, "^foo", 0, true).unwrap();
    let mut names: Vec<&str> = out.iter().map(|p| p.name.as_str()).collect();
    names.sort();
    assert_eq!(names, vec!["baz", "foo"]);
}

fn rp(name: &str, desc: Option<&str>, installed: bool) -> RepoPkg {
    RepoPkg {
        name: name.into(),
        version: "1-1".into(),
        desc: desc.map(|d| d.to_string()),
        arch: Some("x86_64".into()),
        url: None,
        installed,
    }
}

fn dbs() -> Vec<RepoDb> {
    vec![
        RepoDb {
            name: "extra".into(),
            pkgs: vec![rp("vim", Some("Vi IMproved"), true), rp("neovim", Some("fork of Vim"), false), rp("emacs", None, false)],
        },
        RepoDb { name: "core".into(), pkgs: vec![rp("vi", Some("classic"), false), rp("gvim", None, false)] },
    ]
}

#[test]
fn repo_search_matches_case_insensitively_and_sorts() {
    let out = search_repo_in(&dbs(), "VIM", 0, false, false).unwrap();
    let names: Vec<String> = out.iter().map(|p| format!("{}/{}", p.repo, p.name)).collect();
    assert_eq!(names, vec!["core/gvim", "extra/neovim", "extra/vim"]);
}

#[test]
fn repo_search_limit_and_installed_only() {
    let out = search_repo_in(&dbs(), "vim", 1, false, false).unwrap();
    assert_eq!(out.len(), 1);
    assert_eq!(out[0].name, "vim");
    let out = search_repo_in(&dbs(), "vi", 0, false, true).unwrap();
    assert_eq!(out.len(), 1);
    assert!(out[0].installed);
}

#[test]
fn repo_search_regex() {
    let out = search_repo_in(&dbs(), "^vi$", 0, true, false).unwrap();
    assert_eq!(out.len(), 1);
    assert_eq!(out[0].repo, "core");
    assert!(matches!(search_repo_in(&dbs(), "[", 0, true, false), Err(AppError::Regex(_))));
}

#[test]
fn sorting_is_stable_by_repo_then_name() {
    let mk = |repo: &str, name: &str, version: &str| Package {
        name: name.into(),
        version: version.into(),
        description: None,
        repo: repo.into(),
        arch: None,
        url: None,
        installed: false,
        votes: None,
        popularity: None,
        out_of_date: None,
        maintainer: None,
        num_votes: None,
        last_modified: None,
    };
    let mut v = vec![mk("extra", "b", "1"), mk("core", "z", "1"), mk("extra", "a", "1"), mk("extra", "b", "2")];
    sort_by_repo_name(&mut v);
    let got: Vec<String> = v.iter().map(|p| format!("{}/{}-{}", p.repo, p.name, p.version)).collect();
    assert_eq!(got, vec!["core/z-1", "extra/a-1", "extra/b-1", "extra/b-2"]);
}

#[test]
fn pacman_listing_is_parsed() {
    let text = "core/vim 9.1-1 [installed]\n    Vi Improved, a highly configurable\n    text editor\nextra/gvim 9.1-1 (group)\n    Vi with a GUI\n\nextra/neovim 0.10-1\n";
    let out = parse_pacman_listing(text, 0);
    assert_eq!(out.len(), 3);
    assert_eq!(out[0].repo, "core");
    assert_eq!(out[0].name, "vim");
    assert_eq!(out[0].version, "9.1-1");
    assert!(out[0].installed);
    assert_eq!(out[0].description.as_deref(), Some("Vi Improved, a highly configurable text editor"));
    assert!(!out[1].installed);
    assert_eq!(out[2].description, None);
    assert_eq!(parse_pacman_listing(text, 2).len(), 2);
}

#[test]
fn pacman_exit_status_decides_the_outcome() {
    let text = "core/vim 9.1-1 [installed]\n    Vi Improved\n";
    let ok = fallback_outcome(true, "", text, 0).unwrap();
    assert_eq!(ok.len(), 1);
    assert_eq!(ok[0].name, "vim");
    assert_eq!(
        fallback_outcome(false, "  error: failed to initialise alpm library\n", "", 0).unwrap_err(),
        "pacman failed: error: failed to initialise alpm library"
    );
    assert_eq!(
        fallback_outcome(false, "could not open database: failed\n", "", 0).unwrap_err(),
        "pacman failed: could not open database: failed"
    );
    assert!(fallback_outcome(false, "", "", 0).unwrap().is_empty());
    assert!(fallback_outcome(false, "warning: something", text, 0).unwrap().is_empty());
}

fn ranked_pkg(name: &str, votes: Option<i32>, pop: Option<f64>) -> Package {
    Package {
        name: name.into(),
        version: "1-1".into(),
        description: None,
        repo: "aur".into(),
        arch: None,
        url: None,
        installed: false,
        votes,
        popularity: pop.map(f64::to_bits),
        out_of_date: None,
        maintainer: None,
        num_votes: None,
        last_modified: None,
    }
}

#[test]
fn equal_ranks_keep_their_order() {
    let mut v = vec![
        ranked_pkg("c", Some(5), Some(1.0)),
        ranked_pkg("top", Some(1), Some(9.0)),
        ranked_pkg("a", Some(5), Some(1.0)),
        ranked_pkg("nan", None, Some(f64::NAN)),
        ranked_pkg("b", Some(5), Some(1.0)),
        ranked_pkg("none", None, None),
    ];
    sort_and_truncate(&mut v, 0);
    let names: Vec<&str> = v.iter().map(|p| p.name.as_str()).collect();
    assert_eq!(names, vec!["top", "c", "a", "b", "nan", "none"]);
}
