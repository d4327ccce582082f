use pacseek::cli::Source;
use pacseek::model::Package;
use pacseek::output::{json_selection, printed_total, repo_color, sections, RepoColor, Section};

fn pkg(repo: &str, name: &str) -> Package {
    Package {
        name: name.into(),
        version: "1".into(),
        description: None,
        repo: repo.into(),
        arch: None,
        url: None,
        installed: false,
        votes: None,
        popularity: None,
        out_of_date: None,
        maintainer: None,
        num_votes: None,
        last_modified: None,
    }
}

#[test]
fn section_order_follows_bottom_up() {
    assert_eq!(sections(Source::All, false), vec![Section::Repo, Section::Aur]);
    assert_eq!(sections(Source::All, true), vec![Section::Aur, Section::Repo]);
    assert_eq!(sections(Source::Aur, false), vec![Section::Aur]);
}

#[test]
fn json_and_totals_follow_the_source() {
    let repo = vec![pkg("core", "a")];
    let aur = vec![pkg("aur", "b"), pkg("aur", "c")];
    assert_eq!(json_selection(&repo, &aur, Source::All).len(), 3);
    assert_eq!(json_selection(&repo, &aur, Source::Repo)[0].name, "a");
    assert_eq!(printed_total(&repo, &aur, Source::Aur), 2);
}

#[test]
fn repository_colours() {
    assert_eq!(repo_color(Section::Aur, "aur"), RepoColor::BrightMagenta);
    assert_eq!(repo_color(Section::Repo, "core"), RepoColor::Red);
    assert_eq!(repo_color(Section::Repo, "galaxy"), RepoColor::Cyan);
    assert_eq!(repo_color(Section::Repo, "chaotic-aur"), RepoColor::Yellow);
}
