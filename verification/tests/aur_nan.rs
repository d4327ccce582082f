use pacseek::model::Package;
use pacseek::search::rank::sort_and_truncate;
use pacseek::tui::view::search_display;
use unicode_width::UnicodeWidthStr;

fn aur(name: &str, votes: i32, popularity: f64) -> Package {
    Package {
        name: name.into(),
        version: "1".into(),
        description: None,
        repo: "aur".into(),
        arch: None,
        url: None,
        installed: false,
        votes: Some(votes),
        popularity: Some(popularity.to_bits()),
        out_of_date: None,
        maintainer: None,
        num_votes: Some(votes),
        last_modified: None,
    }
}

#[test]
fn sort_with_nan_does_not_panic() {
    let mut pkgs = vec![aur("a", 10, f64::NAN), aur("b", 5, 1.0), aur("c", 20, f64::INFINITY)];
    sort_and_truncate(&mut pkgs, 0);
    // Should not panic, and NaN/Inf should be treated as 0.0, so b (1.0) should be first
    assert_eq!(pkgs[0].name, "b");
}

#[test]
fn unicode_truncate_no_panic() {
    // The search bar truncation with emoji
    let input = "fire🦀fox🎉test";
    let width = 10; // small width to force truncation
    let input_width = input.width();
    assert!(input_width > width);
    // a bar 14 columns wide leaves 10 inside its borders and padding
    let display = search_display(input, 14);
    // Should not panic and be char-boundary safe
    assert!(display.starts_with("..."));
    // Ensure display is valid utf8 and width <= width
    assert!(display.width() <= width);
}

#[test]
fn ties_on_popularity_go_by_votes() {
    let mut pkgs = vec![aur("a", 1, 2.0), aur("b", 9, 2.0), aur("c", 5, 3.0), aur("d", 0, -1.0)];
    sort_and_truncate(&mut pkgs, 3);
    let names: Vec<&str> = pkgs.iter().map(|p| p.name.as_str()).collect();
    assert_eq!(names, vec!["c", "b", "a"]);
}
