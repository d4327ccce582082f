use pacseek::config::Config;
use pacseek::model::Package;
use pacseek::tui::app::{App, Focus, Mode};
use pacseek::tui::view::{
    centered_rect, cursor_x, description_line, empty_list_text, floor_size, help_line,
    is_too_small, question_target, remove_note, results_title, search_display, search_title,
    tab_labels, too_small_message, Area,
};
use pacseek::tui::view::{
    help_and_message_titles, help_popup_lines, info_close_hint, info_label, list_installed_tag,
    question_end, question_title, question_verb, refresh_question, remove_hint, window_title,
    yes_no_parts, InfoField,
};

fn firefox() -> Package {
    Package {
        name: "firefox".into(),
        version: "123.0-1".into(),
        description: Some("Standalone web browser".into()),
        repo: "extra".into(),
        arch: Some("x86_64".into()),
        url: None,
        installed: false,
        votes: None,
        popularity: None,
        out_of_date: None,
        maintainer: None,
        num_votes: None,
        last_modified: None,
    }
}

#[test]
fn too_small_terminal() {
    let cfg = Config::default();
    let (w, h) = floor_size(&cfg.tui);
    assert!(is_too_small(50, 8, &cfg.tui));
    assert!(!is_too_small(80, 24, &cfg.tui));
    assert!(too_small_message(w, h).contains("Terminal too small"));
    assert_eq!(too_small_message(60, 20), "Terminal too small — need ≥60×20");
}

#[test]
fn titles_and_help() {
    assert_eq!(search_title(Mode::Installed, Focus::List), " Filter installed (press / to focus, Tab back) ");
    assert!(help_line(Mode::Search, Focus::List).contains("Enter:install"));
    assert_eq!(tab_labels(40).1, "[2]Installed");
    assert!(tab_labels(80).0.contains("Search"));
}

#[test]
fn results_title_counts_rows() {
    let mut app = App::new("firefox".into(), false);
    assert_eq!(results_title(&app), " Results   ");
    app.packages = vec![firefox(), firefox()];
    app.list_state.select(Some(1));
    app.mode = Mode::Installed;
    assert_eq!(results_title(&app), " Results installed  (2/2) ");
    app.is_loading = true;
    app.packages.clear();
    assert_eq!(empty_list_text(&app), "Listing installed...");
}

#[test]
fn short_queries_show_whole() {
    assert_eq!(search_display("firefox", 40), "firefox");
    assert_eq!(search_display("abcdefghijklmnop", 14), "...jklmnop");
}

#[test]
fn popup_geometry_and_cursor() {
    let r = centered_rect(60, 30, Area { x: 0, y: 0, width: 80, height: 24 });
    assert_eq!(r, Area { x: 16, y: 8, width: 48, height: 7 });
    assert_eq!(cursor_x(2, 20, 5), 8);
    assert_eq!(cursor_x(2, 20, 500), 2 + 1 + 17);
}

#[test]
fn row_and_question_texts() {
    let p = firefox();
    assert_eq!(description_line(&p), "  Standalone web browser");
    assert_eq!(question_target(&p), "extra/firefox 123.0-1");
    let cfg = Config::default();
    assert_eq!(remove_note(&cfg, &p), "Will run: sudo pacman -Rs firefox [needs password]");
}

#[test]
fn popup_labels() {
    assert_eq!(info_label(InfoField::Version), "Version: ");
    assert_eq!(info_label(InfoField::Repo), "Repo: ");
    assert_eq!(info_label(InfoField::Url), "URL: ");
    assert_eq!(info_label(InfoField::Desc), "Desc: ");
    assert_eq!(info_label(InfoField::Votes), "Votes: ");
    assert_eq!(info_close_hint(), "Press Esc/q/Enter to close");
    assert_eq!(question_title(true), " Confirm remove ");
    assert_eq!(question_title(false), " Confirm install ");
    assert_eq!(question_verb(true), "Remove ");
    assert_eq!(question_verb(false), "Install ");
    assert_eq!(question_end(), " ?");
    assert_eq!(remove_hint(), "Check Required By in info (i) before removing libs.");
    assert_eq!(refresh_question(), (" Confirm refresh ", "Refresh the sync databases ?"));
    assert_eq!(yes_no_parts(), ("Y", "/Enter = yes  ", "N/Esc", " = cancel"));
    assert_eq!(help_and_message_titles(), (" Help (?) ", " Message "));
    assert_eq!(window_title(), " pacseek ");
    assert_eq!(list_installed_tag(), " [installed]");
}

#[test]
fn help_popup_lists_both_modes() {
    let lines = help_popup_lines();
    assert_eq!(lines.len(), 19);
    assert_eq!(lines[0], "Tab / Shift+Tab : switch Search <-> Installed");
    assert_eq!(lines[2], "Search mode:");
    assert_eq!(lines[9], "Installed mode:");
    assert_eq!(lines[12], "  Enter / d / x : remove selected");
    assert_eq!(lines[18], "Press Esc/q/Enter/? to close");
}
