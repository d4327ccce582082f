use std::time::{Duration, Instant};

use pacseek::cli::{AurBy, Cli, Source};
use pacseek::model::Package;
use pacseek::tui::app::{Action, App, Focus, Mode, Popup, SearchRequest, SEARCH_CACHE_CAP};
use pacseek::tui::input::{input_value, Key, KeyKind, KeyMods, KeyPress, TermEvent};

fn key(code: Key) -> TermEvent {
    TermEvent::Key(KeyPress::new(code, KeyMods::empty()))
}

fn vim() -> Package {
    Package {
        name: "vim".into(),
        version: "1-1".into(),
        description: None,
        repo: "local".into(),
        arch: None,
        url: None,
        installed: true,
        votes: None,
        popularity: None,
        out_of_date: None,
        maintainer: None,
        num_votes: None,
        last_modified: None,
    }
}

#[test]
fn trigger_search_is_non_blocking() {
    let mut app = App::new("firefox".into(), false);
    let start = Instant::now();
    let action = app.trigger_search();
    let elapsed = start.elapsed();
    // Should return immediately: the search itself is handed to the caller
    assert!(
        elapsed < Duration::from_millis(100),
        "trigger_search should be non-blocking, took {:?}",
        elapsed
    );
    assert!(app.is_loading, "should be loading after trigger");
    assert!(matches!(action, Action::Search(SearchRequest::Packages { .. })));
    // A result for another search id is dropped without panicking
    let stale = app.search_id.wrapping_add(7);
    app.accept_search_results(stale, vec![vim()], "firefox".into());
    assert!(app.is_loading);
}

#[test]
fn trigger_search_empty_clears() {
    let mut app = App::new("".into(), false);
    app.trigger_search();
    assert!(!app.is_loading);
    assert!(app.packages.is_empty());
}

#[test]
fn q_in_search_does_not_quit() {
    let mut app = App::new("".into(), false);
    app.focus = Focus::Search;
    let _ = app.handle_event(key(Key::Char('q')), 0);
    assert!(!app.should_quit, "q in Search should type, not quit");
    assert_eq!(input_value(&app.input), "q");
}

#[test]
fn q_in_list_quits() {
    let mut app = App::new("firefox".into(), false);
    app.focus = Focus::List;
    app.popup = Popup::Closed;
    let _ = app.handle_event(key(Key::Char('q')), 0);
    assert!(app.should_quit, "q in List should quit");
}

#[test]
fn new_with_cli_respects_filters() {
    let cli = Cli {
        query: Some("test".into()),
        tui: false,
        no_tui: false,
        source: Source::Aur,
        by: AurBy::Name,
        limit: 10,
        json: false,
        regex: true,
        installed_only: true,
        bottom_up: false,
        verbose: 0,
        no_color: true,
        config: None,
        init_config: false,
        show_config: false,
        remove: None,
        refresh: false,
    };
    let app = App::new_with_cli("test".into(), &cli, false);
    assert_eq!(app.limit, 10);
    assert_eq!(app.source, Source::Aur);
    assert_eq!(app.aur_by, AurBy::Name);
    assert!(app.use_regex);
    assert!(app.installed_only);
    assert!(app.no_color);
}

#[test]
fn list_state_none_on_empty() {
    let app = App::new("".into(), false);
    assert_eq!(app.list_state.selected(), None);
    assert!(app.packages.is_empty());
}

#[test]
fn tab_switches_to_installed_mode() {
    let mut app = App::new("".into(), false);
    assert_eq!(app.mode, Mode::Search);
    app.switch_mode();
    assert_eq!(app.mode, Mode::Installed);
    // Empty filter in Installed lists all -> loading
    assert!(app.is_loading);
    app.switch_mode();
    assert_eq!(app.mode, Mode::Search);
}

#[test]
fn tab_key_event_switches_mode() {
    let mut app = App::new("".into(), false);
    app.focus = Focus::Search;
    let _ = app.handle_event(key(Key::Tab), 0);
    assert_eq!(app.mode, Mode::Installed);
    // Tab must not be typed into input
    assert!(!input_value(&app.input).contains('\t'));
}

#[test]
fn enter_in_installed_opens_confirm_remove() {
    let mut app = App::new("".into(), false);
    app.mode = Mode::Installed;
    app.focus = Focus::List;
    app.packages = vec![vim()];
    app.list_state.select(Some(0));
    let _ = app.handle_event(key(Key::Enter), 0);
    assert!(matches!(app.popup, Popup::ConfirmRemove(_)));
}

#[test]
fn d_in_installed_opens_confirm_remove() {
    let mut app = App::new("".into(), false);
    app.mode = Mode::Installed;
    app.focus = Focus::List;
    app.packages = vec![vim()];
    app.list_state.select(Some(0));
    let _ = app.handle_event(key(Key::Char('d')), 0);
    assert!(matches!(app.popup, Popup::ConfirmRemove(_)));
}

#[test]
fn cache_hit_serves_instantly() {
    let mut app = App::new("".into(), false);
    app.input = tui_input::Input::new("vim".into());
    let key = app.cache_key("vim");
    app.cache_put(key, vec![vim()]);
    app.trigger_search();
    // Cache hit: served at once, no search asked for, no loading spinner
    assert!(!app.is_loading);
    assert_eq!(app.packages.len(), 1);
    assert_eq!(app.packages[0].name, "vim");
}

#[test]
fn cache_evicts_oldest_beyond_cap() {
    let mut app = App::new("".into(), false);
    let mk = |n: &str| Package { name: n.into(), ..vim() };
    for i in 0..(SEARCH_CACHE_CAP + 5) {
        app.cache_put(format!("k{i}"), vec![mk("x")]);
    }
    assert!(app.search_cache.len() <= SEARCH_CACHE_CAP);
    assert!(app.cache_get("k0").is_none());
}

#[test]
fn question_in_list_opens_help() {
    let mut app = App::new("".into(), false);
    app.focus = Focus::List;
    let _ = app.handle_event(key(Key::Char('?')), 0);
    assert_eq!(app.popup, Popup::Help);
}

#[test]
fn r_in_list_opens_confirm_refresh() {
    let mut app = App::new("".into(), false);
    app.focus = Focus::List;
    let _ = app.handle_event(key(Key::Char('r')), 0);
    assert_eq!(app.popup, Popup::ConfirmRefresh);
}

#[test]
fn f5_in_list_opens_confirm_refresh() {
    let mut app = App::new("".into(), false);
    app.focus = Focus::List;
    let _ = app.handle_event(key(Key::F(5)), 0);
    assert_eq!(app.popup, Popup::ConfirmRefresh);
}

#[test]
fn r_in_search_types_instead_of_refresh() {
    let mut app = App::new("".into(), false);
    app.focus = Focus::Search;
    let _ = app.handle_event(key(Key::Char('r')), 0);
    assert_ne!(app.popup, Popup::ConfirmRefresh);
    assert_eq!(app.focus, Focus::Search);
}

// ---- further scenarios ---------------------------------------------------------

#[test]
fn results_of_the_awaited_search_are_shown_and_remembered() {
    let mut app = App::new("vim".into(), false);
    let a = app.trigger_search();
    let id = match a {
        Action::Search(SearchRequest::Packages { id, query, .. }) => {
            assert_eq!(query, "vim");
            id
        }
        _ => panic!("expected a package search"),
    };
    let mut other = vim();
    other.repo = "aur".into();
    app.accept_search_results(id, vec![vim(), other], "vim".into());
    assert!(!app.is_loading);
    assert_eq!(app.packages.len(), 2);
    assert_eq!(app.list_state.selected(), Some(0));
    assert_eq!(app.status, "Found 2 (repo 1 aur 1)");
    assert_eq!(app.cache_len(), 1);
    assert_eq!(app.last_query, "vim");
}

#[test]
fn no_results_status() {
    let mut app = App::new("zzz".into(), false);
    let a = app.trigger_search();
    if let Action::Search(SearchRequest::Packages { id, .. }) = a {
        app.accept_search_results(id, vec![], "zzz".into());
    }
    assert_eq!(app.status, "No results for 'zzz'");
    assert_eq!(app.list_state.selected(), None);
}

#[test]
fn installed_mode_asks_for_local_search() {
    let mut app = App::new("".into(), false);
    let a = app.switch_mode();
    assert!(matches!(a, Action::Search(SearchRequest::Installed { .. })));
    assert_eq!(app.status, "Listing installed packages...");
    if let Action::Search(SearchRequest::Installed { id, .. }) = a {
        app.accept_search_results(id, vec![vim()], "".into());
    }
    assert_eq!(app.status, "Installed 1 (local 1)");
}

#[test]
fn ctrl_c_quits_from_the_search_bar() {
    let mut app = App::new("".into(), false);
    let ev = TermEvent::Key(KeyPress::new(Key::Char('c'), KeyMods::control()));
    let _ = app.handle_event(ev, 0);
    assert!(app.should_quit);
}

#[test]
fn key_release_changes_nothing() {
    let mut app = App::new("".into(), false);
    app.focus = Focus::List;
    let ev = TermEvent::Key(KeyPress { code: Key::Char('q'), modifiers: KeyMods::empty(), kind: KeyKind::Release });
    let _ = app.handle_event(ev, 0);
    assert!(!app.should_quit);
}

#[test]
fn movement_wraps_around() {
    let mut app = App::new("".into(), false);
    app.focus = Focus::List;
    app.packages = vec![vim(), vim(), vim()];
    app.list_state.select(Some(0));
    let _ = app.handle_event(key(Key::Up), 0);
    assert_eq!(app.list_state.selected(), Some(2));
    let _ = app.handle_event(key(Key::Char('j')), 0);
    assert_eq!(app.list_state.selected(), Some(0));
    let _ = app.handle_event(key(Key::Down), 0);
    assert_eq!(app.list_state.selected(), Some(1));
}

#[test]
fn typing_in_the_list_moves_to_the_search_bar() {
    let mut app = App::new("".into(), false);
    app.focus = Focus::List;
    let _ = app.handle_event(key(Key::Char('v')), 42);
    assert_eq!(app.focus, Focus::Search);
    assert_eq!(input_value(&app.input), "v");
    assert!(app.needs_search);
    assert_eq!(app.last_input_change, 42);
}

#[test]
fn popup_keys_confirm_or_dismiss() {
    let mut app = App::new("".into(), false);
    app.popup = Popup::Confirm(vim());
    let (taken, a) = app.handle_popup_event(key(Key::Char('y')));
    assert!(taken);
    assert!(matches!(a, Action::Install(ref p) if p.name == "vim"));
    assert_eq!(app.popup, Popup::Closed);

    app.popup = Popup::ConfirmRemove(vim());
    let (_, a) = app.handle_popup_event(key(Key::Esc));
    assert!(matches!(a, Action::Nothing));
    assert_eq!(app.popup, Popup::Closed);

    app.popup = Popup::Help;
    let (_, a) = app.handle_popup_event(key(Key::Char('y')));
    assert!(matches!(a, Action::Nothing));
    assert_eq!(app.popup, Popup::Help);
    let (_, _) = app.handle_popup_event(key(Key::Char('?')));
    assert_eq!(app.popup, Popup::Closed);

    let (taken, _) = app.handle_popup_event(key(Key::Enter));
    assert!(!taken);
}

#[test]
fn refresh_confirmation_asks_for_refresh() {
    let mut app = App::new("".into(), false);
    app.popup = Popup::ConfirmRefresh;
    let a = app.on_event(key(Key::Enter), 0);
    assert!(matches!(a, Action::Refresh));
    assert!(app.dirty);
}

#[test]
fn finishing_an_install_reports_and_searches_again() {
    let mut app = App::new("vim".into(), false);
    let key = app.cache_key("vim");
    app.cache_put(key, vec![vim()]);
    let a = app.finish_install("vim", Ok(()));
    assert_eq!(app.status, "Searching for 'vim'...");
    assert!(matches!(app.popup, Popup::Message(ref m) if m == "✓ Installed vim"));
    assert!(matches!(a, Action::Search(_)));
    assert_eq!(app.cache_len(), 0);

    let mut app = App::new("".into(), false);
    let _ = app.finish_remove("vim", Err("boom".into()));
    assert!(matches!(app.popup, Popup::Message(ref m) if m == "✗ Failed vim: boom"));

    let mut app = App::new("".into(), false);
    let a = app.finish_refresh(Ok(()));
    assert!(matches!(a, Action::Nothing));
    assert_eq!(app.status, "Sync databases refreshed");
}

#[test]
fn debounce_waits_for_a_pause() {
    let mut app = App::new("".into(), false);
    let _ = app.handle_event(key(Key::Char('v')), 1000);
    assert!(app.needs_search);
    assert!(matches!(app.tick(1010), Action::Nothing));
    assert!(matches!(app.tick(1401), Action::Search(_)));
    assert!(!app.needs_search);
}

#[test]
fn start_runs_the_initial_query() {
    let mut app = App::new("firefox".into(), false);
    assert!(matches!(app.start(), Action::Search(_)));
    assert!(!app.needs_search);
    let mut app = App::new("".into(), false);
    assert!(matches!(app.start(), Action::Nothing));
}

#[test]
fn redraw_only_when_needed() {
    let mut app = App::new("".into(), false);
    assert!(app.needs_redraw());
    app.mark_drawn();
    assert!(!app.needs_redraw());
    assert_eq!(app.poll_interval_ms(), 50.max(app.config.tui.poll_ms));
}

#[test]
fn typing_edits_a_non_empty_field_at_the_cursor() {
    let mut app = App::new("vim".into(), false);
    app.focus = Focus::Search;
    let _ = app.handle_event(key(Key::Char('x')), 1);
    assert_eq!(input_value(&app.input), "vimx");
    let _ = app.handle_event(key(Key::Left), 2);
    let _ = app.handle_event(key(Key::Left), 3);
    let _ = app.handle_event(key(Key::Char('-')), 4);
    assert_eq!(input_value(&app.input), "vi-mx");
    let _ = app.handle_event(key(Key::Backspace), 5);
    assert_eq!(input_value(&app.input), "vimx");
    let _ = app.handle_event(key(Key::Delete), 6);
    assert_eq!(input_value(&app.input), "vix");
    let _ = app.handle_event(key(Key::Home), 7);
    let _ = app.handle_event(key(Key::Char('g')), 8);
    assert_eq!(input_value(&app.input), "gvix");
    let _ = app.handle_event(key(Key::End), 9);
    let _ = app.handle_event(key(Key::Backspace), 10);
    assert_eq!(input_value(&app.input), "gvi");
    assert!(app.needs_search);
    assert_eq!(app.last_input_change, 10);
}

#[test]
fn no_color_comes_from_the_environment_too() {
    assert!(App::new("".into(), true).no_color);
    assert!(!App::new("".into(), false).no_color);
    let cli = Cli {
        query: None,
        tui: false,
        no_tui: false,
        source: Source::All,
        by: AurBy::NameDesc,
        limit: 50,
        json: false,
        regex: false,
        installed_only: false,
        bottom_up: false,
        verbose: 0,
        no_color: false,
        config: None,
        init_config: false,
        show_config: false,
        remove: None,
        refresh: false,
    };
    assert!(App::new_with_cli("".into(), &cli, true).no_color);
    assert!(!App::new_with_cli("".into(), &cli, false).no_color);
}
