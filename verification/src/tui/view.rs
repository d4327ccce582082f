//! What the screen shows: texts, sizes and styles of the interface's
//! pieces, computed from the state. Drawing them with ratatui is the
//! caller's part.
use vstd::prelude::*;

use crate::config::style::{plain_style, with_modifier, Modifier, Style};
use crate::config::{remove_flag_of, Config, TuiConfig};
use crate::model::Package;
use crate::text::{
    chars_of, decimal, decimal_string, push_chars, push_str, string_from_chars, trim,
};
use crate::tui::app::{App, Focus, Mode};
use crate::tui::input::{input_text, printable_ascii};

verus! {

// ---- display widths (the `unicode-width` crate) --------------------------------

/// The width in columns that `unicode-width` gives a character (`None` for
/// a control character), as named by `char_display_width`.
pub uninterp spec fn unicode_char_width(c: char) -> Option<usize>;

/// The width in columns that `unicode-width` gives a string, as named by
/// `str_display_width`.
pub uninterp spec fn unicode_str_width(s: Seq<char>) -> usize;

/// Calls `UnicodeWidthChar::width`. Per the crate's source, the characters
/// U+0020..U+007E are one column wide and U+0000..U+001F and U+007F..U+009F
/// are control characters (`None`); other widths come from its tables.
#[verifier::external_body]
pub fn char_display_width(c: char) -> (r: Option<usize>)
    ensures
        r == unicode_char_width(c),
        ' ' <= c && c <= '~' ==> r == Some(1usize),
        (c < ' ' || ('\u{7f}' <= c && c < '\u{a0}')) ==> r is None,
{
    unicode_width::UnicodeWidthChar::width(c)
}

/// Calls `UnicodeWidthStr::width`. Per the crate's source, a string of
/// printable ASCII is as wide as it is long; other widths come from its
/// tables and rules for sequences.
#[verifier::external_body]
pub fn str_display_width(s: &str) -> (r: usize)
    ensures
        r == unicode_str_width(s@),
        printable_ascii(s@) ==> r == s@.len(),
{
    unicode_width::UnicodeWidthStr::width(s)
}

/// A character's width for layout: control characters count 0.
pub open spec fn column_width(c: char) -> nat {
    match unicode_char_width(c) {
        Some(w) => w as nat,
        None => 0,
    }
}

// ---- screen size ---------------------------------------------------------------

/// `x`, but at least `m`.
pub open spec fn at_least(x: u16, m: u16) -> u16 {
    if x < m {
        m
    } else {
        x
    }
}

/// The smallest usable terminal: the configured floor, at least 40×10.
pub fn floor_size(t: &TuiConfig) -> (r: (u16, u16))
    ensures
        r == (at_least(t.floor_width, 40), at_least(t.floor_height, 10)),
{
    let w = if t.floor_width < 40 {
        40
    } else {
        t.floor_width
    };
    let h = if t.floor_height < 10 {
        10
    } else {
        t.floor_height
    };
    (w, h)
}

/// The terminal is smaller than the floor in one direction; the interface
/// then only shows `too_small_message`.
pub fn is_too_small(width: u16, height: u16, t: &TuiConfig) -> (r: bool)
    ensures
        r == (width < at_least(t.floor_width, 40) || height < at_least(t.floor_height, 10)),
{
    let (fw, fh) = floor_size(t);
    width < fw || height < fh
}

pub open spec fn too_small_text(fw: u16, fh: u16) -> Seq<char> {
    "Terminal too small — need ≥"@ + decimal(fw as nat) + "×"@ + decimal(fh as nat)
}

/// "Terminal too small — need ≥W×H".
pub fn too_small_message(fw: u16, fh: u16) -> (r: String)
    ensures
        r@ == too_small_text(fw, fh),
{
    let mut out = chars_of("Terminal too small — need ≥");
    let w = decimal_string(fw as usize);
    push_chars(&mut out, &w);
    push_str(&mut out, "×");
    let h = decimal_string(fh as usize);
    push_chars(&mut out, &h);
    string_from_chars(out)
}

// ---- layout ----------------------------------------------------------------------

/// A rectangle of terminal cells.
#[derive(Copy, Clone, Debug, PartialEq, Eq, Structural)]
pub struct Area {
    pub x: u16,
    pub y: u16,
    pub width: u16,
    pub height: u16,
}

/// Rows of the screen from the top: the tab bar (1, if shown), the search
/// bar (configured, at least 2), the results (the rest, at least the
/// configured minimum, at least 4), the status line (1) and the key help (1).
pub struct Rows {
    pub tabs: u16,
    pub search: u16,
    pub results_min: u16,
}

pub fn rows(t: &TuiConfig) -> (r: Rows)
    ensures
        r.tabs == (if t.show_tabs {
            1u16
        } else {
            0u16
        }),
        r.search == at_least(t.layout_search, 2),
        r.results_min == at_least(t.layout_results_min, 4),
{
    Rows {
        tabs: if t.show_tabs {
            1
        } else {
            0
        },
        search: if t.layout_search < 2 {
            2
        } else {
            t.layout_search
        },
        results_min: if t.layout_results_min < 4 {
            4
        } else {
            t.layout_results_min
        },
    }
}

/// `percent_x`% by `percent_y`% of `r` (rounded down), centred in it.
pub open spec fn centered(percent_x: u16, percent_y: u16, r: Area) -> Area {
    let w = (r.width * percent_x / 100) as u16;
    let h = (r.height * percent_y / 100) as u16;
    Area {
        x: (r.x + (if r.width >= w { (r.width - w) as int } else { 0int }) / 2) as u16,
        y: (r.y + (if r.height >= h { (r.height - h) as int } else { 0int }) / 2) as u16,
        width: w,
        height: h,
    }
}

/// The centred popup area (see `centered`). The products of a side and its
/// percentage fit in 16 bits, and `r` lies on the screen.
pub fn centered_rect(percent_x: u16, percent_y: u16, r: Area) -> (c: Area)
    requires
        r.width * percent_x <= u16::MAX,
        r.height * percent_y <= u16::MAX,
        r.x + r.width <= u16::MAX,
        r.y + r.height <= u16::MAX,
    ensures
        c == centered(percent_x, percent_y, r),
{
    let w = r.width * percent_x / 100;
    let h = r.height * percent_y / 100;
    let x = r.x + r.width.saturating_sub(w) / 2;
    let y = r.y + r.height.saturating_sub(h) / 2;
    Area { x, y, width: w, height: h }
}

/// The kinds of popup sized from the configuration.
#[derive(Copy, Clone, Debug, PartialEq, Eq, Structural)]
pub enum PopupSize {
    Info,
    Confirm,
    Message,
    Help,
}

/// Percentages of a popup: the configured ones, or 70×60 (details and
/// help), 60×30 (questions), 60×20 (messages). The help popup is not
/// configurable.
pub open spec fn popup_percent(t: TuiConfig, k: PopupSize) -> (u16, u16) {
    match k {
        PopupSize::Info => match t.popup_info {
            Some(p) => p,
            None => (70, 60),
        },
        PopupSize::Confirm => match t.popup_confirm {
            Some(p) => p,
            None => (60, 30),
        },
        PopupSize::Message => match t.popup_message {
            Some(p) => p,
            None => (60, 20),
        },
        PopupSize::Help => (70, 60),
    }
}

pub fn popup_percentages(t: &TuiConfig, k: PopupSize) -> (r: (u16, u16))
    ensures
        r == popup_percent(*t, k),
{
    match k {
        PopupSize::Info => match t.popup_info {
            Some(p) => p,
            None => (70, 60),
        },
        PopupSize::Confirm => match t.popup_confirm {
            Some(p) => p,
            None => (60, 30),
        },
        PopupSize::Message => match t.popup_message {
            Some(p) => p,
            None => (60, 20),
        },
        PopupSize::Help => (70, 60),
    }
}

// ---- tab bar and search bar ---------------------------------------------------

/// The tab bar: the two titles and the divider. Below 50 columns short
/// ASCII labels are used.
pub fn tab_labels(width: u16) -> (r: (&'static str, &'static str, &'static str))
    ensures
        width < 50 ==> r.0@ == "[1]Search"@ && r.1@ == "[2]Installed"@ && r.2@ == "|"@,
        width >= 50 ==> r.0@ == "🔍 Search (install)"@ && r.1@ == "🗑 Installed (remove)"@
            && r.2@ == " │ "@,
{
    if width < 50 {
        ("[1]Search", "[2]Installed", "|")
    } else {
        ("🔍 Search (install)", "🗑 Installed (remove)", " │ ")
    }
}

pub open spec fn search_title_text(mode: Mode, focus: Focus) -> Seq<char> {
    match (mode, focus) {
        (Mode::Search, Focus::Search) => " Search (Enter to search, Esc to list, Tab remover) "@,
        (Mode::Search, Focus::List) => " Search (press / to focus, Tab remover) "@,
        (Mode::Installed, Focus::Search) => " Filter installed (Enter to filter, Tab back) "@,
        (Mode::Installed, Focus::List) => " Filter installed (press / to focus, Tab back) "@,
    }
}

/// The search bar's title.
pub fn search_title(mode: Mode, focus: Focus) -> (r: &'static str)
    ensures
        r@ == search_title_text(mode, focus),
{
    match (mode, focus) {
        (Mode::Search, Focus::Search) => " Search (Enter to search, Esc to list, Tab remover) ",
        (Mode::Search, Focus::List) => " Search (press / to focus, Tab remover) ",
        (Mode::Installed, Focus::Search) => " Filter installed (Enter to filter, Tab back) ",
        (Mode::Installed, Focus::List) => " Filter installed (press / to focus, Tab back) ",
    }
}

/// Where the longest tail of `s` that fits in `room` columns starts,
/// taking characters from the end until the next would not fit.
pub open spec fn tail_start(s: Seq<char>, room: nat) -> int
    decreases s.len(),
{
    if s.len() == 0 {
        0
    } else if column_width(s.last()) > room {
        s.len() as int
    } else {
        tail_start(s.drop_last(), (room - column_width(s.last())) as nat)
    }
}

proof fn lemma_tail_start(s: Seq<char>, room: nat)
    ensures
        0 <= tail_start(s, room) <= s.len(),
    decreases s.len(),
{
    if s.len() > 0 && column_width(s.last()) <= room {
        lemma_tail_start(s.drop_last(), (room - column_width(s.last())) as nat);
    }
}

/// The search text as shown in a bar `area_width` wide: as it is when it
/// fits in the inner width (the width less 4), else "..." and the longest
/// tail that fits in 3 columns less (when more than 3 columns are left).
pub open spec fn shown_query(s: Seq<char>, area_width: u16) -> Seq<char> {
    let inner: nat = if area_width >= 4 {
        (area_width - 4) as nat
    } else {
        0
    };
    if unicode_str_width(s) > inner && inner > 3 {
        "..."@ + s.skip(tail_start(s, (inner - 3) as nat))
    } else {
        s
    }
}

/// The search text as shown (see `shown_query`).
pub fn search_display(text: &str, area_width: u16) -> (r: String)
    ensures
        r@ == shown_query(text@, area_width),
{
    let inner: usize = area_width.saturating_sub(4) as usize;
    let total = str_display_width(text);
    if !(total > inner && inner > 3) {
        return crate::text::str_to_string(text);
    }
    let room: usize = inner - 3;
    let cs = chars_of(text);
    let ghost s = text@;
    let mut used: usize = 0;
    let mut start: usize = cs.len();
    let mut stop = false;
    proof {
        lemma_tail_start(s, room as nat);
        assert(s.take(cs.len() as int) == s);
    }
    while start > 0 && !stop
        invariant
            cs@ == s,
            start <= cs.len(),
            used <= room,
            !stop ==> tail_start(s, room as nat) == tail_start(s.take(start as int), (room - used) as nat),
            stop ==> tail_start(s, room as nat) == start,
        decreases start, if stop { 0int } else { 1int },
    {
        let c = cs[start - 1];
        let w: usize = match char_display_width(c) {
            Some(x) => x,
            None => 0,
        };
        let ghost t = s.take(start as int);
        proof {
            assert(t.last() == c);
            assert(t.drop_last() == s.take(start - 1));
        }
        if w > room - used {
            stop = true;
        } else {
            used = used + w;
            start = start - 1;
        }
    }
    proof {
        if !stop {
            assert(s.take(0) == Seq::<char>::empty());
        }
    }
    let mut out = chars_of("...");
    let tail = crate::text::sub_chars(&cs, start, cs.len());
    push_chars(&mut out, &tail);
    string_from_chars(out)
}

/// The terminal cursor's column in a search bar at `area_x`, `area_width`
/// wide, for the field's cursor at visual column `cursor`: after the left
/// border, at most `width - 3` further.
pub open spec fn cursor_column(area_x: u16, area_width: u16, cursor: usize) -> int {
    let limit: int = if area_width >= 3 {
        area_width - 3
    } else {
        0
    };
    let c: int = if (cursor as u16) < limit {
        (cursor as u16) as int
    } else {
        limit
    };
    area_x + 1 + c
}

pub fn cursor_x(area_x: u16, area_width: u16, cursor: usize) -> (r: u16)
    requires
        area_x + area_width <= u16::MAX,
        area_width >= 1,
    ensures
        r == cursor_column(area_x, area_width, cursor),
{
    let limit = area_width.saturating_sub(3);
    #[verifier::truncate]
    let c: u16 = cursor as u16;
    let c = if c < limit {
        c
    } else {
        limit
    };
    area_x + 1 + c
}

// ---- result list -----------------------------------------------------------------

/// " Results {installed }{⏳} {(selected/total)} ": the mode tag, the spinner
/// while loading, and the position (row number, 0 for none) when there are
/// rows.
pub open spec fn results_title_text(
    mode: Mode,
    loading: bool,
    selected: Option<usize>,
    total: nat,
) -> Seq<char> {
    let tag = match mode {
        Mode::Search => ""@,
        Mode::Installed => "installed "@,
    };
    let spin = if loading {
        "⏳"@
    } else {
        ""@
    };
    let pos = if total == 0 {
        ""@
    } else {
        "("@ + decimal(
            match selected {
                Some(i) => (i + 1) as nat,
                None => 0,
            },
        ) + "/"@ + decimal(total) + ")"@
    };
    " Results "@ + tag + spin + " "@ + pos + " "@
}

/// The title of the result list.
pub fn results_title(app: &App) -> (r: String)
    requires
        app.list_state.view() != Some(usize::MAX),
    ensures
        r@ == results_title_text(
            app.mode,
            app.is_loading,
            app.list_state.view(),
            app.packages@.len(),
        ),
{
    let mut out = chars_of(" Results ");
    if app.mode == Mode::Installed {
        push_str(&mut out, "installed ");
    }
    if app.is_loading {
        push_str(&mut out, "⏳");
    }
    push_str(&mut out, " ");
    if app.packages.len() > 0 {
        push_str(&mut out, "(");
        let sel: usize = match app.list_state.selected() {
            Some(i) => i + 1,
            None => 0,
        };
        let d = decimal_string(sel);
        push_chars(&mut out, &d);
        push_str(&mut out, "/");
        let t = decimal_string(app.packages.len());
        push_chars(&mut out, &t);
        push_str(&mut out, ")");
    }
    push_str(&mut out, " ");
    proof {
        reveal_strlit("");
        assert(out@ == results_title_text(
            app.mode,
            app.is_loading,
            app.list_state.view(),
            app.packages@.len(),
        ));
    }
    string_from_chars(out)
}

pub open spec fn empty_list_text_of(loading: bool, blank: bool, mode: Mode) -> Seq<char> {
    if loading {
        match mode {
            Mode::Search => "Searching..."@,
            Mode::Installed => "Listing installed..."@,
        }
    } else if blank {
        match mode {
            Mode::Search => "Type a package name above and press Enter — e.g. firefox"@,
            Mode::Installed => "Installed mode — type to filter, empty shows all (Tab: back to search)"@,
        }
    } else {
        match mode {
            Mode::Search => "No packages found. Try another query or check filters."@,
            Mode::Installed => "No installed packages match. Clear filter or press Tab."@,
        }
    }
}

/// What an empty list shows: loading, no query yet, or no match.
pub fn empty_list_text(app: &App) -> (r: &'static str)
    ensures
        r@ == empty_list_text_of(app.is_loading, trim(input_text(app.input)).len() == 0, app.mode),
{
    let q = app.query_string();
    let blank = q.as_str().is_empty();
    if app.is_loading {
        match app.mode {
            Mode::Search => "Searching...",
            Mode::Installed => "Listing installed...",
        }
    } else if blank {
        match app.mode {
            Mode::Search => "Type a package name above and press Enter — e.g. firefox",
            Mode::Installed => "Installed mode — type to filter, empty shows all (Tab: back to search)",
        }
    } else {
        match app.mode {
            Mode::Search => "No packages found. Try another query or check filters.",
            Mode::Installed => "No installed packages match. Clear filter or press Tab.",
        }
    }
}

/// A bold plain style, used for emphasis without colour.
pub open spec fn bold_style() -> Style {
    Style { add_modifier: with_modifier(plain_style().add_modifier, Modifier::Bold), ..plain_style() }
}

fn bold() -> (r: Style)
    ensures
        r == bold_style(),
{
    Style::default().add_modifier(Modifier::Bold)
}

/// Style of a row's "repo/name": bold without colour; else by repository
/// (aur, core, extra, multilib, local, any other).
pub open spec fn repo_style_of(app: App, repo: Seq<char>) -> Style {
    if app.no_color {
        bold_style()
    } else if repo == "aur"@ {
        app.styles.repo_aur
    } else if repo == "core"@ {
        app.styles.repo_core
    } else if repo == "extra"@ {
        app.styles.repo_extra
    } else if repo == "multilib"@ {
        app.styles.repo_multilib
    } else if repo == "local"@ {
        app.styles.repo_local
    } else {
        app.styles.repo_other
    }
}

pub fn repo_style(app: &App, repo: &str) -> (r: Style)
    ensures
        r == repo_style_of(*app, repo@),
{
    if app.no_color {
        bold()
    } else if crate::text::str_eq(repo, "aur") {
        app.styles.repo_aur
    } else if crate::text::str_eq(repo, "core") {
        app.styles.repo_core
    } else if crate::text::str_eq(repo, "extra") {
        app.styles.repo_extra
    } else if crate::text::str_eq(repo, "multilib") {
        app.styles.repo_multilib
    } else if crate::text::str_eq(repo, "local") {
        app.styles.repo_local
    } else {
        app.styles.repo_other
    }
}

/// `style`, or the plain style without colour.
pub open spec fn colored_or_plain(app: App, style: Style) -> Style {
    if app.no_color {
        plain_style()
    } else {
        style
    }
}

pub fn color_or_plain(app: &App, style: Style) -> (r: Style)
    ensures
        r == colored_or_plain(*app, style),
{
    if app.no_color {
        Style::default()
    } else {
        style
    }
}

/// `style`, or bold without colour.
pub open spec fn colored_or_bold(app: App, style: Style) -> Style {
    if app.no_color {
        bold_style()
    } else {
        style
    }
}

pub fn color_or_bold(app: &App, style: Style) -> (r: Style)
    ensures
        r == colored_or_bold(*app, style),
{
    if app.no_color {
        bold()
    } else {
        style
    }
}

/// The search bar's border: focused or not (plain without colour).
pub fn search_border_style(app: &App) -> (r: Style)
    ensures
        r == colored_or_plain(
            *app,
            if app.focus == Focus::Search {
                app.styles.border_focused
            } else {
                app.styles.border_unfocused
            },
        ),
{
    let s = if app.focus == Focus::Search {
        app.styles.border_focused
    } else {
        app.styles.border_unfocused
    };
    color_or_plain(app, s)
}

/// The status line: loading or idle (plain without colour).
pub fn status_style(app: &App) -> (r: Style)
    ensures
        r == colored_or_plain(
            *app,
            if app.is_loading {
                app.styles.status_loading
            } else {
                app.styles.status_idle
            },
        ),
{
    let s = if app.is_loading {
        app.styles.status_loading
    } else {
        app.styles.status_idle
    };
    color_or_plain(app, s)
}

/// The selection highlight: the theme's, or reversed without colour.
pub fn highlight_style(app: &App) -> (r: Style)
    ensures
        r == (if app.no_color {
            Style {
                add_modifier: with_modifier(plain_style().add_modifier, Modifier::Reversed),
                ..plain_style()
            }
        } else {
            app.styles.highlight
        }),
{
    if app.no_color {
        Style::default().add_modifier(Modifier::Reversed)
    } else {
        app.styles.highlight
    }
}

/// The symbol before the selected row: configured, or "▸ ".
pub fn highlight_symbol(t: &TuiConfig) -> (r: String)
    ensures
        r@ == (match t.highlight_symbol {
            Some(s) => s@,
            None => "▸ "@,
        }),
{
    match &t.highlight_symbol {
        Some(s) => s.clone(),
        None => crate::text::str_to_string("▸ "),
    }
}

/// "repo/name".
pub fn repo_slash_name(p: &Package) -> (r: String)
    ensures
        r@ == p.repo@ + "/"@ + p.name@,
{
    let mut out = chars_of(p.repo.as_str());
    push_str(&mut out, "/");
    push_str(&mut out, p.name.as_str());
    string_from_chars(out)
}

/// " version".
pub fn version_text(p: &Package) -> (r: String)
    ensures
        r@ == " "@ + p.version@,
{
    let mut out = chars_of(" ");
    push_str(&mut out, p.version.as_str());
    string_from_chars(out)
}

/// The row's " [installed]" tag shows in Search mode only (every row of
/// the Installed list is installed).
pub fn shows_installed_tag(app: &App, p: &Package) -> (r: bool)
    ensures
        r == (p.installed && app.mode == Mode::Search),
{
    p.installed && app.mode == Mode::Search
}

/// The description, or "-".
pub open spec fn or_dash(o: Option<String>) -> Seq<char> {
    match o {
        Some(s) => s@,
        None => "-"@,
    }
}

/// The text, or "-".
pub fn or_dash_str(o: &Option<String>) -> (r: &str)
    ensures
        r@ == or_dash(*o),
{
    match o {
        Some(s) => s.as_str(),
        None => "-",
    }
}

/// The row's second line: two spaces and the description (or "-").
pub fn description_line(p: &Package) -> (r: String)
    ensures
        r@ == "  "@ + or_dash(p.description),
{
    let mut out = chars_of("  ");
    push_str(&mut out, or_dash_str(&p.description));
    string_from_chars(out)
}

/// The AUR figures of a row are shown (only for AUR packages).
pub fn shows_aur_figures(p: &Package) -> (r: bool)
    ensures
        r == (p.repo@ == "aur"@),
{
    crate::text::str_eq(p.repo.as_str(), "aur")
}

/// " [out-of-date]" for a flagged AUR package, else nothing.
pub fn out_of_date_suffix(p: &Package) -> (r: &'static str)
    ensures
        r@ == (if p.out_of_date is Some {
            " [out-of-date]"@
        } else {
            ""@
        }),
{
    if p.out_of_date.is_some() {
        " [out-of-date]"
    } else {
        ""
    }
}

pub open spec fn help_text(mode: Mode, focus: Focus) -> Seq<char> {
    match (mode, focus) {
        (Mode::Search, Focus::Search) => " Enter:search  Esc:list  Tab:remover  ?:help  Ctrl+C:quit "@,
        (Mode::Search, Focus::List) => " ↑↓/j k:move  Enter:install  i:info  r:refresh  /:search  Tab:remover  ?:help  q:quit "@,
        (Mode::Installed, Focus::Search) => " Enter:filter  Esc:list  Tab:search  ?:help  Ctrl+C:quit "@,
        (Mode::Installed, Focus::List) => " ↑↓/j k:move  Enter/d:remove  i:info  r:refresh  /:filter  Tab:search  ?:help  q:quit "@,
    }
}

/// The key help at the bottom, by mode and focus.
pub fn help_line(mode: Mode, focus: Focus) -> (r: &'static str)
    ensures
        r@ == help_text(mode, focus),
{
    match (mode, focus) {
        (Mode::Search, Focus::Search) => " Enter:search  Esc:list  Tab:remover  ?:help  Ctrl+C:quit ",
        (Mode::Search, Focus::List) => " ↑↓/j k:move  Enter:install  i:info  r:refresh  /:search  Tab:remover  ?:help  q:quit ",
        (Mode::Installed, Focus::Search) => " Enter:filter  Esc:list  Tab:search  ?:help  Ctrl+C:quit ",
        (Mode::Installed, Focus::List) => " ↑↓/j k:move  Enter/d:remove  i:info  r:refresh  /:filter  Tab:search  ?:help  q:quit ",
    }
}

// ---- popups ----------------------------------------------------------------------

/// The details popup's title: " repo / name ".
pub fn info_title(p: &Package) -> (r: String)
    ensures
        r@ == " "@ + p.repo@ + " / "@ + p.name@ + " "@,
{
    let mut out = chars_of(" ");
    push_str(&mut out, p.repo.as_str());
    push_str(&mut out, " / ");
    push_str(&mut out, p.name.as_str());
    push_str(&mut out, " ");
    string_from_chars(out)
}

/// "  Arch: " and the architecture (or "-").
pub fn arch_text(p: &Package) -> (r: String)
    ensures
        r@ == "  Arch: "@ + or_dash(p.arch),
{
    let mut out = chars_of("  Arch: ");
    push_str(&mut out, or_dash_str(&p.arch));
    string_from_chars(out)
}

/// "  [installed]" for an installed package, else nothing.
pub fn installed_suffix(p: &Package) -> (r: &'static str)
    ensures
        r@ == (if p.installed {
            "  [installed]"@
        } else {
            ""@
        }),
{
    if p.installed {
        "  [installed]"
    } else {
        ""
    }
}

/// Votes, 0 when unknown.
pub fn votes_or_zero(p: &Package) -> (r: i32)
    ensures
        r == (match p.votes {
            Some(v) => v,
            None => 0,
        }),
{
    match p.votes {
        Some(v) => v,
        None => 0,
    }
}

/// "  Maintainer: name" when the maintainer is known, else nothing.
pub fn maintainer_text(p: &Package) -> (r: String)
    ensures
        r@ == (match p.maintainer {
            Some(m) => "  Maintainer: "@ + m@,
            None => ""@,
        }),
{
    match &p.maintainer {
        Some(m) => {
            let mut out = chars_of("  Maintainer: ");
            push_str(&mut out, m.as_str());
            string_from_chars(out)
        },
        None => {
            proof {
                reveal_strlit("");
            }
            String::new()
        },
    }
}

/// "[out-of-date]" for a flagged package, else nothing.
pub fn out_of_date_tag(p: &Package) -> (r: &'static str)
    ensures
        r@ == (if p.out_of_date is Some {
            "[out-of-date]"@
        } else {
            ""@
        }),
{
    if p.out_of_date.is_some() {
        "[out-of-date]"
    } else {
        ""
    }
}

/// "repo/name version", the package a question is about.
pub fn question_target(p: &Package) -> (r: String)
    ensures
        r@ == p.repo@ + "/"@ + p.name@ + " "@ + p.version@,
{
    let mut out = chars_of(p.repo.as_str());
    push_str(&mut out, "/");
    push_str(&mut out, p.name.as_str());
    push_str(&mut out, " ");
    push_str(&mut out, p.version.as_str());
    string_from_chars(out)
}

/// What installing will do: show the PKGBUILD (AUR) or run pacman.
pub fn install_note(p: &Package) -> (r: &'static str)
    ensures
        r@ == (if p.repo@ == "aur"@ {
            "AUR PKGBUILD will be shown before build."@
        } else {
            "Will run: sudo pacman -S <pkg> [needs password]"@
        }),
{
    if crate::text::str_eq(p.repo.as_str(), "aur") {
        "AUR PKGBUILD will be shown before build."
    } else {
        "Will run: sudo pacman -S <pkg> [needs password]"
    }
}

/// What removing will run: "Will run: sudo pacman <flag> <name> [needs password]",
/// with the allow-listed flag of the configuration.
pub fn remove_note(cfg: &Config, p: &Package) -> (r: String)
    ensures
        r@ == "Will run: sudo pacman "@ + remove_flag_of(cfg.behavior.remove_flags@) + " "@
            + p.name@ + " [needs password]"@,
{
    let flag = cfg.remove_flag_arg();
    let mut out = chars_of("Will run: sudo pacman ");
    push_str(&mut out, flag.as_str());
    push_str(&mut out, " ");
    push_str(&mut out, p.name.as_str());
    push_str(&mut out, " [needs password]");
    string_from_chars(out)
}

/// What refreshing will run: "Will run: sudo pacman -Sy [--noconfirm] [needs password]".
pub fn refresh_note(cfg: &Config) -> (r: String)
    ensures
        r@ == "Will run: sudo pacman -Sy"@ + (if cfg.behavior.remove_noconfirm {
            " --noconfirm"@
        } else {
            ""@
        }) + " [needs password]"@,
{
    let mut out = chars_of("Will run: sudo pacman -Sy");
    if cfg.refresh_noconfirm() {
        push_str(&mut out, " --noconfirm");
    }
    push_str(&mut out, " [needs password]");
    proof {
        reveal_strlit("");
    }
    string_from_chars(out)
}

/// The message popup's border: success ("✓" first) or failure (plain
/// without colour).
pub fn message_border_style(app: &App, msg: &str) -> (r: Style)
    ensures
        r == colored_or_plain(
            *app,
            if msg@.len() > 0 && msg@[0] == '✓' {
                app.styles.installed
            } else {
                app.styles.out_of_date
            },
        ),
{
    let cs = chars_of(msg);
    let ok = cs.len() > 0 && cs[0] == '✓';
    let s = if ok {
        app.styles.installed
    } else {
        app.styles.out_of_date
    };
    color_or_plain(app, s)
}

// ---- popup labels ----------------------------------------------------------------

/// A labelled line of the details popup.
#[derive(Copy, Clone, Debug, PartialEq, Eq, Structural)]
pub enum InfoField {
    Version,
    Repo,
    Url,
    Desc,
    Votes,
}

pub open spec fn info_label_text(f: InfoField) -> Seq<char> {
    match f {
        InfoField::Version => "Version: "@,
        InfoField::Repo => "Repo: "@,
        InfoField::Url => "URL: "@,
        InfoField::Desc => "Desc: "@,
        InfoField::Votes => "Votes: "@,
    }
}

/// The label in front of a field of the details popup.
pub fn info_label(f: InfoField) -> (r: &'static str)
    ensures
        r@ == info_label_text(f),
{
    match f {
        InfoField::Version => "Version: ",
        InfoField::Repo => "Repo: ",
        InfoField::Url => "URL: ",
        InfoField::Desc => "Desc: ",
        InfoField::Votes => "Votes: ",
    }
}

/// The last line of the details popup.
pub fn info_close_hint() -> (r: &'static str)
    ensures
        r@ == "Press Esc/q/Enter to close"@,
{
    "Press Esc/q/Enter to close"
}

/// The border title of the "terminal too small" notice.
pub fn window_title() -> (r: &'static str)
    ensures
        r@ == " pacseek "@,
{
    " pacseek "
}

/// The tag behind an installed package in the result list (see
/// `shows_installed_tag` for when it is shown).
pub fn list_installed_tag() -> (r: &'static str)
    ensures
        r@ == " [installed]"@,
{
    " [installed]"
}

/// What closes the install or removal question, after its target.
pub fn question_end() -> (r: &'static str)
    ensures
        r@ == " ?"@,
{
    " ?"
}

/// The title of the install (`removing` false) or removal question.
pub fn question_title(removing: bool) -> (r: &'static str)
    ensures
        r@ == (if removing {
            " Confirm remove "@
        } else {
            " Confirm install "@
        }),
{
    if removing {
        " Confirm remove "
    } else {
        " Confirm install "
    }
}

/// The verb that opens the install or removal question.
pub fn question_verb(removing: bool) -> (r: &'static str)
    ensures
        r@ == (if removing {
            "Remove "@
        } else {
            "Install "@
        }),
{
    if removing {
        "Remove "
    } else {
        "Install "
    }
}

/// The warning under the removal question.
pub fn remove_hint() -> (r: &'static str)
    ensures
        r@ == "Check Required By in info (i) before removing libs."@,
{
    "Check Required By in info (i) before removing libs."
}

/// Title and question of the refresh popup.
pub fn refresh_question() -> (r: (&'static str, &'static str))
    ensures
        r.0@ == " Confirm refresh "@,
        r.1@ == "Refresh the sync databases ?"@,
{
    (" Confirm refresh ", "Refresh the sync databases ?")
}

/// The answer line of a question, in four parts: the "yes" key, its text,
/// the "cancel" keys and their text.
pub fn yes_no_parts() -> (r: (&'static str, &'static str, &'static str, &'static str))
    ensures
        r.0@ == "Y"@,
        r.1@ == "/Enter = yes  "@,
        r.2@ == "N/Esc"@,
        r.3@ == " = cancel"@,
{
    ("Y", "/Enter = yes  ", "N/Esc", " = cancel")
}

/// The titles of the help and message popups.
pub fn help_and_message_titles() -> (r: (&'static str, &'static str))
    ensures
        r.0@ == " Help (?) "@,
        r.1@ == " Message "@,
{
    (" Help (?) ", " Message ")
}

pub open spec fn help_popup_text() -> Seq<Seq<char>> {
    seq![
        "Tab / Shift+Tab : switch Search <-> Installed"@,
        ""@,
        "Search mode:"@,
        "  type + Enter  : search repo+AUR"@,
        "  ↑↓ / j k      : navigate"@,
        "  Enter         : install selected"@,
        "  i             : package info"@,
        "  r / F5        : refresh sync DBs (confirm)"@,
        ""@,
        "Installed mode:"@,
        "  type + Enter  : filter installed"@,
        "  ↑↓ / j k      : navigate"@,
        "  Enter / d / x : remove selected"@,
        "  i             : package info"@,
        "  r / F5        : refresh sync DBs (confirm)"@,
        ""@,
        "Global: / focus search, Esc focus toggle, ? help, q quit, r refresh"@,
        ""@,
        "Press Esc/q/Enter/? to close"@,
    ]
}

/// The lines of the help popup, one string each.
pub fn help_popup_lines() -> (r: Vec<&'static str>)
    ensures
        r@.map_values(|l: &'static str| l@) == help_popup_text(),
{
    let mut v: Vec<&'static str> = Vec::new();
    v.push("Tab / Shift+Tab : switch Search <-> Installed");
    v.push("");
    v.push("Search mode:");
    v.push("  type + Enter  : search repo+AUR");
    v.push("  ↑↓ / j k      : navigate");
    v.push("  Enter         : install selected");
    v.push("  i             : package info");
    v.push("  r / F5        : refresh sync DBs (confirm)");
    v.push("");
    v.push("Installed mode:");
    v.push("  type + Enter  : filter installed");
    v.push("  ↑↓ / j k      : navigate");
    v.push("  Enter / d / x : remove selected");
    v.push("  i             : package info");
    v.push("  r / F5        : refresh sync DBs (confirm)");
    v.push("");
    v.push("Global: / focus search, Esc focus toggle, ? help, q quit, r refresh");
    v.push("");
    v.push("Press Esc/q/Enter/? to close");
    assert(v@.map_values(|l: &'static str| l@) =~= help_popup_text());
    v
}

} // verus!
