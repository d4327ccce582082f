//! State of the full-screen interface and how keys and search results change it.
//!
//! The terminal loop (drawing, reading keys, running searches on threads,
//! suspending for pacman) lives with the caller; each step here takes the
//! state and one event and answers with an `Action` for the caller to carry out.
use vstd::prelude::*;

use crate::cli::{AurBy, Cli, Source};
use crate::config::{border_type_from_str, BorderKind, Config, ThemeStyles};
use crate::model::{copy_packages, Package};
use crate::text::{chars_of, decimal, decimal_string, push_chars, push_str, str_eq, str_to_string,
    string_from_chars, trim, trim_str};
use crate::tui::input::{input_cursor, input_text, input_value, new_input};

verus! {

/// Which pane has the keyboard.
#[derive(Debug, Clone, Copy, PartialEq, Eq, Structural)]
pub enum Focus {
    Search,
    List,
}

/// Tab switches between installing new packages and removing installed ones.
#[derive(Debug, Clone, Copy, PartialEq, Eq, Structural)]
pub enum Mode {
    Search,
    Installed,
}

pub open spec fn toggled(m: Mode) -> Mode {
    match m {
        Mode::Search => Mode::Installed,
        Mode::Installed => Mode::Search,
    }
}

pub open spec fn tab_of(m: Mode) -> usize {
    match m {
        Mode::Search => 0,
        Mode::Installed => 1,
    }
}

impl Default for Mode {
    fn default() -> (r: Mode)
        ensures
            r == Mode::Search,
    {
        Mode::Search
    }
}

impl Mode {
    /// The other mode.
    pub fn toggle(self) -> (r: Mode)
        ensures
            r == toggled(self),
    {
        match self {
            Mode::Search => Mode::Installed,
            Mode::Installed => Mode::Search,
        }
    }

    /// Position of the mode's tab.
    pub fn tab_index(self) -> (r: usize)
        ensures
            r == tab_of(self),
    {
        match self {
            Mode::Search => 0,
            Mode::Installed => 1,
        }
    }
}

/// Toggling twice gives the mode back.
pub proof fn law_toggle_involution(m: Mode)
    ensures
        toggled(toggled(m)) == m,
        toggled(m) != m,
        tab_of(toggled(m)) + tab_of(m) == 1,
{
}

/// The popup over the lists, if any.
#[derive(Debug, Clone, PartialEq)]
pub enum Popup {
    Closed,
    Info(Package),
    Confirm(Package),
    ConfirmRemove(Package),
    ConfirmRefresh,
    Help,
    Message(String),
}

/// The selected row of the result list.
#[derive(Debug, Clone, Copy, PartialEq, Eq, Structural)]
pub struct ListState {
    pub selected: Option<usize>,
}

impl ListState {
    pub open spec fn view(&self) -> Option<usize> {
        self.selected
    }

    pub fn new() -> (r: ListState)
        ensures
            r.view() is None,
    {
        ListState { selected: None }
    }

    pub fn selected(&self) -> (r: Option<usize>)
        ensures
            r == self.view(),
    {
        self.selected
    }

    pub fn select(&mut self, i: Option<usize>)
        ensures
            final(self).view() == i,
    {
        self.selected = i;
    }
}

/// A search that the caller runs in the background and answers with
/// `App::accept_search_results`.
pub enum SearchRequest {
    /// Installed packages whose name or description matches `query` (all
    /// when it is empty).
    Installed { id: u64, query: String, limit: usize, use_regex: bool },
    /// Repository and AUR packages for `query`.
    Packages {
        id: u64,
        query: String,
        limit: usize,
        source: Source,
        aur_by: AurBy,
        use_regex: bool,
        installed_only: bool,
    },
}

/// What the caller does after a step.
pub enum Action {
    Nothing,
    Search(SearchRequest),
    /// Suspend the interface and install (then call `finish_install`).
    Install(Package),
    /// Suspend the interface and remove (then call `finish_remove`).
    Remove(Package),
    /// Suspend the interface and refresh the sync databases (then call
    /// `finish_refresh`).
    Refresh,
}

/// One remembered search result.
pub struct CacheEntry {
    pub key: String,
    pub pkgs: Vec<Package>,
}

/// Most search results remembered.
pub const SEARCH_CACHE_CAP: usize = 32;

pub open spec fn entry_view(e: CacheEntry) -> (Seq<char>, Seq<Package>) {
    (e.key@, e.pkgs@)
}

/// Position of `key` among the entries, or the length.
pub open spec fn key_index(c: Seq<(Seq<char>, Seq<Package>)>, key: Seq<char>) -> int
    decreases c.len(),
{
    if c.len() == 0 {
        0
    } else if c[0].0 == key {
        0
    } else {
        1 + key_index(c.drop_first(), key)
    }
}

pub proof fn lemma_key_index(c: Seq<(Seq<char>, Seq<Package>)>, key: Seq<char>)
    ensures
        0 <= key_index(c, key) <= c.len(),
        key_index(c, key) < c.len() ==> c[key_index(c, key)].0 == key,
        forall|i: int| 0 <= i < key_index(c, key) ==> (#[trigger] c[i]).0 != key,
    decreases c.len(),
{
    if c.len() > 0 && c[0].0 != key {
        lemma_key_index(c.drop_first(), key);
        assert forall|i: int| 0 <= i < key_index(c, key) implies (#[trigger] c[i]).0 != key by {
            if i > 0 {
                assert(c[i] == c.drop_first()[i - 1]);
            }
        }
    }
}

pub proof fn lemma_key_index_unique(c: Seq<(Seq<char>, Seq<Package>)>, key: Seq<char>, i: int)
    requires
        0 <= i <= c.len(),
        i < c.len() ==> c[i].0 == key,
        forall|k: int| 0 <= k < i ==> (#[trigger] c[k]).0 != key,
    ensures
        key_index(c, key) == i,
    decreases c.len(),
{
    if c.len() > 0 && c[0].0 != key {
        assert forall|k: int| 0 <= k < i - 1 implies (#[trigger] c.drop_first()[k]).0 != key by {
            assert(c.drop_first()[k] == c[k + 1]);
        }
        lemma_key_index_unique(c.drop_first(), key, i - 1);
    }
}

/// The packages remembered for `key`.
pub open spec fn cache_lookup(c: Seq<(Seq<char>, Seq<Package>)>, key: Seq<char>) -> Option<
    Seq<Package>,
> {
    let i = key_index(c, key);
    if 0 <= i < c.len() {
        Some(c[i].1)
    } else {
        None
    }
}

/// The entries after remembering `v` for `key`: an existing entry is
/// overwritten in place; a new one goes last, after dropping the oldest
/// entries while there are `SEARCH_CACHE_CAP` or more.
pub open spec fn cache_after_put(
    c: Seq<(Seq<char>, Seq<Package>)>,
    key: Seq<char>,
    v: Seq<Package>,
) -> Seq<(Seq<char>, Seq<Package>)> {
    let i = key_index(c, key);
    if 0 <= i < c.len() {
        c.update(i, (key, v))
    } else if c.len() >= SEARCH_CACHE_CAP {
        c.skip(c.len() - (SEARCH_CACHE_CAP - 1)).push((key, v))
    } else {
        c.push((key, v))
    }
}

/// No key twice, at most `SEARCH_CACHE_CAP` entries.
pub open spec fn cache_wf(c: Seq<(Seq<char>, Seq<Package>)>) -> bool {
    &&& c.len() <= SEARCH_CACHE_CAP
    &&& forall|i: int, j: int| 0 <= i < j < c.len() ==> (#[trigger] c[i]).0 != (#[trigger] c[j]).0
}

/// A result remembered for `key` is found again under `key`.
pub proof fn law_cache_put_get(c: Seq<(Seq<char>, Seq<Package>)>, key: Seq<char>, v: Seq<Package>)
    requires
        cache_wf(c),
    ensures
        cache_lookup(cache_after_put(c, key, v), key) == Some(v),
        cache_wf(cache_after_put(c, key, v)),
{
    lemma_key_index(c, key);
    let i = key_index(c, key);
    let d = cache_after_put(c, key, v);
    if 0 <= i < c.len() {
        assert forall|k: int| 0 <= k < i implies (#[trigger] d[k]).0 != key by {
            assert(d[k] == c[k]);
        }
        lemma_key_index_unique(d, key, i);
        assert forall|a: int, b: int| 0 <= a < b < d.len() implies (#[trigger] d[a]).0
            != (#[trigger] d[b]).0 by {
            if a != i && b != i {
                assert(d[a] == c[a] && d[b] == c[b]);
            } else if a == i {
                assert(d[b] == c[b]);
            } else {
                assert(d[a] == c[a]);
            }
        }
    } else {
        let kept = if c.len() >= SEARCH_CACHE_CAP {
            c.skip(c.len() - (SEARCH_CACHE_CAP - 1))
        } else {
            c
        };
        let off: int = c.len() - kept.len();
        assert(d == kept.push((key, v)));
        assert forall|k: int| 0 <= k < kept.len() implies (#[trigger] d[k]).0 != key by {
            assert(d[k] == c[k + off]);
        }
        lemma_key_index_unique(d, key, kept.len() as int);
        assert forall|a: int, b: int| 0 <= a < b < d.len() implies (#[trigger] d[a]).0
            != (#[trigger] d[b]).0 by {
            if b < kept.len() {
                assert(d[a] == c[a + off] && d[b] == c[b + off]);
            } else {
                assert(d[a] == c[a + off]);
            }
        }
    }
}

/// Remembering a result for one key changes no other key's result, except
/// that a new key, when `SEARCH_CACHE_CAP` results are remembered, pushes
/// out the oldest one.
pub proof fn law_cache_put_others(
    c: Seq<(Seq<char>, Seq<Package>)>,
    key: Seq<char>,
    v: Seq<Package>,
    other: Seq<char>,
)
    requires
        cache_wf(c),
        other != key,
    ensures
        cache_lookup(c, key) is Some || c.len() < SEARCH_CACHE_CAP || c[0].0 != other
            ==> cache_lookup(cache_after_put(c, key, v), other) == cache_lookup(c, other),
        cache_lookup(c, key) is None && c.len() == SEARCH_CACHE_CAP ==> cache_lookup(
            cache_after_put(c, key, v),
            c[0].0,
        ) is None,
{
    lemma_key_index(c, key);
    lemma_key_index(c, other);
    law_cache_put_get(c, key, v);
    let i = key_index(c, key);
    let j = key_index(c, other);
    let d = cache_after_put(c, key, v);
    lemma_key_index(d, other);
    if 0 <= i < c.len() {
        // overwritten in place: positions stay
        if j < c.len() {
            assert(j != i);
            assert forall|k: int| 0 <= k < j implies (#[trigger] d[k]).0 != other by {
                assert(d[k] == c[k] || k == i);
            }
            lemma_key_index_unique(d, other, j);
        } else {
            assert forall|k: int| 0 <= k < d.len() implies (#[trigger] d[k]).0 != other by {
                assert(d[k] == c[k] || k == i);
            }
            lemma_key_index_unique(d, other, d.len() as int);
        }
    } else {
        let kept = if c.len() >= SEARCH_CACHE_CAP {
            c.skip(c.len() - (SEARCH_CACHE_CAP - 1))
        } else {
            c
        };
        let off: int = c.len() - kept.len();
        assert(d == kept.push((key, v)));
        assert(c.len() <= SEARCH_CACHE_CAP);
        if c.len() == SEARCH_CACHE_CAP {
            assert(off == 1);
        } else {
            assert(off == 0);
        }
        if j < c.len() && j >= off {
            assert forall|k: int| 0 <= k < j - off implies (#[trigger] d[k]).0 != other by {
                assert(d[k] == c[k + off]);
            }
            assert(d[j - off] == c[j]);
            lemma_key_index_unique(d, other, j - off);
        } else if j == c.len() {
            assert forall|k: int| 0 <= k < d.len() implies (#[trigger] d[k]).0 != other by {
                if k < kept.len() {
                    assert(d[k] == c[k + off]);
                }
            }
            lemma_key_index_unique(d, other, d.len() as int);
        } else {
            // j < off: the evicted oldest entry
            assert(j == 0 && off == 1);
            assert(c[0].0 == other);
            assert forall|k: int| 0 <= k < d.len() implies (#[trigger] d[k]).0 != other by {
                if k < kept.len() {
                    assert(d[k] == c[k + 1]);
                    assert(c[0].0 != c[k + 1].0);
                }
            }
            lemma_key_index_unique(d, other, d.len() as int);
        }
        if c.len() == SEARCH_CACHE_CAP {
            let o = c[0].0;
            assert(o != key) by {
                assert(!(0 < c.len() && i == 0));
            }
            assert forall|k: int| 0 <= k < d.len() implies (#[trigger] d[k]).0 != o by {
                if k < kept.len() {
                    assert(d[k] == c[k + 1]);
                    assert(c[0].0 != c[k + 1].0);
                }
            }
            lemma_key_index(d, o);
            lemma_key_index_unique(d, o, d.len() as int);
        }
    }
}

/// Debug name of a mode.
pub open spec fn mode_name(m: Mode) -> Seq<char> {
    match m {
        Mode::Search => "Search"@,
        Mode::Installed => "Installed"@,
    }
}

/// Debug name of a source.
pub open spec fn source_name(s: Source) -> Seq<char> {
    match s {
        Source::Aur => "Aur"@,
        Source::Repo => "Repo"@,
        Source::All => "All"@,
    }
}

/// Debug name of an AUR field.
pub open spec fn aur_by_debug(b: AurBy) -> Seq<char> {
    match b {
        AurBy::Name => "Name"@,
        AurBy::NameDesc => "NameDesc"@,
        AurBy::Maintainer => "Maintainer"@,
        AurBy::Depends => "Depends"@,
        AurBy::Makedepends => "Makedepends"@,
        AurBy::Optdepends => "Optdepends"@,
        AurBy::Checkdepends => "Checkdepends"@,
    }
}

pub open spec fn bool_text(b: bool) -> Seq<char> {
    if b {
        "true"@
    } else {
        "false"@
    }
}

/// "mode|query|limit|source|by|regex|installed_only"
pub open spec fn cache_key_text(
    mode: Mode,
    q: Seq<char>,
    limit: usize,
    source: Source,
    by: AurBy,
    regex: bool,
    installed_only: bool,
) -> Seq<char> {
    mode_name(mode) + "|"@ + q + "|"@ + decimal(limit as nat) + "|"@ + source_name(source) + "|"@
        + aur_by_debug(by) + "|"@ + bool_text(regex) + "|"@ + bool_text(installed_only)
}

/// Results remembered in one mode are never served in the other: cache
/// keys made under Search and under Installed differ, whatever the queries
/// and filters.
pub proof fn law_cache_keys_separate_modes(
    q1: Seq<char>,
    l1: usize,
    s1: Source,
    b1: AurBy,
    r1: bool,
    i1: bool,
    q2: Seq<char>,
    l2: usize,
    s2: Source,
    b2: AurBy,
    r2: bool,
    i2: bool,
)
    ensures
        cache_key_text(Mode::Search, q1, l1, s1, b1, r1, i1) != cache_key_text(
            Mode::Installed,
            q2,
            l2,
            s2,
            b2,
            r2,
            i2,
        ),
{
    reveal_strlit("Search");
    reveal_strlit("Installed");
    let k1 = cache_key_text(Mode::Search, q1, l1, s1, b1, r1, i1);
    let k2 = cache_key_text(Mode::Installed, q2, l2, s2, b2, r2, i2);
    assert(k1[0] == 'S');
    assert(k2[0] == 'I');
}

fn mode_name_str(m: Mode) -> (r: &'static str)
    ensures
        r@ == mode_name(m),
{
    match m {
        Mode::Search => "Search",
        Mode::Installed => "Installed",
    }
}

fn source_name_str(s: Source) -> (r: &'static str)
    ensures
        r@ == source_name(s),
{
    match s {
        Source::Aur => "Aur",
        Source::Repo => "Repo",
        Source::All => "All",
    }
}

fn aur_by_debug_str(b: AurBy) -> (r: &'static str)
    ensures
        r@ == aur_by_debug(b),
{
    match b {
        AurBy::Name => "Name",
        AurBy::NameDesc => "NameDesc",
        AurBy::Maintainer => "Maintainer",
        AurBy::Depends => "Depends",
        AurBy::Makedepends => "Makedepends",
        AurBy::Optdepends => "Optdepends",
        AurBy::Checkdepends => "Checkdepends",
    }
}

fn bool_str(b: bool) -> (r: &'static str)
    ensures
        r@ == bool_text(b),
{
    if b {
        "true"
    } else {
        "false"
    }
}

/// Number of packages that do not come from the AUR.
pub open spec fn repo_count(s: Seq<Package>) -> nat
    decreases s.len(),
{
    if s.len() == 0 {
        0
    } else {
        repo_count(s.drop_last()) + if s.last().repo@ != "aur"@ {
            1nat
        } else {
            0nat
        }
    }
}

/// Status line after results arrive.
pub open spec fn results_status(mode: Mode, pkgs: Seq<Package>, q: Seq<char>) -> Seq<char> {
    let total = pkgs.len();
    match mode {
        Mode::Installed => if total == 0 {
            if q.len() == 0 {
                "No installed packages"@
            } else {
                "No installed match for '"@ + q + "'"@
            }
        } else {
            "Installed "@ + decimal(total) + " (local "@ + decimal(total) + ")"@
        },
        Mode::Search => if total == 0 {
            "No results for '"@ + q + "'"@
        } else {
            "Found "@ + decimal(total) + " (repo "@ + decimal(repo_count(pkgs)) + " aur "@
                + decimal((total - repo_count(pkgs)) as nat) + ")"@
        },
    }
}

/// Status line while a search runs.
pub open spec fn searching_status(mode: Mode, q: Seq<char>) -> Seq<char> {
    match mode {
        Mode::Installed => if q.len() == 0 {
            "Listing installed packages..."@
        } else {
            "Filtering installed for '"@ + q + "'..."@
        },
        Mode::Search => "Searching for '"@ + q + "'..."@,
    }
}

/// Status hint of a mode.
pub open spec fn mode_hint(mode: Mode) -> Seq<char> {
    match mode {
        Mode::Search => "Type to search, Enter to search, Tab remover, ? help"@,
        Mode::Installed => "Installed mode — type to filter, Enter to remove, Tab back, ? help"@,
    }
}

/// Next row, wrapping to the top.
pub open spec fn next_row(sel: Option<usize>, len: nat) -> Option<usize> {
    if len == 0 {
        sel
    } else {
        match sel {
            Some(i) => Some(((i + 1) % (len as int)) as usize),
            None => Some(0),
        }
    }
}

/// Previous row, wrapping to the bottom.
pub open spec fn prev_row(sel: Option<usize>, len: nat) -> Option<usize> {
    if len == 0 {
        sel
    } else {
        match sel {
            Some(i) => if i == 0 {
                Some((len - 1) as usize)
            } else {
                Some((i - 1) as usize)
            },
            None => Some(0),
        }
    }
}

/// Moving down then up (or up then down) returns to a row of the list.
pub proof fn law_select_round_trip(i: usize, len: nat)
    requires
        i < len,
        len <= usize::MAX,
    ensures
        prev_row(next_row(Some(i), len), len) == Some(i),
        next_row(prev_row(Some(i), len), len) == Some(i),
        next_row(Some(i), len) matches Some(j) && j < len,
        prev_row(Some(i), len) matches Some(j) && j < len,
{
    if i + 1 < len {
        assert((i + 1) % (len as int) == i + 1) by (nonlinear_arith)
            requires
                0 <= i + 1 < len,
        ;
        assert(next_row(Some(i), len) == Some((i + 1) as usize));
    } else {
        assert((i + 1) % (len as int) == 0) by (nonlinear_arith)
            requires
                i + 1 == len,
                len > 0,
        ;
        assert(next_row(Some(i), len) == Some(0usize));
    }
    if i == 0 {
        assert(prev_row(Some(i), len) == Some((len - 1) as usize));
        assert(((len - 1) + 1) % (len as int) == 0) by (nonlinear_arith)
            requires
                len > 0,
        ;
    } else {
        assert(prev_row(Some(i), len) == Some((i - 1) as usize));
        assert(((i - 1) + 1) % (len as int) == i) by (nonlinear_arith)
            requires
                0 < i < len,
        ;
    }
}

/// The state of the interface.
pub struct App {
    pub input: tui_input::Input,
    pub packages: Vec<Package>,
    pub list_state: ListState,
    pub focus: Focus,
    pub mode: Mode,
    pub popup: Popup,
    pub is_loading: bool,
    pub status: String,
    pub initial_query: String,
    pub last_query: String,
    /// Last query per mode: switching tabs restores each mode's results without refetch.
    pub last_query_search: String,
    pub last_query_installed: String,
    pub limit: usize,
    pub source: Source,
    pub aur_by: AurBy,
    pub use_regex: bool,
    pub installed_only: bool,
    pub no_color: bool,
    pub should_quit: bool,
    pub needs_search: bool,
    /// Time of the last edit of the search text, in milliseconds.
    pub last_input_change: u64,
    pub config: Config,
    pub styles: ThemeStyles,
    /// Border kind, parsed once from the configuration.
    pub border_type: BorderKind,
    pub search_pending: bool,
    pub search_id: u64,
    pub next_search_id: u64,
    /// Recent results, oldest first; cleared on install and remove. Kept
    /// well-formed (`wf`) by the methods.
    pub search_cache: Vec<CacheEntry>,
    /// Redraw only when the state changed or a search is in flight.
    pub dirty: bool,
}

impl App {
    /// The remembered search results, oldest first.
    pub open spec fn cache(&self) -> Seq<(Seq<char>, Seq<Package>)> {
        entries(self.search_cache@)
    }

    /// The id of the search whose results are awaited, if any.
    pub open spec fn awaited(&self) -> Option<u64> {
        if self.search_pending {
            Some(self.search_id)
        } else {
            None
        }
    }

    /// The state's own bookkeeping holds: the cache has no key twice and at
    /// most `SEARCH_CACHE_CAP` entries, and the search field's cursor lies
    /// within its text.
    pub open spec fn wf(&self) -> bool {
        &&& cache_wf(self.cache())
        &&& input_cursor(self.input) <= input_text(self.input).len()
    }

    pub open spec fn selected_package(&self) -> Option<Package> {
        match self.list_state.view() {
            Some(i) => if i < self.packages@.len() {
                Some(self.packages@[i as int])
            } else {
                None
            },
            None => None,
        }
    }

    pub open spec fn query_text(&self) -> Seq<char> {
        trim(input_text(self.input))
    }

    /// `r` is the state of a new interface with search text `q`: nothing
    /// listed, remembered or awaited, no popup, Search mode, the hint in the
    /// status line; with a non-empty `q` the list has the keyboard and a
    /// search is due.
    pub open spec fn fresh(r: App, q: Seq<char>) -> bool {
        &&& r.wf()
        &&& r.cache().len() == 0
        &&& r.awaited() is None
        &&& r.search_id == 0
        &&& r.next_search_id == 0
        &&& input_text(r.input) == q
        &&& input_cursor(r.input) == q.len()
        &&& r.packages@.len() == 0
        &&& r.list_state.view() is None
        &&& r.focus == (if q.len() == 0 {
            Focus::Search
        } else {
            Focus::List
        })
        &&& r.mode == Mode::Search
        &&& r.popup == Popup::Closed
        &&& !r.is_loading
        &&& r.status@ == mode_hint(Mode::Search)
        &&& r.initial_query@ == q
        &&& r.last_query@.len() == 0
        &&& r.last_query_search@.len() == 0
        &&& r.last_query_installed@.len() == 0
        &&& !r.should_quit
        &&& r.needs_search == (q.len() != 0)
        &&& r.last_input_change == 0
        &&& r.dirty
    }

    /// The theme and border of `r` are those of `c`.
    pub open spec fn styled_by(r: App, c: Config) -> bool {
        &&& crate::config::style::theme_styles_of(c.theme, r.styles)
        &&& r.border_type == crate::config::style::border_of(c.tui.border@)
    }

    /// A new interface state with the search text `initial_query`; with a
    /// non-empty query the list has the keyboard and a search is due.
    /// `no_color_env` says whether the `NO_COLOR` environment variable is
    /// set (read by the caller); it turns colour off.
    pub fn new(initial_query: String, no_color_env: bool) -> (r: App)
        ensures
            App::fresh(r, initial_query@),
            r.limit == 50,
            r.source == Source::All,
            r.aur_by == AurBy::NameDesc,
            !r.use_regex,
            !r.installed_only,
            r.no_color == no_color_env,
            crate::config::is_default_config(r.config),
            App::styled_by(r, r.config),
    {
        let empty = initial_query.as_str().is_empty();
        let initial_copy = initial_query.clone();
        let input = new_input(initial_query);
        let config = Config::default();
        let styles = ThemeStyles::from_theme(&config.theme);
        let border_type = border_type_from_str(config.tui.border.as_str());
        let r = App {
            input,
            packages: Vec::new(),
            list_state: ListState::new(),
            focus: if empty {
                Focus::Search
            } else {
                Focus::List
            },
            mode: Mode::Search,
            popup: Popup::Closed,
            is_loading: false,
            status: str_to_string("Type to search, Enter to search, Tab remover, ? help"),
            initial_query: initial_copy,
            last_query: String::new(),
            last_query_search: String::new(),
            last_query_installed: String::new(),
            limit: 50,
            source: Source::All,
            aur_by: AurBy::NameDesc,
            use_regex: false,
            installed_only: false,
            no_color: no_color_env,
            should_quit: false,
            needs_search: !empty,
            last_input_change: 0,
            config,
            styles,
            border_type,
            search_pending: false,
            search_id: 0,
            next_search_id: 0,
            search_cache: Vec::new(),
            dirty: true,
        };
        assert(r.cache() == Seq::<(Seq<char>, Seq<Package>)>::empty());
        r
    }

    /// As `new`, with the search filters and colour switch of the command
    /// line; `--no-color` or `NO_COLOR` turns colour off.
    pub fn new_with_cli(initial_query: String, cli: &Cli, no_color_env: bool) -> (r: App)
        ensures
            App::fresh(r, initial_query@),
            r.limit == cli.limit,
            r.source == cli.source,
            r.aur_by == cli.by,
            r.use_regex == cli.regex,
            r.installed_only == cli.installed_only,
            r.no_color == (cli.no_color || no_color_env),
            crate::config::is_default_config(r.config),
            App::styled_by(r, r.config),
    {
        let mut app = App::new(initial_query, false);
        app.limit = cli.limit;
        app.source = cli.source;
        app.aur_by = cli.by;
        app.use_regex = cli.regex;
        app.installed_only = cli.installed_only;
        app.no_color = cli.no_color || no_color_env;
        app
    }

    /// As `new_with_cli`, keeping `cfg` for layout, theme and AUR settings;
    /// the theme's `no_color` also turns colour off.
    pub fn new_with_config(
        initial_query: String,
        cli: &Cli,
        cfg: &Config,
        no_color_env: bool,
    ) -> (r: App)
        ensures
            App::fresh(r, initial_query@),
            r.limit == cli.limit,
            r.source == cli.source,
            r.aur_by == cli.by,
            r.use_regex == cli.regex,
            r.installed_only == cli.installed_only,
            r.no_color == (cli.no_color || cfg.theme.no_color || no_color_env),
            r.config == *cfg,
            App::styled_by(r, *cfg),
    {
        let mut app = App::new(initial_query, false);
        app.limit = cli.limit;
        app.source = cli.source;
        app.aur_by = cli.by;
        app.use_regex = cli.regex;
        app.installed_only = cli.installed_only;
        app.no_color = cli.no_color || cfg.theme.no_color || no_color_env;
        app.config = cfg.duplicate();
        app.styles = ThemeStyles::from_theme(&cfg.theme);
        app.border_type = border_type_from_str(cfg.tui.border.as_str());
        app
    }

    // ---- result cache ------------------------------------------------------

    /// The cache key of a query under the current mode and filters.
    pub fn cache_key(&self, query: &str) -> (r: String)
        ensures
            r@ == cache_key_text(
                self.mode,
                query@,
                self.limit,
                self.source,
                self.aur_by,
                self.use_regex,
                self.installed_only,
            ),
    {
        let mut out = chars_of(mode_name_str(self.mode));
        push_str(&mut out, "|");
        push_str(&mut out, query);
        push_str(&mut out, "|");
        let d = decimal_string(self.limit);
        push_chars(&mut out, &d);
        push_str(&mut out, "|");
        push_str(&mut out, source_name_str(self.source));
        push_str(&mut out, "|");
        push_str(&mut out, aur_by_debug_str(self.aur_by));
        push_str(&mut out, "|");
        push_str(&mut out, bool_str(self.use_regex));
        push_str(&mut out, "|");
        push_str(&mut out, bool_str(self.installed_only));
        string_from_chars(out)
    }

    /// The packages remembered for `key`.
    pub fn cache_get(&self, key: &str) -> (r: Option<Vec<Package>>)
        ensures
            r is Some <==> cache_lookup(self.cache(), key@) is Some,
            r matches Some(v) ==> cache_lookup(self.cache(), key@) == Some(v@),
    {
        entries_get(&self.search_cache, key)
    }

    /// Remembers `pkgs` for `key` (see `cache_after_put`); nothing else changes.
    pub fn cache_put(&mut self, key: String, pkgs: Vec<Package>)
        requires
            old(self).wf(),
        ensures
            final(self).wf(),
            final(self).cache() == cache_after_put(old(self).cache(), key@, pkgs@),
            *final(self) == (App { search_cache: final(self).search_cache, ..*old(self) }),
    {
        entries_put(&mut self.search_cache, key, pkgs);
    }

    /// Forgets every remembered result; nothing else changes.
    pub fn clear_cache(&mut self)
        ensures
            cache_wf(final(self).cache()),
            old(self).wf() ==> final(self).wf(),
            final(self).cache().len() == 0,
            *final(self) == (App { search_cache: final(self).search_cache, ..*old(self) }),
    {
        self.search_cache.clear();
        assert(self.cache() == Seq::<(Seq<char>, Seq<Package>)>::empty());
    }

    /// Number of remembered results.
    pub fn cache_len(&self) -> (r: usize)
        ensures
            r == self.cache().len(),
    {
        self.search_cache.len()
    }

    // ---- results -----------------------------------------------------------

    /// Fields that no step changes: filters, settings, theme.
    pub open spec fn same_settings(&self, other: &App) -> bool {
        &&& self.limit == other.limit
        &&& self.source == other.source
        &&& self.aur_by == other.aur_by
        &&& self.use_regex == other.use_regex
        &&& self.installed_only == other.installed_only
        &&& self.no_color == other.no_color
        &&& self.config == other.config
        &&& self.styles == other.styles
        &&& self.border_type == other.border_type
        &&& self.initial_query == other.initial_query
    }

    /// Shows freshly fetched results: first row selected (none when empty),
    /// status line, and the query remembered for the current mode.
    pub fn apply_results(&mut self, pkgs: Vec<Package>, query: String)
        ensures
            App::shows_results(*old(self), *final(self), pkgs@, query@),
    {
        let status = results_status_text(self.mode, &pkgs, query.as_str());
        let empty = pkgs.len() == 0;
        self.packages = pkgs;
        self.list_state.select(if empty {
            None
        } else {
            Some(0)
        });
        self.is_loading = false;
        self.last_query = query.clone();
        if self.mode == Mode::Installed {
            self.last_query_installed = query;
        } else {
            self.last_query_search = query;
        }
        self.status = status;
        self.dirty = true;
    }

    /// Moves the selection one row down, wrapping to the top.
    pub fn select_next(&mut self)
        ensures
            final(self).list_state.view() == next_row(
                old(self).list_state.view(),
                old(self).packages@.len(),
            ),
            *final(self) == (App { list_state: final(self).list_state, ..*old(self) }),
    {
        let n = self.packages.len();
        if n == 0 {
            return;
        }
        let i = match self.list_state.selected() {
            Some(i) => {
                let r = i % n;
                assert((i + 1) % (n as int) == (r + 1) % (n as int)) by (nonlinear_arith)
                    requires
                        r == i % n,
                        n > 0,
                ;
                if r + 1 == n {
                    0
                } else {
                    r + 1
                }
            },
            None => 0,
        };
        proof {
            if let Some(j) = self.list_state.view() {
                let r = j % n;
                if r + 1 == n {
                    assert((r + 1) % (n as int) == 0) by (nonlinear_arith)
                        requires
                            r + 1 == n,
                            n > 0,
                    ;
                } else {
                    assert((r + 1) % (n as int) == r + 1) by (nonlinear_arith)
                        requires
                            0 <= r,
                            r + 1 < n,
                    ;
                }
            }
        }
        self.list_state.select(Some(i));
    }

    /// Moves the selection one row up, wrapping to the bottom.
    pub fn select_prev(&mut self)
        ensures
            final(self).list_state.view() == prev_row(
                old(self).list_state.view(),
                old(self).packages@.len(),
            ),
            *final(self) == (App { list_state: final(self).list_state, ..*old(self) }),
    {
        let n = self.packages.len();
        if n == 0 {
            return;
        }
        let i = match self.list_state.selected() {
            Some(i) => if i == 0 {
                n - 1
            } else {
                i - 1
            },
            None => 0,
        };
        self.list_state.select(Some(i));
    }

    // ---- searching -----------------------------------------------------------

    /// The cache key of `q` under the current mode and filters.
    pub open spec fn key_for(&self, q: Seq<char>) -> Seq<char> {
        cache_key_text(
            self.mode,
            q,
            self.limit,
            self.source,
            self.aur_by,
            self.use_regex,
            self.installed_only,
        )
    }

    /// `a` asks for the search of `q` with id `id` under the current mode
    /// and filters.
    pub open spec fn requests(&self, a: Action, id: u64, q: Seq<char>) -> bool {
        if self.mode == Mode::Installed {
            a matches Action::Search(SearchRequest::Installed { id: i, query, limit, use_regex })
                && i == id && query@ == q && limit == self.limit && use_regex == self.use_regex
        } else {
            a matches Action::Search(
                SearchRequest::Packages { id: i, query, limit, source, aur_by, use_regex, installed_only },
            ) && i == id && query@ == q && limit == self.limit && source == self.source && aur_by
                == self.aur_by && use_regex == self.use_regex && installed_only
                == self.installed_only
        }
    }

    /// `after` is `before` showing `pkgs` for the query `q` (see `apply_results`).
    pub open spec fn shows_results(before: App, after: App, pkgs: Seq<Package>, q: Seq<char>) -> bool {
        &&& after.packages@ == pkgs
        &&& after.list_state.view() == (if pkgs.len() == 0 {
            None
        } else {
            Some(0usize)
        })
        &&& after.last_query@ == q
        &&& before.mode == Mode::Installed ==> after.last_query_installed@ == q
            && after.last_query_search == before.last_query_search
        &&& before.mode == Mode::Search ==> after.last_query_search@ == q
            && after.last_query_installed == before.last_query_installed
        &&& after.status@ == results_status(before.mode, pkgs, q)
        &&& after == (App {
            packages: after.packages,
            list_state: after.list_state,
            is_loading: false,
            last_query: after.last_query,
            last_query_search: after.last_query_search,
            last_query_installed: after.last_query_installed,
            status: after.status,
            dirty: true,
            ..before
        })
    }

    /// `search_for(q)` on `before` clears the list: Search mode, empty query.
    pub open spec fn prompts(before: App, q: Seq<char>) -> bool {
        before.mode == Mode::Search && q.len() == 0
    }

    /// `search_for(q)` on `before` keeps what is shown: same query, results present.
    pub open spec fn keeps(before: App, q: Seq<char>) -> bool {
        !App::prompts(before, q) && q == before.last_query@ && before.packages@.len() > 0
    }

    /// `search_for(q)` on `before` serves remembered results.
    pub open spec fn serves(before: App, q: Seq<char>) -> bool {
        &&& !App::prompts(before, q)
        &&& !(q == before.last_query@ && before.packages@.len() > 0)
        &&& cache_lookup(before.cache(), before.key_for(q)) is Some
    }

    /// `search_for(q)` on `before` starts a new search.
    pub open spec fn starts(before: App, q: Seq<char>) -> bool {
        &&& !App::prompts(before, q)
        &&& !(q == before.last_query@ && before.packages@.len() > 0)
        &&& cache_lookup(before.cache(), before.key_for(q)) is None
    }

    /// What `search_for(q)` does to `before` and answers (see there).
    pub open spec fn search_step(before: App, after: App, a: Action, q: Seq<char>) -> bool {
        &&& App::prompts(before, q) ==> {
            &&& a is Nothing
            &&& after.packages@.len() == 0
            &&& after.status@ == "Type a query and press Enter"@
            &&& after == (App {
                packages: after.packages,
                status: after.status,
                is_loading: false,
                search_pending: false,
                dirty: true,
                ..before
            })
        }
        &&& App::keeps(before, q) ==> {
            &&& a is Nothing
            &&& after == (App { is_loading: false, ..before })
        }
        &&& App::serves(before, q) ==> {
            &&& a is Nothing
            &&& App::shows_results(
                App { search_pending: false, ..before },
                after,
                cache_lookup(before.cache(), before.key_for(q))->0,
                q,
            )
        }
        &&& App::starts(before, q) ==> {
            &&& before.requests(a, next_id(before.next_search_id), q)
            &&& after.status@ == searching_status(before.mode, q)
            &&& after == (App {
                is_loading: true,
                dirty: true,
                status: after.status,
                next_search_id: next_id(before.next_search_id),
                search_id: next_id(before.next_search_id),
                search_pending: true,
                ..before
            })
        }
    }

    /// The id a search action carries.
    pub open spec fn request_id(a: Action) -> Option<u64> {
        match a {
            Action::Search(SearchRequest::Installed { id, .. }) => Some(id),
            Action::Search(SearchRequest::Packages { id, .. }) => Some(id),
            _ => None,
        }
    }

    /// After a search step the state awaits exactly the search it asked
    /// for, if any, and nothing when it asked for none; so results of any
    /// earlier search are dropped (`accept_search_results`) and those of
    /// this one are shown.
    pub proof fn law_awaits_its_request(before: App, after: App, a: Action, q: Seq<char>)
        requires
            App::search_step(before, after, a, q),
        ensures
            App::request_id(a) is Some ==> after.awaited() == App::request_id(a),
            App::request_id(a) is None && !App::keeps(before, q) ==> after.awaited() is None,
            App::request_id(a) is None && App::keeps(before, q) ==> after.awaited()
                == before.awaited(),
            a is Nothing || a is Search,
    {
    }

    /// A search step changes only the list, its selection, the status,
    /// the remembered queries and the search bookkeeping.
    pub proof fn lemma_search_frame(before: App, after: App, a: Action, q: Seq<char>)
        requires
            App::search_step(before, after, a, q),
        ensures
            after.same_settings(&before),
            after.mode == before.mode,
            after.focus == before.focus,
            after.popup == before.popup,
            after.input == before.input,
            after.should_quit == before.should_quit,
            after.needs_search == before.needs_search,
            after.last_input_change == before.last_input_change,
            after.search_cache == before.search_cache,
    {
        if App::prompts(before, q) {
        } else if App::keeps(before, q) {
        } else if App::serves(before, q) {
        } else {
            assert(App::starts(before, q));
        }
    }

    /// The trimmed search text.
    pub fn query_string(&self) -> (r: String)
        ensures
            r@ == self.query_text(),
    {
        let v = input_value(&self.input);
        string_from_chars(trim_str(v.as_str()))
    }

    /// Starts a search for the trimmed search text (see `search_for`).
    pub fn trigger_search(&mut self) -> (a: Action)
        requires
            old(self).wf(),
        ensures
            final(self).wf(),
            App::search_step(*old(self), *final(self), a, old(self).query_text()),
    {
        let query = self.query_string();
        self.search_for(query)
    }

    /// Starts a search for `query`, unless it is already shown (same query,
    /// results present) or remembered (served at once). In Search mode an
    /// empty query clears the list instead; in Installed mode it lists every
    /// installed package.
    pub fn search_for(&mut self, query: String) -> (a: Action)
        requires
            old(self).wf(),
        ensures
            final(self).wf(),
            App::search_step(*old(self), *final(self), a, query@),
    {
        if self.mode == Mode::Search && query.as_str().is_empty() {
            return self.step_prompt(query);
        }
        if str_eq(query.as_str(), self.last_query.as_str()) && self.packages.len() > 0 {
            return self.step_keep(query);
        }
        let key = self.cache_key(query.as_str());
        let hit = self.cache_get(key.as_str());
        match hit {
            Some(pkgs) => self.step_serve(query, pkgs),
            None => self.step_begin(query),
        }
    }

    fn step_prompt(&mut self, query: String) -> (a: Action)
        requires
            old(self).wf(),
            App::prompts(*old(self), query@),
        ensures
            final(self).wf(),
            App::search_step(*old(self), *final(self), a, query@),
    {
        self.show_prompt();
        Action::Nothing
    }

    fn step_keep(&mut self, query: String) -> (a: Action)
        requires
            old(self).wf(),
            App::keeps(*old(self), query@),
        ensures
            final(self).wf(),
            App::search_step(*old(self), *final(self), a, query@),
    {
        self.is_loading = false;
        Action::Nothing
    }

    fn step_serve(&mut self, query: String, pkgs: Vec<Package>) -> (a: Action)
        requires
            old(self).wf(),
            App::serves(*old(self), query@),
            cache_lookup(old(self).cache(), old(self).key_for(query@)) == Some(pkgs@),
        ensures
            final(self).wf(),
            App::search_step(*old(self), *final(self), a, query@),
    {
        self.search_pending = false;
        self.apply_results(pkgs, query);
        Action::Nothing
    }

    fn step_begin(&mut self, query: String) -> (a: Action)
        requires
            old(self).wf(),
            App::starts(*old(self), query@),
        ensures
            final(self).wf(),
            App::search_step(*old(self), *final(self), a, query@),
    {
        self.begin_search(query)
    }

    /// Clears the list and asks for a query.
    fn show_prompt(&mut self)
        ensures
            final(self).packages@.len() == 0,
            final(self).status@ == "Type a query and press Enter"@,
            *final(self) == (App {
                packages: final(self).packages,
                status: final(self).status,
                is_loading: false,
                search_pending: false,
                dirty: true,
                ..*old(self)
            }),
    {
        self.packages = Vec::new();
        self.status = str_to_string("Type a query and press Enter");
        self.is_loading = false;
        self.search_pending = false;
        self.dirty = true;
    }

    /// Marks a new search as awaited and asks the caller to run it.
    fn begin_search(&mut self, query: String) -> (a: Action)
        ensures
            old(self).requests(a, next_id(old(self).next_search_id), query@),
            final(self).status@ == searching_status(old(self).mode, query@),
            *final(self) == (App {
                is_loading: true,
                dirty: true,
                status: final(self).status,
                next_search_id: next_id(old(self).next_search_id),
                search_id: next_id(old(self).next_search_id),
                search_pending: true,
                ..*old(self)
            }),
    {
        self.is_loading = true;
        self.dirty = true;
        self.status = searching_status_text(self.mode, query.as_str());
        self.next_search_id = if self.next_search_id == u64::MAX {
            0
        } else {
            self.next_search_id + 1
        };
        self.search_id = self.next_search_id;
        self.search_pending = true;
        if self.mode == Mode::Installed {
            Action::Search(
                SearchRequest::Installed {
                    id: self.search_id,
                    query,
                    limit: self.limit,
                    use_regex: self.use_regex,
                },
            )
        } else {
            Action::Search(
                SearchRequest::Packages {
                    id: self.search_id,
                    query,
                    limit: self.limit,
                    source: self.source,
                    aur_by: self.aur_by,
                    use_regex: self.use_regex,
                    installed_only: self.installed_only,
                },
            )
        }
    }

    /// Results of a background search. Only those of the search awaited now
    /// are shown (and remembered); stale ones are dropped.
    pub fn accept_search_results(&mut self, id: u64, pkgs: Vec<Package>, query: String)
        requires
            old(self).wf(),
        ensures
            final(self).wf(),
            old(self).awaited() != Some(id) ==> *final(self) == *old(self),
            old(self).awaited() == Some(id) ==> {
                &&& final(self).cache() == cache_after_put(
                    old(self).cache(),
                    old(self).key_for(query@),
                    pkgs@,
                )
                &&& App::shows_results(
                    *old(self),
                    App { search_cache: old(self).search_cache, ..*final(self) },
                    pkgs@,
                    query@,
                )
            },
    {
        if self.search_pending && id == self.search_id {
            let key = self.cache_key(query.as_str());
            let copy = copy_packages(&pkgs);
            self.apply_results(copy, query);
            self.cache_put(key, pkgs);
        }
    }

    /// `mid` is `before` just after switching to the other mode: the query
    /// of the mode left is remembered and that of the mode entered restored,
    /// the list and any popup are cleared, and a search is due (`is_loading`)
    /// in Installed mode or when there is search text.
    pub open spec fn switched(before: App, mid: App) -> bool {
        let m = toggled(before.mode);
        &&& mid.packages@.len() == 0
        &&& mid.status@ == mode_hint(m)
        &&& mid == (App {
            mode: m,
            last_query: if m == Mode::Installed {
                before.last_query_installed
            } else {
                before.last_query_search
            },
            last_query_search: if m == Mode::Installed {
                before.last_query
            } else {
                before.last_query_search
            },
            last_query_installed: if m == Mode::Installed {
                before.last_query_installed
            } else {
                before.last_query
            },
            packages: mid.packages,
            list_state: ListState { selected: None },
            popup: Popup::Closed,
            search_pending: false,
            status: mid.status,
            is_loading: m == Mode::Installed || before.query_text().len() > 0,
            needs_search: false,
            dirty: true,
            ..before
        })
    }

    /// From `mid`, the search that is due is started (`search_for` on the
    /// search text) or nothing happens.
    pub open spec fn fetch_or_idle(mid: App, after: App, a: Action) -> bool {
        if mid.is_loading {
            App::search_step(mid, after, a, mid.query_text())
        } else {
            a is Nothing && after == mid
        }
    }

    /// Switches Search <-> Installed (see `switched`), then starts the
    /// search that is due.
    pub fn switch_mode(&mut self) -> (a: Action)
        requires
            old(self).wf(),
        ensures
            final(self).wf(),
            exists|mid: App| #[trigger]
                App::switched(*old(self), mid) && App::fetch_or_idle(mid, *final(self), a),
    {
        let ghost before = *self;
        let fetch = self.enter_other_mode();
        let ghost mid = *self;
        if fetch {
            let a = self.trigger_search();
            assert(App::switched(before, mid) && App::fetch_or_idle(mid, *self, a));
            a
        } else {
            assert(App::switched(before, mid) && App::fetch_or_idle(mid, *self, Action::Nothing));
            Action::Nothing
        }
    }

    /// The state change of `switch_mode` before its search.
    fn enter_other_mode(&mut self) -> (fetch: bool)
        requires
            old(self).wf(),
        ensures
            final(self).wf(),
            App::switched(*old(self), *final(self)),
            fetch == final(self).is_loading,
    {
        let m = self.mode.toggle();
        self.mode = m;
        if m == Mode::Installed {
            self.last_query_search = self.last_query.clone();
            self.last_query = self.last_query_installed.clone();
        } else {
            self.last_query_installed = self.last_query.clone();
            self.last_query = self.last_query_search.clone();
        }
        self.packages = Vec::new();
        self.list_state = ListState::new();
        self.popup = Popup::Closed;
        self.search_pending = false;
        self.status = if m == Mode::Search {
            str_to_string("Type to search, Enter to search, Tab remover, ? help")
        } else {
            str_to_string("Installed mode — type to filter, Enter to remove, Tab back, ? help")
        };
        let q = self.query_string();
        let fetch = m == Mode::Installed || !q.as_str().is_empty();
        self.is_loading = fetch;
        self.needs_search = false;
        self.dirty = true;
        fetch
    }

    // ---- after install / remove / refresh -----------------------------------

    /// `mid` is `before` after the outcome of a pacman run was noted: the
    /// status and a message popup report it, and the remembered results and
    /// the queries listed in `forget` are dropped, so the next search runs.
    pub open spec fn noted(
        before: App,
        mid: App,
        status: Seq<char>,
        message: Seq<char>,
        forget_search: bool,
        forget_installed: bool,
    ) -> bool {
        &&& mid.status@ == status
        &&& mid.popup matches Popup::Message(m) && m@ == message
        &&& mid.last_query@.len() == 0
        &&& forget_search ==> mid.last_query_search@.len() == 0
        &&& !forget_search ==> mid.last_query_search == before.last_query_search
        &&& forget_installed ==> mid.last_query_installed@.len() == 0
        &&& !forget_installed ==> mid.last_query_installed == before.last_query_installed
        &&& mid.search_cache@.len() == 0
        &&& mid == (App {
            status: mid.status,
            popup: mid.popup,
            last_query: mid.last_query,
            last_query_search: mid.last_query_search,
            last_query_installed: mid.last_query_installed,
            search_cache: mid.search_cache,
            dirty: true,
            ..before
        })
    }

    /// Status and popup text after installing `name`.
    pub open spec fn install_texts(name: Seq<char>, outcome: Result<(), String>) -> (Seq<char>, Seq<char>) {
        match outcome {
            Ok(_) => ("Installed "@ + name, "✓ Installed "@ + name),
            Err(e) => ("Install failed: "@ + e@, "✗ Failed "@ + name + ": "@ + e@),
        }
    }

    /// Status and popup text after removing `name` with the pacman flag `flag`.
    pub open spec fn remove_texts(name: Seq<char>, flag: Seq<char>, outcome: Result<(), String>) -> (Seq<char>, Seq<char>) {
        match outcome {
            Ok(_) => (
                "Removed "@ + name + " ("@ + flag + ")"@,
                "✓ Removed "@ + name + " ("@ + flag + ")"@,
            ),
            Err(e) => ("Remove failed: "@ + e@, "✗ Failed "@ + name + ": "@ + e@),
        }
    }

    /// Status and popup text after refreshing the sync databases.
    pub open spec fn refresh_texts(outcome: Result<(), String>) -> (Seq<char>, Seq<char>) {
        match outcome {
            Ok(_) => ("Sync databases refreshed"@, "✓ Sync databases refreshed"@),
            Err(e) => ("Refresh failed: "@ + e@, "✗ Refresh failed: "@ + e@),
        }
    }

    /// Notes an outcome (see `noted`).
    fn note_outcome(
        &mut self,
        status: Vec<char>,
        message: Vec<char>,
        forget_search: bool,
        forget_installed: bool,
    )
        requires
            old(self).wf(),
        ensures
            final(self).wf(),
            App::noted(*old(self), *final(self), status@, message@, forget_search, forget_installed),
    {
        self.status = string_from_chars(status);
        self.popup = Popup::Message(string_from_chars(message));
        self.last_query = String::new();
        if forget_search {
            self.last_query_search = String::new();
        }
        if forget_installed {
            self.last_query_installed = String::new();
        }
        self.clear_cache();
        self.dirty = true;
    }

    /// After an install ran: reports the outcome, forgets remembered
    /// results and searches again so the [installed] marks update.
    pub fn finish_install(&mut self, name: &str, outcome: Result<(), String>) -> (a: Action)
        requires
            old(self).wf(),
        ensures
            final(self).wf(),
            exists|mid: App| #[trigger]
                App::noted(
                    *old(self),
                    mid,
                    App::install_texts(name@, outcome).0,
                    App::install_texts(name@, outcome).1,
                    false,
                    false,
                ) && App::search_step(mid, *final(self), a, mid.query_text()),
    {
        let (status, msg) = match &outcome {
            Ok(()) => {
                let mut s = chars_of("Installed ");
                push_str(&mut s, name);
                let mut m = chars_of("✓ Installed ");
                push_str(&mut m, name);
                (s, m)
            },
            Err(e) => {
                let mut s = chars_of("Install failed: ");
                push_str(&mut s, e.as_str());
                let mut m = chars_of("✗ Failed ");
                push_str(&mut m, name);
                push_str(&mut m, ": ");
                push_str(&mut m, e.as_str());
                (s, m)
            },
        };
        self.note_outcome(status, msg, false, false);
        let ghost mid = *self;
        let a = self.trigger_search();
        assert(App::noted(
            *old(self),
            mid,
            App::install_texts(name@, outcome).0,
            App::install_texts(name@, outcome).1,
            false,
            false,
        ));
        a
    }

    /// After a removal ran: reports the outcome (with the pacman flag used),
    /// forgets remembered results and lists the installed packages again.
    pub fn finish_remove(&mut self, name: &str, outcome: Result<(), String>) -> (a: Action)
        requires
            old(self).wf(),
        ensures
            final(self).wf(),
            exists|mid: App| #[trigger]
                App::noted(
                    *old(self),
                    mid,
                    App::remove_texts(
                        name@,
                        crate::config::remove_flag_of(old(self).config.behavior.remove_flags@),
                        outcome,
                    ).0,
                    App::remove_texts(
                        name@,
                        crate::config::remove_flag_of(old(self).config.behavior.remove_flags@),
                        outcome,
                    ).1,
                    false,
                    true,
                ) && App::search_step(mid, *final(self), a, mid.query_text()),
    {
        let flag = self.config.remove_flag_arg();
        let (status, msg) = match &outcome {
            Ok(()) => {
                let mut s = chars_of("Removed ");
                push_str(&mut s, name);
                push_str(&mut s, " (");
                push_str(&mut s, flag.as_str());
                push_str(&mut s, ")");
                let mut m = chars_of("✓ Removed ");
                push_str(&mut m, name);
                push_str(&mut m, " (");
                push_str(&mut m, flag.as_str());
                push_str(&mut m, ")");
                (s, m)
            },
            Err(e) => {
                let mut s = chars_of("Remove failed: ");
                push_str(&mut s, e.as_str());
                let mut m = chars_of("✗ Failed ");
                push_str(&mut m, name);
                push_str(&mut m, ": ");
                push_str(&mut m, e.as_str());
                (s, m)
            },
        };
        self.note_outcome(status, msg, false, true);
        let ghost mid = *self;
        let a = self.trigger_search();
        let ghost f = crate::config::remove_flag_of(old(self).config.behavior.remove_flags@);
        assert(App::noted(
            *old(self),
            mid,
            App::remove_texts(name@, f, outcome).0,
            App::remove_texts(name@, f, outcome).1,
            false,
            true,
        ));
        a
    }

    /// The search text is not blank, or the Installed list (which lists
    /// everything for a blank filter) is shown.
    pub open spec fn has_something_to_show(&self) -> bool {
        self.mode == Mode::Installed || self.query_text().len() > 0
    }

    /// After refreshing the sync databases: reports the outcome, forgets
    /// every remembered query and result, and searches again when there is
    /// something to show.
    pub fn finish_refresh(&mut self, outcome: Result<(), String>) -> (a: Action)
        requires
            old(self).wf(),
        ensures
            final(self).wf(),
            exists|mid: App| #[trigger]
                App::noted(
                    *old(self),
                    mid,
                    App::refresh_texts(outcome).0,
                    App::refresh_texts(outcome).1,
                    true,
                    true,
                ) && if old(self).has_something_to_show() {
                    App::search_step(App { is_loading: true, ..mid }, *final(self), a, mid.query_text())
                } else {
                    a is Nothing && *final(self) == mid
                },
    {
        let (status, msg) = match &outcome {
            Ok(()) => (chars_of("Sync databases refreshed"), chars_of("✓ Sync databases refreshed")),
            Err(e) => {
                let mut s = chars_of("Refresh failed: ");
                push_str(&mut s, e.as_str());
                let mut m = chars_of("✗ Refresh failed: ");
                push_str(&mut m, e.as_str());
                (s, m)
            },
        };
        self.note_outcome(status, msg, true, true);
        let ghost mid = *self;
        let q = self.query_string();
        let fetch = self.mode == Mode::Installed || !q.as_str().is_empty();
        let a = if fetch {
            self.is_loading = true;
            self.trigger_search()
        } else {
            Action::Nothing
        };
        assert(App::noted(
            *old(self),
            mid,
            App::refresh_texts(outcome).0,
            App::refresh_texts(outcome).1,
            true,
            true,
        ));
        a
    }
}

/// The entries of a result cache, oldest first.
pub open spec fn entries(v: Seq<CacheEntry>) -> Seq<(Seq<char>, Seq<Package>)> {
    v.map_values(|e: CacheEntry| entry_view(e))
}

/// Position of `key` among the entries, or their number.
fn entries_find(v: &Vec<CacheEntry>, key: &str) -> (r: usize)
    ensures
        r as int == key_index(entries(v@), key@),
{
    let mut k: usize = 0;
    let ghost c = entries(v@);
    while k < v.len() && !str_eq(v[k].key.as_str(), key)
        invariant
            k <= v.len(),
            c == entries(v@),
            c.len() == v.len(),
            forall|m: int| 0 <= m < k ==> (#[trigger] c[m]).0 != key@,
        decreases v.len() - k,
    {
        assert(c[k as int] == entry_view(v@[k as int]));
        k = k + 1;
    }
    proof {
        if k < v.len() {
            assert(c[k as int] == entry_view(v@[k as int]));
        }
        lemma_key_index_unique(c, key@, k as int);
    }
    k
}

/// The packages remembered for `key`, copied.
fn entries_get(v: &Vec<CacheEntry>, key: &str) -> (r: Option<Vec<Package>>)
    ensures
        r is Some <==> cache_lookup(entries(v@), key@) is Some,
        r matches Some(p) ==> cache_lookup(entries(v@), key@) == Some(p@),
{
    let k = entries_find(v, key);
    proof {
        lemma_key_index(entries(v@), key@);
    }
    if k < v.len() {
        assert(entries(v@)[k as int] == entry_view(v@[k as int]));
        Some(copy_packages(&v[k].pkgs))
    } else {
        None
    }
}

/// Remembers `pkgs` for `key` in the entries.
fn entries_put(v: &mut Vec<CacheEntry>, key: String, pkgs: Vec<Package>)
    requires
        cache_wf(entries(old(v)@)),
    ensures
        cache_wf(entries(final(v)@)),
        entries(final(v)@) == cache_after_put(entries(old(v)@), key@, pkgs@),
{
    let ghost c = entries(v@);
    let k = entries_find(v, key.as_str());
    proof {
        lemma_key_index(c, key@);
    }
    if k < v.len() {
        let ghost kv = key@;
        v.set(k, CacheEntry { key, pkgs });
        proof {
            assert(entries(v@) == c.update(k as int, (kv, pkgs@)));
            assert forall|i: int, j: int|
                0 <= i < j < entries(v@).len() implies (#[trigger] entries(v@)[i]).0
                != (#[trigger] entries(v@)[j]).0 by {
                if i != k && j != k {
                    assert(entries(v@)[i] == c[i] && entries(v@)[j] == c[j]);
                } else if i == k {
                    assert(entries(v@)[j] == c[j]);
                    assert(c[k as int].0 == kv);
                } else {
                    assert(entries(v@)[i] == c[i]);
                    assert(c[k as int].0 == kv);
                }
            }
        }
    } else {
        while v.len() >= SEARCH_CACHE_CAP
            invariant
                c.len() <= SEARCH_CACHE_CAP,
                v.len() <= c.len(),
                c.len() >= SEARCH_CACHE_CAP ==> v.len() >= SEARCH_CACHE_CAP - 1,
                c.len() < SEARCH_CACHE_CAP ==> v.len() == c.len(),
                entries(v@) == c.skip(c.len() - v.len()),
            decreases v.len(),
        {
            let ghost before = entries(v@);
            v.remove(0);
            assert(entries(v@) == before.drop_first());
            assert(c.skip(c.len() - v.len()) == before.drop_first());
        }
        let ghost kv = key@;
        let ghost before = entries(v@);
        v.push(CacheEntry { key, pkgs });
        proof {
            assert(entries(v@) == before.push((kv, pkgs@)));
            if c.len() >= SEARCH_CACHE_CAP {
                assert(v.len() - 1 == SEARCH_CACHE_CAP - 1);
            } else {
                assert(c.skip(0) == c);
            }
            assert forall|i: int, j: int|
                0 <= i < j < entries(v@).len() implies (#[trigger] entries(v@)[i]).0
                != (#[trigger] entries(v@)[j]).0 by {
                let off = c.len() - (v.len() - 1);
                if j < entries(v@).len() - 1 {
                    assert(entries(v@)[i] == c[i + off] && entries(v@)[j] == c[j + off]);
                } else {
                    assert(entries(v@)[i] == c[i + off]);
                }
            }
        }
    }
}

/// The id after `x`, wrapping at the top.
pub open spec fn next_id(x: u64) -> u64 {
    if x == u64::MAX {
        0
    } else {
        (x + 1) as u64
    }
}

/// Number of packages that do not come from the AUR.
fn count_repo(pkgs: &Vec<Package>) -> (r: usize)
    ensures
        r == repo_count(pkgs@),
        r <= pkgs@.len(),
{
    let mut c: usize = 0;
    let mut k: usize = 0;
    while k < pkgs.len()
        invariant
            k <= pkgs.len(),
            c == repo_count(pkgs@.take(k as int)),
            c <= k,
        decreases pkgs.len() - k,
    {
        assert(pkgs@.take(k + 1).drop_last() == pkgs@.take(k as int));
        if !str_eq(pkgs[k].repo.as_str(), "aur") {
            c = c + 1;
        }
        k = k + 1;
    }
    assert(pkgs@.take(pkgs.len() as int) == pkgs@);
    c
}

/// `results_status`, computed.
fn results_status_text(mode: Mode, pkgs: &Vec<Package>, q: &str) -> (r: String)
    ensures
        r@ == results_status(mode, pkgs@, q@),
{
    let total = pkgs.len();
    let mut out: Vec<char>;
    if mode == Mode::Installed {
        if total == 0 {
            if q.is_empty() {
                out = chars_of("No installed packages");
            } else {
                out = chars_of("No installed match for '");
                push_str(&mut out, q);
                push_str(&mut out, "'");
            }
        } else {
            out = chars_of("Installed ");
            let d = decimal_string(total);
            push_chars(&mut out, &d);
            push_str(&mut out, " (local ");
            push_chars(&mut out, &d);
            push_str(&mut out, ")");
        }
    } else {
        if total == 0 {
            out = chars_of("No results for '");
            push_str(&mut out, q);
            push_str(&mut out, "'");
        } else {
            let repo = count_repo(pkgs);
            out = chars_of("Found ");
            let d = decimal_string(total);
            push_chars(&mut out, &d);
            push_str(&mut out, " (repo ");
            let dr = decimal_string(repo);
            push_chars(&mut out, &dr);
            push_str(&mut out, " aur ");
            let da = decimal_string(total - repo);
            push_chars(&mut out, &da);
            push_str(&mut out, ")");
        }
    }
    string_from_chars(out)
}

/// `searching_status`, computed.
fn searching_status_text(mode: Mode, q: &str) -> (r: String)
    ensures
        r@ == searching_status(mode, q@),
{
    let mut out: Vec<char>;
    if mode == Mode::Installed {
        if q.is_empty() {
            out = chars_of("Listing installed packages...");
        } else {
            out = chars_of("Filtering installed for '");
            push_str(&mut out, q);
            push_str(&mut out, "'...");
        }
    } else {
        out = chars_of("Searching for '");
        push_str(&mut out, q);
        push_str(&mut out, "'...");
    }
    string_from_chars(out)
}

} // verus!
