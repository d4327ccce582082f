//! Settings read from `config.toml`: search defaults, TUI layout, theme and
//! install/remove behaviour, with the helpers that interpret them.
use vstd::prelude::*;

use crate::cli::{aur_by_name, AurBy, Source};
use crate::text::{
    all_ascii, ascii_lower, chars_eq_str, is_ws, lowercase, push_chars, str_to_string,
    string_from_chars, trim_end, trim_start,
    strip_leading, strip_leading_chars, to_lowercase, trim, trim_str,
};

pub mod style;

pub use self::style::{
    border_type_from_str, parse_color, parse_style, BorderKind, Color, Modifier, Modifiers,
    Style, ThemeStyles,
};

verus! {

// ---- helpers ---------------------------------------------------------------

fn default_limit() -> (r: usize)
    ensures
        r == 50,
{
    50
}

fn default_source() -> (r: String)
    ensures
        r@ == "all"@,
{
    str_to_string("all")
}

fn default_by() -> (r: String)
    ensures
        r@ == "name-desc"@,
{
    str_to_string("name-desc")
}

fn default_timeout() -> (r: u64)
    ensures
        r == 15,
{
    15
}

fn default_true() -> (r: bool)
    ensures
        r,
{
    true
}

fn default_border() -> (r: String)
    ensures
        r@ == "rounded"@,
{
    str_to_string("rounded")
}

fn default_remove_flags() -> (r: String)
    ensures
        r@ == "Rs"@,
{
    str_to_string("Rs")
}

fn default_repo_local() -> (r: String)
    ensures
        r@ == "green bold"@,
{
    str_to_string("green bold")
}

fn default_tab_selected() -> (r: String)
    ensures
        r@ == "black on cyan bold"@,
{
    str_to_string("black on cyan bold")
}

fn default_tab_normal() -> (r: String)
    ensures
        r@ == "dark_gray"@,
{
    str_to_string("dark_gray")
}

// ---- top-level -------------------------------------------------------------

/// The whole configuration file.
pub struct Config {
    pub search: SearchConfig,
    pub tui: TuiConfig,
    pub theme: ThemeConfig,
    pub behavior: BehaviorConfig,
}

/// `[search]`
pub struct SearchConfig {
    pub limit: usize,
    pub source: String,
    pub by: String,
    pub regex: bool,
    pub installed_only: bool,
    pub timeout_secs: u64,
    pub bottom_up: bool,
}

/// `[tui]`
pub struct TuiConfig {
    pub enabled: bool,
    pub floor_width: u16,
    pub floor_height: u16,
    pub layout_search: u16,
    pub layout_results_min: u16,
    pub border: String,
    pub highlight_symbol: Option<String>,
    pub show_tabs: bool,
    /// Width and height of a popup, in percent of the screen.
    pub popup_info: Option<(u16, u16)>,
    pub popup_confirm: Option<(u16, u16)>,
    pub popup_message: Option<(u16, u16)>,
    pub tick_chars: Option<String>,
    pub spinner_template: Option<String>,
    pub debounce_ms: u64,
    pub poll_ms: u64,
}

/// `[theme]`: style strings such as "black on cyan bold".
pub struct ThemeConfig {
    pub no_color: bool,
    pub border_focused: String,
    pub border_unfocused: String,
    pub border_error: String,
    pub text: String,
    pub text_dim: String,
    pub repo_core: String,
    pub repo_extra: String,
    pub repo_multilib: String,
    pub repo_aur: String,
    pub repo_other: String,
    pub repo_local: String,
    pub installed: String,
    pub out_of_date: String,
    pub votes: String,
    pub version: String,
    pub highlight_bg: String,
    pub highlight_fg: String,
    pub status_loading: String,
    pub status_idle: String,
    pub help: String,
    pub popup_title: String,
    pub popup_bg: String,
    pub tab_selected: String,
    pub tab_normal: String,
}

/// `[behavior]`
pub struct BehaviorConfig {
    pub bottom_up: bool,
    pub verbose: u8,
    pub aur_rpc: Option<String>,
    pub cache_dir: Option<String>,
    pub makepkg_noconfirm: bool,
    pub remove_flags: String,
    pub remove_noconfirm: bool,
}

pub open spec fn is_default_search(s: SearchConfig) -> bool {
    &&& s.limit == 50
    &&& s.source@ == "all"@
    &&& s.by@ == "name-desc"@
    &&& !s.regex
    &&& !s.installed_only
    &&& s.timeout_secs == 15
    &&& !s.bottom_up
}

pub open spec fn is_default_tui(t: TuiConfig) -> bool {
    &&& t.enabled
    &&& t.floor_width == 60
    &&& t.floor_height == 14
    &&& t.layout_search == 3
    &&& t.layout_results_min == 8
    &&& t.border@ == "rounded"@
    &&& t.highlight_symbol is None
    &&& t.show_tabs
    &&& t.popup_info == Some((70u16, 60u16))
    &&& t.popup_confirm == Some((60u16, 30u16))
    &&& t.popup_message == Some((60u16, 20u16))
    &&& t.tick_chars is None
    &&& t.spinner_template is None
    &&& t.debounce_ms == 400
    &&& t.poll_ms == 200
}

pub open spec fn is_default_theme(t: ThemeConfig) -> bool {
    &&& !t.no_color
    &&& t.border_focused@ == "cyan"@
    &&& t.border_unfocused@ == "dark_gray"@
    &&& t.border_error@ == "red bold"@
    &&& t.text@ == "white"@
    &&& t.text_dim@ == "dark_gray"@
    &&& t.repo_core@ == "red bold"@
    &&& t.repo_extra@ == "green bold"@
    &&& t.repo_multilib@ == "blue bold"@
    &&& t.repo_aur@ == "magenta bold"@
    &&& t.repo_other@ == "cyan bold"@
    &&& t.repo_local@ == "green bold"@
    &&& t.installed@ == "green bold"@
    &&& t.out_of_date@ == "red bold"@
    &&& t.votes@ == "yellow"@
    &&& t.version@ == "white"@
    &&& t.highlight_bg@ == "dark_gray"@
    &&& t.highlight_fg@ == "white bold"@
    &&& t.status_loading@ == "cyan"@
    &&& t.status_idle@ == "gray"@
    &&& t.help@ == "dark_gray"@
    &&& t.popup_title@ == "yellow"@
    &&& t.popup_bg@ == "black"@
    &&& t.tab_selected@ == "black on cyan bold"@
    &&& t.tab_normal@ == "dark_gray"@
}

pub open spec fn is_default_behavior(b: BehaviorConfig) -> bool {
    &&& !b.bottom_up
    &&& b.verbose == 0
    &&& b.aur_rpc is None
    &&& b.cache_dir is None
    &&& !b.makepkg_noconfirm
    &&& b.remove_flags@ == "Rs"@
    &&& !b.remove_noconfirm
}

pub open spec fn is_default_config(c: Config) -> bool {
    &&& is_default_search(c.search)
    &&& is_default_tui(c.tui)
    &&& is_default_theme(c.theme)
    &&& is_default_behavior(c.behavior)
}

impl Default for SearchConfig {
    fn default() -> (r: Self)
        ensures
            is_default_search(r),
    {
        SearchConfig {
            limit: default_limit(),
            source: default_source(),
            by: default_by(),
            regex: false,
            installed_only: false,
            timeout_secs: default_timeout(),
            bottom_up: false,
        }
    }
}

impl Default for TuiConfig {
    fn default() -> (r: Self)
        ensures
            is_default_tui(r),
    {
        TuiConfig {
            enabled: default_true(),
            floor_width: 60,
            floor_height: 14,
            layout_search: 3,
            layout_results_min: 8,
            border: default_border(),
            highlight_symbol: None,
            show_tabs: default_true(),
            popup_info: Some((70, 60)),
            popup_confirm: Some((60, 30)),
            popup_message: Some((60, 20)),
            tick_chars: None,
            spinner_template: None,
            debounce_ms: 400,
            poll_ms: 200,
        }
    }
}

impl Default for ThemeConfig {
    fn default() -> (r: Self)
        ensures
            is_default_theme(r),
    {
        ThemeConfig {
            no_color: false,
            border_focused: str_to_string("cyan"),
            border_unfocused: str_to_string("dark_gray"),
            border_error: str_to_string("red bold"),
            text: str_to_string("white"),
            text_dim: str_to_string("dark_gray"),
            repo_core: str_to_string("red bold"),
            repo_extra: str_to_string("green bold"),
            repo_multilib: str_to_string("blue bold"),
            repo_aur: str_to_string("magenta bold"),
            repo_other: str_to_string("cyan bold"),
            repo_local: default_repo_local(),
            installed: str_to_string("green bold"),
            out_of_date: str_to_string("red bold"),
            votes: str_to_string("yellow"),
            version: str_to_string("white"),
            highlight_bg: str_to_string("dark_gray"),
            highlight_fg: str_to_string("white bold"),
            status_loading: str_to_string("cyan"),
            status_idle: str_to_string("gray"),
            help: str_to_string("dark_gray"),
            popup_title: str_to_string("yellow"),
            popup_bg: str_to_string("black"),
            tab_selected: default_tab_selected(),
            tab_normal: default_tab_normal(),
        }
    }
}

impl Default for BehaviorConfig {
    fn default() -> (r: Self)
        ensures
            is_default_behavior(r),
    {
        BehaviorConfig {
            bottom_up: false,
            verbose: 0,
            aur_rpc: None,
            cache_dir: None,
            makepkg_noconfirm: false,
            remove_flags: default_remove_flags(),
            remove_noconfirm: false,
        }
    }
}

impl Default for Config {
    fn default() -> (r: Self)
        ensures
            is_default_config(r),
    {
        Config {
            search: SearchConfig::default(),
            tui: TuiConfig::default(),
            theme: ThemeConfig::default(),
            behavior: BehaviorConfig::default(),
        }
    }
}

fn copy_opt(s: &Option<String>) -> (r: Option<String>)
    ensures
        r == *s,
{
    match s {
        Some(v) => Some(v.clone()),
        None => None,
    }
}

impl SearchConfig {
    pub fn duplicate(&self) -> (r: Self)
        ensures
            r == *self,
    {
        SearchConfig {
            limit: self.limit,
            source: self.source.clone(),
            by: self.by.clone(),
            regex: self.regex,
            installed_only: self.installed_only,
            timeout_secs: self.timeout_secs,
            bottom_up: self.bottom_up,
        }
    }
}

impl TuiConfig {
    pub fn duplicate(&self) -> (r: Self)
        ensures
            r == *self,
    {
        TuiConfig {
            enabled: self.enabled,
            floor_width: self.floor_width,
            floor_height: self.floor_height,
            layout_search: self.layout_search,
            layout_results_min: self.layout_results_min,
            border: self.border.clone(),
            highlight_symbol: copy_opt(&self.highlight_symbol),
            show_tabs: self.show_tabs,
            popup_info: self.popup_info,
            popup_confirm: self.popup_confirm,
            popup_message: self.popup_message,
            tick_chars: copy_opt(&self.tick_chars),
            spinner_template: copy_opt(&self.spinner_template),
            debounce_ms: self.debounce_ms,
            poll_ms: self.poll_ms,
        }
    }
}

impl ThemeConfig {
    pub fn duplicate(&self) -> (r: Self)
        ensures
            r == *self,
    {
        ThemeConfig {
            no_color: self.no_color,
            border_focused: self.border_focused.clone(),
            border_unfocused: self.border_unfocused.clone(),
            border_error: self.border_error.clone(),
            text: self.text.clone(),
            text_dim: self.text_dim.clone(),
            repo_core: self.repo_core.clone(),
            repo_extra: self.repo_extra.clone(),
            repo_multilib: self.repo_multilib.clone(),
            repo_aur: self.repo_aur.clone(),
            repo_other: self.repo_other.clone(),
            repo_local: self.repo_local.clone(),
            installed: self.installed.clone(),
            out_of_date: self.out_of_date.clone(),
            votes: self.votes.clone(),
            version: self.version.clone(),
            highlight_bg: self.highlight_bg.clone(),
            highlight_fg: self.highlight_fg.clone(),
            status_loading: self.status_loading.clone(),
            status_idle: self.status_idle.clone(),
            help: self.help.clone(),
            popup_title: self.popup_title.clone(),
            popup_bg: self.popup_bg.clone(),
            tab_selected: self.tab_selected.clone(),
            tab_normal: self.tab_normal.clone(),
        }
    }
}

impl BehaviorConfig {
    pub fn duplicate(&self) -> (r: Self)
        ensures
            r == *self,
    {
        BehaviorConfig {
            bottom_up: self.bottom_up,
            verbose: self.verbose,
            aur_rpc: copy_opt(&self.aur_rpc),
            cache_dir: copy_opt(&self.cache_dir),
            makepkg_noconfirm: self.makepkg_noconfirm,
            remove_flags: self.remove_flags.clone(),
            remove_noconfirm: self.remove_noconfirm,
        }
    }
}


// ---- interpretation --------------------------------------------------------

/// What a lower-cased, trimmed source name selects.
pub open spec fn source_named(t: Seq<char>) -> Source {
    if t == "aur"@ {
        Source::Aur
    } else if t == "repo"@ {
        Source::Repo
    } else {
        Source::All
    }
}

/// `parse_source`: unknown names mean all sources.
pub open spec fn source_of(s: Seq<char>) -> Source {
    source_named(lowercase(trim(s)))
}

/// What a lower-cased, trimmed AUR field name selects.
pub open spec fn aur_by_named(t: Seq<char>) -> AurBy {
    if t == "name"@ {
        AurBy::Name
    } else if t == "maintainer"@ {
        AurBy::Maintainer
    } else if t == "depends"@ {
        AurBy::Depends
    } else if t == "makedepends"@ {
        AurBy::Makedepends
    } else if t == "optdepends"@ {
        AurBy::Optdepends
    } else if t == "checkdepends"@ {
        AurBy::Checkdepends
    } else {
        AurBy::NameDesc
    }
}

/// `parse_aur_by`: unknown names mean name-desc.
pub open spec fn aur_by_of(s: Seq<char>) -> AurBy {
    aur_by_named(lowercase(trim(s)))
}

/// The trimmed, lower-cased form of `s`, as characters.
pub fn normalized_word(s: &str) -> (r: Vec<char>)
    ensures
        r@ == lowercase(trim(s@)),
        all_ascii(trim(s@)) ==> r@ == trim(s@).map_values(|c: char| ascii_lower(c)),
{
    let t = trim_str(s);
    let ts = string_from_chars(t);
    let l = to_lowercase(ts.as_str());
    crate::text::chars_of(l.as_str())
}

/// Source selected by a configuration string.
pub fn source_from_name(t: &Vec<char>) -> (r: Source)
    ensures
        r == source_named(t@),
{
    if chars_eq_str(t, "aur") {
        Source::Aur
    } else if chars_eq_str(t, "repo") {
        Source::Repo
    } else {
        Source::All
    }
}

/// AUR field selected by a configuration string.
pub fn aur_by_from_name(t: &Vec<char>) -> (r: AurBy)
    ensures
        r == aur_by_named(t@),
{
    if chars_eq_str(t, "name") {
        AurBy::Name
    } else if chars_eq_str(t, "maintainer") {
        AurBy::Maintainer
    } else if chars_eq_str(t, "depends") {
        AurBy::Depends
    } else if chars_eq_str(t, "makedepends") {
        AurBy::Makedepends
    } else if chars_eq_str(t, "optdepends") {
        AurBy::Optdepends
    } else if chars_eq_str(t, "checkdepends") {
        AurBy::Checkdepends
    } else {
        AurBy::NameDesc
    }
}

/// "aur" | "repo" | anything else (all), ignoring case and surrounding space.
pub fn parse_source(s: &str) -> (r: Source)
    ensures
        r == source_of(s@),
        all_ascii(trim(s@)) ==> r == source_named(
            trim(s@).map_values(|c: char| ascii_lower(c)),
        ),
{
    let t = normalized_word(s);
    source_from_name(&t)
}

/// An AUR search field name, ignoring case and surrounding space; unknown
/// names mean name-desc.
pub fn parse_aur_by(s: &str) -> (r: AurBy)
    ensures
        r == aur_by_of(s@),
        all_ascii(trim(s@)) ==> r == aur_by_named(
            trim(s@).map_values(|c: char| ascii_lower(c)),
        ),
{
    let t = normalized_word(s);
    aur_by_from_name(&t)
}

/// A name with no surrounding space that lower-casing leaves alone.
proof fn lemma_plain_name(s: Seq<char>)
    requires
        s.len() > 0,
        forall|i: int| 0 <= i < s.len() ==> ('a' <= #[trigger] s[i] && s[i] <= 'z') || s[i] == '-',
    ensures
        trim(s) == s,
        all_ascii(s),
        s.map_values(|c: char| ascii_lower(c)) == s,
{
    assert(!is_ws(s[0]));
    assert(trim_start(s) == s);
    assert(!is_ws(s.last()));
    assert(trim_end(s) == s);
    assert(s.map_values(|c: char| ascii_lower(c)) =~= s);
}

/// Reading back the RPC name of a search field gives that field: the
/// names that `AurBy::as_str` gives are the ones `parse_aur_by` accepts.
pub proof fn law_aur_by_round_trip(b: AurBy)
    ensures
        all_ascii(trim(aur_by_name(b))),
        aur_by_named(trim(aur_by_name(b)).map_values(|c: char| ascii_lower(c))) == b,
{
    reveal_strlit("name");
    reveal_strlit("name-desc");
    reveal_strlit("maintainer");
    reveal_strlit("depends");
    reveal_strlit("makedepends");
    reveal_strlit("optdepends");
    reveal_strlit("checkdepends");
    lemma_plain_name(aur_by_name(b));
}

/// Remove flags that the configuration may select.
pub open spec fn allowed_remove_flag(f: Seq<char>) -> bool {
    ||| f == "R"@
    ||| f == "Rs"@
    ||| f == "Rns"@
    ||| f == "Ru"@
    ||| f == "Rsu"@
    ||| f == "Rn"@
    ||| f == "Rc"@
    ||| f == "Rdd"@
}

/// The pacman flag argument for a configured `remove_flags` value.
pub open spec fn remove_flag_of(flags: Seq<char>) -> Seq<char> {
    let f = strip_leading(trim(flags), '-');
    if allowed_remove_flag(f) {
        seq!['-'] + f
    } else {
        "-Rs"@
    }
}

/// The default AUR RPC endpoint.
pub open spec fn default_aur_rpc() -> Seq<char> {
    "https://aur.archlinux.org/rpc/v5"@
}

/// The example configuration file text.
pub open spec fn example_text() -> Seq<char> {
    EXAMPLE_TOML@
}

pub const EXAMPLE_TOML: &'static str = "# pacseek config — edit and save, changes apply on next launch
# See: https://github.com/kenjaku-dev/pacseek  — all fields optional

[search]
limit = 50                 # 0 = no limit
source = \"all\"             # aur|repo|all
by = \"name-desc\"           # name|name-desc|maintainer|depends|makedepends|optdepends|checkdepends
regex = false
installed_only = false
timeout_secs = 15
bottom_up = false

[tui]
floor_width = 60
floor_height = 14          # 13 + 1 tabs bar (Search/Installed)
layout_search = 3
layout_results_min = 8
border = \"rounded\"         # rounded|plain|double|thick
show_tabs = true           # Tab bar on top: Search / Installed
highlight_symbol = \"▸ \"   # set \"\" to disable
popup_info = [70, 60]
popup_confirm = [60, 30]
popup_message = [60, 20]
# tick_chars = \"⠋⠙⠹⠸⠼⠴⠦⠧⠇⠏ \"
# spinner_template = \"{spinner:.cyan} {msg}\"
debounce_ms = 400
poll_ms = 200

[theme]
no_color = false
border_focused = \"cyan\"
border_unfocused = \"dark_gray\"
border_error = \"red bold\"
text = \"white\"
text_dim = \"dark_gray\"
repo_core = \"red bold\"
repo_extra = \"green bold\"
repo_multilib = \"blue bold\"
repo_aur = \"magenta bold\"
repo_other = \"cyan bold\"
repo_local = \"green bold\"
installed = \"green bold\"
out_of_date = \"red bold\"
votes = \"yellow\"
version = \"white\"
highlight_bg = \"dark_gray\"
highlight_fg = \"white bold\"
status_loading = \"cyan\"
status_idle = \"gray\"
help = \"dark_gray\"
popup_title = \"yellow\"
popup_bg = \"black\"
tab_selected = \"black on cyan bold\"
tab_normal = \"dark_gray\"

[behavior]
bottom_up = false
verbose = 0
# aur_rpc = \"https://aur.archlinux.org/rpc/v5\"
# cache_dir = \"/tmp/pacseek\"
makepkg_noconfirm = false
remove_flags = \"Rs\"        # R|Rs|Rns|Ru — sudo pacman -<flags>
remove_noconfirm = false   # add --noconfirm to remove
";

impl Config {
    pub open spec fn spec_effective_source(self) -> Source {
        source_of(self.search.source@)
    }

    pub open spec fn spec_effective_aur_by(self) -> AurBy {
        aur_by_of(self.search.by@)
    }

    pub fn duplicate(&self) -> (r: Self)
        ensures
            r == *self,
    {
        Config {
            search: self.search.duplicate(),
            tui: self.tui.duplicate(),
            theme: self.theme.duplicate(),
            behavior: self.behavior.duplicate(),
        }
    }

    /// The configuration in effect: that of the project file
    /// (`./pacseek.toml` or `./pacseek/config.toml`) if one was loaded, else
    /// that of the user's file (`$XDG_CONFIG_HOME/pacseek/config.toml`) if it
    /// was loaded, else the defaults. `project` and `user` are what loading
    /// each file gave; finding, reading and parsing them is the caller's part.
    pub fn load(project: Option<Config>, user: Option<Config>) -> (r: Config)
        ensures
            (match project {
                Some(c) => r == c,
                None => match user {
                    Some(c) => r == c,
                    None => is_default_config(r),
                },
            }),
    {
        match project {
            Some(c) => c,
            None => match user {
                Some(c) => c,
                None => Config::default(),
            },
        }
    }

    /// After loading a file: an empty (or blank) `source` or `by` keeps its
    /// default value; nothing else changes.
    pub fn normalize_loaded(&mut self)
        ensures
            final(self).search.source@ == (if trim(old(self).search.source@).len() == 0 {
                "all"@
            } else {
                old(self).search.source@
            }),
            final(self).search.by@ == (if trim(old(self).search.by@).len() == 0 {
                "name-desc"@
            } else {
                old(self).search.by@
            }),
            final(self).search.limit == old(self).search.limit,
            final(self).search.regex == old(self).search.regex,
            final(self).search.installed_only == old(self).search.installed_only,
            final(self).search.timeout_secs == old(self).search.timeout_secs,
            final(self).search.bottom_up == old(self).search.bottom_up,
            final(self).tui == old(self).tui,
            final(self).theme == old(self).theme,
            final(self).behavior == old(self).behavior,
    {
        let s = trim_str(self.search.source.as_str());
        if s.len() == 0 {
            self.search.source = default_source();
        }
        let b = trim_str(self.search.by.as_str());
        if b.len() == 0 {
            self.search.by = default_by();
        }
    }

    /// The example configuration file, with every field and its default.
    pub fn example_toml() -> (r: String)
        ensures
            r@ == example_text(),
    {
        str_to_string(EXAMPLE_TOML)
    }

    /// Source named by `[search] source`.
    pub fn effective_source(&self) -> (r: Source)
        ensures
            r == self.spec_effective_source(),
    {
        parse_source(self.search.source.as_str())
    }

    /// AUR field named by `[search] by`.
    pub fn effective_aur_by(&self) -> (r: AurBy)
        ensures
            r == self.spec_effective_aur_by(),
    {
        parse_aur_by(self.search.by.as_str())
    }

    /// Seconds before a network request gives up: the configured timeout,
    /// at least 1.
    pub fn request_timeout_secs(&self) -> (r: u64)
        ensures
            r == (if self.search.timeout_secs < 1 {
                1
            } else {
                self.search.timeout_secs
            }),
    {
        if self.search.timeout_secs < 1 {
            1
        } else {
            self.search.timeout_secs
        }
    }

    /// The frames of the one-shot search spinner: configured, or braille dots.
    pub fn spinner_ticks(&self) -> (r: String)
        ensures
            r@ == (match self.tui.tick_chars {
                Some(t) => t@,
                None => "⠋⠙⠹⠸⠼⠴⠦⠧⠇⠏ "@,
            }),
    {
        match &self.tui.tick_chars {
            Some(t) => t.clone(),
            None => str_to_string("⠋⠙⠹⠸⠼⠴⠦⠧⠇⠏ "),
        }
    }

    /// The spinner's template: configured, or "{spinner:.cyan} {msg}".
    pub fn spinner_template_text(&self) -> (r: String)
        ensures
            r@ == (match self.tui.spinner_template {
                Some(t) => t@,
                None => "{spinner:.cyan} {msg}"@,
            }),
    {
        match &self.tui.spinner_template {
            Some(t) => t.clone(),
            None => str_to_string("{spinner:.cyan} {msg}"),
        }
    }

    /// `[behavior] aur_rpc`, or the public AUR RPC endpoint.
    pub fn aur_rpc_url(&self) -> (r: String)
        ensures
            r@ == (match self.behavior.aur_rpc {
                Some(u) => u@,
                None => default_aur_rpc(),
            }),
    {
        match &self.behavior.aur_rpc {
            Some(u) => u.clone(),
            None => str_to_string("https://aur.archlinux.org/rpc/v5"),
        }
    }

    /// `[behavior] cache_dir`, as a path string.
    pub fn cache_dir_path(&self) -> (r: Option<String>)
        ensures
            r == self.behavior.cache_dir,
    {
        copy_opt(&self.behavior.cache_dir)
    }

    /// The validated pacman remove flag, e.g. "Rs" -> "-Rs". Only R, Rs, Rns,
    /// Ru, Rsu, Rn, Rc and Rdd are accepted (after trimming and dropping
    /// leading dashes); anything else gives "-Rs", so a configuration file
    /// cannot inject other arguments.
    pub fn remove_flag_arg(&self) -> (r: String)
        ensures
            r@ == remove_flag_of(self.behavior.remove_flags@),
            allowed_remove_flag(r@.drop_first()),
            r@.len() > 0 && r@[0] == '-',
    {
        let t = trim_str(self.behavior.remove_flags.as_str());
        let f = strip_leading_chars(&t, '-');
        let ok = chars_eq_str(&f, "R") || chars_eq_str(&f, "Rs") || chars_eq_str(&f, "Rns")
            || chars_eq_str(&f, "Ru") || chars_eq_str(&f, "Rsu") || chars_eq_str(&f, "Rn")
            || chars_eq_str(&f, "Rc") || chars_eq_str(&f, "Rdd");
        if ok {
            let mut out: Vec<char> = Vec::new();
            out.push('-');
            push_chars(&mut out, &f);
            assert(out@.drop_first() == f@);
            string_from_chars(out)
        } else {
            proof {
                reveal_strlit("-Rs");
                reveal_strlit("Rs");
                assert("-Rs"@.drop_first() == "Rs"@);
            }
            str_to_string("-Rs")
        }
    }

    /// Whether removal passes `--noconfirm`: set in the configuration, or by
    /// the `PACSEEK_NOCONFIRM` environment variable (`env_set`, read by the caller).
    pub fn remove_noconfirm(&self, env_set: bool) -> (r: bool)
        ensures
            r == (self.behavior.remove_noconfirm || env_set),
    {
        self.behavior.remove_noconfirm || env_set
    }

    /// Whether refreshing the sync databases passes `--noconfirm`: the same
    /// `[behavior] remove_noconfirm` switch that governs removal. The
    /// `PACSEEK_NOCONFIRM` environment variable is deliberately not read
    /// here: it answers removal prompts only, so a refresh asks pacman's
    /// questions unless the configuration file itself turns them off.
    pub fn refresh_noconfirm(&self) -> (r: bool)
        ensures
            r == self.behavior.remove_noconfirm,
    {
        self.behavior.remove_noconfirm
    }
}

} // verus!
