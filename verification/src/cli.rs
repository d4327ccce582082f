//! Command-line options and the decisions that the entry point takes from them.
use vstd::prelude::*;

use crate::config::Config;

verus! {

/// Where to search.
#[derive(Copy, Clone, Debug, PartialEq, Eq, Structural)]
pub enum Source {
    Aur,
    Repo,
    All,
}

/// AUR RPC search field.
#[derive(Copy, Clone, Debug, PartialEq, Eq, Structural)]
pub enum AurBy {
    Name,
    NameDesc,
    Maintainer,
    Depends,
    Makedepends,
    Optdepends,
    Checkdepends,
}

/// The RPC name of a search field.
pub open spec fn aur_by_name(b: AurBy) -> Seq<char> {
    match b {
        AurBy::Name => "name"@,
        AurBy::NameDesc => "name-desc"@,
        AurBy::Maintainer => "maintainer"@,
        AurBy::Depends => "depends"@,
        AurBy::Makedepends => "makedepends"@,
        AurBy::Optdepends => "optdepends"@,
        AurBy::Checkdepends => "checkdepends"@,
    }
}

impl AurBy {
    /// The value passed as `by=` to the AUR RPC.
    pub fn as_str(&self) -> (r: &'static str)
        ensures
            r@ == aur_by_name(*self),
    {
        match self {
            AurBy::Name => "name",
            AurBy::NameDesc => "name-desc",
            AurBy::Maintainer => "maintainer",
            AurBy::Depends => "depends",
            AurBy::Makedepends => "makedepends",
            AurBy::Optdepends => "optdepends",
            AurBy::Checkdepends => "checkdepends",
        }
    }
}

/// The repositories are searched unless only the AUR is asked for.
pub fn repo_searched(source: Source) -> (r: bool)
    ensures
        r == (source != Source::Aur),
{
    source != Source::Aur
}

/// The AUR is searched unless only the repositories are asked for, or only
/// installed packages (known for repository packages only).
pub fn aur_searched(source: Source, installed_only: bool) -> (r: bool)
    ensures
        r == (source != Source::Repo && !installed_only),
{
    source != Source::Repo && !installed_only
}

/// Parsed command-line options (see the binary's `--help`).
pub struct Cli {
    /// Search query; empty or absent with a terminal opens the TUI.
    pub query: Option<String>,
    pub tui: bool,
    pub no_tui: bool,
    pub source: Source,
    pub by: AurBy,
    /// Results per source, 0 = no limit.
    pub limit: usize,
    pub json: bool,
    pub regex: bool,
    pub installed_only: bool,
    pub bottom_up: bool,
    pub verbose: u8,
    pub no_color: bool,
    /// `--config PATH`
    pub config: Option<String>,
    pub init_config: bool,
    pub show_config: bool,
    /// `--remove PKG`
    pub remove: Option<String>,
    pub refresh: bool,
}

impl Cli {
    /// Lets the configuration file supply every option that the command line
    /// left at its default value.
    pub fn merge_config(&mut self, cfg: &Config)
        ensures
            final(self).limit == (if old(self).limit == 50 && cfg.search.limit != 50 {
                cfg.search.limit
            } else {
                old(self).limit
            }),
            final(self).source == (if old(self).source == Source::All
                && cfg.spec_effective_source() != Source::All {
                cfg.spec_effective_source()
            } else {
                old(self).source
            }),
            final(self).by == (if old(self).by == AurBy::NameDesc && cfg.spec_effective_aur_by()
                != AurBy::NameDesc {
                cfg.spec_effective_aur_by()
            } else {
                old(self).by
            }),
            final(self).regex == (old(self).regex || cfg.search.regex),
            final(self).installed_only == (old(self).installed_only || cfg.search.installed_only),
            final(self).bottom_up == (old(self).bottom_up || cfg.search.bottom_up
                || cfg.behavior.bottom_up),
            final(self).no_color == (old(self).no_color || cfg.theme.no_color),
            final(self).query == old(self).query,
            final(self).tui == old(self).tui,
            final(self).no_tui == old(self).no_tui,
            final(self).json == old(self).json,
            final(self).verbose == old(self).verbose,
            final(self).config == old(self).config,
            final(self).remove == old(self).remove,
    {
        let limit = if self.limit == 50 && cfg.search.limit != 50 {
            cfg.search.limit
        } else {
            self.limit
        };
        let src = cfg.effective_source();
        let source = if self.source == Source::All && src != Source::All {
            src
        } else {
            self.source
        };
        let by_cfg = cfg.effective_aur_by();
        let by = if self.by == AurBy::NameDesc && by_cfg != AurBy::NameDesc {
            by_cfg
        } else {
            self.by
        };
        let regex = self.regex || cfg.search.regex;
        let installed_only = self.installed_only || cfg.search.installed_only;
        let bottom_up = self.bottom_up || cfg.search.bottom_up || cfg.behavior.bottom_up;
        let no_color = self.no_color || cfg.theme.no_color;
        self.limit = limit;
        self.source = source;
        self.by = by;
        self.regex = regex;
        self.installed_only = installed_only;
        self.bottom_up = bottom_up;
        self.no_color = no_color;
    }

    /// Whether to open the full-screen interface: never with `--no-tui` or
    /// `--json`, always with `--tui`, otherwise only without a query on a
    /// terminal.
    pub fn should_tui(&self, is_tty: bool) -> (r: bool)
        ensures
            r == (!self.no_tui && !self.json && (self.tui || (self.query is None && is_tty))),
    {
        if self.no_tui || self.json {
            false
        } else if self.tui {
            true
        } else if self.query.is_none() {
            is_tty
        } else {
            false
        }
    }

    /// Whether the AUR is searched at all: not for `--source repo`, and not
    /// with `--installed-only` (installed state is known for repo packages only).
    pub fn aur_enabled(&self) -> (r: bool)
        ensures
            r == (self.source != Source::Repo && !self.installed_only),
    {
        aur_searched(self.source, self.installed_only)
    }

    /// Whether to print the note that `--installed-only` hides AUR results.
    pub fn installed_only_note(&self) -> (r: bool)
        ensures
            r == (self.installed_only && self.source != Source::Repo && !self.json),
    {
        self.installed_only && (self.source == Source::Aur || self.source == Source::All)
            && self.source != Source::Repo && !self.json
    }

    /// Whether the repositories are searched at all.
    pub fn repo_enabled(&self) -> (r: bool)
        ensures
            r == (self.source != Source::Aur),
    {
        repo_searched(self.source)
    }

    /// The query of a one-shot search: the one given, unless it is missing
    /// or blank (then the usage is printed and the program exits with 2).
    pub fn one_shot_query(&self) -> (r: Option<String>)
        ensures
            (match self.query {
                Some(q) => if crate::text::trim(q@).len() != 0 {
                    r matches Some(x) && x@ == q@
                } else {
                    r is None
                },
                None => r is None,
            }),
    {
        match &self.query {
            Some(q) => {
                let t = crate::text::trim_str(q.as_str());
                if t.len() != 0 {
                    Some(q.clone())
                } else {
                    None
                }
            },
            None => None,
        }
    }

    /// The log filter for `-v` given `verbose` times: warn, info, debug, trace.
    pub fn log_filter(&self) -> (r: &'static str)
        ensures
            r@ == (if self.verbose == 0 {
                "warn"@
            } else if self.verbose == 1 {
                "info"@
            } else if self.verbose == 2 {
                "debug"@
            } else {
                "trace"@
            }),
    {
        if self.verbose == 0 {
            "warn"
        } else if self.verbose == 1 {
            "info"
        } else if self.verbose == 2 {
            "debug"
        } else {
            "trace"
        }
    }

    /// Whether the search spinner runs: not for JSON output and not when
    /// logging verbosely.
    pub fn shows_spinner(&self) -> (r: bool)
        ensures
            r == (!self.json && self.verbose == 0),
    {
        !self.json && self.verbose == 0
    }
}

} // verus!
