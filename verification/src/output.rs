//! What the one-shot search prints: which result lists, in which order,
//! with which colours, and the totals.
use vstd::prelude::*;

use crate::cli::Source;
use crate::model::{copy_packages, Package};
use crate::text::str_eq;

verus! {

/// A block of printed results.
#[derive(Copy, Clone, Debug, PartialEq, Eq, Structural)]
pub enum Section {
    Repo,
    Aur,
}

pub open spec fn shows_repo(s: Source) -> bool {
    s == Source::Repo || s == Source::All
}

pub open spec fn shows_aur(s: Source) -> bool {
    s == Source::Aur || s == Source::All
}

/// The printed blocks in order: repositories first (as pacman does), AUR
/// first with `--bottom-up`; each only if the source includes it.
pub open spec fn section_order(source: Source, bottom_up: bool) -> Seq<Section> {
    let repo = if shows_repo(source) {
        seq![Section::Repo]
    } else {
        Seq::empty()
    };
    let aur = if shows_aur(source) {
        seq![Section::Aur]
    } else {
        Seq::empty()
    };
    if bottom_up {
        aur + repo
    } else {
        repo + aur
    }
}

pub fn sections(source: Source, bottom_up: bool) -> (r: Vec<Section>)
    ensures
        r@ == section_order(source, bottom_up),
{
    let repo = source == Source::Repo || source == Source::All;
    let aur = source == Source::Aur || source == Source::All;
    let mut v: Vec<Section> = Vec::new();
    if bottom_up {
        if aur {
            v.push(Section::Aur);
        }
        if repo {
            v.push(Section::Repo);
        }
    } else {
        if repo {
            v.push(Section::Repo);
        }
        if aur {
            v.push(Section::Aur);
        }
    }
    proof {
        assert(v@ =~= section_order(source, bottom_up));
    }
    v
}

/// The packages of the JSON output: repository results then AUR results,
/// each only if the source includes it.
pub open spec fn json_packages(repo: Seq<Package>, aur: Seq<Package>, source: Source) -> Seq<
    Package,
> {
    (if shows_repo(source) {
        repo
    } else {
        Seq::empty()
    }) + (if shows_aur(source) {
        aur
    } else {
        Seq::empty()
    })
}

pub fn json_selection(repo: &Vec<Package>, aur: &Vec<Package>, source: Source) -> (r: Vec<
    Package,
>)
    ensures
        r@ == json_packages(repo@, aur@, source),
{
    let mut all: Vec<Package> = Vec::new();
    if source == Source::Repo || source == Source::All {
        all = copy_packages(repo);
    }
    if source == Source::Aur || source == Source::All {
        let mut a = copy_packages(aur);
        all.append(&mut a);
    }
    proof {
        assert(all@ =~= json_packages(repo@, aur@, source));
    }
    all
}

/// Number of printed results (0 prints "No packages found.").
pub fn printed_total(repo: &Vec<Package>, aur: &Vec<Package>, source: Source) -> (r: usize)
    requires
        repo@.len() + aur@.len() <= usize::MAX,
    ensures
        r == json_packages(repo@, aur@, source).len(),
{
    let mut t: usize = 0;
    if source == Source::Repo || source == Source::All {
        t = t + repo.len();
    }
    if source == Source::Aur || source == Source::All {
        t = t + aur.len();
    }
    t
}

/// Colour of a printed "repo/name".
#[derive(Copy, Clone, Debug, PartialEq, Eq, Structural)]
pub enum RepoColor {
    BrightMagenta,
    Red,
    Green,
    Blue,
    Cyan,
    Yellow,
}

/// AUR results bright magenta; core red, extra green, multilib blue, the
/// Artix repositories (system, world, galaxy, lib32) cyan, others yellow.
pub open spec fn repo_color_of(section: Section, repo: Seq<char>) -> RepoColor {
    if section == Section::Aur {
        RepoColor::BrightMagenta
    } else if repo == "core"@ {
        RepoColor::Red
    } else if repo == "extra"@ {
        RepoColor::Green
    } else if repo == "multilib"@ {
        RepoColor::Blue
    } else if repo == "system"@ || repo == "world"@ || repo == "galaxy"@ || repo == "lib32"@ {
        RepoColor::Cyan
    } else {
        RepoColor::Yellow
    }
}

pub fn repo_color(section: Section, repo: &str) -> (r: RepoColor)
    ensures
        r == repo_color_of(section, repo@),
{
    if section == Section::Aur {
        RepoColor::BrightMagenta
    } else if str_eq(repo, "core") {
        RepoColor::Red
    } else if str_eq(repo, "extra") {
        RepoColor::Green
    } else if str_eq(repo, "multilib") {
        RepoColor::Blue
    } else if str_eq(repo, "system") || str_eq(repo, "world") || str_eq(repo, "galaxy") || str_eq(
        repo,
        "lib32",
    ) {
        RepoColor::Cyan
    } else {
        RepoColor::Yellow
    }
}

} // verus!
