//! One package record, shared by the repository and AUR searches.
use vstd::prelude::*;

verus! {

/// A package from a sync repository, the local database or the AUR.
///
/// `popularity` holds the IEEE-754 bit pattern of the AUR popularity score
/// (`f64::to_bits`), so that the library orders by it with integers only.
#[derive(Debug, Clone, PartialEq)]
pub struct Package {
    pub name: String,
    pub version: String,
    pub description: Option<String>,
    /// e.g. "extra", "aur", "local"
    pub repo: String,
    pub arch: Option<String>,
    pub url: Option<String>,
    pub installed: bool,
    /// AUR votes (NumVotes) — used for sorting and display.
    pub votes: Option<i32>,
    pub popularity: Option<u64>,
    pub out_of_date: Option<i64>,
    pub maintainer: Option<String>,
    /// Same value as `votes`, kept for older JSON consumers.
    pub num_votes: Option<i32>,
    pub last_modified: Option<i64>,
}

/// A copy of an optional string.
pub fn copy_opt_string(s: &Option<String>) -> (r: Option<String>)
    ensures
        r == *s,
{
    match s {
        Some(v) => Some(v.clone()),
        None => None,
    }
}

/// The description shown for a package: its own, or "-".
pub open spec fn short_desc_of(p: Package) -> Seq<char> {
    match p.description {
        Some(d) => d@,
        None => "-"@,
    }
}

impl Package {
    /// The description, or "-" when there is none.
    pub fn short_desc(&self) -> (r: &str)
        ensures
            r@ == short_desc_of(*self),
    {
        match &self.description {
            Some(d) => d.as_str(),
            None => "-",
        }
    }

    /// A field-by-field copy.
    pub fn duplicate(&self) -> (r: Package)
        ensures
            r == *self,
    {
        Package {
            name: self.name.clone(),
            version: self.version.clone(),
            description: copy_opt_string(&self.description),
            repo: self.repo.clone(),
            arch: copy_opt_string(&self.arch),
            url: copy_opt_string(&self.url),
            installed: self.installed,
            votes: self.votes,
            popularity: self.popularity,
            out_of_date: self.out_of_date,
            maintainer: copy_opt_string(&self.maintainer),
            num_votes: self.num_votes,
            last_modified: self.last_modified,
        }
    }
}

/// A copy of a list of packages.
pub fn copy_packages(v: &Vec<Package>) -> (r: Vec<Package>)
    ensures
        r@ == v@,
{
    let mut r: Vec<Package> = Vec::new();
    let mut k: usize = 0;
    while k < v.len()
        invariant
            k <= v.len(),
            r@ == v@.take(k as int),
        decreases v.len() - k,
    {
        r.push(v[k].duplicate());
        k = k + 1;
        assert(v@.take(k as int) == v@.take((k - 1) as int).push(v@[k - 1]));
    }
    assert(v@.take(v.len() as int) == v@);
    r
}

} // verus!
