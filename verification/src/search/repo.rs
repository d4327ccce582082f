//! Searching the pacman sync databases.
//!
//! The databases themselves are read through libalpm by the caller, which
//! hands over, per database, the packages offered for the query; this module
//! decides which of them are results and in what order.
use vstd::prelude::*;

use crate::error::AppError;
use crate::model::{copy_opt_string, Package};
use crate::search::pattern::{regex_compiles, regex_matches, QueryRegex};
use crate::text::{chars_of, contains_chars, has_infix, lowercase, str_to_string, to_lowercase};

verus! {

/// A package of a sync database, as the search reads it; `installed` says
/// whether the local database has a package of that name.
pub struct RepoPkg {
    pub name: String,
    pub version: String,
    pub desc: Option<String>,
    pub arch: Option<String>,
    pub url: Option<String>,
    pub installed: bool,
}

/// A sync database: its name, and the packages it offers for the query
/// (all of them for a plain query; those of libalpm's own search of the
/// pattern with `--regex`).
pub struct RepoDb {
    pub name: String,
    pub pkgs: Vec<RepoPkg>,
}

/// The database directory and root that libalpm is opened with: those of
/// pacman.conf, or "/var/lib/pacman" and "/" where it leaves them empty.
pub fn alpm_paths(db_path: &str, root_dir: &str) -> (r: (String, String))
    ensures
        r.0@ == (if db_path@.len() == 0 {
            "/var/lib/pacman"@
        } else {
            db_path@
        }),
        r.1@ == (if root_dir@.len() == 0 {
            "/"@
        } else {
            root_dir@
        }),
{
    let d = if db_path.is_empty() {
        str_to_string("/var/lib/pacman")
    } else {
        str_to_string(db_path)
    };
    let r = if root_dir.is_empty() {
        str_to_string("/")
    } else {
        str_to_string(root_dir)
    };
    (d, r)
}

/// The package record of `p` from the database named `db`.
pub open spec fn repo_package(db: String, p: RepoPkg) -> Package {
    Package {
        name: p.name,
        version: p.version,
        description: p.desc,
        repo: db,
        arch: p.arch,
        url: p.url,
        installed: p.installed,
        votes: None,
        popularity: None,
        out_of_date: None,
        maintainer: None,
        num_votes: None,
        last_modified: None,
    }
}

/// The package records of one database, in its order.
pub open spec fn db_packages(db: RepoDb) -> Seq<Package> {
    db.pkgs@.map_values(|p: RepoPkg| repo_package(db.name, p))
}

/// The package records of all databases, database after database.
pub open spec fn candidates(dbs: Seq<RepoDb>) -> Seq<Package>
    decreases dbs.len(),
{
    if dbs.len() == 0 {
        Seq::empty()
    } else {
        candidates(dbs.drop_last()) + db_packages(dbs.last())
    }
}

/// The description, or nothing.
pub open spec fn desc_or_empty(p: Package) -> Seq<char> {
    match p.description {
        Some(d) => d@,
        None => Seq::empty(),
    }
}

/// The lower-cased description, or nothing.
pub open spec fn lower_desc(p: Package) -> Seq<char> {
    match p.description {
        Some(d) => lowercase(d@),
        None => Seq::empty(),
    }
}

/// `p` is a result for query `q`: with `--regex` the pattern matches its
/// name or description; otherwise the lower-cased query occurs in its
/// lower-cased name or description. With `installed_only` it must be
/// installed too.
pub open spec fn repo_keeps(p: Package, q: Seq<char>, use_regex: bool, installed_only: bool) -> bool {
    &&& installed_only ==> p.installed
    &&& if use_regex {
        regex_matches(q, p.name@) || regex_matches(q, desc_or_empty(p))
    } else {
        has_infix(lowercase(p.name@), lowercase(q)) || has_infix(lower_desc(p), lowercase(q))
    }
}

/// The first `limit` items (all for 0).
pub open spec fn first_n(s: Seq<Package>, limit: usize) -> Seq<Package> {
    if limit != 0 && s.len() > limit {
        s.take(limit as int)
    } else {
        s
    }
}

/// Lexicographic order of strings by code point, which is the byte order
/// of their UTF-8 encodings.
pub open spec fn chars_lt(a: Seq<char>, b: Seq<char>) -> bool
    decreases a.len(),
{
    if a.len() == 0 {
        b.len() > 0
    } else if b.len() == 0 {
        false
    } else if a[0] != b[0] {
        a[0] < b[0]
    } else {
        chars_lt(a.drop_first(), b.drop_first())
    }
}

/// `a` comes after `b` by repository, then name.
pub open spec fn repo_name_gt(a: Package, b: Package) -> bool {
    chars_lt(b.repo@, a.repo@) || (b.repo@ == a.repo@ && chars_lt(b.name@, a.name@))
}

/// `s` with `x` put before the first item that comes after it.
pub open spec fn insert_ordered(s: Seq<Package>, x: Package) -> Seq<Package>
    decreases s.len(),
{
    if s.len() == 0 {
        seq![x]
    } else if repo_name_gt(s[0], x) {
        seq![x] + s
    } else {
        seq![s[0]] + insert_ordered(s.drop_first(), x)
    }
}

/// `s` in the order of repository, then name; items that compare equal
/// keep their order (a stable sort).
pub open spec fn repo_order(s: Seq<Package>) -> Seq<Package>
    decreases s.len(),
{
    if s.len() == 0 {
        s
    } else {
        insert_ordered(repo_order(s.drop_last()), s.last())
    }
}

proof fn lemma_insert_at(s: Seq<Package>, x: Package, p: int)
    requires
        0 <= p <= s.len(),
        forall|q: int| 0 <= q < p ==> !repo_name_gt(#[trigger] s[q], x),
        p < s.len() ==> repo_name_gt(s[p], x),
    ensures
        insert_ordered(s, x) == s.insert(p, x),
    decreases s.len(),
{
    if s.len() == 0 {
        assert(s.insert(p, x) == seq![x]);
    } else if p == 0 {
        assert(s.insert(0, x) == seq![x] + s);
    } else {
        assert forall|q: int| 0 <= q < p - 1 implies !repo_name_gt(
            #[trigger] s.drop_first()[q],
            x,
        ) by {
            assert(s.drop_first()[q] == s[q + 1]);
        }
        if p < s.len() {
            assert(s.drop_first()[p - 1] == s[p]);
        }
        lemma_insert_at(s.drop_first(), x, p - 1);
        assert(s.insert(p, x) == seq![s[0]] + s.drop_first().insert(p - 1, x));
    }
}

proof fn lemma_chars_lt_irreflexive(a: Seq<char>)
    ensures
        !chars_lt(a, a),
    decreases a.len(),
{
    if a.len() > 0 {
        lemma_chars_lt_irreflexive(a.drop_first());
    }
}

proof fn lemma_chars_lt_total(a: Seq<char>, b: Seq<char>)
    ensures
        a == b || chars_lt(a, b) || chars_lt(b, a),
        !(chars_lt(a, b) && chars_lt(b, a)),
    decreases a.len(),
{
    if a.len() == 0 && b.len() == 0 {
        assert(a == b);
    } else if a.len() == 0 || b.len() == 0 {
    } else if a[0] != b[0] {
    } else {
        lemma_chars_lt_total(a.drop_first(), b.drop_first());
        if a.drop_first() == b.drop_first() {
            assert(a == seq![a[0]] + a.drop_first());
            assert(b == seq![b[0]] + b.drop_first());
        }
    }
}

proof fn lemma_chars_lt_transitive(a: Seq<char>, b: Seq<char>, c: Seq<char>)
    requires
        chars_lt(a, b),
        chars_lt(b, c),
    ensures
        chars_lt(a, c),
    decreases a.len(),
{
    if a.len() > 0 && b.len() > 0 && c.len() > 0 && a[0] == b[0] && b[0] == c[0] {
        lemma_chars_lt_transitive(a.drop_first(), b.drop_first(), c.drop_first());
    }
}

/// `a` comes before `b` by repository, then name.
pub open spec fn key_lt(a: Package, b: Package) -> bool {
    repo_name_gt(b, a)
}

/// Same repository and name.
pub open spec fn same_key(a: Package, b: Package) -> bool {
    a.repo@ == b.repo@ && a.name@ == b.name@
}

proof fn lemma_key_order(a: Package, b: Package, c: Package)
    ensures
        !key_lt(a, a),
        same_key(a, b) || key_lt(a, b) || key_lt(b, a),
        !(key_lt(a, b) && key_lt(b, a)),
        key_lt(a, b) && key_lt(b, c) ==> key_lt(a, c),
        same_key(a, b) && key_lt(c, a) ==> key_lt(c, b),
        same_key(a, b) && key_lt(a, c) ==> key_lt(b, c),
{
    lemma_chars_lt_irreflexive(a.repo@);
    lemma_chars_lt_irreflexive(a.name@);
    lemma_chars_lt_total(a.repo@, b.repo@);
    lemma_chars_lt_total(a.name@, b.name@);
    if key_lt(a, b) && key_lt(b, c) {
        if chars_lt(a.repo@, b.repo@) && chars_lt(b.repo@, c.repo@) {
            lemma_chars_lt_transitive(a.repo@, b.repo@, c.repo@);
        } else if chars_lt(a.name@, b.name@) && chars_lt(b.name@, c.name@) {
            lemma_chars_lt_transitive(a.name@, b.name@, c.name@);
        }
    }
}

/// Ordered by repository, then name.
pub open spec fn repo_sorted(s: Seq<Package>) -> bool {
    forall|i: int, j: int| 0 <= i < j < s.len() ==> !key_lt(#[trigger] s[j], #[trigger] s[i])
}

proof fn lemma_insert_ordered(s: Seq<Package>, x: Package)
    requires
        repo_sorted(s),
    ensures
        repo_sorted(insert_ordered(s, x)),
        insert_ordered(s, x).to_multiset() == s.to_multiset().insert(x),
    decreases s.len(),
{
    broadcast use vstd::multiset::group_multiset_axioms, vstd::seq_lib::group_to_multiset_ensures;
    let r = insert_ordered(s, x);
    if s.len() == 0 {
        assert(r == s.push(x));
    } else if repo_name_gt(s[0], x) {
        assert(r == s.insert(0, x));
        assert forall|i: int, j: int| 0 <= i < j < r.len() implies !key_lt(
            #[trigger] r[j],
            #[trigger] r[i],
        ) by {
            if i == 0 {
                assert(r[j] == s[j - 1]);
                lemma_key_order(x, s[0], s[j - 1]);
                lemma_key_order(s[0], s[j - 1], x);
                if j - 1 > 0 {
                    assert(!key_lt(s[j - 1], s[0]));
                }
                lemma_key_order(s[j - 1], s[0], x);
                lemma_key_order(s[j - 1], x, s[0]);
                lemma_key_order(x, s[j - 1], s[0]);
            } else {
                assert(r[i] == s[i - 1] && r[j] == s[j - 1]);
            }
        }
        vstd::seq_lib::to_multiset_insert(s, 0, x);
    } else {
        let t = s.drop_first();
        assert forall|i: int, j: int| 0 <= i < j < t.len() implies !key_lt(
            #[trigger] t[j],
            #[trigger] t[i],
        ) by {
            assert(t[i] == s[i + 1] && t[j] == s[j + 1]);
        }
        lemma_insert_ordered(t, x);
        let u = insert_ordered(t, x);
        assert(r == seq![s[0]] + u);
        assert(s == seq![s[0]] + t);
        vstd::seq_lib::lemma_multiset_commutative(seq![s[0]], u);
        vstd::seq_lib::lemma_multiset_commutative(seq![s[0]], t);
        assert forall|i: int, j: int| 0 <= i < j < r.len() implies !key_lt(
            #[trigger] r[j],
            #[trigger] r[i],
        ) by {
            if i == 0 {
                let y = r[j];
                assert(y == u[j - 1]);
                assert(u.to_multiset().count(y) > 0);
                assert(t.to_multiset().insert(x).count(y) > 0);
                if y != x {
                    assert(t.to_multiset().count(y) > 0);
                    assert(t.contains(y));
                    let k = choose|k: int| 0 <= k < t.len() && t[k] == y;
                    assert(s[k + 1] == y);
                }
            } else {
                assert(r[i] == u[i - 1] && r[j] == u[j - 1]);
            }
        }
    }
}

/// Results come ordered by repository, then name, and are exactly the
/// items given (a permutation of them).
pub proof fn law_repo_order(s: Seq<Package>)
    ensures
        repo_sorted(repo_order(s)),
        repo_order(s).to_multiset() == s.to_multiset(),
    decreases s.len(),
{
    broadcast use vstd::multiset::group_multiset_axioms, vstd::seq_lib::group_to_multiset_ensures;
    if s.len() == 0 {
    } else {
        law_repo_order(s.drop_last());
        lemma_insert_ordered(repo_order(s.drop_last()), s.last());
        assert(s == s.drop_last().push(s.last()));
    }
}

/// Lexicographic order of two strings (see `chars_lt`).
fn str_lt(a: &str, b: &str) -> (r: bool)
    ensures
        r == chars_lt(a@, b@),
{
    let av = chars_of(a);
    let bv = chars_of(b);
    let mut i: usize = 0;
    assert(a@.skip(0) == a@ && b@.skip(0) == b@);
    while i < av.len() && i < bv.len() && av[i] == bv[i]
        invariant
            i <= av.len(),
            i <= bv.len(),
            av@ == a@,
            bv@ == b@,
            chars_lt(a@, b@) == chars_lt(a@.skip(i as int), b@.skip(i as int)),
        decreases av.len() - i,
    {
        proof {
            let sa = a@.skip(i as int);
            let sb = b@.skip(i as int);
            assert(sa.drop_first() == a@.skip(i + 1));
            assert(sb.drop_first() == b@.skip(i + 1));
        }
        i = i + 1;
    }
    proof {
        let sa = a@.skip(i as int);
        let sb = b@.skip(i as int);
        if i < av.len() {
            assert(sa[0] == a@[i as int]);
        }
        if i < bv.len() {
            assert(sb[0] == b@[i as int]);
        }
    }
    if i == av.len() {
        i < bv.len()
    } else if i == bv.len() {
        false
    } else {
        av[i] < bv[i]
    }
}

/// `a` comes after `b` by repository, then name.
fn comes_after(a: &Package, b: &Package) -> (r: bool)
    ensures
        r == repo_name_gt(*a, *b),
{
    str_lt(b.repo.as_str(), a.repo.as_str()) || (crate::text::str_eq(
        b.repo.as_str(),
        a.repo.as_str(),
    ) && str_lt(b.name.as_str(), a.name.as_str()))
}

/// Stable sort by repository, then name (see `repo_order`).
pub fn sort_by_repo_name(v: &mut Vec<Package>)
    ensures
        final(v)@ == repo_order(old(v)@),
{
    let ghost input = v@;
    let mut sorted: Vec<Package> = Vec::new();
    let n = v.len();
    let mut k: usize = 0;
    while k < n
        invariant
            n == v.len(),
            v@ == input,
            k <= n,
            sorted@ == repo_order(input.take(k as int)),
        decreases n - k,
    {
        let x = v[k].duplicate();
        let mut p: usize = 0;
        while p < sorted.len() && !comes_after(&sorted[p], &x)
            invariant
                p <= sorted.len(),
                forall|q: int| 0 <= q < p ==> !repo_name_gt(#[trigger] sorted@[q], x),
            decreases sorted.len() - p,
        {
            p = p + 1;
        }
        proof {
            lemma_insert_at(sorted@, x, p as int);
            assert(input.take(k + 1).drop_last() == input.take(k as int));
            assert(input.take(k + 1).last() == input[k as int]);
        }
        sorted.insert(p, x);
        k = k + 1;
    }
    assert(input.take(n as int) == input);
    *v = sorted;
}

/// The record of `p` from the database named `db`.
fn package_from_repo(db: &String, p: &RepoPkg) -> (r: Package)
    ensures
        r == repo_package(*db, *p),
{
    Package {
        name: p.name.clone(),
        version: p.version.clone(),
        description: copy_opt_string(&p.desc),
        repo: db.clone(),
        arch: copy_opt_string(&p.arch),
        url: copy_opt_string(&p.url),
        installed: p.installed,
        votes: None,
        popularity: None,
        out_of_date: None,
        maintainer: None,
        num_votes: None,
        last_modified: None,
    }
}

proof fn lemma_candidates_add(a: Seq<RepoDb>, b: Seq<RepoDb>)
    ensures
        candidates(a + b) == candidates(a) + candidates(b),
    decreases b.len(),
{
    if b.len() == 0 {
        assert(a + b == a);
    } else {
        lemma_candidates_add(a, b.drop_last());
        assert((a + b).drop_last() == a + b.drop_last());
        assert((a + b).last() == b.last());
    }
}

/// The candidates split at database `d`: those before it, its own, and
/// those after it.
proof fn lemma_candidates_at(dbs: Seq<RepoDb>, d: int)
    requires
        0 <= d < dbs.len(),
    ensures
        candidates(dbs) == candidates(dbs.take(d)) + db_packages(dbs[d]) + candidates(
            dbs.skip(d + 1),
        ),
        candidates(dbs.take(d + 1)) == candidates(dbs.take(d)) + db_packages(dbs[d]),
{
    let one = seq![dbs[d]];
    assert(one.drop_last() == Seq::<RepoDb>::empty());
    assert(candidates(one.drop_last()) == Seq::<Package>::empty());
    assert(Seq::<Package>::empty() + db_packages(dbs[d]) == db_packages(dbs[d]));
    assert(candidates(one) == db_packages(dbs[d]));
    assert(dbs == dbs.take(d) + (one + dbs.skip(d + 1)));
    lemma_candidates_add(dbs.take(d), one + dbs.skip(d + 1));
    lemma_candidates_add(one, dbs.skip(d + 1));
    assert(dbs.take(d + 1) == dbs.take(d) + one);
    lemma_candidates_add(dbs.take(d), one);
}

/// `p` is a result (see `repo_keeps`); `ql` is the lower-cased query and
/// `re` the compiled query with `--regex`.
fn keeps(
    p: &Package,
    query: &str,
    ql: &Vec<char>,
    re: &Option<QueryRegex>,
    use_regex: bool,
    installed_only: bool,
) -> (b: bool)
    requires
        use_regex ==> (re matches Some(r) && r.source() == query@),
        ql@ == lowercase(query@),
    ensures
        b == repo_keeps(*p, query@, use_regex, installed_only),
{
    if installed_only && !p.installed {
        return false;
    }
    if use_regex {
        match re {
            Some(r) => {
                proof {
                    reveal_strlit("");
                    assert(""@ == Seq::<char>::empty());
                }
                r.is_match(p.name.as_str()) || match &p.description {
                    Some(d) => r.is_match(d.as_str()),
                    None => r.is_match(""),
                }
            },
            None => false,
        }
    } else {
        let nl = chars_of(to_lowercase(p.name.as_str()).as_str());
        if contains_chars(&nl, ql) {
            return true;
        }
        match &p.description {
            Some(d) => {
                let dl = chars_of(to_lowercase(d.as_str()).as_str());
                contains_chars(&dl, ql)
            },
            None => {
                let empty: Vec<char> = Vec::new();
                assert(empty@ == Seq::<char>::empty());
                contains_chars(&empty, ql)
            },
        }
    }
}

/// The packages of the databases `dbs` that match the query (see
/// `repo_keeps`), in database order, the first `limit` of them (all for 0),
/// sorted by repository then name. With `--regex` a pattern that does not
/// compile gives `AppError::Regex`.
pub fn search_repo_in(
    dbs: &Vec<RepoDb>,
    query: &str,
    limit: usize,
    use_regex: bool,
    installed_only: bool,
) -> (r: Result<Vec<Package>, AppError>)
    ensures
        use_regex && !regex_compiles(query@) ==> r matches Err(AppError::Regex(_)),
        !(use_regex && !regex_compiles(query@)) ==> (r matches Ok(v) && v@ == repo_order(
            first_n(
                candidates(dbs@).filter(
                    |p: Package| repo_keeps(p, query@, use_regex, installed_only),
                ),
                limit,
            ),
        )),
{
    let re: Option<QueryRegex> = if use_regex {
        match QueryRegex::new(query) {
            Ok(r) => Some(r),
            Err(e) => {
                return Err(AppError::Regex(e));
            },
        }
    } else {
        None
    };
    let ql = chars_of(to_lowercase(query).as_str());
    let ghost pred = |p: Package| repo_keeps(p, query@, use_regex, installed_only);
    let ghost all = candidates(dbs@);
    let mut results: Vec<Package> = Vec::new();
    let mut full = false;
    let ghost mut m: int = 0;
    let mut d: usize = 0;
    while d < dbs.len() && !full
        invariant
            use_regex ==> (re matches Some(x) && x.source() == query@),
            ql@ == lowercase(query@),
            pred == (|p: Package| repo_keeps(p, query@, use_regex, installed_only)),
            all == candidates(dbs@),
            d <= dbs.len(),
            0 <= m <= all.len(),
            !full ==> m == candidates(dbs@.take(d as int)).len(),
            results@ == all.take(m).filter(pred),
            full ==> limit != 0 && results.len() == limit,
            !full ==> limit == 0 || results.len() < limit,
        decreases dbs.len() - d, if full { 0int } else { 1int },
    {
        let db = &dbs[d];
        proof {
            lemma_candidates_at(dbs@, d as int);
        }
        let ghost base = m;
        let mut j: usize = 0;
        while j < db.pkgs.len() && !full
            invariant
                use_regex ==> (re matches Some(x) && x.source() == query@),
                ql@ == lowercase(query@),
                pred == (|p: Package| repo_keeps(p, query@, use_regex, installed_only)),
                all == candidates(dbs@),
                d < dbs.len(),
                db == dbs@[d as int],
                base == candidates(dbs@.take(d as int)).len(),
                all == candidates(dbs@.take(d as int)) + db_packages(*db) + candidates(
                    dbs@.skip(d + 1),
                ),
                j <= db.pkgs.len(),
                0 <= m <= all.len(),
                !full ==> m == base + j,
                results@ == all.take(m).filter(pred),
                full ==> limit != 0 && results.len() == limit,
                !full ==> limit == 0 || results.len() < limit,
            decreases db.pkgs.len() - j, if full { 0int } else { 1int },
        {
            let pk = package_from_repo(&db.name, &db.pkgs[j]);
            proof {
                assert(all[m] == db_packages(*db)[j as int]);
                assert(all.take(m + 1) == all.take(m).push(all[m]));
                reveal(Seq::filter);
                assert(all.take(m + 1).drop_last() == all.take(m));
            }
            if keeps(&pk, query, &ql, &re, use_regex, installed_only) {
                results.push(pk);
                if limit != 0 && results.len() >= limit {
                    full = true;
                }
            }
            proof {
                m = m + 1;
            }
            j = j + 1;
        }
        d = d + 1;
    }
    proof {
        let kept = all.take(m).filter(pred);
        let rest = all.skip(m).filter(pred);
        assert(all == all.take(m) + all.skip(m));
        Seq::filter_distributes_over_add(all.take(m), all.skip(m), pred);
        if !full {
            assert(d == dbs.len());
            assert(dbs@.take(d as int) == dbs@);
            assert(all.take(m) == all);
        } else {
            assert(all.filter(pred) == kept + rest);
            if all.filter(pred).len() > limit {
                assert(all.filter(pred).take(limit as int) == kept);
            } else {
                assert(rest.len() == 0);
                assert(all.filter(pred) == kept);
            }
        }
    }
    sort_by_repo_name(&mut results);
    Ok(results)
}

/// The results of a repository search are ordered by repository then
/// name, at most `limit` (when not 0), every one a match from one of the
/// databases, and all matches when fewer than `limit` exist.
pub proof fn law_repo_results(
    dbs: Seq<RepoDb>,
    q: Seq<char>,
    limit: usize,
    use_regex: bool,
    installed_only: bool,
)
    ensures
        ({
            let pred = |p: Package| repo_keeps(p, q, use_regex, installed_only);
            let matches = candidates(dbs).filter(pred);
            let out = repo_order(first_n(matches, limit));
            &&& repo_sorted(out)
            &&& limit != 0 ==> out.len() <= limit
            &&& forall|p: Package| #[trigger] out.contains(p) ==> repo_keeps(
                p,
                q,
                use_regex,
                installed_only,
            ) && candidates(dbs).contains(p)
            &&& (limit == 0 || matches.len() <= limit) ==> out.to_multiset()
                == matches.to_multiset()
        }),
{
    broadcast use vstd::multiset::group_multiset_axioms, vstd::seq_lib::group_to_multiset_ensures;

    let pred = |p: Package| repo_keeps(p, q, use_regex, installed_only);
    let c = candidates(dbs);
    let matches = c.filter(pred);
    let chosen = first_n(matches, limit);
    let out = repo_order(chosen);
    law_repo_order(chosen);
    assert forall|p: Package| #[trigger] out.contains(p) implies repo_keeps(
        p,
        q,
        use_regex,
        installed_only,
    ) && c.contains(p) by {
        assert(out.to_multiset().count(p) > 0);
        assert(chosen.to_multiset().count(p) > 0);
        assert(chosen.contains(p));
        let i = choose|i: int| 0 <= i < chosen.len() && chosen[i] == p;
        assert(i < matches.len());
        assert(matches[i] == p);
        assert(matches.contains(p));
        c.lemma_filter_pred(pred, i);
        c.lemma_filter_contains_rev(pred, p);
    }
    assert(out.len() == out.to_multiset().len());
    assert(chosen.len() == chosen.to_multiset().len());
}

/// Without `--regex`, a package of the databases whose lower-cased name or
/// lower-cased description contains the lower-cased query is among the
/// results when no limit cuts them (and, with `installed_only`, it is
/// installed): a match in the description alone suffices.
pub proof fn law_repo_text_match_found(
    dbs: Seq<RepoDb>,
    q: Seq<char>,
    installed_only: bool,
    p: Package,
)
    requires
        candidates(dbs).contains(p),
        has_infix(lowercase(p.name@), lowercase(q)) || has_infix(lower_desc(p), lowercase(q)),
        installed_only ==> p.installed,
    ensures
        repo_order(
            first_n(
                candidates(dbs).filter(|x: Package| repo_keeps(x, q, false, installed_only)),
                0,
            ),
        ).contains(p),
{
    broadcast use vstd::multiset::group_multiset_axioms, vstd::seq_lib::group_to_multiset_ensures;

    let pred = |x: Package| repo_keeps(x, q, false, installed_only);
    let c = candidates(dbs);
    let matches = c.filter(pred);
    law_repo_results(dbs, q, 0, false, installed_only);
    let i = choose|i: int| 0 <= i < c.len() && c[i] == p;
    assert(pred(c[i]));
    c.lemma_filter_contains(pred, i);
    assert(matches.to_multiset().count(p) > 0);
    let out = repo_order(first_n(matches, 0));
    assert(out.to_multiset().count(p) > 0);
}

} // verus!
