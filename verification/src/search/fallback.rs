//! The text of `pacman -Ss` (and `pacman -Qs`), read back into packages when
//! libalpm cannot be used.
//!
//! A package header is a line that is not blank, not indented and holds a
//! '/': `repo/name version [installed...]`. The lines after it, up to the next
//! non-indented line with a '/', are its description (blank ones skipped),
//! joined with single spaces.
use vstd::prelude::*;

use crate::model::Package;
use crate::search::rank::kept_len;
use crate::text::{
    chars_of, contains_char, contains_chars, find_char, first_index_of, has_infix, is_whitespace,
    is_ws, lemma_first_index_of, lemma_first_index_of_unique, lines, push_chars,
    string_from_chars, sub_chars, trim, trim_chars, trim_start,
};

verus! {

pub open spec fn starts_indented(l: Seq<char>) -> bool {
    l.len() > 0 && (l[0] == ' ' || l[0] == '\t')
}

pub open spec fn is_blank(l: Seq<char>) -> bool {
    trim(l).len() == 0
}

/// A package header line.
pub open spec fn is_header(l: Seq<char>) -> bool {
    !is_blank(l) && !starts_indented(l) && l.contains('/')
}

/// A line that ends the description of the package before it.
pub open spec fn ends_desc(l: Seq<char>) -> bool {
    l.contains('/') && !starts_indented(l)
}

/// Index of the first line from `k` on that ends a description.
pub open spec fn desc_end(ls: Seq<Seq<char>>, k: int) -> int
    decreases ls.len() - k,
{
    if k < 0 || k >= ls.len() || ends_desc(ls[k]) {
        k
    } else {
        desc_end(ls, k + 1)
    }
}

/// The non-blank lines of `ls[k..e]`, trimmed.
pub open spec fn desc_parts(ls: Seq<Seq<char>>, k: int, e: int) -> Seq<Seq<char>>
    decreases e - k,
{
    if k < 0 || k >= e || k >= ls.len() {
        seq![]
    } else if is_blank(ls[k]) {
        desc_parts(ls, k + 1, e)
    } else {
        seq![trim(ls[k])] + desc_parts(ls, k + 1, e)
    }
}

/// Each header line from `i` on with its description lines.
pub open spec fn blocks(ls: Seq<Seq<char>>, i: int) -> Seq<(Seq<char>, Seq<Seq<char>>)>
    decreases ls.len() - i,
{
    if i < 0 || i >= ls.len() {
        seq![]
    } else if !is_header(ls[i]) {
        blocks(ls, i + 1)
    } else {
        let e = desc_end(ls, i + 1);
        proof {
            lemma_desc_end(ls, i + 1);
        }
        seq![(ls[i], desc_parts(ls, i + 1, e))] + blocks(ls, e)
    }
}

pub proof fn lemma_desc_end(ls: Seq<Seq<char>>, k: int)
    requires
        0 <= k,
    ensures
        k <= desc_end(ls, k),
        k <= ls.len() ==> desc_end(ls, k) <= ls.len(),
        desc_end(ls, k) < ls.len() ==> ends_desc(ls[desc_end(ls, k)]),
        forall|m: int| k <= m < desc_end(ls, k) ==> !ends_desc(#[trigger] ls[m]),
    decreases ls.len() - k,
{
    if k < ls.len() && !ends_desc(ls[k]) {
        lemma_desc_end(ls, k + 1);
    }
}

/// Pieces joined with single spaces.
pub open spec fn join_spaces(parts: Seq<Seq<char>>) -> Seq<char>
    decreases parts.len(),
{
    if parts.len() == 0 {
        seq![]
    } else if parts.len() == 1 {
        parts[0]
    } else {
        join_spaces(parts.drop_last()) + seq![' '] + parts.last()
    }
}

/// The first whitespace-separated word of `s`, or nothing.
pub open spec fn first_word(s: Seq<char>) -> Seq<char> {
    let t = trim_start(s);
    t.subrange(0, first_ws(t))
}

/// Index of the first whitespace character, or the length.
pub open spec fn first_ws(s: Seq<char>) -> int
    decreases s.len(),
{
    if s.len() == 0 {
        0
    } else if is_ws(s[0]) {
        0
    } else {
        1 + first_ws(s.drop_first())
    }
}

pub proof fn lemma_first_ws(s: Seq<char>)
    ensures
        0 <= first_ws(s) <= s.len(),
    decreases s.len(),
{
    if s.len() > 0 && !is_ws(s[0]) {
        lemma_first_ws(s.drop_first());
    }
}

pub proof fn lemma_first_ws_unique(s: Seq<char>, i: int)
    requires
        0 <= i <= s.len(),
        i < s.len() ==> is_ws(s[i]),
        forall|k: int| 0 <= k < i ==> !is_ws(#[trigger] s[k]),
    ensures
        first_ws(s) == i,
    decreases s.len(),
{
    if s.len() > 0 && !is_ws(s[0]) {
        assert forall|k: int| 0 <= k < i - 1 implies !is_ws(#[trigger] s.drop_first()[k]) by {
            assert(s.drop_first()[k] == s[k + 1]);
        }
        lemma_first_ws_unique(s.drop_first(), i - 1);
    }
}

/// The part of a header line before its first space ("repo/name").
pub open spec fn head_token(l: Seq<char>) -> Seq<char> {
    l.subrange(0, first_index_of(l, ' '))
}

/// The part of a header line after its first space, or nothing.
pub open spec fn head_rest(l: Seq<char>) -> Seq<char> {
    let i = first_index_of(l, ' ');
    if i < l.len() {
        l.subrange(i + 1, l.len() as int)
    } else {
        seq![]
    }
}

/// The repository of "repo/name" (nothing without a '/').
pub open spec fn token_repo(t: Seq<char>) -> Seq<char> {
    if t.contains('/') {
        t.subrange(0, first_index_of(t, '/'))
    } else {
        seq![]
    }
}

/// The name of "repo/name" (the whole token without a '/').
pub open spec fn token_name(t: Seq<char>) -> Seq<char> {
    if t.contains('/') {
        t.subrange(first_index_of(t, '/') + 1, t.len() as int)
    } else {
        t
    }
}

/// `p` is the package of a header line and its description lines.
pub open spec fn block_package(b: (Seq<char>, Seq<Seq<char>>), p: Package) -> bool {
    let l = b.0;
    &&& p.name@ == token_name(head_token(l))
    &&& p.repo@ == token_repo(head_token(l))
    &&& p.version@ == first_word(head_rest(l))
    &&& p.installed == has_infix(l, "[installed"@)
    &&& (if b.1.len() == 0 {
        p.description is None
    } else {
        p.description matches Some(d) && d@ == join_spaces(b.1)
    })
    &&& p.arch is None
    &&& p.url is None
    &&& p.votes is None
    &&& p.popularity is None
    &&& p.out_of_date is None
    &&& p.maintainer is None
    &&& p.num_votes is None
    &&& p.last_modified is None
}

/// The packages listed in `pacman -Ss` output, in order, the first `limit`
/// of them (0 = all).
pub open spec fn parsed_listing(text: Seq<char>, limit: usize, out: Seq<Package>) -> bool {
    let bs = blocks(lines(text), 0);
    &&& out.len() == kept_len(bs.len(), limit)
    &&& forall|i: int| 0 <= i < out.len() ==> block_package(bs[i], #[trigger] out[i])
}

/// A listed package is installed exactly when its header line holds
/// "[installed" somewhere: pacman writes "[installed]", or
/// "[installed: <local version>]" when the installed version differs from
/// the repository's; both count.
pub proof fn law_installed_marker(
    text: Seq<char>,
    limit: usize,
    out: Seq<Package>,
    i: int,
    u: Seq<char>,
    w: Seq<char>,
)
    requires
        parsed_listing(text, limit, out),
        0 <= i < out.len(),
    ensures
        blocks(lines(text), 0)[i].0 == u + "[installed"@ + w ==> out[i].installed,
        blocks(lines(text), 0)[i].0 == u + "[installed: "@ + w + "]"@ ==> out[i].installed,
        out[i].installed ==> exists|a: Seq<char>, b: Seq<char>|
            blocks(lines(text), 0)[i].0 == a + "[installed"@ + b,
{
    let l = blocks(lines(text), 0)[i].0;
    let m = "[installed"@;
    assert(block_package(blocks(lines(text), 0)[i], out[i]));
    if l == u + m + w {
        assert(l.subrange(u.len() as int, (u.len() + m.len()) as int) == m);
    }
    if l == u + "[installed: "@ + w + "]"@ {
        reveal_strlit("[installed: ");
        reveal_strlit("[installed");
        assert(l.subrange(u.len() as int, (u.len() + m.len()) as int) == m);
    }
    if out[i].installed {
        let k = choose|k: int| 0 <= k && k + m.len() <= l.len() && #[trigger] l.subrange(k, k + m.len()) == m;
        assert(l == l.subrange(0, k) + m + l.subrange(k + m.len(), l.len() as int));
    }
}

// ---- lines -------------------------------------------------------------------

/// `str::lines`, as character vectors.
pub fn split_lines(s: &str) -> (r: Vec<Vec<char>>)
    ensures
        r@.map_values(|l: Vec<char>| l@) == lines(s@),
{
    let v = chars_of(s);
    let n = v.len();
    let mut out: Vec<Vec<char>> = Vec::new();
    let mut start: usize = 0;
    assert(v@.subrange(0, n as int) == v@);
    while start < n
        invariant
            start <= n == v.len(),
            lines(v@) == out@.map_values(|l: Vec<char>| l@) + lines(
                v@.subrange(start as int, n as int),
            ),
        decreases n - start,
    {
        let ghost rest = v@.subrange(start as int, n as int);
        let mut k = start;
        while k < n && v[k] != '\n'
            invariant
                start <= k <= n == v.len(),
                forall|m: int| start <= m < k ==> v@[m] != '\n',
            decreases n - k,
        {
            k = k + 1;
        }
        proof {
            assert forall|m: int| 0 <= m < k - start implies rest[m] != '\n' by {
                assert(rest[m] == v@[start + m]);
            }
            lemma_first_index_of_unique(rest, '\n', k - start);
        }
        let mut piece = sub_chars(&v, start, k);
        assert(piece@ == rest.subrange(0, k - start));
        let ghost before = out@.map_values(|l: Vec<char>| l@);
        if k < n {
            if piece.len() > 0 && piece[piece.len() - 1] == '\r' {
                piece.pop();
            }
            out.push(piece);
            assert(rest.subrange(k - start + 1, rest.len() as int) == v@.subrange(
                k + 1,
                n as int,
            ));
            assert(out@.map_values(|l: Vec<char>| l@) == before.push(out@.last()@));
            start = k + 1;
        } else {
            out.push(piece);
            assert(rest.subrange(0, k - start) == rest);
            assert(out@.map_values(|l: Vec<char>| l@) == before.push(out@.last()@));
            start = n;
        }
    }
    assert(lines(v@.subrange(n as int, n as int)) == Seq::<Seq<char>>::empty());
    out
}

// ---- header fields -------------------------------------------------------

fn first_word_exec(s: &Vec<char>) -> (r: Vec<char>)
    ensures
        r@ == first_word(s@),
{
    let n = s.len();
    let mut i: usize = 0;
    while i < n && is_whitespace(s[i])
        invariant
            i <= n == s.len(),
            forall|k: int| 0 <= k < i ==> is_ws(#[trigger] s@[k]),
        decreases n - i,
    {
        i = i + 1;
    }
    proof {
        crate::text::lemma_trim_start_skip(s@, i as int);
        let t = s@.subrange(i as int, n as int);
        if i < n {
            assert(!is_ws(t[0]));
        }
        assert(trim_start(t) == t);
    }
    let mut j = i;
    while j < n && !is_whitespace(s[j])
        invariant
            i <= j <= n == s.len(),
            forall|k: int| i <= k < j ==> !is_ws(#[trigger] s@[k]),
        decreases n - j,
    {
        j = j + 1;
    }
    proof {
        let t = s@.subrange(i as int, n as int);
        assert forall|k: int| 0 <= k < j - i implies !is_ws(#[trigger] t[k]) by {
            assert(t[k] == s@[i + k]);
        }
        lemma_first_ws_unique(t, j - i);
        assert(t.subrange(0, j - i) == s@.subrange(i as int, j as int));
    }
    sub_chars(s, i, j)
}

fn join_parts(parts: &Vec<Vec<char>>) -> (r: Vec<char>)
    ensures
        r@ == join_spaces(parts@.map_values(|l: Vec<char>| l@)),
{
    let mut out: Vec<char> = Vec::new();
    let mut k: usize = 0;
    while k < parts.len()
        invariant
            k <= parts.len(),
            out@ == join_spaces(parts@.map_values(|l: Vec<char>| l@).take(k as int)),
        decreases parts.len() - k,
    {
        let ghost pv = parts@.map_values(|l: Vec<char>| l@);
        assert(pv.take(k + 1).drop_last() == pv.take(k as int));
        assert(pv.take(k + 1).last() == parts@[k as int]@);
        if k > 0 {
            out.push(' ');
        }
        push_chars(&mut out, &parts[k]);
        k = k + 1;
    }
    assert(parts@.map_values(|l: Vec<char>| l@).take(parts.len() as int) == parts@.map_values(
        |l: Vec<char>| l@,
    ));
    out
}

fn starts_indented_exec(l: &Vec<char>) -> (r: bool)
    ensures
        r == starts_indented(l@),
{
    l.len() > 0 && (l[0] == ' ' || l[0] == '\t')
}

/// The package of a header line and its description lines.
fn package_of_block(l: &Vec<char>, parts: &Vec<Vec<char>>) -> (p: Package)
    ensures
        block_package((l@, parts@.map_values(|x: Vec<char>| x@)), p),
{
    let sp = find_char(l, ' ');
    proof {
        lemma_first_index_of(l@, ' ');
    }
    let token = sub_chars(l, 0, sp);
    let rest = if sp < l.len() {
        sub_chars(l, sp + 1, l.len())
    } else {
        Vec::new()
    };
    let slash = find_char(&token, '/');
    proof {
        lemma_first_index_of(token@, '/');
        if slash < token.len() {
            assert(token@.contains('/'));
        } else {
            assert(!token@.contains('/'));
        }
    }
    let (repo, name) = if slash < token.len() {
        (sub_chars(&token, 0, slash), sub_chars(&token, slash + 1, token.len()))
    } else {
        (Vec::new(), sub_chars(&token, 0, token.len()))
    };
    assert(token@.subrange(0, token@.len() as int) == token@);
    let version = first_word_exec(&rest);
    let marker = chars_of("[installed");
    let installed = contains_chars(l, &marker);
    let description = if parts.len() == 0 {
        None
    } else {
        Some(string_from_chars(join_parts(parts)))
    };
    Package {
        name: string_from_chars(name),
        version: string_from_chars(version),
        description,
        repo: string_from_chars(repo),
        arch: None,
        url: None,
        installed,
        votes: None,
        popularity: None,
        out_of_date: None,
        maintainer: None,
        num_votes: None,
        last_modified: None,
    }
}

/// Reads the packages out of `pacman -Ss` output: the first `limit` of them
/// (0 = all), in the order listed.
pub fn parse_pacman_listing(text: &str, limit: usize) -> (r: Vec<Package>)
    ensures
        parsed_listing(text@, limit, r@),
{
    let ls = split_lines(text);
    let ghost lv = ls@.map_values(|l: Vec<char>| l@);
    let ghost bs = blocks(lv, 0);
    let n = ls.len();
    let mut out: Vec<Package> = Vec::new();
    let ghost mut done: Seq<(Seq<char>, Seq<Seq<char>>)> = seq![];
    let mut i: usize = 0;
    while i < n
        invariant_except_break
            i <= n == ls.len(),
            lv == ls@.map_values(|l: Vec<char>| l@),
            bs == blocks(lv, 0),
            bs == done + blocks(lv, i as int),
            out@.len() == done.len(),
            limit == 0 || out@.len() < limit,
            forall|m: int| 0 <= m < out@.len() ==> block_package(done[m], #[trigger] out@[m]),
            i >= n ==> bs == done,
        ensures
            out@.len() == kept_len(bs.len(), limit),
            forall|m: int| 0 <= m < out@.len() ==> block_package(bs[m], #[trigger] out@[m]),
        decreases n - i,
    {
        let line = &ls[i];
        assert(lv[i as int] == line@);
        let t = trim_chars(line);
        let header = t.len() > 0 && !starts_indented_exec(line) && contains_char(line, '/');
        if !header {
            i = i + 1;
            proof {
                if i >= n {
                    assert(blocks(lv, i as int) == Seq::<(Seq<char>, Seq<Seq<char>>)>::empty());
                    assert(done + blocks(lv, i as int) == done);
                }
            }
        } else {
            let mut parts: Vec<Vec<char>> = Vec::new();
            let mut j = i + 1;
            proof {
                lemma_desc_end(lv, i + 1);
            }
            while j < n && !(contains_char(&ls[j], '/') && !starts_indented_exec(&ls[j]))
                invariant
                    i < j <= n == ls.len(),
                    lv == ls@.map_values(|l: Vec<char>| l@),
                    j <= desc_end(lv, i + 1),
                    desc_parts(lv, i + 1, desc_end(lv, i + 1)) == parts@.map_values(
                        |x: Vec<char>| x@,
                    ) + desc_parts(lv, j as int, desc_end(lv, i + 1)),
                decreases n - j,
            {
                assert(lv[j as int] == ls[j as int]@);
                proof {
                    lemma_desc_end(lv, i + 1);
                    lemma_desc_end(lv, j as int);
                    lemma_desc_end_step(lv, i + 1, j as int);
                }
                let tj = trim_chars(&ls[j]);
                let ghost before = parts@.map_values(|x: Vec<char>| x@);
                if tj.len() > 0 {
                    parts.push(tj);
                    assert(parts@.map_values(|x: Vec<char>| x@) == before.push(tj@));
                }
                j = j + 1;
            }
            proof {
                lemma_desc_end(lv, i + 1);
                if j < n {
                    assert(lv[j as int] == ls[j as int]@);
                }
                assert(j == desc_end(lv, i + 1));
                assert(desc_parts(lv, j as int, j as int) == Seq::<Seq<char>>::empty());
            }
            let p = package_of_block(line, &parts);
            out.push(p);
            proof {
                let b = (lv[i as int], desc_parts(lv, i + 1, j as int));
                assert(blocks(lv, i as int) == seq![b] + blocks(lv, j as int));
                done = done.push(b);
                assert(bs == done + blocks(lv, j as int));
                if j >= n {
                    assert(blocks(lv, j as int) == Seq::<(Seq<char>, Seq<Seq<char>>)>::empty());
                    assert(done + blocks(lv, j as int) == done);
                }
            }
            i = j;
            if limit != 0 && out.len() >= limit {
                proof {
                    assert(bs.len() >= done.len());
                    assert forall|m: int| 0 <= m < out@.len() implies block_package(
                        bs[m],
                        #[trigger] out@[m],
                    ) by {
                        assert(bs[m] == done[m]);
                    }
                }
                break;
            }
        }
    }
    out
}

proof fn lemma_desc_end_step(ls: Seq<Seq<char>>, k: int, j: int)
    requires
        0 <= k <= j < ls.len(),
        j < desc_end(ls, k),
    ensures
        desc_end(ls, k) == desc_end(ls, j),
    decreases j - k,
{
    lemma_desc_end(ls, k);
    if k < j {
        assert(!ends_desc(ls[k]));
        lemma_desc_end_step(ls, k + 1, j);
    }
}

/// What a `pacman -Ss` (or `-Qs`) run gives: its listing when it exited
/// successfully; otherwise an error when pacman reported one ("error:" or
/// "failed" on standard error), else no packages (pacman exits with failure when
/// nothing matches).
pub open spec fn fallback_result(
    exit_ok: bool,
    stderr: Seq<char>,
    stdout: Seq<char>,
    limit: usize,
    r: Result<Vec<Package>, String>,
) -> bool {
    if exit_ok {
        r matches Ok(v) && parsed_listing(stdout, limit, v@)
    } else if has_infix(stderr, "error:"@) || has_infix(stderr, "failed"@) {
        r matches Err(m) && m@ == "pacman failed: "@ + trim(stderr)
    } else {
        r matches Ok(v) && v@.len() == 0
    }
}

/// The outcome of a `pacman -Ss` (or `-Qs`) run (see `fallback_result`).
pub fn fallback_outcome(exit_ok: bool, stderr: &str, stdout: &str, limit: usize) -> (r: Result<
    Vec<Package>,
    String,
>)
    ensures
        fallback_result(exit_ok, stderr@, stdout@, limit, r),
{
    if exit_ok {
        return Ok(parse_pacman_listing(stdout, limit));
    }
    let e = chars_of(stderr);
    let marker = chars_of("error:");
    let failed = chars_of("failed");
    if contains_chars(&e, &marker) || contains_chars(&e, &failed) {
        let mut m = chars_of("pacman failed: ");
        let t = crate::text::trim_str(stderr);
        push_chars(&mut m, &t);
        Err(string_from_chars(m))
    } else {
        Ok(Vec::new())
    }
}

} // verus!
