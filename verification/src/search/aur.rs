//! The AUR RPC v5 search: the request URL and what is made of the reply.
use vstd::prelude::*;

use crate::config::Config;
use crate::error::AppError;
use crate::model::{copy_opt_string, Package};
use crate::search::pattern::{regex_compiles, regex_matches, QueryRegex};
use crate::search::rank::{ranked_selection, sort_and_truncate};
use crate::text::{chars_of, push_chars, push_str, str_to_string, string_from_chars, trim, trim_str};

verus! {

/// One result of the RPC `search` call.
pub struct AurPackage {
    pub name: String,
    pub package_base: Option<String>,
    pub version: String,
    pub description: Option<String>,
    pub url: Option<String>,
    pub num_votes: Option<i32>,
    /// Bit pattern of the popularity score (`f64::to_bits`).
    pub popularity: Option<u64>,
    pub out_of_date: Option<i64>,
    pub maintainer: Option<String>,
    pub first_submitted: Option<i64>,
    pub last_modified: Option<i64>,
    pub depends: Option<Vec<String>>,
}

/// The RPC reply.
pub struct AurResponse {
    pub version: u32,
    /// "search", or "error" with `error` set.
    pub type_: String,
    pub resultcount: u32,
    pub results: Vec<AurPackage>,
    pub error: Option<String>,
}

/// `p` is the package record made of the RPC result `a`.
pub open spec fn converts_to(a: AurPackage, p: Package) -> bool {
    &&& p.name == a.name
    &&& p.version == a.version
    &&& p.description == a.description
    &&& p.repo@ == "aur"@
    &&& p.arch is None
    &&& p.url == a.url
    &&& !p.installed
    &&& p.votes == a.num_votes
    &&& p.popularity == a.popularity
    &&& p.out_of_date == a.out_of_date
    &&& p.maintainer == a.maintainer
    &&& p.num_votes == a.num_votes
    &&& p.last_modified == a.last_modified
}

/// The package record of an AUR result: repo "aur", not installed, votes
/// copied into both vote fields.
pub fn package_from_aur(a: &AurPackage) -> (p: Package)
    ensures
        converts_to(*a, p),
{
    Package {
        name: a.name.clone(),
        version: a.version.clone(),
        description: copy_opt_string(&a.description),
        repo: str_to_string("aur"),
        arch: None,
        url: copy_opt_string(&a.url),
        installed: false,
        votes: a.num_votes,
        popularity: a.popularity,
        out_of_date: a.out_of_date,
        maintainer: copy_opt_string(&a.maintainer),
        num_votes: a.num_votes,
        last_modified: a.last_modified,
    }
}

// ---- request URL -------------------------------------------------------------

/// Bytes that `application/x-www-form-urlencoded` leaves as they are.
pub open spec fn form_unchanged(b: u8) -> bool {
    ||| b == 42
    ||| b == 45
    ||| b == 46
    ||| (48 <= b && b <= 57)
    ||| (65 <= b && b <= 90)
    ||| b == 95
    ||| (97 <= b && b <= 122)
}

pub open spec fn hex_upper(d: u8) -> char {
    if d < 10 {
        ((d + 48) as u8) as char
    } else {
        ((d + 55) as u8) as char
    }
}

/// One byte, form-urlencoded: kept, '+' for space, or "%XX".
pub open spec fn form_encode_byte(b: u8) -> Seq<char> {
    if form_unchanged(b) {
        seq![b as char]
    } else if b == 32 {
        seq!['+']
    } else {
        seq!['%', hex_upper(b / 16), hex_upper(b % 16)]
    }
}

/// The form-urlencoded text of some bytes.
pub open spec fn form_encode(bs: Seq<u8>) -> Seq<char>
    decreases bs.len(),
{
    if bs.len() == 0 {
        seq![]
    } else {
        form_encode_byte(bs[0]) + form_encode(bs.drop_first())
    }
}

/// Every '+' replaced by "%20".
pub open spec fn plus_to_percent20(s: Seq<char>) -> Seq<char>
    decreases s.len(),
{
    if s.len() == 0 {
        seq![]
    } else {
        (if s[0] == '+' {
            "%20"@
        } else {
            seq![s[0]]
        }) + plus_to_percent20(s.drop_first())
    }
}

/// The query as it stands in the request path.
pub open spec fn encoded_query(q: Seq<char>) -> Seq<char> {
    plus_to_percent20(form_encode(vstd::utf8::encode_utf8(q)))
}

/// `{rpc}/search/{encoded query}?by={by}`
pub open spec fn search_url(rpc: Seq<char>, q: Seq<char>, by: Seq<char>) -> Seq<char> {
    rpc + "/search/"@ + encoded_query(q) + "?by="@ + by
}

/// Characters that stand in the encoded query: ASCII letters and digits,
/// `*-._` and the `%` of an escape.
pub open spec fn url_safe(c: char) -> bool {
    ||| ('0' <= c && c <= '9')
    ||| ('A' <= c && c <= 'Z')
    ||| ('a' <= c && c <= 'z')
    ||| c == '*'
    ||| c == '-'
    ||| c == '.'
    ||| c == '_'
    ||| c == '%'
}

proof fn lemma_form_encode_chars(bs: Seq<u8>)
    ensures
        forall|i: int|
            0 <= i < form_encode(bs).len() ==> url_safe(#[trigger] form_encode(bs)[i])
                || form_encode(bs)[i] == '+',
    decreases bs.len(),
{
    if bs.len() > 0 {
        lemma_form_encode_chars(bs.drop_first());
        let b = bs[0];
        let head = form_encode_byte(b);
        let rest = form_encode(bs.drop_first());
        assert(b / 16 < 16 && b % 16 < 16);
        assert forall|i: int| 0 <= i < head.len() implies url_safe(#[trigger] head[i])
            || head[i] == '+' by {
            if form_unchanged(b) {
                assert(head[i] == b as char);
            } else if b != 32 && i > 0 {
                let d: u8 = if i == 1 {
                    b / 16
                } else {
                    b % 16
                };
                assert(head[i] == hex_upper(d));
            }
        }
        assert forall|i: int| 0 <= i < form_encode(bs).len() implies url_safe(
            #[trigger] form_encode(bs)[i],
        ) || form_encode(bs)[i] == '+' by {
            if i < head.len() {
                assert(form_encode(bs)[i] == head[i]);
            } else {
                assert(form_encode(bs)[i] == rest[i - head.len()]);
            }
        }
    }
}

proof fn lemma_plus_to_percent20_chars(s: Seq<char>)
    requires
        forall|i: int| 0 <= i < s.len() ==> url_safe(#[trigger] s[i]) || s[i] == '+',
    ensures
        forall|i: int|
            0 <= i < plus_to_percent20(s).len() ==> url_safe(#[trigger] plus_to_percent20(s)[i]),
    decreases s.len(),
{
    if s.len() > 0 {
        assert forall|i: int| 0 <= i < s.drop_first().len() implies url_safe(
            #[trigger] s.drop_first()[i],
        ) || s.drop_first()[i] == '+' by {
            assert(s.drop_first()[i] == s[i + 1]);
        }
        lemma_plus_to_percent20_chars(s.drop_first());
        reveal_strlit("%20");
        let head = if s[0] == '+' {
            "%20"@
        } else {
            seq![s[0]]
        };
        let rest = plus_to_percent20(s.drop_first());
        assert forall|i: int| 0 <= i < plus_to_percent20(s).len() implies url_safe(
            #[trigger] plus_to_percent20(s)[i],
        ) by {
            if i < head.len() {
                assert(plus_to_percent20(s)[i] == head[i]);
            } else {
                assert(plus_to_percent20(s)[i] == rest[i - head.len()]);
            }
        }
    }
}

/// Whatever the query holds, its encoded form in the request path has only
/// ASCII letters, digits, `*-._` and `%`: no space, slash, '?', '&' or '#'
/// can change the request.
pub proof fn law_encoded_query_is_url_safe(q: Seq<char>)
    ensures
        forall|i: int|
            0 <= i < encoded_query(q).len() ==> url_safe(#[trigger] encoded_query(q)[i]),
{
    let bs = vstd::utf8::encode_utf8(q);
    lemma_form_encode_chars(bs);
    lemma_plus_to_percent20_chars(form_encode(bs));
}

/// Calls `url::form_urlencoded::byte_serialize` on the UTF-8 bytes of `s`
/// and collects the pieces; per the crate's source, ASCII letters, digits and
/// `*-._` stay, a space becomes '+', every other byte becomes "%XX" in
/// upper-case hex.
#[verifier::external_body]
fn form_urlencode(s: &str) -> (r: String)
    ensures
        r@ == form_encode(vstd::utf8::encode_utf8(s@)),
{
    url::form_urlencoded::byte_serialize(s.as_bytes()).collect::<String>()
}

fn replace_plus(v: &Vec<char>) -> (r: Vec<char>)
    ensures
        r@ == plus_to_percent20(v@),
{
    let mut out: Vec<char> = Vec::new();
    let n = v.len();
    let mut k: usize = 0;
    assert(v@.subrange(0, n as int) == v@);
    while k < n
        invariant
            k <= n == v.len(),
            plus_to_percent20(v@) == out@ + plus_to_percent20(v@.subrange(k as int, n as int)),
        decreases n - k,
    {
        let ghost rest = v@.subrange(k as int, n as int);
        assert(rest.drop_first() == v@.subrange(k + 1, n as int));
        assert(rest[0] == v@[k as int]);
        if v[k] == '+' {
            push_str(&mut out, "%20");
        } else {
            out.push(v[k]);
        }
        k = k + 1;
    }
    assert(v@.subrange(n as int, n as int) == Seq::<char>::empty());
    out
}

/// The AUR RPC endpoint of the configuration (see `Config::aur_rpc_url`).
pub fn aur_rpc_with_config(cfg: &Config) -> (r: String)
    ensures
        r@ == (match cfg.behavior.aur_rpc {
            Some(x) => x@,
            None => crate::config::default_aur_rpc(),
        }),
{
    cfg.aur_rpc_url()
}

/// The search URL for a query, or `None` for a blank query (nothing is
/// searched then).
pub fn aur_search_url(cfg: &Config, query: &str, by: &str) -> (r: Option<String>)
    ensures
        trim(query@).len() == 0 ==> r is None,
        trim(query@).len() != 0 ==> (r matches Some(u) && u@ == search_url(
            match cfg.behavior.aur_rpc {
                Some(x) => x@,
                None => crate::config::default_aur_rpc(),
            },
            query@,
            by@,
        )),
{
    let t = trim_str(query);
    if t.len() == 0 {
        return None;
    }
    let encoded = form_urlencode(query);
    let ev = chars_of(encoded.as_str());
    let replaced = replace_plus(&ev);
    let rpc = aur_rpc_with_config(cfg);
    let mut out = chars_of(rpc.as_str());
    push_str(&mut out, "/search/");
    push_chars(&mut out, &replaced);
    push_str(&mut out, "?by=");
    push_str(&mut out, by);
    Some(string_from_chars(out))
}

// ---- reply -----------------------------------------------------------------

/// A package is kept by `--regex` when the pattern matches its name or its
/// description.
pub open spec fn regex_keeps(pattern: Seq<char>, p: Package) -> bool {
    regex_matches(pattern, p.name@) || match p.description {
        Some(d) => regex_matches(pattern, d@),
        None => false,
    }
}

/// The message of an error reply.
pub open spec fn aur_error_message(resp: AurResponse) -> Seq<char> {
    match resp.error {
        Some(m) => m@,
        None => "unknown AUR error"@,
    }
}

/// `out` is what a successful reply gives: the results as package records,
/// in order, those the pattern does not match dropped (with `--regex`), then
/// ranked and cut to `limit`.
pub open spec fn aur_results(
    results: Seq<AurPackage>,
    query: Seq<char>,
    limit: usize,
    use_regex: bool,
    out: Seq<Package>,
) -> bool {
    exists|conv: Seq<Package>|
        {
            &&& conv.len() == results.len()
            &&& forall|i: int| 0 <= i < results.len() ==> converts_to(results[i], #[trigger] conv[i])
            &&& ranked_selection(
                if use_regex {
                    conv.filter(|p: Package| regex_keeps(query, p))
                } else {
                    conv
                },
                out,
                limit,
            )
        }
}

/// Turns an RPC reply into search results. An "error" reply gives
/// `AppError::Aur` with its message; with `use_regex` a query that does not
/// compile gives `AppError::Regex`; otherwise the results, filtered by the
/// regex if asked, sorted by popularity then votes and cut to `limit`.
pub fn finish_aur_search(resp: AurResponse, query: &str, limit: usize, use_regex: bool) -> (r: Result<
    Vec<Package>,
    AppError,
>)
    ensures
        resp.type_@ == "error"@ ==> (r matches Err(AppError::Aur(m)) && m@ == aur_error_message(
            resp,
        )),
        resp.type_@ != "error"@ && use_regex && !regex_compiles(query@) ==> r matches Err(
            AppError::Regex(_),
        ),
        resp.type_@ != "error"@ && (!use_regex || regex_compiles(query@)) ==> (r matches Ok(v)
            && aur_results(resp.results@, query@, limit, use_regex, v@)),
{
    if crate::text::str_eq(resp.type_.as_str(), "error") {
        let msg = match &resp.error {
            Some(m) => m.clone(),
            None => str_to_string("unknown AUR error"),
        };
        return Err(AppError::Aur(msg));
    }
    let ghost results = resp.results@;
    let mut conv: Vec<Package> = Vec::new();
    let mut k: usize = 0;
    while k < resp.results.len()
        invariant
            k <= resp.results.len(),
            results == resp.results@,
            conv@.len() == k,
            forall|i: int| 0 <= i < k ==> converts_to(results[i], #[trigger] conv@[i]),
        decreases resp.results.len() - k,
    {
        conv.push(package_from_aur(&resp.results[k]));
        k = k + 1;
    }
    let mut kept: Vec<Package>;
    if use_regex {
        let re = match QueryRegex::new(query) {
            Ok(re) => re,
            Err(e) => return Err(AppError::Regex(e)),
        };
        kept = Vec::new();
        let ghost pred = |p: Package| regex_keeps(query@, p);
        let mut j: usize = 0;
        while j < conv.len()
            invariant
                j <= conv.len(),
                re.source() == query@,
                pred == (|p: Package| regex_keeps(query@, p)),
                kept@ == conv@.take(j as int).filter(pred),
            decreases conv.len() - j,
        {
            let p = &conv[j];
            let hit = re.is_match(p.name.as_str()) || match &p.description {
                Some(d) => re.is_match(d.as_str()),
                None => false,
            };
            proof {
                assert(conv@.take(j + 1).drop_last() == conv@.take(j as int));
                reveal(Seq::filter);
            }
            if hit {
                kept.push(p.duplicate());
            }
            j = j + 1;
        }
        assert(conv@.take(conv.len() as int) == conv@);
    } else {
        kept = conv;
    }
    let ghost filtered = kept@;
    sort_and_truncate(&mut kept, limit);
    Ok(kept)
}

} // verus!
