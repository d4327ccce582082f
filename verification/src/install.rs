//! The pacman, sudo and git command lines that installing, removing and
//! refreshing run, and the checks made before running them. Running the
//! commands (with the terminal handed to them) is the caller's part.
use vstd::prelude::*;

use crate::config::{remove_flag_of, Config};
use crate::text::{
    chars_of, contains_chars, has_infix, push_str, str_to_string,
    string_from_chars, trim, trim_str,
};

verus! {

/// The strings of a list of arguments.
pub open spec fn arg_texts(v: Seq<String>) -> Seq<Seq<char>> {
    v.map_values(|s: String| s@)
}

/// Arguments of `sudo` that refresh the sync databases: "pacman", "-Sy",
/// and "--noconfirm" when the configuration asks for it.
pub open spec fn refresh_args(noconfirm: bool) -> Seq<Seq<char>> {
    if noconfirm {
        seq!["pacman"@, "-Sy"@, "--noconfirm"@]
    } else {
        seq!["pacman"@, "-Sy"@]
    }
}

/// The arguments after `sudo` for refreshing the sync databases.
pub fn refresh_command_args(cfg: &Config) -> (r: Vec<String>)
    ensures
        arg_texts(r@) == refresh_args(cfg.behavior.remove_noconfirm),
{
    let mut args: Vec<String> = Vec::new();
    args.push(str_to_string("pacman"));
    args.push(str_to_string("-Sy"));
    if cfg.refresh_noconfirm() {
        args.push(str_to_string("--noconfirm"));
    }
    proof {
        assert(arg_texts(args@) =~= refresh_args(cfg.behavior.remove_noconfirm));
    }
    args
}

/// How `{:?}` shows a string: quoted, with escapes (named by `debug_quoted`).
pub uninterp spec fn debug_text(s: Seq<char>) -> Seq<char>;

/// Formats `s` with `{:?}` (the `Debug` of `str` in std): the text in
/// double quotes with special characters escaped. What it gives is named by
/// `debug_text`; the escaping rules are std's and not stated here.
#[verifier::external_body]
fn debug_quoted(s: &str) -> (r: String)
    ensures
        r@ == debug_text(s@),
{
    format!("{:?}", s)
}

/// The name holds a path separator, "..", or a NUL.
pub open spec fn unsafe_name(t: Seq<char>) -> bool {
    t.contains('/') || t.contains('\\') || has_infix(t, ".."@) || t.contains('\0')
}

/// Why a package name cannot be removed, if it cannot: blank, or holding a
/// path separator, ".." or a NUL (after trimming).
pub open spec fn remove_name_error(name: Seq<char>) -> Option<Seq<char>> {
    let t = trim(name);
    if t.len() == 0 {
        Some("empty package name"@)
    } else if unsafe_name(t) {
        Some("invalid package name: "@ + debug_text(t))
    } else {
        None
    }
}

/// The arguments after `sudo` that remove `name` (trimmed): "pacman", the
/// allow-listed flag, "--noconfirm" if asked for, and the name.
pub open spec fn remove_args(cfg: Config, env_noconfirm: bool, name: Seq<char>) -> Seq<Seq<char>> {
    let head = seq!["pacman"@, remove_flag_of(cfg.behavior.remove_flags@)];
    let mid = if cfg.behavior.remove_noconfirm || env_noconfirm {
        seq!["--noconfirm"@]
    } else {
        Seq::empty()
    };
    head + mid + seq![trim(name)]
}

/// `s` contains the character `c`.
fn has_char(s: &Vec<char>, c: char) -> (r: bool)
    ensures
        r == s@.contains(c),
{
    let i = crate::text::find_char(s, c);
    proof {
        crate::text::lemma_first_index_of(s@, c);
        if i < s.len() {
            assert(s@[i as int] == c);
        }
    }
    i < s.len()
}

/// Checks the name of a package to remove (see `remove_name_error`) and
/// gives its trimmed form.
pub fn check_remove_name(name: &str) -> (r: Result<String, String>)
    ensures
        remove_name_error(name@) is None ==> (r matches Ok(t) && t@ == trim(name@)),
        remove_name_error(name@) matches Some(e) ==> (r matches Err(m) && m@ == e),
{
    let t = trim_str(name);
    if t.len() == 0 {
        return Err(str_to_string("empty package name"));
    }
    let dots = chars_of("..");
    let bad = has_char(&t, '/') || has_char(&t, '\\') || contains_chars(&t, &dots) || has_char(
        &t,
        '\0',
    );
    let ts = string_from_chars(t);
    if bad {
        let mut out = chars_of("invalid package name: ");
        let q = debug_quoted(ts.as_str());
        push_str(&mut out, q.as_str());
        return Err(string_from_chars(out));
    }
    Ok(ts)
}

/// Plans removing `name` with the configuration `cfg`; `env_noconfirm`
/// says whether `PACSEEK_NOCONFIRM` is set. A name that fails validation
/// gives its error (see `remove_name_error`); otherwise the arguments after
/// `sudo` (see `remove_args`). The caller then checks that the package is
/// installed (`pacman -Q`), shows `pacman -Qi` and runs the command.
pub fn remove_package(name: &str, cfg: &Config, env_noconfirm: bool) -> (r: Result<
    Vec<String>,
    String,
>)
    ensures
        remove_name_error(name@) matches Some(e) ==> (r matches Err(m) && m@ == e),
        remove_name_error(name@) is None ==> (r matches Ok(v) && arg_texts(v@) == remove_args(
            *cfg,
            env_noconfirm,
            name@,
        )),
{
    let t = match check_remove_name(name) {
        Ok(t) => t,
        Err(e) => {
            return Err(e);
        },
    };
    let mut args: Vec<String> = Vec::new();
    args.push(str_to_string("pacman"));
    args.push(cfg.remove_flag_arg());
    if cfg.remove_noconfirm(env_noconfirm) {
        args.push(str_to_string("--noconfirm"));
    }
    args.push(t);
    proof {
        assert(arg_texts(args@) =~= remove_args(*cfg, env_noconfirm, name@));
    }
    Ok(args)
}

/// Whatever the configuration says, a removal runs `pacman` with one of
/// the allow-listed flags (`-R`, `-Rs`, `-Rns`, `-Ru`, `-Rsu`, `-Rn`, `-Rc`,
/// `-Rdd`), at most `--noconfirm` besides, and last the checked name, which
/// holds no path separator, "..", NUL or surrounding space.
pub proof fn law_remove_command_is_safe(cfg: Config, env_noconfirm: bool, name: Seq<char>)
    requires
        remove_name_error(name) is None,
    ensures
        ({
            let args = remove_args(cfg, env_noconfirm, name);
            &&& args[0] == "pacman"@
            &&& args[1].len() > 0 && args[1][0] == '-'
            &&& crate::config::allowed_remove_flag(args[1].drop_first())
            &&& (args.len() == 3 || (args.len() == 4 && args[2] == "--noconfirm"@))
            &&& args.last() == trim(name)
            &&& trim(name).len() > 0
            &&& !unsafe_name(args.last())
        }),
{
    let f = crate::text::strip_leading(trim(cfg.behavior.remove_flags@), '-');
    reveal_strlit("-Rs");
    reveal_strlit("Rs");
    if crate::config::allowed_remove_flag(f) {
        assert((seq!['-'] + f).drop_first() == f);
    } else {
        assert("-Rs"@.drop_first() == "Rs"@);
    }
}

/// The arguments after `sudo` that install `name` from the repositories:
/// "pacman", "-S", "--needed" and the name as given; a blank name is
/// refused with "empty package name".
pub fn install_repo_args(name: &str) -> (r: Result<Vec<String>, String>)
    ensures
        trim(name@).len() == 0 ==> (r matches Err(m) && m@ == "empty package name"@),
        trim(name@).len() != 0 ==> (r matches Ok(v) && arg_texts(v@) == seq![
            "pacman"@,
            "-S"@,
            "--needed"@,
            name@,
        ]),
{
    let t = trim_str(name);
    if t.len() == 0 {
        return Err(str_to_string("empty package name"));
    }
    let mut args: Vec<String> = Vec::new();
    args.push(str_to_string("pacman"));
    args.push(str_to_string("-S"));
    args.push(str_to_string("--needed"));
    args.push(str_to_string(name));
    proof {
        assert(arg_texts(args@) =~= seq!["pacman"@, "-S"@, "--needed"@, name@]);
    }
    Ok(args)
}

/// Why an AUR package cannot be built, if it cannot: makepkg must not run
/// as root, and the name (trimmed) must be neither blank nor hold a path
/// separator, "..", or a NUL (the policy of removal), so that it names a
/// directory inside the build cache.
pub open spec fn aur_install_error(is_root: bool, name: Seq<char>) -> Option<Seq<char>> {
    let t = trim(name);
    if is_root {
        Some(
            "AUR install must not run as root — run pacseek as normal user, sudo will be used for pacman -U"@,
        )
    } else if t.len() == 0 {
        Some("empty package name"@)
    } else if unsafe_name(t) {
        Some("invalid package name: "@ + debug_text(t))
    } else {
        None
    }
}

/// Where and how an AUR package is built.
#[derive(Debug)]
pub struct AurBuildPlan {
    /// The package's git repository.
    pub clone_url: String,
    /// The clone: a directory of the build cache named after the package.
    pub clone_dir: String,
    /// The arguments of `makepkg`, run in the clone.
    pub makepkg_args: Vec<String>,
}

/// The build cache: the configured `cache_dir`, else `pacseek` under the
/// user's cache directory `xdg_cache`.
pub open spec fn aur_cache_base(xdg_cache: Seq<char>, cfg: Config) -> Seq<char> {
    match cfg.behavior.cache_dir {
        Some(d) => d@,
        None => xdg_cache + "/pacseek"@,
    }
}

/// `makepkg -si`, with `--noconfirm` when the configuration asks for it.
pub open spec fn makepkg_args_of(cfg: Config) -> Seq<Seq<char>> {
    seq!["-si"@] + (if cfg.behavior.makepkg_noconfirm {
        seq!["--noconfirm"@]
    } else {
        Seq::empty()
    })
}

/// Checks an AUR build (see `aur_install_error`) and plans it: the git URL
/// "https://aur.archlinux.org/<name>.git", the clone directory
/// "<cache>/<name>" (see `aur_cache_base`) and the `makepkg` arguments,
/// with the trimmed name. `xdg_cache` is the user's cache directory (or
/// "/tmp" when there is none). The caller then clones or pulls, shows the
/// PKGBUILD and runs `makepkg` in the clone.
pub fn aur_build_plan(is_root: bool, name: &str, xdg_cache: &str, cfg: &Config) -> (r: Result<
    AurBuildPlan,
    String,
>)
    ensures
        aur_install_error(is_root, name@) matches Some(e) ==> (r matches Err(m) && m@ == e),
        aur_install_error(is_root, name@) is None ==> (r matches Ok(p) && {
            &&& p.clone_url@ == "https://aur.archlinux.org/"@ + trim(name@) + ".git"@
            &&& p.clone_dir@ == aur_cache_base(xdg_cache@, *cfg) + "/"@ + trim(name@)
            &&& arg_texts(p.makepkg_args@) == makepkg_args_of(*cfg)
        }),
{
    if is_root {
        return Err(
            str_to_string(
                "AUR install must not run as root — run pacseek as normal user, sudo will be used for pacman -U",
            ),
        );
    }
    let t = match check_remove_name(name) {
        Ok(t) => t,
        Err(e) => {
            return Err(e);
        },
    };
    let mut url = chars_of("https://aur.archlinux.org/");
    push_str(&mut url, t.as_str());
    push_str(&mut url, ".git");
    let mut dir: Vec<char> = match &cfg.behavior.cache_dir {
        Some(d) => chars_of(d.as_str()),
        None => {
            let mut v = chars_of(xdg_cache);
            push_str(&mut v, "/pacseek");
            v
        },
    };
    push_str(&mut dir, "/");
    push_str(&mut dir, t.as_str());
    let mut args: Vec<String> = Vec::new();
    args.push(str_to_string("-si"));
    if cfg.behavior.makepkg_noconfirm {
        args.push(str_to_string("--noconfirm"));
    }
    proof {
        assert(arg_texts(args@) =~= makepkg_args_of(*cfg));
    }
    Ok(AurBuildPlan { clone_url: string_from_chars(url), clone_dir: string_from_chars(dir), makepkg_args: args })
}

/// An AUR build that passes the checks clones into a directory directly
/// inside the build cache: the name added to the cache path is non-empty and
/// holds no path separator, "..", NUL or surrounding space.
pub proof fn law_aur_clone_stays_in_cache(is_root: bool, name: Seq<char>)
    requires
        aur_install_error(is_root, name) is None,
    ensures
        !is_root,
        trim(name).len() > 0,
        !trim(name).contains('/') && !trim(name).contains('\\'),
        !has_infix(trim(name), ".."@),
        !trim(name).contains('\0'),
{
}

} // verus!
