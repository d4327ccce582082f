# pacseek

Search the official Arch/Artix repositories and the AUR in one command,
print the results or browse them in a full-screen terminal interface, and
install or remove packages from there.

The library (`src/`) holds the logic, with contracts checked by Verus:

- `cli`, `config`: command-line options, `config.toml` settings and how they
  combine (defaults < configuration < command line), theme style strings,
  the allow-listed pacman remove flags.
- `search`: the AUR request URL and what its reply becomes (regex filter,
  popularity ranking, limit), the repository filter and ordering over the
  packages libalpm offers, and the `pacman -Ss` text fallback.
- `tui`: the interface state machine — key bindings, popups, the result
  cache, debounced searches, stale results — answering each step with an
  action for the caller; and the texts, sizes and styles of the screen.
- `install`, `output`: the pacman/sudo/git command lines with the checks run
  before them, and what the one-shot search prints.

The program (`app/`) reads the command line and configuration files, talks
to libalpm, pacman and the AUR, runs the terminal loop and draws with
ratatui, carrying out the actions the library answers.

## The search cache

The interface remembers the results of recent queries. It keeps them as one
`Vec` of (query, results) entries, oldest first, in place of a `HashMap`
keyed by the query beside a `VecDeque` of queries in insertion order. vstd's
contracts for `HashMap` describe its contents only for key types that
satisfy `vstd::std_specs::hash::obeys_key_model`, which vstd establishes for
integers and `bool` but not for `String` (there it could only be assumed), so
the cache invariant and its laws could not have been proved over such a map. The `Vec` states
what the two structures kept together: no query occurs twice
(`tui::app::cache_wf`), the oldest entry leaves first once
`SEARCH_CACHE_CAP` is reached, and a result put under a query is found under
it again (`law_cache_put_get`).
