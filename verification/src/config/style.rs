//! Theme strings ("black on cyan bold") turned into styles.
//!
//! `Style` holds what the interface reads of a terminal style: a foreground and
//! a background colour and a set of added modifiers. `Style::default()` has
//! none of them; `fg`, `bg` and `add_modifier` set one each.
use vstd::prelude::*;

use crate::config::ThemeConfig;
use crate::text::{
    chars_eq_str, chars_of, find_char, first_index_of, has_prefix, lowercase, starts_with_chars,
    string_from_chars, sub_chars, to_lowercase, trim,
    trim_chars,
};

verus! {

/// Terminal colours that theme strings can name.
#[derive(Copy, Clone, Debug, PartialEq, Eq, Structural)]
pub enum Color {
    Black,
    Red,
    Green,
    Yellow,
    Blue,
    Magenta,
    Cyan,
    Gray,
    DarkGray,
    White,
    Reset,
}

/// Text modifiers that theme strings can name.
#[derive(Copy, Clone, Debug, PartialEq, Eq, Structural)]
pub enum Modifier {
    Bold,
    Dim,
    Italic,
    Underlined,
    Reversed,
    CrossedOut,
}

/// A set of modifiers.
#[derive(Copy, Clone, Debug, PartialEq, Eq, Structural)]
pub struct Modifiers {
    pub bold: bool,
    pub dim: bool,
    pub italic: bool,
    pub underlined: bool,
    pub reversed: bool,
    pub crossed_out: bool,
}

pub open spec fn has_modifier(s: Modifiers, m: Modifier) -> bool {
    match m {
        Modifier::Bold => s.bold,
        Modifier::Dim => s.dim,
        Modifier::Italic => s.italic,
        Modifier::Underlined => s.underlined,
        Modifier::Reversed => s.reversed,
        Modifier::CrossedOut => s.crossed_out,
    }
}

pub open spec fn no_modifiers() -> Modifiers {
    Modifiers {
        bold: false,
        dim: false,
        italic: false,
        underlined: false,
        reversed: false,
        crossed_out: false,
    }
}

pub open spec fn with_modifier(s: Modifiers, m: Modifier) -> Modifiers {
    match m {
        Modifier::Bold => Modifiers { bold: true, ..s },
        Modifier::Dim => Modifiers { dim: true, ..s },
        Modifier::Italic => Modifiers { italic: true, ..s },
        Modifier::Underlined => Modifiers { underlined: true, ..s },
        Modifier::Reversed => Modifiers { reversed: true, ..s },
        Modifier::CrossedOut => Modifiers { crossed_out: true, ..s },
    }
}

pub open spec fn union_modifiers(a: Modifiers, b: Modifiers) -> Modifiers {
    Modifiers {
        bold: a.bold || b.bold,
        dim: a.dim || b.dim,
        italic: a.italic || b.italic,
        underlined: a.underlined || b.underlined,
        reversed: a.reversed || b.reversed,
        crossed_out: a.crossed_out || b.crossed_out,
    }
}

impl Modifiers {
    pub fn empty() -> (r: Modifiers)
        ensures
            r == no_modifiers(),
    {
        Modifiers {
            bold: false,
            dim: false,
            italic: false,
            underlined: false,
            reversed: false,
            crossed_out: false,
        }
    }

    /// Whether `m` is in the set.
    pub fn contains(&self, m: Modifier) -> (r: bool)
        ensures
            r == has_modifier(*self, m),
    {
        match m {
            Modifier::Bold => self.bold,
            Modifier::Dim => self.dim,
            Modifier::Italic => self.italic,
            Modifier::Underlined => self.underlined,
            Modifier::Reversed => self.reversed,
            Modifier::CrossedOut => self.crossed_out,
        }
    }

    /// The set with `m` added.
    pub fn insert(self, m: Modifier) -> (r: Modifiers)
        ensures
            r == with_modifier(self, m),
    {
        match m {
            Modifier::Bold => Modifiers { bold: true, ..self },
            Modifier::Dim => Modifiers { dim: true, ..self },
            Modifier::Italic => Modifiers { italic: true, ..self },
            Modifier::Underlined => Modifiers { underlined: true, ..self },
            Modifier::Reversed => Modifiers { reversed: true, ..self },
            Modifier::CrossedOut => Modifiers { crossed_out: true, ..self },
        }
    }

    /// Both sets together.
    pub fn union(self, other: Modifiers) -> (r: Modifiers)
        ensures
            r == union_modifiers(self, other),
    {
        Modifiers {
            bold: self.bold || other.bold,
            dim: self.dim || other.dim,
            italic: self.italic || other.italic,
            underlined: self.underlined || other.underlined,
            reversed: self.reversed || other.reversed,
            crossed_out: self.crossed_out || other.crossed_out,
        }
    }
}

/// Foreground, background and added modifiers of a piece of text.
#[derive(Copy, Clone, Debug, PartialEq, Eq, Structural)]
pub struct Style {
    pub fg: Option<Color>,
    pub bg: Option<Color>,
    pub add_modifier: Modifiers,
}

pub open spec fn plain_style() -> Style {
    Style { fg: None, bg: None, add_modifier: no_modifiers() }
}

impl Default for Style {
    fn default() -> (r: Style)
        ensures
            r == plain_style(),
    {
        Style { fg: None, bg: None, add_modifier: Modifiers::empty() }
    }
}

impl Style {
    pub fn fg(self, c: Color) -> (r: Style)
        ensures
            r == (Style { fg: Some(c), ..self }),
    {
        Style { fg: Some(c), ..self }
    }

    pub fn bg(self, c: Color) -> (r: Style)
        ensures
            r == (Style { bg: Some(c), ..self }),
    {
        Style { bg: Some(c), ..self }
    }

    pub fn add_modifier(self, m: Modifier) -> (r: Style)
        ensures
            r == (Style { add_modifier: with_modifier(self.add_modifier, m), ..self }),
    {
        Style { add_modifier: self.add_modifier.insert(m), ..self }
    }

    pub fn add_modifiers(self, m: Modifiers) -> (r: Style)
        ensures
            r == (Style { add_modifier: union_modifiers(self.add_modifier, m), ..self }),
    {
        Style { add_modifier: self.add_modifier.union(m), ..self }
    }
}

/// Border drawing styles.
#[derive(Copy, Clone, Debug, PartialEq, Eq, Structural)]
pub enum BorderKind {
    Plain,
    Rounded,
    Double,
    Thick,
}

// ---- colours ---------------------------------------------------------------

/// The colour named by a trimmed, lower-cased word; unknown words reset.
pub open spec fn color_named(t: Seq<char>) -> Color {
    if t == "black"@ {
        Color::Black
    } else if t == "red"@ {
        Color::Red
    } else if t == "green"@ {
        Color::Green
    } else if t == "yellow"@ {
        Color::Yellow
    } else if t == "blue"@ {
        Color::Blue
    } else if t == "magenta"@ || t == "bright_magenta"@ {
        Color::Magenta
    } else if t == "cyan"@ {
        Color::Cyan
    } else if t == "gray"@ || t == "grey"@ {
        Color::Gray
    } else if t == "dark_gray"@ || t == "darkgray"@ || t == "dark-grey"@ {
        Color::DarkGray
    } else if t == "white"@ {
        Color::White
    } else {
        Color::Reset
    }
}

/// `parse_color`: the colour named by `s`, ignoring case and surrounding space.
pub open spec fn color_of(s: Seq<char>) -> Color {
    color_named(lowercase(trim(s)))
}

pub fn color_from_name(t: &Vec<char>) -> (r: Color)
    ensures
        r == color_named(t@),
{
    if chars_eq_str(t, "black") {
        Color::Black
    } else if chars_eq_str(t, "red") {
        Color::Red
    } else if chars_eq_str(t, "green") {
        Color::Green
    } else if chars_eq_str(t, "yellow") {
        Color::Yellow
    } else if chars_eq_str(t, "blue") {
        Color::Blue
    } else if chars_eq_str(t, "magenta") || chars_eq_str(t, "bright_magenta") {
        Color::Magenta
    } else if chars_eq_str(t, "cyan") {
        Color::Cyan
    } else if chars_eq_str(t, "gray") || chars_eq_str(t, "grey") {
        Color::Gray
    } else if chars_eq_str(t, "dark_gray") || chars_eq_str(t, "darkgray") || chars_eq_str(
        t,
        "dark-grey",
    ) {
        Color::DarkGray
    } else if chars_eq_str(t, "white") {
        Color::White
    } else {
        Color::Reset
    }
}

fn lower_trimmed(v: &Vec<char>) -> (r: Vec<char>)
    ensures
        r@ == lowercase(trim(v@)),
{
    let t = trim_chars(v);
    let ts = string_from_chars(t);
    let l = to_lowercase(ts.as_str());
    chars_of(l.as_str())
}

fn color_of_chars(v: &Vec<char>) -> (r: Color)
    ensures
        r == color_of(v@),
{
    let t = lower_trimmed(v);
    color_from_name(&t)
}

/// A colour name such as "cyan", "dark_gray" or "grey", ignoring case and
/// surrounding space; unknown names give `Color::Reset`.
pub fn parse_color(s: &str) -> (r: Color)
    ensures
        r == color_of(s@),
{
    let v = chars_of(s);
    color_of_chars(&v)
}

/// "plain"/"line", "double", "thick"; anything else is rounded.
pub open spec fn border_of(s: Seq<char>) -> BorderKind {
    let t = lowercase(trim(s));
    if t == "plain"@ || t == "line"@ {
        BorderKind::Plain
    } else if t == "double"@ {
        BorderKind::Double
    } else if t == "thick"@ {
        BorderKind::Thick
    } else {
        BorderKind::Rounded
    }
}

/// Border kind named by `[tui] border`.
pub fn border_type_from_str(s: &str) -> (r: BorderKind)
    ensures
        r == border_of(s@),
{
    let v = chars_of(s);
    let t = lower_trimmed(&v);
    if chars_eq_str(&t, "plain") || chars_eq_str(&t, "line") {
        BorderKind::Plain
    } else if chars_eq_str(&t, "double") {
        BorderKind::Double
    } else if chars_eq_str(&t, "thick") {
        BorderKind::Thick
    } else {
        BorderKind::Rounded
    }
}

// ---- style strings ---------------------------------------------------------

/// Token separators of a style string.
pub open spec fn is_sep(c: char) -> bool {
    c == ' ' || c == ',' || c == '+'
}

/// Index of the first separator in `s`, or `s.len()`.
pub open spec fn first_sep(s: Seq<char>) -> int
    decreases s.len(),
{
    if s.len() == 0 {
        0
    } else if is_sep(s[0]) {
        0
    } else {
        1 + first_sep(s.drop_first())
    }
}

pub proof fn lemma_first_sep(s: Seq<char>)
    ensures
        0 <= first_sep(s) <= s.len(),
    decreases s.len(),
{
    if s.len() > 0 && !is_sep(s[0]) {
        lemma_first_sep(s.drop_first());
    }
}

pub proof fn lemma_first_sep_unique(s: Seq<char>, i: int)
    requires
        0 <= i <= s.len(),
        i < s.len() ==> is_sep(s[i]),
        forall|k: int| 0 <= k < i ==> !is_sep(#[trigger] s[k]),
    ensures
        first_sep(s) == i,
    decreases s.len(),
{
    if s.len() > 0 && !is_sep(s[0]) {
        assert forall|k: int| 0 <= k < i - 1 implies !is_sep(#[trigger] s.drop_first()[k]) by {
            assert(s.drop_first()[k] == s[k + 1]);
        }
        lemma_first_sep_unique(s.drop_first(), i - 1);
    }
}

/// The pieces of `s` between separators, empty pieces included (`str::split`).
pub open spec fn split_seps(s: Seq<char>) -> Seq<Seq<char>>
    decreases s.len(),
{
    let i = first_sep(s);
    proof {
        lemma_first_sep(s);
    }
    if i < s.len() {
        seq![s.subrange(0, i)] + split_seps(s.subrange(i + 1, s.len() as int))
    } else {
        seq![s]
    }
}

/// Pieces trimmed and lower-cased, empty ones dropped.
pub open spec fn style_tokens(p: Seq<Seq<char>>) -> Seq<Seq<char>>
    decreases p.len(),
{
    if p.len() == 0 {
        seq![]
    } else {
        let t = lowercase(trim(p[0]));
        (if t.len() > 0 {
            seq![t]
        } else {
            seq![]
        }) + style_tokens(p.drop_first())
    }
}

/// The tokens of a style string.
pub open spec fn tokens_of(s: Seq<char>) -> Seq<Seq<char>> {
    style_tokens(split_seps(s))
}

/// `t` is one of the colour words that set the foreground.
pub open spec fn is_color_word(t: Seq<char>) -> bool {
    ||| t == "black"@
    ||| t == "red"@
    ||| t == "green"@
    ||| t == "yellow"@
    ||| t == "blue"@
    ||| t == "magenta"@
    ||| t == "bright_magenta"@
    ||| t == "cyan"@
    ||| t == "gray"@
    ||| t == "grey"@
    ||| t == "dark_gray"@
    ||| t == "darkgray"@
    ||| t == "white"@
}

/// Every leading "on" removed.
pub open spec fn strip_on(t: Seq<char>) -> Seq<char>
    decreases t.len(),
{
    if t.len() >= 2 && t[0] == 'o' && t[1] == 'n' {
        strip_on(t.subrange(2, t.len() as int))
    } else {
        t
    }
}

/// The colour part of "oncyan", "on_cyan", "on-cyan": leading "on"s, then
/// leading '_', '-', ':' removed.
pub open spec fn on_suffix(t: Seq<char>) -> Seq<char> {
    strip_seps_of_on(strip_on(t))
}

pub open spec fn is_on_sep(c: char) -> bool {
    c == '_' || c == '-' || c == ':'
}

pub open spec fn strip_seps_of_on(t: Seq<char>) -> Seq<char>
    decreases t.len(),
{
    if t.len() > 0 && is_on_sep(t[0]) {
        strip_seps_of_on(t.drop_first())
    } else {
        t
    }
}

/// The style after one token other than "on".
pub open spec fn apply_token(t: Seq<char>, st: Style) -> Style {
    if t == "none"@ {
        st
    } else if t == "reset"@ {
        plain_style()
    } else if t == "bold"@ {
        Style { add_modifier: with_modifier(st.add_modifier, Modifier::Bold), ..st }
    } else if t == "dim"@ {
        Style { add_modifier: with_modifier(st.add_modifier, Modifier::Dim), ..st }
    } else if t == "italic"@ {
        Style { add_modifier: with_modifier(st.add_modifier, Modifier::Italic), ..st }
    } else if t == "underlined"@ || t == "underline"@ {
        Style { add_modifier: with_modifier(st.add_modifier, Modifier::Underlined), ..st }
    } else if t == "reversed"@ || t == "reverse"@ || t == "invert"@ {
        Style { add_modifier: with_modifier(st.add_modifier, Modifier::Reversed), ..st }
    } else if t == "crossedout"@ || t == "crossed_out"@ {
        Style { add_modifier: with_modifier(st.add_modifier, Modifier::CrossedOut), ..st }
    } else if has_prefix(t, "on:"@) || has_prefix(t, "bg:"@) {
        Style { bg: Some(color_of(t.subrange(first_index_of(t, ':') + 1, t.len() as int))), ..st }
    } else if has_prefix(t, "on"@) && t.len() > 2 {
        if on_suffix(t).len() > 0 {
            Style { bg: Some(color_of(on_suffix(t))), ..st }
        } else {
            st
        }
    } else if is_color_word(t) {
        Style { fg: Some(color_of(t)), ..st }
    } else {
        st
    }
}

/// The style after the tokens from index `i` on: "on" takes the next token
/// as background colour.
pub open spec fn style_fold(toks: Seq<Seq<char>>, i: int, st: Style) -> Style
    decreases toks.len() - i,
{
    if i < 0 || i >= toks.len() {
        st
    } else if toks[i] == "on"@ {
        if i + 1 < toks.len() {
            style_fold(toks, i + 2, Style { bg: Some(color_of(toks[i + 1])), ..st })
        } else {
            st
        }
    } else {
        style_fold(toks, i + 1, apply_token(toks[i], st))
    }
}

/// `parse_style`: the style described by a theme string.
pub open spec fn style_of(s: Seq<char>) -> Style {
    style_fold(tokens_of(s), 0, plain_style())
}

/// Every leading "on" removed.
fn strip_on_chars(t: &Vec<char>) -> (r: Vec<char>)
    ensures
        r@ == strip_on(t@),
{
    let n = t.len();
    let mut i: usize = 0;
    assert(t@.subrange(0, n as int) == t@);
    while n - i >= 2 && t[i] == 'o' && t[i + 1] == 'n'
        invariant
            i <= n == t.len(),
            strip_on(t@) == strip_on(t@.subrange(i as int, n as int)),
        decreases n - i,
    {
        assert(t@.subrange(i as int, n as int).subrange(2, n - i) == t@.subrange(i + 2, n as int));
        i = i + 2;
    }
    sub_chars(t, i, n)
}

fn strip_on_seps(t: &Vec<char>) -> (r: Vec<char>)
    ensures
        r@ == strip_seps_of_on(t@),
{
    let n = t.len();
    let mut i: usize = 0;
    assert(t@.subrange(0, n as int) == t@);
    while i < n && (t[i] == '_' || t[i] == '-' || t[i] == ':')
        invariant
            i <= n == t.len(),
            strip_seps_of_on(t@) == strip_seps_of_on(t@.subrange(i as int, n as int)),
        decreases n - i,
    {
        assert(t@.subrange(i as int, n as int).drop_first() == t@.subrange(i + 1, n as int));
        i = i + 1;
    }
    sub_chars(t, i, n)
}

fn is_color_word_exec(t: &Vec<char>) -> (r: bool)
    ensures
        r == is_color_word(t@),
{
    chars_eq_str(t, "black") || chars_eq_str(t, "red") || chars_eq_str(t, "green")
        || chars_eq_str(t, "yellow") || chars_eq_str(t, "blue") || chars_eq_str(t, "magenta")
        || chars_eq_str(t, "bright_magenta") || chars_eq_str(t, "cyan") || chars_eq_str(
        t,
        "gray",
    ) || chars_eq_str(t, "grey") || chars_eq_str(t, "dark_gray") || chars_eq_str(t, "darkgray")
        || chars_eq_str(t, "white")
}

fn apply_token_exec(t: &Vec<char>, st: Style) -> (r: Style)
    ensures
        r == apply_token(t@, st),
{
    let on_colon = chars_of("on:");
    let bg_colon = chars_of("bg:");
    let on = chars_of("on");
    if chars_eq_str(t, "none") {
        st
    } else if chars_eq_str(t, "reset") {
        Style::default()
    } else if chars_eq_str(t, "bold") {
        st.add_modifier(Modifier::Bold)
    } else if chars_eq_str(t, "dim") {
        st.add_modifier(Modifier::Dim)
    } else if chars_eq_str(t, "italic") {
        st.add_modifier(Modifier::Italic)
    } else if chars_eq_str(t, "underlined") || chars_eq_str(t, "underline") {
        st.add_modifier(Modifier::Underlined)
    } else if chars_eq_str(t, "reversed") || chars_eq_str(t, "reverse") || chars_eq_str(
        t,
        "invert",
    ) {
        st.add_modifier(Modifier::Reversed)
    } else if chars_eq_str(t, "crossedout") || chars_eq_str(t, "crossed_out") {
        st.add_modifier(Modifier::CrossedOut)
    } else if starts_with_chars(t, &on_colon) || starts_with_chars(t, &bg_colon) {
        let k = find_char(t, ':');
        proof {
            crate::text::lemma_first_index_of(t@, ':');
            reveal_strlit("on:");
            reveal_strlit("bg:");
            if has_prefix(t@, "on:"@) {
                assert(t@.subrange(0, 3)[2] == t@[2]);
            } else {
                assert(t@.subrange(0, 3)[2] == t@[2]);
            }
            assert(t@[2] == ':');
        }
        let c = sub_chars(t, k + 1, t.len());
        st.bg(color_of_chars(&c))
    } else if starts_with_chars(t, &on) && t.len() > 2 {
        let a = strip_on_chars(t);
        let c = strip_on_seps(&a);
        if c.len() > 0 {
            st.bg(color_of_chars(&c))
        } else {
            st
        }
    } else if is_color_word_exec(t) {
        st.fg(color_of_chars(t))
    } else {
        st
    }
}

/// The tokens of a style string: pieces between ' ', ',' and '+', trimmed,
/// lower-cased, empty ones dropped.
fn style_tokens_exec(s: &str) -> (r: Vec<Vec<char>>)
    ensures
        r@.map_values(|t: Vec<char>| t@) == tokens_of(s@),
{
    let v = chars_of(s);
    let n = v.len();
    let mut toks: Vec<Vec<char>> = Vec::new();
    let mut start: usize = 0;
    let mut k: usize = 0;
    assert(v@.subrange(0, n as int) == v@);
    while k < n
        invariant
            start <= k <= n == v.len(),
            forall|m: int| start <= m < k ==> !is_sep(#[trigger] v@[m]),
            tokens_of(v@) == toks@.map_values(|t: Vec<char>| t@) + style_tokens(
                split_seps(v@.subrange(start as int, n as int)),
            ),
        decreases n - k,
    {
        let c = v[k];
        if c == ' ' || c == ',' || c == '+' {
            let piece = sub_chars(&v, start, k);
            let ghost rest = v@.subrange(start as int, n as int);
            proof {
                assert forall|m: int| 0 <= m < k - start implies !is_sep(#[trigger] rest[m]) by {
                    assert(rest[m] == v@[start + m]);
                }
                lemma_first_sep_unique(rest, k - start);
                assert(rest.subrange(0, k - start) == piece@);
                assert(rest.subrange(k - start + 1, rest.len() as int) == v@.subrange(
                    k + 1,
                    n as int,
                ));
                assert(split_seps(rest) == seq![piece@] + split_seps(
                    v@.subrange(k + 1, n as int),
                ));
                let sp = split_seps(rest);
                assert(sp[0] == piece@);
                assert(sp.drop_first() == split_seps(v@.subrange(k + 1, n as int)));
            }
            let tok = lower_trimmed(&piece);
            let ghost before = toks@.map_values(|t: Vec<char>| t@);
            if tok.len() > 0 {
                toks.push(tok);
                assert(toks@.map_values(|t: Vec<char>| t@) == before.push(tok@));
            }
            start = k + 1;
        }
        k = k + 1;
    }
    let piece = sub_chars(&v, start, n);
    let ghost rest = v@.subrange(start as int, n as int);
    proof {
        assert forall|m: int| 0 <= m < n - start implies !is_sep(#[trigger] rest[m]) by {
            assert(rest[m] == v@[start + m]);
        }
        lemma_first_sep_unique(rest, n - start);
        assert(split_seps(rest) == seq![rest]);
        assert(split_seps(rest).drop_first() == Seq::<Seq<char>>::empty());
        assert(style_tokens(Seq::<Seq<char>>::empty()) == Seq::<Seq<char>>::empty());
    }
    let tok = lower_trimmed(&piece);
    let ghost before = toks@.map_values(|t: Vec<char>| t@);
    if tok.len() > 0 {
        toks.push(tok);
        assert(toks@.map_values(|t: Vec<char>| t@) == before.push(tok@));
    }
    toks
}

/// Parses "fg on bg modifiers", e.g. "black on cyan bold" or "cyan bold".
/// Tokens are split on space, comma and plus; "on" takes the next token as
/// background colour; "on:red", "bg:red", "onred", "on_red" set the
/// background too; unknown tokens are ignored.
pub fn parse_style(s: &str) -> (r: Style)
    ensures
        r == style_of(s@),
{
    let toks = style_tokens_exec(s);
    let ghost tv = toks@.map_values(|t: Vec<char>| t@);
    let mut style = Style::default();
    let mut i: usize = 0;
    let n = toks.len();
    while i < n
        invariant
            n == toks.len(),
            tv == toks@.map_values(|t: Vec<char>| t@),
            tv == tokens_of(s@),
            i <= n,
            style_of(s@) == style_fold(tv, i as int, style),
        decreases n - i,
    {
        assert(tv[i as int] == toks[i as int]@);
        if chars_eq_str(&toks[i], "on") {
            if i + 1 < n {
                assert(tv[i + 1] == toks[i + 1 as int]@);
                style = style.bg(color_of_chars(&toks[i + 1]));
                i = i + 2;
            } else {
                i = n;
            }
        } else {
            style = apply_token_exec(&toks[i], style);
            i = i + 1;
        }
    }
    style
}

// ---- pre-parsed theme ------------------------------------------------------

/// Theme styles parsed once, so that drawing does not parse strings per frame.
pub struct ThemeStyles {
    pub border_focused: Style,
    pub border_unfocused: Style,
    pub border_error: Style,
    pub text: Style,
    pub text_dim: Style,
    pub repo_core: Style,
    pub repo_extra: Style,
    pub repo_multilib: Style,
    pub repo_aur: Style,
    pub repo_other: Style,
    pub repo_local: Style,
    pub installed: Style,
    pub out_of_date: Style,
    pub votes: Style,
    pub version: Style,
    pub highlight: Style,
    pub status_loading: Style,
    pub status_idle: Style,
    pub help: Style,
    pub popup_title: Style,
    pub popup_bg: Style,
    pub tab_selected: Style,
    pub tab_normal: Style,
}

/// The selection highlight: background `highlight_bg`, with the foreground
/// and modifiers of the `highlight_fg` style.
pub open spec fn highlight_of(t: ThemeConfig) -> Style {
    let fg_style = style_of(t.highlight_fg@);
    let base = Style { bg: Some(color_of(t.highlight_bg@)), ..plain_style() };
    let with_fg = match fg_style.fg {
        Some(c) => Style { fg: Some(c), ..base },
        None => base,
    };
    Style { add_modifier: union_modifiers(with_fg.add_modifier, fg_style.add_modifier), ..with_fg }
}

/// Each theme string parsed.
pub open spec fn theme_styles_of(t: ThemeConfig, r: ThemeStyles) -> bool {
    &&& r.border_focused == style_of(t.border_focused@)
    &&& r.border_unfocused == style_of(t.border_unfocused@)
    &&& r.border_error == style_of(t.border_error@)
    &&& r.text == style_of(t.text@)
    &&& r.text_dim == style_of(t.text_dim@)
    &&& r.repo_core == style_of(t.repo_core@)
    &&& r.repo_extra == style_of(t.repo_extra@)
    &&& r.repo_multilib == style_of(t.repo_multilib@)
    &&& r.repo_aur == style_of(t.repo_aur@)
    &&& r.repo_other == style_of(t.repo_other@)
    &&& r.repo_local == style_of(t.repo_local@)
    &&& r.installed == style_of(t.installed@)
    &&& r.out_of_date == style_of(t.out_of_date@)
    &&& r.votes == style_of(t.votes@)
    &&& r.version == style_of(t.version@)
    &&& r.highlight == highlight_of(t)
    &&& r.status_loading == style_of(t.status_loading@)
    &&& r.status_idle == style_of(t.status_idle@)
    &&& r.help == style_of(t.help@)
    &&& r.popup_title == style_of(t.popup_title@)
    &&& r.popup_bg == style_of(t.popup_bg@)
    &&& r.tab_selected == style_of(t.tab_selected@)
    &&& r.tab_normal == style_of(t.tab_normal@)
}

impl ThemeStyles {
    /// Parses every style string of the theme.
    pub fn from_theme(t: &ThemeConfig) -> (r: ThemeStyles)
        ensures
            theme_styles_of(*t, r),
    {
        let highlight_bg = parse_color(t.highlight_bg.as_str());
        let fg_style = parse_style(t.highlight_fg.as_str());
        let mut highlight = Style::default().bg(highlight_bg);
        if let Some(c) = fg_style.fg {
            highlight = highlight.fg(c);
        }
        highlight = highlight.add_modifiers(fg_style.add_modifier);
        ThemeStyles {
            border_focused: parse_style(t.border_focused.as_str()),
            border_unfocused: parse_style(t.border_unfocused.as_str()),
            border_error: parse_style(t.border_error.as_str()),
            text: parse_style(t.text.as_str()),
            text_dim: parse_style(t.text_dim.as_str()),
            repo_core: parse_style(t.repo_core.as_str()),
            repo_extra: parse_style(t.repo_extra.as_str()),
            repo_multilib: parse_style(t.repo_multilib.as_str()),
            repo_aur: parse_style(t.repo_aur.as_str()),
            repo_other: parse_style(t.repo_other.as_str()),
            repo_local: parse_style(t.repo_local.as_str()),
            installed: parse_style(t.installed.as_str()),
            out_of_date: parse_style(t.out_of_date.as_str()),
            votes: parse_style(t.votes.as_str()),
            version: parse_style(t.version.as_str()),
            highlight,
            status_loading: parse_style(t.status_loading.as_str()),
            status_idle: parse_style(t.status_idle.as_str()),
            help: parse_style(t.help.as_str()),
            popup_title: parse_style(t.popup_title.as_str()),
            popup_bg: parse_style(t.popup_bg.as_str()),
            tab_selected: parse_style(t.tab_selected.as_str()),
            tab_normal: parse_style(t.tab_normal.as_str()),
        }
    }
}

} // verus!
