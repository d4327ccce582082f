//! Errors of the library.
use vstd::prelude::*;

verus! {

/// What can go wrong while loading settings or searching.
#[derive(Debug)]
pub enum AppError {
    Config(String),
    Alpm(String),
    /// The AUR RPC answered with an error message.
    Aur(String),
    Network(String),
    Io(String),
    /// The `--regex` pattern does not compile.
    Regex(regex::Error),
    Other(String),
}

} // verus!
