//! Package search: ordering, the AUR reply, repository databases and the
//! `pacman -Ss` text fallback.
pub mod aur;
pub mod fallback;
pub mod pattern;
pub mod rank;
pub mod repo;
