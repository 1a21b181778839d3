//! Verified core of a small desktop shell: the decisions behind its
//! liveness probe, its document-conversion commands and its window handling.

pub mod hwp;
pub mod probe;
pub mod text;
pub mod window;
