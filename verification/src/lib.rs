//! Verified core of a local-first encrypted notes store with sticky windows.

pub mod chip;
pub mod cipher;
pub mod encoding;
pub mod error;
pub mod keywrap;
pub mod labels;
pub mod notes;
pub mod password;
pub mod schema;
pub mod session;
pub mod sticky;
pub mod text;
