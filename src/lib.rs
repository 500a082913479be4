//! A small HTTP demonstration service, as plain-value logic: the root page,
//! the elapsed-time endpoint and the not-found fallback. The HTTP framework,
//! the file system and the clock stay with the caller, which hands the
//! library what it read and turns the library's answers into responses.
pub mod elapsed;
pub mod pages;
pub mod response;
