//! The logic of a small browser: URLs, HTTP responses, the text of a page,
//! the steps of fetching, and a content-addressable cache for what was
//! fetched. Nothing here reads or writes anything; the program around this
//! library does, and asks the library what to do next.
pub mod cache;
pub mod engine;
pub mod parser;
pub mod response;
pub mod text;
pub mod url;
