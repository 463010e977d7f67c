//! Fetches an article page, pulls the article text out of the JSON
//! fragments embedded in it, resolving their escapes, and prepares and
//! settles the exchange with a summarization backend.

pub mod error;
pub mod extract;
pub mod header;
pub mod medium;
pub mod page;
pub mod summary;
pub mod unescape;
