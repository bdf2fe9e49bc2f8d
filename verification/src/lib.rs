//! Identity-to-profile resolution library.
//!
//! Resolves a human identity (name, email, phone) to a social-media profile
//! by combining a fuzzy candidate search with two identity-verification
//! signals, then scores how strongly the discovered profile corroborates the
//! original identity. This crate holds the verified core: input validation,
//! the signed-request construction, the retry and rate-limit state machines,
//! the resolver decisions, and the partial-match scoring. The network,
//! terminal and HTML-scraping glue lives outside it.

pub mod models;
pub mod pipeline;
pub mod rategate;
pub mod resolver;
pub mod retry;
pub mod scoring;
pub mod signature;
pub mod validators;
