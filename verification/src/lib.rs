//! An embeddable web-crawling framework.
//!
//! A *site* is described by starting URLs, a bounded parallelism budget, a
//! per-request context type, an output type, and an ordered list of handlers.
//! Pages are fetched concurrently; handlers run on each response and emit
//! actions: new URLs to visit and output records to stream to the consumer.
//! Visited URL paths are deduplicated within a site, crawling stays on the
//! host of the page that produced a link, and per-site parallelism is
//! strictly bounded.
//!
//! The crate holds the crawl engine's decision logic (frontier, dedup,
//! routing, permits), the handler pipeline, and the selector extraction
//! engine. The asynchronous shell that performs HTTP requests and runs the
//! fetch loop lives with the embedding program.

pub mod crawl_url;
pub mod error;
pub mod extractor;
pub mod handler;
pub mod json;
pub mod next_action;
pub mod response;
pub mod selector;
pub mod website;
pub mod scheduler;
