//! Text and decision logic of the kloakt headless-browser command line:
//! readable-text extraction from a page tree, link listing, content
//! fallback and truncation for the `extract` command, the scrape worker
//! protocol, and the load balancer of `serve --workers`.

pub mod text;
pub mod dom;
pub mod links;
pub mod extract;
pub mod scrape;
pub mod serve;
pub mod fetch;
