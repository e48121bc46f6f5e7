//! Verified core of a finviz.com data-gathering library.
//!
//! The crate covers the parts of the system that are pure computation: the
//! typed query-parameter model that turns endpoint configuration into request
//! URLs, and the extraction engines that turn already-fetched page text into
//! rectangular string grids. Fetching pages over the network, writing files
//! and rendering are left to the surrounding application; HTML parsing, JSON
//! parsing, CSV encoding and table rendering are delegated to outside crates
//! through a small set of trusted wrappers.

/// Types and traits shared by the endpoint modules.
pub mod common;
/// The cryptocurrency-performance endpoint.
pub mod crypto;
/// Key/value string data with stable lexicographic iteration order.
pub mod dict;
/// The extraction engine for pages that embed their table as a JSON array.
pub mod embedded;
/// The forex-performance endpoint.
pub mod forex;
/// The futures-performance endpoint.
pub mod future;
/// The group-rollup endpoint and its enums.
pub mod group;
/// The cell model of parsed HTML tables and the trusted selection wrappers.
pub mod html;
/// The insider-trading endpoint.
pub mod insider;
/// The news/blogs endpoint.
pub mod news;
/// The enum of sort fields and sort directions used by `Screener`.
pub mod order_type;
/// Rendering and encoding of extracted grids.
pub mod output;
/// The generic request-URL builder shared by the endpoint modules.
pub mod request;
/// The screener endpoint: its configuration and URL serialization.
pub mod screener;
/// The enum of screener page kinds used by `Screener`.
pub mod screener_type;
/// The enum of filter signals used by `Screener`.
pub mod signal_type;
/// The generic table-extraction engine and its policy.
pub mod table;
/// The per-ticker endpoints: fundamentals and chart URLs.
pub mod tickers;
