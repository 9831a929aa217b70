//! Review ingestion and aggregation: text normalization, sentiment
//! classification, paginated crawl decisions and corpus statistics.

pub mod sentiment;
pub mod text;
pub mod record;
pub mod format;
pub mod crawl;
pub mod extract;
pub mod table;
