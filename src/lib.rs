//! Decoding of GTFS "Static" transit feeds into typed records.
//!
//! Each row of each table is decoded on its own into a validated record, or
//! fails with an error that names the file, the row, the field and the reason.

pub mod text;
pub mod error;
pub mod color;
pub mod codes;
pub mod outside;
pub mod row;
pub mod agency;
pub mod route;
pub mod schema;
pub mod feed;
pub mod table;

pub use agency::Agency;
pub use codes::{ContinuousStopping, RouteKind};
pub use color::Color;
pub use feed::{load_feed, parse_file, Feed, SourceFile};
pub use route::Route;
