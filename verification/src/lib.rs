//! Content-addressed asset ingestion and thumbnail serving: the decisions,
//! names and formats, with the filesystem left to the caller.

pub mod commit;
pub mod dispatch;
pub mod error;
pub mod fetch;
pub mod hasher;
pub mod paths;
pub mod resizer;
pub mod store;
pub mod text;
pub mod thumbs;
