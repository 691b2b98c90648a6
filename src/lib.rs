//! A pulsar timing and metadata archive: a catalog of table entities, a
//! transactional store session, a content-addressed file archiver and the
//! measurement pipeline that ties them together.
use vstd::prelude::*;

pub mod archive;
pub mod archivist;
pub mod checksum;
pub mod config;
pub mod conveniences;
pub mod data_types;
pub mod diagnostics;
pub mod error;
pub mod external_tools;
pub mod pipeline;
pub mod sql;
pub mod table;
pub mod text;
pub mod value;
pub mod worker;

pub use table::{Table, TableItem};
pub use archivist::Archivist;
pub use error::{ARPAError, ArchivistError};
