//! Configuration of the archive: the database connection, the pipeline's
//! behaviour and the filesystem roots. Reading it from a file is left to the
//! program that embeds the library.
use vstd::prelude::*;

verus! {

/// All configuration, by category.
#[derive(Debug, Clone)]
pub struct Config {
    /// The database connection.
    pub database: Database,
    /// The pipeline's behaviour.
    pub behaviour: Behaviour,
    /// Filesystem roots.
    pub paths: Paths,
}

/// The database connection.
#[derive(Debug, Clone)]
pub struct Database {
    /// The connection string.
    pub url: String,
    /// The size of the connection pool.
    pub pool_connections: u32,
    /// How long to wait for a connection, in milliseconds.
    pub connection_timeout: u64,
}

/// The pipeline's behaviour.
#[derive(Debug, Clone)]
pub struct Behaviour {
    /// Whether to archive raw files at a location given by their header.
    pub archive_rawfiles: bool,
    /// Whether archiving moves raw files instead of copying them.
    pub move_rawfiles: bool,
    /// Whether to add pulsars that are not registered yet.
    pub auto_add_pulsars: bool,
    /// Whether a fresh file whose checksum is already stored is replaced by the
    /// stored entry instead of being refused.
    pub auto_resolve_duplicate_uploads: bool,
    /// The method used to fit arrival times.
    pub toa_fitting: String,
    /// The diagnostics to run on a processed file.
    pub diagnostics: Vec<String>,
    /// The number of bytes read at a time when computing a checksum.
    pub checksum_block_size: usize,
}

/// Filesystem roots.
#[derive(Debug, Clone)]
pub struct Paths {
    /// The directory of the processing tools; empty to use the search path.
    pub psrchive: String,
    /// The root of the raw file storage.
    pub rawfile_storage: String,
    /// The root for temporary files.
    pub temp_dir: String,
    /// The root for all diagnostics.
    pub diagnostics_dir: String,
}

} // verus!
