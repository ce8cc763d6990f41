//! Archive-format analysis and streaming-preview engine.
//!
//! The crate inspects compressed archives that live on arbitrary storage
//! backends (local disk, WebDAV, and similar) without fully downloading or
//! decompressing them when that can be avoided.  It offers:
//!
//! * a compression-type registry that resolves a format tag from a filename
//!   suffix chain or from magic bytes ([`compression`]);
//! * a GZIP handler that validates headers, recovers the original filename,
//!   estimates uncompressed sizes from bounded samples and extracts bounded
//!   previews ([`gzip`]);
//! * a facade that dispatches on the resolved format, rejects declared
//!   unsupported formats with stable error codes and exposes formatting
//!   utilities ([`handlers`]);
//! * the storage-backend contract every backend must satisfy, together with
//!   progress- and cancellation-aware read helpers ([`storage`]) and the
//!   connection manager that tracks the single active backend ([`manager`]).

pub mod archive_types;
pub mod compression;
pub mod encoding;
pub mod gzip;
pub mod handlers;
pub mod manager;
pub mod numfmt;
pub mod storage;
