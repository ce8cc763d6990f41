//! The storage-backend contract: the capability interface every backend must
//! implement, the data types it exchanges, the typed error taxonomy, and the
//! progress- and cancellation-aware read helpers layered over the primitive
//! ranged read.

use std::collections::HashMap;
use vstd::prelude::*;
use vstd::string::{StringExecFns, StringSliceAdditionalSpecFns};

verus! {

/// `serde_json::Value` carried opaquely through request and response
/// metadata; the crate never inspects it.
#[verifier::external_type_specification]
#[verifier::external_body]
pub struct ExValue(serde_json::Value);

/// One remote directory entry.
#[derive(Debug)]
pub struct StorageFile {
    pub filename: String,
    pub basename: String,
    pub lastmod: String,
    pub size: u64,
    pub file_type: String,
    pub mime: Option<String>,
    pub etag: Option<String>,
}

/// A page of directory entries; the pagination cursor (`next_marker`) is
/// opaque to the caller.
#[derive(Debug)]
pub struct DirectoryResult {
    pub files: Vec<StorageFile>,
    pub has_more: bool,
    pub next_marker: Option<String>,
    pub total_count: Option<u64>,
    pub path: String,
}

/// Options for directory listing.
#[derive(Debug)]
pub struct ListOptions {
    pub page_size: Option<u32>,
    pub marker: Option<String>,
    pub prefix: Option<String>,
    pub recursive: Option<bool>,
    pub sort_by: Option<String>,
    pub sort_order: Option<String>,
}

/// A generic backend response.
#[derive(Debug)]
pub struct StorageResponse {
    pub status: u16,
    pub headers: HashMap<String, String>,
    pub body: String,
    pub metadata: Option<serde_json::Value>,
}

/// A generic backend request.
#[derive(Debug)]
pub struct StorageRequest {
    pub method: String,
    pub url: String,
    pub headers: HashMap<String, String>,
    pub body: Option<String>,
    pub options: Option<serde_json::Value>,
}

/// Backend connection parameters; `protocol` selects the backend
/// implementation, and an unrecognized protocol is a hard error.
#[derive(Debug, Clone)]
pub struct ConnectionConfig {
    pub protocol: String,
    pub url: Option<String>,
    pub access_key: Option<String>,
    pub secret_key: Option<String>,
    pub region: Option<String>,
    pub bucket: Option<String>,
    pub endpoint: Option<String>,
    pub username: Option<String>,
    pub password: Option<String>,
    pub extra_options: Option<HashMap<String, String>>,
}

/// The typed error taxonomy of the storage layer.  `Cancelled` is the
/// distinct outcome of a read aborted by the cooperative cancel signal,
/// never a generic I/O error.
#[derive(Debug, Clone)]
pub enum StorageError {
    ConnectionFailed(String),
    RequestFailed(String),
    InvalidConfig(String),
    ProtocolNotSupported(String),
    UnsupportedProtocol(String),
    NotConnected,
    IoError(String),
    NetworkError(String),
    Cancelled,
}

/// The descriptive message of each error variant.
pub open spec fn spec_error_message(e: StorageError) -> Seq<char> {
    match e {
        StorageError::ConnectionFailed(s) => "Connection failed: "@ + s@,
        StorageError::RequestFailed(s) => "Request failed: "@ + s@,
        StorageError::InvalidConfig(s) => "Invalid configuration: "@ + s@,
        StorageError::ProtocolNotSupported(s) => "Protocol not supported: "@ + s@,
        StorageError::UnsupportedProtocol(s) => "Unsupported protocol: "@ + s@,
        StorageError::NotConnected => "Not connected"@,
        StorageError::IoError(s) => "IO error: "@ + s@,
        StorageError::NetworkError(s) => "Network error: "@ + s@,
        StorageError::Cancelled => "Cancelled"@,
    }
}

impl StorageError {
    /// Renders the error as its descriptive message.
    pub fn message(&self) -> (r: String)
        ensures
            r@ == spec_error_message(*self),
    {
        match self {
            StorageError::ConnectionFailed(s) => "Connection failed: ".to_owned().concat(
                s.as_str(),
            ),
            StorageError::RequestFailed(s) => "Request failed: ".to_owned().concat(s.as_str()),
            StorageError::InvalidConfig(s) => "Invalid configuration: ".to_owned().concat(
                s.as_str(),
            ),
            StorageError::ProtocolNotSupported(s) => "Protocol not supported: ".to_owned().concat(
                s.as_str(),
            ),
            StorageError::UnsupportedProtocol(s) => "Unsupported protocol: ".to_owned().concat(
                s.as_str(),
            ),
            StorageError::NotConnected => "Not connected".to_owned(),
            StorageError::IoError(s) => "IO error: ".to_owned().concat(s.as_str()),
            StorageError::NetworkError(s) => "Network error: ".to_owned().concat(s.as_str()),
            StorageError::Cancelled => "Cancelled".to_owned(),
        }
    }
}

/// What a connected backend can do; the facade uses it to pick an analysis
/// strategy.
#[derive(Debug, Clone)]
pub struct StorageCapabilities {
    pub supports_streaming: bool,
    pub supports_range_requests: bool,
    pub supports_multipart_upload: bool,
    pub supports_metadata: bool,
    pub supports_encryption: bool,
    pub supports_directories: bool,
    pub max_file_size: Option<u64>,
    pub supported_methods: Vec<String>,
}

impl Default for StorageCapabilities {
    /// The most conservative capability set: nothing supported, `GET` and
    /// `HEAD` as the only methods.
    fn default() -> (r: Self)
        ensures
            !r.supports_streaming,
            !r.supports_range_requests,
            !r.supports_multipart_upload,
            !r.supports_metadata,
            !r.supports_encryption,
            !r.supports_directories,
            r.max_file_size is None,
            r.supported_methods@.len() == 2,
            r.supported_methods@[0]@ == "GET"@,
            r.supported_methods@[1]@ == "HEAD"@,
    {
        let mut methods: Vec<String> = Vec::new();
        methods.push("GET".to_owned());
        methods.push("HEAD".to_owned());
        StorageCapabilities {
            supports_streaming: false,
            supports_range_requests: false,
            supports_multipart_upload: false,
            supports_metadata: false,
            supports_encryption: false,
            supports_directories: false,
            max_file_size: None,
            supported_methods: methods,
        }
    }
}

/// The cooperative cancellation signal handed down to read operations; it
/// stands for the host's broadcast-style receiver.  Nothing is assumed about
/// when (or whether) the signal fires.
pub trait CancelSignal {
    fn is_cancelled(&self) -> bool;
}

/// The capability interface any backend must implement.  All operations are
/// fallible with a typed error; implementors promise at most what the
/// contract states here.
pub trait StorageClient {
    /// Establishes backend state for the given configuration.
    fn connect(&mut self, config: &ConnectionConfig) -> Result<(), StorageError>;

    /// Releases backend resources; idempotent.
    fn disconnect(&self);

    /// Whether the backend currently holds an established connection.
    fn is_connected(&self) -> bool;

    /// Lists one page of a directory.
    fn list_directory(&self, path: &str, options: Option<&ListOptions>) -> Result<
        DirectoryResult,
        StorageError,
    >;

    /// Performs a generic request.
    fn request(&self, request: &StorageRequest) -> Result<StorageResponse, StorageError>;

    /// Performs a generic request returning raw bytes.
    fn request_binary(&self, request: &StorageRequest) -> Result<Vec<u8>, StorageError>;

    /// Reads the requested byte range; returns exactly the requested bytes,
    /// or fewer only at end-of-file.
    fn read_file_range(&self, path: &str, start: u64, length: u64) -> (r: Result<
        Vec<u8>,
        StorageError,
    >)
        ensures
            r matches Ok(v) ==> v@.len() <= length,
    ;

    /// Reads the whole file.
    fn read_full_file(&self, path: &str) -> Result<Vec<u8>, StorageError>;

    /// The exact file size; required before a size-aware streaming analysis.
    fn get_file_size(&self, path: &str) -> Result<u64, StorageError>;

    /// A download URL for the path; backends that need no signing keep the
    /// path unchanged, which is the default behavior.
    fn get_download_url(&self, path: &str) -> Result<String, StorageError> {
        Ok(path.to_owned())
    }

    /// The static capability description.
    fn capabilities(&self) -> StorageCapabilities;

    /// The canonical protocol name.
    fn protocol(&self) -> String;

    /// Pre-flight configuration check without connecting.
    fn validate_config(&self, config: &ConnectionConfig) -> Result<(), StorageError>;
}

/// Ranged read with progress reporting, the degraded-but-correct default
/// path of the storage contract: performs the plain ranged read and invokes
/// the callback once with `(length, length)` on success.  The cancel signal
/// is not consulted; a backend with incremental progress uses
/// [`read_file_range_chunked`] or its own implementation instead.
pub fn read_file_range_with_progress<C: StorageClient, F: Fn(u64, u64), S: CancelSignal>(
    client: &C,
    path: &str,
    start: u64,
    length: u64,
    progress_callback: Option<&F>,
    cancel_rx: Option<&S>,
) -> (r: Result<Vec<u8>, StorageError>)
    requires
        progress_callback matches Some(f) ==> call_requires(*f, (length, length)),
    ensures
        r matches Ok(v) ==> v@.len() <= length,
{
    let _ = cancel_rx;
    match client.read_file_range(path, start, length) {
        Ok(v) => {
            if let Some(callback) = progress_callback {
                callback(length, length);
            }
            Ok(v)
        },
        Err(e) => Err(e),
    }
}

/// Whole-file read with progress reporting, the degraded-but-correct default
/// path: performs the plain full read and invokes the callback once with the
/// final size.  The cancel signal is not consulted.
pub fn read_full_file_with_progress<C: StorageClient, F: Fn(u64, u64), S: CancelSignal>(
    client: &C,
    path: &str,
    progress_callback: Option<&F>,
    cancel_rx: Option<&S>,
) -> (r: Result<Vec<u8>, StorageError>)
    requires
        progress_callback matches Some(f) ==> forall|n: u64| call_requires(*f, (n, n)),
{
    let _ = cancel_rx;
    match client.read_full_file(path) {
        Ok(v) => {
            if let Some(callback) = progress_callback {
                let size = v.len() as u64;
                callback(size, size);
            }
            Ok(v)
        },
        Err(e) => Err(e),
    }
}

/// Ranged read assembled from bounded chunk reads, checking the cancel
/// signal at every read boundary: a fired signal aborts promptly with the
/// distinct `StorageError::Cancelled` outcome, and the progress callback is
/// invoked after each chunk with exactly the bytes accumulated so far, never
/// more than what was actually transferred.
pub fn read_file_range_chunked<C: StorageClient, F: Fn(u64, u64), S: CancelSignal>(
    client: &C,
    path: &str,
    start: u64,
    length: u64,
    chunk_size: u64,
    progress_callback: Option<&F>,
    cancel_rx: Option<&S>,
) -> (r: Result<Vec<u8>, StorageError>)
    requires
        chunk_size >= 1,
        start + length <= u64::MAX,
        progress_callback matches Some(f) ==> forall|done: u64, total: u64|
            done <= total ==> call_requires(*f, (done, total)),
    ensures
        r matches Ok(v) ==> v@.len() <= length,
{
    let mut data: Vec<u8> = Vec::new();
    let mut transferred: u64 = 0;
    while transferred < length
        invariant
            data@.len() == transferred,
            transferred <= length,
            start + length <= u64::MAX,
            chunk_size >= 1,
            progress_callback matches Some(f) ==> forall|done: u64, total: u64|
                done <= total ==> call_requires(*f, (done, total)),
        decreases length - transferred,
    {
        if let Some(signal) = cancel_rx {
            if signal.is_cancelled() {
                return Err(StorageError::Cancelled);
            }
        }
        let remaining = length - transferred;
        let to_read = if chunk_size < remaining {
            chunk_size
        } else {
            remaining
        };
        let mut chunk = match client.read_file_range(path, start + transferred, to_read) {
            Ok(c) => c,
            Err(e) => {
                return Err(e);
            },
        };
        let got = chunk.len() as u64;
        data.append(&mut chunk);
        transferred = transferred + got;
        if let Some(callback) = progress_callback {
            callback(transferred, length);
        }
        if got < to_read {
            return Ok(data);
        }
    }
    Ok(data)
}

} // verus!
