use std::cell::{Cell, RefCell};

use archive_preview::manager::StorageManager;
use archive_preview::storage::{
    read_file_range_chunked, read_file_range_with_progress, read_full_file_with_progress,
    CancelSignal, ConnectionConfig, DirectoryResult, ListOptions, StorageCapabilities,
    StorageClient, StorageError, StorageRequest, StorageResponse,
};

fn config(protocol: &str) -> ConnectionConfig {
    ConnectionConfig {
        protocol: protocol.to_string(),
        url: None,
        access_key: None,
        secret_key: None,
        region: None,
        bucket: None,
        endpoint: None,
        username: None,
        password: None,
        extra_options: None,
    }
}

/// A backend stub serving one in-memory file and counting range reads.
struct CountingClient {
    data: Vec<u8>,
    reads: Cell<u32>,
    fail_connect: bool,
}

impl CountingClient {
    fn new(data: Vec<u8>) -> Self {
        CountingClient { data, reads: Cell::new(0), fail_connect: false }
    }
}

impl StorageClient for CountingClient {
    fn connect(&mut self, _config: &ConnectionConfig) -> Result<(), StorageError> {
        if self.fail_connect {
            Err(StorageError::ConnectionFailed("refused".to_string()))
        } else {
            Ok(())
        }
    }
    fn disconnect(&self) {}
    fn is_connected(&self) -> bool {
        true
    }
    fn list_directory(
        &self,
        path: &str,
        _options: Option<&ListOptions>,
    ) -> Result<DirectoryResult, StorageError> {
        Ok(DirectoryResult {
            files: Vec::new(),
            has_more: false,
            next_marker: None,
            total_count: Some(0),
            path: path.to_string(),
        })
    }
    fn request(&self, _request: &StorageRequest) -> Result<StorageResponse, StorageError> {
        Err(StorageError::RequestFailed("no transport".to_string()))
    }
    fn request_binary(&self, _request: &StorageRequest) -> Result<Vec<u8>, StorageError> {
        Err(StorageError::RequestFailed("no transport".to_string()))
    }
    fn read_file_range(
        &self,
        _path: &str,
        start: u64,
        length: u64,
    ) -> Result<Vec<u8>, StorageError> {
        self.reads.set(self.reads.get() + 1);
        let from = (start as usize).min(self.data.len());
        let to = (start as usize).saturating_add(length as usize).min(self.data.len());
        Ok(self.data[from..to].to_vec())
    }
    fn read_full_file(&self, _path: &str) -> Result<Vec<u8>, StorageError> {
        Ok(self.data.clone())
    }
    fn get_file_size(&self, _path: &str) -> Result<u64, StorageError> {
        Ok(self.data.len() as u64)
    }
    fn capabilities(&self) -> StorageCapabilities {
        StorageCapabilities::default()
    }
    fn protocol(&self) -> String {
        "local".to_string()
    }
    fn validate_config(&self, _config: &ConnectionConfig) -> Result<(), StorageError> {
        Ok(())
    }
}

struct NeverCancel;

impl CancelSignal for NeverCancel {
    fn is_cancelled(&self) -> bool {
        false
    }
}

/// Fires after a fixed number of cancellation checks.
struct CountdownCancel {
    remaining: Cell<u32>,
}

impl CancelSignal for CountdownCancel {
    fn is_cancelled(&self) -> bool {
        let left = self.remaining.get();
        if left == 0 {
            true
        } else {
            self.remaining.set(left - 1);
            false
        }
    }
}

#[test]
fn chunked_read_assembles_whole_range() {
    let client = CountingClient::new((0..=99u8).collect());
    let progress: RefCell<Vec<(u64, u64)>> = RefCell::new(Vec::new());
    let callback = |done: u64, total: u64| {
        progress.borrow_mut().push((done, total));
    };
    let cancel = NeverCancel;
    let result = read_file_range_chunked(
        &client,
        "/f",
        0,
        100,
        10,
        Some(&callback),
        Some(&cancel),
    )
    .unwrap();
    assert_eq!(result.len(), 100);
    assert_eq!(result[0], 0);
    assert_eq!(result[99], 99);
    assert_eq!(client.reads.get(), 10);
    let seen = progress.borrow();
    assert_eq!(seen.len(), 10);
    assert_eq!(seen[0], (10, 100));
    assert_eq!(seen[9], (100, 100));
}

#[test]
fn cancel_mid_read_yields_cancellation_outcome() {
    let client = CountingClient::new(vec![7u8; 100]);
    let progress: RefCell<Vec<(u64, u64)>> = RefCell::new(Vec::new());
    let callback = |done: u64, total: u64| {
        progress.borrow_mut().push((done, total));
    };
    let cancel = CountdownCancel { remaining: Cell::new(3) };
    let result = read_file_range_chunked(
        &client,
        "/f",
        0,
        100,
        10,
        Some(&callback),
        Some(&cancel),
    );
    assert!(matches!(result, Err(StorageError::Cancelled)));
    // Three chunks of ten bytes were transferred before the signal fired.
    let transferred = client.reads.get() as u64 * 10;
    assert_eq!(transferred, 30);
    for (done, total) in progress.borrow().iter() {
        assert!(*done <= transferred, "progress reported {done} of only {transferred} transferred");
        assert!(*done <= *total);
    }
}

#[test]
fn chunked_read_stops_at_end_of_file() {
    let client = CountingClient::new(vec![1u8; 45]);
    let progress: Option<&fn(u64, u64)> = None;
    let cancel = NeverCancel;
    let result = read_file_range_chunked(
        &client,
        "/f",
        0,
        100,
        20,
        progress,
        Some(&cancel),
    )
    .unwrap();
    assert_eq!(result.len(), 45);
}

#[test]
fn degraded_progress_reports_once_on_completion() {
    let client = CountingClient::new(vec![9u8; 32]);
    let progress: RefCell<Vec<(u64, u64)>> = RefCell::new(Vec::new());
    let callback = |done: u64, total: u64| {
        progress.borrow_mut().push((done, total));
    };
    let cancel: Option<&NeverCancel> = None;
    let result = read_file_range_with_progress(&client, "/f", 0, 16, Some(&callback), cancel)
        .unwrap();
    assert_eq!(result.len(), 16);
    assert_eq!(progress.borrow().as_slice(), &[(16, 16)]);

    let full = read_full_file_with_progress(&client, "/f", Some(&callback), cancel).unwrap();
    assert_eq!(full.len(), 32);
    assert_eq!(progress.borrow().last(), Some(&(32, 32)));
}

#[test]
fn manager_requires_connection() {
    let manager: StorageManager<CountingClient> = StorageManager::new();
    assert!(!manager.is_connected());
    let request = StorageRequest {
        method: "GET".to_string(),
        url: "/".to_string(),
        headers: std::collections::HashMap::new(),
        body: None,
        options: None,
    };
    assert!(matches!(manager.request(&request), Err(StorageError::NotConnected)));
    assert!(matches!(manager.request_binary(&request), Err(StorageError::NotConnected)));
    assert!(matches!(manager.list_directory("/", None), Err(StorageError::NotConnected)));
    assert!(manager.current_capabilities().is_none());
    assert!(manager.get_current_client().is_none());
}

#[test]
fn manager_rejects_unknown_protocol() {
    let mut manager: StorageManager<CountingClient> = StorageManager::new();
    let r = manager.connect(&config("ftp"), CountingClient::new(Vec::new()));
    match r {
        Err(StorageError::UnsupportedProtocol(p)) => assert_eq!(p, "ftp"),
        other => panic!("expected UnsupportedProtocol, got {other:?}"),
    }
    assert!(!manager.is_connected());
}

#[test]
fn manager_propagates_connect_failure() {
    let mut manager: StorageManager<CountingClient> = StorageManager::new();
    let mut client = CountingClient::new(Vec::new());
    client.fail_connect = true;
    let r = manager.connect(&config("local"), client);
    assert!(matches!(r, Err(StorageError::ConnectionFailed(_))));
    assert!(!manager.is_connected());
}

#[test]
fn manager_connect_and_disconnect_cycle() {
    let mut manager: StorageManager<CountingClient> = StorageManager::new();
    manager.connect(&config("local"), CountingClient::new(vec![1, 2, 3])).unwrap();
    assert!(manager.is_connected());
    assert!(manager.current_capabilities().is_some());
    let client = manager.get_current_client().unwrap();
    assert_eq!(client.read_full_file("/f").unwrap(), vec![1, 2, 3]);
    assert!(manager.list_directory("/", None).is_ok());
    manager.disconnect().unwrap();
    assert!(!manager.is_connected());
    // Idempotent.
    manager.disconnect().unwrap();
    assert!(!manager.is_connected());
}

#[test]
fn manager_supported_protocols() {
    let manager: StorageManager<CountingClient> = StorageManager::new();
    assert_eq!(manager.supported_protocols(), vec!["webdav", "local"]);
}

#[test]
fn error_messages_are_descriptive() {
    assert_eq!(
        StorageError::ConnectionFailed("host down".to_string()).message(),
        "Connection failed: host down"
    );
    assert_eq!(
        StorageError::RequestFailed("418".to_string()).message(),
        "Request failed: 418"
    );
    assert_eq!(
        StorageError::InvalidConfig("no url".to_string()).message(),
        "Invalid configuration: no url"
    );
    assert_eq!(
        StorageError::ProtocolNotSupported("s3".to_string()).message(),
        "Protocol not supported: s3"
    );
    assert_eq!(
        StorageError::UnsupportedProtocol("ftp".to_string()).message(),
        "Unsupported protocol: ftp"
    );
    assert_eq!(StorageError::NotConnected.message(), "Not connected");
    assert_eq!(StorageError::IoError("eof".to_string()).message(), "IO error: eof");
    assert_eq!(
        StorageError::NetworkError("reset".to_string()).message(),
        "Network error: reset"
    );
    assert_eq!(StorageError::Cancelled.message(), "Cancelled");
}

#[test]
fn default_capabilities_are_conservative() {
    let capabilities = StorageCapabilities::default();
    assert!(!capabilities.supports_streaming);
    assert!(!capabilities.supports_range_requests);
    assert!(!capabilities.supports_multipart_upload);
    assert!(!capabilities.supports_metadata);
    assert!(!capabilities.supports_encryption);
    assert!(!capabilities.supports_directories);
    assert_eq!(capabilities.max_file_size, None);
    assert_eq!(capabilities.supported_methods, vec!["GET", "HEAD"]);
}

#[test]
fn default_download_url_is_the_path() {
    let client = CountingClient::new(Vec::new());
    assert_eq!(client.get_download_url("/a/b.gz").unwrap(), "/a/b.gz");
}
