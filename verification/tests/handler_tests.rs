use std::io::Write;

use archive_preview::archive_types::{AnalysisStatus, FileType};
use archive_preview::compression::CompressionType;
use archive_preview::handlers::{resolve_sniffed_format, ArchiveHandler};
use archive_preview::storage::{
    CancelSignal, ConnectionConfig, DirectoryResult, ListOptions, StorageCapabilities,
    StorageClient, StorageError, StorageRequest, StorageResponse,
};

fn gzip_named(content: &[u8], name: &str) -> Vec<u8> {
    let mut writer = flate2::GzBuilder::new()
        .filename(name)
        .write(Vec::new(), flate2::Compression::default());
    writer.write_all(content).unwrap();
    writer.finish().unwrap()
}

/// A backend stub that fails the test if any read is issued.
struct PanickingClient;

impl StorageClient for PanickingClient {
    fn connect(&mut self, _config: &ConnectionConfig) -> Result<(), StorageError> {
        Ok(())
    }
    fn disconnect(&self) {}
    fn is_connected(&self) -> bool {
        true
    }
    fn list_directory(
        &self,
        _path: &str,
        _options: Option<&ListOptions>,
    ) -> Result<DirectoryResult, StorageError> {
        Err(StorageError::NotConnected)
    }
    fn request(&self, _request: &StorageRequest) -> Result<StorageResponse, StorageError> {
        Err(StorageError::NotConnected)
    }
    fn request_binary(&self, _request: &StorageRequest) -> Result<Vec<u8>, StorageError> {
        Err(StorageError::NotConnected)
    }
    fn read_file_range(
        &self,
        _path: &str,
        _start: u64,
        _length: u64,
    ) -> Result<Vec<u8>, StorageError> {
        panic!("unsupported formats must be rejected before any backend read");
    }
    fn read_full_file(&self, _path: &str) -> Result<Vec<u8>, StorageError> {
        panic!("unsupported formats must be rejected before any backend read");
    }
    fn get_file_size(&self, _path: &str) -> Result<u64, StorageError> {
        panic!("unsupported formats must be rejected before any backend read");
    }
    fn capabilities(&self) -> StorageCapabilities {
        StorageCapabilities::default()
    }
    fn protocol(&self) -> String {
        "stub".to_string()
    }
    fn validate_config(&self, _config: &ConnectionConfig) -> Result<(), StorageError> {
        Ok(())
    }
}

/// A backend stub serving one in-memory file.
struct MemClient {
    data: Vec<u8>,
}

impl StorageClient for MemClient {
    fn connect(&mut self, _config: &ConnectionConfig) -> Result<(), StorageError> {
        Ok(())
    }
    fn disconnect(&self) {}
    fn is_connected(&self) -> bool {
        true
    }
    fn list_directory(
        &self,
        _path: &str,
        _options: Option<&ListOptions>,
    ) -> Result<DirectoryResult, StorageError> {
        Err(StorageError::NotConnected)
    }
    fn request(&self, _request: &StorageRequest) -> Result<StorageResponse, StorageError> {
        Err(StorageError::NotConnected)
    }
    fn request_binary(&self, _request: &StorageRequest) -> Result<Vec<u8>, StorageError> {
        Err(StorageError::NotConnected)
    }
    fn read_file_range(
        &self,
        _path: &str,
        start: u64,
        length: u64,
    ) -> Result<Vec<u8>, StorageError> {
        let from = (start as usize).min(self.data.len());
        let to = (start as usize).saturating_add(length as usize).min(self.data.len());
        Ok(self.data[from..to].to_vec())
    }
    fn read_full_file(&self, _path: &str) -> Result<Vec<u8>, StorageError> {
        Ok(self.data.clone())
    }
    fn get_file_size(&self, _path: &str) -> Result<u64, StorageError> {
        Ok(self.data.len() as u64)
    }
    fn capabilities(&self) -> StorageCapabilities {
        StorageCapabilities::default()
    }
    fn protocol(&self) -> String {
        "local".to_string()
    }
    fn validate_config(&self, _config: &ConnectionConfig) -> Result<(), StorageError> {
        Ok(())
    }
}

struct NeverCancel;

impl CancelSignal for NeverCancel {
    fn is_cancelled(&self) -> bool {
        false
    }
}

type PlainCallback = fn(u64, u64);

#[test]
fn unsupported_formats_fail_without_backend_read() {
    let handler = ArchiveHandler::new();
    let cases = [
        ("archive.7z", "archive.format.7z.not.supported"),
        ("archive.rar", "archive.format.rar.not.supported"),
        ("archive.br", "archive.format.brotli.not.supported"),
        ("archive.lz4", "archive.format.lz4.not.supported"),
        ("archive.zst", "archive.format.zstd.not.supported"),
    ];
    for (name, code) in cases {
        let r = handler.analyze_archive_with_client(
            &PanickingClient,
            format!("/files/{name}"),
            name.to_string(),
            None,
        );
        assert_eq!(r.err(), Some(code.to_string()));
    }
}

#[test]
fn unsupported_formats_fail_preview_without_backend_read() {
    let handler = ArchiveHandler::new();
    let progress: Option<&PlainCallback> = None;
    let cancel: Option<&NeverCancel> = None;
    let r = handler.get_file_preview_with_client(
        &PanickingClient,
        "/files/archive.7z".to_string(),
        "archive.7z".to_string(),
        "entry".to_string(),
        Some(1024),
        progress,
        cancel,
    );
    assert_eq!(r.err(), Some("archive.format.7z.not.supported".to_string()));
}

#[test]
fn analyze_gzip_through_client() {
    let data = gzip_named(b"facade content", "inner.txt");
    let client = MemClient { data: data.clone() };
    let handler = ArchiveHandler::new();
    let info = handler
        .analyze_archive_with_client(&client, "/files/data.gz".to_string(), "data.gz".to_string(), None)
        .unwrap();
    assert_eq!(info.compression_type, CompressionType::Gzip);
    assert_eq!(info.entries[0].path, "inner.txt");
    assert_eq!(info.entries[0].size, 14);
    assert_eq!(info.analysis_status, AnalysisStatus::Complete);
}

#[test]
fn analyze_resolves_unknown_filename_by_magic() {
    let data = gzip_named(b"sniffed", "inner.txt");
    let client = MemClient { data: data.clone() };
    let handler = ArchiveHandler::new();
    let info = handler
        .analyze_archive_with_client(&client, "/files/blob".to_string(), "blob".to_string(), None)
        .unwrap();
    assert_eq!(info.compression_type, CompressionType::Gzip);
}

#[test]
fn analyze_unknown_content_is_rejected() {
    let client = MemClient { data: b"neither gzip nor anything".to_vec() };
    let handler = ArchiveHandler::new();
    let r = handler.analyze_archive_with_client(
        &client,
        "/files/blob".to_string(),
        "blob".to_string(),
        None,
    );
    assert_eq!(r.err(), Some("Unsupported archive format".to_string()));
}

#[test]
fn analyze_sniffed_foreign_signature_is_rejected() {
    // A ZIP signature is recognized by the sniffer but has no handler here.
    let client = MemClient { data: vec![0x50, 0x4b, 0x03, 0x04, 0, 0, 0, 0] };
    let handler = ArchiveHandler::new();
    let r = handler.analyze_archive_with_client(
        &client,
        "/files/blob".to_string(),
        "blob".to_string(),
        None,
    );
    assert_eq!(r.err(), Some("Unsupported archive format".to_string()));
}

#[test]
fn sniffed_format_dispatch() {
    assert_eq!(
        resolve_sniffed_format(&[0x1f, 0x8b, 0x08]),
        Ok(CompressionType::Gzip)
    );
    assert_eq!(
        resolve_sniffed_format(&[0x50, 0x4b, 0x03, 0x04]),
        Err("Unsupported archive format".to_string())
    );
    assert_eq!(
        resolve_sniffed_format(&[]),
        Err("Unsupported archive format".to_string())
    );
    assert_eq!(
        resolve_sniffed_format(&[0x00, 0x11, 0x22]),
        Err("Unsupported archive format".to_string())
    );
}

#[test]
fn analyze_formats_without_handler_are_rejected() {
    let client = MemClient { data: Vec::new() };
    let handler = ArchiveHandler::new();
    for name in ["a.zip", "a.tar", "a.tar.gz"] {
        let r = handler.analyze_archive_with_client(
            &client,
            format!("/files/{name}"),
            name.to_string(),
            None,
        );
        assert_eq!(r.err(), Some("Unsupported archive format".to_string()));
    }
}

#[test]
fn preview_gzip_through_client() {
    let data = gzip_named(b"preview me", "inner.txt");
    let client = MemClient { data };
    let handler = ArchiveHandler::new();
    let progress: Option<&PlainCallback> = None;
    let cancel: Option<&NeverCancel> = None;
    let preview = handler
        .get_file_preview_with_client(
            &client,
            "/files/data.gz".to_string(),
            "data.gz".to_string(),
            "entry".to_string(),
            Some(1024),
            progress,
            cancel,
        )
        .unwrap();
    assert_eq!(preview.content, "preview me");
    assert_eq!(preview.file_type, FileType::Text);
    assert!(!preview.is_truncated);
}

#[test]
fn supported_archive_queries() {
    let handler = ArchiveHandler::new();
    assert!(handler.is_supported_archive("a.zip"));
    assert!(handler.is_supported_archive("a.7z"));
    assert!(!handler.is_supported_archive("a.txt"));
    assert!(handler.supports_streaming("a.tar.gz"));
    assert!(handler.supports_streaming("a.gz"));
    assert!(!handler.supports_streaming("a.7z"));
    assert_eq!(handler.get_compression_info("a.tgz"), CompressionType::Tar);
}

#[test]
fn supported_formats_enumeration() {
    let handler = ArchiveHandler::new();
    assert_eq!(
        handler.get_supported_formats(),
        vec!["zip", "tar", "tar.gz", "tgz", "gz", "gzip"]
    );
}

#[test]
fn file_size_formatting() {
    let handler = ArchiveHandler::new();
    assert_eq!(handler.format_file_size(0), "0 B");
    assert_eq!(handler.format_file_size(1), "1 B");
    assert_eq!(handler.format_file_size(1023), "1023 B");
    assert_eq!(handler.format_file_size(1024), "1.00 KB");
    assert_eq!(handler.format_file_size(1536), "1.50 KB");
    assert_eq!(handler.format_file_size(1048576), "1.00 MB");
    assert_eq!(handler.format_file_size(5 * 1048576 + 262144), "5.25 MB");
    assert_eq!(handler.format_file_size(1073741824), "1.00 GB");
    assert_eq!(handler.format_file_size(1099511627776), "1.00 TB");
    assert_eq!(handler.format_file_size(u64::MAX), "16777216.00 TB");
}

#[test]
fn compression_ratio_formatting() {
    let handler = ArchiveHandler::new();
    assert_eq!(handler.get_compression_ratio(100, 100), "0.0%");
    assert_eq!(handler.get_compression_ratio(100, 0), "100.0%");
    assert_eq!(handler.get_compression_ratio(1000, 250), "75.0%");
    assert_eq!(handler.get_compression_ratio(3, 1), "66.7%");
    assert_eq!(handler.get_compression_ratio(100, 200), "0.0%");
    assert_eq!(handler.get_compression_ratio(0, 5), "0.0%");
}

#[test]
fn compression_ratio_monotone_in_compressed_size() {
    let handler = ArchiveHandler::new();
    let uncompressed = 100_000u64;
    let mut previous_tenths = 0u64;
    for compressed in (0..=100_000u64).rev().step_by(9173) {
        let rendered = handler.get_compression_ratio(uncompressed, compressed);
        let digits: String = rendered
            .chars()
            .filter(|c| c.is_ascii_digit())
            .collect();
        let tenths: u64 = digits.parse().unwrap();
        assert!(tenths >= previous_tenths, "ratio decreased at {compressed}");
        previous_tenths = tenths;
    }
}

#[test]
fn recommended_chunk_sizes() {
    let handler = ArchiveHandler::new();
    assert_eq!(handler.get_recommended_chunk_size("a.zip", 1024), 65536);
    assert_eq!(handler.get_recommended_chunk_size("a.zip", 50_000_000), 262144);
    assert_eq!(handler.get_recommended_chunk_size("a.zip", 500_000_000), 1048576);
    assert_eq!(handler.get_recommended_chunk_size("a.gz", 500_000_000), 65536);
    assert_eq!(handler.get_recommended_chunk_size("a.tar", 500_000_000), 65536);
}
