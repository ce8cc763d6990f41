//! Data model of the analysis engine: archive metadata, analysis status,
//! file previews, and the builders that assemble them.

use std::collections::HashMap;
use vstd::prelude::*;

use crate::compression::{ends_with_ci, CompressionType};
use vstd::string::StringSliceAdditionalSpecFns;

verus! {

/// Analysis completeness: `Complete` implies exact sizes; `Streaming` implies
/// sizes are estimates and the entry count may be a lower bound.
#[derive(Debug, Clone, Copy, PartialEq, Eq)]
pub enum AnalysisStatus {
    Complete,
    Streaming { estimated_entries: Option<u64> },
}

/// One logical file inside an archive.  Size fields are best-effort estimates
/// under streaming analysis.
#[derive(Debug, Clone)]
pub struct ArchiveEntry {
    pub path: String,
    pub size: u64,
    pub compressed_size: Option<u64>,
    pub is_dir: bool,
    pub modified_time: Option<String>,
    pub crc32: Option<u32>,
    pub index: u64,
    pub metadata: HashMap<String, String>,
}

/// Result of analyzing one archive.
#[derive(Debug, Clone)]
pub struct ArchiveInfo {
    pub compression_type: CompressionType,
    pub entries: Vec<ArchiveEntry>,
    pub total_entries: u64,
    pub total_uncompressed_size: u64,
    pub total_compressed_size: u64,
    pub supports_streaming: bool,
    pub supports_random_access: bool,
    pub analysis_status: AnalysisStatus,
}

/// Builder for [`ArchiveInfo`].  Every field starts from a neutral default
/// (no entries, zero sizes, no capabilities, `Complete`), and each setter
/// pins one field; [`ArchiveInfoBuilder::build`] returns exactly the fields
/// as last set.
pub struct ArchiveInfoBuilder {
    pub compression_type: CompressionType,
    pub entries: Vec<ArchiveEntry>,
    pub total_entries: u64,
    pub total_uncompressed_size: u64,
    pub total_compressed_size: u64,
    pub supports_streaming: bool,
    pub supports_random_access: bool,
    pub analysis_status: AnalysisStatus,
}

impl ArchiveInfoBuilder {
    pub fn new(compression_type: CompressionType) -> (r: Self)
        ensures
            r.compression_type == compression_type,
            r.entries@ =~= Seq::<ArchiveEntry>::empty(),
            r.total_entries == 0,
            r.total_uncompressed_size == 0,
            r.total_compressed_size == 0,
            !r.supports_streaming,
            !r.supports_random_access,
            r.analysis_status == AnalysisStatus::Complete,
    {
        ArchiveInfoBuilder {
            compression_type,
            entries: Vec::new(),
            total_entries: 0,
            total_uncompressed_size: 0,
            total_compressed_size: 0,
            supports_streaming: false,
            supports_random_access: false,
            analysis_status: AnalysisStatus::Complete,
        }
    }

    pub fn entries(self, entries: Vec<ArchiveEntry>) -> (r: Self)
        ensures
            r == (ArchiveInfoBuilder { entries, ..self }),
    {
        ArchiveInfoBuilder { entries, ..self }
    }

    pub fn total_entries(self, total_entries: u64) -> (r: Self)
        ensures
            r == (ArchiveInfoBuilder { total_entries, ..self }),
    {
        ArchiveInfoBuilder { total_entries, ..self }
    }

    pub fn total_uncompressed_size(self, total_uncompressed_size: u64) -> (r: Self)
        ensures
            r == (ArchiveInfoBuilder { total_uncompressed_size, ..self }),
    {
        ArchiveInfoBuilder { total_uncompressed_size, ..self }
    }

    pub fn total_compressed_size(self, total_compressed_size: u64) -> (r: Self)
        ensures
            r == (ArchiveInfoBuilder { total_compressed_size, ..self }),
    {
        ArchiveInfoBuilder { total_compressed_size, ..self }
    }

    pub fn supports_streaming(self, supports_streaming: bool) -> (r: Self)
        ensures
            r == (ArchiveInfoBuilder { supports_streaming, ..self }),
    {
        ArchiveInfoBuilder { supports_streaming, ..self }
    }

    pub fn supports_random_access(self, supports_random_access: bool) -> (r: Self)
        ensures
            r == (ArchiveInfoBuilder { supports_random_access, ..self }),
    {
        ArchiveInfoBuilder { supports_random_access, ..self }
    }

    pub fn analysis_status(self, analysis_status: AnalysisStatus) -> (r: Self)
        ensures
            r == (ArchiveInfoBuilder { analysis_status, ..self }),
    {
        ArchiveInfoBuilder { analysis_status, ..self }
    }

    pub fn build(self) -> (r: ArchiveInfo)
        ensures
            r.compression_type == self.compression_type,
            r.entries == self.entries,
            r.total_entries == self.total_entries,
            r.total_uncompressed_size == self.total_uncompressed_size,
            r.total_compressed_size == self.total_compressed_size,
            r.supports_streaming == self.supports_streaming,
            r.supports_random_access == self.supports_random_access,
            r.analysis_status == self.analysis_status,
    {
        ArchiveInfo {
            compression_type: self.compression_type,
            entries: self.entries,
            total_entries: self.total_entries,
            total_uncompressed_size: self.total_uncompressed_size,
            total_compressed_size: self.total_compressed_size,
            supports_streaming: self.supports_streaming,
            supports_random_access: self.supports_random_access,
            analysis_status: self.analysis_status,
        }
    }
}

/// Coarse content classification used for previews.
#[derive(Debug, Clone, Copy, PartialEq, Eq, Structural)]
pub enum FileType {
    Text,
    Binary,
}

/// A path is classified as text when its extension, compared
/// case-insensitively, is one of the common plain-text extensions.
pub open spec fn spec_is_text_path(name: Seq<u8>) -> bool {
    ||| ends_with_ci(name, ".txt".spec_bytes())
    ||| ends_with_ci(name, ".md".spec_bytes())
    ||| ends_with_ci(name, ".json".spec_bytes())
    ||| ends_with_ci(name, ".xml".spec_bytes())
    ||| ends_with_ci(name, ".html".spec_bytes())
    ||| ends_with_ci(name, ".htm".spec_bytes())
    ||| ends_with_ci(name, ".css".spec_bytes())
    ||| ends_with_ci(name, ".js".spec_bytes())
    ||| ends_with_ci(name, ".rs".spec_bytes())
    ||| ends_with_ci(name, ".py".spec_bytes())
    ||| ends_with_ci(name, ".sh".spec_bytes())
    ||| ends_with_ci(name, ".c".spec_bytes())
    ||| ends_with_ci(name, ".h".spec_bytes())
    ||| ends_with_ci(name, ".cpp".spec_bytes())
    ||| ends_with_ci(name, ".java".spec_bytes())
    ||| ends_with_ci(name, ".toml".spec_bytes())
    ||| ends_with_ci(name, ".yaml".spec_bytes())
    ||| ends_with_ci(name, ".yml".spec_bytes())
    ||| ends_with_ci(name, ".ini".spec_bytes())
    ||| ends_with_ci(name, ".cfg".spec_bytes())
    ||| ends_with_ci(name, ".conf".spec_bytes())
    ||| ends_with_ci(name, ".log".spec_bytes())
    ||| ends_with_ci(name, ".csv".spec_bytes())
}

impl FileType {
    /// Classifies a path by its extension.
    pub fn from_path(path: &str) -> (r: FileType)
        ensures
            r == (if spec_is_text_path(path.spec_bytes()) {
                FileType::Text
            } else {
                FileType::Binary
            }),
    {
        let bytes = path.as_bytes();
        if crate::compression::ends_with_ascii_ci(bytes, ".txt".as_bytes())
            || crate::compression::ends_with_ascii_ci(bytes, ".md".as_bytes())
            || crate::compression::ends_with_ascii_ci(bytes, ".json".as_bytes())
            || crate::compression::ends_with_ascii_ci(bytes, ".xml".as_bytes())
            || crate::compression::ends_with_ascii_ci(bytes, ".html".as_bytes())
            || crate::compression::ends_with_ascii_ci(bytes, ".htm".as_bytes())
            || crate::compression::ends_with_ascii_ci(bytes, ".css".as_bytes())
            || crate::compression::ends_with_ascii_ci(bytes, ".js".as_bytes())
            || crate::compression::ends_with_ascii_ci(bytes, ".rs".as_bytes())
            || crate::compression::ends_with_ascii_ci(bytes, ".py".as_bytes())
            || crate::compression::ends_with_ascii_ci(bytes, ".sh".as_bytes())
            || crate::compression::ends_with_ascii_ci(bytes, ".c".as_bytes())
            || crate::compression::ends_with_ascii_ci(bytes, ".h".as_bytes())
            || crate::compression::ends_with_ascii_ci(bytes, ".cpp".as_bytes())
            || crate::compression::ends_with_ascii_ci(bytes, ".java".as_bytes())
            || crate::compression::ends_with_ascii_ci(bytes, ".toml".as_bytes())
            || crate::compression::ends_with_ascii_ci(bytes, ".yaml".as_bytes())
            || crate::compression::ends_with_ascii_ci(bytes, ".yml".as_bytes())
            || crate::compression::ends_with_ascii_ci(bytes, ".ini".as_bytes())
            || crate::compression::ends_with_ascii_ci(bytes, ".cfg".as_bytes())
            || crate::compression::ends_with_ascii_ci(bytes, ".conf".as_bytes())
            || crate::compression::ends_with_ascii_ci(bytes, ".log".as_bytes())
            || crate::compression::ends_with_ascii_ci(bytes, ".csv".as_bytes()) {
            FileType::Text
        } else {
            FileType::Binary
        }
    }

    /// Whether this classification is text.
    pub fn is_text(&self) -> (r: bool)
        ensures
            r == (*self == FileType::Text),
    {
        match self {
            FileType::Text => true,
            FileType::Binary => false,
        }
    }
}

/// A truncated, renderable view of one file's content.
#[derive(Debug, Clone)]
pub struct FilePreview {
    pub content: String,
    pub is_truncated: bool,
    pub total_size: u64,
    pub file_type: FileType,
    pub encoding: String,
}

/// Builder for [`FilePreview`].  Defaults: empty content, not truncated,
/// zero total size, `Text`, encoding `"utf-8"`.
pub struct PreviewBuilder {
    pub content: String,
    pub is_truncated: bool,
    pub total_size: u64,
    pub file_type: FileType,
    pub encoding: String,
}

impl PreviewBuilder {
    pub fn new() -> (r: Self)
        ensures
            r.content@ =~= Seq::<char>::empty(),
            !r.is_truncated,
            r.total_size == 0,
            r.file_type == FileType::Text,
            r.encoding@ == "utf-8"@,
    {
        PreviewBuilder {
            content: String::new(),
            is_truncated: false,
            total_size: 0,
            file_type: FileType::Text,
            encoding: "utf-8".to_owned(),
        }
    }

    pub fn content(self, content: String) -> (r: Self)
        ensures
            r == (PreviewBuilder { content, ..self }),
    {
        PreviewBuilder { content, ..self }
    }

    pub fn with_truncated(self, is_truncated: bool) -> (r: Self)
        ensures
            r == (PreviewBuilder { is_truncated, ..self }),
    {
        PreviewBuilder { is_truncated, ..self }
    }

    pub fn total_size(self, total_size: u64) -> (r: Self)
        ensures
            r == (PreviewBuilder { total_size, ..self }),
    {
        PreviewBuilder { total_size, ..self }
    }

    pub fn file_type(self, file_type: FileType) -> (r: Self)
        ensures
            r == (PreviewBuilder { file_type, ..self }),
    {
        PreviewBuilder { file_type, ..self }
    }

    pub fn encoding(self, encoding: String) -> (r: Self)
        ensures
            r == (PreviewBuilder { encoding, ..self }),
    {
        PreviewBuilder { encoding, ..self }
    }

    pub fn build(self) -> (r: FilePreview)
        ensures
            r.content == self.content,
            r.is_truncated == self.is_truncated,
            r.total_size == self.total_size,
            r.file_type == self.file_type,
            r.encoding == self.encoding,
    {
        FilePreview {
            content: self.content,
            is_truncated: self.is_truncated,
            total_size: self.total_size,
            file_type: self.file_type,
            encoding: self.encoding,
        }
    }
}

} // verus!
