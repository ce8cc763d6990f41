//! GZIP handler: the reference format implementation.  It understands the
//! RFC 1952 subset with the FNAME and FEXTRA header fields of a
//! single-member stream: header validation, best-effort original-filename
//! recovery, bounded-sample size estimation, complete and streaming analysis
//! and bounded preview extraction.

use std::collections::HashMap;
use vstd::prelude::*;
use vstd::string::{StringExecFns, StringSliceAdditionalSpecFns};
use vstd::utf8::{decode_utf8, valid_utf8};

use crate::archive_types::{
    AnalysisStatus, ArchiveEntry, ArchiveInfo, ArchiveInfoBuilder, FilePreview, FileType,
    PreviewBuilder,
};
use crate::compression::CompressionType;
use crate::storage::{
    read_full_file_with_progress, CancelSignal, StorageClient, StorageError,
};
use crate::encoding::{
    base64_encode, base64_std_of, is_text_content, spec_is_text_content, string_from_utf8,
    string_from_utf8_lossy, utf8_lossy_of,
};

verus! {

/// Handler for single-member GZIP streams.
pub struct GzipHandler;

/// The decompressed prefix that one `Read::read` call of a
/// `flate2::read::GzDecoder` over `data` yields into a buffer of `max`
/// bytes: `Some` bytes on success, `None` when the decoder reports an error.
/// DEFLATE decoding is deterministic, so the outcome is a function of the
/// compressed bytes and the buffer size alone.
pub uninterp spec fn gzip_prefix(data: Seq<u8>, max: nat) -> Option<Seq<u8>>;

/// Relies on `flate2::read::GzDecoder` and a single `std::io::Read::read`
/// call into a `max`-byte buffer; the error text is the I/O error's message.
#[verifier::external_body]
fn read_gzip_prefix(data: &[u8], max: usize) -> (r: Result<Vec<u8>, String>)
    ensures
        r matches Ok(v) ==> gzip_prefix(data@, max as nat) == Some(v@) && v@.len() <= max,
        r is Err ==> gzip_prefix(data@, max as nat) is None,
{
    let mut decoder = flate2::read::GzDecoder::new(data);
    let mut buf = vec![0u8; max];
    match std::io::Read::read(&mut decoder, &mut buf) {
        Ok(n) => {
            buf.truncate(n);
            Ok(buf)
        },
        Err(e) => Err(e.to_string()),
    }
}

/// A valid GZIP header: magic bytes `1F 8B` followed by the DEFLATE
/// compression method byte `08`.
pub open spec fn valid_gzip_header(data: Seq<u8>) -> bool {
    data.len() >= 3 && data[0] == 0x1f && data[1] == 0x8b && data[2] == 0x08
}

/// Offset of the NUL-terminated original-filename field, when the FNAME flag
/// is set and the header is long enough to reach the field: the fixed header
/// is 10 bytes, and a FEXTRA field of `2 + XLEN` bytes (little-endian 16-bit
/// `XLEN`) is skipped when present.
pub open spec fn gzip_fname_offset(data: Seq<u8>) -> Option<int> {
    if data.len() < 10 {
        None
    } else if data[3] & 0x08 == 0 {
        None
    } else if data[3] & 0x04 != 0 {
        if data.len() < 12 {
            None
        } else {
            let xlen = data[10] + 256 * data[11];
            if 12 + xlen >= data.len() {
                None
            } else {
                Some(12 + xlen)
            }
        }
    } else {
        if data.len() <= 10 {
            None
        } else {
            Some(10)
        }
    }
}

/// Position of the first NUL byte at or after `i`, or the end of the data
/// when none follows.
pub open spec fn gzip_fname_end(data: Seq<u8>, i: int) -> int
    recommends
        0 <= i <= data.len(),
    decreases data.len() - i,
{
    if i < 0 || i >= data.len() {
        i
    } else if data[i] == 0 {
        i
    } else {
        gzip_fname_end(data, i + 1)
    }
}

/// The raw bytes of the original-filename field, when recoverable.
pub open spec fn gzip_filename_bytes(data: Seq<u8>) -> Option<Seq<u8>> {
    match gzip_fname_offset(data) {
        None => None,
        Some(off) => Some(data.subrange(off, gzip_fname_end(data, off))),
    }
}

/// The recovered original filename: the filename field decoded as UTF-8,
/// `None` when the field is absent, unreachable or not valid UTF-8.
/// Malformed metadata is never an error; it only degrades to `None`.
pub open spec fn spec_original_filename(data: Seq<u8>) -> Option<Seq<char>> {
    match gzip_filename_bytes(data) {
        None => None,
        Some(bs) => if valid_utf8(bs) {
            Some(decode_utf8(bs))
        } else {
            None
        },
    }
}

proof fn lemma_fname_end_found(data: Seq<u8>, start: int, i: int)
    requires
        0 <= start <= i <= data.len(),
        forall|j: int| start <= j < i ==> data[j] != 0,
        i == data.len() || data[i] == 0,
    ensures
        gzip_fname_end(data, start) == i,
    decreases i - start,
{
    if start < i {
        lemma_fname_end_found(data, start + 1, i);
    }
}

/// The conservative fallback estimate: three times the compressed size,
/// saturating at the largest representable size.
pub open spec fn spec_conservative_estimate(compressed_size: u64) -> u64 {
    if compressed_size > u64::MAX / 3 {
        u64::MAX
    } else {
        (3 * compressed_size) as u64
    }
}

/// The sampled estimate: the compressed size scaled by the ratio between the
/// bytes a bounded decompression of the sample produced and the sample size,
/// saturating at the largest representable size and floored at the
/// compressed size itself.
pub open spec fn spec_scaled_estimate(compressed_size: u64, produced: nat, sample_len: nat) -> u64
    recommends
        sample_len > 0,
{
    let est = (compressed_size * produced) / (sample_len as int);
    if est > u64::MAX {
        u64::MAX
    } else if est < compressed_size {
        compressed_size
    } else {
        est as u64
    }
}

/// The size-estimation heuristic: samples shorter than 1 KiB (or samples the
/// decoder rejects or decodes to nothing) fall back to the conservative
/// three-fold estimate; otherwise up to 64 KiB of the sample is decompressed
/// and the compressed size is scaled by the observed ratio.
pub open spec fn spec_estimated_size(compressed_size: u64, sample: Seq<u8>) -> u64 {
    if sample.len() < 1024 {
        spec_conservative_estimate(compressed_size)
    } else {
        match gzip_prefix(sample, 65536) {
            Some(d) => if d.len() > 0 {
                spec_scaled_estimate(compressed_size, d.len(), sample.len())
            } else {
                spec_conservative_estimate(compressed_size)
            },
            None => spec_conservative_estimate(compressed_size),
        }
    }
}

/// The size reported for the single entry of a complete analysis: the length
/// of the bounded 64 KiB decompression sample, zero when decoding fails.
pub open spec fn complete_entry_size(data: Seq<u8>) -> nat {
    match gzip_prefix(data, 65536) {
        Some(d) => d.len(),
        None => 0,
    }
}

/// The path reported for the single entry: the recovered original filename,
/// or the synthesized default when none is recoverable.
pub open spec fn complete_entry_path(data: Seq<u8>) -> Seq<char> {
    match spec_original_filename(data) {
        Some(s) => s,
        None => "compressed_content"@,
    }
}

/// Shape of the `ArchiveInfo` a complete analysis of `data` yields.  The
/// size fields come from a bounded decompression sample and so never exceed
/// 64 KiB.
pub open spec fn complete_info_ok(data: Seq<u8>, info: ArchiveInfo) -> bool {
    &&& info.compression_type == CompressionType::Gzip
    &&& info.entries@.len() == 1
    &&& info.entries@[0].path@ == complete_entry_path(data)
    &&& info.entries@[0].size == complete_entry_size(data)
    &&& info.entries@[0].compressed_size == Some(data.len() as u64)
    &&& !info.entries@[0].is_dir
    &&& info.entries@[0].modified_time is None
    &&& info.entries@[0].crc32 is None
    &&& info.entries@[0].index == 0
    &&& info.entries@[0].metadata@ == Map::<String, String>::empty()
    &&& info.total_entries == 1
    &&& info.total_uncompressed_size == complete_entry_size(data)
    &&& info.total_uncompressed_size <= 65536
    &&& info.total_compressed_size == data.len()
    &&& info.supports_streaming
    &&& !info.supports_random_access
    &&& info.analysis_status == AnalysisStatus::Complete
}

/// `name` ends with `suffix`, compared byte for byte (case-sensitively).
pub open spec fn ends_with_bytes(name: Seq<u8>, suffix: Seq<u8>) -> bool {
    name.len() >= suffix.len() && name.subrange(
        name.len() - suffix.len(),
        name.len() as int,
    ) == suffix
}

/// Case-sensitive suffix test on byte slices.
pub fn ends_with_slice(name: &[u8], suffix: &[u8]) -> (r: bool)
    ensures
        r == ends_with_bytes(name@, suffix@),
{
    if name.len() < suffix.len() {
        proof {
            assert(!ends_with_bytes(name@, suffix@));
        }
        return false;
    }
    let offset = name.len() - suffix.len();
    let mut i: usize = 0;
    while i < suffix.len()
        invariant
            0 <= i <= suffix@.len(),
            offset == name@.len() - suffix@.len(),
            name@.len() >= suffix@.len(),
            name@.len() <= usize::MAX,
            forall|j: int| 0 <= j < i ==> name@[offset + j] == suffix@[j],
        decreases suffix@.len() - i,
    {
        if name[offset + i] != suffix[i] {
            proof {
                assert(name@.subrange(offset as int, name@.len() as int)[i as int] == name@[offset
                    + i]);
            }
            return false;
        }
        i += 1;
    }
    proof {
        assert(name@.subrange(offset as int, name@.len() as int) =~= suffix@);
    }
    true
}

/// The filename with a final `.gz` suffix removed (case-sensitively), as the
/// streaming paths fall back to when the header carries no original
/// filename.
pub open spec fn spec_stripped_gz(filename: &str) -> Seq<char> {
    let fb = filename.spec_bytes();
    if ends_with_bytes(fb, ".gz".spec_bytes()) {
        decode_utf8(fb.subrange(0, fb.len() - 3))
    } else {
        filename@
    }
}

/// Removes a final `.gz` suffix from `filename`, when present.
pub fn strip_gz_suffix(filename: &str) -> (r: String)
    ensures
        r@ == spec_stripped_gz(filename),
{
    let bytes = filename.as_bytes();
    let gz = ".gz".as_bytes();
    proof {
        reveal_strlit(".gz");
        assert(vstd::utf8::is_ascii_chars(".gz"@));
        vstd::utf8::is_ascii_chars_encode_utf8(".gz"@);
        assert(".gz".spec_bytes().len() == 3);
        assert(".gz".spec_bytes()[0] == 46);
    }
    if ends_with_slice(bytes, gz) {
        let mid = bytes.len() - 3;
        proof {
            let fb = filename.spec_bytes();
            broadcast use vstd::utf8::encode_utf8_valid_utf8;

            assert(fb[mid as int] == ".gz".spec_bytes()[0]) by {
                assert(fb.subrange(fb.len() - 3, fb.len() as int)[0] == fb[fb.len() - 3]);
            }
            assert(46u8 & 0xc0 == 0) by (bit_vector);
            assert(!vstd::utf8::is_continuation_byte(46u8));
            vstd::utf8::is_char_boundary_iff_not_is_continuation_byte(fb, mid as int);
        }
        let (head, _tail) = filename.split_at(mid);
        proof {
            broadcast use vstd::utf8::encode_utf8_decode_utf8;

            assert(head.spec_bytes() == vstd::utf8::encode_utf8(head@));
            assert(decode_utf8(head.spec_bytes()) == head@);
        }
        head.to_owned()
    } else {
        filename.to_owned()
    }
}

/// The path reported by the streaming analyses: the recovered original
/// filename from the header prefix, or the supplied filename with a `.gz`
/// suffix stripped.
pub open spec fn streaming_entry_path(header: Seq<u8>, filename: &str) -> Seq<char> {
    match spec_original_filename(header) {
        Some(s) => s,
        None => spec_stripped_gz(filename),
    }
}

/// Shape of the `ArchiveInfo` a size-aware streaming analysis yields.
pub open spec fn streaming_info_ok(
    header: Seq<u8>,
    sample: Seq<u8>,
    filename: &str,
    file_size: u64,
    info: ArchiveInfo,
) -> bool {
    &&& info.compression_type == CompressionType::Gzip
    &&& info.entries@.len() == 1
    &&& info.entries@[0].path@ == streaming_entry_path(header, filename)
    &&& info.entries@[0].size == spec_estimated_size(file_size, sample)
    &&& info.entries@[0].compressed_size == Some(file_size)
    &&& !info.entries@[0].is_dir
    &&& info.entries@[0].modified_time is None
    &&& info.entries@[0].crc32 is None
    &&& info.entries@[0].index == 0
    &&& info.entries@[0].metadata@ == Map::<String, String>::empty()
    &&& info.total_entries == 1
    &&& info.total_uncompressed_size == spec_estimated_size(file_size, sample)
    &&& info.total_compressed_size == file_size
    &&& info.supports_streaming
    &&& !info.supports_random_access
    &&& info.analysis_status == AnalysisStatus::Streaming { estimated_entries: Some(1u64) }
}

/// Shape of the `ArchiveInfo` a streaming analysis without a known total
/// size yields: a structurally valid result with placeholder sizes.
pub open spec fn streaming_no_size_info_ok(header: Seq<u8>, filename: &str, info: ArchiveInfo) -> bool {
    &&& info.compression_type == CompressionType::Gzip
    &&& info.entries@.len() == 1
    &&& info.entries@[0].path@ == streaming_entry_path(header, filename)
    &&& info.entries@[0].size == 0
    &&& info.entries@[0].compressed_size is None
    &&& !info.entries@[0].is_dir
    &&& info.entries@[0].modified_time is None
    &&& info.entries@[0].crc32 is None
    &&& info.entries@[0].index == 0
    &&& info.entries@[0].metadata@ == Map::<String, String>::empty()
    &&& info.total_entries == 1
    &&& info.total_uncompressed_size == 0
    &&& info.total_compressed_size == 0
    &&& info.supports_streaming
    &&& !info.supports_random_access
    &&& info.analysis_status == AnalysisStatus::Streaming { estimated_entries: Some(1u64) }
}

/// Shape of the `FilePreview` the URL-path preview extraction yields: the
/// content is classified by the recovered filename's extension; text is
/// decoded as UTF-8 with a lossy fallback on invalid sequences, binary
/// content is rendered as base64; the total size is the heuristic estimate
/// and `is_truncated` holds when fewer bytes were produced than it.
pub open spec fn url_preview_ok(data: Seq<u8>, max: nat, p: FilePreview) -> bool {
    match gzip_prefix(data, max) {
        None => false,
        Some(decoded) => {
            let name = complete_entry_path(data);
            let is_text = crate::archive_types::spec_is_text_path(vstd::utf8::encode_utf8(name));
            &&& p.file_type == (if is_text {
                FileType::Text
            } else {
                FileType::Binary
            })
            &&& p.content@ == (if is_text {
                if valid_utf8(decoded) {
                    decode_utf8(decoded)
                } else {
                    utf8_lossy_of(decoded)
                }
            } else {
                base64_std_of(decoded)
            })
            &&& p.encoding@ == (if is_text {
                "utf-8"@
            } else {
                "base64"@
            })
            &&& p.total_size == spec_estimated_size(data.len() as u64, data)
            &&& p.is_truncated == (decoded.len() < spec_estimated_size(data.len() as u64, data))
        },
    }
}

/// Shape of the `FilePreview` the client-bound preview extraction yields:
/// the content is classified by sniffing the decoded bytes (not a filename);
/// at most `max` bytes are decoded, and `is_truncated` holds exactly when
/// the decoded sample filled that whole budget, the heuristic sign that more
/// data likely remains.
pub open spec fn data_preview_ok(data: Seq<u8>, max: nat, p: FilePreview) -> bool {
    match gzip_prefix(data, max) {
        None => false,
        Some(decoded) => {
            let is_text = spec_is_text_content(decoded);
            &&& decoded.len() <= max
            &&& p.file_type == (if is_text {
                FileType::Text
            } else {
                FileType::Binary
            })
            &&& p.content@ == (if is_text {
                utf8_lossy_of(decoded)
            } else {
                base64_std_of(decoded)
            })
            &&& p.encoding@ == (if is_text {
                "utf-8"@
            } else {
                "base64"@
            })
            &&& p.total_size == 0
            &&& p.is_truncated == (decoded.len() >= max)
        },
    }
}

impl GzipHandler {
    /// Header validation: the first three bytes must be the GZIP magic and
    /// the DEFLATE method byte.
    pub fn validate_gzip_header(data: &[u8]) -> (r: bool)
        ensures
            r == valid_gzip_header(data@),
    {
        data.len() >= 3 && data[0] == 0x1f && data[1] == 0x8b && data[2] == 0x08
    }

    /// Cheap magic-byte self-check on a prefix buffer: true iff the first
    /// bytes match the format's declared two-byte signature, false for empty
    /// or too-short input.
    pub fn validate_format(&self, data: &[u8]) -> (r: bool)
        ensures
            r == (data@.len() >= 2 && data@[0] == 0x1f && data@[1] == 0x8b),
    {
        data.len() >= 2 && data[0] == 0x1f && data[1] == 0x8b
    }

    /// The identity tag of this handler.
    pub fn compression_type(&self) -> (r: CompressionType)
        ensures
            r == CompressionType::Gzip,
    {
        CompressionType::Gzip
    }

    /// Best-effort recovery of the original filename stored behind the FNAME
    /// flag: skips the 10-byte fixed header and, when FEXTRA is set, exactly
    /// `2 + XLEN` further bytes, then reads up to and excluding the first
    /// NUL.  Malformed or out-of-range offsets yield `None`, never an error.
    pub fn extract_original_filename(data: &[u8]) -> (r: Option<String>)
        ensures
            r matches Some(s) ==> spec_original_filename(data@) == Some(s@),
            r is None ==> spec_original_filename(data@) is None,
    {
        if data.len() < 10 {
            return None;
        }
        let flg = data[3];
        if flg & 0x08 == 0 {
            return None;
        }
        let mut offset: usize = 10;
        if flg & 0x04 != 0 {
            if data.len() < 12 {
                return None;
            }
            let xlen: usize = data[10] as usize + 256 * (data[11] as usize);
            offset = 12 + xlen;
        }
        if offset >= data.len() {
            return None;
        }
        assert(gzip_fname_offset(data@) == Some(offset as int));
        let mut name_bytes: Vec<u8> = Vec::new();
        let mut i: usize = offset;
        while i < data.len() && data[i] != 0
            invariant
                offset <= i <= data@.len(),
                name_bytes@ =~= data@.subrange(offset as int, i as int),
                forall|j: int| offset <= j < i ==> data@[j] != 0,
            decreases data@.len() - i,
        {
            name_bytes.push(data[i]);
            i += 1;
        }
        proof {
            lemma_fname_end_found(data@, offset as int, i as int);
            assert(gzip_filename_bytes(data@) == Some(name_bytes@));
        }
        string_from_utf8(name_bytes)
    }

    /// Size estimation without full decompression: see
    /// [`spec_estimated_size`].  The estimate is never smaller than the
    /// compressed size itself.
    pub fn estimate_uncompressed_size(compressed_size: u64, sample_data: &[u8]) -> (r: u64)
        ensures
            r == spec_estimated_size(compressed_size, sample_data@),
            r >= compressed_size,
    {
        if sample_data.len() < 1024 {
            return Self::conservative_estimate(compressed_size);
        }
        match read_gzip_prefix(sample_data, 65536) {
            Ok(d) => {
                if d.len() > 0 {
                    proof {
                        assert((compressed_size as int) * (d@.len() as int) <= (u64::MAX as int)
                            * 65536) by (nonlinear_arith)
                            requires
                                compressed_size <= u64::MAX,
                                d@.len() <= 65536,
                        ;
                    }
                    let est128: u128 = (compressed_size as u128) * (d.len() as u128) / (
                    sample_data.len() as u128);
                    let est: u64 = if est128 > u64::MAX as u128 {
                        u64::MAX
                    } else {
                        est128 as u64
                    };
                    if est < compressed_size {
                        compressed_size
                    } else {
                        est
                    }
                } else {
                    Self::conservative_estimate(compressed_size)
                }
            },
            Err(_) => Self::conservative_estimate(compressed_size),
        }
    }

    /// The three-fold fallback estimate, saturating.
    fn conservative_estimate(compressed_size: u64) -> (r: u64)
        ensures
            r == spec_conservative_estimate(compressed_size),
            r >= compressed_size,
    {
        if compressed_size > u64::MAX / 3 {
            u64::MAX
        } else {
            3 * compressed_size
        }
    }

    /// Complete analysis of an in-memory GZIP stream: validates the header,
    /// decompresses a bounded 64 KiB sample for the size field, recovers the
    /// original filename (synthesizing a default when absent) and reports a
    /// single entry with `Complete` status.
    pub fn analyze_complete(&self, data: &[u8]) -> (r: Result<ArchiveInfo, String>)
        ensures
            r is Ok <==> valid_gzip_header(data@),
            r matches Err(e) ==> e@ == "Invalid GZIP header"@,
            r matches Ok(info) ==> complete_info_ok(data@, info),
    {
        if !Self::validate_gzip_header(data) {
            return Err("Invalid GZIP header".to_owned());
        }
        let uncompressed_len: usize = match read_gzip_prefix(data, 65536) {
            Ok(v) => v.len(),
            Err(_) => 0,
        };
        let original_filename: String = match Self::extract_original_filename(data) {
            Some(name) => name,
            None => "compressed_content".to_owned(),
        };
        let entry = ArchiveEntry {
            path: original_filename,
            size: uncompressed_len as u64,
            compressed_size: Some(data.len() as u64),
            is_dir: false,
            modified_time: None,
            crc32: None,
            index: 0,
            metadata: HashMap::new(),
        };
        let mut entries: Vec<ArchiveEntry> = Vec::new();
        entries.push(entry);
        let info = ArchiveInfoBuilder::new(CompressionType::Gzip)
            .entries(entries)
            .total_entries(1)
            .total_uncompressed_size(uncompressed_len as u64)
            .total_compressed_size(data.len() as u64)
            .supports_streaming(true)
            .supports_random_access(false)
            .analysis_status(AnalysisStatus::Complete)
            .build();
        Ok(info)
    }

    /// Streaming analysis with a known total size: validates the header on a
    /// short prefix, recovers the entry path, and estimates the uncompressed
    /// size from a bounded sample.  The status is always
    /// `Streaming { estimated_entries: Some(1) }`, never `Complete`.
    ///
    /// `header_data` is a short (about 1 KiB) prefix of the stream used for
    /// validation and filename recovery; `sample_data` is a larger (up to
    /// 64 KiB) prefix used for size estimation.
    pub fn analyze_streaming(
        &self,
        header_data: &[u8],
        sample_data: &[u8],
        filename: &str,
        file_size: u64,
    ) -> (r: Result<ArchiveInfo, String>)
        ensures
            r is Ok <==> valid_gzip_header(header_data@),
            r matches Err(e) ==> e@ == "Invalid GZIP header"@,
            r matches Ok(info) ==> streaming_info_ok(
                header_data@,
                sample_data@,
                filename,
                file_size,
                info,
            ),
    {
        if !Self::validate_gzip_header(header_data) {
            return Err("Invalid GZIP header".to_owned());
        }
        let original_filename: String = match Self::extract_original_filename(header_data) {
            Some(name) => name,
            None => strip_gz_suffix(filename),
        };
        let estimated = Self::estimate_uncompressed_size(file_size, sample_data);
        let entry = ArchiveEntry {
            path: original_filename,
            size: estimated,
            compressed_size: Some(file_size),
            is_dir: false,
            modified_time: None,
            crc32: None,
            index: 0,
            metadata: HashMap::new(),
        };
        let mut entries: Vec<ArchiveEntry> = Vec::new();
        entries.push(entry);
        let info = ArchiveInfoBuilder::new(CompressionType::Gzip)
            .entries(entries)
            .total_entries(1)
            .total_uncompressed_size(estimated)
            .total_compressed_size(file_size)
            .supports_streaming(true)
            .supports_random_access(false)
            .analysis_status(AnalysisStatus::Streaming { estimated_entries: Some(1u64) })
            .build();
        Ok(info)
    }

    /// Streaming analysis when the total size is unknown: still produces a
    /// structurally valid result, with a placeholder entry size of zero and
    /// no compressed size.  The status is always
    /// `Streaming { estimated_entries: Some(1) }`, never `Complete`.
    pub fn analyze_streaming_without_size(
        &self,
        header_data: &[u8],
        filename: &str,
    ) -> (r: Result<ArchiveInfo, String>)
        ensures
            r is Ok <==> valid_gzip_header(header_data@),
            r matches Err(e) ==> e@ == "Invalid GZIP header"@,
            r matches Ok(info) ==> streaming_no_size_info_ok(header_data@, filename, info),
    {
        if !Self::validate_gzip_header(header_data) {
            return Err("Invalid GZIP header".to_owned());
        }
        let original_filename: String = match Self::extract_original_filename(header_data) {
            Some(name) => name,
            None => strip_gz_suffix(filename),
        };
        let entry = ArchiveEntry {
            path: original_filename,
            size: 0,
            compressed_size: None,
            is_dir: false,
            modified_time: None,
            crc32: None,
            index: 0,
            metadata: HashMap::new(),
        };
        let mut entries: Vec<ArchiveEntry> = Vec::new();
        entries.push(entry);
        let info = ArchiveInfoBuilder::new(CompressionType::Gzip)
            .entries(entries)
            .total_entries(1)
            .supports_streaming(true)
            .supports_random_access(false)
            .analysis_status(AnalysisStatus::Streaming { estimated_entries: Some(1u64) })
            .build();
        Ok(info)
    }

    /// Preview extraction from a downloaded prefix of the stream: validates
    /// the header, decompresses up to `max_size` bytes, classifies the
    /// content by the recovered filename's extension, and reports the
    /// heuristic total-size estimate.  On a decode failure the decoder's own
    /// message is returned.
    pub fn extract_preview(&self, data: &[u8], max_size: usize) -> (r: Result<FilePreview, String>)
        requires
            max_size <= usize::MAX / 4 * 3,
        ensures
            r is Ok <==> valid_gzip_header(data@) && gzip_prefix(data@, max_size as nat) is Some,
            !valid_gzip_header(data@) ==> (r matches Err(e) && e@ == "Invalid GZIP header"@),
            r matches Err(e) ==> e@ == "Invalid GZIP header"@ || gzip_prefix(
                data@,
                max_size as nat,
            ) is None,
            r matches Ok(p) ==> url_preview_ok(data@, max_size as nat, p),
    {
        if !Self::validate_gzip_header(data) {
            return Err("Invalid GZIP header".to_owned());
        }
        let preview = match read_gzip_prefix(data, max_size) {
            Ok(v) => v,
            Err(e) => {
                return Err(e);
            },
        };
        let original_filename: String = match Self::extract_original_filename(data) {
            Some(name) => name,
            None => "compressed_content".to_owned(),
        };
        let file_type = FileType::from_path(original_filename.as_str());
        let content: String = if file_type.is_text() {
            string_from_utf8_lossy(preview.as_slice())
        } else {
            base64_encode(preview.as_slice())
        };
        let encoding: String = if file_type.is_text() {
            "utf-8".to_owned()
        } else {
            "base64".to_owned()
        };
        let estimated_total = Self::estimate_uncompressed_size(data.len() as u64, data);
        let preview_len = preview.len();
        let result = PreviewBuilder::new()
            .content(content)
            .with_truncated((preview_len as u64) < estimated_total)
            .total_size(estimated_total)
            .file_type(file_type)
            .encoding(encoding)
            .build();
        Ok(result)
    }

    /// Preview extraction from a fully read stream: decompresses up to
    /// `max_size` bytes and classifies the content by sniffing the decoded
    /// bytes; binary content is encoded as base64 for transport, and the
    /// preview counts as truncated when the decoded sample filled the whole
    /// budget.
    pub fn extract_gzip_preview_from_data(data: &[u8], max_size: usize) -> (r: Result<
        FilePreview,
        String,
    >)
        requires
            max_size <= usize::MAX / 4 * 3,
        ensures
            r is Ok <==> gzip_prefix(data@, max_size as nat) is Some,
            r matches Err(e) ==> "Failed to decompress data: "@.is_prefix_of(e@),
            r matches Ok(p) ==> data_preview_ok(data@, max_size as nat, p),
    {
        let preview = match read_gzip_prefix(data, max_size) {
            Ok(v) => v,
            Err(m) => {
                let msg = "Failed to decompress data: ".to_owned().concat(m.as_str());
                proof {
                    assert("Failed to decompress data: "@.is_prefix_of(msg@)) by {
                        assert(msg@.subrange(
                            0,
                            "Failed to decompress data: "@.len() as int,
                        ) =~= "Failed to decompress data: "@);
                    }
                }
                return Err(msg);
            },
        };
        let is_text = is_text_content(preview.as_slice());
        let content: String = if is_text {
            string_from_utf8_lossy(preview.as_slice())
        } else {
            base64_encode(preview.as_slice())
        };
        let encoding: String = if is_text {
            "utf-8".to_owned()
        } else {
            "base64".to_owned()
        };
        let file_type = if is_text {
            FileType::Text
        } else {
            FileType::Binary
        };
        let preview_len = preview.len();
        let result = PreviewBuilder::new()
            .content(content)
            .file_type(file_type)
            .encoding(encoding)
            .with_truncated(preview_len >= max_size)
            .build();
        Ok(result)
    }

    /// Client-bound analysis: reads the file through the storage contract
    /// (all of it, or only the first `max_size` bytes when a limit is given)
    /// and runs the complete analysis on the bytes read.  A backend read
    /// failure is wrapped with context; the analysis result is exactly the
    /// complete-analysis shape for the bytes the backend returned.
    pub fn analyze_with_client<C: StorageClient>(
        &self,
        client: &C,
        file_path: &str,
        filename: &str,
        max_size: Option<usize>,
    ) -> (r: Result<ArchiveInfo, String>)
        ensures
            r matches Ok(info) ==> exists|data: Seq<u8>| complete_info_ok(data, info),
            r matches Err(e) ==> e@ == "Invalid GZIP header"@ || "Failed to read file: "@.is_prefix_of(
                e@,
            ),
    {
        let _ = filename;
        let read_result = match max_size {
            Some(limit) => client.read_file_range(file_path, 0, limit as u64),
            None => client.read_full_file(file_path),
        };
        let data = match read_result {
            Ok(d) => d,
            Err(e) => {
                return Err(read_failure_message(&e));
            },
        };
        match self.analyze_complete(data.as_slice()) {
            Ok(info) => {
                proof {
                    assert(complete_info_ok(data@, info));
                }
                Ok(info)
            },
            Err(e) => Err(e),
        }
    }

    /// Client-bound preview extraction: reads the entire file through the
    /// storage contract (GZIP cannot be partially addressed without an index
    /// pass), reporting progress through the degraded single-callback path,
    /// then decompresses up to `max_size` bytes and classifies the decoded
    /// bytes.
    pub fn extract_preview_with_client<C: StorageClient, F: Fn(u64, u64), S: CancelSignal>(
        &self,
        client: &C,
        file_path: &str,
        entry_path: &str,
        max_size: usize,
        progress_callback: Option<&F>,
        cancel_rx: Option<&S>,
    ) -> (r: Result<FilePreview, String>)
        requires
            max_size <= usize::MAX / 4 * 3,
            progress_callback matches Some(f) ==> forall|n: u64| call_requires(*f, (n, n)),
        ensures
            r matches Ok(p) ==> exists|data: Seq<u8>| data_preview_ok(data, max_size as nat, p),
            r matches Err(e) ==> "Failed to read file: "@.is_prefix_of(e@)
                || "Failed to decompress data: "@.is_prefix_of(e@),
    {
        let _ = entry_path;
        let read_result = read_full_file_with_progress(
            client,
            file_path,
            progress_callback,
            cancel_rx,
        );
        let data = match read_result {
            Ok(d) => d,
            Err(e) => {
                return Err(read_failure_message(&e));
            },
        };
        match Self::extract_gzip_preview_from_data(data.as_slice(), max_size) {
            Ok(p) => {
                proof {
                    assert(data_preview_ok(data@, max_size as nat, p));
                }
                Ok(p)
            },
            Err(e) => Err(e),
        }
    }
}

/// Wraps a backend read failure with context, as every handler does.
pub fn read_failure_message(e: &StorageError) -> (r: String)
    ensures
        r@ == "Failed to read file: "@ + crate::storage::spec_error_message(*e),
        "Failed to read file: "@.is_prefix_of(r@),
{
    let msg = "Failed to read file: ".to_owned().concat(e.message().as_str());
    proof {
        assert(msg@.subrange(0, "Failed to read file: "@.len() as int) =~= "Failed to read file: "@);
    }
    msg
}

} // verus!
