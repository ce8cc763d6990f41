//! Archive facade: the single entry point callers use.  It resolves the
//! compression type from the filename (falling back to magic-byte sniffing
//! through a short header read when ambiguous), rejects declared-unsupported
//! formats early with stable error codes, delegates to the matching handler,
//! and exposes the auxiliary size/ratio formatting and chunk-size utilities.

use vstd::arithmetic::div_mod::{
    lemma_div_is_ordered, lemma_multiply_divide_lt,
};
use vstd::arithmetic::mul::lemma_mul_inequality;
use vstd::prelude::*;
use vstd::string::{StringExecFns, StringSliceAdditionalSpecFns};

use crate::archive_types::{ArchiveInfo, FilePreview};
use crate::compression::{spec_from_filename, spec_from_magic, CompressionType};
use crate::gzip::{complete_info_ok, data_preview_ok, GzipHandler};
use crate::numfmt::{dec_str, digit_char, digit_str, u64_to_string};
use crate::storage::{CancelSignal, StorageClient};

verus! {

/// The stable, machine-readable error code for each format the registry
/// recognizes but declines to support; `None` for the formats the engine may
/// analyze and for `Unknown`.
pub open spec fn spec_unsupported_code(t: CompressionType) -> Option<Seq<char>> {
    match t {
        CompressionType::SevenZip => Some("archive.format.7z.not.supported"@),
        CompressionType::Rar => Some("archive.format.rar.not.supported"@),
        CompressionType::Brotli => Some("archive.format.brotli.not.supported"@),
        CompressionType::Lz4 => Some("archive.format.lz4.not.supported"@),
        CompressionType::Zstd => Some("archive.format.zstd.not.supported"@),
        _ => None,
    }
}

/// The declared-unsupported pre-flight check: a stable error code, or
/// nothing when the format may proceed.
fn unsupported_format_error(t: CompressionType) -> (r: Option<String>)
    ensures
        r matches Some(s) ==> spec_unsupported_code(t) == Some(s@),
        r is Some <==> spec_unsupported_code(t) is Some,
{
    match t {
        CompressionType::SevenZip => Some("archive.format.7z.not.supported".to_owned()),
        CompressionType::Rar => Some("archive.format.rar.not.supported".to_owned()),
        CompressionType::Brotli => Some("archive.format.brotli.not.supported".to_owned()),
        CompressionType::Lz4 => Some("archive.format.lz4.not.supported".to_owned()),
        CompressionType::Zstd => Some("archive.format.zstd.not.supported".to_owned()),
        _ => None,
    }
}

/// The preview budget when the caller gives none: 4 GiB, practically
/// unbounded for preview purposes, clamped to what the base64 rendering of a
/// full budget can address.
pub open spec fn spec_preview_limit(max_preview_size: Option<usize>) -> nat {
    match max_preview_size {
        Some(m) => m as nat,
        None => if 4294967296 <= usize::MAX as nat / 4 * 3 {
            4294967296 as nat
        } else {
            (usize::MAX / 4 * 3) as nat
        },
    }
}

/// Value of `bytes` scaled to `unit`, in hundredths, rounded to the nearest
/// (ties away from zero).
pub open spec fn spec_size_in_centi_units(bytes: u64, unit: u64) -> nat
    recommends
        unit >= 1,
{
    (bytes as nat / unit as nat) * 100 + ((bytes as nat % unit as nat) * 200 + unit as nat) / (2
        * unit as nat)
}

/// One scaled size rendering: integral part, a dot, exactly two fractional
/// digits, and the unit suffix.
pub open spec fn spec_scaled_size(bytes: u64, unit: u64, suffix: Seq<char>) -> Seq<char> {
    let centi = spec_size_in_centi_units(bytes, unit);
    dec_str(centi / 100) + "."@ + seq![digit_char((centi / 10) % 10), digit_char(centi % 10)]
        + suffix
}

/// Human-readable size formatting: binary units with base 1024; sizes below
/// one KiB are rendered as plain bytes, larger sizes with two-decimal
/// precision in the largest unit not exceeding them (capped at TB).
pub open spec fn spec_format_file_size(bytes: u64) -> Seq<char> {
    if bytes < 1024 {
        dec_str(bytes as nat) + " B"@
    } else if bytes < 1048576 {
        spec_scaled_size(bytes, 1024, " KB"@)
    } else if bytes < 1073741824 {
        spec_scaled_size(bytes, 1048576, " MB"@)
    } else if bytes < 1099511627776 {
        spec_scaled_size(bytes, 1073741824, " GB"@)
    } else {
        spec_scaled_size(bytes, 1099511627776, " TB"@)
    }
}

/// The compression ratio `(uncompressed - compressed) / uncompressed`, with
/// saturating subtraction, in tenths of a percent, rounded to the nearest
/// (ties away from zero).
pub open spec fn spec_ratio_tenths(uncompressed: u64, compressed: u64) -> nat
    recommends
        uncompressed > 0,
{
    let diff: nat = if uncompressed >= compressed {
        (uncompressed - compressed) as nat
    } else {
        0
    };
    (diff * 2000 + uncompressed as nat) / (2 * uncompressed as nat)
}

/// The rendered compression ratio: one fractional digit and a percent sign.
/// A compressed size of zero saves everything and renders as `100.0%`; a
/// zero uncompressed size (where the formula is undefined) degrades to
/// `0.0%`.
pub open spec fn spec_compression_ratio(uncompressed: u64, compressed: u64) -> Seq<char> {
    if uncompressed == 0 {
        "0.0%"@
    } else {
        let tenths = spec_ratio_tenths(uncompressed, compressed);
        dec_str(tenths / 10) + "."@ + seq![digit_char(tenths % 10)] + "%"@
    }
}

/// Law: for a fixed uncompressed size, the compression ratio never decreases
/// as the compressed size decreases.
pub proof fn lemma_ratio_monotone(uncompressed: u64, c1: u64, c2: u64)
    requires
        uncompressed > 0,
        c1 <= c2,
    ensures
        spec_ratio_tenths(uncompressed, c2) <= spec_ratio_tenths(uncompressed, c1),
{
    let u = uncompressed as int;
    let d1: int = if uncompressed >= c1 {
        uncompressed - c1
    } else {
        0
    };
    let d2: int = if uncompressed >= c2 {
        uncompressed - c2
    } else {
        0
    };
    assert(d2 <= d1);
    lemma_mul_inequality(d2, d1, 2000);
    lemma_div_is_ordered(d2 * 2000 + u, d1 * 2000 + u, 2 * u);
}

/// Recommended I/O chunk size: formats with random access (only ZIP, by
/// current registry policy) read in chunks that grow with the file size,
/// from 64 KiB up to 1 MiB; formats without random access always use 64 KiB,
/// since their content must be decompressed in order anyway.
pub open spec fn spec_chunk_size(random_access: bool, file_size: u64) -> usize {
    if random_access {
        if file_size < 10485760 {
            65536
        } else if file_size < 104857600 {
            262144
        } else {
            1048576
        }
    } else {
        65536
    }
}

/// Resolves the handler for a sniffed header prefix: the magic bytes decide,
/// and since GZIP is the format this engine implements, a header resolving
/// to any other tag (or to none) is rejected with the generic
/// unsupported-format error.
pub fn resolve_sniffed_format(header: &[u8]) -> (r: Result<CompressionType, String>)
    ensures
        spec_from_magic(header@) == CompressionType::Gzip ==> r == Ok::<
            CompressionType,
            String,
        >(CompressionType::Gzip),
        spec_from_magic(header@) != CompressionType::Gzip ==> (r matches Err(e) && e@
            == "Unsupported archive format"@),
{
    let resolved = CompressionType::from_magic_bytes(header);
    match resolved {
        CompressionType::Gzip => Ok(CompressionType::Gzip),
        _ => Err("Unsupported archive format".to_owned()),
    }
}

/// The unified entry point for archive analysis and preview.
pub struct ArchiveHandler;

impl ArchiveHandler {
    pub fn new() -> (r: Self) {
        ArchiveHandler
    }

    /// Analyzes an archive through a storage backend: resolves the
    /// compression type from the filename, rejects declared-unsupported
    /// formats immediately with their stable code and without any backend
    /// read, sniffs magic bytes from a 512-byte header read when the
    /// filename is ambiguous, and delegates to the matching handler (GZIP is
    /// the format this engine implements; a type without a handler is
    /// rejected).
    pub fn analyze_archive_with_client<C: StorageClient>(
        &self,
        client: &C,
        file_path: String,
        filename: String,
        max_size: Option<usize>,
    ) -> (r: Result<ArchiveInfo, String>)
        ensures
            ({
                let ct = spec_from_filename(vstd::utf8::encode_utf8(filename@));
                &&& (spec_unsupported_code(ct) matches Some(code) ==> (r matches Err(e) && e@
                    == code))
                &&& ((ct == CompressionType::Zip || ct == CompressionType::Tar) ==> (
                r matches Err(e) && e@ == "Unsupported archive format"@))
                &&& (r matches Ok(info) ==> (exists|data: Seq<u8>| complete_info_ok(data, info))
                    && (ct == CompressionType::Gzip || ct == CompressionType::Unknown))
                &&& (r matches Err(e) ==> spec_unsupported_code(ct) == Some(e@) || e@
                    == "Unsupported archive format"@ || e@ == "Invalid GZIP header"@
                    || "Failed to read file: "@.is_prefix_of(e@)
                    || "Failed to read file header: "@.is_prefix_of(e@))
                &&& (ct == CompressionType::Gzip ==> (r matches Err(e) ==> e@
                    == "Invalid GZIP header"@ || "Failed to read file: "@.is_prefix_of(e@)))
            }),
    {
        let compression_type = CompressionType::from_filename(filename.as_str());
        if let Some(code) = unsupported_format_error(compression_type) {
            return Err(code);
        }
        let resolved = if matches!(compression_type, CompressionType::Unknown) {
            let header = match client.read_file_range(file_path.as_str(), 0, 512) {
                Ok(h) => h,
                Err(e) => {
                    return Err(header_read_failure_message(&e));
                },
            };
            match resolve_sniffed_format(header.as_slice()) {
                Ok(t) => t,
                Err(e) => {
                    return Err(e);
                },
            }
        } else {
            compression_type
        };
        let handler = GzipHandler;
        match resolved {
            CompressionType::Gzip => handler.analyze_with_client(
                client,
                file_path.as_str(),
                filename.as_str(),
                max_size,
            ),
            _ => Err("Unsupported archive format".to_owned()),
        }
    }

    /// Extracts a bounded preview through a storage backend, with the same
    /// pre-flight rejection and dispatch as the analysis entry point.  With
    /// no explicit budget the 4 GiB default applies.  The optional progress
    /// callback and cancel signal are handed down to the handler's read.
    pub fn get_file_preview_with_client<C: StorageClient, F: Fn(u64, u64), S: CancelSignal>(
        &self,
        client: &C,
        file_path: String,
        filename: String,
        entry_path: String,
        max_preview_size: Option<usize>,
        progress_callback: Option<&F>,
        cancel_rx: Option<&S>,
    ) -> (r: Result<FilePreview, String>)
        requires
            max_preview_size matches Some(m) ==> m <= usize::MAX / 4 * 3,
            progress_callback matches Some(f) ==> forall|n: u64| call_requires(*f, (n, n)),
        ensures
            ({
                let ct = spec_from_filename(vstd::utf8::encode_utf8(filename@));
                &&& (spec_unsupported_code(ct) matches Some(code) ==> (r matches Err(e) && e@
                    == code))
                &&& ((ct == CompressionType::Zip || ct == CompressionType::Tar) ==> (
                r matches Err(e) && e@ == "Unsupported archive format"@))
                &&& (r matches Ok(p) ==> (exists|data: Seq<u8>|
                    data_preview_ok(data, spec_preview_limit(max_preview_size), p)) && (ct
                    == CompressionType::Gzip || ct == CompressionType::Unknown))
                &&& (r matches Err(e) ==> spec_unsupported_code(ct) == Some(e@) || e@
                    == "Unsupported archive format"@
                    || "Failed to read file: "@.is_prefix_of(e@)
                    || "Failed to decompress data: "@.is_prefix_of(e@)
                    || "Failed to read file header: "@.is_prefix_of(e@))
                &&& (ct == CompressionType::Gzip ==> (r matches Err(e) ==> "Failed to read file: "@.is_prefix_of(
                    e@,
                ) || "Failed to decompress data: "@.is_prefix_of(e@)))
            }),
    {
        let compression_type = CompressionType::from_filename(filename.as_str());
        if let Some(code) = unsupported_format_error(compression_type) {
            return Err(code);
        }
        let resolved = if matches!(compression_type, CompressionType::Unknown) {
            let header = match client.read_file_range(file_path.as_str(), 0, 512) {
                Ok(h) => h,
                Err(e) => {
                    return Err(header_read_failure_message(&e));
                },
            };
            match resolve_sniffed_format(header.as_slice()) {
                Ok(t) => t,
                Err(e) => {
                    return Err(e);
                },
            }
        } else {
            compression_type
        };
        let max_size: usize = match max_preview_size {
            Some(m) => m,
            None => {
                let cap = usize::MAX / 4 * 3;
                let default_budget: u64 = 4294967296;
                if default_budget <= cap as u64 {
                    default_budget as usize
                } else {
                    cap
                }
            },
        };
        proof {
            assert(max_size as nat == spec_preview_limit(max_preview_size));
        }
        let handler = GzipHandler;
        match resolved {
            CompressionType::Gzip => handler.extract_preview_with_client(
                client,
                file_path.as_str(),
                entry_path.as_str(),
                max_size,
                progress_callback,
                cancel_rx,
            ),
            _ => Err("Unsupported archive format".to_owned()),
        }
    }

    /// Whether the filename resolves to any recognized archive format.
    pub fn is_supported_archive(&self, filename: &str) -> (r: bool)
        ensures
            r == (spec_from_filename(filename.spec_bytes()) != CompressionType::Unknown),
    {
        let compression_type = CompressionType::from_filename(filename);
        !matches!(compression_type, CompressionType::Unknown)
    }

    /// Whether the filename resolves to a format that supports streaming.
    pub fn supports_streaming(&self, filename: &str) -> (r: bool)
        ensures
            ({
                let ct = spec_from_filename(filename.spec_bytes());
                r == (ct == CompressionType::Zip || ct == CompressionType::Tar || ct
                    == CompressionType::Gzip)
            }),
    {
        let compression_type = CompressionType::from_filename(filename);
        compression_type.supports_streaming()
    }

    /// The compression type the filename resolves to.
    pub fn get_compression_info(&self, filename: &str) -> (r: CompressionType)
        ensures
            r == spec_from_filename(filename.spec_bytes()),
    {
        CompressionType::from_filename(filename)
    }

    /// The recognized archive extensions.
    pub fn get_supported_formats(&self) -> (r: Vec<&'static str>)
        ensures
            r@.len() == 6,
            r@[0]@ == "zip"@,
            r@[1]@ == "tar"@,
            r@[2]@ == "tar.gz"@,
            r@[3]@ == "tgz"@,
            r@[4]@ == "gz"@,
            r@[5]@ == "gzip"@,
    {
        let mut formats: Vec<&'static str> = Vec::new();
        formats.push("zip");
        formats.push("tar");
        formats.push("tar.gz");
        formats.push("tgz");
        formats.push("gz");
        formats.push("gzip");
        formats
    }

    /// Renders a byte count human-readably: see [`spec_format_file_size`].
    pub fn format_file_size(&self, bytes: u64) -> (r: String)
        ensures
            r@ == spec_format_file_size(bytes),
    {
        if bytes < 1024 {
            let mut s = u64_to_string(bytes);
            s.append(" B");
            return s;
        }
        if bytes < 1048576 {
            proof {
                lemma_multiply_divide_lt(bytes as int, 1024, 1024);
            }
            format_scaled_size(bytes, 1024, " KB")
        } else if bytes < 1073741824 {
            proof {
                lemma_multiply_divide_lt(bytes as int, 1048576, 1024);
            }
            format_scaled_size(bytes, 1048576, " MB")
        } else if bytes < 1099511627776 {
            proof {
                lemma_multiply_divide_lt(bytes as int, 1073741824, 1024);
            }
            format_scaled_size(bytes, 1073741824, " GB")
        } else {
            proof {
                lemma_multiply_divide_lt(bytes as int, 1099511627776, 16777216);
            }
            format_scaled_size(bytes, 1099511627776, " TB")
        }
    }

    /// Renders the compression ratio: see [`spec_compression_ratio`].  For a
    /// fixed uncompressed size the underlying value is monotone in the
    /// compressed size ([`lemma_ratio_monotone`]).
    pub fn get_compression_ratio(&self, uncompressed: u64, compressed: u64) -> (r: String)
        ensures
            r@ == spec_compression_ratio(uncompressed, compressed),
    {
        if uncompressed == 0 {
            return "0.0%".to_owned();
        }
        let diff: u64 = if uncompressed >= compressed {
            uncompressed - compressed
        } else {
            0
        };
        proof {
            lemma_mul_inequality(diff as int, uncompressed as int, 2000);
            lemma_multiply_divide_lt(
                diff as int * 2000 + uncompressed as int,
                2 * uncompressed as int,
                1001,
            );
        }
        let tenths128: u128 = ((diff as u128) * 2000 + (uncompressed as u128)) / (2 * (
        uncompressed as u128));
        let tenths: u64 = tenths128 as u64;
        let mut s = u64_to_string(tenths / 10);
        s.append(".");
        s.append(digit_str(tenths % 10));
        s.append("%");
        proof {
            assert(s@ =~= spec_compression_ratio(uncompressed, compressed));
        }
        s
    }

    /// Recommended chunk size for reading the archive: see
    /// [`spec_chunk_size`].
    pub fn get_recommended_chunk_size(&self, filename: &str, file_size: u64) -> (r: usize)
        ensures
            r == spec_chunk_size(
                spec_from_filename(filename.spec_bytes()) == CompressionType::Zip,
                file_size,
            ),
    {
        let compression_type = CompressionType::from_filename(filename);
        let is_random_access = matches!(compression_type, CompressionType::Zip);
        if is_random_access {
            if file_size < 10485760 {
                65536
            } else if file_size < 104857600 {
                262144
            } else {
                1048576
            }
        } else {
            65536
        }
    }
}

/// Wraps a failed pre-flight header read with context.
fn header_read_failure_message(e: &crate::storage::StorageError) -> (r: String)
    ensures
        r@ == "Failed to read file header: "@ + crate::storage::spec_error_message(*e),
{
    "Failed to read file header: ".to_owned().concat(e.message().as_str())
}

/// Renders `bytes` scaled to `unit` with two decimals and the suffix.
fn format_scaled_size(bytes: u64, unit: u64, suffix: &str) -> (r: String)
    requires
        1 <= unit <= 1099511627776,
        bytes as nat / unit as nat <= 16777216,
    ensures
        r@ == spec_scaled_size(bytes, unit, suffix@),
{
    let q = bytes / unit;
    let rem = bytes % unit;
    proof {
        lemma_mul_inequality(rem as int, unit as int - 1, 200);
        lemma_multiply_divide_lt(rem as int * 200 + unit as int, 2 * unit as int, 101);
    }
    let frac = (rem * 200 + unit) / (2 * unit);
    let centi = q * 100 + frac;
    let mut s = u64_to_string(centi / 100);
    s.append(".");
    s.append(digit_str((centi / 10) % 10));
    s.append(digit_str(centi % 10));
    s.append(suffix);
    proof {
        assert(s@ =~= spec_scaled_size(bytes, unit, suffix@));
    }
    s
}

} // verus!
