//! Compression type registry: maps filename suffix chains (case-insensitive)
//! and magic-byte prefixes to a [`CompressionType`] tag.

use vstd::prelude::*;
use vstd::string::StringSliceAdditionalSpecFns;

verus! {

/// Tag for a container format.  `Unknown` triggers magic-byte sniffing in the
/// facade; the formats past `Gzip` are recognized but declined with a stable
/// error code.
#[derive(Clone, Copy, Debug, PartialEq, Eq, Structural)]
pub enum CompressionType {
    Zip,
    Tar,
    Gzip,
    SevenZip,
    Rar,
    Brotli,
    Lz4,
    Zstd,
    Unknown,
}

/// ASCII lower-casing of one byte: `'A'..='Z'` maps to `'a'..='z'`, every
/// other byte is unchanged.
pub open spec fn lower_byte(b: u8) -> u8 {
    if 65 <= b <= 90 {
        (b + 32) as u8
    } else {
        b
    }
}

/// `name` ends with `suffix`, compared byte for byte after ASCII
/// lower-casing of both sides.
pub open spec fn ends_with_ci(name: Seq<u8>, suffix: Seq<u8>) -> bool {
    name.len() >= suffix.len() && forall|i: int|
        0 <= i < suffix.len() ==> lower_byte(name[name.len() - suffix.len() + i]) == lower_byte(
            suffix[i],
        )
}

/// The filename-based resolution rule: compound suffixes are recognized
/// before single suffixes, all case-insensitively; a filename matching no
/// recognized suffix resolves to `Unknown`.
pub open spec fn spec_from_filename(name: Seq<u8>) -> CompressionType {
    if ends_with_ci(name, ".tar.gz".spec_bytes()) {
        CompressionType::Tar
    } else if ends_with_ci(name, ".tgz".spec_bytes()) {
        CompressionType::Tar
    } else if ends_with_ci(name, ".tar".spec_bytes()) {
        CompressionType::Tar
    } else if ends_with_ci(name, ".zip".spec_bytes()) {
        CompressionType::Zip
    } else if ends_with_ci(name, ".gzip".spec_bytes()) {
        CompressionType::Gzip
    } else if ends_with_ci(name, ".gz".spec_bytes()) {
        CompressionType::Gzip
    } else if ends_with_ci(name, ".7z".spec_bytes()) {
        CompressionType::SevenZip
    } else if ends_with_ci(name, ".rar".spec_bytes()) {
        CompressionType::Rar
    } else if ends_with_ci(name, ".br".spec_bytes()) {
        CompressionType::Brotli
    } else if ends_with_ci(name, ".lz4".spec_bytes()) {
        CompressionType::Lz4
    } else if ends_with_ci(name, ".zst".spec_bytes()) {
        CompressionType::Zstd
    } else {
        CompressionType::Unknown
    }
}

/// Magic-byte resolution: each format's declared signature, checked on a
/// prefix buffer.  TAR has its signature at offset 257; Brotli declares none.
pub open spec fn spec_from_magic(data: Seq<u8>) -> CompressionType {
    if data.len() >= 2 && data[0] == 0x1f && data[1] == 0x8b {
        CompressionType::Gzip
    } else if data.len() >= 4 && data[0] == 0x50 && data[1] == 0x4b && data[2] == 0x03 && data[3]
        == 0x04 {
        CompressionType::Zip
    } else if data.len() >= 6 && data[0] == 0x37 && data[1] == 0x7a && data[2] == 0xbc && data[3]
        == 0xaf && data[4] == 0x27 && data[5] == 0x1c {
        CompressionType::SevenZip
    } else if data.len() >= 4 && data[0] == 0x52 && data[1] == 0x61 && data[2] == 0x72 && data[3]
        == 0x21 {
        CompressionType::Rar
    } else if data.len() >= 4 && data[0] == 0x28 && data[1] == 0xb5 && data[2] == 0x2f && data[3]
        == 0xfd {
        CompressionType::Zstd
    } else if data.len() >= 4 && data[0] == 0x04 && data[1] == 0x22 && data[2] == 0x4d && data[3]
        == 0x18 {
        CompressionType::Lz4
    } else if data.len() >= 262 && data[257] == 0x75 && data[258] == 0x73 && data[259] == 0x74
        && data[260] == 0x61 && data[261] == 0x72 {
        CompressionType::Tar
    } else {
        CompressionType::Unknown
    }
}

/// ASCII lower-casing of one byte, executable counterpart of [`lower_byte`].
pub fn lower_byte_exec(b: u8) -> (r: u8)
    ensures
        r == lower_byte(b),
{
    if 65 <= b && b <= 90 {
        b + 32
    } else {
        b
    }
}

/// Case-insensitive suffix test on byte slices.
pub fn ends_with_ascii_ci(name: &[u8], suffix: &[u8]) -> (r: bool)
    ensures
        r == ends_with_ci(name@, suffix@),
{
    if name.len() < suffix.len() {
        return false;
    }
    let offset = name.len() - suffix.len();
    let mut i: usize = 0;
    while i < suffix.len()
        invariant
            0 <= i <= suffix@.len(),
            offset == name@.len() - suffix@.len(),
            name@.len() >= suffix@.len(),
            name@.len() <= usize::MAX,
            forall|j: int|
                0 <= j < i ==> lower_byte(name@[offset + j]) == lower_byte(suffix@[j]),
        decreases suffix@.len() - i,
    {
        if lower_byte_exec(name[offset + i]) != lower_byte_exec(suffix[i]) {
            return false;
        }
        i += 1;
    }
    true
}

/// Byte-for-byte equality of two slices.
pub fn bytes_eq(a: &[u8], b: &[u8]) -> (r: bool)
    ensures
        r == (a@ == b@),
{
    if a.len() != b.len() {
        proof {
            assert(a@ != b@);
        }
        return false;
    }
    let mut i: usize = 0;
    while i < a.len()
        invariant
            0 <= i <= a@.len(),
            a@.len() == b@.len(),
            forall|j: int| 0 <= j < i ==> a@[j] == b@[j],
        decreases a@.len() - i,
    {
        if a[i] != b[i] {
            return false;
        }
        i += 1;
    }
    proof {
        assert(a@ =~= b@);
    }
    true
}

/// Character-for-character equality of two string slices.
pub fn str_eq(a: &str, b: &str) -> (r: bool)
    ensures
        r == (a@ == b@),
{
    let r = bytes_eq(a.as_bytes(), b.as_bytes());
    proof {
        broadcast use vstd::utf8::encode_utf8_decode_utf8;

        if a.spec_bytes() == b.spec_bytes() {
            assert(vstd::utf8::decode_utf8(vstd::utf8::encode_utf8(a@)) == vstd::utf8::decode_utf8(
                vstd::utf8::encode_utf8(b@),
            ));
        }
    }
    r
}

impl CompressionType {
    /// Resolves the tag from the filename's suffix chain, case-insensitively,
    /// recognizing compound suffixes before single ones.  Filenames matching
    /// no recognized suffix resolve to `Unknown`.
    pub fn from_filename(filename: &str) -> (r: CompressionType)
        ensures
            r == spec_from_filename(filename.spec_bytes()),
    {
        let bytes = filename.as_bytes();
        if ends_with_ascii_ci(bytes, ".tar.gz".as_bytes()) {
            CompressionType::Tar
        } else if ends_with_ascii_ci(bytes, ".tgz".as_bytes()) {
            CompressionType::Tar
        } else if ends_with_ascii_ci(bytes, ".tar".as_bytes()) {
            CompressionType::Tar
        } else if ends_with_ascii_ci(bytes, ".zip".as_bytes()) {
            CompressionType::Zip
        } else if ends_with_ascii_ci(bytes, ".gzip".as_bytes()) {
            CompressionType::Gzip
        } else if ends_with_ascii_ci(bytes, ".gz".as_bytes()) {
            CompressionType::Gzip
        } else if ends_with_ascii_ci(bytes, ".7z".as_bytes()) {
            CompressionType::SevenZip
        } else if ends_with_ascii_ci(bytes, ".rar".as_bytes()) {
            CompressionType::Rar
        } else if ends_with_ascii_ci(bytes, ".br".as_bytes()) {
            CompressionType::Brotli
        } else if ends_with_ascii_ci(bytes, ".lz4".as_bytes()) {
            CompressionType::Lz4
        } else if ends_with_ascii_ci(bytes, ".zst".as_bytes()) {
            CompressionType::Zstd
        } else {
            CompressionType::Unknown
        }
    }

    /// Resolves the tag from a magic-byte prefix, used only when the
    /// filename-based result is `Unknown`.
    pub fn from_magic_bytes(data: &[u8]) -> (r: CompressionType)
        ensures
            r == spec_from_magic(data@),
    {
        if data.len() >= 2 && data[0] == 0x1f && data[1] == 0x8b {
            CompressionType::Gzip
        } else if data.len() >= 4 && data[0] == 0x50 && data[1] == 0x4b && data[2] == 0x03
            && data[3] == 0x04 {
            CompressionType::Zip
        } else if data.len() >= 6 && data[0] == 0x37 && data[1] == 0x7a && data[2] == 0xbc
            && data[3] == 0xaf && data[4] == 0x27 && data[5] == 0x1c {
            CompressionType::SevenZip
        } else if data.len() >= 4 && data[0] == 0x52 && data[1] == 0x61 && data[2] == 0x72
            && data[3] == 0x21 {
            CompressionType::Rar
        } else if data.len() >= 4 && data[0] == 0x28 && data[1] == 0xb5 && data[2] == 0x2f
            && data[3] == 0xfd {
            CompressionType::Zstd
        } else if data.len() >= 4 && data[0] == 0x04 && data[1] == 0x22 && data[2] == 0x4d
            && data[3] == 0x18 {
            CompressionType::Lz4
        } else if data.len() >= 262 && data[257] == 0x75 && data[258] == 0x73 && data[259] == 0x74
            && data[260] == 0x61 && data[261] == 0x72 {
            CompressionType::Tar
        } else {
            CompressionType::Unknown
        }
    }

    /// Whether this format supports streaming analysis.
    pub fn supports_streaming(&self) -> (r: bool)
        ensures
            r == (*self == CompressionType::Zip || *self == CompressionType::Tar || *self
                == CompressionType::Gzip),
    {
        match self {
            CompressionType::Zip => true,
            CompressionType::Tar => true,
            CompressionType::Gzip => true,
            _ => false,
        }
    }
}

} // verus!
