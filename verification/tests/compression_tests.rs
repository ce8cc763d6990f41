use archive_preview::compression::CompressionType;

#[test]
fn from_filename_compound_suffixes() {
    assert_eq!(CompressionType::from_filename("backup.tar.gz"), CompressionType::Tar);
    assert_eq!(CompressionType::from_filename("backup.tgz"), CompressionType::Tar);
    assert_eq!(CompressionType::from_filename("dir/archive.TAR.GZ"), CompressionType::Tar);
}

#[test]
fn from_filename_single_suffixes() {
    assert_eq!(CompressionType::from_filename("a.zip"), CompressionType::Zip);
    assert_eq!(CompressionType::from_filename("a.tar"), CompressionType::Tar);
    assert_eq!(CompressionType::from_filename("a.gz"), CompressionType::Gzip);
    assert_eq!(CompressionType::from_filename("a.gzip"), CompressionType::Gzip);
    assert_eq!(CompressionType::from_filename("a.7z"), CompressionType::SevenZip);
    assert_eq!(CompressionType::from_filename("a.rar"), CompressionType::Rar);
    assert_eq!(CompressionType::from_filename("a.br"), CompressionType::Brotli);
    assert_eq!(CompressionType::from_filename("a.lz4"), CompressionType::Lz4);
    assert_eq!(CompressionType::from_filename("a.zst"), CompressionType::Zstd);
}

#[test]
fn from_filename_case_insensitive() {
    assert_eq!(CompressionType::from_filename("A.ZIP"), CompressionType::Zip);
    assert_eq!(CompressionType::from_filename("A.Gz"), CompressionType::Gzip);
    assert_eq!(CompressionType::from_filename("A.RaR"), CompressionType::Rar);
}

#[test]
fn from_filename_unrecognized_is_unknown() {
    assert_eq!(CompressionType::from_filename("notes.txt"), CompressionType::Unknown);
    assert_eq!(CompressionType::from_filename("noextension"), CompressionType::Unknown);
    assert_eq!(CompressionType::from_filename(""), CompressionType::Unknown);
    assert_eq!(CompressionType::from_filename("gz"), CompressionType::Unknown);
    assert_eq!(CompressionType::from_filename("archive.gz.bak"), CompressionType::Unknown);
}

#[test]
fn from_magic_bytes_signatures() {
    assert_eq!(CompressionType::from_magic_bytes(&[0x1f, 0x8b, 0x08]), CompressionType::Gzip);
    assert_eq!(
        CompressionType::from_magic_bytes(&[0x50, 0x4b, 0x03, 0x04]),
        CompressionType::Zip
    );
    assert_eq!(
        CompressionType::from_magic_bytes(&[0x37, 0x7a, 0xbc, 0xaf, 0x27, 0x1c]),
        CompressionType::SevenZip
    );
    assert_eq!(
        CompressionType::from_magic_bytes(&[0x52, 0x61, 0x72, 0x21]),
        CompressionType::Rar
    );
    assert_eq!(
        CompressionType::from_magic_bytes(&[0x28, 0xb5, 0x2f, 0xfd]),
        CompressionType::Zstd
    );
    assert_eq!(
        CompressionType::from_magic_bytes(&[0x04, 0x22, 0x4d, 0x18]),
        CompressionType::Lz4
    );
    let mut tar = vec![0u8; 262];
    tar[257..262].copy_from_slice(b"ustar");
    assert_eq!(CompressionType::from_magic_bytes(&tar), CompressionType::Tar);
}

#[test]
fn from_magic_bytes_unrecognized() {
    assert_eq!(CompressionType::from_magic_bytes(&[]), CompressionType::Unknown);
    assert_eq!(CompressionType::from_magic_bytes(&[0x1f]), CompressionType::Unknown);
    assert_eq!(CompressionType::from_magic_bytes(&[0x00, 0x01, 0x02, 0x03]), CompressionType::Unknown);
}

#[test]
fn streaming_support_by_type() {
    assert!(CompressionType::Zip.supports_streaming());
    assert!(CompressionType::Tar.supports_streaming());
    assert!(CompressionType::Gzip.supports_streaming());
    assert!(!CompressionType::SevenZip.supports_streaming());
    assert!(!CompressionType::Unknown.supports_streaming());
}
