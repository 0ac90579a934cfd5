use agent_core::backup::{
    archive_next, archive_program, ArchiveNext, ArchiveRuntime, FIRST_ARCHIVE_RUNTIME,
    archive_summary, calculate_checksum_bytes, compress_gzip, compress_zstd, compression_flag, decompress_gzip,
    decompress_zstd, s3_object_key, s3_region_name, s3_storage_path, tar_args, CompressionFormat,
};
use agent_core::text::to_hex;

#[test]
fn test_checksum_deterministic() {
    let data = b"test backup data";
    let c1 = calculate_checksum_bytes(data);
    let c2 = calculate_checksum_bytes(data);
    assert_eq!(c1, c2);
    assert_eq!(c1.len(), 64);
}

#[test]
fn test_zstd_roundtrip() {
    let data = b"Hello, World!";

    let compressed = compress_zstd(data, 3).unwrap();
    let decompressed = decompress_zstd(&compressed).unwrap();

    assert_eq!(data.as_slice(), decompressed.as_slice());
}

#[test]
fn known_checksums() {
    assert_eq!(
        calculate_checksum_bytes(b""),
        "e3b0c44298fc1c149afbf4c8996fb92427ae41e4649b934ca495991b7852b855"
    );
    assert_eq!(
        calculate_checksum_bytes(b"abc"),
        "ba7816bf8f01cfea414140de5dae2223b00361a396177a9cb410ff61f20015ad"
    );
    assert_eq!(to_hex(&[0x00, 0x0f, 0xa0, 0xff]), "000fa0ff");
}

#[test]
fn gzip_roundtrip_and_garbage() {
    let data = vec![7u8; 1000];
    let compressed = compress_gzip(&data, 6).unwrap();
    assert_ne!(compressed, data);
    assert_eq!(decompress_gzip(&compressed).unwrap(), data);
    assert!(decompress_zstd(b"not zstd").is_err());
    let z = compress_zstd(&data, 19).unwrap();
    assert_ne!(z, data);
    assert_eq!(decompress_zstd(&z).unwrap(), data);
}

#[test]
fn archive_command_and_storage_names() {
    assert_eq!(compression_flag(&CompressionFormat::Zstd(3)), "--zstd");
    assert_eq!(compression_flag(&CompressionFormat::Gzip(6)), "-z");
    assert_eq!(
        tar_args("abc", "/data", &CompressionFormat::Gzip(6)),
        vec!["exec", "abc", "tar", "-z", "-cf", "-", "-C", "/data", "."]
    );
    let (size, sum) = archive_summary(b"abc");
    assert_eq!(size, 3);
    assert_eq!(sum, calculate_checksum_bytes(b"abc"));
    let key = s3_object_key("srv-1", "backup.tar.zst");
    assert_eq!(key, "srv-1/backup.tar.zst");
    assert_eq!(s3_storage_path("bucket", &key), "s3://bucket/srv-1/backup.tar.zst");
    assert_eq!(s3_region_name(""), "auto");
    assert_eq!(s3_region_name("eu-west-1"), "eu-west-1");
}

#[test]
fn archiving_falls_back_to_podman_once() {
    assert_eq!(archive_program(FIRST_ARCHIVE_RUNTIME), "docker");
    assert_eq!(archive_next(ArchiveRuntime::Docker, true), ArchiveNext::Keep);
    assert_eq!(archive_next(ArchiveRuntime::Docker, false), ArchiveNext::TryPodman);
    assert_eq!(archive_program(ArchiveRuntime::Podman), "podman");
    assert_eq!(archive_next(ArchiveRuntime::Podman, true), ArchiveNext::Keep);
    assert_eq!(archive_next(ArchiveRuntime::Podman, false), ArchiveNext::Fail);
}
