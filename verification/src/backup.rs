//! Backups: compressing archives, their checksums, the archiving command
//! run in a container, and where uploaded archives are stored.

use sha2::Digest;
use std::io::Read;
use std::io::Write;
use crate::text::{lemma_hex_digits, lemma_hex_len, spec_hex, to_hex};
use vstd::prelude::*;

verus! {

#[verifier::external_type_specification]
#[verifier::external_body]
pub struct ExIoError(std::io::Error);

/// The zstd frame that the zstd crate makes of `input` at `level`.
pub uninterp spec fn zstd_compressed(input: Seq<u8>, level: i32) -> Seq<u8>;

/// The gzip stream that flate2 makes of `input` at `level`.
pub uninterp spec fn gzip_compressed(input: Seq<u8>, level: u32) -> Seq<u8>;

/// The SHA-256 digest of `data`.
pub uninterp spec fn sha256(data: Seq<u8>) -> Seq<u8>;

/// `zstd::Encoder::new` on an empty vector, `write_all` of `input` and
/// `finish`: the zstd frame of `input` at `level`. Writing into a vector
/// cannot fail and zstd clamps the level into its range, so the source
/// leaves failure only to the zstd library running out of memory, which
/// this contract, like every allocation, leaves out.
#[verifier::external_body]
fn zstd_encode(input: &[u8], level: i32) -> (r: Result<Vec<u8>, std::io::Error>)
    ensures
        r is Ok && r->Ok_0@ == zstd_compressed(input@, level),
{
    let mut encoder = zstd::Encoder::new(Vec::new(), level)?;
    encoder.write_all(input)?;
    encoder.finish()
}

/// `zstd::decode_all`: a frame that zstd made of some data is decoded back
/// to that data; of other input nothing is promised.
#[verifier::external_body]
fn zstd_decode(input: &[u8]) -> (r: Result<Vec<u8>, std::io::Error>)
    ensures
        forall|data: Seq<u8>, level: i32| input@ == #[trigger] zstd_compressed(data, level) ==> r is Ok && r->Ok_0@ == data,
{
    zstd::decode_all(input)
}

/// `flate2::write::GzEncoder::new` on an empty vector at
/// `Compression::new(level)`, `write_all` of `input` and `finish`: the gzip
/// stream of `input` at `level`. flate2 asserts (in debug builds) that the
/// level is at most 10, which `requires` keeps; writing into a vector cannot
/// fail, and the compressor reports errors only for misuse of its stream,
/// which these three calls do not make.
#[verifier::external_body]
fn gzip_encode(input: &[u8], level: u32) -> (r: Result<Vec<u8>, std::io::Error>)
    requires
        level <= 10,
    ensures
        r is Ok && r->Ok_0@ == gzip_compressed(input@, level),
{
    let mut encoder = flate2::write::GzEncoder::new(Vec::new(), flate2::Compression::new(level));
    encoder.write_all(input)?;
    encoder.finish()
}

/// `flate2::read::GzDecoder::new` over `input` and `read_to_end`: a stream
/// that flate2 made of some data is decoded back to that data; of other
/// input nothing is promised.
#[verifier::external_body]
fn gzip_decode(input: &[u8]) -> (r: Result<Vec<u8>, std::io::Error>)
    ensures
        forall|data: Seq<u8>, level: u32| level <= 10 && input@ == #[trigger] gzip_compressed(data, level) ==> r is Ok
            && r->Ok_0@ == data,
{
    let mut decoder = flate2::read::GzDecoder::new(input);
    let mut output = Vec::new();
    decoder.read_to_end(&mut output)?;
    Ok(output)
}

/// `sha2::Sha256::digest`: the 32-byte SHA-256 digest of `data`.
#[verifier::external_body]
fn sha256_digest(data: &[u8]) -> (d: Vec<u8>)
    ensures
        d@ == sha256(data@),
        d@.len() == 32,
{
    sha2::Sha256::digest(data).to_vec()
}

/// Compresses `input` with zstd at `level`.
pub fn compress_zstd(input: &[u8], level: i32) -> (r: Result<Vec<u8>, std::io::Error>)
    ensures
        r is Ok && r->Ok_0@ == zstd_compressed(input@, level),
{
    zstd_encode(input, level)
}

/// Decompresses zstd data.
pub fn decompress_zstd(input: &[u8]) -> (r: Result<Vec<u8>, std::io::Error>)
    ensures
        forall|data: Seq<u8>, level: i32| input@ == #[trigger] zstd_compressed(data, level) ==> r is Ok && r->Ok_0@ == data,
{
    zstd_decode(input)
}

/// Compresses `input` with gzip at `level` (0 to 9, or 10 for the slowest).
pub fn compress_gzip(input: &[u8], level: u32) -> (r: Result<Vec<u8>, std::io::Error>)
    requires
        level <= 10,
    ensures
        r is Ok && r->Ok_0@ == gzip_compressed(input@, level),
{
    gzip_encode(input, level)
}

/// Decompresses gzip data.
pub fn decompress_gzip(input: &[u8]) -> (r: Result<Vec<u8>, std::io::Error>)
    ensures
        forall|data: Seq<u8>, level: u32| level <= 10 && input@ == #[trigger] gzip_compressed(data, level) ==> r is Ok
            && r->Ok_0@ == data,
{
    gzip_decode(input)
}

/// The SHA-256 checksum of `data` in lower-case hexadecimal.
pub open spec fn spec_checksum(data: Seq<u8>) -> Seq<char> {
    spec_hex(sha256(data))
}

/// The SHA-256 checksum of `data`: 64 lower-case hexadecimal digits.
pub fn calculate_checksum_bytes(data: &[u8]) -> (s: String)
    ensures
        s@ == spec_checksum(data@),
        s@.len() == 64,
{
    let digest = sha256_digest(data);
    proof {
        lemma_hex_len(digest@);
    }
    to_hex(digest.as_slice())
}

/// A checksum is 64 characters, each a lower-case hexadecimal digit.
pub proof fn law_checksum_shape(data: Seq<u8>, digest: Seq<u8>)
    requires
        digest == sha256(data),
        digest.len() == 32,
    ensures
        spec_checksum(data).len() == 64,
        forall|i: int| 0 <= i < 64 ==> {
            let c = #[trigger] spec_checksum(data)[i];
            ('0' <= c <= '9') || ('a' <= c <= 'f')
        },
{
    lemma_hex_len(digest);
    lemma_hex_digits(digest);
}

/// How a backup archive is compressed.
#[derive(Debug, Clone, Copy, PartialEq, Eq, Structural)]
pub enum CompressionFormat {
    /// Zstandard, at a level from 1 to 22.
    Zstd(i32),
    /// Gzip, at a level from 1 to 9.
    Gzip(u32),
}

/// The `tar` option that selects the format.
pub open spec fn spec_compression_flag(format: CompressionFormat) -> Seq<char> {
    match format {
        CompressionFormat::Zstd(_) => "--zstd"@,
        CompressionFormat::Gzip(_) => "-z"@,
    }
}

/// The `tar` option that selects the format.
pub fn compression_flag(format: &CompressionFormat) -> (s: &'static str)
    ensures
        s@ == spec_compression_flag(*format),
{
    match format {
        CompressionFormat::Zstd(_) => "--zstd",
        CompressionFormat::Gzip(_) => "-z",
    }
}

/// The arguments of the container runtime that archive `data_path` of the
/// container to standard output:
/// `exec <container> tar <flag> -cf - -C <data_path> .`.
pub open spec fn spec_tar_args(container_id: Seq<char>, data_path: Seq<char>, format: CompressionFormat) -> Seq<Seq<char>> {
    seq![
        "exec"@,
        container_id,
        "tar"@,
        spec_compression_flag(format),
        "-cf"@,
        "-"@,
        "-C"@,
        data_path,
        "."@,
    ]
}

/// The arguments of the container runtime that archive `data_path` of the
/// container to standard output.
pub fn tar_args(container_id: &str, data_path: &str, format: &CompressionFormat) -> (args: Vec<String>)
    ensures
        args@.map_values(|a: String| a@) == spec_tar_args(container_id@, data_path@, *format),
{
    let mut args: Vec<String> = Vec::new();
    args.push(String::from_str("exec"));
    args.push(String::from_str(container_id));
    args.push(String::from_str("tar"));
    args.push(String::from_str(compression_flag(format)));
    args.push(String::from_str("-cf"));
    args.push(String::from_str("-"));
    args.push(String::from_str("-C"));
    args.push(String::from_str(data_path));
    args.push(String::from_str("."));
    assert(args@.map_values(|a: String| a@) =~= spec_tar_args(container_id@, data_path@, *format));
    args
}

/// The container runtime an archiving command is run with.
#[derive(Debug, Clone, Copy, PartialEq, Eq, Structural)]
pub enum ArchiveRuntime {
    Docker,
    Podman,
}

/// What follows a run of the archiving command.
#[derive(Debug, Clone, Copy, PartialEq, Eq, Structural)]
pub enum ArchiveNext {
    /// The run succeeded: its output is the archive.
    Keep,
    /// Docker failed: run the same command with Podman.
    TryPodman,
    /// Podman failed too: archiving fails with its error output.
    Fail,
}

/// The first runtime an archive is made with.
pub const FIRST_ARCHIVE_RUNTIME: ArchiveRuntime = ArchiveRuntime::Docker;

/// What follows a run of the archiving command with `runtime`: a
/// successful run is kept; a failed Docker run falls back to Podman; a
/// failed Podman run ends in failure.
pub open spec fn spec_archive_next(runtime: ArchiveRuntime, succeeded: bool) -> ArchiveNext {
    if succeeded {
        ArchiveNext::Keep
    } else {
        match runtime {
            ArchiveRuntime::Docker => ArchiveNext::TryPodman,
            ArchiveRuntime::Podman => ArchiveNext::Fail,
        }
    }
}

/// What follows a run of the archiving command with `runtime`.
pub fn archive_next(runtime: ArchiveRuntime, succeeded: bool) -> (n: ArchiveNext)
    ensures
        n == spec_archive_next(runtime, succeeded),
{
    if succeeded {
        ArchiveNext::Keep
    } else {
        match runtime {
            ArchiveRuntime::Docker => ArchiveNext::TryPodman,
            ArchiveRuntime::Podman => ArchiveNext::Fail,
        }
    }
}

/// The program of a runtime: `docker` or `podman`.
pub fn archive_program(runtime: ArchiveRuntime) -> (p: &'static str)
    ensures
        p@ == (match runtime {
            ArchiveRuntime::Docker => "docker"@,
            ArchiveRuntime::Podman => "podman"@,
        }),
{
    match runtime {
        ArchiveRuntime::Docker => "docker",
        ArchiveRuntime::Podman => "podman",
    }
}

/// Law: archiving starting with Docker runs at most twice: a Docker
/// failure leads to one Podman run, whose outcome is final, and the
/// archive is kept exactly when one of the runs succeeded.
pub proof fn law_archive_runs_at_most_twice(docker_ok: bool, podman_ok: bool)
    ensures
        spec_archive_next(FIRST_ARCHIVE_RUNTIME, docker_ok) != ArchiveNext::Fail,
        spec_archive_next(ArchiveRuntime::Podman, podman_ok) != ArchiveNext::TryPodman,
        (spec_archive_next(FIRST_ARCHIVE_RUNTIME, docker_ok) == ArchiveNext::Keep || (spec_archive_next(
            FIRST_ARCHIVE_RUNTIME,
            docker_ok,
        ) == ArchiveNext::TryPodman && spec_archive_next(ArchiveRuntime::Podman, podman_ok) == ArchiveNext::Keep))
            <==> (docker_ok || podman_ok),
{
}

/// The size in bytes and the checksum of an archive.
pub fn archive_summary(data: &[u8]) -> (r: (u64, String))
    requires
        data@.len() <= u64::MAX,
    ensures
        r.0 == data@.len(),
        r.1@ == spec_checksum(data@),
{
    (data.len() as u64, calculate_checksum_bytes(data))
}

/// The content type under which archives are uploaded.
pub const ARCHIVE_CONTENT_TYPE: &'static str = "application/zstd";

/// The object key of an archive: `<server_id>/<file_name>`.
pub fn s3_object_key(server_id: &str, file_name: &str) -> (k: String)
    ensures
        k@ == server_id@ + "/"@ + file_name@,
{
    let mut k = String::from_str(server_id);
    k.append("/");
    k.append(file_name);
    k
}

/// Where an uploaded archive is stored: `s3://<bucket>/<key>`.
pub fn s3_storage_path(bucket: &str, key: &str) -> (p: String)
    ensures
        p@ == "s3://"@ + bucket@ + "/"@ + key@,
{
    let mut p = String::from_str("s3://");
    p.append(bucket);
    p.append("/");
    p.append(key);
    p
}

/// The region name given to the storage client: `auto` when none is set.
pub fn s3_region_name(region: &str) -> (r: String)
    ensures
        r@ == (if region@.len() == 0 { "auto"@ } else { region@ }),
{
    if region.is_empty() {
        String::from_str("auto")
    } else {
        String::from_str(region)
    }
}

} // verus!
