//! Artifact names, release URLs and the places of an artifact in the local cache.

use vstd::prelude::*;
use vstd::string::*;
use crate::architecture::Architecture;
use crate::ostype::OsType;

verus! {

/// The address under which all releases are published.
pub open spec fn release_host() -> Seq<char> {
    "https://github.com/editorconfig-checker/editorconfig-checker/releases/download"@
}

/// The name of the release artifact for a platform: `ec-<os>-<arch>`.
pub open spec fn artifact_name(os: OsType, arch: Architecture) -> Seq<char> {
    "ec-"@ + os.tag() + "-"@ + arch.tag()
}

/// The address of the directory that holds the artifacts of one version below `host`.
pub open spec fn version_url(host: Seq<char>, version: Seq<char>) -> Seq<char> {
    host + "/"@ + version
}

/// The address of the archive of the artifact `name` below the version directory
/// `base_url`.
pub open spec fn archive_url(base_url: Seq<char>, name: Seq<char>) -> Seq<char> {
    base_url + "/"@ + name + ".tar.gz"@
}

/// The place of the downloaded archive of the artifact `name` in the cache directory
/// `base`.
pub open spec fn archive_path(base: Seq<char>, name: Seq<char>) -> Seq<char> {
    base + "/"@ + name + ".tar.gz"@
}

/// The place of the unpacked binary of the artifact `name` in the cache directory `base`.
pub open spec fn binary_path(base: Seq<char>, name: Seq<char>) -> Seq<char> {
    base + "/bin/"@ + name
}

/// The places of one artifact in the local cache. They are computed anew on every run
/// and never stored.
pub struct CachePaths {
    /// The cache directory.
    pub base: String,
    /// Where the downloaded archive is kept until it has been unpacked.
    pub archive_path: String,
    /// Where the unpacked binary stays.
    pub binary_path: String,
}

impl CachePaths {
    /// Whether the three paths are those of the artifact `name` in the cache directory
    /// `base`.
    pub open spec fn describes(&self, base: Seq<char>, name: Seq<char>) -> bool {
        &&& self.base@ == base
        &&& self.archive_path@ == archive_path(base, name)
        &&& self.binary_path@ == binary_path(base, name)
    }
}

/// What has to be fetched, and where it has to be stored.
pub struct DownloadRequest {
    /// The address of the archive.
    pub url: String,
    /// The path at which the archive is stored.
    pub destination: String,
}

/// Whether a regular file is at `filename`: only such a file counts as a cached binary.
/// Calls `std::path::Path::is_file`. Whether the file is there depends on the disk at
/// the moment of the call, so the contract claims nothing about the answer.
#[verifier::external_body]
pub fn path_exists(filename: &str) -> (found: bool) {
    std::path::Path::new(filename).is_file()
}

/// Names the release artifact for a platform.
pub fn generate_filename(os: OsType, arch: Architecture) -> (name: String)
    ensures
        name@ == artifact_name(os, arch),
{
    let mut name = "ec-".to_owned();
    name.append(os.stringify());
    name.append("-");
    name.append(arch.stringify());
    name
}

/// The address of the directory that holds the artifacts of `version` on the release
/// host.
pub fn generate_base_url(version: &str) -> (url: String)
    ensures
        url@ == version_url(release_host(), version@),
{
    let mut url =
        "https://github.com/editorconfig-checker/editorconfig-checker/releases/download".to_owned();
    url.append("/");
    url.append(version);
    url
}

/// The address from which the archive of the artifact `name` is fetched, given the
/// address of its version directory.
pub fn generate_archive_url(base_url: &str, name: &str) -> (url: String)
    ensures
        url@ == archive_url(base_url@, name@),
{
    let mut url = base_url.to_owned();
    url.append("/");
    url.append(name);
    url.append(".tar.gz");
    url
}

/// The address of the archive of the artifact `name` in `version`, below the release
/// address `host`: `<host>/<version>/<name>.tar.gz`.
pub fn download_url(host: &str, version: &str, name: &str) -> (url: String)
    ensures
        url@ == host@ + "/"@ + version@ + "/"@ + name@ + ".tar.gz"@,
        url@ == archive_url(version_url(host@, version@), name@),
{
    let mut url = host.to_owned();
    url.append("/");
    url.append(version);
    url.append("/");
    url.append(name);
    url.append(".tar.gz");
    url
}

/// What a download of the artifact `name` fetches and where it stores it: the archive
/// below the version directory `base_url` goes to the cache directory `base_path`.
pub fn download_request(base_url: &str, base_path: &str, name: &str) -> (request: DownloadRequest)
    ensures
        request.url@ == archive_url(base_url@, name@),
        request.destination@ == archive_path(base_path@, name@),
{
    let mut destination = base_path.to_owned();
    destination.append("/");
    destination.append(name);
    destination.append(".tar.gz");
    DownloadRequest { url: generate_archive_url(base_url, name), destination }
}

/// The places of the artifact `name` in the cache directory `base`.
pub fn derive_paths(base: &str, name: &str) -> (paths: CachePaths)
    ensures
        paths.describes(base@, name@),
{
    let mut archive = base.to_owned();
    archive.append("/");
    archive.append(name);
    archive.append(".tar.gz");
    let mut binary = base.to_owned();
    binary.append("/bin/");
    binary.append(name);
    CachePaths { base: base.to_owned(), archive_path: archive, binary_path: binary }
}

/// The address that is fetched for a platform and a version is made of nothing but the
/// release host, the version and the two platform tags.
pub proof fn lemma_download_url_shape(os: OsType, arch: Architecture, version: Seq<char>)
    ensures
        archive_url(version_url(release_host(), version), artifact_name(os, arch))
            == release_host() + "/"@ + version + "/ec-"@ + os.tag() + "-"@ + arch.tag()
            + ".tar.gz"@,
{
    reveal_strlit("/");
    reveal_strlit("ec-");
    reveal_strlit("/ec-");
    let name = artifact_name(os, arch);
    let left = archive_url(version_url(release_host(), version), name);
    let right = release_host() + "/"@ + version + "/ec-"@ + os.tag() + "-"@ + arch.tag()
        + ".tar.gz"@;
    assert("/"@ + "ec-"@ =~= "/ec-"@);
    assert(left =~= release_host() + "/"@ + version + ("/"@ + "ec-"@) + os.tag() + "-"@
        + arch.tag() + ".tar.gz"@);
    assert(left =~= right);
}

} // verus!
