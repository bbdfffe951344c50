//! The archive cache: where an archive lives on disk, where it is fetched from,
//! and what a request for it turns into.
use vstd::prelude::*;

verus! {

/// A package archive, named by package and version.
pub struct PackageRef {
    pub name: String,
    pub version: String,
}

impl View for PackageRef {
    type V = (Seq<char>, Seq<char>);

    open spec fn view(&self) -> (Seq<char>, Seq<char>) {
        (self.name@, self.version@)
    }
}

/// `{root}/crates/{name}`: the directory that holds every cached version of a package.
pub open spec fn archive_dir_of(root: Seq<char>, name: Seq<char>) -> Seq<char> {
    root + "/crates/"@ + name
}

/// `{root}/crates/{name}/{version}`: the file that is the cache entry of one archive.
pub open spec fn archive_path_of(root: Seq<char>, name: Seq<char>, version: Seq<char>) -> Seq<char> {
    archive_dir_of(root, name) + "/"@ + version
}

/// The directory of a package's cached archives.
pub fn archive_dir(root: &str, name: &str) -> (r: String)
    ensures
        r@ == archive_dir_of(root@, name@),
{
    let mut r = String::from_str(root);
    r.append("/crates/");
    r.append(name);
    r
}

/// `{upstream}{name}/{name}-{version}.crate`: where upstream serves an archive.
pub open spec fn archive_url_of(upstream: Seq<char>, name: Seq<char>, version: Seq<char>) -> Seq<
    char,
> {
    upstream + name + "/"@ + name + "-"@ + version + ".crate"@
}

/// The file that is the cache entry of `name` at `version`.
pub fn archive_path(root: &str, name: &str, version: &str) -> (r: String)
    ensures
        r@ == archive_path_of(root@, name@, version@),
{
    let mut r = archive_dir(root, name);
    r.append("/");
    r.append(version);
    r
}

/// Where upstream serves the archive of `name` at `version`.
pub fn archive_url(upstream: &str, name: &str, version: &str) -> (r: String)
    ensures
        r@ == archive_url_of(upstream@, name@, version@),
{
    let mut r = String::from_str(upstream);
    r.append(name);
    r.append("/");
    r.append(name);
    r.append("-");
    r.append(version);
    r.append(".crate");
    r
}

/// Why an archive could not be served.
#[derive(PartialEq, Eq, Structural, Clone, Copy, Debug)]
pub enum FetchError {
    /// The download could not be started, or did not succeed.
    Transport,
}

impl FetchError {
    /// The plain-text message sent with the failure.
    pub fn message(&self) -> (r: String)
        ensures
            r@ == "Couldn't fetch from upstream"@,
    {
        String::from_str("Couldn't fetch from upstream")
    }
}

/// An archive that is on disk and can be sent: its path, whether it was there before
/// the request, and its length in bytes.
pub struct Served {
    pub path: String,
    pub hit: bool,
    pub size: u64,
}

impl View for Served {
    type V = (Seq<char>, bool, u64);

    open spec fn view(&self) -> (Seq<char>, bool, u64) {
        (self.path@, self.hit, self.size)
    }
}

/// A download to run: create `dir`, then write what `url` serves to `path`.
pub struct DownloadJob {
    pub dir: String,
    pub path: String,
    pub url: String,
}

impl View for DownloadJob {
    type V = (Seq<char>, Seq<char>, Seq<char>);

    open spec fn view(&self) -> (Seq<char>, Seq<char>, Seq<char>) {
        (self.dir@, self.path@, self.url@)
    }
}

/// What a request for an archive turns into.
pub enum CacheAction {
    Serve(Served),
    Download(DownloadJob),
}

pub enum CacheActionView {
    Serve((Seq<char>, bool, u64)),
    Download((Seq<char>, Seq<char>, Seq<char>)),
}

impl View for CacheAction {
    type V = CacheActionView;

    open spec fn view(&self) -> CacheActionView {
        match self {
            CacheAction::Serve(s) => CacheActionView::Serve(s@),
            CacheAction::Download(j) => CacheActionView::Download(j@),
        }
    }
}

/// Where the cache keeps its archives, and where upstream serves them.
pub struct ArchiveCache {
    pub root: String,
    pub upstream: String,
}

pub open spec fn download_job_of(root: Seq<char>, upstream: Seq<char>, p: (Seq<char>, Seq<char>)) -> (
    Seq<char>,
    Seq<char>,
    Seq<char>,
) {
    (archive_dir_of(root, p.0), archive_path_of(root, p.0, p.1), archive_url_of(upstream, p.0, p.1))
}

/// A request for `p`, given the length of its file when that file is present: a hit
/// served from disk, or else a download into the cache.
pub open spec fn lookup_of(
    root: Seq<char>,
    upstream: Seq<char>,
    p: (Seq<char>, Seq<char>),
    on_disk: Option<u64>,
) -> CacheActionView {
    match on_disk {
        Some(n) => CacheActionView::Serve((archive_path_of(root, p.0, p.1), true, n)),
        None => CacheActionView::Download(download_job_of(root, upstream, p)),
    }
}

/// How a request for `p` that needed a download ends: the fresh file served as a
/// miss when the download succeeded, a transport error when it did not.
pub open spec fn finish_of(
    root: Seq<char>,
    p: (Seq<char>, Seq<char>),
    downloaded: bool,
    on_disk: Option<u64>,
) -> Result<(Seq<char>, bool, u64), FetchError> {
    if downloaded {
        Ok(
            (
                archive_path_of(root, p.0, p.1),
                false,
                match on_disk {
                    Some(n) => n,
                    None => 0,
                },
            ),
        )
    } else {
        Err(FetchError::Transport)
    }
}

impl ArchiveCache {
    /// The first half of a request for `p`. `on_disk` is the length of its file when the
    /// file is present (0 when its length cannot be read), and `None` when it is absent.
    pub fn lookup(&self, p: &PackageRef, on_disk: Option<u64>) -> (r: CacheAction)
        ensures
            r@ == lookup_of(self.root@, self.upstream@, p@, on_disk),
    {
        match on_disk {
            Some(n) => CacheAction::Serve(
                Served {
                    path: archive_path(self.root.as_str(), p.name.as_str(), p.version.as_str()),
                    hit: true,
                    size: n,
                },
            ),
            None => CacheAction::Download(self.download_job(p)),
        }
    }

    /// The download that brings `p` into the cache.
    pub fn download_job(&self, p: &PackageRef) -> (r: DownloadJob)
        ensures
            r@ == download_job_of(self.root@, self.upstream@, p@),
    {
        DownloadJob {
            dir: archive_dir(self.root.as_str(), p.name.as_str()),
            path: archive_path(self.root.as_str(), p.name.as_str(), p.version.as_str()),
            url: archive_url(self.upstream.as_str(), p.name.as_str(), p.version.as_str()),
        }
    }

    /// The second half of a request for `p`, after its download: `downloaded` tells
    /// whether the download started and exited successfully, `on_disk` is the length of
    /// the file it wrote (`None` when that cannot be read).
    pub fn finish_download(&self, p: &PackageRef, downloaded: bool, on_disk: Option<u64>) -> (r:
        Result<Served, FetchError>)
        ensures
            match r {
                Ok(s) => finish_of(self.root@, p@, downloaded, on_disk) == Ok::<
                    (Seq<char>, bool, u64),
                    FetchError,
                >(s@),
                Err(e) => finish_of(self.root@, p@, downloaded, on_disk) == Err::<
                    (Seq<char>, bool, u64),
                    FetchError,
                >(e),
            },
    {
        if downloaded {
            let size = match on_disk {
                Some(n) => n,
                None => 0,
            };
            Ok(
                Served {
                    path: archive_path(self.root.as_str(), p.name.as_str(), p.version.as_str()),
                    hit: false,
                    size,
                },
            )
        } else {
            Err(FetchError::Transport)
        }
    }

    /// What prefetching `p` asks for: nothing when its archive is already cached,
    /// else the download that brings it in.
    pub fn prefetch_job(&self, p: &PackageRef, cached: bool) -> (r: Option<DownloadJob>)
        ensures
            cached ==> r is None,
            !cached ==> r is Some && r->0@ == download_job_of(self.root@, self.upstream@, p@),
    {
        if cached {
            None
        } else {
            Some(self.download_job(p))
        }
    }
}

/// The HTTP status of the answer to a download request: 200 with the file, or 503.
pub fn reply_status(r: &Result<Served, FetchError>) -> (code: u16)
    ensures
        code == (if r is Ok {
            200u16
        } else {
            503u16
        }),
{
    match r {
        Ok(_) => 200,
        Err(_) => 503,
    }
}

/// The length of each file that is present, by path.
pub open spec fn disk_entry(disk: Map<Seq<char>, u64>, path: Seq<char>) -> Option<u64> {
    if disk.contains_key(path) {
        Some(disk[path])
    } else {
        None
    }
}

/// A whole request for `p` against `disk`: the disk afterwards, what the request
/// returns, and whether it ran a download. `download` is the length of the file that
/// the download wrote, or `None` when it failed.
pub open spec fn get_or_fetch(
    root: Seq<char>,
    upstream: Seq<char>,
    p: (Seq<char>, Seq<char>),
    disk: Map<Seq<char>, u64>,
    download: Option<u64>,
) -> (Map<Seq<char>, u64>, Result<(Seq<char>, bool, u64), FetchError>, bool) {
    match lookup_of(root, upstream, p, disk_entry(disk, archive_path_of(root, p.0, p.1))) {
        CacheActionView::Serve(s) => (disk, Ok(s), false),
        CacheActionView::Download(job) => match download {
            Some(n) => (disk.insert(job.1, n), finish_of(root, p, true, Some(n)), true),
            None => (disk, finish_of(root, p, false, None), true),
        },
    }
}

/// Once a request for `p` has succeeded, the next request for `p` is a hit on the
/// same file with the same length, runs no download, and leaves the disk as it is.
pub proof fn lemma_second_request_hits(
    root: Seq<char>,
    upstream: Seq<char>,
    p: (Seq<char>, Seq<char>),
    disk: Map<Seq<char>, u64>,
    first: Option<u64>,
    second: Option<u64>,
)
    requires
        get_or_fetch(root, upstream, p, disk, first).1 is Ok,
    ensures
        ({
            let (disk1, r1, _) = get_or_fetch(root, upstream, p, disk, first);
            let (disk2, r2, downloaded) = get_or_fetch(root, upstream, p, disk1, second);
            let served = r1->Ok_0;
            &&& !downloaded
            &&& disk2 == disk1
            &&& r2 == Ok::<(Seq<char>, bool, u64), FetchError>((served.0, true, served.2))
        }),
{
}

/// The record of one answered archive request, handed to the statistics store.
pub struct CargoRequest {
    /// The package name.
    pub name: String,
    /// The version, as `major.minor.patch`.
    pub version: String,
    /// Whether the archive was cached before the request.
    pub hit: bool,
    /// The archive's length in bytes.
    pub size: i64,
}

/// The event that reports serving `served` for `p`. A length beyond `i64::MAX` is
/// recorded as `i64::MAX`.
pub fn stats_event(p: &PackageRef, served: &Served) -> (r: CargoRequest)
    ensures
        r.name@ == p.name@,
        r.version@ == p.version@,
        r.hit == served.hit,
        r.size == if served.size <= i64::MAX as u64 {
            served.size as i64
        } else {
            i64::MAX
        },
{
    let size: i64 = if served.size <= i64::MAX as u64 {
        served.size as i64
    } else {
        i64::MAX
    };
    CargoRequest { name: p.name.clone(), version: p.version.clone(), hit: served.hit, size }
}

} // verus!
