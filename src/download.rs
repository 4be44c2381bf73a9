use vstd::prelude::*;
use crate::style::{row_style, RowStyle, PROGRESS_CHARS, PROGRESS_TEMPLATE};
use vstd::string::StringExecFns;

verus! {

/// Why a download, or a step of one, did not go through.
#[derive(Debug, Clone, Copy, PartialEq, Eq, Structural)]
pub enum DownloadError {
    /// The provider had nothing to fetch.
    NoDownloadPool,
    /// The item carries no location descriptor.
    MissingDownloadInfo,
    /// The item yields no remote URL.
    MissingServerPath,
    /// The item yields no local path.
    MissingLocalPath,
    /// The local file system could not tell whether the file is there.
    ExistenceCheckFailed,
    /// The request failed or the connection dropped.
    Network,
    /// The server answered with a status other than success.
    HttpStatus,
    /// The local file could not be created.
    FileCreate,
    /// Writing or flushing the local file failed.
    FileWrite,
    /// The local file could not be deleted.
    FileRemove,
    /// More bytes arrived than a 64-bit counter holds.
    TooLarge,
    /// The task that ran the transfer stopped before it settled.
    Aborted,
}

/// Whether a file is present at an item's local path.
#[derive(Debug, Clone, Copy, PartialEq, Eq, Structural)]
pub enum LocalFile {
    Exists,
    Absent,
}

/// A published hash that a fetched file could be held against.
pub enum Checksum {
    /// No hash is known for the file.
    Unpublished,
    /// The published hash, as text.
    Hash(String),
}

/// What removing an item's local copy takes.
#[derive(Debug)]
pub enum Removal {
    /// Delete the file at this path.
    Delete(String),
    /// Nothing is there: nothing to do.
    Nothing,
}

/// Where one file lives on the server and where it goes on disk.
pub struct DownloadInfo {
    pub filename: String,
    pub server: String,
    pub localpath: String,
}

impl DownloadInfo {
    /// The full remote URL: server base followed by the file name.
    pub open spec fn remote_url(&self) -> Seq<char> {
        self.server@ + self.filename@
    }

    /// The full local path: local directory followed by the file name.
    pub open spec fn local_path(&self) -> Seq<char> {
        self.localpath@ + self.filename@
    }

    pub fn new(filename: String, server: String, localpath: String) -> (r: DownloadInfo)
        ensures
            r.filename@ == filename@,
            r.server@ == server@,
            r.localpath@ == localpath@,
    {
        DownloadInfo { filename: filename, server: server, localpath: localpath }
    }

    /// A copy that holds the same three strings.
    pub fn copied(&self) -> (r: DownloadInfo)
        ensures
            r.filename@ == self.filename@,
            r.server@ == self.server@,
            r.localpath@ == self.localpath@,
    {
        DownloadInfo {
            filename: self.filename.clone(),
            server: self.server.clone(),
            localpath: self.localpath.clone(),
        }
    }

    pub fn localfile(&self) -> (r: Option<String>)
        ensures
            r.is_some(),
            r.unwrap()@ == self.local_path(),
    {
        Some(self.localpath.clone().concat(self.filename.as_str()))
    }

    pub fn serverfile(&self) -> (r: Option<String>)
        ensures
            r.is_some(),
            r.unwrap()@ == self.remote_url(),
    {
        Some(self.server.clone().concat(self.filename.as_str()))
    }

    /// Checks the file system, now, for a file at the local path; `None` when
    /// the check itself could not be made.
    pub fn is_local(&self) -> (r: Option<LocalFile>) {
        let path = self.localfile().unwrap();
        assert(path@ == self.local_path());
        local_status(path_exists(path.as_str()))
    }

    /// What removing the local copy takes, decided from a fresh existence check.
    pub fn removal(&self) -> (r: Result<Removal, DownloadError>)
        ensures
            exists|status: Option<LocalFile>| removal_of(*self, status, r),
    {
        let status = self.is_local();
        removal_for(self, status)
    }
}

/// The remote URL of an item's descriptor, if it has one.
pub open spec fn remote_of(info: Option<DownloadInfo>) -> Option<Seq<char>> {
    match info {
        Some(d) => Some(d.remote_url()),
        None => None,
    }
}

/// The local path of an item's descriptor, if it has one.
pub open spec fn local_of(info: Option<DownloadInfo>) -> Option<Seq<char>> {
    match info {
        Some(d) => Some(d.local_path()),
        None => None,
    }
}

/// Something that can be fetched: every operation goes through its location
/// descriptor, and fails without one.
pub trait Downloadable {
    /// The descriptor behind the item.
    spec fn info(&self) -> Option<DownloadInfo>;

    fn download_info(&self) -> (r: Option<&DownloadInfo>)
        ensures
            r is None <==> self.info() is None,
            r matches Some(d) ==> self.info() == Some(*d),
    ;

    fn localfile(&self) -> (r: Option<String>)
        ensures
            r is None <==> local_of(self.info()) is None,
            r matches Some(p) ==> local_of(self.info()) == Some(p@),
    {
        match self.download_info() {
            Some(dl) => dl.localfile(),
            None => None,
        }
    }

    fn serverfile(&self) -> (r: Option<String>)
        ensures
            r is None <==> remote_of(self.info()) is None,
            r matches Some(u) ==> remote_of(self.info()) == Some(u@),
    {
        match self.download_info() {
            Some(dl) => dl.serverfile(),
            None => None,
        }
    }

    /// Checks the file system for the local copy; `None` without a descriptor
    /// or when the check could not be made.
    fn is_local(&self) -> (r: Option<LocalFile>)
        ensures
            self.info() is None ==> r is None,
    {
        match self.download_info() {
            Some(dl) => dl.is_local(),
            None => None,
        }
    }

    /// The style of the item's progress row, the same for every item.
    fn pb_style(&self) -> (r: RowStyle)
        ensures
            r.template@ == PROGRESS_TEMPLATE@,
            r.chars@ == PROGRESS_CHARS@,
    {
        row_style()
    }

    /// What removing the local copy takes.
    fn removal(&self) -> (r: Result<Removal, DownloadError>)
        ensures
            self.info() is None ==> r == Err::<Removal, DownloadError>(DownloadError::MissingDownloadInfo),
            self.info() is Some ==> exists|status: Option<LocalFile>|
                removal_of(self.info()->0, status, r),
    {
        match self.download_info() {
            Some(dl) => {
                let r = dl.removal();
                proof {
                    let status = choose|status: Option<LocalFile>| removal_of(*dl, status, r);
                    assert(removal_of(self.info()->0, status, r));
                }
                r
            },
            None => Err(DownloadError::MissingDownloadInfo),
        }
    }
}

/// An item whose fetched copy can be held against a published hash.
pub trait Checked: Downloadable {
    fn check(&self) -> Result<(), DownloadError>;
}

/// A provider of the items that one logical dataset needs fetched together.
pub trait MultiDownload {
    type Item: Downloadable;

    /// What the provider hands out: the items in spawn order, or `None` when
    /// there is nothing to fetch.
    spec fn pool_ok(&self, pool: Option<Seq<Self::Item>>) -> bool;

    fn download_pool(&self) -> (r: Option<Vec<Self::Item>>)
        ensures
            self.pool_ok(view_of_pool(r)),
    ;
}

/// The pool a provider returned, as a sequence.
pub open spec fn view_of_pool<T>(r: Option<Vec<T>>) -> Option<Seq<T>> {
    match r {
        Some(v) => Some(v@),
        None => None,
    }
}

/// The outcome of an existence check, read as a local-file status.
pub fn local_status(check: Option<bool>) -> (r: Option<LocalFile>)
    ensures
        r == (match check {
            Some(true) => Some(LocalFile::Exists),
            Some(false) => Some(LocalFile::Absent),
            None => None,
        }),
{
    match check {
        Some(true) => Some(LocalFile::Exists),
        Some(false) => Some(LocalFile::Absent),
        None => None,
    }
}

/// `r` is the removal step for `d` when its local status is `status`.
pub open spec fn removal_of(d: DownloadInfo, status: Option<LocalFile>, r: Result<Removal, DownloadError>) -> bool {
    match status {
        Some(LocalFile::Exists) => r matches Ok(Removal::Delete(p)) && p@ == d.local_path(),
        Some(LocalFile::Absent) => r == Ok::<Removal, DownloadError>(Removal::Nothing),
        None => r == Err::<Removal, DownloadError>(DownloadError::ExistenceCheckFailed),
    }
}

/// The removal step for an item whose local status is `status`.
pub fn removal_for(d: &DownloadInfo, status: Option<LocalFile>) -> (r: Result<Removal, DownloadError>)
    ensures
        removal_of(*d, status, r),
{
    match status {
        Some(LocalFile::Exists) => Ok(Removal::Delete(d.localpath.clone().concat(d.filename.as_str()))),
        Some(LocalFile::Absent) => Ok(Removal::Nothing),
        None => Err(DownloadError::ExistenceCheckFailed),
    }
}

/// The status that a file system holding the files at `fs` reports for `d`.
pub open spec fn status_in(fs: Set<Seq<char>>, d: DownloadInfo) -> Option<LocalFile> {
    if fs.contains(d.local_path()) {
        Some(LocalFile::Exists)
    } else {
        Some(LocalFile::Absent)
    }
}

/// The files left once a removal step is carried out.
pub open spec fn after_removal(fs: Set<Seq<char>>, r: Removal) -> Set<Seq<char>> {
    match r {
        Removal::Delete(p) => fs.remove(p@),
        Removal::Nothing => fs,
    }
}

/// Removing a local copy twice: once the first removal is carried out, the
/// second finds nothing and succeeds without deleting anything.
pub proof fn lemma_remove_twice(
    fs: Set<Seq<char>>,
    d: DownloadInfo,
    first: Result<Removal, DownloadError>,
    second: Result<Removal, DownloadError>,
)
    requires
        removal_of(d, status_in(fs, d), first),
        removal_of(d, status_in(after_removal(fs, first->Ok_0), d), second),
    ensures
        first is Ok,
        second == Ok::<Removal, DownloadError>(Removal::Nothing),
{
}

/// Relies on std::path::Path::try_exists: `Some(true)` or `Some(false)` when
/// the file system answered, `None` when it could not be asked.
#[verifier::external_body]
fn path_exists(p: &str) -> (r: Option<bool>) {
    std::path::Path::new(p).try_exists().ok()
}

} // verus!
