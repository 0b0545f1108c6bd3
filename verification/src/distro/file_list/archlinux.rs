use vstd::prelude::*;

use crate::distro::file_list::PackageFile;

verus! {

/// A package of Arch Linux whose files are listed.
#[derive(Debug)]
pub enum Arch {
    LocalPackage { pkgname: String },
}

impl Arch {
    /// The name of the package.
    pub fn pkgname(&self) -> (res: &String)
        ensures
            match self {
                Arch::LocalPackage { pkgname } => *res == *pkgname,
            },
    {
        match self {
            Arch::LocalPackage { pkgname } => pkgname,
        }
    }
}

/// What was found on disk for a path of the package, in the order of the
/// checks: a directory; otherwise a symbolic link (with its destination, or
/// `None` where it could not be read); otherwise whether the path exists, or
/// `Unreadable` where that could not be told.
#[derive(Debug)]
pub enum PathProbe {
    Directory,
    Symlink(Option<String>),
    Present,
    Absent,
    Unreadable,
}

/// A path of the package with what was found on disk for it.
#[derive(Debug)]
pub struct ProbedPath {
    pub path: String,
    pub probe: PathProbe,
}

/// Why the files of a package cannot be listed.
#[derive(Debug)]
pub enum ListError {
    /// Whether a file exists could not be told.
    IOError,
    /// The destination of the link at this path could not be read.
    SymlinkIOError(String),
    /// A file of the package is missing.
    FileMissing(String),
}

/// What one path contributes to the listing.
pub enum EntryOutcome {
    Skip,
    Keep(PackageFile),
    Fail(ListError),
}

/// What the path `e` contributes: directories are skipped, links and existing
/// files are kept, anything else stops the listing.
pub open spec fn entry_outcome(e: ProbedPath) -> EntryOutcome {
    match e.probe {
        PathProbe::Directory => EntryOutcome::Skip,
        PathProbe::Symlink(Some(t)) => EntryOutcome::Keep(
            PackageFile::Symlink { source_path: e.path, link_target: t },
        ),
        PathProbe::Symlink(None) => EntryOutcome::Fail(ListError::SymlinkIOError(e.path)),
        PathProbe::Present => EntryOutcome::Keep(PackageFile::Regular { source_path: e.path }),
        PathProbe::Absent => EntryOutcome::Fail(ListError::FileMissing(e.path)),
        PathProbe::Unreadable => EntryOutcome::Fail(ListError::IOError),
    }
}

impl PathProbe {
    /// Whether a path found so stops the listing: a link that cannot be read,
    /// a missing file, or one whose existence cannot be told.  No later path
    /// needs to be probed.
    pub fn stops_listing(&self) -> (res: bool)
        ensures
            forall|path: String|
                res == (entry_outcome(ProbedPath { path, probe: *self }) is Fail),
    {
        match self {
            PathProbe::Symlink(None) | PathProbe::Absent | PathProbe::Unreadable => true,
            _ => false,
        }
    }
}

/// The files of a package, from its probed paths in order: the first path
/// that fails stops the listing with its error.
pub open spec fn listing(entries: Seq<ProbedPath>) -> Result<Seq<PackageFile>, ListError>
    decreases entries.len(),
{
    if entries.len() == 0 {
        Ok(Seq::empty())
    } else {
        match listing(entries.drop_last()) {
            Err(e) => Err(e),
            Ok(files) => match entry_outcome(entries.last()) {
                EntryOutcome::Skip => Ok(files),
                EntryOutcome::Keep(f) => Ok(files.push(f)),
                EntryOutcome::Fail(e) => Err(e),
            },
        }
    }
}

/// How many of the paths are not directories.
pub open spec fn non_directories(entries: Seq<ProbedPath>) -> nat
    decreases entries.len(),
{
    if entries.len() == 0 {
        0
    } else if entries.last().probe is Directory {
        non_directories(entries.drop_last())
    } else {
        non_directories(entries.drop_last()) + 1
    }
}

/// A copy of an optional string.
fn clone_opt(o: &Option<String>) -> (res: Option<String>)
    ensures
        res == *o,
{
    match o {
        Some(s) => Some(s.clone()),
        None => None,
    }
}

/// What the path `e` contributes to the listing.
fn outcome_of(e: &ProbedPath) -> (res: EntryOutcome)
    ensures
        res == entry_outcome(*e),
{
    match &e.probe {
        PathProbe::Directory => EntryOutcome::Skip,
        PathProbe::Symlink(t) => match clone_opt(t) {
            Some(t) => EntryOutcome::Keep(
                PackageFile::Symlink { source_path: e.path.clone(), link_target: t },
            ),
            None => EntryOutcome::Fail(ListError::SymlinkIOError(e.path.clone())),
        },
        PathProbe::Present => EntryOutcome::Keep(PackageFile::Regular { source_path: e.path.clone() }),
        PathProbe::Absent => EntryOutcome::Fail(ListError::FileMissing(e.path.clone())),
        PathProbe::Unreadable => EntryOutcome::Fail(ListError::IOError),
    }
}

/// The files of a package from its probed paths (see `listing`): directories
/// are skipped, links and existing files are kept in order, and the first path
/// that is missing, unreadable or a link that cannot be read stops the listing.
pub fn collect_files(entries: &Vec<ProbedPath>) -> (res: Result<Vec<PackageFile>, ListError>)
    ensures
        match (res, listing(entries@)) {
            (Ok(files), Ok(expected)) => files@ == expected,
            (Err(e), Err(expected)) => e == expected,
            _ => false,
        },
{
    let mut files: Vec<PackageFile> = Vec::new();
    let mut i: usize = 0;
    while i < entries.len()
        invariant
            i <= entries.len(),
            listing(entries@.take(i as int)) == Ok::<Seq<PackageFile>, ListError>(files@),
        decreases entries.len() - i,
    {
        proof {
            assert(entries@.take(i + 1).drop_last() =~= entries@.take(i as int));
            assert(entries@.take(i + 1).last() == entries@[i as int]);
        }
        match outcome_of(&entries[i]) {
            EntryOutcome::Skip => {},
            EntryOutcome::Keep(f) => {
                files.push(f);
            },
            EntryOutcome::Fail(e) => {
                proof {
                    lemma_listing_stops(entries@, i as int + 1);
                }
                return Err(e);
            },
        }
        i += 1;
    }
    proof {
        assert(entries@.take(i as int) =~= entries@);
    }
    Ok(files)
}

/// Once the listing of a prefix fails, the listing of the whole fails the same
/// way.
pub proof fn lemma_listing_stops(entries: Seq<ProbedPath>, n: int)
    requires
        0 <= n <= entries.len(),
        listing(entries.take(n)) is Err,
    ensures
        listing(entries) == listing(entries.take(n)),
    decreases entries.len() - n,
{
    if n < entries.len() {
        assert(entries.take(n + 1).drop_last() =~= entries.take(n));
        lemma_listing_stops(entries, n + 1);
    } else {
        assert(entries.take(n) =~= entries);
    }
}

/// A listing succeeds exactly when no path is missing, unreadable, or a link
/// that cannot be read.
pub proof fn law_listing_succeeds_iff_no_failure(entries: Seq<ProbedPath>)
    ensures
        listing(entries) is Ok <==> forall|i: int|
            0 <= i < entries.len() ==> !(entry_outcome(#[trigger] entries[i]) is Fail),
    decreases entries.len(),
{
    if entries.len() > 0 {
        let front = entries.drop_last();
        law_listing_succeeds_iff_no_failure(front);
        assert forall|i: int| 0 <= i < front.len() implies front[i] == entries[i] by {}
        if listing(entries) is Ok {
            assert forall|i: int| 0 <= i < entries.len() implies !(entry_outcome(
                #[trigger] entries[i],
            ) is Fail) by {
                if i < front.len() {
                    assert(front[i] == entries[i]);
                }
            }
        } else {
            if listing(front) is Ok {
                let k = entries.len() - 1;
                assert(entries[k] == entries.last());
            } else {
                let k = choose|i: int| 0 <= i < front.len() && entry_outcome(front[i]) is Fail;
                assert(entries[k] == front[k]);
            }
        }
    }
}

/// Directories never reach the listing, and the listing keeps the order of
/// the paths: on success it has one file for each path that is not a
/// directory.
pub proof fn law_listing_counts_non_directories(entries: Seq<ProbedPath>)
    requires
        listing(entries) is Ok,
    ensures
        listing(entries)->Ok_0.len() == entries.filter(|e: ProbedPath| !(e.probe is Directory)).len(),
    decreases entries.len(),
{
    reveal_with_fuel(Seq::filter, 1);
    if entries.len() > 0 {
        let front = entries.drop_last();
        law_listing_counts_non_directories(front);
    }
}

/// What a successful listing holds, path by path: one file for each path
/// that is not a directory, in the order of the paths; a link is kept as a
/// link from its own path to exactly the destination that was read, and an
/// existing file as a regular file at its path.
pub proof fn law_listing_keeps_each_entry(entries: Seq<ProbedPath>)
    requires
        listing(entries) is Ok,
    ensures
        ({
            let files = listing(entries)->Ok_0;
            &&& files.len() == non_directories(entries)
            &&& forall|i: int|
                0 <= i < entries.len() ==> match (#[trigger] entries[i]).probe {
                    PathProbe::Symlink(Some(t)) => non_directories(entries.take(i)) < files.len()
                        && files[non_directories(entries.take(i)) as int] == PackageFile::Symlink {
                        source_path: entries[i].path,
                        link_target: t,
                    },
                    PathProbe::Present => non_directories(entries.take(i)) < files.len()
                        && files[non_directories(entries.take(i)) as int] == PackageFile::Regular {
                        source_path: entries[i].path,
                    },
                    _ => true,
                }
        }),
    decreases entries.len(),
{
    if entries.len() > 0 {
        let front = entries.drop_last();
        let n = entries.len() - 1;
        law_listing_keeps_each_entry(front);
        let ff = listing(front)->Ok_0;
        let files = listing(entries)->Ok_0;
        assert forall|i: int| 0 <= i < entries.len() implies match (#[trigger] entries[i]).probe {
            PathProbe::Symlink(Some(t)) => non_directories(entries.take(i)) < files.len()
                && files[non_directories(entries.take(i)) as int] == PackageFile::Symlink {
                source_path: entries[i].path,
                link_target: t,
            },
            PathProbe::Present => non_directories(entries.take(i)) < files.len()
                && files[non_directories(entries.take(i)) as int] == PackageFile::Regular {
                source_path: entries[i].path,
            },
            _ => true,
        } by {
            if i < n {
                assert(entries.take(i) =~= front.take(i));
                assert(entries[i] == front[i]);
            } else {
                assert(entries.take(i) =~= front);
                assert(entries[i] == entries.last());
            }
        }
    }
}

/// A path found so cannot be listed: a link whose destination cannot be
/// read, a missing file, or one whose existence cannot be told.
pub open spec fn unlistable(p: PathProbe) -> bool {
    match p {
        PathProbe::Symlink(None) | PathProbe::Absent | PathProbe::Unreadable => true,
        _ => false,
    }
}

/// A failed listing reports the first path that cannot be listed, and how:
/// a link whose destination cannot be read by its path, a missing file by its
/// path, and a file whose existence cannot be told as an I/O error.
pub proof fn law_listing_reports_first_failure(entries: Seq<ProbedPath>)
    requires
        listing(entries) is Err,
    ensures
        exists|i: int|
            0 <= i < entries.len() && (forall|j: int| 0 <= j < i ==> !unlistable(#[trigger] entries[j].probe))
                && match (#[trigger] entries[i]).probe {
                PathProbe::Symlink(None) => listing(entries)->Err_0 == ListError::SymlinkIOError(
                    entries[i].path,
                ),
                PathProbe::Absent => listing(entries)->Err_0 == ListError::FileMissing(entries[i].path),
                PathProbe::Unreadable => listing(entries)->Err_0 == ListError::IOError,
                _ => false,
            },
    decreases entries.len(),
{
    let front = entries.drop_last();
    let n = entries.len() - 1;
    if listing(front) is Err {
        law_listing_reports_first_failure(front);
        let i = choose|i: int|
            0 <= i < front.len() && (forall|j: int| 0 <= j < i ==> !unlistable(#[trigger] front[j].probe))
                && match (#[trigger] front[i]).probe {
                PathProbe::Symlink(None) => listing(front)->Err_0 == ListError::SymlinkIOError(front[i].path),
                PathProbe::Absent => listing(front)->Err_0 == ListError::FileMissing(front[i].path),
                PathProbe::Unreadable => listing(front)->Err_0 == ListError::IOError,
                _ => false,
            };
        assert(entries[i] == front[i]);
        assert forall|j: int| 0 <= j < i implies !unlistable(#[trigger] entries[j].probe) by {
            assert(entries[j] == front[j]);
        }
    } else {
        law_listing_succeeds_iff_no_failure(front);
        assert(entries[n] == entries.last());
        assert forall|j: int| 0 <= j < n implies !unlistable(#[trigger] entries[j].probe) by {
            assert(entries[j] == front[j]);
            assert(!(entry_outcome(front[j]) is Fail));
        }
    }
}

} // verus!
