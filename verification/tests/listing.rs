use portable_packer::distro::file_list::archlinux::{collect_files, Arch, ListError, PathProbe, ProbedPath};
use portable_packer::distro::file_list::PackageFile;

fn probed(path: &str, probe: PathProbe) -> ProbedPath {
    ProbedPath { path: path.to_string(), probe }
}

#[test]
fn directories_are_skipped_and_order_kept() {
    let entries = vec![
        probed("/usr/", PathProbe::Directory),
        probed("/usr/bin/a", PathProbe::Present),
        probed("/usr/lib/l.so", PathProbe::Symlink(Some("l.so.1".to_string()))),
        probed("/usr/share/", PathProbe::Directory),
        probed("/usr/bin/b", PathProbe::Present),
    ];
    let files = collect_files(&entries).unwrap();
    assert_eq!(files.len(), 3);
    assert!(matches!(&files[0], PackageFile::Regular { source_path } if source_path == "/usr/bin/a"));
    assert!(matches!(&files[1], PackageFile::Symlink { source_path, link_target }
        if source_path == "/usr/lib/l.so" && link_target == "l.so.1"));
    assert!(matches!(&files[2], PackageFile::Regular { source_path } if source_path == "/usr/bin/b"));
}

#[test]
fn first_failure_stops_the_listing() {
    let entries = vec![
        probed("/a", PathProbe::Present),
        probed("/b", PathProbe::Absent),
        probed("/c", PathProbe::Unreadable),
    ];
    assert!(matches!(collect_files(&entries), Err(ListError::FileMissing(p)) if p == "/b"));
    let entries = vec![probed("/l", PathProbe::Symlink(None)), probed("/b", PathProbe::Absent)];
    assert!(matches!(collect_files(&entries), Err(ListError::SymlinkIOError(p)) if p == "/l"));
    let entries = vec![probed("/d", PathProbe::Directory), probed("/c", PathProbe::Unreadable)];
    assert!(matches!(collect_files(&entries), Err(ListError::IOError)));
}

#[test]
fn empty_listing() {
    assert!(collect_files(&vec![]).unwrap().is_empty());
    let only_dirs = vec![probed("/x", PathProbe::Directory)];
    assert!(collect_files(&only_dirs).unwrap().is_empty());
}

#[test]
fn package_name() {
    let a = Arch::LocalPackage { pkgname: "portable".to_string() };
    assert_eq!(a.pkgname(), "portable");
}
