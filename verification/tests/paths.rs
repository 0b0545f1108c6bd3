use portable_packer::distro::file_list::PackageFile;
use portable_packer::distro::fs_op::FsOp;
use portable_packer::path::{joined, path_components, push_path};
use portable_packer::pref::PortableConfig;

#[test]
fn push_follows_pathbuf() {
    assert_eq!(joined("/pkg", "usr"), "/pkg/usr");
    assert_eq!(joined("/pkg/", "usr"), "/pkg/usr");
    assert_eq!(joined("", "usr"), "usr");
    assert_eq!(joined("/pkg", "/etc"), "/etc");
    assert_eq!(joined("/pkg", ""), "/pkg/");
    assert_eq!(joined("a", "b/c"), "a/b/c");
    let mut p = String::from("x");
    push_path(&mut p, "y");
    push_path(&mut p, "z");
    assert_eq!(p, "x/y/z");
    for (base, comp) in [("/pkg", "usr"), ("/pkg/", "a/b"), ("", "x"), ("/a", "/b"), ("a", "")] {
        let mut expected = std::path::PathBuf::from(base);
        expected.push(comp);
        assert_eq!(joined(base, comp), expected.to_str().unwrap());
    }
}

#[test]
fn install_path_pushes_each_piece() {
    let f = PackageFile::Regular { source_path: "usr//bin/./portable".to_string() };
    assert_eq!(f.install_path("/package_root"), "/package_root/usr/bin/portable");
    let abs = PackageFile::Regular { source_path: "/usr/bin/portable".to_string() };
    assert_eq!(abs.install_path("/package_root"), "/package_root/usr/bin/portable");
    let root = PackageFile::Regular { source_path: "/".to_string() };
    assert_eq!(root.install_path("/package_root"), "/package_root");
}

#[test]
fn install_ops() {
    let f = PackageFile::Regular { source_path: "/usr/share/a".to_string() };
    let ops = f.install_ops("/p");
    assert_eq!(ops.len(), 1);
    match &ops[0] {
        FsOp::CopyFile { from, to } => {
            assert_eq!(from, "/usr/share/a");
            assert_eq!(to, "/p/usr/share/a");
        }
        other => panic!("unexpected {:?}", other),
    }
    let l = PackageFile::Symlink { source_path: "/usr/lib/libx.so".to_string(), link_target: "libx.so.1".to_string() };
    let ops = l.install_ops("/p");
    assert_eq!(ops.len(), 2);
    assert!(matches!(&ops[0], FsOp::CreateDirAll(d) if d == "/p/usr/lib"));
    match &ops[1] {
        FsOp::Symlink { target, link } => {
            assert_eq!(target, "libx.so.1");
            assert_eq!(link, "/p/usr/lib/libx.so");
        }
        other => panic!("unexpected {:?}", other),
    }
    assert_eq!(l.source_path(), "/usr/lib/libx.so");
}

#[test]
fn config_path_of_either_format() {
    assert_eq!(PortableConfig::Modern("/a.toml".to_string()).as_path(), "/a.toml");
    assert_eq!(PortableConfig::Legacy("/b".to_string()).as_path(), "/b");
}

#[test]
fn install_path_matches_pathbuf_below_root() {
    for (pkgdir, source) in [
        ("/package_root", "usr/bin/portable"),
        ("/package_root/", "usr//lib/./x.so"),
        ("/package_root", "/usr/share/doc/"),
        ("", "a/b"),
        ("rel", "./a"),
    ] {
        let mut expected = std::path::PathBuf::from(pkgdir);
        expected.extend(
            std::path::Path::new(source)
                .components()
                .filter(|c| !matches!(c, std::path::Component::RootDir))
                .map(|c| c.as_os_str().to_owned()),
        );
        let f = PackageFile::Regular { source_path: source.to_string() };
        assert_eq!(f.install_path(pkgdir), expected.to_str().unwrap(), "{pkgdir} {source}");
    }
}

#[test]
fn components_match_path_iter() {
    for p in [
        "", "/", "//", "/usr", "usr", "usr/", "usr//bin/./x", "./a", ".", "./", "./.", "..", "../a/..",
        "a/./b/../c", "/./a", ".a/b", "a/.", "/usr/bin/portable", "x//", "a/.hidden",
    ] {
        let expected: Vec<String> =
            std::path::Path::new(p).iter().map(|c| c.to_str().unwrap().to_string()).collect();
        assert_eq!(path_components(p), expected, "{p:?}");
    }
}
