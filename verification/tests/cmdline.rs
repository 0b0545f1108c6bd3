use portable_packer::pref::cmdline::{resolve_pref, scan_args, CmdlineError, Distro, OpMode, ScanEvent};
use portable_packer::pref::config::{Config, DbusActivation, Exec, Metadata};
use portable_packer::pref::{CopySource, InstallDestination, OperationMode, PortableConfig};

fn args(list: &[&str]) -> Vec<String> {
    list.iter().map(|s| s.to_string()).collect()
}

fn config() -> Config {
    Config {
        metadata: Metadata { sandbox_id: "top.kimiblock.example".to_string() },
        exec_section: Exec { overlay: true },
        dbus_activation: DbusActivation { enable: false },
    }
}

fn env() -> (Option<String>, Option<String>) {
    (Some("/package_root".to_string()), Some("example".to_string()))
}

#[test]
fn no_or_one_argument_means_help() {
    assert!(scan_args(&args(&[])).is_none());
    assert!(scan_args(&args(&["--mode"])).is_none());
    let (d, n) = env();
    assert!(matches!(resolve_pref(scan_args(&args(&["--mode"])), None, d, n), Ok(OperationMode::Help)));
}

#[test]
fn copy_mode_is_assembled() {
    let a = args(&[
        "--distro", "arch:archlinux", "--mode", "copy", "portable", "--config-ng", "/etc/x.toml",
        "--desktop-file", "/tmp/x.desktop",
    ]);
    let scan = scan_args(&a).unwrap();
    assert!(scan.error.is_none());
    assert!(matches!(scan.mode, Some(OpMode::Copy)));
    assert!(matches!(scan.distro, Some((Distro::Arch, Distro::Arch))));
    assert_eq!(scan.copy_source.as_deref(), Some("portable"));
    assert_eq!(scan.events.len(), 1);
    assert!(matches!(&scan.events[0], ScanEvent::LoadConfig(PortableConfig::Modern(p)) if p == "/etc/x.toml"));
    let (d, n) = env();
    match resolve_pref(Some(scan), Some(config()), d, n) {
        Ok(OperationMode::Copy { source, dest, options }) => {
            let CopySource::PacmanLocal { pkgname } = source;
            assert_eq!(pkgname, "portable");
            let InstallDestination::ArchLinux { pkgdir, pkgname } = dest;
            assert_eq!(pkgdir, "/package_root");
            assert_eq!(pkgname, "example");
            assert_eq!(options.desktop_file, "/tmp/x.desktop");
            assert!(matches!(options.config_path, PortableConfig::Modern(p) if p == "/etc/x.toml"));
            assert_eq!(options.config.metadata.sandbox_id, "top.kimiblock.example");
        }
        other => panic!("unexpected {:?}", other),
    }
}

#[test]
fn post_mode_with_single_distro_name() {
    let a = args(&["--config", "/etc/legacy", "--distro", "arch", "--mode", "post", "--desktop-file", "d"]);
    let scan = scan_args(&a).unwrap();
    assert!(scan.error.is_none());
    assert_eq!(scan.events.len(), 3);
    assert!(matches!(scan.events[0], ScanEvent::LegacyConfig));
    assert!(matches!(&scan.events[1], ScanEvent::LoadConfig(PortableConfig::Legacy(p)) if p == "/etc/legacy"));
    assert!(matches!(scan.events[2], ScanEvent::DistroWithoutSeparator));
    let (d, n) = env();
    match resolve_pref(Some(scan), Some(config()), d, n) {
        Ok(OperationMode::PostOnly { dest, options }) => {
            let InstallDestination::ArchLinux { pkgdir, .. } = dest;
            assert_eq!(pkgdir, "/package_root");
            assert!(matches!(options.config_path, PortableConfig::Legacy(_)));
        }
        other => panic!("unexpected {:?}", other),
    }
}

#[test]
fn missing_configuration_is_reported_before_mode() {
    let a = args(&["--mode", "post", "--desktop-file", "d"]);
    let (d, n) = env();
    let res = resolve_pref(scan_args(&a), None, d, n);
    assert!(matches!(res, Err(CmdlineError::NoConfiguration)));
}

#[test]
fn missing_desktop_file_is_reported() {
    let a = args(&["--config-ng", "c", "--mode", "post"]);
    let (d, n) = env();
    let res = resolve_pref(scan_args(&a), Some(config()), d, n);
    assert!(matches!(res, Err(CmdlineError::NoDesktopFile)));
}

#[test]
fn without_mode_it_is_help() {
    let a = args(&["--config-ng", "c", "--desktop-file", "d"]);
    let res = resolve_pref(scan_args(&a), Some(config()), None, None);
    assert!(matches!(res, Ok(OperationMode::Help)));
}

#[test]
fn post_destination_defaults_to_arch() {
    let a = args(&["--mode", "post", "--config-ng", "c", "--desktop-file", "d"]);
    let (d, n) = env();
    match resolve_pref(scan_args(&a), Some(config()), d, n) {
        Ok(OperationMode::PostOnly { dest, options }) => {
            let InstallDestination::ArchLinux { pkgdir, pkgname } = dest;
            assert_eq!(pkgdir, "/package_root");
            assert_eq!(pkgname, "example");
            assert_eq!(options.desktop_file, "d");
        }
        other => panic!("unexpected {:?}", other),
    }
}

#[test]
fn copy_destination_defaults_to_arch() {
    let a = args(&["--config-ng", "c", "--desktop-file", "d", "--mode", "copy", "pkg"]);
    let (d, n) = env();
    match resolve_pref(scan_args(&a), Some(config()), d, n) {
        Ok(OperationMode::Copy { source, dest, .. }) => {
            let CopySource::PacmanLocal { pkgname } = source;
            assert_eq!(pkgname, "pkg");
            let InstallDestination::ArchLinux { pkgdir, .. } = dest;
            assert_eq!(pkgdir, "/package_root");
        }
        other => panic!("unexpected {:?}", other),
    }
}

#[test]
fn variables_are_needed_for_the_destination() {
    let a = args(&["--config-ng", "c", "--desktop-file", "d", "--mode", "post", "--distro", "arch"]);
    let res = resolve_pref(scan_args(&a), Some(config()), None, Some("x".to_string()));
    assert!(matches!(res, Err(CmdlineError::MissingPkgdir)));
    let res = resolve_pref(scan_args(&a), Some(config()), Some("/p".to_string()), None);
    assert!(matches!(res, Err(CmdlineError::MissingPkgname)));
}

#[test]
fn unknown_distribution_stops_the_scan() {
    let scan = scan_args(&args(&["--distro", "debian:arch", "--mode", "post"])).unwrap();
    assert!(matches!(&scan.error, Some(CmdlineError::UnknownDistro(v)) if v == "debian"));
    assert!(scan.mode.is_none());
    let scan = scan_args(&args(&["--distro", "arch:", "--mode", "post"])).unwrap();
    assert!(matches!(&scan.error, Some(CmdlineError::UnknownDistro(v)) if v.is_empty()));
    let scan = scan_args(&args(&["--distro", "arch:arch:arch", "x"])).unwrap();
    assert!(matches!(&scan.error, Some(CmdlineError::UnknownDistro(v)) if v == "arch:arch"));
    let scan = scan_args(&args(&["x", "--distro", "gentoo"])).unwrap();
    assert!(matches!(&scan.error, Some(CmdlineError::UnknownDistro(v)) if v == "gentoo"));
    assert_eq!(scan.events.len(), 2);
}

#[test]
fn missing_values_are_errors() {
    let cases: [(&[&str], fn(&CmdlineError) -> bool); 6] = [
        (&["x", "--distro"], |e| matches!(e, CmdlineError::MissingDistroNames)),
        (&["x", "--mode"], |e| matches!(e, CmdlineError::MissingModeArgument)),
        (&["--mode", "copy"], |e| matches!(e, CmdlineError::MissingCopySource)),
        (&["x", "--config"], |e| matches!(e, CmdlineError::MissingConfigPath)),
        (&["x", "--config-ng"], |e| matches!(e, CmdlineError::MissingConfigNgPath)),
        (&["x", "--desktop-file"], |e| matches!(e, CmdlineError::MissingDesktopPath)),
    ];
    for (list, check) in cases.iter() {
        let scan = scan_args(&args(list)).unwrap();
        assert!(check(scan.error.as_ref().unwrap()), "{:?}", list);
    }
}

#[test]
fn unexpected_mode_is_an_error() {
    let scan = scan_args(&args(&["--mode", "build", "--config-ng", "c"])).unwrap();
    assert!(matches!(&scan.error, Some(CmdlineError::UnexpectedMode(v)) if v == "build"));
    assert!(scan.config_fs.is_none());
}

#[test]
fn last_option_wins() {
    let a = args(&[
        "--desktop-file", "first", "--mode", "copy", "src", "--desktop-file", "second", "--mode", "post",
    ]);
    let scan = scan_args(&a).unwrap();
    assert_eq!(scan.desktop_path.as_deref(), Some("second"));
    assert!(matches!(scan.mode, Some(OpMode::Post)));
    assert_eq!(scan.copy_source.as_deref(), Some("src"));
}

#[test]
fn unknown_arguments_are_reported_and_skipped() {
    let scan = scan_args(&args(&["--verbose", "--desktop-file", "d", "extra"])).unwrap();
    assert!(scan.error.is_none());
    assert_eq!(scan.desktop_path.as_deref(), Some("d"));
    assert_eq!(scan.events.len(), 2);
    assert!(matches!(&scan.events[0], ScanEvent::UnknownArgument(v) if v == "--verbose"));
    assert!(matches!(&scan.events[1], ScanEvent::UnknownArgument(v) if v == "extra"));
}

#[test]
fn distro_codenames() {
    assert!(matches!(Distro::from_name("arch"), Some(Distro::Arch)));
    assert!(matches!(Distro::from_name("archlinux"), Some(Distro::Arch)));
    assert!(Distro::from_name("Arch").is_none());
    assert!(Distro::from_name("").is_none());
    let CopySource::PacmanLocal { pkgname } = Distro::Arch.to_copy_source("p".to_string());
    assert_eq!(pkgname, "p");
}

#[test]
fn unknown_argument_in_the_middle_is_skipped() {
    let with = scan_args(&args(&["--mode", "post", "--bogus", "--desktop-file", "d"])).unwrap();
    let without = scan_args(&args(&["--mode", "post", "--desktop-file", "d"])).unwrap();
    assert_eq!(with.desktop_path, without.desktop_path);
    assert!(matches!(with.mode, Some(OpMode::Post)));
    assert_eq!(with.events.len(), without.events.len() + 1);
    assert!(matches!(&with.events[0], ScanEvent::UnknownArgument(v) if v == "--bogus"));
}

#[test]
fn single_distro_name_is_both_sides() {
    let one = scan_args(&args(&["--distro", "archlinux", "--mode", "post"])).unwrap();
    let two = scan_args(&args(&["--distro", "archlinux:archlinux", "--mode", "post"])).unwrap();
    assert!(matches!(one.distro, Some((Distro::Arch, Distro::Arch))));
    assert!(matches!(two.distro, Some((Distro::Arch, Distro::Arch))));
    assert_eq!(one.events.len(), 1);
    assert!(two.events.is_empty());
    let bad_one = scan_args(&args(&["--distro", "x", "y"])).unwrap();
    let bad_two = scan_args(&args(&["--distro", "x:x", "y"])).unwrap();
    assert!(matches!(&bad_one.error, Some(CmdlineError::UnknownDistro(v)) if v == "x"));
    assert!(matches!(&bad_two.error, Some(CmdlineError::UnknownDistro(v)) if v == "x"));
}
