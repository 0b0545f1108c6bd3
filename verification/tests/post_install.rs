use portable_packer::distro::fs_op::FsOp;
use portable_packer::distro::fs_op::OpRun;
use portable_packer::distro::post_install::archlinux::{split_steps, ArchPost, PostErrorKind, PostStep};
use portable_packer::help::help_text;
use portable_packer::pref::config::{Config, DbusActivation, Exec, Metadata};
use portable_packer::pref::execute::{post_install_plan, PostStage};
use portable_packer::pref::{InstallDestination, PortableConfig, RuntimeOptions};

fn post() -> ArchPost {
    ArchPost { pkgdir: "/package_root".to_string(), pkgname: "example".to_string() }
}

fn ops(steps: &[PostStep]) -> Vec<(String, PostErrorKind)> {
    steps
        .iter()
        .map(|s| {
            let op = match &s.op {
                FsOp::CreateDirAll(p) => format!("mkdir {}", p),
                FsOp::RemoveDirAll(p) => format!("rm {}", p),
                FsOp::RemoveFile(p) => format!("unlink {}", p),
                FsOp::Rename { from, to } => format!("mv {} {}", from, to),
                FsOp::CopyFile { from, to } => format!("cp {} {}", from, to),
                FsOp::Symlink { target, link } => format!("ln {} {}", target, link),
                FsOp::CreateNewFile { path, mode, content } => format!("new {} {:?} {:?}", path, mode, content),
            };
            (op, s.on_error)
        })
        .collect()
}

const STUB: &str = "#!/usr/bin/bash\nexport PORTABLE_CONF=app.id\nexec portable --file-forwarding -- $@";

#[test]
fn binaries_without_existing_directory() {
    let p = post();
    assert_eq!(p.binary_dir(), "/package_root/usr/bin");
    let steps = p.binary_plan("app.id", true, false);
    assert_eq!(
        ops(&steps),
        vec![
            ("mkdir /package_root/usr/bin".to_string(), PostErrorKind::BinaryInstallIOError),
            (format!("new /package_root/usr/bin/example Some(493) {:?}", STUB), PostErrorKind::BinaryInstallIOError),
        ]
    );
    assert_eq!(p.binary_name(), "example");
}

#[test]
fn binaries_moved_into_overlay() {
    let steps = post().binary_plan("app.id", true, true);
    let o = ops(&steps);
    assert_eq!(o.len(), 4);
    assert_eq!(
        o[0],
        ("mkdir /package_root/usr/lib/portable/info/app.id".to_string(), PostErrorKind::OverlayInstallIOError)
    );
    assert_eq!(
        o[1],
        (
            "mv /package_root/usr/bin /package_root/usr/lib/portable/info/app.id/bin".to_string(),
            PostErrorKind::OverlayInstallIOError
        )
    );
    assert_eq!(o[2].1, PostErrorKind::BinaryInstallIOError);
}

#[test]
fn binaries_removed_without_overlay() {
    let steps = post().binary_plan("app.id", false, true);
    let o = ops(&steps);
    assert_eq!(o.len(), 3);
    assert_eq!(o[0], ("rm /package_root/usr/bin".to_string(), PostErrorKind::BinaryRemoveIOError));
}

#[test]
fn desktop_file_installed() {
    let p = post();
    assert_eq!(p.applications_dir(), "/package_root/usr/share/applications");
    assert_eq!(p.autostart_dir(), "/package_root/etc/xdg/autostart");
    let autostart = Some(vec!["a.desktop".to_string(), "notes.txt".to_string(), "b.desktop".to_string()]);
    let o = ops(&p.desktop_plan("app.id", "/src/x.desktop", true, &autostart).unwrap());
    assert_eq!(
        o,
        vec![
            ("rm /package_root/usr/share/applications".to_string(), PostErrorKind::DesktopFileRmIOError),
            ("unlink /package_root/etc/xdg/autostart/a.desktop".to_string(), PostErrorKind::DesktopFileRmIOError),
            ("unlink /package_root/etc/xdg/autostart/b.desktop".to_string(), PostErrorKind::DesktopFileRmIOError),
            ("mkdir /package_root/usr/share/applications".to_string(), PostErrorKind::DesktopFileInstallIOError),
            (
                "cp /src/x.desktop /package_root/usr/share/applications/app.id.desktop".to_string(),
                PostErrorKind::DesktopFileInstallIOError
            ),
        ]
    );
    assert_eq!(ops(&p.desktop_plan("app.id", "/src/x.desktop", false, &Some(vec![])).unwrap()).len(), 2);
    assert_eq!(p.desktop_plan("app.id", "/src/x.desktop", false, &None).err(), Some(PostErrorKind::DesktopFileRmIOError));
    let not_entries = Some(vec!["desktop".to_string(), ".desktop.bak".to_string(), "x.Desktop".to_string()]);
    assert_eq!(ops(&p.desktop_plan("app.id", "/src/x.desktop", false, &not_entries).unwrap()).len(), 2);
}

#[test]
fn desktop_file_repeat() {
    let p = post();
    let first = ops(&p.desktop_plan("app.id", "/d", false, &Some(vec![])).unwrap());
    let again = ops(&p.desktop_plan("app.id", "/d", true, &Some(vec!["readme".to_string()])).unwrap());
    assert_eq!(again.len(), first.len() + 1);
    assert_eq!(again[0].0, "rm /package_root/usr/share/applications");
    assert_eq!(&again[1..], &first[..]);
}

#[test]
fn dbus_service_generated_or_not() {
    let p = post();
    assert_eq!(p.dbus_dir(), "/package_root/usr/share/dbus-1/services");
    assert_eq!(p.dbus_plan("app.id", true, None).err(), Some(PostErrorKind::BusRmIOError));
    let o = ops(&p.dbus_plan("app.id", false, Some(true)).unwrap());
    assert_eq!(o, vec![("rm /package_root/usr/share/dbus-1/services".to_string(), PostErrorKind::BusRmIOError)]);
    assert!(p.dbus_plan("app.id", false, Some(false)).unwrap().is_empty());
    let o = ops(&p.dbus_plan("app.id", true, Some(false)).unwrap());
    let text = "[D-BUS Service]\nName=app.id\nExec=/usr/bin/env PORTABLE_CONF=app.id portable --dbus-activation\n";
    assert_eq!(
        o,
        vec![
            ("mkdir /package_root/usr/share/dbus-1/services".to_string(), PostErrorKind::BusInstallIOError),
            (
                format!("new /package_root/usr/share/dbus-1/services/app.id.service None {:?}", text),
                PostErrorKind::BusInstallIOError
            ),
        ]
    );
}

#[test]
fn gnome_shell_cleaned() {
    let p = post();
    assert_eq!(p.shell_dir(), "/package_root/usr/share/gnome-shell");
    assert_eq!(p.gnome_shell_plan(None).err(), Some(PostErrorKind::GNOMEShellIOError));
    assert!(p.gnome_shell_plan(Some(false)).unwrap().is_empty());
    let o = ops(&p.gnome_shell_plan(Some(true)).unwrap());
    assert_eq!(o, vec![("rm /package_root/usr/share/gnome-shell".to_string(), PostErrorKind::GNOMEShellIOError)]);
}

#[test]
fn config_installed_by_format() {
    let p = post();
    let o = ops(&p.config_plan(&PortableConfig::Modern("/etc/a.toml".to_string()), "app.id"));
    assert_eq!(o[0].0, "mkdir /package_root/usr/lib/portable/info/app.id");
    assert_eq!(o[1].0, "cp /etc/a.toml /package_root/usr/lib/portable/info/app.id/config.toml");
    let o = ops(&p.config_plan(&PortableConfig::Legacy("/etc/a".to_string()), "app.id"));
    assert_eq!(o[1].0, "cp /etc/a /package_root/usr/lib/portable/info/app.id/config");
    assert!(o.iter().all(|(_, k)| *k == PostErrorKind::ConfigIOError));
}

#[test]
fn absolute_app_id_escapes_pkgdir() {
    let o = ops(&post().desktop_plan("/etc/evil", "/src/x.desktop", false, &Some(vec![])).unwrap());
    assert_eq!(o[1].0, "cp /src/x.desktop /etc/evil.desktop");
}

#[test]
fn post_install_stages_in_order() {
    let options = RuntimeOptions {
        config: Config {
            metadata: Metadata { sandbox_id: "app.id".to_string() },
            exec_section: Exec { overlay: false },
            dbus_activation: DbusActivation { enable: true },
        },
        config_path: PortableConfig::Modern("/c.toml".to_string()),
        desktop_file: "/d.desktop".to_string(),
    };
    let plan = post_install_plan(options);
    assert_eq!(plan.app_id, "app.id");
    assert_eq!(plan.stages.len(), 4);
    assert!(matches!(plan.stages[0], PostStage::Binary { overlay: false }));
    assert!(matches!(&plan.stages[1], PostStage::DesktopFile { desktop_file } if desktop_file == "/d.desktop"));
    assert!(matches!(plan.stages[2], PostStage::DbusService { generate: true }));
    assert!(matches!(plan.stages[3], PostStage::GnomeShell));
}

#[test]
fn destination_becomes_post_target() {
    let d = InstallDestination::ArchLinux { pkgdir: "/p".to_string(), pkgname: "n".to_string() };
    let t = d.post_target();
    assert_eq!(t.pkgdir, "/p");
    assert_eq!(t.pkgname, "n");
}

#[test]
fn help_text_content() {
    assert_eq!(
        help_text(),
        "This is Portable packer, a tool to build sandboxed package.\nVisit https://github.com/Kraftland/portable for documentation and information."
    );
}

#[test]
fn op_run_stops_at_first_failure() {
    let steps = post().binary_plan("app.id", false, true);
    let (ops_list, kinds) = split_steps(steps);
    assert_eq!(kinds, vec![
        PostErrorKind::BinaryRemoveIOError,
        PostErrorKind::BinaryInstallIOError,
        PostErrorKind::BinaryInstallIOError,
    ]);
    let mut run = OpRun::new(ops_list);
    assert!(matches!(run.next(), Some(FsOp::RemoveDirAll(p)) if p == "/package_root/usr/bin"));
    run.record(true);
    assert!(matches!(run.next(), Some(FsOp::CreateDirAll(_))));
    run.record(false);
    assert!(run.next().is_none());
    assert_eq!(run.outcome(), Err(1));
    let mut ok = OpRun::new(vec![FsOp::RemoveFile("/x".to_string())]);
    ok.record(true);
    assert!(ok.next().is_none());
    assert_eq!(ok.outcome(), Ok(()));
}

#[test]
fn dbus_and_gnome_repeat() {
    let p = post();
    let first = ops(&p.dbus_plan("app.id", true, Some(false)).unwrap());
    let again = ops(&p.dbus_plan("app.id", true, Some(true)).unwrap());
    assert_eq!(again[0].0, "rm /package_root/usr/share/dbus-1/services");
    assert_eq!(&again[1..], &first[..]);
    assert!(p.gnome_shell_plan(Some(false)).unwrap().is_empty());
}
