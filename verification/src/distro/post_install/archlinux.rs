use vstd::prelude::*;

use crate::distro::fs_op::{FsOp, FsOpView};
use crate::path::{
    is_relative, joined, lemma_push_stays_under, path_parent, path_parent_of, push_path, spec_push,
};
use crate::pref::{PortableConfig, PortableConfigView};
use crate::text::{ends_with, push_str, to_string};

verus! {

/// The post-install stage for Arch Linux: the package directory and the name
/// of the package.
#[derive(Debug)]
pub struct ArchPost {
    pub pkgdir: String,
    pub pkgname: String,
}

/// The stage of the post-install work at which an operation failed.
#[derive(Debug, Clone, Copy, PartialEq, Eq, Structural)]
pub enum PostErrorKind {
    /// Removing .desktop files.
    DesktopFileRmIOError,
    /// Installing the .desktop file.
    DesktopFileInstallIOError,
    /// Installing the app-private overlay.
    OverlayInstallIOError,
    /// Removing binaries.
    BinaryRemoveIOError,
    /// Creating stub binaries.
    BinaryInstallIOError,
    /// Removing D-Bus services.
    BusRmIOError,
    /// Installing D-Bus services.
    BusInstallIOError,
    /// Cleaning GNOME Shell paths.
    GNOMEShellIOError,
    /// Installing the configuration.
    ConfigIOError,
}

/// One operation of the post-install work, with the stage that a failure of
/// it is reported as.
#[derive(Debug)]
pub struct PostStep {
    pub op: FsOp,
    pub on_error: PostErrorKind,
}

/// The mathematical value of a `PostStep`.
pub struct PostStepView {
    pub op: FsOpView,
    pub on_error: PostErrorKind,
}

impl View for PostStep {
    type V = PostStepView;

    open spec fn view(&self) -> PostStepView {
        PostStepView { op: self.op@, on_error: self.on_error }
    }
}

/// The views of a list of steps.
pub open spec fn steps_view(steps: Seq<PostStep>) -> Seq<PostStepView> {
    steps.map_values(|s: PostStep| s@)
}

/// A step made of an operation and the stage it belongs to.
pub open spec fn step(op: FsOpView, on_error: PostErrorKind) -> PostStepView {
    PostStepView { op, on_error }
}

/// The script that replaces the package's binaries: it starts the sandbox
/// `app_id` and hands it the arguments.
pub open spec fn stub_script(app_id: Seq<char>) -> Seq<char> {
    "#!/usr/bin/bash"@ + "\n"@ + "export PORTABLE_CONF="@ + app_id + "\n"@
        + "exec portable --file-forwarding -- $@"@
}

/// The D-Bus service file that activates the sandbox `app_id`.
pub open spec fn dbus_service_text(app_id: Seq<char>) -> Seq<char> {
    "[D-BUS Service]"@ + "\n"@ + "Name="@ + app_id + "\n"@ + "Exec=/usr/bin/env PORTABLE_CONF="@
        + app_id + " portable --dbus-activation"@ + "\n"@
}

/// The views of an optional list of names.
pub open spec fn names_view(o: Option<Vec<String>>) -> Option<Seq<Seq<char>>> {
    match o {
        Some(v) => Some(v@.map_values(|n: String| n@)),
        None => None,
    }
}

/// Whether a directory entry is a desktop entry: its name ends in `.desktop`.
pub open spec fn is_desktop_entry(name: Seq<char>) -> bool {
    ".desktop"@.len() <= name.len() && name.skip(name.len() - ".desktop"@.len()) == ".desktop"@
}

/// The removal of every desktop entry among `names`, in the directory `dir`,
/// in the order of the names.
pub open spec fn autostart_removals(dir: Seq<char>, names: Seq<Seq<char>>) -> Seq<PostStepView>
    decreases names.len(),
{
    if names.len() == 0 {
        Seq::empty()
    } else {
        let rest = autostart_removals(dir, names.drop_last());
        if is_desktop_entry(names.last()) {
            rest.push(
                step(FsOpView::RemoveFile(spec_push(dir, names.last())), PostErrorKind::DesktopFileRmIOError),
            )
        } else {
            rest
        }
    }
}

impl ArchPost {
    /// `<pkgdir>/usr/bin`
    pub open spec fn binary_dir_spec(&self) -> Seq<char> {
        spec_push(spec_push(self.pkgdir@, "usr"@), "bin"@)
    }

    /// `<pkgdir>/usr/lib/portable/info/<app_id>`
    pub open spec fn info_dir_spec(&self, app_id: Seq<char>) -> Seq<char> {
        spec_push(
            spec_push(spec_push(spec_push(spec_push(self.pkgdir@, "usr"@), "lib"@), "portable"@), "info"@),
            app_id,
        )
    }

    /// `<pkgdir>/usr/lib/portable/info/<app_id>/bin`
    pub open spec fn overlay_dir_spec(&self, app_id: Seq<char>) -> Seq<char> {
        spec_push(self.info_dir_spec(app_id), "bin"@)
    }

    /// `<pkgdir>/usr/bin/<pkgname>`
    pub open spec fn stub_path_spec(&self) -> Seq<char> {
        spec_push(self.binary_dir_spec(), self.pkgname@)
    }

    /// The binaries step: where `<pkgdir>/usr/bin` exists, it is moved into the
    /// app-private overlay (whose parent is created first) or removed; then it
    /// is created again and holds a new stub script named after the package.
    pub open spec fn binary_plan_spec(&self, app_id: Seq<char>, overlay: bool, bin_exists: bool) -> Seq<
        PostStepView,
    > {
        let bin = self.binary_dir_spec();
        let ovl = self.overlay_dir_spec(app_id);
        let before = if !bin_exists {
            Seq::empty()
        } else if overlay {
            let parent = match path_parent_of(ovl) {
                Some(p) => seq![step(FsOpView::CreateDirAll(p), PostErrorKind::OverlayInstallIOError)],
                None => Seq::empty(),
            };
            parent + seq![
                step(FsOpView::Rename { from: bin, to: ovl }, PostErrorKind::OverlayInstallIOError),
            ]
        } else {
            seq![step(FsOpView::RemoveDirAll(bin), PostErrorKind::BinaryRemoveIOError)]
        };
        before + seq![
            step(FsOpView::CreateDirAll(bin), PostErrorKind::BinaryInstallIOError),
            step(
                FsOpView::CreateNewFile {
                    path: self.stub_path_spec(),
                    mode: Some(0o755u32),
                    content: stub_script(app_id),
                },
                PostErrorKind::BinaryInstallIOError,
            ),
        ]
    }

    /// `<pkgdir>/usr/share/applications`
    pub open spec fn applications_dir_spec(&self) -> Seq<char> {
        spec_push(spec_push(spec_push(self.pkgdir@, "usr"@), "share"@), "applications"@)
    }

    /// `<pkgdir>/etc/xdg/autostart`
    pub open spec fn autostart_dir_spec(&self) -> Seq<char> {
        spec_push(spec_push(spec_push(self.pkgdir@, "etc"@), "xdg"@), "autostart"@)
    }

    /// The desktop-file step, given whether the applications directory exists
    /// and the names of the entries of the autostart directory (`None`: they
    /// could not be read): the applications directory is removed where it
    /// exists, every `.desktop` entry of the autostart directory is removed,
    /// then the applications directory is created again and gets a copy of
    /// `desktop_file` named `<app_id>.desktop`.
    pub open spec fn desktop_plan_spec(
        &self,
        app_id: Seq<char>,
        desktop_file: Seq<char>,
        apps_exist: bool,
        autostart: Option<Seq<Seq<char>>>,
    ) -> Result<Seq<PostStepView>, PostErrorKind> {
        match autostart {
            None => Err(PostErrorKind::DesktopFileRmIOError),
            Some(names) => {
                let apps = self.applications_dir_spec();
                let before = if apps_exist {
                    seq![step(FsOpView::RemoveDirAll(apps), PostErrorKind::DesktopFileRmIOError)]
                } else {
                    Seq::empty()
                };
                Ok(
                    before + autostart_removals(self.autostart_dir_spec(), names) + seq![
                        step(FsOpView::CreateDirAll(apps), PostErrorKind::DesktopFileInstallIOError),
                        step(
                            FsOpView::CopyFile {
                                from: desktop_file,
                                to: spec_push(apps, app_id + ".desktop"@),
                            },
                            PostErrorKind::DesktopFileInstallIOError,
                        ),
                    ],
                )
            },
        }
    }

    /// `<pkgdir>/usr/share/dbus-1/services`
    pub open spec fn dbus_dir_spec(&self) -> Seq<char> {
        spec_push(self.pkgdir@, "usr/share/dbus-1/services"@)
    }

    /// The D-Bus step, given whether the services directory exists (`None`
    /// where that could not be told): the directory is removed where it
    /// exists; where a service is to be generated, it is created again and
    /// gets `<app_id>.service`.
    pub open spec fn dbus_plan_spec(&self, app_id: Seq<char>, generate: bool, probe: Option<bool>) -> Result<
        Seq<PostStepView>,
        PostErrorKind,
    > {
        match probe {
            None => Err(PostErrorKind::BusRmIOError),
            Some(exists) => {
                let dir = self.dbus_dir_spec();
                let before = if exists {
                    seq![step(FsOpView::RemoveDirAll(dir), PostErrorKind::BusRmIOError)]
                } else {
                    Seq::empty()
                };
                let after = if !generate {
                    Seq::empty()
                } else {
                    seq![
                        step(FsOpView::CreateDirAll(dir), PostErrorKind::BusInstallIOError),
                        step(
                            FsOpView::CreateNewFile {
                                path: spec_push(dir, app_id + ".service"@),
                                mode: None,
                                content: dbus_service_text(app_id),
                            },
                            PostErrorKind::BusInstallIOError,
                        ),
                    ]
                };
                Ok(before + after)
            },
        }
    }

    /// `<pkgdir>/usr/share/gnome-shell`
    pub open spec fn shell_dir_spec(&self) -> Seq<char> {
        spec_push(self.pkgdir@, "usr/share/gnome-shell"@)
    }

    /// The GNOME Shell step: the shell directory is removed where it exists
    /// (`None`: that could not be told).
    pub open spec fn gnome_shell_plan_spec(&self, probe: Option<bool>) -> Result<Seq<PostStepView>, PostErrorKind> {
        match probe {
            None => Err(PostErrorKind::GNOMEShellIOError),
            Some(true) => Ok(
                seq![step(FsOpView::RemoveDirAll(self.shell_dir_spec()), PostErrorKind::GNOMEShellIOError)],
            ),
            Some(false) => Ok(Seq::empty()),
        }
    }

    /// The configuration step: the info directory of `app_id` is created and
    /// gets a copy of the configuration, as `config.toml` (modern format) or
    /// `config` (legacy format).
    pub open spec fn config_plan_spec(&self, config: PortableConfigView, app_id: Seq<char>) -> Seq<PostStepView> {
        let dir = self.info_dir_spec(app_id);
        let (from, name) = match config {
            PortableConfigView::Modern(p) => (p, "config.toml"@),
            PortableConfigView::Legacy(p) => (p, "config"@),
        };
        seq![
            step(FsOpView::CreateDirAll(dir), PostErrorKind::ConfigIOError),
            step(FsOpView::CopyFile { from, to: spec_push(dir, name) }, PostErrorKind::ConfigIOError),
        ]
    }

    /// The binary name that the binaries step reports: the package name.
    pub fn binary_name(&self) -> (res: String)
        ensures
            res@ == self.pkgname@,
    {
        self.pkgname.clone()
    }

    /// `<pkgdir>/usr/bin`, whose existence decides the binaries step.
    pub fn binary_dir(&self) -> (res: String)
        ensures
            res@ == self.binary_dir_spec(),
    {
        let mut p = to_string(self.pkgdir.as_str());
        push_path(&mut p, "usr");
        push_path(&mut p, "bin");
        p
    }

    fn info_dir(&self, app_id: &str) -> (res: String)
        ensures
            res@ == self.info_dir_spec(app_id@),
    {
        let mut p = to_string(self.pkgdir.as_str());
        push_path(&mut p, "usr");
        push_path(&mut p, "lib");
        push_path(&mut p, "portable");
        push_path(&mut p, "info");
        push_path(&mut p, app_id);
        p
    }

    /// The operations of the binaries step (see `binary_plan_spec`), given
    /// whether `binary_dir()` exists.
    pub fn binary_plan(&self, app_id: &str, overlay: bool, bin_exists: bool) -> (res: Vec<PostStep>)
        ensures
            steps_view(res@) == self.binary_plan_spec(app_id@, overlay, bin_exists),
            res.len() >= 2,
            res@[res.len() - 2]@ == step(FsOpView::CreateDirAll(self.binary_dir_spec()), PostErrorKind::BinaryInstallIOError),
            res@[res.len() - 1]@ == step(
                FsOpView::CreateNewFile {
                    path: self.stub_path_spec(),
                    mode: Some(0o755u32),
                    content: stub_script(app_id@),
                },
                PostErrorKind::BinaryInstallIOError,
            ),
    {
        let bin = self.binary_dir();
        let ovl = joined(self.info_dir(app_id).as_str(), "bin");
        let mut steps: Vec<PostStep> = Vec::new();
        let ghost before: Seq<PostStepView>;
        if bin_exists {
            if overlay {
                let ghost parent: Seq<PostStepView>;
                match path_parent(ovl.as_str()) {
                    Some(p) => {
                        steps.push(
                            PostStep { op: FsOp::CreateDirAll(p), on_error: PostErrorKind::OverlayInstallIOError },
                        );
                        proof {
                            parent = seq![
                                step(FsOpView::CreateDirAll(p@), PostErrorKind::OverlayInstallIOError),
                            ];
                        }
                    },
                    None => {
                        proof {
                            parent = Seq::empty();
                        }
                    },
                }
                assert(steps_view(steps@) =~= parent);
                steps.push(
                    PostStep {
                        op: FsOp::Rename { from: to_string(bin.as_str()), to: ovl },
                        on_error: PostErrorKind::OverlayInstallIOError,
                    },
                );
                proof {
                    before = parent + seq![
                        step(
                            FsOpView::Rename { from: bin@, to: self.overlay_dir_spec(app_id@) },
                            PostErrorKind::OverlayInstallIOError,
                        ),
                    ];
                }
            } else {
                steps.push(
                    PostStep {
                        op: FsOp::RemoveDirAll(to_string(bin.as_str())),
                        on_error: PostErrorKind::BinaryRemoveIOError,
                    },
                );
                proof {
                    before = seq![step(FsOpView::RemoveDirAll(bin@), PostErrorKind::BinaryRemoveIOError)];
                }
            }
        } else {
            proof {
                before = Seq::empty();
            }
        }
        assert(steps_view(steps@) =~= before);
        let stub = joined(bin.as_str(), self.pkgname.as_str());
        let mut script = String::new();
        push_str(&mut script, "#!/usr/bin/bash");
        push_str(&mut script, "\n");
        push_str(&mut script, "export PORTABLE_CONF=");
        push_str(&mut script, app_id);
        push_str(&mut script, "\n");
        push_str(&mut script, "exec portable --file-forwarding -- $@");
        steps.push(PostStep { op: FsOp::CreateDirAll(bin), on_error: PostErrorKind::BinaryInstallIOError });
        steps.push(
            PostStep {
                op: FsOp::CreateNewFile { path: stub, mode: Some(0o755u32), content: script },
                on_error: PostErrorKind::BinaryInstallIOError,
            },
        );
        assert(steps_view(steps@) =~= self.binary_plan_spec(app_id@, overlay, bin_exists));
        assert(steps@[steps.len() - 1]@ == steps_view(steps@)[steps.len() - 1]);
        assert(steps@[steps.len() - 2]@ == steps_view(steps@)[steps.len() - 2]);
        steps
    }

    /// `<pkgdir>/usr/share/applications`, whose existence decides the
    /// desktop-file step.
    pub fn applications_dir(&self) -> (res: String)
        ensures
            res@ == self.applications_dir_spec(),
    {
        let mut p = to_string(self.pkgdir.as_str());
        push_path(&mut p, "usr");
        push_path(&mut p, "share");
        push_path(&mut p, "applications");
        p
    }

    /// `<pkgdir>/etc/xdg/autostart`, whose entries the desktop-file step
    /// reads.
    pub fn autostart_dir(&self) -> (res: String)
        ensures
            res@ == self.autostart_dir_spec(),
    {
        let mut p = to_string(self.pkgdir.as_str());
        push_path(&mut p, "etc");
        push_path(&mut p, "xdg");
        push_path(&mut p, "autostart");
        p
    }

    /// The operations of the desktop-file step (see `desktop_plan_spec`),
    /// given whether `applications_dir()` exists and the names of the entries
    /// of `autostart_dir()` (none where it does not exist; `None` where they
    /// could not be read).
    pub fn desktop_plan(
        &self,
        app_id: &str,
        desktop_file: &str,
        apps_exist: bool,
        autostart: &Option<Vec<String>>,
    ) -> (res: Result<Vec<PostStep>, PostErrorKind>)
        ensures
            match (res, self.desktop_plan_spec(app_id@, desktop_file@, apps_exist, names_view(*autostart))) {
                (Ok(steps), Ok(expected)) => steps_view(steps@) == expected,
                (Err(e), Err(expected)) => e == expected,
                _ => false,
            },
    {
        let names = match autostart {
            None => return Err(PostErrorKind::DesktopFileRmIOError),
            Some(names) => names,
        };
        let ghost nv = names@.map_values(|n: String| n@);
        let apps = self.applications_dir();
        let mut steps: Vec<PostStep> = Vec::new();
        if apps_exist {
            steps.push(
                PostStep {
                    op: FsOp::RemoveDirAll(to_string(apps.as_str())),
                    on_error: PostErrorKind::DesktopFileRmIOError,
                },
            );
        }
        let ghost before = steps_view(steps@);
        let autostart_dir = self.autostart_dir();
        let mut i: usize = 0;
        while i < names.len()
            invariant
                i <= names.len(),
                nv == names@.map_values(|n: String| n@),
                autostart_dir@ == self.autostart_dir_spec(),
                steps_view(steps@) == before + autostart_removals(self.autostart_dir_spec(), nv.take(i as int)),
            decreases names.len() - i,
        {
            proof {
                assert(nv.take(i + 1).drop_last() =~= nv.take(i as int));
                assert(nv.take(i + 1).last() == names@[i as int]@);
            }
            if ends_with(names[i].as_str(), ".desktop") {
                let ghost prev = steps_view(steps@);
                steps.push(
                    PostStep {
                        op: FsOp::RemoveFile(joined(autostart_dir.as_str(), names[i].as_str())),
                        on_error: PostErrorKind::DesktopFileRmIOError,
                    },
                );
                assert(steps_view(steps@) =~= prev.push(steps@.last()@));
            }
            i += 1;
        }
        assert(nv.take(names.len() as int) =~= nv);
        assert(names_view(*autostart) == Some(nv));
        let ghost middle = steps_view(steps@);
        let mut name = to_string(app_id);
        push_str(&mut name, ".desktop");
        let target = joined(apps.as_str(), name.as_str());
        steps.push(
            PostStep { op: FsOp::CreateDirAll(apps), on_error: PostErrorKind::DesktopFileInstallIOError },
        );
        steps.push(
            PostStep {
                op: FsOp::CopyFile { from: to_string(desktop_file), to: target },
                on_error: PostErrorKind::DesktopFileInstallIOError,
            },
        );
        assert(middle == before + autostart_removals(self.autostart_dir_spec(), nv));
        assert(before == (if apps_exist {
            seq![step(FsOpView::RemoveDirAll(self.applications_dir_spec()), PostErrorKind::DesktopFileRmIOError)]
        } else {
            Seq::<PostStepView>::empty()
        }));
        assert(steps_view(steps@) =~= middle + seq![
            step(FsOpView::CreateDirAll(self.applications_dir_spec()), PostErrorKind::DesktopFileInstallIOError),
            step(
                FsOpView::CopyFile {
                    from: desktop_file@,
                    to: spec_push(self.applications_dir_spec(), app_id@ + ".desktop"@),
                },
                PostErrorKind::DesktopFileInstallIOError,
            ),
        ]);
        assert(steps_view(steps@) =~= self.desktop_plan_spec(
            app_id@,
            desktop_file@,
            apps_exist,
            names_view(*autostart),
        )->Ok_0);
        Ok(steps)
    }

    /// `<pkgdir>/usr/share/dbus-1/services`, whose existence decides the D-Bus
    /// step.
    pub fn dbus_dir(&self) -> (res: String)
        ensures
            res@ == self.dbus_dir_spec(),
    {
        joined(self.pkgdir.as_str(), "usr/share/dbus-1/services")
    }

    /// The operations of the D-Bus step (see `dbus_plan_spec`), given whether
    /// `dbus_dir()` exists (`None`: that could not be told).
    pub fn dbus_plan(&self, app_id: &str, generate: bool, probe: Option<bool>) -> (res: Result<
        Vec<PostStep>,
        PostErrorKind,
    >)
        ensures
            match (res, self.dbus_plan_spec(app_id@, generate, probe)) {
                (Ok(steps), Ok(expected)) => steps_view(steps@) == expected,
                (Err(e), Err(expected)) => e == expected,
                _ => false,
            },
    {
        let exists = match probe {
            None => return Err(PostErrorKind::BusRmIOError),
            Some(b) => b,
        };
        let dir = self.dbus_dir();
        let mut steps: Vec<PostStep> = Vec::new();
        if exists {
            steps.push(
                PostStep { op: FsOp::RemoveDirAll(to_string(dir.as_str())), on_error: PostErrorKind::BusRmIOError },
            );
        }
        if generate {
            let mut content = String::new();
            push_str(&mut content, "[D-BUS Service]");
            push_str(&mut content, "\n");
            push_str(&mut content, "Name=");
            push_str(&mut content, app_id);
            push_str(&mut content, "\n");
            push_str(&mut content, "Exec=/usr/bin/env PORTABLE_CONF=");
            push_str(&mut content, app_id);
            push_str(&mut content, " portable --dbus-activation");
            push_str(&mut content, "\n");
            let mut name = to_string(app_id);
            push_str(&mut name, ".service");
            let file = joined(dir.as_str(), name.as_str());
            steps.push(PostStep { op: FsOp::CreateDirAll(dir), on_error: PostErrorKind::BusInstallIOError });
            steps.push(
                PostStep {
                    op: FsOp::CreateNewFile { path: file, mode: None, content },
                    on_error: PostErrorKind::BusInstallIOError,
                },
            );
        }
        assert(steps_view(steps@) =~= self.dbus_plan_spec(app_id@, generate, probe)->Ok_0);
        Ok(steps)
    }

    /// `<pkgdir>/usr/share/gnome-shell`, whose existence decides the GNOME
    /// Shell step.
    pub fn shell_dir(&self) -> (res: String)
        ensures
            res@ == self.shell_dir_spec(),
    {
        joined(self.pkgdir.as_str(), "usr/share/gnome-shell")
    }

    /// The operations of the GNOME Shell step (see `gnome_shell_plan_spec`).
    pub fn gnome_shell_plan(&self, probe: Option<bool>) -> (res: Result<Vec<PostStep>, PostErrorKind>)
        ensures
            match (res, self.gnome_shell_plan_spec(probe)) {
                (Ok(steps), Ok(expected)) => steps_view(steps@) == expected,
                (Err(e), Err(expected)) => e == expected,
                _ => false,
            },
    {
        match probe {
            None => Err(PostErrorKind::GNOMEShellIOError),
            Some(exists) => {
                let mut steps: Vec<PostStep> = Vec::new();
                if exists {
                    steps.push(
                        PostStep {
                            op: FsOp::RemoveDirAll(self.shell_dir()),
                            on_error: PostErrorKind::GNOMEShellIOError,
                        },
                    );
                }
                assert(steps_view(steps@) =~= self.gnome_shell_plan_spec(probe)->Ok_0);
                Ok(steps)
            },
        }
    }

    /// The operations of the configuration step (see `config_plan_spec`).
    pub fn config_plan(&self, config: &PortableConfig, app_id: &str) -> (res: Vec<PostStep>)
        ensures
            steps_view(res@) == self.config_plan_spec(config@, app_id@),
    {
        let dir = self.info_dir(app_id);
        let (from, target) = match config {
            PortableConfig::Modern(p) => (to_string(p.as_str()), joined(dir.as_str(), "config.toml")),
            PortableConfig::Legacy(p) => (to_string(p.as_str()), joined(dir.as_str(), "config")),
        };
        let mut steps: Vec<PostStep> = Vec::new();
        steps.push(PostStep { op: FsOp::CreateDirAll(dir), on_error: PostErrorKind::ConfigIOError });
        steps.push(
            PostStep { op: FsOp::CopyFile { from, to: target }, on_error: PostErrorKind::ConfigIOError },
        );
        assert(steps_view(steps@) =~= self.config_plan_spec(config@, app_id@));
        steps
    }
}

/// Every step that removes, moves or writes something (every step but the
/// creation of a directory) does so at a path whose text starts with `root`.
/// This is a property of the text: a `..` piece can still lead outside `root`
/// on disk.
pub open spec fn changes_stay_under(steps: Seq<PostStepView>, root: Seq<char>) -> bool {
    forall|i: int, k: int|
        0 <= i < steps.len() && !(steps[i].op is CreateDirAll) && 0 <= k < steps[i].op.targets().len()
            ==> root.is_prefix_of(#[trigger] steps[i].op.targets()[k])
}

proof fn lemma_literals_relative()
    ensures
        is_relative("usr"@),
        is_relative("bin"@),
        is_relative("lib"@),
        is_relative("portable"@),
        is_relative("info"@),
        is_relative("share"@),
        is_relative("applications"@),
        is_relative("usr/share/dbus-1/services"@),
        is_relative("usr/share/gnome-shell"@),
        is_relative(".desktop"@),
        is_relative(".service"@),
{
    reveal_strlit("usr");
    reveal_strlit("bin");
    reveal_strlit("lib");
    reveal_strlit("portable");
    reveal_strlit("info");
    reveal_strlit("share");
    reveal_strlit("applications");
    reveal_strlit("usr/share/dbus-1/services");
    reveal_strlit("usr/share/gnome-shell");
    reveal_strlit(".desktop");
    reveal_strlit(".service");
}

proof fn lemma_suffixed_relative(app_id: Seq<char>, suffix: Seq<char>)
    requires
        is_relative(app_id),
        is_relative(suffix),
    ensures
        is_relative(app_id + suffix),
{
    if app_id.len() > 0 {
        assert((app_id + suffix)[0] == app_id[0]);
    } else {
        assert(app_id + suffix =~= suffix);
    }
}

/// The texts of the paths that the post-install work builds start with
/// `pkgdir`.
proof fn lemma_paths_under_pkgdir(post: ArchPost, app_id: Seq<char>)
    requires
        is_relative(app_id),
        is_relative(post.pkgname@),
    ensures
        post.pkgdir@.is_prefix_of(post.binary_dir_spec()),
        post.pkgdir@.is_prefix_of(post.stub_path_spec()),
        post.pkgdir@.is_prefix_of(post.info_dir_spec(app_id)),
        post.pkgdir@.is_prefix_of(post.overlay_dir_spec(app_id)),
        post.pkgdir@.is_prefix_of(spec_push(post.info_dir_spec(app_id), "config.toml"@)),
        post.pkgdir@.is_prefix_of(spec_push(post.info_dir_spec(app_id), "config"@)),
        post.pkgdir@.is_prefix_of(post.applications_dir_spec()),
        post.pkgdir@.is_prefix_of(spec_push(post.applications_dir_spec(), app_id + ".desktop"@)),
        post.pkgdir@.is_prefix_of(post.dbus_dir_spec()),
        post.pkgdir@.is_prefix_of(spec_push(post.dbus_dir_spec(), app_id + ".service"@)),
        post.pkgdir@.is_prefix_of(post.shell_dir_spec()),
        post.pkgdir@.is_prefix_of(post.autostart_dir_spec()),
{
    let root = post.pkgdir@;
    lemma_literals_relative();
    assert(root.is_prefix_of(root)) by {
        assert(root.subrange(0, root.len() as int) =~= root);
    }
    let usr = spec_push(root, "usr"@);
    lemma_push_stays_under(root, root, "usr"@);
    lemma_push_stays_under(root, usr, "bin"@);
    lemma_push_stays_under(root, post.binary_dir_spec(), post.pkgname@);
    let lib = spec_push(usr, "lib"@);
    lemma_push_stays_under(root, usr, "lib"@);
    let portable = spec_push(lib, "portable"@);
    lemma_push_stays_under(root, lib, "portable"@);
    let info = spec_push(portable, "info"@);
    lemma_push_stays_under(root, portable, "info"@);
    lemma_push_stays_under(root, info, app_id);
    lemma_push_stays_under(root, post.info_dir_spec(app_id), "bin"@);
    reveal_strlit("config.toml");
    reveal_strlit("config");
    lemma_push_stays_under(root, post.info_dir_spec(app_id), "config.toml"@);
    lemma_push_stays_under(root, post.info_dir_spec(app_id), "config"@);
    let share = spec_push(usr, "share"@);
    lemma_push_stays_under(root, usr, "share"@);
    lemma_push_stays_under(root, share, "applications"@);
    lemma_suffixed_relative(app_id, ".desktop"@);
    lemma_push_stays_under(root, post.applications_dir_spec(), app_id + ".desktop"@);
    lemma_push_stays_under(root, root, "usr/share/dbus-1/services"@);
    lemma_suffixed_relative(app_id, ".service"@);
    lemma_push_stays_under(root, post.dbus_dir_spec(), app_id + ".service"@);
    lemma_push_stays_under(root, root, "usr/share/gnome-shell"@);
    reveal_strlit("etc");
    reveal_strlit("xdg");
    reveal_strlit("autostart");
    let etc = spec_push(root, "etc"@);
    lemma_push_stays_under(root, root, "etc"@);
    lemma_push_stays_under(root, etc, "xdg"@);
    lemma_push_stays_under(root, spec_push(etc, "xdg"@), "autostart"@);
}

/// The post-install work names only paths inside the package directory: for
/// a sandbox name and a package name that do not start at the root, every step
/// of the binaries, desktop-file, D-Bus, GNOME Shell or configuration work
/// that removes, moves or writes does so at a path whose text starts with
/// `pkgdir` (see `changes_stay_under` on `..`).
pub proof fn law_post_install_stays_under_pkgdir(
    post: ArchPost,
    app_id: Seq<char>,
    overlay: bool,
    bin_exists: bool,
    desktop_file: Seq<char>,
    apps_exist: bool,
    autostart: Option<Seq<Seq<char>>>,
    generate: bool,
    bus_probe: Option<bool>,
    shell_probe: Option<bool>,
    config: PortableConfigView,
)
    requires
        is_relative(app_id),
        is_relative(post.pkgname@),
        autostart matches Some(names) ==> forall|i: int|
            0 <= i < names.len() ==> is_relative(#[trigger] names[i]),
    ensures
        changes_stay_under(post.binary_plan_spec(app_id, overlay, bin_exists), post.pkgdir@),
        post.desktop_plan_spec(app_id, desktop_file, apps_exist, autostart) is Ok ==> changes_stay_under(
            post.desktop_plan_spec(app_id, desktop_file, apps_exist, autostart)->Ok_0,
            post.pkgdir@,
        ),
        post.dbus_plan_spec(app_id, generate, bus_probe) is Ok ==> changes_stay_under(
            post.dbus_plan_spec(app_id, generate, bus_probe)->Ok_0,
            post.pkgdir@,
        ),
        post.gnome_shell_plan_spec(shell_probe) is Ok ==> changes_stay_under(
            post.gnome_shell_plan_spec(shell_probe)->Ok_0,
            post.pkgdir@,
        ),
        changes_stay_under(post.config_plan_spec(config, app_id), post.pkgdir@),
{
    lemma_paths_under_pkgdir(post, app_id);
    lemma_binary_plan_under(post, app_id, overlay, bin_exists);
    lemma_desktop_plan_under(post, app_id, desktop_file, apps_exist, autostart);
    lemma_cleanup_plans_under(post, app_id, generate, bus_probe, shell_probe);
    lemma_config_plan_under(post, app_id, config);
}

proof fn lemma_binary_plan_under(post: ArchPost, app_id: Seq<char>, overlay: bool, bin_exists: bool)
    requires
        post.pkgdir@.is_prefix_of(post.binary_dir_spec()),
        post.pkgdir@.is_prefix_of(post.stub_path_spec()),
        post.pkgdir@.is_prefix_of(post.overlay_dir_spec(app_id)),
    ensures
        changes_stay_under(post.binary_plan_spec(app_id, overlay, bin_exists), post.pkgdir@),
{
    let bp = post.binary_plan_spec(app_id, overlay, bin_exists);
    assert forall|i: int, k: int|
        0 <= i < bp.len() && !(bp[i].op is CreateDirAll) && 0 <= k < bp[i].op.targets().len()
            implies post.pkgdir@.is_prefix_of(#[trigger] bp[i].op.targets()[k]) by {}
}

proof fn lemma_removals_under(root: Seq<char>, dir: Seq<char>, names: Seq<Seq<char>>)
    requires
        root.is_prefix_of(dir),
        forall|i: int| 0 <= i < names.len() ==> is_relative(#[trigger] names[i]),
    ensures
        changes_stay_under(autostart_removals(dir, names), root),
    decreases names.len(),
{
    if names.len() > 0 {
        let front = names.drop_last();
        assert forall|i: int| 0 <= i < front.len() implies is_relative(#[trigger] front[i]) by {
            assert(front[i] == names[i]);
        }
        lemma_removals_under(root, dir, front);
        assert(is_relative(names[names.len() - 1]));
        lemma_push_stays_under(root, dir, names.last());
        let r = autostart_removals(dir, names);
        let rf = autostart_removals(dir, front);
        assert forall|i: int, k: int|
            0 <= i < r.len() && !(r[i].op is CreateDirAll) && 0 <= k < r[i].op.targets().len()
                implies root.is_prefix_of(#[trigger] r[i].op.targets()[k]) by {
            if i < rf.len() {
                assert(r[i] == rf[i]);
            }
        }
    }
}

proof fn lemma_stay_under_concat(a: Seq<PostStepView>, b: Seq<PostStepView>, root: Seq<char>)
    requires
        changes_stay_under(a, root),
        changes_stay_under(b, root),
    ensures
        changes_stay_under(a + b, root),
{
    let ab = a + b;
    assert forall|i: int, k: int|
        0 <= i < ab.len() && !(ab[i].op is CreateDirAll) && 0 <= k < ab[i].op.targets().len()
            implies root.is_prefix_of(#[trigger] ab[i].op.targets()[k]) by {
        if i < a.len() {
            assert(ab[i] == a[i]);
        } else {
            assert(ab[i] == b[i - a.len()]);
        }
    }
}

proof fn lemma_desktop_plan_under(
    post: ArchPost,
    app_id: Seq<char>,
    desktop_file: Seq<char>,
    apps_exist: bool,
    autostart: Option<Seq<Seq<char>>>,
)
    requires
        post.pkgdir@.is_prefix_of(post.applications_dir_spec()),
        post.pkgdir@.is_prefix_of(post.autostart_dir_spec()),
        post.pkgdir@.is_prefix_of(spec_push(post.applications_dir_spec(), app_id + ".desktop"@)),
        autostart matches Some(names) ==> forall|i: int|
            0 <= i < names.len() ==> is_relative(#[trigger] names[i]),
    ensures
        post.desktop_plan_spec(app_id, desktop_file, apps_exist, autostart) is Ok ==> changes_stay_under(
            post.desktop_plan_spec(app_id, desktop_file, apps_exist, autostart)->Ok_0,
            post.pkgdir@,
        ),
{
    if let Some(names) = autostart {
        let root = post.pkgdir@;
        let apps = post.applications_dir_spec();
        let before: Seq<PostStepView> = if apps_exist {
            seq![step(FsOpView::RemoveDirAll(apps), PostErrorKind::DesktopFileRmIOError)]
        } else {
            Seq::empty()
        };
        let after = seq![
            step(FsOpView::CreateDirAll(apps), PostErrorKind::DesktopFileInstallIOError),
            step(
                FsOpView::CopyFile { from: desktop_file, to: spec_push(apps, app_id + ".desktop"@) },
                PostErrorKind::DesktopFileInstallIOError,
            ),
        ];
        assert(changes_stay_under(before, root));
        assert(changes_stay_under(after, root));
        lemma_removals_under(root, post.autostart_dir_spec(), names);
        lemma_stay_under_concat(before, autostart_removals(post.autostart_dir_spec(), names), root);
        lemma_stay_under_concat(before + autostart_removals(post.autostart_dir_spec(), names), after, root);
    }
}

proof fn lemma_cleanup_plans_under(
    post: ArchPost,
    app_id: Seq<char>,
    generate: bool,
    probe: Option<bool>,
    shell_probe: Option<bool>,
)
    requires
        post.pkgdir@.is_prefix_of(post.dbus_dir_spec()),
        post.pkgdir@.is_prefix_of(spec_push(post.dbus_dir_spec(), app_id + ".service"@)),
        post.pkgdir@.is_prefix_of(post.shell_dir_spec()),
    ensures
        post.dbus_plan_spec(app_id, generate, probe) is Ok ==> changes_stay_under(
            post.dbus_plan_spec(app_id, generate, probe)->Ok_0,
            post.pkgdir@,
        ),
        post.gnome_shell_plan_spec(shell_probe) is Ok ==> changes_stay_under(
            post.gnome_shell_plan_spec(shell_probe)->Ok_0,
            post.pkgdir@,
        ),
{
    if let Ok(bp) = post.dbus_plan_spec(app_id, generate, probe) {
        assert forall|i: int, k: int|
            0 <= i < bp.len() && !(bp[i].op is CreateDirAll) && 0 <= k < bp[i].op.targets().len()
                implies post.pkgdir@.is_prefix_of(#[trigger] bp[i].op.targets()[k]) by {}
    }
    if let Ok(gp) = post.gnome_shell_plan_spec(shell_probe) {
        assert forall|i: int, k: int|
            0 <= i < gp.len() && !(gp[i].op is CreateDirAll) && 0 <= k < gp[i].op.targets().len()
                implies post.pkgdir@.is_prefix_of(#[trigger] gp[i].op.targets()[k]) by {}
    }
}

proof fn lemma_config_plan_under(post: ArchPost, app_id: Seq<char>, config: PortableConfigView)
    requires
        post.pkgdir@.is_prefix_of(spec_push(post.info_dir_spec(app_id), "config.toml"@)),
        post.pkgdir@.is_prefix_of(spec_push(post.info_dir_spec(app_id), "config"@)),
    ensures
        changes_stay_under(post.config_plan_spec(config, app_id), post.pkgdir@),
{
    let cp = post.config_plan_spec(config, app_id);
    assert forall|i: int, k: int|
        0 <= i < cp.len() && !(cp[i].op is CreateDirAll) && 0 <= k < cp[i].op.targets().len()
            implies post.pkgdir@.is_prefix_of(#[trigger] cp[i].op.targets()[k]) by {}
}

/// The operations of a list of steps, and the stage each is reported as, in
/// the same order.
pub fn split_steps(steps: Vec<PostStep>) -> (res: (Vec<FsOp>, Vec<PostErrorKind>))
    ensures
        res.0.len() == steps.len(),
        res.1.len() == steps.len(),
        forall|i: int| 0 <= i < steps.len() ==> #[trigger] res.0@[i] == steps@[i].op && res.1@[i] == steps@[i].on_error,
{
    let mut ops: Vec<FsOp> = Vec::new();
    let mut kinds: Vec<PostErrorKind> = Vec::new();
    let ghost all = steps@;
    let mut rest = steps;
    while rest.len() > 0
        invariant
            ops.len() == kinds.len(),
            ops.len() + rest.len() == all.len(),
            rest@ == all.skip(ops.len() as int),
            forall|i: int| 0 <= i < ops.len() ==> #[trigger] ops@[i] == all[i].op && kinds@[i] == all[i].on_error,
        decreases rest.len(),
    {
        let ghost before = rest@;
        let s = rest.remove(0);
        proof {
            assert(s == all[ops.len() as int]);
            assert(rest@ =~= all.skip(ops.len() + 1));
        }
        ops.push(s.op);
        kinds.push(s.on_error);
    }
    (ops, kinds)
}

/// No step removes anything from a directory without desktop entries.
proof fn lemma_no_desktop_entries(dir: Seq<char>, names: Seq<Seq<char>>)
    requires
        forall|i: int| 0 <= i < names.len() ==> !is_desktop_entry(#[trigger] names[i]),
    ensures
        autostart_removals(dir, names) == Seq::<PostStepView>::empty(),
    decreases names.len(),
{
    if names.len() > 0 {
        let front = names.drop_last();
        assert forall|i: int| 0 <= i < front.len() implies !is_desktop_entry(#[trigger] front[i]) by {
            assert(front[i] == names[i]);
        }
        assert(!is_desktop_entry(names[names.len() - 1]));
        lemma_no_desktop_entries(dir, front);
    }
}

/// Running the desktop-file step again, on a tree where the first run left
/// the applications directory and no desktop entry in autostart, removes the
/// applications directory, then does exactly what a run on a tree without it
/// does.
pub proof fn law_desktop_file_repeat(
    post: ArchPost,
    app_id: Seq<char>,
    desktop_file: Seq<char>,
    names: Seq<Seq<char>>,
)
    requires
        forall|i: int| 0 <= i < names.len() ==> !is_desktop_entry(#[trigger] names[i]),
    ensures
        post.desktop_plan_spec(app_id, desktop_file, true, Some(names)) == Ok::<Seq<PostStepView>, PostErrorKind>(
            seq![step(FsOpView::RemoveDirAll(post.applications_dir_spec()), PostErrorKind::DesktopFileRmIOError)]
                + post.desktop_plan_spec(app_id, desktop_file, false, Some(Seq::empty()))->Ok_0,
        ),
{
    lemma_no_desktop_entries(post.autostart_dir_spec(), names);
    assert(autostart_removals(post.autostart_dir_spec(), Seq::empty()) == Seq::<PostStepView>::empty());
    let before = seq![
        step(FsOpView::RemoveDirAll(post.applications_dir_spec()), PostErrorKind::DesktopFileRmIOError),
    ];
    let after = post.desktop_plan_spec(app_id, desktop_file, false, Some(Seq::empty()))->Ok_0;
    assert(post.desktop_plan_spec(app_id, desktop_file, true, Some(names))->Ok_0 =~= before + after);
}

/// Running the D-Bus step again, on a tree where the services directory
/// exists, removes that directory, then does exactly what a run on a tree
/// without it does.
pub proof fn law_dbus_service_repeat(post: ArchPost, app_id: Seq<char>, generate: bool)
    ensures
        post.dbus_plan_spec(app_id, generate, Some(true)) == Ok::<Seq<PostStepView>, PostErrorKind>(
            seq![step(FsOpView::RemoveDirAll(post.dbus_dir_spec()), PostErrorKind::BusRmIOError)]
                + post.dbus_plan_spec(app_id, generate, Some(false))->Ok_0,
        ),
{
    let e = post.dbus_plan_spec(app_id, generate, Some(false))->Ok_0;
    assert(Seq::<PostStepView>::empty() + e =~= e);
}

/// The GNOME Shell step removes the shell directory where it exists, and on
/// a tree without it (such as the one it leaves) does nothing.
pub proof fn law_gnome_shell_repeat(post: ArchPost)
    ensures
        post.gnome_shell_plan_spec(Some(true)) == Ok::<Seq<PostStepView>, PostErrorKind>(
            seq![step(FsOpView::RemoveDirAll(post.shell_dir_spec()), PostErrorKind::GNOMEShellIOError)],
        ),
        post.gnome_shell_plan_spec(Some(false)) == Ok::<Seq<PostStepView>, PostErrorKind>(Seq::empty()),
{
}

/// The binaries step, whatever it finds and however the configuration asks
/// for the old binaries to be kept, ends the same way: it creates
/// `<pkgdir>/usr/bin`, then the stub `<pkgdir>/usr/bin/<pkgname>`, executable,
/// holding the script that starts the sandbox `app_id`.
pub proof fn law_binary_plan_ends_with_stub(post: ArchPost, app_id: Seq<char>, overlay: bool, bin_exists: bool)
    ensures
        ({
            let plan = post.binary_plan_spec(app_id, overlay, bin_exists);
            &&& plan.len() >= 2
            &&& plan[plan.len() - 2] == step(
                FsOpView::CreateDirAll(spec_push(spec_push(post.pkgdir@, "usr"@), "bin"@)),
                PostErrorKind::BinaryInstallIOError,
            )
            &&& plan[plan.len() - 1] == step(
                FsOpView::CreateNewFile {
                    path: spec_push(spec_push(spec_push(post.pkgdir@, "usr"@), "bin"@), post.pkgname@),
                    mode: Some(0o755u32),
                    content: stub_script(app_id),
                },
                PostErrorKind::BinaryInstallIOError,
            )
        }),
{
}

/// The stub does not depend on what the binaries step found or on the
/// overlay setting: two runs for the same sandbox write the same stub.
pub proof fn law_stub_independent_of_state(
    post: ArchPost,
    app_id: Seq<char>,
    overlay1: bool,
    exists1: bool,
    overlay2: bool,
    exists2: bool,
)
    ensures
        post.binary_plan_spec(app_id, overlay1, exists1).last() == post.binary_plan_spec(
            app_id,
            overlay2,
            exists2,
        ).last(),
{
}

/// The stub script names its sandbox: it starts with the shell line and the
/// export of `PORTABLE_CONF`, which is followed by `app_id` itself, so stubs
/// for different sandboxes differ.
pub proof fn law_stub_script_names_sandbox(a: Seq<char>, b: Seq<char>)
    ensures
        ("#!/usr/bin/bash"@ + "\n"@ + "export PORTABLE_CONF="@).is_prefix_of(stub_script(a)),
        stub_script(a).subrange(
            ("#!/usr/bin/bash"@ + "\n"@ + "export PORTABLE_CONF="@).len() as int,
            (("#!/usr/bin/bash"@ + "\n"@ + "export PORTABLE_CONF="@).len() + a.len()) as int,
        ) == a,
        a != b ==> stub_script(a) != stub_script(b),
{
    let head = "#!/usr/bin/bash"@ + "\n"@ + "export PORTABLE_CONF="@;
    let tail = "\n"@ + "exec portable --file-forwarding -- $@"@;
    assert(stub_script(a) =~= head + a + tail);
    assert(stub_script(b) =~= head + b + tail);
    assert(stub_script(a).subrange(0, head.len() as int) =~= head);
    assert(stub_script(a).subrange(head.len() as int, (head.len() + a.len()) as int) =~= a);
    if a != b && stub_script(a) == stub_script(b) {
        if a.len() == b.len() {
            assert(stub_script(b).subrange(head.len() as int, (head.len() + b.len()) as int) =~= b);
            assert(a =~= b);
        } else {
            assert((head + a + tail).len() != (head + b + tail).len());
        }
    }
}

/// The D-Bus step with a service to generate ends by creating
/// `<pkgdir>/usr/share/dbus-1/services` and, in it, the new file
/// `<app_id>.service`, which names the sandbox `app_id` as the bus name and
/// starts it for D-Bus activation; before that it only removes the old
/// services directory, where there was one.
pub proof fn law_dbus_service_generated(post: ArchPost, app_id: Seq<char>, exists: bool)
    ensures
        ({
            let dir = spec_push(post.pkgdir@, "usr/share/dbus-1/services"@);
            let plan = post.dbus_plan_spec(app_id, true, Some(exists));
            &&& plan is Ok
            &&& plan->Ok_0.len() == if exists { 3int } else { 2int }
            &&& exists ==> plan->Ok_0[0] == step(FsOpView::RemoveDirAll(dir), PostErrorKind::BusRmIOError)
            &&& plan->Ok_0[plan->Ok_0.len() - 2] == step(
                FsOpView::CreateDirAll(dir),
                PostErrorKind::BusInstallIOError,
            )
            &&& plan->Ok_0[plan->Ok_0.len() - 1] == step(
                FsOpView::CreateNewFile {
                    path: spec_push(dir, app_id + ".service"@),
                    mode: None,
                    content: "[D-BUS Service]"@ + "\n"@ + "Name="@ + app_id + "\n"@
                        + "Exec=/usr/bin/env PORTABLE_CONF="@ + app_id + " portable --dbus-activation"@
                        + "\n"@,
                },
                PostErrorKind::BusInstallIOError,
            )
        }),
{
}

/// Without a service to generate, the D-Bus step creates nothing: it only
/// removes the services directory, where there is one; where it cannot be
/// told whether there is one, the step fails as a removal failure.
pub proof fn law_dbus_without_generation(post: ArchPost, app_id: Seq<char>, exists: bool, generate: bool)
    ensures
        post.dbus_plan_spec(app_id, false, Some(exists)) == Ok::<Seq<PostStepView>, PostErrorKind>(
            if exists {
                seq![
                    step(
                        FsOpView::RemoveDirAll(spec_push(post.pkgdir@, "usr/share/dbus-1/services"@)),
                        PostErrorKind::BusRmIOError,
                    ),
                ]
            } else {
                Seq::empty()
            },
        ),
        post.dbus_plan_spec(app_id, generate, None) == Err::<Seq<PostStepView>, PostErrorKind>(
            PostErrorKind::BusRmIOError,
        ),
{
}

/// The configuration step creates `<pkgdir>/usr/lib/portable/info/<app_id>`
/// and copies the configuration file into it, as `config.toml` where it is in
/// the modern format and as `config` where it is in the legacy one.
pub proof fn law_config_installed(post: ArchPost, config: PortableConfigView, app_id: Seq<char>)
    ensures
        ({
            let dir = spec_push(
                spec_push(spec_push(spec_push(spec_push(post.pkgdir@, "usr"@), "lib"@), "portable"@), "info"@),
                app_id,
            );
            post.config_plan_spec(config, app_id) == seq![
                step(FsOpView::CreateDirAll(dir), PostErrorKind::ConfigIOError),
                step(
                    FsOpView::CopyFile {
                        from: match config {
                            PortableConfigView::Modern(p) => p,
                            PortableConfigView::Legacy(p) => p,
                        },
                        to: spec_push(
                            dir,
                            match config {
                                PortableConfigView::Modern(_) => "config.toml"@,
                                PortableConfigView::Legacy(_) => "config"@,
                            },
                        ),
                    },
                    PostErrorKind::ConfigIOError,
                ),
            ]
        }),
{
}

/// The removal of the desktop entries among `names` in `dir`.
proof fn lemma_removals_of_desktop_entries(dir: Seq<char>, names: Seq<Seq<char>>)
    ensures
        autostart_removals(dir, names) == names.filter(|n: Seq<char>| is_desktop_entry(n)).map_values(
            |n: Seq<char>| step(FsOpView::RemoveFile(spec_push(dir, n)), PostErrorKind::DesktopFileRmIOError),
        ),
    decreases names.len(),
{
    reveal_with_fuel(Seq::filter, 1);
    if names.len() > 0 {
        lemma_removals_of_desktop_entries(dir, names.drop_last());
        let f = |n: Seq<char>| step(FsOpView::RemoveFile(spec_push(dir, n)), PostErrorKind::DesktopFileRmIOError);
        let front = names.drop_last().filter(|n: Seq<char>| is_desktop_entry(n));
        if is_desktop_entry(names.last()) {
            assert(front.push(names.last()).map_values(f) =~= front.map_values(f).push(f(names.last())));
        }
    }
}

/// The desktop-file step removes `<pkgdir>/usr/share/applications` where it
/// exists, then every entry of `<pkgdir>/etc/xdg/autostart` whose name ends in
/// `.desktop`, in the order of the names, and no other; then it creates the
/// applications directory again and copies `desktop_file` into it as
/// `<app_id>.desktop`.  Where the autostart entries cannot be read, it fails as
/// a removal failure.
pub proof fn law_desktop_file_installed(
    post: ArchPost,
    app_id: Seq<char>,
    desktop_file: Seq<char>,
    apps_exist: bool,
    names: Seq<Seq<char>>,
)
    ensures
        ({
            let apps = spec_push(spec_push(spec_push(post.pkgdir@, "usr"@), "share"@), "applications"@);
            let autostart = spec_push(spec_push(spec_push(post.pkgdir@, "etc"@), "xdg"@), "autostart"@);
            post.desktop_plan_spec(app_id, desktop_file, apps_exist, Some(names)) == Ok::<
                Seq<PostStepView>,
                PostErrorKind,
            >(
                (if apps_exist {
                    seq![step(FsOpView::RemoveDirAll(apps), PostErrorKind::DesktopFileRmIOError)]
                } else {
                    Seq::empty()
                }) + names.filter(
                    |n: Seq<char>|
                        ".desktop"@.len() <= n.len() && n.skip(n.len() - ".desktop"@.len()) == ".desktop"@,
                ).map_values(
                    |n: Seq<char>|
                        step(FsOpView::RemoveFile(spec_push(autostart, n)), PostErrorKind::DesktopFileRmIOError),
                ) + seq![
                    step(FsOpView::CreateDirAll(apps), PostErrorKind::DesktopFileInstallIOError),
                    step(
                        FsOpView::CopyFile { from: desktop_file, to: spec_push(apps, app_id + ".desktop"@) },
                        PostErrorKind::DesktopFileInstallIOError,
                    ),
                ],
            )
        }),
        post.desktop_plan_spec(app_id, desktop_file, apps_exist, None) == Err::<Seq<PostStepView>, PostErrorKind>(
            PostErrorKind::DesktopFileRmIOError,
        ),
{
    lemma_removals_of_desktop_entries(post.autostart_dir_spec(), names);
    assert((|n: Seq<char>| is_desktop_entry(n)) =~= (|n: Seq<char>|
        ".desktop"@.len() <= n.len() && n.skip(n.len() - ".desktop"@.len()) == ".desktop"@));
}

/// What the binaries step does with the old binaries: where
/// `<pkgdir>/usr/bin` does not exist, nothing comes before the stub; where it
/// exists, it is moved to `<pkgdir>/usr/lib/portable/info/<app_id>/bin` when
/// the configuration asks for an overlay (at most a directory creation comes
/// first), and removed otherwise.
pub proof fn law_binary_plan_old_binaries(post: ArchPost, app_id: Seq<char>, overlay: bool, bin_exists: bool)
    ensures
        ({
            let bin = spec_push(spec_push(post.pkgdir@, "usr"@), "bin"@);
            let ovl = spec_push(
                spec_push(
                    spec_push(spec_push(spec_push(spec_push(post.pkgdir@, "usr"@), "lib"@), "portable"@), "info"@),
                    app_id,
                ),
                "bin"@,
            );
            let plan = post.binary_plan_spec(app_id, overlay, bin_exists);
            &&& !bin_exists ==> plan.len() == 2
            &&& bin_exists && !overlay ==> plan.len() == 3 && plan[0] == step(
                FsOpView::RemoveDirAll(bin),
                PostErrorKind::BinaryRemoveIOError,
            )
            &&& bin_exists && overlay ==> 3 <= plan.len() <= 4 && plan[plan.len() - 3] == step(
                FsOpView::Rename { from: bin, to: ovl },
                PostErrorKind::OverlayInstallIOError,
            ) && (plan.len() == 4 ==> plan[0].op is CreateDirAll && plan[0].on_error
                == PostErrorKind::OverlayInstallIOError)
        }),
{
}

} // verus!
