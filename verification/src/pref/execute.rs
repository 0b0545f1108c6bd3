use vstd::prelude::*;

use crate::distro::file_list::archlinux::Arch;
use crate::distro::post_install::archlinux::ArchPost;
use crate::pref::{CopySource, InstallDestination, RuntimeOptions};

verus! {

/// One stage of the post-install work, with what it needs from the options.
#[derive(Debug)]
pub enum PostStage {
    /// Overlay or remove the binaries, and install the stub.
    Binary { overlay: bool },
    /// Install the supplied .desktop file.
    DesktopFile { desktop_file: String },
    /// Remove D-Bus services, and generate one if asked to.
    DbusService { generate: bool },
    /// Remove GNOME Shell integration.
    GnomeShell,
}

/// The post-install work: the sandbox it is for, and its stages in order.
#[derive(Debug)]
pub struct PostInstallPlan {
    pub app_id: String,
    pub stages: Vec<PostStage>,
}

/// The stages of the post-install work for `options`, in order: binaries,
/// desktop file, D-Bus service, GNOME Shell.
pub open spec fn post_stages_spec(options: RuntimeOptions) -> Seq<PostStage> {
    seq![
        PostStage::Binary { overlay: options.config.exec_section.overlay },
        PostStage::DesktopFile { desktop_file: options.desktop_file },
        PostStage::DbusService { generate: options.config.dbus_activation.enable },
        PostStage::GnomeShell,
    ]
}

/// The post-install work for `options`: for the sandbox named in the
/// configuration, the binaries (overlaid as the configuration says), then the
/// desktop file, then the D-Bus service (generated as the configuration says),
/// then GNOME Shell.
pub fn post_install_plan(options: RuntimeOptions) -> (res: PostInstallPlan)
    ensures
        res.app_id == options.config.metadata.sandbox_id,
        res.stages@ == post_stages_spec(options),
        res.stages@.len() == 4,
        res.stages@[0] == (PostStage::Binary { overlay: options.config.exec_section.overlay }),
        res.stages@[1] == (PostStage::DesktopFile { desktop_file: options.desktop_file }),
        res.stages@[2] == (PostStage::DbusService { generate: options.config.dbus_activation.enable }),
        res.stages@[3] == PostStage::GnomeShell,
{
    let RuntimeOptions { config, config_path: _, desktop_file } = options;
    let mut stages: Vec<PostStage> = Vec::new();
    stages.push(PostStage::Binary { overlay: config.exec_section.overlay });
    stages.push(PostStage::DesktopFile { desktop_file });
    stages.push(PostStage::DbusService { generate: config.dbus_activation.enable });
    stages.push(PostStage::GnomeShell);
    PostInstallPlan { app_id: config.metadata.sandbox_id, stages }
}

/// Each stage of the post-install work takes its setting from its own place
/// in the options, and from nowhere else: the binaries stage overlays exactly
/// when the configuration's exec section says so, the desktop-file stage
/// installs the supplied desktop file, and the D-Bus stage generates a service
/// exactly when the configuration enables D-Bus activation; the stages come
/// in this order, GNOME Shell last.
pub proof fn law_post_stages_follow_options(options: RuntimeOptions)
    ensures
        post_stages_spec(options).len() == 4,
        post_stages_spec(options)[0] == (PostStage::Binary { overlay: options.config.exec_section.overlay }),
        post_stages_spec(options)[1] == (PostStage::DesktopFile { desktop_file: options.desktop_file }),
        post_stages_spec(options)[2] == (PostStage::DbusService {
            generate: options.config.dbus_activation.enable,
        }),
        post_stages_spec(options)[3] == PostStage::GnomeShell,
{
}

/// Changing one setting of the configuration changes only the stage that
/// reads it: the overlay flag decides the binaries stage alone, and the D-Bus
/// flag the D-Bus stage alone.
pub proof fn law_post_stages_independent(a: RuntimeOptions, b: RuntimeOptions)
    requires
        a.desktop_file == b.desktop_file,
    ensures
        a.config.exec_section.overlay == b.config.exec_section.overlay ==> post_stages_spec(a)[0]
            == post_stages_spec(b)[0],
        a.config.exec_section.overlay != b.config.exec_section.overlay ==> post_stages_spec(a)[0]
            != post_stages_spec(b)[0],
        post_stages_spec(a)[1] == post_stages_spec(b)[1],
        a.config.dbus_activation.enable == b.config.dbus_activation.enable ==> post_stages_spec(a)[2]
            == post_stages_spec(b)[2],
        post_stages_spec(a)[3] == post_stages_spec(b)[3],
{
}

impl CopySource {
    /// The package whose files are copied.
    pub fn package(self) -> (res: Arch)
        ensures
            match self {
                CopySource::PacmanLocal { pkgname } => res == (Arch::LocalPackage { pkgname }),
            },
    {
        match self {
            CopySource::PacmanLocal { pkgname } => Arch::LocalPackage { pkgname },
        }
    }
}

impl InstallDestination {
    /// The post-install stage for this destination.
    pub fn post_target(self) -> (res: ArchPost)
        ensures
            match self {
                InstallDestination::ArchLinux { pkgdir, pkgname } => res == (ArchPost { pkgdir, pkgname }),
            },
    {
        match self {
            InstallDestination::ArchLinux { pkgdir, pkgname } => ArchPost { pkgdir, pkgname },
        }
    }
}

} // verus!
