use vstd::prelude::*;

pub mod cmdline;
pub mod config;
pub mod execute;

use crate::pref::config::Config;

verus! {

/// What the packer was asked to do.
#[derive(Debug)]
pub enum OperationMode {
    Help,
    Copy { source: CopySource, dest: InstallDestination, options: RuntimeOptions },
    PostOnly { dest: InstallDestination, options: RuntimeOptions },
}

/// Source of which to copy from.
#[derive(Debug)]
pub enum CopySource {
    /// A local pacman package installed on the system
    PacmanLocal { pkgname: String },
}

/// Destination distro to install, should default to Arch when unspecified
#[derive(Debug)]
pub enum InstallDestination {
    ArchLinux { pkgdir: String, pkgname: String },
}

/// Decoded configuration together with the options parsed from the command line.
#[derive(Debug)]
pub struct RuntimeOptions {
    /// The decoded configuration of the sandbox.
    pub config: Config,
    /// Where the configuration was read from, and in which format.
    pub config_path: PortableConfig,
    /// The path for supplied .desktop file (currently single)
    pub desktop_file: String,
}

/// A configuration file, in the modern (TOML) or the legacy format.
#[derive(Debug)]
pub enum PortableConfig {
    Modern(String),
    Legacy(String),
}

/// The mathematical value of a `PortableConfig`.
pub enum PortableConfigView {
    Modern(Seq<char>),
    Legacy(Seq<char>),
}

impl View for PortableConfig {
    type V = PortableConfigView;

    open spec fn view(&self) -> PortableConfigView {
        match self {
            PortableConfig::Modern(p) => PortableConfigView::Modern(p@),
            PortableConfig::Legacy(p) => PortableConfigView::Legacy(p@),
        }
    }
}

impl PortableConfig {
    /// The path of the configuration file, whatever its format.
    pub open spec fn path(&self) -> String {
        match self {
            PortableConfig::Modern(p) => *p,
            PortableConfig::Legacy(p) => *p,
        }
    }

    /// The path of the configuration file, whatever its format.
    pub fn as_path(&self) -> (res: &String)
        ensures
            *res == self.path(),
    {
        match self {
            PortableConfig::Modern(v) => v,
            PortableConfig::Legacy(v) => v,
        }
    }
}

} // verus!
