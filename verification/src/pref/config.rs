use vstd::prelude::*;

verus! {

/// The parts of a decoded sandbox configuration that the packer reads.
#[derive(Debug)]
pub struct Config {
    pub metadata: Metadata,
    pub exec_section: Exec,
    pub dbus_activation: DbusActivation,
}

/// Identity of the sandbox.
#[derive(Debug)]
pub struct Metadata {
    /// A unique, fixed identity of a sandbox.
    pub sandbox_id: String,
}

/// How the sandboxed program is started.
#[derive(Debug)]
pub struct Exec {
    /// Whether the package's binaries are kept in an app-private overlay.
    pub overlay: bool,
}

/// D-Bus activation of the sandbox.
#[derive(Debug)]
pub struct DbusActivation {
    /// Whether a D-Bus service file is generated.
    pub enable: bool,
}

} // verus!
