pub mod distro;
pub mod help;
pub mod path;
pub mod pref;
mod text;
