# portable_packer

Verified core of Portable packer, a tool that turns an installed package into a
sandboxed one.

- `src/` is the library, checked by Verus: the command-line scan and the
  resolution of the operation mode (`pref`), the listing of a package's files
  and where each is installed (`distro::file_list`), the file-system operations
  of each post-install stage (`distro::post_install`), path joining and
  splitting with the Unix semantics of `PathBuf::push` and `Path::iter` (`path`), and the help text.
- `app/` carries the library's decisions out: it reads the command line and the
  environment, probes and changes the file system with tokio, and prints.
  The readers of configuration files and of the pacman database are supplied
  by its caller through `sources::PackageSources`.
- `tests/` runs the library on concrete inputs.
