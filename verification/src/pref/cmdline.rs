use vstd::prelude::*;

use crate::pref::config::Config;
use crate::pref::{CopySource, InstallDestination, OperationMode, PortableConfig, PortableConfigView, RuntimeOptions};
use crate::text::{chars_of, same_text, string_of};

verus! {

/// The mode that `--mode` selects.
#[derive(Debug, Clone, Copy)]
pub enum OpMode {
    Help,
    Copy,
    Post,
}

/// A distribution named on the command line.
#[derive(Debug, Clone, Copy)]
pub enum Distro {
    Arch,
}

/// Why a command line cannot be turned into an operation mode.
#[derive(Debug)]
pub enum CmdlineError {
    /// `--distro` was the last argument.
    MissingDistroNames,
    /// A distribution codename that is not known.
    UnknownDistro(String),
    /// `--mode` was the last argument.
    MissingModeArgument,
    /// `--mode copy` was not followed by a source.
    MissingCopySource,
    /// `--mode` was followed by something other than `copy` or `post`.
    UnexpectedMode(String),
    /// `--config` was the last argument.
    MissingConfigPath,
    /// `--config-ng` was the last argument.
    MissingConfigNgPath,
    /// `--desktop-file` was the last argument.
    MissingDesktopPath,
    /// No configuration was given.
    NoConfiguration,
    /// No desktop file was given.
    NoDesktopFile,
    /// Copy mode without a source to copy from.
    NoCopySourceGiven,
    /// The `pkgdir` variable is not set.
    MissingPkgdir,
    /// The `pkgname` variable is not set.
    MissingPkgname,
}

/// The mathematical value of a `CmdlineError`.
pub enum CmdlineErrorView {
    MissingDistroNames,
    UnknownDistro(Seq<char>),
    MissingModeArgument,
    MissingCopySource,
    UnexpectedMode(Seq<char>),
    MissingConfigPath,
    MissingConfigNgPath,
    MissingDesktopPath,
    NoConfiguration,
    NoDesktopFile,
    NoCopySourceGiven,
    MissingPkgdir,
    MissingPkgname,
}

impl View for CmdlineError {
    type V = CmdlineErrorView;

    open spec fn view(&self) -> CmdlineErrorView {
        match self {
            CmdlineError::MissingDistroNames => CmdlineErrorView::MissingDistroNames,
            CmdlineError::UnknownDistro(s) => CmdlineErrorView::UnknownDistro(s@),
            CmdlineError::MissingModeArgument => CmdlineErrorView::MissingModeArgument,
            CmdlineError::MissingCopySource => CmdlineErrorView::MissingCopySource,
            CmdlineError::UnexpectedMode(s) => CmdlineErrorView::UnexpectedMode(s@),
            CmdlineError::MissingConfigPath => CmdlineErrorView::MissingConfigPath,
            CmdlineError::MissingConfigNgPath => CmdlineErrorView::MissingConfigNgPath,
            CmdlineError::MissingDesktopPath => CmdlineErrorView::MissingDesktopPath,
            CmdlineError::NoConfiguration => CmdlineErrorView::NoConfiguration,
            CmdlineError::NoDesktopFile => CmdlineErrorView::NoDesktopFile,
            CmdlineError::NoCopySourceGiven => CmdlineErrorView::NoCopySourceGiven,
            CmdlineError::MissingPkgdir => CmdlineErrorView::MissingPkgdir,
            CmdlineError::MissingPkgname => CmdlineErrorView::MissingPkgname,
        }
    }
}

/// Something the scan of the command line reports on its way, in order.
#[derive(Debug)]
pub enum ScanEvent {
    /// `--distro` was given a single name; it is used for both source and destination.
    DistroWithoutSeparator,
    /// `--config` (the legacy format) was used.
    LegacyConfig,
    /// The configuration file is to be loaded now.
    LoadConfig(PortableConfig),
    /// An argument that is not understood; it is skipped.
    UnknownArgument(String),
}

/// The mathematical value of a `ScanEvent`.
pub enum ScanEventView {
    DistroWithoutSeparator,
    LegacyConfig,
    LoadConfig(PortableConfigView),
    UnknownArgument(Seq<char>),
}

impl View for ScanEvent {
    type V = ScanEventView;

    open spec fn view(&self) -> ScanEventView {
        match self {
            ScanEvent::DistroWithoutSeparator => ScanEventView::DistroWithoutSeparator,
            ScanEvent::LegacyConfig => ScanEventView::LegacyConfig,
            ScanEvent::LoadConfig(c) => ScanEventView::LoadConfig(c@),
            ScanEvent::UnknownArgument(s) => ScanEventView::UnknownArgument(s@),
        }
    }
}

/// What a scan of the command line found.
#[derive(Debug)]
pub struct CmdlineScan {
    pub mode: Option<OpMode>,
    pub config_fs: Option<PortableConfig>,
    pub distro: Option<(Distro, Distro)>,
    pub desktop_path: Option<String>,
    pub copy_source: Option<String>,
    pub events: Vec<ScanEvent>,
    pub error: Option<CmdlineError>,
}

/// The mathematical value of a `CmdlineScan`.
pub struct ScanView {
    pub mode: Option<OpMode>,
    pub config_fs: Option<PortableConfigView>,
    pub distro: Option<(Distro, Distro)>,
    pub desktop_path: Option<Seq<char>>,
    pub copy_source: Option<Seq<char>>,
    pub events: Seq<ScanEventView>,
    pub error: Option<CmdlineErrorView>,
}

pub open spec fn opt_text(o: Option<String>) -> Option<Seq<char>> {
    match o {
        Some(s) => Some(s@),
        None => None,
    }
}

impl View for CmdlineScan {
    type V = ScanView;

    open spec fn view(&self) -> ScanView {
        ScanView {
            mode: self.mode,
            config_fs: match self.config_fs {
                Some(c) => Some(c@),
                None => None,
            },
            distro: self.distro,
            desktop_path: opt_text(self.desktop_path),
            copy_source: opt_text(self.copy_source),
            events: self.events@.map_values(|e: ScanEvent| e@),
            error: match self.error {
                Some(e) => Some(e@),
                None => None,
            },
        }
    }
}

impl ScanView {
    /// The state before any argument is read.
    pub open spec fn initial() -> ScanView {
        ScanView {
            mode: None,
            config_fs: None,
            distro: None,
            desktop_path: None,
            copy_source: None,
            events: Seq::empty(),
            error: None,
        }
    }

    /// This state, stopped by `e`.
    pub open spec fn fail(self, e: CmdlineErrorView) -> ScanView {
        ScanView { error: Some(e), ..self }
    }

    /// This state, with `ev` reported.
    pub open spec fn note(self, ev: ScanEventView) -> ScanView {
        ScanView { events: self.events.push(ev), ..self }
    }
}

/// The distribution that a codename names, if any.
pub open spec fn distro_named(name: Seq<char>) -> Option<Distro> {
    if name == "arch"@ || name == "archlinux"@ {
        Some(Distro::Arch)
    } else {
        None
    }
}

/// `s` split at its first `:`, if it holds one.
pub open spec fn split_at_colon(s: Seq<char>) -> Option<(Seq<char>, Seq<char>)> {
    match s.index_of_first(':') {
        Some(i) => Some((s.take(i), s.skip(i + 1))),
        None => None,
    }
}

/// The state after the value `v` of `--distro`: `src:dst`, or one name for both.
pub open spec fn scan_distro_value(st: ScanView, v: Seq<char>) -> ScanView {
    match split_at_colon(v) {
        Some((a, b)) => match (distro_named(a), distro_named(b)) {
            (Some(x), Some(y)) => ScanView { distro: Some((x, y)), ..st },
            (None, _) => st.fail(CmdlineErrorView::UnknownDistro(a)),
            (Some(_), None) => st.fail(CmdlineErrorView::UnknownDistro(b)),
        },
        None => {
            let st1 = st.note(ScanEventView::DistroWithoutSeparator);
            match distro_named(v) {
                Some(x) => ScanView { distro: Some((x, x)), ..st1 },
                None => st1.fail(CmdlineErrorView::UnknownDistro(v)),
            }
        },
    }
}

/// The state after a configuration option whose value is `c`.
pub open spec fn scan_config_value(st: ScanView, c: PortableConfigView) -> ScanView {
    ScanView { config_fs: Some(c), ..st.note(ScanEventView::LoadConfig(c)) }
}

/// One step of the scan at `args[i]`: the index of the next argument to read,
/// and the new state.
pub open spec fn scan_step(args: Seq<Seq<char>>, i: int, st: ScanView) -> (int, ScanView) {
    let arg = args[i];
    let n = args.len();
    if arg == "--distro"@ {
        if i + 1 >= n {
            (i + 1, st.fail(CmdlineErrorView::MissingDistroNames))
        } else {
            (i + 2, scan_distro_value(st, args[i + 1]))
        }
    } else if arg == "--mode"@ {
        if i + 1 >= n {
            (i + 1, st.fail(CmdlineErrorView::MissingModeArgument))
        } else if args[i + 1] == "copy"@ {
            if i + 2 >= n {
                (i + 2, st.fail(CmdlineErrorView::MissingCopySource))
            } else {
                (i + 3, ScanView { mode: Some(OpMode::Copy), copy_source: Some(args[i + 2]), ..st })
            }
        } else if args[i + 1] == "post"@ {
            (i + 2, ScanView { mode: Some(OpMode::Post), ..st })
        } else {
            (i + 2, st.fail(CmdlineErrorView::UnexpectedMode(args[i + 1])))
        }
    } else if arg == "--config"@ {
        let st1 = st.note(ScanEventView::LegacyConfig);
        if i + 1 >= n {
            (i + 1, st1.fail(CmdlineErrorView::MissingConfigPath))
        } else {
            (i + 2, scan_config_value(st1, PortableConfigView::Legacy(args[i + 1])))
        }
    } else if arg == "--config-ng"@ {
        if i + 1 >= n {
            (i + 1, st.fail(CmdlineErrorView::MissingConfigNgPath))
        } else {
            (i + 2, scan_config_value(st, PortableConfigView::Modern(args[i + 1])))
        }
    } else if arg == "--desktop-file"@ {
        if i + 1 >= n {
            (i + 1, st.fail(CmdlineErrorView::MissingDesktopPath))
        } else {
            (i + 2, ScanView { desktop_path: Some(args[i + 1]), ..st })
        }
    } else {
        (i + 1, st.note(ScanEventView::UnknownArgument(arg)))
    }
}

/// Every step reads at least one argument.
pub proof fn lemma_step_advances(args: Seq<Seq<char>>, i: int, st: ScanView)
    ensures
        scan_step(args, i, st).0 > i,
{
}

/// The scan from `args[i]` on, from state `st`; it stops at the first error.
pub open spec fn scan_from(args: Seq<Seq<char>>, i: int, st: ScanView) -> ScanView
    decreases args.len() - i,
{
    if i < 0 || i >= args.len() || st.error is Some {
        st
    } else {
        let (j, st2) = scan_step(args, i, st);
        proof {
            lemma_step_advances(args, i, st);
        }
        scan_from(args, j, st2)
    }
}

/// The scan of a whole argument list (program name excluded).
pub open spec fn scan_spec(args: Seq<Seq<char>>) -> ScanView {
    scan_from(args, 0, ScanView::initial())
}

/// The views of a list of strings.
pub open spec fn texts(args: Seq<String>) -> Seq<Seq<char>> {
    args.map_values(|s: String| s@)
}

impl Distro {
    /// The distribution named by a codename (`arch` or `archlinux`); `None` for
    /// an unknown one.
    pub fn from_name(name: &str) -> (res: Option<Distro>)
        ensures
            res == distro_named(name@),
    {
        if same_text(name, "arch") || same_text(name, "archlinux") {
            Some(Distro::Arch)
        } else {
            None
        }
    }

    /// The source to copy from on this distribution.
    pub fn to_copy_source(self, pkgname: String) -> (res: CopySource)
        ensures
            res == (CopySource::PacmanLocal { pkgname }),
    {
        match self {
            Distro::Arch => CopySource::PacmanLocal { pkgname: pkgname },
        }
    }

    /// The destination to install into on this distribution, from the values of
    /// the `pkgdir` and `pkgname` variables.
    pub fn into_destination(self, pkgdir: Option<String>, pkgname: Option<String>) -> (res: Result<
        InstallDestination,
        CmdlineError,
    >)
        ensures
            res == destination_spec(self, pkgdir, pkgname),
    {
        match self {
            Distro::Arch => match pkgdir {
                None => Err(CmdlineError::MissingPkgdir),
                Some(d) => match pkgname {
                    None => Err(CmdlineError::MissingPkgname),
                    Some(n) => Ok(InstallDestination::ArchLinux { pkgdir: d, pkgname: n }),
                },
            },
        }
    }
}

/// The destination on `distro`, from the values of `pkgdir` and `pkgname`.
pub open spec fn destination_spec(distro: Distro, pkgdir: Option<String>, pkgname: Option<String>) -> Result<
    InstallDestination,
    CmdlineError,
> {
    match distro {
        Distro::Arch => match (pkgdir, pkgname) {
            (None, _) => Err(CmdlineError::MissingPkgdir),
            (Some(_), None) => Err(CmdlineError::MissingPkgname),
            (Some(d), Some(n)) => Ok(InstallDestination::ArchLinux { pkgdir: d, pkgname: n }),
        },
    }
}


/// The index of the first `:` in `cs`, if any.
fn first_colon(cs: &Vec<char>) -> (res: Option<usize>)
    ensures
        match res {
            Some(i) => i < cs.len() && cs@.index_of_first(':') == Some(i as int),
            None => cs@.index_of_first(':') is None,
        },
{
    let mut i: usize = 0;
    while i < cs.len()
        invariant
            i <= cs.len(),
            forall|k: int| 0 <= k < i ==> cs@[k] != ':',
        decreases cs.len() - i,
    {
        if cs[i] == ':' {
            proof {
                cs@.index_of_first_ensures(':');
                assert(cs@.contains(':'));
            }
            return Some(i);
        }
        i += 1;
    }
    proof {
        cs@.index_of_first_ensures(':');
    }
    None
}

impl CmdlineScan {
    /// The state before any argument is read.
    pub fn new() -> (res: CmdlineScan)
        ensures
            res@ == ScanView::initial(),
    {
        let res = CmdlineScan {
            mode: None,
            config_fs: None,
            distro: None,
            desktop_path: None,
            copy_source: None,
            events: Vec::new(),
            error: None,
        };
        assert(res@.events =~= Seq::<ScanEventView>::empty());
        res
    }

    fn note(&mut self, ev: ScanEvent)
        ensures
            final(self)@ == old(self)@.note(ev@),
    {
        self.events.push(ev);
        assert(self@.events =~= old(self)@.events.push(ev@));
    }

    fn fail(&mut self, e: CmdlineError)
        ensures
            final(self)@ == old(self)@.fail(e@),
    {
        self.error = Some(e);
    }

    /// Reads the value `v` of `--distro`.
    fn scan_distro(&mut self, v: &String)
        ensures
            final(self)@ == scan_distro_value(old(self)@, v@),
    {
        let cs = chars_of(v.as_str());
        match first_colon(&cs) {
            Some(k) => {
                let a = string_of(&cs, 0, k);
                let b = string_of(&cs, k + 1, cs.len());
                assert(a@ =~= v@.take(k as int));
                assert(b@ =~= v@.skip(k + 1));
                match Distro::from_name(a.as_str()) {
                    None => self.fail(CmdlineError::UnknownDistro(a)),
                    Some(x) => match Distro::from_name(b.as_str()) {
                        None => self.fail(CmdlineError::UnknownDistro(b)),
                        Some(y) => {
                            self.distro = Some((x, y));
                        },
                    },
                }
            },
            None => {
                self.note(ScanEvent::DistroWithoutSeparator);
                match Distro::from_name(v.as_str()) {
                    Some(x) => {
                        self.distro = Some((x, x));
                    },
                    None => self.fail(CmdlineError::UnknownDistro(v.clone())),
                }
            },
        }
    }

    /// Reads the path given to a configuration option, in the legacy or the
    /// modern format.
    fn scan_config(&mut self, legacy: bool, path: &String)
        ensures
            final(self)@ == scan_config_value(
                old(self)@,
                if legacy {
                    PortableConfigView::Legacy(path@)
                } else {
                    PortableConfigView::Modern(path@)
                },
            ),
    {
        let (load, keep) = if legacy {
            (PortableConfig::Legacy(path.clone()), PortableConfig::Legacy(path.clone()))
        } else {
            (PortableConfig::Modern(path.clone()), PortableConfig::Modern(path.clone()))
        };
        self.note(ScanEvent::LoadConfig(load));
        self.config_fs = Some(keep);
    }

    /// Reads the argument `args[i]` (and the values that it takes); returns the
    /// index of the next argument to read.
    fn scan_one(&mut self, args: &Vec<String>, i: usize) -> (j: usize)
        requires
            i < args.len(),
        ensures
            (j as int, final(self)@) == scan_step(texts(args@), i as int, old(self)@),
            j <= args.len(),
    {
        let ghost a = texts(args@);
        assert(a[i as int] == args@[i as int]@);
        let n = args.len();
        let arg = args[i].as_str();
        if same_text(arg, "--distro") {
            if i + 1 >= n {
                self.fail(CmdlineError::MissingDistroNames);
                i + 1
            } else {
                assert(a[i + 1] == args@[i + 1]@);
                self.scan_distro(&args[i + 1]);
                i + 2
            }
        } else if same_text(arg, "--mode") {
            if i + 1 >= n {
                self.fail(CmdlineError::MissingModeArgument);
                i + 1
            } else {
                assert(a[i + 1] == args@[i + 1]@);
                let v = args[i + 1].as_str();
                if same_text(v, "copy") {
                    if i + 2 >= n {
                        self.fail(CmdlineError::MissingCopySource);
                        i + 2
                    } else {
                        assert(a[i + 2] == args@[i + 2]@);
                        self.mode = Some(OpMode::Copy);
                        self.copy_source = Some(args[i + 2].clone());
                        i + 3
                    }
                } else if same_text(v, "post") {
                    self.mode = Some(OpMode::Post);
                    i + 2
                } else {
                    self.fail(CmdlineError::UnexpectedMode(args[i + 1].clone()));
                    i + 2
                }
            }
        } else if same_text(arg, "--config") {
            self.note(ScanEvent::LegacyConfig);
            if i + 1 >= n {
                self.fail(CmdlineError::MissingConfigPath);
                i + 1
            } else {
                assert(a[i + 1] == args@[i + 1]@);
                self.scan_config(true, &args[i + 1]);
                i + 2
            }
        } else if same_text(arg, "--config-ng") {
            if i + 1 >= n {
                self.fail(CmdlineError::MissingConfigNgPath);
                i + 1
            } else {
                assert(a[i + 1] == args@[i + 1]@);
                self.scan_config(false, &args[i + 1]);
                i + 2
            }
        } else if same_text(arg, "--desktop-file") {
            if i + 1 >= n {
                self.fail(CmdlineError::MissingDesktopPath);
                i + 1
            } else {
                assert(a[i + 1] == args@[i + 1]@);
                self.desktop_path = Some(args[i + 1].clone());
                i + 2
            }
        } else {
            self.note(ScanEvent::UnknownArgument(args[i].clone()));
            i + 1
        }
    }
}

/// Scans the command-line arguments (the program name excluded).  With fewer
/// than two arguments there is nothing to scan and the packer shows its help:
/// the result is `None`.  Otherwise the scan reads the arguments from left to
/// right, a later option overriding an earlier one, and stops at the first
/// error.
pub fn scan_args(args: &Vec<String>) -> (res: Option<CmdlineScan>)
    ensures
        match res {
            None => args.len() <= 1,
            Some(s) => args.len() > 1 && s@ == scan_spec(texts(args@)),
        },
{
    if args.len() <= 1 {
        return None;
    }
    let mut st = CmdlineScan::new();
    let mut i: usize = 0;
    while i < args.len() && st.error.is_none()
        invariant
            i <= args.len(),
            scan_from(texts(args@), i as int, st@) == scan_spec(texts(args@)),
        decreases args.len() - i,
    {
        let ghost before = st@;
        let j = st.scan_one(args, i);
        proof {
            lemma_step_advances(texts(args@), i as int, before);
        }
        i = j;
    }
    Some(st)
}

/// The source and destination distributions: those `--distro` named; where
/// none was named the destination defaults to Arch, and the source is taken to
/// be the destination (as for a single name).
pub open spec fn distros_or_default(distro: Option<(Distro, Distro)>) -> (Distro, Distro) {
    match distro {
        Some(pair) => pair,
        None => (Distro::Arch, Distro::Arch),
    }
}

/// What the packer is asked to do, from the scan of its arguments (`None`
/// when there were fewer than two), the configuration that was loaded (the one
/// loaded last), and the values of the `pkgdir` and `pkgname` variables.
/// Errors come in this order: the scan's own error; a missing configuration; a
/// missing desktop file; then, for the copy mode, a missing copy source; then
/// missing variables.  Without `--distro` the distributions default to Arch.
pub open spec fn pref_outcome(
    scan: Option<CmdlineScan>,
    config: Option<Config>,
    pkgdir: Option<String>,
    pkgname: Option<String>,
) -> Result<OperationMode, CmdlineError> {
    match scan {
        None => Ok(OperationMode::Help),
        Some(s) => match s.error {
            Some(e) => Err(e),
            None => match (config, s.config_fs, s.desktop_path) {
                (None, _, _) => Err(CmdlineError::NoConfiguration),
                (Some(_), None, _) => Err(CmdlineError::NoConfiguration),
                (Some(_), Some(_), None) => Err(CmdlineError::NoDesktopFile),
                (Some(c), Some(f), Some(d)) => {
                    let options = RuntimeOptions { config: c, config_path: f, desktop_file: d };
                    match s.mode {
                        Some(OpMode::Copy) => match s.copy_source {
                            None => Err(CmdlineError::NoCopySourceGiven),
                            Some(p) => match destination_spec(distros_or_default(s.distro).1, pkgdir, pkgname) {
                                Ok(dest) => Ok(
                                    OperationMode::Copy {
                                        source: CopySource::PacmanLocal { pkgname: p },
                                        dest,
                                        options,
                                    },
                                ),
                                Err(e) => Err(e),
                            },
                        },
                        Some(OpMode::Post) => match destination_spec(
                            distros_or_default(s.distro).1,
                            pkgdir,
                            pkgname,
                        ) {
                            Ok(dest) => Ok(OperationMode::PostOnly { dest, options }),
                            Err(e) => Err(e),
                        },
                        _ => Ok(OperationMode::Help),
                    }
                },
            },
        },
    }
}

/// Turns the scan of the arguments, the configuration loaded for it and the
/// values of the `pkgdir` and `pkgname` variables into the operation mode
/// (see `pref_outcome`).
pub fn resolve_pref(
    scan: Option<CmdlineScan>,
    config: Option<Config>,
    pkgdir: Option<String>,
    pkgname: Option<String>,
) -> (res: Result<OperationMode, CmdlineError>)
    ensures
        res == pref_outcome(scan, config, pkgdir, pkgname),
        scan is None ==> res == Ok::<OperationMode, CmdlineError>(OperationMode::Help),
        scan is Some && scan->0.error is None && scan->0.mode == Some(OpMode::Post) && config is Some
            && scan->0.config_fs is Some && scan->0.desktop_path is Some && pkgdir is Some && pkgname is Some ==> res
            == Ok::<OperationMode, CmdlineError>(
            OperationMode::PostOnly {
                dest: InstallDestination::ArchLinux { pkgdir: pkgdir->0, pkgname: pkgname->0 },
                options: RuntimeOptions {
                    config: config->0,
                    config_path: scan->0.config_fs->0,
                    desktop_file: scan->0.desktop_path->0,
                },
            },
        ),
        scan is Some && scan->0.error is None && scan->0.mode == Some(OpMode::Copy) && scan->0.copy_source is Some
            && config is Some && scan->0.config_fs is Some && scan->0.desktop_path is Some && pkgdir is Some
            && pkgname is Some ==> res == Ok::<OperationMode, CmdlineError>(
            OperationMode::Copy {
                source: CopySource::PacmanLocal { pkgname: scan->0.copy_source->0 },
                dest: InstallDestination::ArchLinux { pkgdir: pkgdir->0, pkgname: pkgname->0 },
                options: RuntimeOptions {
                    config: config->0,
                    config_path: scan->0.config_fs->0,
                    desktop_file: scan->0.desktop_path->0,
                },
            },
        ),
{
    let s = match scan {
        None => return Ok(OperationMode::Help),
        Some(s) => s,
    };
    let CmdlineScan { mode, config_fs, distro, desktop_path, copy_source, events: _, error } = s;
    if let Some(e) = error {
        return Err(e);
    }
    let c = match config {
        None => return Err(CmdlineError::NoConfiguration),
        Some(c) => c,
    };
    let f = match config_fs {
        None => return Err(CmdlineError::NoConfiguration),
        Some(f) => f,
    };
    let d = match desktop_path {
        None => return Err(CmdlineError::NoDesktopFile),
        Some(d) => d,
    };
    let options = RuntimeOptions { config: c, config_path: f, desktop_file: d };
    match mode {
        Some(OpMode::Copy) => {
            let (src, dst) = match distro {
                None => (Distro::Arch, Distro::Arch),
                Some(pair) => pair,
            };
            let p = match copy_source {
                None => return Err(CmdlineError::NoCopySourceGiven),
                Some(p) => p,
            };
            let source = src.to_copy_source(p);
            match dst.into_destination(pkgdir, pkgname) {
                Ok(dest) => Ok(OperationMode::Copy { source, dest, options }),
                Err(e) => Err(e),
            }
        },
        Some(OpMode::Post) => {
            let dst = match distro {
                None => Distro::Arch,
                Some((_, dst)) => dst,
            };
            match dst.into_destination(pkgdir, pkgname) {
                Ok(dest) => Ok(OperationMode::PostOnly { dest, options }),
                Err(e) => Err(e),
            }
        },
        _ => Ok(OperationMode::Help),
    }
}

/// A step that does not fail reads only arguments of `a`, and reads them the
/// same way when more arguments follow.
proof fn lemma_step_within(a: Seq<Seq<char>>, b: Seq<Seq<char>>, i: int, st: ScanView)
    requires
        0 <= i < a.len(),
        scan_step(a, i, st).1.error is None,
    ensures
        scan_step(a + b, i, st) == scan_step(a, i, st),
        scan_step(a, i, st).0 <= a.len(),
{
    let ab = a + b;
    assert(ab[i] == a[i]);
    if i + 1 < a.len() {
        assert(ab[i + 1] == a[i + 1]);
    }
    if i + 2 < a.len() {
        assert(ab[i + 2] == a[i + 2]);
    }
}

/// Scanning `a + b` is scanning `a`, then going on with `b`, when the scan of
/// `a` finds no error.
pub proof fn lemma_scan_concat(a: Seq<Seq<char>>, b: Seq<Seq<char>>, i: int, st: ScanView)
    requires
        0 <= i <= a.len(),
        scan_from(a, i, st).error is None,
    ensures
        scan_from(a + b, i, st) == scan_from(a + b, a.len() as int, scan_from(a, i, st)),
    decreases a.len() - i,
{
    if i < a.len() {
        let (j, st2) = scan_step(a, i, st);
        lemma_step_advances(a, i, st);
        if st2.error is Some {
            assert(scan_from(a, j, st2) == st2);
        }
        lemma_step_within(a, b, i, st);
        lemma_step_advances(a + b, i, st);
        lemma_scan_concat(a, b, j, st2);
    }
}

/// The option names that the scan understands.
pub open spec fn is_option_name(x: Seq<char>) -> bool {
    x == "--distro"@ || x == "--mode"@ || x == "--config"@ || x == "--config-ng"@
        || x == "--desktop-file"@
}

proof fn lemma_option_names_differ()
    ensures
        "--desktop-file"@ != "--distro"@,
        "--desktop-file"@ != "--mode"@,
        "--desktop-file"@ != "--config"@,
        "--desktop-file"@ != "--config-ng"@,
        "--mode"@ != "--distro"@,
        "--config"@ != "--distro"@,
        "--config"@ != "--mode"@,
        "--config-ng"@ != "--distro"@,
        "--config-ng"@ != "--mode"@,
        "--config-ng"@ != "--config"@,
        "post"@ != "copy"@,
{
    reveal_strlit("--desktop-file");
    reveal_strlit("--distro");
    reveal_strlit("--mode");
    reveal_strlit("--config");
    reveal_strlit("--config-ng");
    reveal_strlit("post");
    reveal_strlit("copy");
    assert("--desktop-file"@.len() != "--distro"@.len());
    assert("--desktop-file"@.len() != "--mode"@.len());
    assert("--desktop-file"@.len() != "--config"@.len());
    assert("--desktop-file"@.len() != "--config-ng"@.len());
    assert("--mode"@.len() != "--distro"@.len());
    assert("--config"@[2] != "--distro"@[2]);
    assert("--config"@.len() != "--mode"@.len());
    assert("--config-ng"@.len() != "--distro"@.len());
    assert("--config-ng"@.len() != "--mode"@.len());
    assert("--config-ng"@.len() != "--config"@.len());
    assert("post"@[0] != "copy"@[0]);
}

/// The last `--desktop-file` wins: appending `--desktop-file p` to arguments
/// whose scan finds no error sets the desktop file to `p` and changes nothing
/// else.
pub proof fn law_last_desktop_file_wins(a: Seq<Seq<char>>, p: Seq<char>)
    requires
        scan_spec(a).error is None,
    ensures
        scan_spec(a + seq!["--desktop-file"@, p]) == (ScanView {
            desktop_path: Some(p),
            ..scan_spec(a)
        }),
{
    let b = seq!["--desktop-file"@, p];
    let ab = a + b;
    lemma_scan_concat(a, b, 0, ScanView::initial());
    lemma_option_names_differ();
    let n = a.len() as int;
    assert(ab[n] == "--desktop-file"@);
    assert(ab[n + 1] == p);
    let st = scan_spec(a);
    let st2 = ScanView { desktop_path: Some(p), ..st };
    assert(scan_step(ab, n, st) == (n + 2, st2));
    assert(scan_from(ab, n + 2, st2) == st2);
}

/// The last `--mode post` wins: appending it to arguments whose scan finds no
/// error selects the post mode and changes nothing else.
pub proof fn law_last_mode_post_wins(a: Seq<Seq<char>>)
    requires
        scan_spec(a).error is None,
    ensures
        scan_spec(a + seq!["--mode"@, "post"@]) == (ScanView {
            mode: Some(OpMode::Post),
            ..scan_spec(a)
        }),
{
    let b = seq!["--mode"@, "post"@];
    let ab = a + b;
    lemma_scan_concat(a, b, 0, ScanView::initial());
    lemma_option_names_differ();
    let n = a.len() as int;
    assert(ab[n] == "--mode"@);
    assert(ab[n + 1] == "post"@);
    let st = scan_spec(a);
    let st2 = ScanView { mode: Some(OpMode::Post), ..st };
    assert(scan_step(ab, n, st) == (n + 2, st2));
    assert(scan_from(ab, n + 2, st2) == st2);
}

/// The last `--config-ng` wins: appending `--config-ng p` to arguments whose
/// scan finds no error makes `p` the configuration, asks for it to be loaded,
/// and changes nothing else.
pub proof fn law_last_config_wins(a: Seq<Seq<char>>, p: Seq<char>)
    requires
        scan_spec(a).error is None,
    ensures
        scan_spec(a + seq!["--config-ng"@, p]) == (ScanView {
            config_fs: Some(PortableConfigView::Modern(p)),
            events: scan_spec(a).events.push(ScanEventView::LoadConfig(PortableConfigView::Modern(p))),
            ..scan_spec(a)
        }),
{
    let b = seq!["--config-ng"@, p];
    let ab = a + b;
    lemma_scan_concat(a, b, 0, ScanView::initial());
    lemma_option_names_differ();
    let n = a.len() as int;
    assert(ab[n] == "--config-ng"@);
    assert(ab[n + 1] == p);
    let st = scan_spec(a);
    let st2 = scan_config_value(st, PortableConfigView::Modern(p));
    assert(scan_step(ab, n, st) == (n + 2, st2));
    assert(scan_from(ab, n + 2, st2) == st2);
}

/// An argument that names no option is reported and otherwise skipped.
pub proof fn law_unknown_argument_is_skipped(a: Seq<Seq<char>>, x: Seq<char>)
    requires
        scan_spec(a).error is None,
        !is_option_name(x),
    ensures
        scan_spec(a + seq![x]) == scan_spec(a).note(ScanEventView::UnknownArgument(x)),
{
    let b = seq![x];
    let ab = a + b;
    lemma_scan_concat(a, b, 0, ScanView::initial());
    let n = a.len() as int;
    assert(ab[n] == x);
    let st = scan_spec(a);
    let st2 = st.note(ScanEventView::UnknownArgument(x));
    assert(scan_step(ab, n, st) == (n + 1, st2));
    assert(scan_from(ab, n + 1, st2) == st2);
}

/// Fewer than two arguments mean help, whatever else is (or is not) given.
pub proof fn law_no_scan_means_help(config: Option<Config>, pkgdir: Option<String>, pkgname: Option<String>)
    ensures
        pref_outcome(None, config, pkgdir, pkgname) == Ok::<OperationMode, CmdlineError>(OperationMode::Help),
{
}

/// Without `--mode`, a command line that names a configuration and a desktop
/// file means help; no distribution or variable is needed.
pub proof fn law_no_mode_means_help(
    s: CmdlineScan,
    config: Option<Config>,
    pkgdir: Option<String>,
    pkgname: Option<String>,
)
    requires
        s.error is None,
        s.mode is None,
        config is Some,
        s.config_fs is Some,
        s.desktop_path is Some,
    ensures
        pref_outcome(Some(s), config, pkgdir, pkgname) == Ok::<OperationMode, CmdlineError>(OperationMode::Help),
{
}

/// The scan keeps this invariant: whenever the copy mode is selected, a source
/// to copy from was given with it.
pub open spec fn copy_mode_has_source(st: ScanView) -> bool {
    st.mode == Some(OpMode::Copy) ==> st.copy_source is Some
}

proof fn lemma_scan_keeps_copy_source(args: Seq<Seq<char>>, i: int, st: ScanView)
    requires
        copy_mode_has_source(st),
    ensures
        copy_mode_has_source(scan_from(args, i, st)),
    decreases args.len() - i,
{
    if !(i < 0 || i >= args.len() || st.error is Some) {
        let (j, st2) = scan_step(args, i, st);
        lemma_step_advances(args, i, st);
        lemma_scan_keeps_copy_source(args, j, st2);
    }
}

/// A scan that selects the copy mode always has a source to copy from.
pub proof fn law_copy_mode_has_source(args: Seq<Seq<char>>)
    ensures
        copy_mode_has_source(scan_spec(args)),
{
    lemma_scan_keeps_copy_source(args, 0, ScanView::initial());
}

/// The destination defaults to Arch: a post-only command line that names no
/// distribution installs into the Arch Linux package directory.
pub proof fn law_destination_defaults_to_arch(
    s: CmdlineScan,
    config: Config,
    pkgdir: String,
    pkgname: String,
)
    requires
        s.error is None,
        s.mode == Some(OpMode::Post),
        s.distro is None,
        s.config_fs is Some,
        s.desktop_path is Some,
    ensures
        pref_outcome(Some(s), Some(config), Some(pkgdir), Some(pkgname)) == Ok::<
            OperationMode,
            CmdlineError,
        >(
            OperationMode::PostOnly {
                dest: InstallDestination::ArchLinux { pkgdir, pkgname },
                options: RuntimeOptions {
                    config,
                    config_path: s.config_fs->0,
                    desktop_file: s.desktop_path->0,
                },
            },
        ),
{
}

/// The state `st` with the events `pre` reported before its own.
pub open spec fn with_earlier_events(st: ScanView, pre: Seq<ScanEventView>) -> ScanView {
    ScanView { events: pre + st.events, ..st }
}

/// A step does not look at the events reported so far.
proof fn lemma_step_events(args: Seq<Seq<char>>, i: int, st: ScanView, pre: Seq<ScanEventView>)
    requires
        0 <= i < args.len(),
    ensures
        scan_step(args, i, with_earlier_events(st, pre)) == (
            scan_step(args, i, st).0,
            with_earlier_events(scan_step(args, i, st).1, pre),
        ),
{
    assert forall|e: Seq<ScanEventView>, x: ScanEventView| #[trigger] (pre + e).push(x) == pre + e.push(x) by {
        assert((pre + e).push(x) =~= pre + e.push(x));
    }
}

/// The scan does not look at the events reported so far: reporting `pre`
/// first only puts `pre` in front of the events of the result.
pub proof fn lemma_scan_events(args: Seq<Seq<char>>, i: int, st: ScanView, pre: Seq<ScanEventView>)
    ensures
        scan_from(args, i, with_earlier_events(st, pre)) == with_earlier_events(scan_from(args, i, st), pre),
    decreases args.len() - i,
{
    if !(i < 0 || i >= args.len() || st.error is Some) {
        let (j, st2) = scan_step(args, i, st);
        lemma_step_advances(args, i, st);
        lemma_step_events(args, i, st, pre);
        lemma_scan_events(args, j, st2, pre);
    }
}

/// A step reads only the arguments from `args[i]` on.
proof fn lemma_step_shift(args: Seq<Seq<char>>, k: int, i: int, st: ScanView)
    requires
        0 <= k <= i < args.len(),
    ensures
        scan_step(args.skip(k), i - k, st) == (scan_step(args, i, st).0 - k, scan_step(args, i, st).1),
{
    let t = args.skip(k);
    assert(t[i - k] == args[i]);
    if i + 1 < args.len() {
        assert(t[i + 1 - k] == args[i + 1]);
    }
    if i + 2 < args.len() {
        assert(t[i + 2 - k] == args[i + 2]);
    }
}

/// The scan from `args[i]` on reads only the arguments from there on.
pub proof fn lemma_scan_shift(args: Seq<Seq<char>>, k: int, i: int, st: ScanView)
    requires
        0 <= k <= i,
        k <= args.len(),
    ensures
        scan_from(args, i, st) == scan_from(args.skip(k), i - k, st),
    decreases args.len() - i,
{
    if !(i >= args.len() || st.error is Some) {
        let (j, st2) = scan_step(args, i, st);
        lemma_step_advances(args, i, st);
        lemma_step_shift(args, k, i, st);
        lemma_scan_shift(args, k, j, st2);
    }
}

/// After the arguments `a` (whose scan finds no error), the rest `b` is read
/// from the state that `a` leaves, as if it were the whole command line.
proof fn lemma_scan_rest(a: Seq<Seq<char>>, b: Seq<Seq<char>>)
    requires
        scan_spec(a).error is None,
    ensures
        scan_spec(a + b) == scan_from(b, 0, scan_spec(a)),
{
    lemma_scan_concat(a, b, 0, ScanView::initial());
    lemma_scan_shift(a + b, a.len() as int, a.len() as int, scan_spec(a));
    assert((a + b).skip(a.len() as int) =~= b);
}

/// The scan of `b` from a state `st`, with its events split off: the events
/// of `st` come first.
proof fn lemma_split_events(b: Seq<Seq<char>>, st: ScanView)
    ensures
        scan_from(b, 0, st) == with_earlier_events(
            scan_from(b, 0, ScanView { events: Seq::empty(), ..st }),
            st.events,
        ),
{
    let st0 = ScanView { events: Seq::empty(), ..st };
    assert(with_earlier_events(st0, st.events) == st) by {
        assert(st.events + Seq::<ScanEventView>::empty() =~= st.events);
    }
    lemma_scan_events(b, 0, st0, st.events);
}

/// An argument that names no option, wherever an option may stand, is
/// reported and otherwise skipped: the scan of `a + [t] + b` is the scan of
/// `a + b` with the report of `t` among its events, after those of `a`.
pub proof fn law_unknown_argument_anywhere(a: Seq<Seq<char>>, t: Seq<char>, b: Seq<Seq<char>>)
    requires
        scan_spec(a).error is None,
        !is_option_name(t),
    ensures
        ({
            let e = scan_spec(a).events;
            let r = scan_spec(a + b);
            &&& e.is_prefix_of(r.events)
            &&& scan_spec(a + seq![t] + b) == (ScanView {
                events: e.push(ScanEventView::UnknownArgument(t)) + r.events.skip(e.len() as int),
                ..r
            })
        }),
{
    let sa = scan_spec(a);
    let a2 = a + seq![t];
    law_unknown_argument_is_skipped(a, t);
    let sa2 = scan_spec(a2);
    lemma_scan_rest(a, b);
    lemma_scan_rest(a2, b);
    lemma_split_events(b, sa);
    lemma_split_events(b, sa2);
    let st0 = ScanView { events: Seq::empty(), ..sa };
    assert(ScanView { events: Seq::empty(), ..sa2 } == st0);
    let r0 = scan_from(b, 0, st0);
    let e = sa.events;
    assert((e + r0.events).skip(e.len() as int) =~= r0.events);
    assert((e + r0.events).subrange(0, e.len() as int) =~= e);
}

/// The name `x` given for both sides: `x:x`.
pub open spec fn doubled(x: Seq<char>) -> Seq<char> {
    x + seq![':'] + x
}

proof fn lemma_split_doubled(x: Seq<char>)
    requires
        !x.contains(':'),
    ensures
        split_at_colon(doubled(x)) == Some((x, x)),
{
    let d = doubled(x);
    d.index_of_first_ensures(':');
    assert(d[x.len() as int] == ':');
    assert(d.contains(':'));
    let idx = d.index_of_first(':')->0;
    if idx < x.len() {
        assert(d[idx] == x[idx]);
        assert(x.contains(':'));
    }
    assert(d.take(x.len() as int) =~= x);
    assert(d.skip(x.len() as int + 1) =~= x);
}

/// One distribution name is the same as that name for both sides:
/// `--distro x` is `--distro x:x`, reported as such.
pub proof fn law_single_distro_name(a: Seq<Seq<char>>, x: Seq<char>, b: Seq<Seq<char>>)
    requires
        scan_spec(a).error is None,
        !x.contains(':'),
    ensures
        ({
            let e = scan_spec(a).events;
            let r = scan_spec(a + seq!["--distro"@, doubled(x)] + b);
            &&& e.is_prefix_of(r.events)
            &&& scan_spec(a + seq!["--distro"@, x] + b) == (ScanView {
                events: e.push(ScanEventView::DistroWithoutSeparator) + r.events.skip(e.len() as int),
                ..r
            })
        }),
{
    let sa = scan_spec(a);
    let e = sa.events;
    let st0 = ScanView { events: Seq::empty(), ..sa };
    lemma_split_doubled(x);
    x.index_of_first_ensures(':');
    assert(split_at_colon(x) is None);
    // the scan of each command line, from the option on
    let c1 = seq!["--distro"@, x] + b;
    let c2 = seq!["--distro"@, doubled(x)] + b;
    assert(a + seq!["--distro"@, x] + b =~= a + c1);
    assert(a + seq!["--distro"@, doubled(x)] + b =~= a + c2);
    lemma_scan_rest(a, c1);
    lemma_scan_rest(a, c2);
    lemma_step_advances(c1, 0, sa);
    lemma_step_advances(c2, 0, sa);
    assert(c1[0] == "--distro"@ && c1[1] == x);
    assert(c2[0] == "--distro"@ && c2[1] == doubled(x));
    let d1 = scan_distro_value(sa, x);
    let d2 = scan_distro_value(sa, doubled(x));
    assert(scan_step(c1, 0, sa) == (2int, d1));
    assert(scan_step(c2, 0, sa) == (2int, d2));
    lemma_scan_shift(c1, 2, 2, d1);
    lemma_scan_shift(c2, 2, 2, d2);
    assert(c1.skip(2) =~= b);
    assert(c2.skip(2) =~= b);
    // the two values differ only in the report
    let t0 = scan_distro_value(st0, doubled(x));
    assert(d2 == with_earlier_events(t0, e)) by {
        assert(e + Seq::<ScanEventView>::empty() =~= e);
    }
    assert(d1 == with_earlier_events(t0, e.push(ScanEventView::DistroWithoutSeparator))) by {
        assert(e.push(ScanEventView::DistroWithoutSeparator) + Seq::<ScanEventView>::empty()
            =~= e.push(ScanEventView::DistroWithoutSeparator));
    }
    lemma_scan_events(b, 0, t0, e);
    lemma_scan_events(b, 0, t0, e.push(ScanEventView::DistroWithoutSeparator));
    let r0 = scan_from(b, 0, t0);
    assert((e + r0.events).skip(e.len() as int) =~= r0.events);
    assert((e + r0.events).subrange(0, e.len() as int) =~= e);
}

/// The destination defaults to Arch in copy mode too: a copy command line that
/// names no distribution copies the local pacman package into the Arch Linux
/// package directory.
pub proof fn law_copy_destination_defaults_to_arch(
    s: CmdlineScan,
    config: Config,
    pkgdir: String,
    pkgname: String,
)
    requires
        s.error is None,
        s.mode == Some(OpMode::Copy),
        s.distro is None,
        s.copy_source is Some,
        s.config_fs is Some,
        s.desktop_path is Some,
    ensures
        pref_outcome(Some(s), Some(config), Some(pkgdir), Some(pkgname)) == Ok::<
            OperationMode,
            CmdlineError,
        >(
            OperationMode::Copy {
                source: CopySource::PacmanLocal { pkgname: s.copy_source->0 },
                dest: InstallDestination::ArchLinux { pkgdir, pkgname },
                options: RuntimeOptions {
                    config,
                    config_path: s.config_fs->0,
                    desktop_file: s.desktop_path->0,
                },
            },
        ),
{
}

/// In post mode the destination is the Arch Linux package directory named by
/// the `pkgdir` variable, for the package named by the `pkgname` variable,
/// exactly as given, whether or not `--distro` was given; the options are the
/// loaded configuration, its path and the desktop file.
pub proof fn law_post_destination_from_variables(
    s: CmdlineScan,
    config: Config,
    pkgdir: String,
    pkgname: String,
)
    requires
        s.error is None,
        s.mode == Some(OpMode::Post),
        s.config_fs is Some,
        s.desktop_path is Some,
    ensures
        pref_outcome(Some(s), Some(config), Some(pkgdir), Some(pkgname)) == Ok::<
            OperationMode,
            CmdlineError,
        >(
            OperationMode::PostOnly {
                dest: InstallDestination::ArchLinux { pkgdir, pkgname },
                options: RuntimeOptions {
                    config,
                    config_path: s.config_fs->0,
                    desktop_file: s.desktop_path->0,
                },
            },
        ),
{
}

/// In copy mode the source is the local pacman package named after
/// `--mode copy`, and the destination is the Arch Linux package directory
/// named by the `pkgdir` and `pkgname` variables, exactly as given, whether or
/// not `--distro` was given.
pub proof fn law_copy_from_source_to_variables(
    s: CmdlineScan,
    config: Config,
    pkgdir: String,
    pkgname: String,
)
    requires
        s.error is None,
        s.mode == Some(OpMode::Copy),
        s.copy_source is Some,
        s.config_fs is Some,
        s.desktop_path is Some,
    ensures
        pref_outcome(Some(s), Some(config), Some(pkgdir), Some(pkgname)) == Ok::<
            OperationMode,
            CmdlineError,
        >(
            OperationMode::Copy {
                source: CopySource::PacmanLocal { pkgname: s.copy_source->0 },
                dest: InstallDestination::ArchLinux { pkgdir, pkgname },
                options: RuntimeOptions {
                    config,
                    config_path: s.config_fs->0,
                    desktop_file: s.desktop_path->0,
                },
            },
        ),
{
}

/// The destination does not depend on the configuration: two loaded
/// configurations give the same destination for the same command line and
/// variables.
pub proof fn law_destination_ignores_configuration(
    s1: CmdlineScan,
    s2: CmdlineScan,
    c1: Config,
    c2: Config,
    pkgdir: String,
    pkgname: String,
)
    requires
        s1.error is None,
        s1.mode == Some(OpMode::Post),
        s1.config_fs is Some,
        s1.desktop_path is Some,
        s2.error is None,
        s2.mode == Some(OpMode::Post),
        s2.config_fs is Some,
        s2.desktop_path is Some,
    ensures
        pref_outcome(Some(s1), Some(c1), Some(pkgdir), Some(pkgname)) matches Ok(
            OperationMode::PostOnly { dest: d1, .. },
        ) && pref_outcome(Some(s2), Some(c2), Some(pkgdir), Some(pkgname)) matches Ok(
            OperationMode::PostOnly { dest: d2, .. },
        ) && d1 == d2,
{
}

/// When the step at the end of `a` reads to the end of `a + b`, the scan of
/// `a + b` is the scan of `a` followed by that one step.
proof fn lemma_scan_last_step(a: Seq<Seq<char>>, b: Seq<Seq<char>>)
    requires
        scan_spec(a).error is None,
        a.len() < (a + b).len(),
        scan_step(a + b, a.len() as int, scan_spec(a)).0 >= (a + b).len(),
    ensures
        scan_spec(a + b) == scan_step(a + b, a.len() as int, scan_spec(a)).1,
{
    lemma_scan_concat(a, b, 0, ScanView::initial());
    let (j, st2) = scan_step(a + b, a.len() as int, scan_spec(a));
    assert(scan_from(a + b, j, st2) == st2);
}

/// The last `--mode copy p` wins: appending it to arguments whose scan finds
/// no error selects the copy mode with `p` as the source, and changes nothing
/// else.
pub proof fn law_last_copy_source_wins(a: Seq<Seq<char>>, p: Seq<char>)
    requires
        scan_spec(a).error is None,
    ensures
        scan_spec(a + seq!["--mode"@, "copy"@, p]) == (ScanView {
            mode: Some(OpMode::Copy),
            copy_source: Some(p),
            ..scan_spec(a)
        }),
{
    let b = seq!["--mode"@, "copy"@, p];
    let ab = a + b;
    lemma_option_names_differ();
    let n = a.len() as int;
    assert(ab[n] == "--mode"@);
    assert(ab[n + 1] == "copy"@);
    assert(ab[n + 2] == p);
    lemma_scan_last_step(a, b);
}

/// The last `--config p` wins: appending it to arguments whose scan finds no
/// error reports the legacy format, makes `p` the configuration in the legacy
/// format, asks for it to be loaded, and changes nothing else.
pub proof fn law_last_legacy_config_wins(a: Seq<Seq<char>>, p: Seq<char>)
    requires
        scan_spec(a).error is None,
    ensures
        scan_spec(a + seq!["--config"@, p]) == (ScanView {
            config_fs: Some(PortableConfigView::Legacy(p)),
            events: scan_spec(a).events.push(ScanEventView::LegacyConfig).push(
                ScanEventView::LoadConfig(PortableConfigView::Legacy(p)),
            ),
            ..scan_spec(a)
        }),
{
    let b = seq!["--config"@, p];
    let ab = a + b;
    lemma_option_names_differ();
    let n = a.len() as int;
    assert(ab[n] == "--config"@);
    assert(ab[n + 1] == p);
    lemma_scan_last_step(a, b);
}

/// `--distro x:y` names the source `x` and the destination `y`: where both are
/// `arch` or `archlinux`, both sides are Arch and nothing else changes;
/// otherwise the scan stops at the first unknown name.
pub proof fn law_distro_pair(a: Seq<Seq<char>>, x: Seq<char>, y: Seq<char>)
    requires
        scan_spec(a).error is None,
        !x.contains(':'),
    ensures
        ({
            let known_x = x == "arch"@ || x == "archlinux"@;
            let known_y = y == "arch"@ || y == "archlinux"@;
            scan_spec(a + seq!["--distro"@, x + seq![':'] + y]) == if known_x && known_y {
                ScanView { distro: Some((Distro::Arch, Distro::Arch)), ..scan_spec(a) }
            } else if !known_x {
                scan_spec(a).fail(CmdlineErrorView::UnknownDistro(x))
            } else {
                scan_spec(a).fail(CmdlineErrorView::UnknownDistro(y))
            }
        }),
{
    let v = x + seq![':'] + y;
    v.index_of_first_ensures(':');
    assert(v[x.len() as int] == ':');
    assert(v.contains(':'));
    let idx = v.index_of_first(':')->0;
    if idx < x.len() {
        assert(v[idx] == x[idx]);
        assert(x.contains(':'));
    }
    assert(v.take(x.len() as int) =~= x);
    assert(v.skip(x.len() as int + 1) =~= y);
    let b = seq!["--distro"@, v];
    let ab = a + b;
    let n = a.len() as int;
    assert(ab[n] == "--distro"@);
    assert(ab[n + 1] == v);
    lemma_scan_last_step(a, b);
}

/// `--mode` followed by anything but `copy` or `post` stops the scan with that
/// value as the unexpected mode.
pub proof fn law_unexpected_mode(a: Seq<Seq<char>>, m: Seq<char>)
    requires
        scan_spec(a).error is None,
        m != "copy"@,
        m != "post"@,
    ensures
        scan_spec(a + seq!["--mode"@, m]) == scan_spec(a).fail(CmdlineErrorView::UnexpectedMode(m)),
{
    let b = seq!["--mode"@, m];
    let ab = a + b;
    lemma_option_names_differ();
    let n = a.len() as int;
    assert(ab[n] == "--mode"@);
    assert(ab[n + 1] == m);
    lemma_scan_last_step(a, b);
}

/// An option whose value is missing at the end of the command line stops the
/// scan with the error that names what is missing (`--config` reports the
/// legacy format first).
pub proof fn law_missing_values(a: Seq<Seq<char>>)
    requires
        scan_spec(a).error is None,
    ensures
        scan_spec(a + seq!["--distro"@]) == scan_spec(a).fail(CmdlineErrorView::MissingDistroNames),
        scan_spec(a + seq!["--mode"@]) == scan_spec(a).fail(CmdlineErrorView::MissingModeArgument),
        scan_spec(a + seq!["--mode"@, "copy"@]) == scan_spec(a).fail(CmdlineErrorView::MissingCopySource),
        scan_spec(a + seq!["--config"@]) == scan_spec(a).note(ScanEventView::LegacyConfig).fail(
            CmdlineErrorView::MissingConfigPath,
        ),
        scan_spec(a + seq!["--config-ng"@]) == scan_spec(a).fail(CmdlineErrorView::MissingConfigNgPath),
        scan_spec(a + seq!["--desktop-file"@]) == scan_spec(a).fail(CmdlineErrorView::MissingDesktopPath),
{
    lemma_option_names_differ();
    let n = a.len() as int;
    assert((a + seq!["--distro"@])[n] == "--distro"@);
    lemma_scan_last_step(a, seq!["--distro"@]);
    assert((a + seq!["--mode"@])[n] == "--mode"@);
    lemma_scan_last_step(a, seq!["--mode"@]);
    assert((a + seq!["--mode"@, "copy"@])[n] == "--mode"@);
    assert((a + seq!["--mode"@, "copy"@])[n + 1] == "copy"@);
    lemma_scan_last_step(a, seq!["--mode"@, "copy"@]);
    assert((a + seq!["--config"@])[n] == "--config"@);
    lemma_scan_last_step(a, seq!["--config"@]);
    assert((a + seq!["--config-ng"@])[n] == "--config-ng"@);
    lemma_scan_last_step(a, seq!["--config-ng"@]);
    assert((a + seq!["--desktop-file"@])[n] == "--desktop-file"@);
    lemma_scan_last_step(a, seq!["--desktop-file"@]);
}

} // verus!
