use vstd::prelude::*;

pub mod archlinux;

use crate::distro::fs_op::{FsOp, FsOpView};
use crate::path::{
    below_root, lemma_push_all_stays_under, path_components,
    path_parent, path_parent_of, push_all, spec_components, spec_push_all, lemma_components_below_root_relative,
    lemma_push_all_plain_pieces, pieces_from, plain_absolute,
};
use crate::text::same_text;

verus! {

/// A file in a package, with what the "copy" action needs to know of it.
#[derive(Debug)]
pub enum PackageFile {
    Regular {
        /// The current file path on disk.
        source_path: String,
    },
    Symlink {
        /// Where the link is; its parent directory is created when it is installed.
        source_path: String,
        /// What the link points to.
        link_target: String,
    },
}

impl PackageFile {
    /// The path of the file on disk.
    pub open spec fn source(&self) -> String {
        match self {
            PackageFile::Regular { source_path } => *source_path,
            PackageFile::Symlink { source_path, link_target: _ } => *source_path,
        }
    }

    /// Where the file goes in the package directory `pkgdir`: `pkgdir` with each
    /// piece of the source path below the root pushed onto it in turn.
    pub open spec fn install_path_spec(&self, pkgdir: Seq<char>) -> Seq<char> {
        spec_push_all(pkgdir, below_root(spec_components(self.source()@)))
    }

    /// The operations that install the file into `pkgdir`: a copy of a regular
    /// file; for a link, the creation of its parent directory (where the path
    /// has one), then a new link with the same target.
    pub open spec fn install_ops_spec(&self, pkgdir: Seq<char>) -> Seq<FsOpView> {
        let to = self.install_path_spec(pkgdir);
        match self {
            PackageFile::Regular { source_path } => seq![FsOpView::CopyFile { from: source_path@, to }],
            PackageFile::Symlink { source_path: _, link_target } => {
                let parent = match path_parent_of(to) {
                    Some(dir) => seq![FsOpView::CreateDirAll(dir)],
                    None => Seq::empty(),
                };
                parent + seq![FsOpView::Symlink { target: link_target@, link: to }]
            },
        }
    }

    /// The path of the file on disk.
    pub fn source_path(&self) -> (res: &String)
        ensures
            *res == self.source(),
    {
        match self {
            PackageFile::Regular { source_path } => source_path,
            PackageFile::Symlink { source_path, link_target: _ } => source_path,
        }
    }

    /// Where the file goes in the package directory `pkgdir`; its text always
    /// starts with `pkgdir` (a `..` piece of the source may still lead outside
    /// `pkgdir` on disk).
    pub fn install_path(&self, pkgdir: &str) -> (res: String)
        ensures
            res@ == self.install_path_spec(pkgdir@),
            pkgdir@.is_prefix_of(res@),
            pkgdir@.len() > 0 && pkgdir@.last() != '/' && plain_absolute(self.source()@) ==> res@ == pkgdir@
                + self.source()@,
    {
        proof {
            if pkgdir@.len() > 0 && pkgdir@.last() != '/' && plain_absolute(self.source()@) {
                law_install_path_appends_source(*self, pkgdir@);
            }
        }
        let source = self.source_path().as_str();
        let comps = path_components(source);
        let ghost cv = comps@.map_values(|s: String| s@);
        proof {
            reveal_strlit("/");
            assert("/"@ =~= seq!['/']);
            if comps.len() > 0 {
                assert(cv[0] == comps@[0]@);
            }
        }
        let from: usize = if comps.len() > 0 && same_text(comps[0].as_str(), "/") {
            1
        } else {
            0
        };
        proof {
            assert(cv.skip(from as int) =~= below_root(cv));
            lemma_components_below_root_relative(source@);
            assert(pkgdir@.is_prefix_of(pkgdir@)) by {
                assert(pkgdir@.subrange(0, pkgdir@.len() as int) =~= pkgdir@);
            }
            lemma_push_all_stays_under(pkgdir@, pkgdir@, cv.skip(from as int));
        }
        push_all(pkgdir, &comps, from)
    }

    /// The operations that install the file into `pkgdir` (see
    /// `install_ops_spec`); whatever the source path, they create, write or
    /// link only paths whose text starts with `pkgdir`, but for the parent
    /// directory of a link.
    pub fn install_ops(&self, pkgdir: &str) -> (res: Vec<FsOp>)
        ensures
            res@.map_values(|op: FsOp| op@) == self.install_ops_spec(pkgdir@),
            installs_under(self.install_ops_spec(pkgdir@), pkgdir@),
            match self {
                PackageFile::Regular { source_path } => res@.len() == 1 && res@[0]@
                    == FsOpView::CopyFile { from: source_path@, to: self.install_path_spec(pkgdir@) },
                PackageFile::Symlink { source_path: _, link_target } => 1 <= res@.len() <= 2
                    && res@[res@.len() - 1]@ == FsOpView::Symlink {
                    target: link_target@,
                    link: self.install_path_spec(pkgdir@),
                } && (res@.len() == 2 ==> res@[0]@ is CreateDirAll),
            },
    {
        let to = self.install_path(pkgdir);
        let mut ops: Vec<FsOp> = Vec::new();
        match self {
            PackageFile::Regular { source_path } => {
                ops.push(FsOp::CopyFile { from: source_path.clone(), to });
            },
            PackageFile::Symlink { source_path: _, link_target } => {
                match path_parent(to.as_str()) {
                    Some(dir) => ops.push(FsOp::CreateDirAll(dir)),
                    None => {},
                }
                ops.push(FsOp::Symlink { target: link_target.clone(), link: to });
            },
        }
        assert(ops@.map_values(|op: FsOp| op@) =~= self.install_ops_spec(pkgdir@));
        assert(ops@[ops@.len() - 1]@ == self.install_ops_spec(pkgdir@)[ops@.len() - 1]);
        assert(ops@.len() == 2 ==> ops@[0]@ == self.install_ops_spec(pkgdir@)[0]);
        proof {
            let spec_ops = self.install_ops_spec(pkgdir@);
            assert forall|i: int, k: int|
                0 <= i < spec_ops.len() && !(spec_ops[i] is CreateDirAll) && 0 <= k
                    < spec_ops[i].targets().len() implies pkgdir@.is_prefix_of(
                #[trigger] spec_ops[i].targets()[k],
            ) by {
                assert(spec_ops[i].targets()[k] == to@);
            }
        }
        ops
    }
}

/// The operations `ops` write, link or remove only at paths whose text starts
/// with `pkgdir` (directory creation aside).  This is a property of the text:
/// a `..` piece can still lead outside `pkgdir` on disk.
pub open spec fn installs_under(ops: Seq<FsOpView>, pkgdir: Seq<char>) -> bool {
    forall|i: int, k: int|
        0 <= i < ops.len() && !(ops[i] is CreateDirAll) && 0 <= k < ops[i].targets().len()
            ==> pkgdir.is_prefix_of(#[trigger] ops[i].targets()[k])
}

/// A regular file is installed by one copy from its own path to its place
/// under `pkgdir`, and by nothing else.
pub proof fn law_regular_file_copied(source_path: String, pkgdir: Seq<char>)
    ensures
        (PackageFile::Regular { source_path }).install_ops_spec(pkgdir) == seq![
            FsOpView::CopyFile {
                from: source_path@,
                to: spec_push_all(pkgdir, below_root(spec_components(source_path@))),
            },
        ],
{
}

/// A link is installed last as a new link at its place under `pkgdir` that
/// points to exactly the destination it had: the target is copied unchanged,
/// whatever it is and whatever `pkgdir` is, and only a directory creation may
/// come before it.
pub proof fn law_link_target_unchanged(source_path: String, link_target: String, pkgdir: Seq<char>)
    ensures
        ({
            let ops = (PackageFile::Symlink { source_path, link_target }).install_ops_spec(pkgdir);
            &&& 1 <= ops.len() <= 2
            &&& ops[ops.len() - 1] == FsOpView::Symlink {
                target: link_target@,
                link: spec_push_all(pkgdir, below_root(spec_components(source_path@))),
            }
            &&& ops.len() == 2 ==> ops[0] is CreateDirAll
        }),
{
}

/// Installing the same link into two package directories gives two links
/// with the same target.
pub proof fn law_link_target_independent_of_pkgdir(f: PackageFile, a: Seq<char>, b: Seq<char>)
    requires
        f is Symlink,
    ensures
        f.install_ops_spec(a).last()->Symlink_target == f.install_ops_spec(b).last()->Symlink_target,
        f.install_ops_spec(a).last()->Symlink_target == f->Symlink_link_target@,
{
}

/// A file whose path is absolute and in plain form (no empty piece, no `.`
/// piece, no separator at its end) goes to the same path inside `pkgdir`: its
/// install path is the text of `pkgdir` followed by the text of its path.
pub proof fn law_install_path_appends_source(f: PackageFile, pkgdir: Seq<char>)
    requires
        pkgdir.len() > 0,
        pkgdir.last() != '/',
        plain_absolute(f.source()@),
    ensures
        f.install_path_spec(pkgdir) == pkgdir + f.source()@,
{
    let p = f.source()@;
    assert(spec_components(p) == seq![seq!['/']] + pieces_from(p, 1));
    assert(below_root(spec_components(p)) =~= pieces_from(p, 1));
    lemma_push_all_plain_pieces(pkgdir, p, 1);
    assert(p.subrange(0, p.len() as int) =~= p);
}

} // verus!
