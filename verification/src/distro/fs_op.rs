use vstd::prelude::*;

verus! {

/// One operation on the file system, to be carried out by the caller.
#[derive(Debug)]
pub enum FsOp {
    /// Create a directory and all its missing parents.
    CreateDirAll(String),
    /// Remove a directory and everything in it.
    RemoveDirAll(String),
    /// Remove a file.
    RemoveFile(String),
    /// Move `from` to `to`.
    Rename { from: String, to: String },
    /// Copy the file `from` to `to`.
    CopyFile { from: String, to: String },
    /// Create a symbolic link at `link` that points to `target`.
    Symlink { target: String, link: String },
    /// Create the file `path`, which must not exist yet (with the permission
    /// bits `mode` where given), and write `content` into it.
    CreateNewFile { path: String, mode: Option<u32>, content: String },
}

/// The mathematical value of an `FsOp`.
pub enum FsOpView {
    CreateDirAll(Seq<char>),
    RemoveDirAll(Seq<char>),
    RemoveFile(Seq<char>),
    Rename { from: Seq<char>, to: Seq<char> },
    CopyFile { from: Seq<char>, to: Seq<char> },
    Symlink { target: Seq<char>, link: Seq<char> },
    CreateNewFile { path: Seq<char>, mode: Option<u32>, content: Seq<char> },
}

impl View for FsOp {
    type V = FsOpView;

    open spec fn view(&self) -> FsOpView {
        match self {
            FsOp::CreateDirAll(p) => FsOpView::CreateDirAll(p@),
            FsOp::RemoveDirAll(p) => FsOpView::RemoveDirAll(p@),
            FsOp::RemoveFile(p) => FsOpView::RemoveFile(p@),
            FsOp::Rename { from, to } => FsOpView::Rename { from: from@, to: to@ },
            FsOp::CopyFile { from, to } => FsOpView::CopyFile { from: from@, to: to@ },
            FsOp::Symlink { target, link } => FsOpView::Symlink { target: target@, link: link@ },
            FsOp::CreateNewFile { path, mode, content } => FsOpView::CreateNewFile {
                path: path@,
                mode: *mode,
                content: content@,
            },
        }
    }
}

impl FsOpView {
    /// The paths that the operation creates, removes or writes (the source of a
    /// copy and the target of a link are only read or named).
    pub open spec fn targets(self) -> Seq<Seq<char>> {
        match self {
            FsOpView::CreateDirAll(p) => seq![p],
            FsOpView::RemoveDirAll(p) => seq![p],
            FsOpView::RemoveFile(p) => seq![p],
            FsOpView::Rename { from, to } => seq![from, to],
            FsOpView::CopyFile { from: _, to } => seq![to],
            FsOpView::Symlink { target: _, link } => seq![link],
            FsOpView::CreateNewFile { path, mode: _, content: _ } => seq![path],
        }
    }
}

/// The carrying out of a list of operations, one at a time: the caller
/// performs the operation that `next` gives and reports with `record` whether
/// it succeeded.  The run stops at the first failure, whose index `outcome`
/// gives.
#[derive(Debug)]
pub struct OpRun {
    pub ops: Vec<FsOp>,
    /// How many operations have succeeded.
    pub done: usize,
    /// Whether the operation at `done` failed.
    pub failed: bool,
}

impl OpRun {
    /// A run that is consistent: a failure stands at an operation of the list.
    pub open spec fn wf(&self) -> bool {
        &&& self.done <= self.ops.len()
        &&& self.failed ==> self.done < self.ops.len()
    }

    /// Whether the run is over: an operation failed, or all succeeded.
    pub open spec fn finished(&self) -> bool {
        self.failed || self.done == self.ops.len()
    }

    /// A run of `ops` that has not started.
    pub fn new(ops: Vec<FsOp>) -> (res: OpRun)
        ensures
            res.wf(),
            res.ops == ops,
            res.done == 0,
            !res.failed,
    {
        OpRun { ops, done: 0, failed: false }
    }

    /// The operation to perform next; `None` once the run is over.
    pub fn next(&self) -> (res: Option<&FsOp>)
        requires
            self.wf(),
        ensures
            res is None <==> self.finished(),
            res matches Some(op) ==> *op == self.ops@[self.done as int],
    {
        if self.failed || self.done == self.ops.len() {
            None
        } else {
            Some(&self.ops[self.done])
        }
    }

    /// Records whether the operation that `next` gave succeeded.
    pub fn record(&mut self, succeeded: bool)
        requires
            old(self).wf(),
            !old(self).finished(),
        ensures
            final(self).wf(),
            final(self).ops == old(self).ops,
            succeeded ==> final(self).done == old(self).done + 1 && !final(self).failed,
            !succeeded ==> final(self).done == old(self).done && final(self).failed,
    {
        if succeeded {
            self.done = self.done + 1;
        } else {
            self.failed = true;
        }
    }

    /// The outcome of a finished run: success, or the index of the operation
    /// that failed (every operation before it succeeded, none after it ran).
    pub fn outcome(&self) -> (res: Result<(), usize>)
        requires
            self.wf(),
            self.finished(),
        ensures
            res == (if self.failed {
                Err::<(), usize>(self.done)
            } else {
                Ok::<(), usize>(())
            }),
    {
        if self.failed {
            Err(self.done)
        } else {
            Ok(())
        }
    }
}

} // verus!
