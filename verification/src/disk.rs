//! A disk without faults, as far as the two components can tell one from
//! another: which directories are there, and which files with what content.
//!
//! The model says what each operation of a session does to such a disk, and
//! so what a whole session leaves behind. It is ghost: the host works on the
//! real disk.

use crate::session::{Outcome, OperationView, SessionView};
use vstd::prelude::*;

verus! {

/// `directory` lies above `path`: the path goes on with a slash behind it.
/// The root, whose name before the slash is empty, is not counted.
pub open spec fn above(directory: Seq<char>, path: Seq<char>) -> bool {
    &&& 0 < directory.len() < path.len()
    &&& path[directory.len() as int] == '/'
    &&& path.take(directory.len() as int) == directory
}

/// The directories and the files of a disk, by their paths.
pub struct Disk {
    pub directories: Set<Seq<char>>,
    pub files: Map<Seq<char>, Seq<char>>,
}

impl Disk {
    /// Whether a directory or a file is there under the path.
    pub open spec fn holds(self, path: Seq<char>) -> bool {
        self.directories.contains(path) || self.files.contains_key(path)
    }

    /// The content of the file under the path, if one is there.
    pub open spec fn read(self, path: Seq<char>) -> Option<Seq<char>> {
        if self.files.contains_key(path) {
            Some(self.files[path])
        } else {
            None
        }
    }

    /// Nothing is both file and directory, and whatever is there lies below
    /// directories only.
    pub open spec fn wf(self) -> bool {
        &&& forall|path: Seq<char>|
            self.files.contains_key(path) ==> !self.directories.contains(path)
        &&& forall|directory: Seq<char>, path: Seq<char>|
            self.holds(path) && #[trigger] above(directory, path) ==> self.directories.contains(
                directory,
            )
    }

    /// Whether a file stands where the directory `path` or one above it
    /// would have to be.
    pub open spec fn blocks(self, path: Seq<char>) -> bool {
        self.files.contains_key(path) || exists|directory: Seq<char>|
            #[trigger] above(directory, path) && self.files.contains_key(directory)
    }

    /// Whether every directory above `path` is there.
    pub open spec fn reaches(self, path: Seq<char>) -> bool {
        forall|directory: Seq<char>| #[trigger]
            above(directory, path) ==> self.directories.contains(directory)
    }

    /// The disk with the directory `path` and all above it.
    pub open spec fn with_directory(self, path: Seq<char>) -> Disk {
        Disk {
            directories: Set::new(
                |directory: Seq<char>|
                    self.directories.contains(directory) || directory == path || above(
                        directory,
                        path,
                    ),
            ),
            files: self.files,
        }
    }

    /// The disk with the file `path` of that content.
    pub open spec fn with_file(self, path: Seq<char>, content: Seq<char>) -> Disk {
        Disk { directories: self.directories, files: self.files.insert(path, content) }
    }

    /// What an operation does to the disk, and what the host reports.
    ///
    /// A directory is ensured unless a file is in the way; that it is there
    /// already is no failure. A file is created only where nothing is there
    /// under its path, and only below directories that are there.
    pub open spec fn attempt(self, operation: OperationView) -> (Disk, Outcome) {
        match operation {
            OperationView::EnsureDirectory { path } => if self.blocks(path) {
                (self, Outcome::Failed)
            } else {
                (self.with_directory(path), Outcome::Done)
            },
            OperationView::CreateFile { path, content } => if self.holds(path) {
                (self, Outcome::AlreadyExists)
            } else if !self.reaches(path) {
                (self, Outcome::Failed)
            } else {
                (self.with_file(path, content), Outcome::Done)
            },
        }
    }

    /// Whether the disk shows what the operation is to bring about: the
    /// directory, or the file with that content.
    pub open spec fn shows(self, operation: OperationView) -> bool {
        match operation {
            OperationView::EnsureDirectory { path } => self.directories.contains(path),
            OperationView::CreateFile { path, content } => self.read(path) == Some(content),
        }
    }

    /// Whether all that is on `self` is on `later` too, the files with their
    /// content.
    pub open spec fn kept_by(self, later: Disk) -> bool {
        &&& forall|path: Seq<char>| #[trigger]
            self.directories.contains(path) ==> later.directories.contains(path)
        &&& forall|path: Seq<char>| #[trigger]
            self.files.contains_key(path) ==> later.files.contains_key(path) && later.files[path]
                == self.files[path]
    }
}

/// The session and the disk once the host has performed every operation that
/// the session handed out, each on the disk that the one before left.
pub open spec fn run(session: SessionView, disk: Disk) -> (SessionView, Disk)
    decreases session.remaining(),
{
    match session.pending() {
        None => (session, disk),
        Some(operation) => {
            let step = disk.attempt(operation);
            run(session.record(step.1), step.0)
        },
    }
}

/// What lies above a directory lies above all below it.
pub proof fn lemma_above_is_transitive(a: Seq<char>, b: Seq<char>, c: Seq<char>)
    requires
        above(a, b),
        above(b, c),
    ensures
        above(a, c),
{
    assert(c.take(b.len() as int)[a.len() as int] == c[a.len() as int]);
    assert(c.take(a.len() as int) =~= b.take(a.len() as int));
}

/// An operation leaves a well-formed disk well-formed, keeps all that was
/// there, and changes nothing unless it is done.
pub proof fn lemma_attempt(disk: Disk, operation: OperationView)
    requires
        disk.wf(),
    ensures
        disk.attempt(operation).0.wf(),
        disk.kept_by(disk.attempt(operation).0),
        disk.attempt(operation).1 != Outcome::Done ==> disk.attempt(operation).0 == disk,
        disk.attempt(operation).1 == Outcome::Done ==> disk.attempt(operation).0.shows(operation),
{
    let after = disk.attempt(operation).0;
    match operation {
        OperationView::EnsureDirectory { path } => {
            if !disk.blocks(path) {
                assert forall|directory: Seq<char>, below: Seq<char>|
                    after.holds(below) && #[trigger] above(directory, below) implies after.directories.contains(
                    directory,
                ) by {
                    if disk.holds(below) {
                    } else if below == path {
                    } else {
                        lemma_above_is_transitive(directory, below, path);
                    }
                }
            }
        },
        OperationView::CreateFile { path, content } => {},
    }
}

/// A session ends, leaves a well-formed disk well-formed and keeps all that
/// was there.
pub proof fn lemma_run(session: SessionView, disk: Disk)
    requires
        disk.wf(),
    ensures
        run(session, disk).0.pending() is None,
        run(session, disk).0.component == session.component,
        run(session, disk).0.steps == session.steps,
        run(session, disk).1.wf(),
        disk.kept_by(run(session, disk).1),
    decreases session.remaining(),
{
    match session.pending() {
        None => {},
        Some(operation) => {
            let step = disk.attempt(operation);
            lemma_attempt(disk, operation);
            lemma_run(session.record(step.1), step.0);
        },
    }
}

/// Where a session ends without a failure, the disk shows what each of its
/// steps was to bring about.
pub proof fn lemma_finished_run(session: SessionView, disk: Disk, i: int)
    requires
        disk.wf(),
        run(session, disk).0.failure is None,
        session.done <= i < session.steps.len(),
    ensures
        run(session, disk).1.shows(session.steps[i]),
    decreases session.remaining(),
{
    match session.pending() {
        None => {},
        Some(operation) => {
            let step = disk.attempt(operation);
            let next = session.record(step.1);
            lemma_attempt(disk, operation);
            lemma_run(next, step.0);
            if i > session.done {
                lemma_finished_run(next, step.0, i);
            }
        },
    }
}

} // verus!
