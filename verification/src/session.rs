//! The run of a component as a state machine: it hands out one operation
//! at a time, takes the host's report, and stops at the first failure.

use crate::error::DiaryError;
use vstd::prelude::*;
use vstd::string::*;

verus! {

/// One thing that a session asks its host to do on the disk.
#[derive(Debug, PartialEq, Eq)]
pub enum Operation {
    /// Create the directory and the directories above it, unless they are
    /// there already.
    EnsureDirectory { path: String },
    /// Create the file and write the content, unless something is there
    /// already under that path.
    CreateFile { path: String, content: String },
}

/// What an operation holds.
pub enum OperationView {
    EnsureDirectory { path: Seq<char> },
    CreateFile { path: Seq<char>, content: Seq<char> },
}

impl View for Operation {
    type V = OperationView;

    open spec fn view(&self) -> OperationView {
        match self {
            Operation::EnsureDirectory { path } => OperationView::EnsureDirectory { path: path@ },
            Operation::CreateFile { path, content } => OperationView::CreateFile {
                path: path@,
                content: content@,
            },
        }
    }
}

impl OperationView {
    /// The path that the operation creates.
    pub open spec fn path(self) -> Seq<char> {
        match self {
            OperationView::EnsureDirectory { path } => path,
            OperationView::CreateFile { path, .. } => path,
        }
    }

    /// The line that tells the user that the operation is done.
    pub open spec fn confirmation(self) -> Seq<char> {
        match self {
            OperationView::EnsureDirectory { path } => "ok: "@ + path + " directory"@,
            OperationView::CreateFile { path, .. } => "ok: "@ + path + " file"@,
        }
    }
}

impl Operation {
    /// The path that the operation creates.
    pub fn path(&self) -> (r: &str)
        ensures
            r@ == self@.path(),
    {
        match self {
            Operation::EnsureDirectory { path } => path.as_str(),
            Operation::CreateFile { path, .. } => path.as_str(),
        }
    }

    /// The line that tells the user that the operation is done.
    pub fn confirmation(&self) -> (r: String)
        ensures
            r@ == self@.confirmation(),
    {
        let mut line = "ok: ".to_owned();
        match self {
            Operation::EnsureDirectory { path } => {
                line.append(path.as_str());
                line.append(" directory");
            },
            Operation::CreateFile { path, .. } => {
                line.append(path.as_str());
                line.append(" file");
            },
        }
        line
    }
}

/// How the host fared with an operation.
#[derive(Clone, Copy, Debug, PartialEq, Eq, Structural)]
pub enum Outcome {
    /// It is done.
    Done,
    /// Something is there already under the path.
    AlreadyExists,
    /// The disk refused for another reason.
    Failed,
}

/// Which of the two components a session works for.
#[derive(Clone, Copy, Debug, PartialEq, Eq, Structural)]
pub enum Component {
    /// It sets up a fresh workspace.
    Initializer,
    /// It writes the entry of a day.
    EntryWriter,
}

/// The error that ends a session when an operation had this outcome, `None`
/// where the session goes on.
pub open spec fn failure_of(component: Component, operation: OperationView, outcome: Outcome)
    -> Option<DiaryError> {
    match outcome {
        Outcome::Done => None,
        Outcome::AlreadyExists => match operation {
            OperationView::EnsureDirectory { .. } => Some(DiaryError::DirectoryCreateFailure),
            OperationView::CreateFile { .. } => match component {
                Component::Initializer => Some(DiaryError::FileAlreadyExists),
                Component::EntryWriter => Some(DiaryError::EntryAlreadyExists),
            },
        },
        Outcome::Failed => match operation {
            OperationView::EnsureDirectory { .. } => Some(DiaryError::DirectoryCreateFailure),
            OperationView::CreateFile { .. } => Some(DiaryError::FileWriteFailure),
        },
    }
}

/// What a session holds: its steps, how many of them are done, and the error
/// that stopped it.
pub struct SessionView {
    pub component: Component,
    pub steps: Seq<OperationView>,
    pub done: nat,
    pub failure: Option<DiaryError>,
}

impl SessionView {
    /// A session that has done nothing yet.
    pub open spec fn fresh(component: Component, steps: Seq<OperationView>) -> SessionView {
        SessionView { component, steps, done: 0, failure: None }
    }

    pub open spec fn wf(self) -> bool {
        self.done <= self.steps.len()
    }

    /// The operation that the host is to perform next: none once a step has
    /// failed or all are done.
    pub open spec fn pending(self) -> Option<OperationView> {
        if self.failure is None && self.done < self.steps.len() {
            Some(self.steps[self.done as int])
        } else {
            None
        }
    }

    /// The session after the host has reported on the pending operation. A
    /// step that is done makes room for the next one; any other outcome
    /// stops the session for good, with the steps done so far left as they
    /// are.
    pub open spec fn record(self, outcome: Outcome) -> SessionView {
        match self.pending() {
            None => self,
            Some(operation) => match failure_of(self.component, operation, outcome) {
                None => SessionView { done: self.done + 1, ..self },
                Some(error) => SessionView { failure: Some(error), ..self },
            },
        }
    }

    /// How the session ended: `None` while an operation is pending.
    pub open spec fn result(self) -> Option<Result<(), DiaryError>> {
        match self.failure {
            Some(error) => Some(Err(error)),
            None => if self.done < self.steps.len() {
                None
            } else {
                Some(Ok(()))
            },
        }
    }

    /// The steps that are still to be done.
    pub open spec fn remaining(self) -> nat {
        if self.failure is None && self.done < self.steps.len() {
            (self.steps.len() - self.done) as nat
        } else {
            0
        }
    }
}

/// The views of some operations.
pub open spec fn views(steps: Seq<Operation>) -> Seq<OperationView> {
    Seq::new(steps.len(), |i: int| steps[i]@)
}

/// A run of one component: the operations to perform in order, driven by the
/// reports of the host.
#[derive(Debug)]
pub struct Session {
    component: Component,
    steps: Vec<Operation>,
    done: usize,
    failure: Option<DiaryError>,
}

impl View for Session {
    type V = SessionView;

    closed spec fn view(&self) -> SessionView {
        SessionView {
            component: self.component,
            steps: views(self.steps@),
            done: self.done as nat,
            failure: self.failure,
        }
    }
}

impl Session {
    #[verifier::type_invariant]
    spec fn inv(self) -> bool {
        self@.wf()
    }

    /// A session that is to perform `steps` in order.
    pub fn new(component: Component, steps: Vec<Operation>) -> (r: Session)
        ensures
            r@ == SessionView::fresh(component, views(steps@)),
    {
        Session { component, steps, done: 0, failure: None }
    }

    /// The component that the session works for.
    pub fn component(&self) -> (r: Component)
        ensures
            r == self@.component,
    {
        self.component
    }

    /// The operation to perform next, if the session has not ended.
    pub fn pending(&self) -> (r: Option<&Operation>)
        ensures
            match r {
                Some(operation) => self@.pending() == Some(operation@),
                None => self@.pending() is None,
            },
    {
        proof {
            use_type_invariant(self);
        }
        if self.failure.is_none() && self.done < self.steps.len() {
            Some(&self.steps[self.done])
        } else {
            None
        }
    }

    /// Takes the host's report on the pending operation. Without a pending
    /// operation the report is passed over.
    pub fn record(&mut self, outcome: Outcome)
        ensures
            final(self)@ == old(self)@.record(outcome),
    {
        proof {
            use_type_invariant(&*self);
        }
        if self.failure.is_none() && self.done < self.steps.len() {
            let error = classify(self.component, &self.steps[self.done], outcome);
            match error {
                None => {
                    self.done = self.done + 1;
                },
                Some(error) => {
                    self.failure = Some(error);
                },
            }
        }
    }

    /// How many steps are done.
    pub fn completed(&self) -> (r: usize)
        ensures
            r == self@.done,
    {
        self.done
    }

    /// How the session ended, `None` while an operation is pending.
    pub fn result(&self) -> (r: Option<Result<(), DiaryError>>)
        ensures
            r == self@.result(),
    {
        proof {
            use_type_invariant(self);
        }
        match self.failure {
            Some(error) => Some(Err(error)),
            None => if self.done < self.steps.len() {
                None
            } else {
                Some(Ok(()))
            },
        }
    }
}

/// A started session, or the error that kept it from starting, with the
/// session taken by its view.
pub open spec fn started(r: Result<Session, DiaryError>) -> Result<SessionView, DiaryError> {
    match r {
        Ok(session) => Ok(session@),
        Err(error) => Err(error),
    }
}

/// The error that ends a session when an operation had this outcome.
pub fn classify(component: Component, operation: &Operation, outcome: Outcome) -> (r: Option<
    DiaryError,
>)
    ensures
        r == failure_of(component, operation@, outcome),
{
    match outcome {
        Outcome::Done => None,
        Outcome::AlreadyExists => match operation {
            Operation::EnsureDirectory { .. } => Some(DiaryError::DirectoryCreateFailure),
            Operation::CreateFile { .. } => match component {
                Component::Initializer => Some(DiaryError::FileAlreadyExists),
                Component::EntryWriter => Some(DiaryError::EntryAlreadyExists),
            },
        },
        Outcome::Failed => match operation {
            Operation::EnsureDirectory { .. } => Some(DiaryError::DirectoryCreateFailure),
            Operation::CreateFile { .. } => Some(DiaryError::FileWriteFailure),
        },
    }
}

} // verus!
