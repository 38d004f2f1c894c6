//! The commands of the tool and the component that carries each out.

use crate::session::Component;
use vstd::prelude::*;

verus! {

/// What the user asks the tool to do.
#[derive(Clone, Copy, Debug, PartialEq, Eq, Structural)]
pub enum Command {
    /// `new`: set up a workspace.
    New,
    /// `add entry`: write the entry of today.
    AddEntry,
    /// `add article`: kept for article pages, which are not there yet.
    AddArticle,
}

impl Command {
    /// The component that carries the command out: none for a command that
    /// is not implemented yet and does nothing.
    pub open spec fn spec_component(&self) -> Option<Component> {
        match self {
            Command::New => Some(Component::Initializer),
            Command::AddEntry => Some(Component::EntryWriter),
            Command::AddArticle => None,
        }
    }

    /// The component that carries the command out: none for a command that
    /// is not implemented yet and does nothing.
    #[verifier::when_used_as_spec(spec_component)]
    pub fn component(&self) -> (r: Option<Component>)
        ensures
            r == self.component(),
    {
        match self {
            Command::New => Some(Component::Initializer),
            Command::AddEntry => Some(Component::EntryWriter),
            Command::AddArticle => None,
        }
    }
}

} // verus!
