//! The actor groups of the single-route server.
use vstd::prelude::*;

verus! {

/// The groups of actors; each is known by its variant's name.
#[derive(PartialEq, Eq, Structural, Clone, Copy, Debug)]
pub enum ActorGroups {
    Input,
    Book,
}

impl ActorGroups {
    pub open spec fn name(self) -> Seq<char> {
        match self {
            ActorGroups::Input => "Input"@,
            ActorGroups::Book => "Book"@,
        }
    }

    pub fn as_ref(&self) -> (s: &'static str)
        ensures
            s@ == self.name(),
    {
        match self {
            ActorGroups::Input => "Input",
            ActorGroups::Book => "Book",
        }
    }

    pub fn to_string(&self) -> (s: String)
        ensures
            s@ == self.name(),
    {
        self.as_ref().to_owned()
    }
}

} // verus!
