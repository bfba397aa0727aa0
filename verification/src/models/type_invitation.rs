use vstd::prelude::*;
use vstd::string::*;

verus! {

/// Resource type of an invitation.
#[derive(Clone, Copy, Debug, Eq, PartialEq, Ord, PartialOrd, Hash)]
pub enum TypeInvitation {
    Invitation,
}

impl TypeInvitation {
    /// The name of the type on the wire.
    pub open spec fn name(self) -> Seq<char> {
        match self {
            TypeInvitation::Invitation => "invitation"@,
        }
    }

    /// The name of the type on the wire.
    pub fn to_string(&self) -> (name: String)
        ensures
            name@ == self.name(),
    {
        match self {
            TypeInvitation::Invitation => "invitation".to_owned(),
        }
    }
}

impl Default for TypeInvitation {
    fn default() -> (kind: TypeInvitation)
        ensures
            kind == TypeInvitation::Invitation,
    {
        TypeInvitation::Invitation
    }
}

} // verus!
