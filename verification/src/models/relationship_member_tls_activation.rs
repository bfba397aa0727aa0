use vstd::prelude::*;

use crate::models::type_tls_activation::TypeTlsActivation;

verus! {

/// A reference to a TLS activation, by type and identifier.
#[derive(Clone, Debug, PartialEq)]
pub struct RelationshipMemberTlsActivation {
    pub _type: Option<TypeTlsActivation>,
    pub id: Option<Box<String>>,
}

impl RelationshipMemberTlsActivation {
    /// A reference with every field absent.
    pub fn new() -> (record: RelationshipMemberTlsActivation)
        ensures
            record._type is None,
            record.id is None,
    {
        RelationshipMemberTlsActivation { _type: None, id: None }
    }
}

impl Default for RelationshipMemberTlsActivation {
    fn default() -> (record: RelationshipMemberTlsActivation)
        ensures
            record._type is None,
            record.id is None,
    {
        RelationshipMemberTlsActivation::new()
    }
}

} // verus!
