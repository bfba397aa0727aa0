use vstd::prelude::*;

verus! {

/// A key-value store as the API reports it.
#[derive(Clone, Debug, PartialEq)]
pub struct StoreResponse {
    /// ID of the store.
    pub id: Option<String>,
    /// A human-readable name for the store.
    pub name: Option<String>,
}

impl StoreResponse {
    /// A record with every field absent.
    pub fn new() -> (record: StoreResponse)
        ensures
            record.id is None,
            record.name is None,
    {
        StoreResponse { id: None, name: None }
    }
}

impl Default for StoreResponse {
    fn default() -> (record: StoreResponse)
        ensures
            record.id is None,
            record.name is None,
    {
        StoreResponse::new()
    }
}

} // verus!
