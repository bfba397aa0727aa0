use vstd::prelude::*;

verus! {

/// Why a request for elevated privileges was refused.
#[derive(Clone, Debug, PartialEq)]
pub struct SudoGenericTokenError {
    pub msg: Option<String>,
}

impl SudoGenericTokenError {
    /// A record without a message.
    pub fn new() -> (record: SudoGenericTokenError)
        ensures
            record.msg is None,
    {
        SudoGenericTokenError { msg: None }
    }
}

impl Default for SudoGenericTokenError {
    fn default() -> (record: SudoGenericTokenError)
        ensures
            record.msg is None,
    {
        SudoGenericTokenError::new()
    }
}

} // verus!
