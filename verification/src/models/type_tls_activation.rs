use vstd::prelude::*;
use vstd::string::*;

verus! {

/// Resource type of a TLS activation.
#[derive(Clone, Copy, Debug, Eq, PartialEq, Ord, PartialOrd, Hash)]
pub enum TypeTlsActivation {
    TlsActivation,
}

impl TypeTlsActivation {
    /// The name of the type on the wire.
    pub open spec fn name(self) -> Seq<char> {
        match self {
            TypeTlsActivation::TlsActivation => "tls_activation"@,
        }
    }

    /// The name of the type on the wire.
    pub fn to_string(&self) -> (name: String)
        ensures
            name@ == self.name(),
    {
        match self {
            TypeTlsActivation::TlsActivation => "tls_activation".to_owned(),
        }
    }
}

impl Default for TypeTlsActivation {
    fn default() -> (kind: TypeTlsActivation)
        ensures
            kind == TypeTlsActivation::TlsActivation,
    {
        TypeTlsActivation::TlsActivation
    }
}

} // verus!
