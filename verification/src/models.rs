//! Records exchanged with the API.

pub mod relationship_member_tls_activation;
pub mod store_response;
pub mod sudo_generic_token_error;
pub mod type_invitation;
pub mod type_tls_activation;

pub use self::relationship_member_tls_activation::RelationshipMemberTlsActivation;
pub use self::store_response::StoreResponse;
pub use self::sudo_generic_token_error::SudoGenericTokenError;
pub use self::type_invitation::TypeInvitation;
pub use self::type_tls_activation::TypeTlsActivation;
