use fastly_api::models::{
    RelationshipMemberTlsActivation, StoreResponse, SudoGenericTokenError, TypeInvitation,
    TypeTlsActivation,
};

#[test]
fn store_response_starts_empty() {
    let record = StoreResponse::new();
    assert_eq!(record.id, None);
    assert_eq!(record.name, None);
    assert_eq!(record, StoreResponse::default());
}

#[test]
fn sudo_generic_token_error_starts_empty() {
    let record = SudoGenericTokenError::new();
    assert_eq!(record.msg, None);
    assert_eq!(record, SudoGenericTokenError::default());
}

#[test]
fn relationship_member_starts_empty() {
    let record = RelationshipMemberTlsActivation::new();
    assert_eq!(record._type, None);
    assert_eq!(record.id, None);
    assert_eq!(record, RelationshipMemberTlsActivation::default());
}

#[test]
fn type_invitation_is_named_on_the_wire() {
    assert_eq!(TypeInvitation::Invitation.to_string(), "invitation");
    assert_eq!(TypeInvitation::default(), TypeInvitation::Invitation);
}

#[test]
fn type_tls_activation_is_named_on_the_wire() {
    assert_eq!(TypeTlsActivation::TlsActivation.to_string(), "tls_activation");
    assert_eq!(TypeTlsActivation::default(), TypeTlsActivation::TlsActivation);
}
