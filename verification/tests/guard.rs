use decision_api::{
    require_authenticated, require_owner_or_superuser, require_superuser, AuthUser, ErrorKind,
    RequestContext,
};

const U1: u128 = 0x550e8400_e29b_41d4_a716_446655440000;
const U2: u128 = 0x550e8400_e29b_41d4_a716_446655440001;

#[test]
fn another_users_record_is_forbidden() {
    let identity = AuthUser { id: U1, is_superuser: false };
    assert_eq!(require_owner_or_superuser(&identity, U2), Err(ErrorKind::Forbidden));
}

#[test]
fn own_record_is_granted() {
    let identity = AuthUser { id: U1, is_superuser: false };
    assert_eq!(require_owner_or_superuser(&identity, U1), Ok(()));
}

#[test]
fn superuser_is_granted_every_record() {
    let identity = AuthUser { id: U1, is_superuser: true };
    assert_eq!(require_owner_or_superuser(&identity, U2), Ok(()));
    assert_eq!(require_owner_or_superuser(&identity, U1), Ok(()));
    assert_eq!(require_owner_or_superuser(&identity, 0), Ok(()));
    assert_eq!(require_owner_or_superuser(&identity, u128::MAX), Ok(()));
}

#[test]
fn ownership_is_by_the_whole_identifier() {
    let identity = AuthUser { id: 1 << 127, is_superuser: false };
    assert_eq!(require_owner_or_superuser(&identity, 0), Err(ErrorKind::Forbidden));
    assert_eq!(require_owner_or_superuser(&identity, 1 << 127), Ok(()));
    let zero = AuthUser { id: 0, is_superuser: false };
    assert_eq!(require_owner_or_superuser(&zero, 0), Ok(()));
    assert_eq!(require_owner_or_superuser(&zero, 1), Err(ErrorKind::Forbidden));
}

#[test]
fn superuser_only_operations() {
    assert_eq!(require_superuser(&AuthUser { id: U1, is_superuser: true }), Ok(()));
    assert_eq!(
        require_superuser(&AuthUser { id: U1, is_superuser: false }),
        Err(ErrorKind::Forbidden)
    );
}

#[test]
fn request_without_identity_is_unauthenticated() {
    assert_eq!(require_authenticated(&RequestContext::anonymous()), Err(ErrorKind::Unauthenticated));
    assert_eq!(require_authenticated(&RequestContext::new(None)), Err(ErrorKind::Unauthenticated));
}

#[test]
fn request_with_identity_is_authenticated() {
    let identity = AuthUser { id: U1, is_superuser: false };
    let context = RequestContext::new(Some(identity));
    assert_eq!(require_authenticated(&context), Ok(identity));
    assert_eq!(context.identity(), Some(identity));
}

#[test]
fn anonymous_context_has_no_identity() {
    assert_eq!(RequestContext::anonymous().identity(), None);
}

#[test]
fn context_is_the_same_however_often_it_is_asked() {
    let identity = AuthUser { id: U2, is_superuser: true };
    let context = RequestContext::new(Some(identity));
    for _ in 0..3 {
        assert_eq!(context.identity(), Some(identity));
        assert_eq!(require_authenticated(&context), Ok(identity));
    }
}
