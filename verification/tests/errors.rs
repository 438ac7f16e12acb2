use lim_backend::errors::{
    Error, STATUS_CREATED, STATUS_GENERIC_FAILURE, STATUS_NOT_FOUND, STATUS_OK,
    STATUS_UNAUTHORIZED,
};
use lim_backend::protocol::{Body, Response};

#[test]
fn each_failure_has_its_status() {
    assert_eq!(Error::Unauthenticated.status(), 401);
    assert_eq!(Error::Unauthorized.status(), 401);
    assert_eq!(Error::NotFound.status(), 404);
    assert_eq!(Error::ProvisioningError.status(), 400);
    assert_eq!(Error::StoreError.status(), 400);
    assert_eq!(Error::SerializationError.status(), 400);
    assert_eq!(STATUS_OK, 200);
    assert_eq!(STATUS_CREATED, 201);
    assert_eq!(STATUS_GENERIC_FAILURE, 400);
    assert_eq!(STATUS_UNAUTHORIZED, 401);
    assert_eq!(STATUS_NOT_FOUND, 404);
}

#[test]
fn internal_failures_show_a_generic_message() {
    assert_eq!(Error::Unauthenticated.message(), "Unauthorized");
    assert_eq!(Error::Unauthorized.message(), "Unauthorized");
    assert_eq!(Error::NotFound.message(), "Not found");
    assert_eq!(Error::ProvisioningError.message(), "Something didn't work!");
    assert_eq!(Error::StoreError.message(), "Something didn't work!");
    assert_eq!(Error::SerializationError.message(), "Serialization error");
    assert!(Error::ProvisioningError.internal());
    assert!(Error::StoreError.internal());
    assert!(Error::SerializationError.internal());
    assert!(!Error::Unauthenticated.internal());
    assert!(!Error::Unauthorized.internal());
    assert!(!Error::NotFound.internal());
}

#[test]
fn responses_carry_the_status_of_their_kind() {
    let ok = Response::ok(Body::Jobs(Vec::new()));
    assert_eq!(ok.status, 200);
    assert_eq!(ok.error(), None);
    let created = Response::created(Body::Jobs(Vec::new()));
    assert_eq!(created.status, 201);
    assert_eq!(created.error(), None);
    let failed = Response::failure(Error::NotFound);
    assert_eq!(failed.status, 404);
    assert_eq!(failed.error(), Some(Error::NotFound));
    assert!(matches!(failed.body, Body::Failure(Error::NotFound)));
}
