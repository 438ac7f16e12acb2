use lim_backend::backend::Backend;
use lim_backend::errors::Error;
use lim_backend::models::{NonSecureUser, User};
use lim_backend::protocol::{Body, Response};
use lim_backend::session::SessionResponse;

struct TestUser {
    email: String,
    password: String,
    id: lim_backend::ids::Uuid,
}

fn create_user_helper(app: &mut Backend, name: &str) -> TestUser {
    let email = format!("test-{}@lionfi.sh", name);
    let password = "abceasyas123".to_string();
    let response = app.create_user(&email, &password);
    assert_eq!(response.status, 201, "It should have a created status");
    let non_secure_user: NonSecureUser = match response.body {
        Body::User(user) => user,
        other => panic!("expected a user, got {:?}", other),
    };
    assert_eq!(non_secure_user.email, email);
    TestUser { email, password, id: non_secure_user.id }
}

fn create_session_helper(app: &mut Backend, test_user: &TestUser) -> SessionResponse {
    let response = app.create_session(&test_user.email, &test_user.password);
    assert_eq!(response.status, 201, "It should have a created status");
    match response.body {
        Body::Session(session) => session,
        other => panic!("expected a session, got {:?}", other),
    }
}

fn create_user_and_session_helper(app: &mut Backend, name: &str) -> (TestUser, SessionResponse) {
    let test_user = create_user_helper(app, name);
    let session = create_session_helper(app, &test_user);
    (test_user, session)
}

fn resolve(app: &mut Backend, authorization: &str) -> Result<User, Response> {
    let response = app.authenticate(Some(authorization), None);
    match response.body {
        Body::Identity(user) => Ok(user),
        body => Err(Response { status: response.status, body }),
    }
}

fn get_identity(app: &mut Backend, authorization: &str) -> Response {
    match resolve(app, authorization) {
        Ok(user) => app.get_user(Some(&user)),
        Err(response) => response,
    }
}

#[test]
fn create_user_should_work() {
    let mut test_app = Backend::new(0, 1_209_600);

    let _ = create_user_helper(&mut test_app, "first");
}

#[test]
fn get_identity_should_return_the_current_users_identity() {
    let mut test_app = Backend::new(0, 1_209_600);

    let (test_user, session) = create_user_and_session_helper(&mut test_app, "first");
    let response = get_identity(&mut test_app, &format!("Bearer {}", session.token));
    assert_eq!(response.status, 200, "It should have an OK status");
    let non_secure_user = match response.body {
        Body::User(user) => user,
        other => panic!("expected a user, got {:?}", other),
    };

    assert_eq!(test_user.email, non_secure_user.email, "It should return the same user");
    assert_eq!(test_user.id, non_secure_user.id);
}

#[test]
fn get_identity_should_require_a_valid_session() {
    let mut test_app = Backend::new(0, 1_209_600);

    let (_test_user, session) = create_user_and_session_helper(&mut test_app, "first");
    let response = get_identity(&mut test_app, &format!("Bearer {}z", session.token));
    assert_eq!(response.status, 401, "It should have an unauthorized status");
    assert_eq!(response.error(), Some(Error::Unauthenticated));
}

#[test]
fn registration_asks_for_a_namespace_named_by_the_user() {
    let mut app = Backend::new(0, 1_209_600);
    let user = create_user_helper(&mut app, "first");
    assert_eq!(app.provisioner().apps_requested(), 1);
    let request = app.provisioner().app_request(0).unwrap();
    assert_eq!(request.app_name, user.id.to_text());
    assert_eq!(request.org_slug, "peter-mertz");
}

#[test]
fn registration_with_a_taken_email_is_refused_and_writes_nothing() {
    let mut app = Backend::new(0, 1_209_600);
    let first = create_user_helper(&mut app, "first");
    let again = app.create_user(&first.email, "another-password");
    assert_eq!(again.status, 400);
    assert_eq!(again.error(), Some(Error::StoreError));
    assert_eq!(app.provisioner().apps_requested(), 1);
    let login = app.create_session(&first.email, "another-password");
    assert_eq!(login.error(), Some(Error::Unauthenticated));
}

#[test]
fn registration_is_rolled_back_when_the_namespace_cannot_be_created() {
    let mut app = Backend::new(0, 1_209_600);
    app.set_provisioning(false);
    let response = app.create_user("test-first@lionfi.sh", "abceasyas123");
    assert_eq!(response.error(), Some(Error::ProvisioningError));
    assert_eq!(response.status, 400);
    assert_eq!(app.provisioner().apps_requested(), 1);
    let login = app.create_session("test-first@lionfi.sh", "abceasyas123");
    assert_eq!(login.error(), Some(Error::Unauthenticated));
    app.set_provisioning(true);
    let retried = app.create_user("test-first@lionfi.sh", "abceasyas123");
    assert_eq!(retried.status, 201);
}

#[test]
fn registration_without_a_hash_is_refused() {
    let mut app = Backend::new(0, 1_209_600);
    let response = app.create_user_with_hash("test-first@lionfi.sh", None);
    assert_eq!(response.error(), Some(Error::StoreError));
    assert_eq!(app.provisioner().apps_requested(), 0);
}

#[test]
fn identity_without_a_user_is_unauthenticated() {
    let mut app = Backend::new(0, 1_209_600);
    let response = app.get_user(None);
    assert_eq!(response.status, 401);
    assert_eq!(response.error(), Some(Error::Unauthenticated));
}

#[test]
fn shown_user_carries_no_password_hash() {
    let user = User {
        id: lim_backend::ids::Uuid::from_u128(7),
        email: "a@example.com".to_string(),
        password_hash: "secret".to_string(),
        created_at: 42,
    };
    let shown = user.to_public();
    assert_eq!(shown.id, user.id);
    assert_eq!(shown.email, "a@example.com");
    assert_eq!(shown.created_at, 42);
    assert!(!format!("{:?}", shown).contains("secret"));
}
