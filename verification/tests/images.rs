use lim_backend::backend::Backend;
use lim_backend::errors::Error;
use lim_backend::ids::Uuid;
use lim_backend::images::CreateImage;
use lim_backend::models::{Image, ImageVersion, User};
use lim_backend::protocol::{Body, Response};
use lim_backend::session::SessionResponse;

struct TestUser {
    id: Uuid,
}

fn create_user_and_session_helper(app: &mut Backend, name: &str) -> (TestUser, SessionResponse) {
    let email = format!("test-{}@lionfi.sh", name);
    let created = app.create_user(&email, "abceasyas123");
    assert_eq!(created.status, 201, "It should have a created status");
    let id = match created.body {
        Body::User(user) => user.id,
        other => panic!("expected a user, got {:?}", other),
    };
    let session = app.create_session(&email, "abceasyas123");
    assert_eq!(session.status, 201, "It should have a created status");
    match session.body {
        Body::Session(session) => (TestUser { id }, session),
        other => panic!("expected a session, got {:?}", other),
    }
}

fn resolve(app: &mut Backend, authorization: &str) -> Result<User, Response> {
    let response = app.authenticate(Some(authorization), None);
    match response.body {
        Body::Identity(user) => Ok(user),
        body => Err(Response { status: response.status, body }),
    }
}

fn post_image(app: &mut Backend, authorization: &str, name: &str) -> Response {
    match resolve(app, authorization) {
        Ok(user) => app.create_image(
            Some(&user),
            CreateImage {
                nickname: format!("test-{}", name),
                image_url: format!("https://registry.lionfi.sh/images/test-{}", name),
            },
        ),
        Err(response) => response,
    }
}

fn get_images(app: &mut Backend, authorization: &str) -> Response {
    match resolve(app, authorization) {
        Ok(user) => app.get_images(Some(&user)),
        Err(response) => response,
    }
}

fn get_image_versions(app: &mut Backend, authorization: &str, image_id: Uuid) -> Response {
    match resolve(app, authorization) {
        Ok(user) => app.get_image_versions(Some(&user), image_id),
        Err(response) => response,
    }
}

fn create_image_helper(app: &mut Backend, _user_id: &Uuid, session_token: &str) -> Image {
    let response = post_image(app, &format!("Bearer {session_token}"), "image");
    assert_eq!(response.status, 201, "It should have a created status");
    match response.body {
        Body::Image(image) => image,
        other => panic!("expected an image, got {:?}", other),
    }
}

fn images_of(response: Response) -> Vec<Image> {
    match response.body {
        Body::Images(images) => images,
        other => panic!("expected images, got {:?}", other),
    }
}

fn versions_of(response: Response) -> Vec<ImageVersion> {
    match response.body {
        Body::Versions(versions) => versions,
        other => panic!("expected versions, got {:?}", other),
    }
}

#[test]
fn create_image_should_work() {
    let mut test_app = Backend::new(0, 1_209_600);

    let (test_user, session) = create_user_and_session_helper(&mut test_app, "first");
    let _ = create_image_helper(&mut test_app, &test_user.id, &session.token);
}

#[test]
fn get_images_should_work() {
    let mut test_app = Backend::new(0, 1_209_600);

    let (test_user, session) = create_user_and_session_helper(&mut test_app, "first");
    let _ = create_image_helper(&mut test_app, &test_user.id, &session.token);

    let response = get_images(&mut test_app, &format!("Bearer {}", session.token));
    assert_eq!(response.status, 200, "It should have an OK status");
    let images = images_of(response);

    assert_eq!(images.len(), 1, "It should have a image");
}

#[test]
fn get_images_should_retrieve_for_a_single_user() {
    let mut test_app = Backend::new(0, 1_209_600);

    // First user
    let (test_user, session) = create_user_and_session_helper(&mut test_app, "first");
    let _ = create_image_helper(&mut test_app, &test_user.id, &session.token);

    // Second user
    let (test_user, session) = create_user_and_session_helper(&mut test_app, "second");
    let image = create_image_helper(&mut test_app, &test_user.id, &session.token);

    let response = get_images(&mut test_app, &format!("Bearer {}", session.token));
    assert_eq!(response.status, 200, "It should have an OK status");
    let images = images_of(response);

    assert_eq!(images.len(), 1, "It should have a single image");
    assert_eq!(images[0].id, image.id);
    assert_eq!(images[0].user_id, test_user.id);
}

#[test]
fn get_images_should_require_a_valid_session() {
    let mut test_app = Backend::new(0, 1_209_600);

    let (_test_user, session) = create_user_and_session_helper(&mut test_app, "first");
    let response = get_images(&mut test_app, &format!("Bearer {}z", session.token));
    assert_eq!(response.status, 401, "It should have an unauthorized status");
}

#[test]
fn get_image_version_should_work() {
    let mut test_app = Backend::new(0, 1_209_600);

    let (test_user, session) = create_user_and_session_helper(&mut test_app, "first");
    let image = create_image_helper(&mut test_app, &test_user.id, &session.token);

    let response =
        get_image_versions(&mut test_app, &format!("Bearer {}", session.token), image.id);
    assert_eq!(response.status, 200, "It should have an OK status");
    let image_versions = versions_of(response);

    assert_eq!(image_versions.len(), 1, "It should have an image version");
}

#[test]
fn get_image_versions_should_require_a_valid_session() {
    let mut test_app = Backend::new(0, 1_209_600);

    let (test_user, session) = create_user_and_session_helper(&mut test_app, "first");
    let image = create_image_helper(&mut test_app, &test_user.id, &session.token);

    let response =
        get_image_versions(&mut test_app, &format!("Bearer {}z", session.token), image.id);
    assert_eq!(response.status, 401, "It should have an unauthorized status");
}

#[test]
fn get_image_versions_should_require_a_valid_session_from_the_owning_user() {
    let mut test_app = Backend::new(0, 1_209_600);

    let (test_user, session) = create_user_and_session_helper(&mut test_app, "first");
    let image = create_image_helper(&mut test_app, &test_user.id, &session.token);
    let (_test_user, session) = create_user_and_session_helper(&mut test_app, "second");

    let response =
        get_image_versions(&mut test_app, &format!("Bearer {}", session.token), image.id);
    assert_eq!(response.status, 401, "It should have an unauthorized status");
    assert_eq!(response.error(), Some(Error::Unauthorized));
}

#[test]
fn owner_sees_exactly_the_version_the_image_was_created_with() {
    let mut app = Backend::new(5, 1_209_600);
    let (user_a, session_a) = create_user_and_session_helper(&mut app, "a");
    let (_user_b, session_b) = create_user_and_session_helper(&mut app, "b");
    app.set_time(77);
    let image = create_image_helper(&mut app, &user_a.id, &session_a.token);
    assert_eq!(image.user_id, user_a.id);
    assert_eq!(image.nickname, "test-image");
    assert_eq!(image.image_url, "https://registry.lionfi.sh/images/test-image");
    assert_eq!(image.created_at, 77);

    let refused = get_image_versions(&mut app, &format!("Bearer {}", session_b.token), image.id);
    assert_eq!(refused.error(), Some(Error::Unauthorized));

    let shown = get_image_versions(&mut app, &format!("Bearer {}", session_a.token), image.id);
    let versions = versions_of(shown);
    assert_eq!(versions.len(), 1);
    assert_eq!(versions[0].image_id, image.id);
    assert_eq!(versions[0].version_number, "latest");
    assert_eq!(versions[0].hash, "");
    assert_eq!(versions[0].created_at, 77);
    assert_ne!(versions[0].id, image.id);
}

#[test]
fn versions_of_an_unknown_image_are_not_found() {
    let mut app = Backend::new(0, 1_209_600);
    let (_user, session) = create_user_and_session_helper(&mut app, "a");
    let response = get_image_versions(
        &mut app,
        &format!("Bearer {}", session.token),
        Uuid::from_u128(0xdead_beef),
    );
    assert_eq!(response.status, 404);
    assert_eq!(response.error(), Some(Error::NotFound));
}

#[test]
fn images_are_listed_oldest_first() {
    let mut app = Backend::new(0, 1_209_600);
    let (_user, session) = create_user_and_session_helper(&mut app, "a");
    let credential = format!("Bearer {}", session.token);
    let mut created = Vec::new();
    for name in ["one", "two", "three"] {
        match post_image(&mut app, &credential, name).body {
            Body::Image(image) => created.push(image.id),
            other => panic!("expected an image, got {:?}", other),
        }
    }
    let listed: Vec<Uuid> =
        images_of(get_images(&mut app, &credential)).iter().map(|image| image.id).collect();
    assert_eq!(listed, created);
}

#[test]
fn handlers_without_a_user_are_unauthenticated() {
    let mut app = Backend::new(0, 1_209_600);
    let request = CreateImage { nickname: "demo".to_string(), image_url: "r/demo".to_string() };
    assert_eq!(app.create_image(None, request).error(), Some(Error::Unauthenticated));
    assert_eq!(app.get_images(None).error(), Some(Error::Unauthenticated));
    assert_eq!(
        app.get_image_versions(None, Uuid::from_u128(0)).error(),
        Some(Error::Unauthenticated)
    );
}
