use lim_backend::backend::Backend;
use lim_backend::errors::Error;
use lim_backend::ids::Uuid;
use lim_backend::images::CreateImage;
use lim_backend::jobs::CreateJob;
use lim_backend::models::{Image, ImageVersion, Job, JobStatus, User};
use lim_backend::protocol::{Body, Response};
use lim_backend::session::SessionResponse;

struct TestUser {
    id: Uuid,
}

fn create_user_and_session_helper(app: &mut Backend, name: &str) -> (TestUser, SessionResponse) {
    let email = format!("test-{}@lionfi.sh", name);
    let created = app.create_user(&email, "abceasyas123");
    assert_eq!(created.status, 201, "It should have a created status");
    let id = match created.body {
        Body::User(user) => user.id,
        other => panic!("expected a user, got {:?}", other),
    };
    let session = app.create_session(&email, "abceasyas123");
    assert_eq!(session.status, 201, "It should have a created status");
    match session.body {
        Body::Session(session) => (TestUser { id }, session),
        other => panic!("expected a session, got {:?}", other),
    }
}

fn resolve(app: &mut Backend, authorization: &str) -> Result<User, Response> {
    let response = app.authenticate(Some(authorization), None);
    match response.body {
        Body::Identity(user) => Ok(user),
        body => Err(Response { status: response.status, body }),
    }
}

fn create_image_helper(app: &mut Backend, _user_id: &Uuid, session_token: &str) -> Image {
    let user = resolve(app, &format!("Bearer {session_token}")).expect("Should correctly resolve");
    let response = app.create_image(
        Some(&user),
        CreateImage {
            nickname: "test-image".to_string(),
            image_url: "https://registry.lionfi.sh/images/test-image".to_string(),
        },
    );
    assert_eq!(response.status, 201, "It should have a created status");
    match response.body {
        Body::Image(image) => image,
        other => panic!("expected an image, got {:?}", other),
    }
}

fn image_versions_helper(app: &mut Backend, session_token: &str, image: &Image) -> Vec<ImageVersion> {
    let user = resolve(app, &format!("Bearer {session_token}")).expect("Should correctly resolve");
    let response = app.get_image_versions(Some(&user), image.id);
    assert_eq!(response.status, 200, "It should have an ok status");
    match response.body {
        Body::Versions(versions) => versions,
        other => panic!("expected versions, got {:?}", other),
    }
}

fn post_job(app: &mut Backend, authorization: &str, request: CreateJob) -> Response {
    match resolve(app, authorization) {
        Ok(user) => app.create_job(Some(&user), request),
        Err(response) => response,
    }
}

fn get_jobs(app: &mut Backend, authorization: &str) -> Response {
    match resolve(app, authorization) {
        Ok(user) => app.get_jobs(Some(&user)),
        Err(response) => response,
    }
}

fn create_job_helper(app: &mut Backend, user_id: &Uuid, session_token: &str) -> Job {
    let image = create_image_helper(app, user_id, session_token);
    let image_versions = image_versions_helper(app, session_token, &image);
    let response = post_job(
        app,
        &format!("Bearer {session_token}"),
        CreateJob {
            image_id: image.id,
            image_version_id: image_versions.get(0).unwrap().id,
            cpu: "shared".to_string(),
            gpu: "none".to_string(),
        },
    );
    assert_eq!(response.status, 201, "It should have a created status");
    match response.body {
        Body::Job(job) => job,
        other => panic!("expected a job, got {:?}", other),
    }
}

fn jobs_of(response: Response) -> Vec<Job> {
    match response.body {
        Body::Jobs(jobs) => jobs,
        other => panic!("expected jobs, got {:?}", other),
    }
}

#[test]
fn create_job_should_work() {
    let mut test_app = Backend::new(0, 1_209_600);

    let (test_user, session) = create_user_and_session_helper(&mut test_app, "first");
    let _ = create_job_helper(&mut test_app, &test_user.id, &session.token);
}

#[test]
fn get_jobs_should_work() {
    let mut test_app = Backend::new(0, 1_209_600);

    let (test_user, session) = create_user_and_session_helper(&mut test_app, "first");
    let _ = create_job_helper(&mut test_app, &test_user.id, &session.token);

    let response = get_jobs(&mut test_app, &format!("Bearer {}", session.token));
    assert_eq!(response.status, 200, "It should have an OK status");
    let jobs = jobs_of(response);

    assert_eq!(jobs.len(), 1, "It should have a job");
}

#[test]
fn get_jobs_should_retrieve_for_a_single_user() {
    let mut test_app = Backend::new(0, 1_209_600);

    // First user
    let (test_user, session) = create_user_and_session_helper(&mut test_app, "first");
    let _ = create_job_helper(&mut test_app, &test_user.id, &session.token);

    // Second user
    let (test_user, session) = create_user_and_session_helper(&mut test_app, "second");
    let job = create_job_helper(&mut test_app, &test_user.id, &session.token);

    let response = get_jobs(&mut test_app, &format!("Bearer {}", session.token));
    assert_eq!(response.status, 200, "It should have an OK status");
    let jobs = jobs_of(response);

    assert_eq!(jobs.len(), 1, "It should have a single job");
    assert_eq!(jobs[0], job);
    assert_eq!(jobs[0].user_id, test_user.id);
}

#[test]
fn get_jobs_should_require_a_valid_session() {
    let mut test_app = Backend::new(0, 1_209_600);

    let (_test_user, session) = create_user_and_session_helper(&mut test_app, "first");
    let response = get_jobs(&mut test_app, &format!("Bearer {}z", session.token));
    assert_eq!(response.status, 401, "It should have an unauthorized status");
}

#[test]
fn job_on_a_foreign_image_is_unauthorized_and_writes_nothing() {
    let mut app = Backend::new(0, 1_209_600);
    let (owner, owner_session) = create_user_and_session_helper(&mut app, "owner");
    let (_other, other_session) = create_user_and_session_helper(&mut app, "other");
    let image = create_image_helper(&mut app, &owner.id, &owner_session.token);
    let versions = image_versions_helper(&mut app, &owner_session.token, &image);

    let response = post_job(
        &mut app,
        &format!("Bearer {}", other_session.token),
        CreateJob {
            image_id: image.id,
            image_version_id: versions[0].id,
            cpu: "shared".to_string(),
            gpu: "none".to_string(),
        },
    );
    assert_eq!(response.status, 401);
    assert_eq!(response.error(), Some(Error::Unauthorized));
    assert_eq!(app.provisioner().machines_requested(), 0);
    assert!(jobs_of(get_jobs(&mut app, &format!("Bearer {}", other_session.token))).is_empty());
    assert!(jobs_of(get_jobs(&mut app, &format!("Bearer {}", owner_session.token))).is_empty());
}

#[test]
fn job_is_rolled_back_when_provisioning_fails() {
    let mut app = Backend::new(0, 1_209_600);
    let (user, session) = create_user_and_session_helper(&mut app, "first");
    let credential = format!("Bearer {}", session.token);
    let image = create_image_helper(&mut app, &user.id, &session.token);
    let versions = image_versions_helper(&mut app, &session.token, &image);
    app.set_provisioning(false);

    let response = post_job(
        &mut app,
        &credential,
        CreateJob {
            image_id: image.id,
            image_version_id: versions[0].id,
            cpu: "shared".to_string(),
            gpu: "none".to_string(),
        },
    );
    assert_eq!(response.error(), Some(Error::ProvisioningError));
    assert_eq!(response.status, 400);
    assert_eq!(Error::ProvisioningError.message(), "Something didn't work!");
    assert!(jobs_of(get_jobs(&mut app, &credential)).is_empty());
    assert_eq!(app.provisioner().machines_requested(), 1);

    app.set_provisioning(true);
    let retried = post_job(
        &mut app,
        &credential,
        CreateJob {
            image_id: image.id,
            image_version_id: versions[0].id,
            cpu: "shared".to_string(),
            gpu: "none".to_string(),
        },
    );
    assert_eq!(retried.status, 201);
    assert_eq!(jobs_of(get_jobs(&mut app, &credential)).len(), 1);
    assert_eq!(app.provisioner().machines_requested(), 2);
}

#[test]
fn job_on_an_unknown_image_or_version_is_not_found() {
    let mut app = Backend::new(0, 1_209_600);
    let (user, session) = create_user_and_session_helper(&mut app, "first");
    let credential = format!("Bearer {}", session.token);
    let image = create_image_helper(&mut app, &user.id, &session.token);
    let other_image = create_image_helper(&mut app, &user.id, &session.token);
    let other_versions = image_versions_helper(&mut app, &session.token, &other_image);

    let no_image = post_job(
        &mut app,
        &credential,
        CreateJob {
            image_id: Uuid::from_u128(0xffff),
            image_version_id: other_versions[0].id,
            cpu: "shared".to_string(),
            gpu: "none".to_string(),
        },
    );
    assert_eq!(no_image.status, 404);
    assert_eq!(no_image.error(), Some(Error::NotFound));

    let no_version = post_job(
        &mut app,
        &credential,
        CreateJob {
            image_id: image.id,
            image_version_id: Uuid::from_u128(0xffff),
            cpu: "shared".to_string(),
            gpu: "none".to_string(),
        },
    );
    assert_eq!(no_version.error(), Some(Error::NotFound));

    let version_of_another_image = post_job(
        &mut app,
        &credential,
        CreateJob {
            image_id: image.id,
            image_version_id: other_versions[0].id,
            cpu: "shared".to_string(),
            gpu: "none".to_string(),
        },
    );
    assert_eq!(version_of_another_image.error(), Some(Error::NotFound));
    assert_eq!(app.provisioner().machines_requested(), 0);
    assert!(jobs_of(get_jobs(&mut app, &credential)).is_empty());
}

#[test]
fn machine_is_asked_for_with_the_image_reference_and_the_kinds() {
    let mut app = Backend::new(0, 1_209_600);
    let (user, session) = create_user_and_session_helper(&mut app, "first");
    let job = create_job_helper(&mut app, &user.id, &session.token);
    assert_eq!(job.status, JobStatus::Pending);
    assert_eq!(job.user_id, user.id);
    assert_eq!(app.provisioner().machines_requested(), 1);
    let machine = app.provisioner().machine_request(0).unwrap();
    assert_eq!(machine.app_id, user.id.to_text());
    assert_eq!(machine.image, "https://registry.lionfi.sh/images/test-image:latest");
    assert_eq!(machine.cpu_kind, "shared");
    assert_eq!(machine.gpu_kind, "none");
    assert_eq!(machine.region, "ord");
    assert_eq!(machine.cpus, 4);
    assert_eq!(machine.memory_mb, 16384);
    assert!(app.provisioner().machine_request(1).is_none());
}

#[test]
fn jobs_are_listed_oldest_first() {
    let mut app = Backend::new(0, 1_209_600);
    let (user, session) = create_user_and_session_helper(&mut app, "first");
    let first = create_job_helper(&mut app, &user.id, &session.token);
    app.set_time(10);
    let second = create_job_helper(&mut app, &user.id, &session.token);
    let jobs = jobs_of(get_jobs(&mut app, &format!("Bearer {}", session.token)));
    assert_eq!(jobs, vec![first, second]);
    assert_eq!(second.created_at, 10);
    assert_eq!(second.updated_at, 10);
}

#[test]
fn job_handlers_without_a_user_are_unauthenticated() {
    let mut app = Backend::new(0, 1_209_600);
    let request = CreateJob {
        image_id: Uuid::from_u128(1),
        image_version_id: Uuid::from_u128(2),
        cpu: "shared".to_string(),
        gpu: "none".to_string(),
    };
    assert_eq!(app.create_job(None, request).error(), Some(Error::Unauthenticated));
    assert_eq!(app.get_jobs(None).error(), Some(Error::Unauthenticated));
    assert_eq!(app.provisioner().machines_requested(), 0);
}
