//! What holds of the backend whatever the requests.
//!
//! Each law is stated of the functions of [`BackendView`] that say what
//! the handlers come to, and so holds of the handlers run against the
//! backend in memory.

use vstd::prelude::*;
use crate::backend::BackendView;
use crate::credentials::{expiry, live_session};
use crate::errors::Error;
use crate::ids::Uuid;
use crate::images::{first_version_hash, first_version_number, CreateImageView};
use crate::jobs::CreateJobView;
use crate::models::{ImageVersionView, ImageView, Job, JobStatus};
use crate::ownership::{find_version, find_version_found};
use crate::passwords::password_matches;
use crate::protocol::{BodyView, ResponseView};
use crate::records::{email_at, image_at, user_at, RecordsView};
use crate::session::{
    bearer_credential, bearer_round_trip, presented_token, session_key, session_response_for,
};

verus! {

impl BackendView {
    /// Whether the backend stands between two requests: its records are
    /// consistent and no transaction is open.
    pub open spec fn ready(self) -> bool {
        self.records.wf() && self.records.transaction is None
    }

    /// The backend at another moment.
    pub open spec fn at(self, now: crate::models::Timestamp) -> BackendView {
        BackendView { now, ..self }
    }
}

/// A user who has just registered can log in, and the token handed out
/// resolves to that user: at once, and at every moment before the
/// session's time is up.
///
/// `password_hash` is a hash that accepts `password`, as hashing the
/// password gives. The session lifetime must not be zero: a session that
/// lives for no time is never live.
pub proof fn registered_user_logs_in(
    backend: BackendView,
    email: Seq<char>,
    password: Seq<char>,
    password_hash: Seq<char>,
    token: Seq<char>,
    cookie: Option<Seq<char>>,
    later: crate::models::Timestamp,
)
    requires
        backend.ready(),
        backend.session_ttl > 0,
        password_matches(password, password_hash),
        backend.create_user(email, Some(password_hash)).1.error() is None,
        backend.now <= later < expiry(backend.now, backend.session_ttl),
    ensures
        ({
            let registered = backend.create_user(email, Some(password_hash));
            let logged_in = registered.0.create_session(email, password, token);
            let resolved = logged_in.0.at(later).authenticate(
                Some(bearer_credential(token)),
                cookie,
            );
            &&& registered.1.body matches BodyView::User(shown)
            &&& logged_in.1 == ResponseView::created(
                BodyView::Session(session_response_for(token)),
            )
            &&& resolved.body matches BodyView::Identity(user)
            &&& resolved == ResponseView::ok(BodyView::Identity(user))
            &&& user.id == shown.id
            &&& user.email == email
        }),
{
    let records = backend.records;
    let user = records.new_user(email, password_hash, backend.now);
    let registered = backend.create_user(email, Some(password_hash));
    let after = registered.0.records;
    assert(after == records.with_user(user));
    assert(after.users[records.users.len() as int] == user);
    records.with_user_is_consistent(user);
    after.email_found(email, records.users.len() as int);
    after.user_found(user.id, records.users.len() as int);
    bearer_round_trip(token);
}

/// A request that presents no token, or a token under whose session key
/// the credential store holds no live entry, is unauthenticated. It is
/// never let through and never fails otherwise. This covers the missing
/// credential, the credential without the `Bearer ` prefix, the empty
/// token and the token that was never issued or has expired.
pub proof fn unknown_token_is_unauthenticated(
    backend: BackendView,
    header: Option<Seq<char>>,
    cookie: Option<Seq<char>>,
)
    requires
        presented_token(header, cookie) matches Some(token) ==> live_session(
            backend.sessions,
            session_key(token),
            backend.now,
        ) is None,
    ensures
        backend.authenticate(header, cookie) == ResponseView::failure(Error::Unauthenticated),
{
}

/// A session is live or absent, and nothing else: a token resolves to a
/// user exactly while the credential store holds a live entry under its
/// session key.
pub proof fn session_is_live_or_absent(
    backend: BackendView,
    header: Option<Seq<char>>,
    cookie: Option<Seq<char>>,
)
    ensures
        backend.authenticate(header, cookie).error() != Some(Error::Unauthenticated) <==> (
        presented_token(header, cookie) matches Some(token) && live_session(
            backend.sessions,
            session_key(token),
            backend.now,
        ) is Some),
{
}

/// A request to run an image that the requester does not own is
/// unauthorized, and leaves the backend as it was: no job row is written
/// and the provisioning service is not asked for anything.
pub proof fn foreign_image_runs_no_job(
    backend: BackendView,
    user_id: Uuid,
    request: CreateJobView,
)
    requires
        backend.ready(),
        backend.records.image(request.image_id) matches Some(image) && image.user_id != user_id,
    ensures
        backend.create_job(Some(user_id), request) == (
            backend,
            ResponseView::failure(Error::Unauthorized),
        ),
{
}

/// Whether a request to run an image version passes every check: the
/// image exists, the requester owns it, the version is one of its
/// versions, and the store has room for the job row.
pub open spec fn job_request_is_valid(
    backend: BackendView,
    user_id: Uuid,
    request: CreateJobView,
) -> bool {
    &&& backend.records.image(request.image_id) matches Some(image) && image.user_id == user_id
    &&& find_version(
        backend.records.versions_of_image(request.image_id),
        request.image_id,
        request.image_version_id,
    ) is Some
    &&& backend.records.has_room()
}

/// While the provisioning service fails, no request to run an image
/// version leaves a job row, and a request that passes every check is
/// answered with a provisioning error.
pub proof fn failed_provisioning_leaves_no_job(
    backend: BackendView,
    user_id: Option<Uuid>,
    request: CreateJobView,
)
    requires
        backend.ready(),
        !backend.provisioner.reachable,
    ensures
        backend.create_job(user_id, request).0.records == backend.records,
        backend.create_job(user_id, request).1.error() is Some,
        user_id matches Some(requester) && job_request_is_valid(backend, requester, request)
            ==> backend.create_job(user_id, request).1 == ResponseView::failure(
            Error::ProvisioningError,
        ),
{
}

/// Whatever the answer to a request to run an image version, a job row
/// is written if and only if the request succeeded; and then it is the
/// one row added, pending, owned by the requester, on the version asked
/// for.
pub proof fn job_row_exactly_on_success(
    backend: BackendView,
    user_id: Option<Uuid>,
    request: CreateJobView,
)
    requires
        backend.ready(),
    ensures
        ({
            let outcome = backend.create_job(user_id, request);
            if outcome.1.error() is None {
                &&& outcome.1.body matches BodyView::Job(job)
                &&& outcome.0.records.jobs == backend.records.jobs.push(job)
                &&& job.status == JobStatus::Pending
                &&& Some(job.user_id) == user_id
                &&& job.image_version_id == request.image_version_id
                &&& outcome.1.status == crate::errors::STATUS_CREATED
            } else {
                outcome.0.records == backend.records
            }
        }),
{
    let outcome = backend.create_job(user_id, request);
    if outcome.1.error() is None {
        find_version_found(
            backend.records.versions_of_image(request.image_id),
            request.image_id,
            request.image_version_id,
        );
    }
}

/// Whether `later` holds everything that `earlier` holds, at the same
/// places. Rows are only ever added, so this is how a store changes.
pub open spec fn grown<A>(earlier: Seq<A>, later: Seq<A>) -> bool {
    &&& earlier.len() <= later.len()
    &&& forall|index: int| 0 <= index < earlier.len() ==> earlier[index] == later[index]
}

impl RecordsView {
    /// Whether the store has a user with the given identifier.
    pub open spec fn has_user(self, id: Uuid) -> bool {
        exists|index: int| user_at(self.users, id, index)
    }

    /// Whether the store has an image with the given identifier.
    pub open spec fn has_image(self, id: Uuid) -> bool {
        exists|index: int| image_at(self.images, id, index)
    }

    /// Whether an image stands at `index` with the given identifier and
    /// owner.
    pub open spec fn owned_at(self, user_id: Uuid, image_id: Uuid, index: int) -> bool {
        image_at(self.images, image_id, index) && self.images[index].user_id == user_id
    }

    /// Whether the user owns the image.
    pub open spec fn owns(self, user_id: Uuid, image_id: Uuid) -> bool {
        exists|index: int| self.owned_at(user_id, image_id, index)
    }

    /// Whether a version of the given image stands at `index`.
    pub open spec fn version_of_at(self, image_id: Uuid, index: int) -> bool {
        0 <= index < self.versions.len() && self.versions[index].image_id == image_id
    }

    /// Whether the image has a version.
    pub open spec fn has_version(self, image_id: Uuid) -> bool {
        exists|index: int| self.version_of_at(image_id, index)
    }

    /// Whether the version that a job runs stands at `index`, and
    /// belongs to an image that the job's user owns.
    pub open spec fn backed_at(self, job: Job, index: int) -> bool {
        &&& 0 <= index < self.versions.len()
        &&& self.versions[index].id == job.image_version_id
        &&& self.owns(job.user_id, self.versions[index].image_id)
    }

    /// Whether a job runs an existing version of an image that the job's
    /// user owns.
    pub open spec fn backs(self, job: Job) -> bool {
        exists|index: int| self.backed_at(job, index)
    }

    /// Whether this store holds everything that `earlier` holds.
    pub open spec fn grown_from(self, earlier: RecordsView) -> bool {
        &&& grown(earlier.users, self.users)
        &&& grown(earlier.images, self.images)
        &&& grown(earlier.versions, self.versions)
        &&& grown(earlier.jobs, self.jobs)
    }

    /// Whether every reference between rows leads somewhere: each version
    /// belongs to an existing image, each image has a version, and each
    /// job runs an existing version of an image that its user owns.
    pub open spec fn sound(self) -> bool {
        &&& forall|index: int|
            0 <= index < self.versions.len() ==> self.has_image(
                (#[trigger] self.versions[index]).image_id,
            )
        &&& forall|index: int|
            0 <= index < self.images.len() ==> self.has_version((#[trigger] self.images[index]).id)
        &&& forall|index: int| 0 <= index < self.jobs.len() ==> self.backs(#[trigger] self.jobs[index])
    }

    /// A store that has grown still has what it had.
    pub proof fn growth_keeps(self, earlier: RecordsView)
        requires
            self.grown_from(earlier),
        ensures
            forall|id: Uuid| #[trigger] earlier.has_user(id) ==> self.has_user(id),
            forall|id: Uuid| #[trigger] earlier.has_image(id) ==> self.has_image(id),
            forall|id: Uuid| #[trigger] earlier.has_version(id) ==> self.has_version(id),
            forall|user_id: Uuid, image_id: Uuid| #[trigger]
                earlier.owns(user_id, image_id) ==> self.owns(user_id, image_id),
            forall|job: Job| #[trigger] earlier.backs(job) ==> self.backs(job),
    {
        assert forall|id: Uuid| #[trigger] earlier.has_user(id) implies self.has_user(id) by {
            let index = choose|index: int| user_at(earlier.users, id, index);
            assert(user_at(self.users, id, index));
        }
        assert forall|id: Uuid| #[trigger] earlier.has_image(id) implies self.has_image(id) by {
            let index = choose|index: int| image_at(earlier.images, id, index);
            assert(image_at(self.images, id, index));
        }
        assert forall|id: Uuid| #[trigger] earlier.has_version(id) implies self.has_version(id) by {
            let index = choose|index: int| earlier.version_of_at(id, index);
            assert(self.version_of_at(id, index));
        }
        assert forall|user_id: Uuid, image_id: Uuid| #[trigger]
            earlier.owns(user_id, image_id) implies self.owns(user_id, image_id) by {
            let index = choose|index: int| earlier.owned_at(user_id, image_id, index);
            assert(self.owned_at(user_id, image_id, index));
        }
        assert forall|job: Job| #[trigger] earlier.backs(job) implies self.backs(job) by {
            let index = choose|index: int| earlier.backed_at(job, index);
            assert(earlier.backed_at(job, index));
            assert(earlier.owns(job.user_id, earlier.versions[index].image_id));
            assert(self.backed_at(job, index));
        }
    }
}

impl BackendView {
    /// Whether the backend stands between two requests with every
    /// reference in order: besides what `ready` and the records'
    /// soundness say, each session names an existing user.
    pub open spec fn sound(self) -> bool {
        &&& self.ready()
        &&& self.records.sound()
        &&& forall|key: Seq<char>| #[trigger]
            self.sessions.contains_key(key) ==> self.records.has_user(self.sessions[key].user_id)
    }
}

/// The backend that holds nothing is sound.
pub proof fn empty_backend_is_sound(backend: BackendView)
    requires
        backend.records == RecordsView::empty(),
        backend.sessions == Map::<Seq<char>, crate::credentials::Binding>::empty(),
    ensures
        backend.sound(),
{
}

/// Registration leaves a sound backend sound.
pub proof fn create_user_keeps_sound(
    backend: BackendView,
    email: Seq<char>,
    password_hash: Option<Seq<char>>,
)
    requires
        backend.sound(),
    ensures
        backend.create_user(email, password_hash).0.sound(),
{
    let after = backend.create_user(email, password_hash).0;
    if after.records != backend.records {
        let user = backend.records.new_user(email, password_hash->0, backend.now);
        backend.records.with_user_is_consistent(user);
        after.records.growth_keeps(backend.records);
        assert forall|index: int| 0 <= index < after.records.versions.len() implies
            after.records.has_image((#[trigger] after.records.versions[index]).image_id) by {
            assert(backend.records.has_image(backend.records.versions[index].image_id));
        }
        assert forall|index: int| 0 <= index < after.records.images.len() implies
            after.records.has_version((#[trigger] after.records.images[index]).id) by {
            assert(backend.records.has_version(backend.records.images[index].id));
        }
        assert forall|index: int| 0 <= index < after.records.jobs.len() implies after.records.backs(
            #[trigger] after.records.jobs[index],
        ) by {
            assert(backend.records.backs(backend.records.jobs[index]));
        }
        assert forall|key: Seq<char>| #[trigger] after.sessions.contains_key(key) implies
            after.records.has_user(after.sessions[key].user_id) by {
            assert(backend.records.has_user(backend.sessions[key].user_id));
        }
    }
}

/// Logging in leaves a sound backend sound: the session written names
/// the user who logged in.
pub proof fn create_session_keeps_sound(
    backend: BackendView,
    email: Seq<char>,
    password: Seq<char>,
    token: Seq<char>,
)
    requires
        backend.sound(),
    ensures
        backend.create_session(email, password, token).0.sound(),
{
    let after = backend.create_session(email, password, token).0;
    if after != backend {
        let index = choose|index: int| email_at(backend.records.users, email, index);
        assert(email_at(backend.records.users, email, index));
        let user = backend.records.users[index];
        assert(user_at(backend.records.users, user.id, index));
        assert forall|key: Seq<char>| #[trigger] after.sessions.contains_key(key) implies
            after.records.has_user(after.sessions[key].user_id) by {
            if key != session_key(token) {
                assert(backend.sessions.contains_key(key));
            }
        }
    }
}

/// Registering an image leaves a sound backend sound: the image comes
/// with its first version.
pub proof fn create_image_keeps_sound(
    backend: BackendView,
    user_id: Option<Uuid>,
    request: CreateImageView,
)
    requires
        backend.sound(),
    ensures
        backend.create_image(user_id, request).0.sound(),
{
    let after = backend.create_image(user_id, request).0;
    if after != backend {
        let records = backend.records;
        let image = records.new_image(user_id->0, request.nickname, request.image_url, backend.now);
        let with_image = records.with_image(image);
        let version = with_image.new_version(
            image.id,
            first_version_hash(),
            first_version_number(),
            backend.now,
        );
        records.with_image_is_consistent(image);
        with_image.with_version_is_consistent(version);
        after.records.growth_keeps(records);
        let image_index = records.images.len() as int;
        let version_index = records.versions.len() as int;
        assert(image_at(after.records.images, image.id, image_index));
        assert(after.records.version_of_at(image.id, version_index));
        assert forall|index: int| 0 <= index < after.records.versions.len() implies
            after.records.has_image((#[trigger] after.records.versions[index]).image_id) by {
            if index < version_index {
                assert(records.has_image(records.versions[index].image_id));
            }
        }
        assert forall|index: int| 0 <= index < after.records.images.len() implies
            after.records.has_version((#[trigger] after.records.images[index]).id) by {
            if index < image_index {
                assert(records.has_version(records.images[index].id));
            }
        }
        assert forall|index: int| 0 <= index < after.records.jobs.len() implies after.records.backs(
            #[trigger] after.records.jobs[index],
        ) by {
            assert(records.backs(records.jobs[index]));
        }
        assert forall|key: Seq<char>| #[trigger] after.sessions.contains_key(key) implies
            after.records.has_user(after.sessions[key].user_id) by {
            assert(records.has_user(backend.sessions[key].user_id));
        }
    }
}

/// Creating a job leaves a sound backend sound: the job written runs a
/// version of an image that its user owns. This is enforced by the
/// handler's checks, not by the store.
pub proof fn create_job_keeps_sound(
    backend: BackendView,
    user_id: Option<Uuid>,
    request: CreateJobView,
)
    requires
        backend.sound(),
    ensures
        backend.create_job(user_id, request).0.sound(),
{
    let after = backend.create_job(user_id, request).0;
    if after.records != backend.records {
        let records = backend.records;
        let listed = records.versions_of_image(request.image_id);
        let version = find_version(listed, request.image_id, request.image_version_id)->0;
        let job = records.new_job(user_id->0, JobStatus::Pending, version.id, backend.now);
        assert(after.records == records.with_job(job));
        records.with_job_is_consistent(job);
        after.records.growth_keeps(records);
        find_version_found(listed, request.image_id, request.image_version_id);
        records.versions.lemma_filter_contains_rev(
            |version: ImageVersionView| version.image_id == request.image_id,
            version,
        );
        let version_index = choose|index: int|
            0 <= index < records.versions.len() && records.versions[index] == version;
        let image_index = choose|index: int| image_at(records.images, request.image_id, index);
        assert(image_at(records.images, request.image_id, image_index));
        assert(records.owned_at(user_id->0, request.image_id, image_index));
        assert(records.owns(job.user_id, records.versions[version_index].image_id));
        assert(records.backed_at(job, version_index));
        assert(records.backs(job));
        assert forall|index: int| 0 <= index < after.records.versions.len() implies
            after.records.has_image((#[trigger] after.records.versions[index]).image_id) by {
            assert(records.has_image(records.versions[index].image_id));
        }
        assert forall|index: int| 0 <= index < after.records.images.len() implies
            after.records.has_version((#[trigger] after.records.images[index]).id) by {
            assert(records.has_version(records.images[index].id));
        }
        assert forall|index: int| 0 <= index < after.records.jobs.len() implies after.records.backs(
            #[trigger] after.records.jobs[index],
        ) by {
            if index < records.jobs.len() {
                assert(records.backs(records.jobs[index]));
            }
        }
        assert forall|key: Seq<char>| #[trigger] after.sessions.contains_key(key) implies
            after.records.has_user(after.sessions[key].user_id) by {
            assert(records.has_user(backend.sessions[key].user_id));
        }
    }
}

/// In a sound backend a live session always resolves to its user: a
/// request is authenticated or unauthenticated, and the record store is
/// never found to lack the user of a live session.
pub proof fn live_session_resolves(
    backend: BackendView,
    header: Option<Seq<char>>,
    cookie: Option<Seq<char>>,
)
    requires
        backend.sound(),
    ensures
        backend.authenticate(header, cookie).error() != Some(Error::StoreError),
        backend.authenticate(header, cookie).body matches BodyView::Identity(user) ==> {
            &&& backend.records.has_user(user.id)
            &&& presented_token(header, cookie) matches Some(token)
            &&& live_session(backend.sessions, session_key(token), backend.now) == Some(user.id)
        },
{
    match presented_token(header, cookie) {
        Some(token) => {
            let key = session_key(token);
            match live_session(backend.sessions, key, backend.now) {
                Some(user_id) => {
                    assert(backend.sessions.contains_key(key));
                    assert(backend.records.has_user(user_id));
                    let index = choose|index: int| user_at(backend.records.users, user_id, index);
                    backend.records.user_found(user_id, index);
                },
                None => {},
            }
        },
        None => {},
    }
}

/// Tenants are isolated: what one user is shown of jobs and images does
/// not depend on what another user creates.
pub proof fn tenants_are_isolated(
    backend: BackendView,
    actor: Uuid,
    observer: Uuid,
    job: CreateJobView,
    image: CreateImageView,
)
    requires
        actor != observer,
    ensures
        backend.create_job(Some(actor), job).0.get_jobs(Some(observer)) == backend.get_jobs(
            Some(observer),
        ),
        backend.create_image(Some(actor), image).0.get_images(Some(observer))
            == backend.get_images(Some(observer)),
{
    let jobs = backend.records.jobs;
    let after_job = backend.create_job(Some(actor), job).0.records;
    if after_job.jobs != jobs {
        let listed = backend.records.versions_of_image(job.image_id);
        let version = find_version(listed, job.image_id, job.image_version_id)->0;
        let row = backend.records.new_job(actor, JobStatus::Pending, version.id, backend.now);
        assert(after_job.jobs == jobs.push(row));
        jobs.lemma_filter_push(row, |job: Job| job.user_id == observer);
    }
    let images = backend.records.images;
    let after_image = backend.create_image(Some(actor), image).0.records;
    if after_image.images != images {
        let row = backend.records.new_image(actor, image.nickname, image.image_url, backend.now);
        assert(after_image.images == images.push(row));
        images.lemma_filter_push(row, |image: ImageView| image.user_id == observer);
    }
}

/// What a user creates, that user is shown: a job that was created is
/// listed after the user's earlier jobs, and an image after the user's
/// earlier images.
pub proof fn created_rows_are_listed(
    backend: BackendView,
    user_id: Uuid,
    job: CreateJobView,
    image: CreateImageView,
)
    ensures
        backend.create_job(Some(user_id), job).1.body matches BodyView::Job(row)
            ==> backend.create_job(Some(user_id), job).0.get_jobs(Some(user_id))
            == ResponseView::ok(BodyView::Jobs(backend.records.jobs_of_user(user_id).push(row))),
        backend.create_image(Some(user_id), image).1.body matches BodyView::Image(row)
            ==> backend.create_image(Some(user_id), image).0.get_images(Some(user_id))
            == ResponseView::ok(
            BodyView::Images(backend.records.images_of_user(user_id).push(row)),
        ),
{
    match backend.create_job(Some(user_id), job).1.body {
        BodyView::Job(row) => {
            backend.records.jobs.lemma_filter_push(row, |job: Job| job.user_id == user_id);
        },
        _ => {},
    }
    match backend.create_image(Some(user_id), image).1.body {
        BodyView::Image(row) => {
            backend.records.images.lemma_filter_push(
                row,
                |image: ImageView| image.user_id == user_id,
            );
        },
        _ => {},
    }
}

/// A user is shown only what it owns: every job listed is that user's.
pub proof fn listed_jobs_are_owned(backend: BackendView, user_id: Uuid, index: int)
    requires
        0 <= index < backend.records.jobs_of_user(user_id).len(),
    ensures
        backend.get_jobs(Some(user_id)).body == BodyView::Jobs(
            backend.records.jobs_of_user(user_id),
        ),
        backend.records.jobs_of_user(user_id)[index].user_id == user_id,
        backend.records.jobs.contains(backend.records.jobs_of_user(user_id)[index]),
{
    let owned = |job: Job| job.user_id == user_id;
    backend.records.jobs.lemma_filter_pred(owned, index);
    let listed = backend.records.jobs.filter(owned);
    assert(listed.contains(listed[index]));
    backend.records.jobs.lemma_filter_contains_rev(owned, listed[index]);
}

/// The versions of an image are shown to its owner only: any other user
/// is told that the request is unauthorized.
pub proof fn versions_are_for_the_owner(backend: BackendView, user_id: Uuid, image_id: Uuid)
    requires
        backend.records.image(image_id) matches Some(image) && image.user_id != user_id,
    ensures
        backend.get_image_versions(Some(user_id), image_id) == ResponseView::failure(
            Error::Unauthorized,
        ),
{
}

/// A fresh image has exactly one version: the one it was created with,
/// numbered `latest` and with an empty hash. Its owner is shown exactly
/// that version.
pub proof fn fresh_image_has_one_version(
    backend: BackendView,
    user_id: Uuid,
    request: CreateImageView,
)
    requires
        backend.sound(),
        backend.create_image(Some(user_id), request).1.error() is None,
    ensures
        ({
            let created = backend.create_image(Some(user_id), request);
            let shown = created.0.get_image_versions(Some(user_id), created.1.body->Image_0.id);
            &&& created.1.body matches BodyView::Image(image)
            &&& image.user_id == user_id
            &&& image.nickname == request.nickname
            &&& image.image_url == request.image_url
            &&& shown.body matches BodyView::Versions(versions)
            &&& shown.status == crate::errors::STATUS_OK
            &&& versions.len() == 1
            &&& versions[0].image_id == image.id
            &&& versions[0].version_number == first_version_number()
            &&& versions[0].hash == first_version_hash()
        }),
{
    let records = backend.records;
    let image = records.new_image(user_id, request.nickname, request.image_url, backend.now);
    let with_image = records.with_image(image);
    let version = with_image.new_version(
        image.id,
        first_version_hash(),
        first_version_number(),
        backend.now,
    );
    let after = backend.create_image(Some(user_id), request).0.records;
    assert(after == with_image.with_version(version));
    records.with_image_is_consistent(image);
    with_image.with_version_is_consistent(version);
    after.image_found(image.id, records.images.len() as int);
    let of_image = |version: ImageVersionView| version.image_id == image.id;
    records.versions.lemma_filter_push(version, of_image);
    assert(records.versions.filter(of_image).len() == 0) by {
        if records.versions.filter(of_image).len() > 0 {
            let stale = records.versions.filter(of_image)[0];
            records.versions.lemma_filter_pred(of_image, 0);
            assert(records.versions.filter(of_image).contains(stale));
            records.versions.lemma_filter_contains_rev(of_image, stale);
            let at = choose|at: int| 0 <= at < records.versions.len() && records.versions[at] == stale;
            assert(records.has_image(records.versions[at].image_id));
            let image_index = choose|index: int| image_at(records.images, image.id, index);
            assert(records.images[image_index].id.value < records.next_id);
        }
    }
}

} // verus!
