//! What each handler comes to when it is run against the backend in
//! memory.
//!
//! For each handler a function of [`BackendView`] says outright what the
//! backend holds afterwards and what is answered. The handlers
//! themselves are run by their steps; that both agree is proved here.

use vstd::prelude::*;
use crate::authentication::{authenticate_start, create_session_start};
use crate::backend::{Backend, BackendView, MAX_STEPS};
use crate::credentials::{live_session, with_session};
use crate::errors::Error;
use crate::ids::Uuid;
use crate::images::{
    create_image_start, first_version_hash, first_version_number, get_image_versions_start,
    get_images_start, CreateImage, CreateImageView,
};
use crate::jobs::{create_job_start, get_jobs_start, CreateJob, CreateJobView};
use crate::models::{id_of, ImageVersionView, ImageView, Job, JobStatus, User};
use crate::ownership::find_version;
use crate::passwords::{hash_password, password_matches};
use crate::protocol::{BodyView, Response, ResponseView};
use crate::provisioning::{app_request_for, machine_request_for};
use crate::session::{
    new_session_token, presented_token, session_key, session_response_for, token_text,
};
use crate::text::{owned_text_of, text_of};
use crate::users::{create_user_start, get_user_start};
use crate::workflow::{Flow, FlowView};

verus! {

impl BackendView {
    /// What comes of a request to run an image version.
    ///
    /// Without a user the request is unauthenticated. The image must
    /// exist, else it is not found; the requester must own it, else the
    /// request is unauthorized; the version must be one of the image's
    /// versions, else it is not found. Then the job row is written and
    /// the machine asked for. Where the provisioning service fails, the
    /// backend keeps no job row, though the service has received the
    /// request. Only where it succeeds does the store hold the new job,
    /// pending and owned by the requester.
    pub open spec fn create_job(self, user_id: Option<Uuid>, request: CreateJobView) -> (
        BackendView,
        ResponseView,
    ) {
        match user_id {
            None => (self, ResponseView::failure(Error::Unauthenticated)),
            Some(user_id) => if self.records.transaction is Some {
                (self, ResponseView::failure(Error::StoreError))
            } else {
                match self.records.image(request.image_id) {
                    None => (self, ResponseView::failure(Error::NotFound)),
                    Some(image) => if image.user_id != user_id {
                        (self, ResponseView::failure(Error::Unauthorized))
                    } else {
                        match find_version(
                            self.records.versions_of_image(request.image_id),
                            request.image_id,
                            request.image_version_id,
                        ) {
                            None => (self, ResponseView::failure(Error::NotFound)),
                            Some(version) => if !self.records.has_room() {
                                (self, ResponseView::failure(Error::StoreError))
                            } else {
                                let job = self.records.new_job(
                                    user_id,
                                    JobStatus::Pending,
                                    version.id,
                                    self.now,
                                );
                                let provisioner = self.provisioner.asked_for_machine(
                                    machine_request_for(
                                        user_id,
                                        request.cpu,
                                        request.gpu,
                                        image,
                                        version,
                                    ),
                                );
                                if self.provisioner.reachable {
                                    (
                                        BackendView {
                                            records: self.records.with_job(job),
                                            provisioner,
                                            ..self
                                        },
                                        ResponseView::created(BodyView::Job(job)),
                                    )
                                } else {
                                    (
                                        BackendView { provisioner, ..self },
                                        ResponseView::failure(Error::ProvisioningError),
                                    )
                                }
                            },
                        }
                    },
                }
            },
        }
    }

    /// What is answered to a request for the user's jobs: exactly the
    /// jobs of that user, oldest first.
    pub open spec fn get_jobs(self, user_id: Option<Uuid>) -> ResponseView {
        match user_id {
            None => ResponseView::failure(Error::Unauthenticated),
            Some(user_id) => ResponseView::ok(BodyView::Jobs(self.records.jobs_of_user(user_id))),
        }
    }

    /// Running the steps of `create_job` comes to what `create_job` says.
    pub proof fn create_job_by_steps(self, user_id: Option<Uuid>, request: CreateJobView)
        requires
            self.records.wf(),
        ensures
            ({
                let start = FlowView::jobs(create_job_start(user_id, request));
                self.run(start.0, start.1, MAX_STEPS as nat)
            }) == self.create_job(user_id, request),
    {
        reveal_with_fuel(BackendView::run, 9);
        let records = self.records;
        if user_id is Some && records.transaction is None {
            records.rollback_of_nothing();
            assert(self.with_records(records) == self);
            if records.image(request.image_id) is Some {
                let index = choose|index: int|
                    crate::records::image_at(records.images, request.image_id, index);
                assert(records.image_at(request.image_id, index));
                let found = find_version(
                    records.versions_of_image(request.image_id),
                    request.image_id,
                    request.image_version_id,
                );
                if found is Some {
                    records.rollback_of_job(
                        records.new_job(user_id->0, JobStatus::Pending, found->0.id, self.now),
                    );
                }
            }
        }
    }

    /// Running the steps of `get_jobs` comes to what `get_jobs` says, and
    /// changes nothing.
    pub proof fn get_jobs_by_steps(self, user_id: Option<Uuid>)
        ensures
            ({
                let start = FlowView::jobs(get_jobs_start(user_id));
                self.run(start.0, start.1, MAX_STEPS as nat)
            }) == (self, self.get_jobs(user_id)),
    {
        reveal_with_fuel(BackendView::run, 3);
        if user_id is Some {
            crate::ownership::filter_twice(self.records.jobs, |job: Job| job.user_id == user_id->0);
        }
    }

    /// What comes of a request to register an image: the store holds the
    /// new image, owned by the requester, and its first version.
    pub open spec fn create_image(self, user_id: Option<Uuid>, request: CreateImageView) -> (
        BackendView,
        ResponseView,
    ) {
        match user_id {
            None => (self, ResponseView::failure(Error::Unauthenticated)),
            Some(user_id) => {
                let image = self.records.new_image(
                    user_id,
                    request.nickname,
                    request.image_url,
                    self.now,
                );
                let with_image = self.records.with_image(image);
                let version = with_image.new_version(
                    image.id,
                    first_version_hash(),
                    first_version_number(),
                    self.now,
                );
                if self.records.transaction is Some || !self.records.has_room()
                    || !with_image.has_room() {
                    (self, ResponseView::failure(Error::StoreError))
                } else {
                    (
                        self.with_records(with_image.with_version(version)),
                        ResponseView::created(BodyView::Image(image)),
                    )
                }
            },
        }
    }

    /// Running the steps of `create_image` comes to what `create_image`
    /// says.
    pub proof fn create_image_by_steps(self, user_id: Option<Uuid>, request: CreateImageView)
        requires
            self.records.wf(),
        ensures
            ({
                let start = FlowView::images(create_image_start(user_id, request));
                self.run(start.0, start.1, MAX_STEPS as nat)
            }) == self.create_image(user_id, request),
    {
        reveal_with_fuel(BackendView::run, 9);
        let records = self.records;
        if user_id is Some && records.transaction is None {
            records.rollback_of_nothing();
            assert(self.with_records(records) == self);
            let image = records.new_image(
                user_id->0,
                request.nickname,
                request.image_url,
                self.now,
            );
            records.rollback_of_image(image);
        }
    }

    /// What is answered to a request for the user's images: exactly the
    /// images of that user, oldest first.
    pub open spec fn get_images(self, user_id: Option<Uuid>) -> ResponseView {
        match user_id {
            None => ResponseView::failure(Error::Unauthenticated),
            Some(user_id) => ResponseView::ok(
                BodyView::Images(self.records.images_of_user(user_id)),
            ),
        }
    }

    /// Running the steps of `get_images` comes to what `get_images` says,
    /// and changes nothing.
    pub proof fn get_images_by_steps(self, user_id: Option<Uuid>)
        ensures
            ({
                let start = FlowView::images(get_images_start(user_id));
                self.run(start.0, start.1, MAX_STEPS as nat)
            }) == (self, self.get_images(user_id)),
    {
        reveal_with_fuel(BackendView::run, 3);
        if user_id is Some {
            crate::ownership::filter_twice(self.records.images, |image: ImageView| image.user_id == user_id->0);
        }
    }

    /// What is answered to a request for the versions of an image: not
    /// found where there is no such image, unauthorized where the
    /// requester does not own it, and else exactly the versions of that
    /// image, oldest first.
    pub open spec fn get_image_versions(self, user_id: Option<Uuid>, image_id: Uuid) -> ResponseView {
        match user_id {
            None => ResponseView::failure(Error::Unauthenticated),
            Some(user_id) => match self.records.image(image_id) {
                None => ResponseView::failure(Error::NotFound),
                Some(image) => if image.user_id != user_id {
                    ResponseView::failure(Error::Unauthorized)
                } else {
                    ResponseView::ok(BodyView::Versions(self.records.versions_of_image(image_id)))
                },
            },
        }
    }

    /// Running the steps of `get_image_versions` comes to what
    /// `get_image_versions` says, and changes nothing.
    pub proof fn get_image_versions_by_steps(self, user_id: Option<Uuid>, image_id: Uuid)
        ensures
            ({
                let start = FlowView::images(get_image_versions_start(user_id, image_id));
                self.run(start.0, start.1, MAX_STEPS as nat)
            }) == (self, self.get_image_versions(user_id, image_id)),
    {
        reveal_with_fuel(BackendView::run, 4);
        if user_id is Some {
            crate::ownership::filter_twice(
                self.records.versions,
                |version: ImageVersionView| version.image_id == image_id,
            );
            if self.records.image(image_id) is Some {
                let index = choose|index: int|
                    crate::records::image_at(self.records.images, image_id, index);
                assert(self.records.image_at(image_id, index));
            }
        }
    }

    /// What comes of a registration, given the hash of the password.
    ///
    /// The user row is written and the application namespace asked for.
    /// Where the email is taken, or the password could not be hashed,
    /// nothing is written. Where the provisioning service fails, the
    /// store keeps no user row, though the service has received the
    /// request.
    pub open spec fn create_user(self, email: Seq<char>, password_hash: Option<Seq<char>>) -> (
        BackendView,
        ResponseView,
    ) {
        match password_hash {
            None => (self, ResponseView::failure(Error::StoreError)),
            Some(password_hash) => if self.records.transaction is Some
                || !self.records.admits_user(email) {
                (self, ResponseView::failure(Error::StoreError))
            } else {
                let user = self.records.new_user(email, password_hash, self.now);
                let provisioner = self.provisioner.asked_for_app(app_request_for(user.id));
                if self.provisioner.reachable {
                    (
                        BackendView { records: self.records.with_user(user), provisioner, ..self },
                        ResponseView::created(BodyView::User(user.public())),
                    )
                } else {
                    (
                        BackendView { provisioner, ..self },
                        ResponseView::failure(Error::ProvisioningError),
                    )
                }
            },
        }
    }

    /// Running the steps of `create_user` comes to what `create_user`
    /// says.
    pub proof fn create_user_by_steps(self, email: Seq<char>, password_hash: Option<Seq<char>>)
        requires
            self.records.wf(),
        ensures
            ({
                let start = FlowView::users(create_user_start(email, password_hash));
                self.run(start.0, start.1, MAX_STEPS as nat)
            }) == self.create_user(email, password_hash),
    {
        reveal_with_fuel(BackendView::run, 9);
        let records = self.records;
        if password_hash is Some && records.transaction is None {
            records.rollback_of_nothing();
            assert(self.with_records(records) == self);
            let user = records.new_user(email, password_hash->0, self.now);
            records.rollback_of_user(user);
        }
    }

    /// What is answered to a user's request for its own record.
    pub open spec fn get_user(self, user_id: Option<Uuid>) -> ResponseView {
        match user_id {
            None => ResponseView::failure(Error::Unauthenticated),
            Some(user_id) => match self.records.user(user_id) {
                Some(user) => ResponseView::ok(BodyView::User(user.public())),
                None => ResponseView::failure(Error::StoreError),
            },
        }
    }

    /// Running the steps of `get_user` comes to what `get_user` says, and
    /// changes nothing.
    pub proof fn get_user_by_steps(self, user_id: Option<Uuid>)
        ensures
            ({
                let start = FlowView::users(get_user_start(user_id));
                self.run(start.0, start.1, MAX_STEPS as nat)
            }) == (self, self.get_user(user_id)),
    {
        reveal_with_fuel(BackendView::run, 3);
        if user_id is Some && self.records.user(user_id->0) is Some {
            let index = choose|index: int|
                crate::records::user_at(self.records.users, user_id->0, index);
            assert(self.records.user_at(user_id->0, index));
        }
    }

    /// What comes of a login with the token that is to be handed out.
    ///
    /// Where a user has the email and its stored hash accepts the
    /// password, the session key of the token is bound to that user for
    /// the backend's session lifetime, and the token is handed out. In
    /// every other case the request is unauthenticated and nothing
    /// changes: an unknown email and a wrong password are answered alike.
    pub open spec fn create_session(self, email: Seq<char>, password: Seq<char>, token: Seq<char>) -> (
        BackendView,
        ResponseView,
    ) {
        match self.records.user_by_email(email) {
            Some(user) => if password_matches(password, user.password_hash) {
                (
                    BackendView {
                        sessions: with_session(
                            self.sessions,
                            session_key(token),
                            user.id,
                            self.session_ttl,
                            self.now,
                        ),
                        ..self
                    },
                    ResponseView::created(BodyView::Session(session_response_for(token))),
                )
            } else {
                (self, ResponseView::failure(Error::Unauthenticated))
            },
            None => (self, ResponseView::failure(Error::Unauthenticated)),
        }
    }

    /// Running the steps of `create_session` comes to what
    /// `create_session` says.
    pub proof fn create_session_by_steps(
        self,
        email: Seq<char>,
        password: Seq<char>,
        token: Seq<char>,
    )
        ensures
            ({
                let start = FlowView::auth(
                    create_session_start(email, password, token, self.session_ttl),
                );
                self.run(start.0, start.1, MAX_STEPS as nat)
            }) == self.create_session(email, password, token),
    {
        reveal_with_fuel(BackendView::run, 4);
        if self.records.user_by_email(email) is Some {
            let index = choose|index: int|
                crate::records::email_at(self.records.users, email, index);
            assert(self.records.email_at(email, index));
        }
    }

    /// The user that the credential of a request resolves to.
    ///
    /// A request that presents no token, or one whose session is not
    /// live, is unauthenticated. A live session resolves to the user it
    /// names. Should the record store no longer have that user, the
    /// request fails with a store error.
    pub open spec fn authenticate(self, header: Option<Seq<char>>, cookie: Option<Seq<char>>) -> ResponseView {
        match presented_token(header, cookie) {
            None => ResponseView::failure(Error::Unauthenticated),
            Some(token) => match live_session(self.sessions, session_key(token), self.now) {
                None => ResponseView::failure(Error::Unauthenticated),
                Some(user_id) => match self.records.user(user_id) {
                    Some(user) => ResponseView::ok(BodyView::Identity(user)),
                    None => ResponseView::failure(Error::StoreError),
                },
            },
        }
    }

    /// Running the steps of `authenticate` comes to what `authenticate`
    /// says, and changes nothing.
    pub proof fn authenticate_by_steps(self, header: Option<Seq<char>>, cookie: Option<Seq<char>>)
        ensures
            ({
                let start = FlowView::auth(authenticate_start(header, cookie));
                self.run(start.0, start.1, MAX_STEPS as nat)
            }) == (self, self.authenticate(header, cookie)),
    {
        reveal_with_fuel(BackendView::run, 4);
        match presented_token(header, cookie) {
            Some(token) => {
                match live_session(self.sessions, session_key(token), self.now) {
                    Some(user_id) => {
                        if self.records.user(user_id) is Some {
                            let index = choose|index: int|
                                crate::records::user_at(self.records.users, user_id, index);
                            assert(self.records.user_at(user_id, index));
                        }
                    },
                    None => {},
                }
            },
            None => {},
        }
    }
}

impl Backend {
    /// Runs a request to run an image version, made by the authenticated
    /// user if there is one.
    pub fn create_job(&mut self, user: Option<&User>, request: CreateJob) -> (response: Response)
        requires
            old(self).wf(),
        ensures
            final(self).wf(),
            (final(self)@, response@) == old(self)@.create_job(id_of(user), request@),
            old(self)@.sound() ==> final(self)@.sound(),
    {
        proof {
            self.wf_records();
            self@.create_job_by_steps(id_of(user), request@);
            if self@.sound() {
                crate::laws::create_job_keeps_sound(self@, id_of(user), request@);
            }
        }
        let start = Flow::jobs(crate::jobs::create_job(user, request));
        self.run(start.0, start.1)
    }

    /// Lists the jobs of the authenticated user, if there is one.
    pub fn get_jobs(&mut self, user: Option<&User>) -> (response: Response)
        requires
            old(self).wf(),
        ensures
            final(self).wf(),
            final(self)@ == old(self)@,
            response@ == old(self)@.get_jobs(id_of(user)),
    {
        proof {
            self@.get_jobs_by_steps(id_of(user));
        }
        let start = Flow::jobs(crate::jobs::get_jobs(user));
        self.run(start.0, start.1)
    }

    /// Registers an image for the authenticated user, if there is one.
    pub fn create_image(&mut self, user: Option<&User>, request: CreateImage) -> (response:
        Response)
        requires
            old(self).wf(),
        ensures
            final(self).wf(),
            (final(self)@, response@) == old(self)@.create_image(id_of(user), request@),
            old(self)@.sound() ==> final(self)@.sound(),
    {
        proof {
            self.wf_records();
            self@.create_image_by_steps(id_of(user), request@);
            if self@.sound() {
                crate::laws::create_image_keeps_sound(self@, id_of(user), request@);
            }
        }
        let start = Flow::images(crate::images::create_image(user, request));
        self.run(start.0, start.1)
    }

    /// Lists the images of the authenticated user, if there is one.
    pub fn get_images(&mut self, user: Option<&User>) -> (response: Response)
        requires
            old(self).wf(),
        ensures
            final(self).wf(),
            final(self)@ == old(self)@,
            response@ == old(self)@.get_images(id_of(user)),
    {
        proof {
            self@.get_images_by_steps(id_of(user));
        }
        let start = Flow::images(crate::images::get_images(user));
        self.run(start.0, start.1)
    }

    /// Lists the versions of an image for the authenticated user, if
    /// there is one.
    pub fn get_image_versions(&mut self, user: Option<&User>, image_id: Uuid) -> (response:
        Response)
        requires
            old(self).wf(),
        ensures
            final(self).wf(),
            final(self)@ == old(self)@,
            response@ == old(self)@.get_image_versions(id_of(user), image_id),
    {
        proof {
            self@.get_image_versions_by_steps(id_of(user), image_id);
        }
        let start = Flow::images(crate::images::get_image_versions(user, image_id));
        self.run(start.0, start.1)
    }

    /// Registers a user, given the hash of the password, or `None` where
    /// the password could not be hashed.
    pub fn create_user_with_hash(&mut self, email: &str, password_hash: Option<String>) -> (response:
        Response)
        requires
            old(self).wf(),
        ensures
            final(self).wf(),
            (final(self)@, response@) == old(self)@.create_user(email@, owned_text_of(password_hash)),
            old(self)@.sound() ==> final(self)@.sound(),
    {
        proof {
            self.wf_records();
            self@.create_user_by_steps(email@, owned_text_of(password_hash));
            if self@.sound() {
                crate::laws::create_user_keeps_sound(self@, email@, owned_text_of(password_hash));
            }
        }
        let start = Flow::users(crate::users::create_user(email, password_hash));
        self.run(start.0, start.1)
    }

    /// Registers a user with an email and a password. The password is
    /// hashed with a fresh salt: whatever the salt, what comes of the
    /// registration is what `create_user` says of a hash that accepts
    /// the password, or of none.
    pub fn create_user(&mut self, email: &str, password: &str) -> (response: Response)
        requires
            old(self).wf(),
        ensures
            final(self).wf(),
            exists|password_hash: Option<Seq<char>>|
                {
                    &&& password_hash matches Some(hash) ==> password_matches(password@, hash)
                    &&& (final(self)@, response@) == #[trigger] old(self)@.create_user(
                        email@,
                        password_hash,
                    )
                },
            old(self)@.sound() ==> final(self)@.sound(),
    {
        let password_hash = hash_password(password);
        let ghost hashed = owned_text_of(password_hash);
        let response = self.create_user_with_hash(email, password_hash);
        assert((self@, response@) == old(self)@.create_user(email@, hashed));
        response
    }

    /// Shows the authenticated user its own record, if there is one.
    pub fn get_user(&mut self, user: Option<&User>) -> (response: Response)
        requires
            old(self).wf(),
        ensures
            final(self).wf(),
            final(self)@ == old(self)@,
            response@ == old(self)@.get_user(id_of(user)),
    {
        proof {
            self@.get_user_by_steps(id_of(user));
        }
        let start = Flow::users(crate::users::get_user(user));
        self.run(start.0, start.1)
    }

    /// Logs a user in, handing out the given token on success.
    pub fn create_session_with_token(&mut self, email: &str, password: &str, token: String) -> (response:
        Response)
        requires
            old(self).wf(),
        ensures
            final(self).wf(),
            (final(self)@, response@) == old(self)@.create_session(email@, password@, token@),
            old(self)@.sound() ==> final(self)@.sound(),
    {
        proof {
            self@.create_session_by_steps(email@, password@, token@);
            if self@.sound() {
                crate::laws::create_session_keeps_sound(self@, email@, password@, token@);
            }
        }
        let ttl_seconds = self.session_ttl();
        let start = Flow::auth(
            crate::authentication::create_session(email, password, token, ttl_seconds),
        );
        self.run(start.0, start.1)
    }

    /// Logs a user in, handing out a fresh token on success. Whatever the
    /// token's 32 random bytes, what comes of the login is what
    /// `create_session` says of the token made from them.
    pub fn create_session(&mut self, email: &str, password: &str) -> (response: Response)
        requires
            old(self).wf(),
        ensures
            final(self).wf(),
            exists|entropy: Seq<u8>|
                {
                    &&& entropy.len() == 32
                    &&& (final(self)@, response@) == old(self)@.create_session(
                        email@,
                        password@,
                        #[trigger] token_text(entropy),
                    )
                },
            old(self)@.sound() ==> final(self)@.sound(),
    {
        let token = new_session_token();
        self.create_session_with_token(email, password, token)
    }

    /// Resolves the credential of a request, given its `Authorization`
    /// header and its `Authorization` cookie, to a user.
    pub fn authenticate(&mut self, header: Option<&str>, cookie: Option<&str>) -> (response:
        Response)
        requires
            old(self).wf(),
        ensures
            final(self).wf(),
            final(self)@ == old(self)@,
            response@ == old(self)@.authenticate(text_of(header), text_of(cookie)),
    {
        proof {
            self@.authenticate_by_steps(text_of(header), text_of(cookie));
        }
        let start = Flow::auth(crate::authentication::authenticate(header, cookie));
        self.run(start.0, start.1)
    }
}

} // verus!
