//! A record store in memory: users, images, image versions and jobs,
//! with transactions.
//!
//! Rows are only ever added. Each row gets the next identifier of one
//! sequence and the time handed in. A transaction remembers where the
//! tables ended when it was opened; rolling back cuts them back to there,
//! so that what was written inside the transaction never existed.

use vstd::prelude::*;
use crate::ids::Uuid;
use crate::models::{
    image_views, version_views, Image, ImageVersion, ImageVersionView, ImageView, Job, JobStatus,
    Timestamp, User, UserView,
};
use crate::ownership::{
    filter_images, filter_jobs, filter_versions, images_of, jobs_of, versions_of,
};
use crate::text::same_text;

verus! {

/// Where the tables ended, and which identifier was next, when a
/// transaction was opened.
pub struct Marks {
    pub users: nat,
    pub images: nat,
    pub versions: nat,
    pub jobs: nat,
    pub next_id: u128,
}

#[derive(Clone, Copy, Debug)]
struct Opened {
    users: usize,
    images: usize,
    versions: usize,
    jobs: usize,
    next_id: u128,
}

impl View for Opened {
    type V = Marks;

    closed spec fn view(&self) -> Marks {
        Marks {
            users: self.users as nat,
            images: self.images as nat,
            versions: self.versions as nat,
            jobs: self.jobs as nat,
            next_id: self.next_id,
        }
    }
}

/// Whether a user stands at `index` with the given identifier.
pub open spec fn user_at(users: Seq<UserView>, id: Uuid, index: int) -> bool {
    0 <= index < users.len() && users[index].id == id
}

/// The user with the given identifier among the users given.
pub open spec fn find_user(users: Seq<UserView>, id: Uuid) -> Option<UserView> {
    if exists|index: int| user_at(users, id, index) {
        Some(users[choose|index: int| user_at(users, id, index)])
    } else {
        None
    }
}

/// Whether a user stands at `index` with the given email.
pub open spec fn email_at(users: Seq<UserView>, email: Seq<char>, index: int) -> bool {
    0 <= index < users.len() && users[index].email == email
}

/// The user with the given email among the users given.
pub open spec fn find_user_by_email(users: Seq<UserView>, email: Seq<char>) -> Option<UserView> {
    if exists|index: int| email_at(users, email, index) {
        Some(users[choose|index: int| email_at(users, email, index)])
    } else {
        None
    }
}

/// Whether an image stands at `index` with the given identifier.
pub open spec fn image_at(images: Seq<ImageView>, id: Uuid, index: int) -> bool {
    0 <= index < images.len() && images[index].id == id
}

/// The image with the given identifier among the images given.
pub open spec fn find_image(images: Seq<ImageView>, id: Uuid) -> Option<ImageView> {
    if exists|index: int| image_at(images, id, index) {
        Some(images[choose|index: int| image_at(images, id, index)])
    } else {
        None
    }
}

/// What a record store holds.
pub struct RecordsView {
    pub users: Seq<UserView>,
    pub images: Seq<ImageView>,
    pub versions: Seq<ImageVersionView>,
    pub jobs: Seq<Job>,
    /// The identifier that the next row gets.
    pub next_id: u128,
    /// The open transaction, if one is open.
    pub transaction: Option<Marks>,
}

impl RecordsView {
    /// The store that holds nothing.
    pub open spec fn empty() -> RecordsView {
        RecordsView {
            users: Seq::empty(),
            images: Seq::empty(),
            versions: Seq::empty(),
            jobs: Seq::empty(),
            next_id: 0,
            transaction: None,
        }
    }

    /// Whether the store is consistent: within each table no identifier
    /// occurs twice, no email belongs to two users, every identifier
    /// handed out lies below the next one, and an open transaction began
    /// no later than now, with what it found below its own marks.
    pub open spec fn wf(self) -> bool {
        &&& forall|i: int, j: int|
            #![trigger self.users[i], self.users[j]]
            0 <= i < j < self.users.len() ==> self.users[i].id != self.users[j].id
                && self.users[i].email != self.users[j].email
        &&& forall|i: int, j: int|
            #![trigger self.images[i], self.images[j]]
            0 <= i < j < self.images.len() ==> self.images[i].id != self.images[j].id
        &&& forall|i: int, j: int|
            #![trigger self.versions[i], self.versions[j]]
            0 <= i < j < self.versions.len() ==> self.versions[i].id != self.versions[j].id
        &&& forall|i: int, j: int|
            #![trigger self.jobs[i], self.jobs[j]]
            0 <= i < j < self.jobs.len() ==> self.jobs[i].id != self.jobs[j].id
        &&& forall|i: int|
            0 <= i < self.users.len() ==> (#[trigger] self.users[i]).id.value < self.next_id
        &&& forall|i: int|
            0 <= i < self.images.len() ==> (#[trigger] self.images[i]).id.value < self.next_id
        &&& forall|i: int|
            0 <= i < self.versions.len() ==> (#[trigger] self.versions[i]).id.value < self.next_id
        &&& forall|i: int|
            0 <= i < self.jobs.len() ==> (#[trigger] self.jobs[i]).id.value < self.next_id
        &&& self.transaction matches Some(marks) ==> {
            &&& marks.users <= self.users.len()
            &&& marks.images <= self.images.len()
            &&& marks.versions <= self.versions.len()
            &&& marks.jobs <= self.jobs.len()
            &&& marks.next_id <= self.next_id
            &&& forall|i: int|
                0 <= i < marks.users ==> (#[trigger] self.users[i]).id.value < marks.next_id
            &&& forall|i: int|
                0 <= i < marks.images ==> (#[trigger] self.images[i]).id.value < marks.next_id
            &&& forall|i: int|
                0 <= i < marks.versions ==> (#[trigger] self.versions[i]).id.value
                    < marks.next_id
            &&& forall|i: int|
                0 <= i < marks.jobs ==> (#[trigger] self.jobs[i]).id.value < marks.next_id
        }
    }

    /// Whether a user stands at `index` with the given identifier.
    pub open spec fn user_at(self, id: Uuid, index: int) -> bool {
        user_at(self.users, id, index)
    }

    /// The user with the given identifier.
    pub open spec fn user(self, id: Uuid) -> Option<UserView> {
        find_user(self.users, id)
    }

    /// Whether a user stands at `index` with the given email.
    pub open spec fn email_at(self, email: Seq<char>, index: int) -> bool {
        email_at(self.users, email, index)
    }

    /// The user with the given email.
    pub open spec fn user_by_email(self, email: Seq<char>) -> Option<UserView> {
        find_user_by_email(self.users, email)
    }

    /// Whether an image stands at `index` with the given identifier.
    pub open spec fn image_at(self, id: Uuid, index: int) -> bool {
        image_at(self.images, id, index)
    }

    /// The image with the given identifier.
    pub open spec fn image(self, id: Uuid) -> Option<ImageView> {
        find_image(self.images, id)
    }

    /// The images of a user, oldest first.
    pub open spec fn images_of_user(self, user_id: Uuid) -> Seq<ImageView> {
        images_of(self.images, user_id)
    }

    /// The versions of an image, oldest first.
    pub open spec fn versions_of_image(self, image_id: Uuid) -> Seq<ImageVersionView> {
        versions_of(self.versions, image_id)
    }

    /// The jobs of a user, oldest first.
    pub open spec fn jobs_of_user(self, user_id: Uuid) -> Seq<Job> {
        jobs_of(self.jobs, user_id)
    }

    /// Whether a row can be added: an identifier is left.
    pub open spec fn has_room(self) -> bool {
        self.next_id < u128::MAX
    }

    /// The identifier that the next row gets.
    pub open spec fn fresh_id(self) -> Uuid {
        Uuid { value: self.next_id }
    }

    /// The store with a transaction opened.
    pub open spec fn begun(self) -> RecordsView {
        RecordsView {
            transaction: Some(
                Marks {
                    users: self.users.len(),
                    images: self.images.len(),
                    versions: self.versions.len(),
                    jobs: self.jobs.len(),
                    next_id: self.next_id,
                },
            ),
            ..self
        }
    }

    /// The store with the open transaction committed.
    pub open spec fn committed(self) -> RecordsView {
        RecordsView { transaction: None, ..self }
    }

    /// The store with the open transaction rolled back.
    pub open spec fn rolled_back(self) -> RecordsView {
        match self.transaction {
            Some(marks) => RecordsView {
                users: self.users.take(marks.users as int),
                images: self.images.take(marks.images as int),
                versions: self.versions.take(marks.versions as int),
                jobs: self.jobs.take(marks.jobs as int),
                next_id: marks.next_id,
                transaction: None,
            },
            None => self,
        }
    }

    /// The user that an insertion adds.
    pub open spec fn new_user(
        self,
        email: Seq<char>,
        password_hash: Seq<char>,
        now: Timestamp,
    ) -> UserView {
        UserView { id: self.fresh_id(), email, password_hash, created_at: now }
    }

    /// Whether a user with the given email can be added: an identifier is
    /// left and no user has that email.
    pub open spec fn admits_user(self, email: Seq<char>) -> bool {
        self.has_room() && self.user_by_email(email) is None
    }

    /// The store with a user added.
    pub open spec fn with_user(self, user: UserView) -> RecordsView {
        RecordsView {
            users: self.users.push(user),
            next_id: (self.next_id + 1) as u128,
            ..self
        }
    }

    /// The image that an insertion adds.
    pub open spec fn new_image(
        self,
        user_id: Uuid,
        nickname: Seq<char>,
        image_url: Seq<char>,
        now: Timestamp,
    ) -> ImageView {
        ImageView { id: self.fresh_id(), user_id, nickname, image_url, created_at: now }
    }

    /// The store with an image added.
    pub open spec fn with_image(self, image: ImageView) -> RecordsView {
        RecordsView {
            images: self.images.push(image),
            next_id: (self.next_id + 1) as u128,
            ..self
        }
    }

    /// The image version that an insertion adds.
    pub open spec fn new_version(
        self,
        image_id: Uuid,
        hash: Seq<char>,
        version_number: Seq<char>,
        now: Timestamp,
    ) -> ImageVersionView {
        ImageVersionView { id: self.fresh_id(), image_id, hash, version_number, created_at: now }
    }

    /// The store with an image version added.
    pub open spec fn with_version(self, version: ImageVersionView) -> RecordsView {
        RecordsView {
            versions: self.versions.push(version),
            next_id: (self.next_id + 1) as u128,
            ..self
        }
    }

    /// The job that an insertion adds.
    pub open spec fn new_job(
        self,
        user_id: Uuid,
        status: JobStatus,
        image_version_id: Uuid,
        now: Timestamp,
    ) -> Job {
        Job {
            id: self.fresh_id(),
            user_id,
            status,
            image_version_id,
            created_at: now,
            updated_at: now,
        }
    }

    /// The store with a job added.
    pub open spec fn with_job(self, job: Job) -> RecordsView {
        RecordsView { jobs: self.jobs.push(job), next_id: (self.next_id + 1) as u128, ..self }
    }

    /// Adding a user that the store admits keeps the store consistent.
    pub proof fn with_user_is_consistent(self, user: UserView)
        requires
            self.wf(),
            self.admits_user(user.email),
            user.id == self.fresh_id(),
        ensures
            self.with_user(user).wf(),
    {
        let after = self.with_user(user);
        assert forall|i: int, j: int|
            #![trigger after.users[i], after.users[j]]
            0 <= i < j < after.users.len() implies after.users[i].id != after.users[j].id
            && after.users[i].email != after.users[j].email by {
            if j == self.users.len() {
                assert(self.users[i].id.value < self.next_id);
                assert(!email_at(self.users, user.email, i));
            } else {
                assert(self.users[i].id != self.users[j].id);
            }
        }
        assert forall|i: int| 0 <= i < after.users.len() implies (#[trigger] after.users[i]).id.value
            < after.next_id by {
            if i < self.users.len() {
                assert(self.users[i].id.value < self.next_id);
            }
        }
    }

    /// Adding an image with the next identifier keeps the store
    /// consistent.
    pub proof fn with_image_is_consistent(self, image: ImageView)
        requires
            self.wf(),
            self.has_room(),
            image.id == self.fresh_id(),
        ensures
            self.with_image(image).wf(),
    {
        let after = self.with_image(image);
        assert forall|i: int, j: int|
            #![trigger after.images[i], after.images[j]]
            0 <= i < j < after.images.len() implies after.images[i].id != after.images[j].id by {
            if j == self.images.len() {
                assert(self.images[i].id.value < self.next_id);
            } else {
                assert(self.images[i].id != self.images[j].id);
            }
        }
        assert forall|i: int| 0 <= i < after.images.len() implies (
        #[trigger] after.images[i]).id.value < after.next_id by {
            if i < self.images.len() {
                assert(self.images[i].id.value < self.next_id);
            }
        }
    }

    /// Adding an image version with the next identifier keeps the store
    /// consistent.
    pub proof fn with_version_is_consistent(self, version: ImageVersionView)
        requires
            self.wf(),
            self.has_room(),
            version.id == self.fresh_id(),
        ensures
            self.with_version(version).wf(),
    {
        let after = self.with_version(version);
        assert forall|i: int, j: int|
            #![trigger after.versions[i], after.versions[j]]
            0 <= i < j < after.versions.len() implies after.versions[i].id
            != after.versions[j].id by {
            if j == self.versions.len() {
                assert(self.versions[i].id.value < self.next_id);
            } else {
                assert(self.versions[i].id != self.versions[j].id);
            }
        }
        assert forall|i: int| 0 <= i < after.versions.len() implies (
        #[trigger] after.versions[i]).id.value < after.next_id by {
            if i < self.versions.len() {
                assert(self.versions[i].id.value < self.next_id);
            }
        }
    }

    /// Adding a job with the next identifier keeps the store consistent.
    pub proof fn with_job_is_consistent(self, job: Job)
        requires
            self.wf(),
            self.has_room(),
            job.id == self.fresh_id(),
        ensures
            self.with_job(job).wf(),
    {
        let after = self.with_job(job);
        assert forall|i: int, j: int|
            #![trigger after.jobs[i], after.jobs[j]]
            0 <= i < j < after.jobs.len() implies after.jobs[i].id != after.jobs[j].id by {
            if j == self.jobs.len() {
                assert(self.jobs[i].id.value < self.next_id);
            } else {
                assert(self.jobs[i].id != self.jobs[j].id);
            }
        }
        assert forall|i: int| 0 <= i < after.jobs.len() implies (#[trigger] after.jobs[i]).id.value
            < after.next_id by {
            if i < self.jobs.len() {
                assert(self.jobs[i].id.value < self.next_id);
            }
        }
    }

    /// Rolling back a transaction in which nothing was written leaves
    /// the store as it was before the transaction.
    pub proof fn rollback_of_nothing(self)
        requires
            self.transaction is None,
        ensures
            self.begun().rolled_back() == self,
    {
        let back = self.begun().rolled_back();
        assert(back.users =~= self.users);
        assert(back.images =~= self.images);
        assert(back.versions =~= self.versions);
        assert(back.jobs =~= self.jobs);
    }

    /// Rolling back a transaction in which a user was written leaves the
    /// store as it was before the transaction.
    pub proof fn rollback_of_user(self, user: UserView)
        requires
            self.transaction is None,
        ensures
            self.begun().with_user(user).rolled_back() == self,
    {
        let back = self.begun().with_user(user).rolled_back();
        assert(back.users =~= self.users);
        assert(back.images =~= self.images);
        assert(back.versions =~= self.versions);
        assert(back.jobs =~= self.jobs);
    }

    /// Rolling back a transaction in which an image was written leaves
    /// the store as it was before the transaction.
    pub proof fn rollback_of_image(self, image: ImageView)
        requires
            self.transaction is None,
        ensures
            self.begun().with_image(image).rolled_back() == self,
    {
        let back = self.begun().with_image(image).rolled_back();
        assert(back.users =~= self.users);
        assert(back.images =~= self.images);
        assert(back.versions =~= self.versions);
        assert(back.jobs =~= self.jobs);
    }

    /// Rolling back a transaction in which a job was written leaves the
    /// store as it was before the transaction: the job never existed.
    pub proof fn rollback_of_job(self, job: Job)
        requires
            self.transaction is None,
        ensures
            self.begun().with_job(job).rolled_back() == self,
    {
        let back = self.begun().with_job(job).rolled_back();
        assert(back.users =~= self.users);
        assert(back.images =~= self.images);
        assert(back.versions =~= self.versions);
        assert(back.jobs =~= self.jobs);
    }

    /// Where a user stands with an identifier, `user` finds that user.
    pub proof fn user_found(self, id: Uuid, index: int)
        requires
            self.wf(),
            self.user_at(id, index),
        ensures
            self.user(id) == Some(self.users[index]),
    {
        let chosen = choose|index: int| user_at(self.users, id, index);
        assert(self.user_at(id, chosen));
        if chosen < index {
            assert(self.users[chosen].id != self.users[index].id);
        }
        if index < chosen {
            assert(self.users[index].id != self.users[chosen].id);
        }
    }

    /// Where a user stands with an email, `user_by_email` finds that user.
    pub proof fn email_found(self, email: Seq<char>, index: int)
        requires
            self.wf(),
            self.email_at(email, index),
        ensures
            self.user_by_email(email) == Some(self.users[index]),
    {
        let chosen = choose|index: int| email_at(self.users, email, index);
        assert(self.email_at(email, chosen));
        if chosen < index {
            assert(self.users[chosen].email != self.users[index].email);
        }
        if index < chosen {
            assert(self.users[index].email != self.users[chosen].email);
        }
    }

    /// Where an image stands with an identifier, `image` finds that image.
    pub proof fn image_found(self, id: Uuid, index: int)
        requires
            self.wf(),
            self.image_at(id, index),
        ensures
            self.image(id) == Some(self.images[index]),
    {
        let chosen = choose|index: int| image_at(self.images, id, index);
        assert(self.image_at(id, chosen));
        if chosen < index {
            assert(self.images[chosen].id != self.images[index].id);
        }
        if index < chosen {
            assert(self.images[index].id != self.images[chosen].id);
        }
    }
}

/// The views of a sequence of users, in order.
pub open spec fn user_views(users: Seq<User>) -> Seq<UserView> {
    users.map_values(|user: User| user@)
}

/// The view of a user that may be absent.
pub open spec fn user_view(user: Option<User>) -> Option<UserView> {
    match user {
        Some(user) => Some(user@),
        None => None,
    }
}

/// The view of an image that may be absent.
pub open spec fn image_view(image: Option<Image>) -> Option<ImageView> {
    match image {
        Some(image) => Some(image@),
        None => None,
    }
}

/// A record store in memory.
pub struct RecordStore {
    users: Vec<User>,
    images: Vec<Image>,
    versions: Vec<ImageVersion>,
    jobs: Vec<Job>,
    next_id: u128,
    transaction: Option<Opened>,
}

impl View for RecordStore {
    type V = RecordsView;

    closed spec fn view(&self) -> RecordsView {
        RecordsView {
            users: user_views(self.users@),
            images: image_views(self.images@),
            versions: version_views(self.versions@),
            jobs: self.jobs@,
            next_id: self.next_id,
            transaction: match self.transaction {
                Some(opened) => Some(opened@),
                None => None,
            },
        }
    }
}

impl RecordStore {
    /// A store that holds nothing.
    pub fn new() -> (store: RecordStore)
        ensures
            store@ == RecordsView::empty(),
            store@.wf(),
    {
        let store = RecordStore {
            users: Vec::new(),
            images: Vec::new(),
            versions: Vec::new(),
            jobs: Vec::new(),
            next_id: 0,
            transaction: None,
        };
        assert(store@.users =~= Seq::<UserView>::empty());
        assert(store@.images =~= Seq::<ImageView>::empty());
        assert(store@.versions =~= Seq::<ImageVersionView>::empty());
        store
    }

    /// Whether a transaction is open.
    pub fn in_transaction(&self) -> (open: bool)
        ensures
            open == (self@.transaction is Some),
    {
        self.transaction.is_some()
    }

    /// Opens a transaction. Fails where one is open already.
    pub fn begin(&mut self) -> (opened: bool)
        requires
            old(self)@.wf(),
        ensures
            opened == (old(self)@.transaction is None),
            opened ==> final(self)@ == old(self)@.begun(),
            !opened ==> final(self)@ == old(self)@,
            final(self)@.wf(),
    {
        if self.transaction.is_some() {
            return false;
        }
        self.transaction = Some(
            Opened {
                users: self.users.len(),
                images: self.images.len(),
                versions: self.versions.len(),
                jobs: self.jobs.len(),
                next_id: self.next_id,
            },
        );
        true
    }

    /// Commits the open transaction. Fails where none is open.
    pub fn commit(&mut self) -> (committed: bool)
        requires
            old(self)@.wf(),
        ensures
            committed == (old(self)@.transaction is Some),
            committed ==> final(self)@ == old(self)@.committed(),
            !committed ==> final(self)@ == old(self)@,
            final(self)@.wf(),
    {
        if self.transaction.is_none() {
            return false;
        }
        self.transaction = None;
        true
    }

    /// Rolls the open transaction back. Fails where none is open.
    pub fn rollback(&mut self) -> (rolled_back: bool)
        requires
            old(self)@.wf(),
        ensures
            rolled_back == (old(self)@.transaction is Some),
            final(self)@ == old(self)@.rolled_back(),
            final(self)@.wf(),
    {
        match self.transaction {
            Some(opened) => {
                self.users.truncate(opened.users);
                self.images.truncate(opened.images);
                self.versions.truncate(opened.versions);
                self.jobs.truncate(opened.jobs);
                self.next_id = opened.next_id;
                self.transaction = None;
                proof {
                    let before = old(self)@;
                    let after = self@;
                    let marks = opened@;
                    assert(after.users =~= before.users.take(marks.users as int));
                    assert(after.images =~= before.images.take(marks.images as int));
                    assert(after.versions =~= before.versions.take(marks.versions as int));
                    assert(after.jobs =~= before.jobs.take(marks.jobs as int));
                    assert(after == before.rolled_back());
                    assert(forall|i: int|
                        0 <= i < after.users.len() ==> after.users[i] == before.users[i]);
                    assert(forall|i: int|
                        0 <= i < after.images.len() ==> after.images[i] == before.images[i]);
                    assert(forall|i: int|
                        0 <= i < after.versions.len() ==> after.versions[i] == before.versions[i]);
                    assert(forall|i: int|
                        0 <= i < after.jobs.len() ==> after.jobs[i] == before.jobs[i]);
                }
                true
            },
            None => false,
        }
    }

    /// Reads the user with the given identifier.
    pub fn read_user(&self, id: Uuid) -> (found: Option<User>)
        requires
            self@.wf(),
        ensures
            user_view(found) == self@.user(id),
    {
        let mut index: usize = 0;
        while index < self.users.len()
            invariant
                self@.wf(),
                index <= self.users.len(),
                forall|earlier: int| 0 <= earlier < index ==> !user_at(self@.users, id, earlier),
            decreases self.users.len() - index,
        {
            if self.users[index].id == id {
                proof {
                    self@.user_found(id, index as int);
                }
                return Some(self.users[index].clone());
            }
            index = index + 1;
        }
        None
    }

    /// Reads the user with the given email.
    pub fn read_user_by_email(&self, email: &str) -> (found: Option<User>)
        requires
            self@.wf(),
        ensures
            user_view(found) == self@.user_by_email(email@),
    {
        let mut index: usize = 0;
        while index < self.users.len()
            invariant
                self@.wf(),
                index <= self.users.len(),
                forall|earlier: int|
                    0 <= earlier < index ==> !email_at(self@.users, email@, earlier),
            decreases self.users.len() - index,
        {
            if same_text(self.users[index].email.as_str(), email) {
                proof {
                    self@.email_found(email@, index as int);
                }
                return Some(self.users[index].clone());
            }
            index = index + 1;
        }
        None
    }

    /// Reads the image with the given identifier.
    pub fn read_image(&self, id: Uuid) -> (found: Option<Image>)
        requires
            self@.wf(),
        ensures
            image_view(found) == self@.image(id),
    {
        let mut index: usize = 0;
        while index < self.images.len()
            invariant
                self@.wf(),
                index <= self.images.len(),
                forall|earlier: int| 0 <= earlier < index ==> !image_at(self@.images, id, earlier),
            decreases self.images.len() - index,
        {
            if self.images[index].id == id {
                proof {
                    self@.image_found(id, index as int);
                }
                return Some(self.images[index].clone());
            }
            index = index + 1;
        }
        None
    }

    /// Reads the images of a user, oldest first.
    pub fn read_images_where_user_id(&self, user_id: Uuid) -> (found: Vec<Image>)
        ensures
            image_views(found@) == self@.images_of_user(user_id),
    {
        filter_images(&self.images, user_id)
    }

    /// Reads the versions of an image, oldest first.
    pub fn read_versions_where_image_id(&self, image_id: Uuid) -> (found: Vec<ImageVersion>)
        ensures
            version_views(found@) == self@.versions_of_image(image_id),
    {
        filter_versions(&self.versions, image_id)
    }

    /// Reads the jobs of a user, oldest first.
    pub fn read_jobs_where_user_id(&self, user_id: Uuid) -> (found: Vec<Job>)
        ensures
            found@ == self@.jobs_of_user(user_id),
    {
        filter_jobs(&self.jobs, user_id)
    }

    /// Adds a user. Fails, and changes nothing, where the email is taken
    /// or no identifier is left.
    pub fn insert_user(&mut self, email: String, password_hash: String, now: Timestamp) -> (inserted:
        Option<User>)
        requires
            old(self)@.wf(),
        ensures
            final(self)@.wf(),
            match inserted {
                Some(user) => {
                    &&& old(self)@.admits_user(email@)
                    &&& user@ == old(self)@.new_user(email@, password_hash@, now)
                    &&& final(self)@ == old(self)@.with_user(user@)
                },
                None => !old(self)@.admits_user(email@) && final(self)@ == old(self)@,
            },
    {
        if self.next_id == u128::MAX {
            return None;
        }
        if self.read_user_by_email(email.as_str()).is_some() {
            return None;
        }
        let user = User { id: Uuid { value: self.next_id }, email, password_hash, created_at: now };
        let shown = user.clone();
        self.users.push(user);
        self.next_id = self.next_id + 1;
        proof {
            let before = old(self)@;
            assert(self@.users =~= before.users.push(shown@));
            before.with_user_is_consistent(shown@);
        }
        Some(shown)
    }

    /// Adds an image. Fails, and changes nothing, where no identifier is
    /// left.
    pub fn insert_image(
        &mut self,
        user_id: Uuid,
        nickname: String,
        image_url: String,
        now: Timestamp,
    ) -> (inserted: Option<Image>)
        requires
            old(self)@.wf(),
        ensures
            final(self)@.wf(),
            match inserted {
                Some(image) => {
                    &&& old(self)@.has_room()
                    &&& image@ == old(self)@.new_image(user_id, nickname@, image_url@, now)
                    &&& final(self)@ == old(self)@.with_image(image@)
                },
                None => !old(self)@.has_room() && final(self)@ == old(self)@,
            },
    {
        if self.next_id == u128::MAX {
            return None;
        }
        let image = Image {
            id: Uuid { value: self.next_id },
            user_id,
            nickname,
            image_url,
            created_at: now,
        };
        let shown = image.clone();
        self.images.push(image);
        self.next_id = self.next_id + 1;
        proof {
            let before = old(self)@;
            assert(self@.images =~= before.images.push(shown@));
            before.with_image_is_consistent(shown@);
        }
        Some(shown)
    }

    /// Adds an image version. Fails, and changes nothing, where no
    /// identifier is left.
    pub fn insert_version(
        &mut self,
        image_id: Uuid,
        hash: String,
        version_number: String,
        now: Timestamp,
    ) -> (inserted: Option<ImageVersion>)
        requires
            old(self)@.wf(),
        ensures
            final(self)@.wf(),
            match inserted {
                Some(version) => {
                    &&& old(self)@.has_room()
                    &&& version@ == old(self)@.new_version(image_id, hash@, version_number@, now)
                    &&& final(self)@ == old(self)@.with_version(version@)
                },
                None => !old(self)@.has_room() && final(self)@ == old(self)@,
            },
    {
        if self.next_id == u128::MAX {
            return None;
        }
        let version = ImageVersion {
            id: Uuid { value: self.next_id },
            image_id,
            hash,
            version_number,
            created_at: now,
        };
        let shown = version.clone();
        self.versions.push(version);
        self.next_id = self.next_id + 1;
        proof {
            let before = old(self)@;
            assert(self@.versions =~= before.versions.push(shown@));
            before.with_version_is_consistent(shown@);
        }
        Some(shown)
    }

    /// Adds a job. Fails, and changes nothing, where no identifier is
    /// left.
    pub fn insert_job(
        &mut self,
        user_id: Uuid,
        status: JobStatus,
        image_version_id: Uuid,
        now: Timestamp,
    ) -> (inserted: Option<Job>)
        requires
            old(self)@.wf(),
        ensures
            final(self)@.wf(),
            match inserted {
                Some(job) => {
                    &&& old(self)@.has_room()
                    &&& job == old(self)@.new_job(user_id, status, image_version_id, now)
                    &&& final(self)@ == old(self)@.with_job(job)
                },
                None => !old(self)@.has_room() && final(self)@ == old(self)@,
            },
    {
        if self.next_id == u128::MAX {
            return None;
        }
        let job = Job {
            id: Uuid { value: self.next_id },
            user_id,
            status,
            image_version_id,
            created_at: now,
            updated_at: now,
        };
        self.jobs.push(job);
        self.next_id = self.next_id + 1;
        proof {
            let before = old(self)@;
            assert(self@.jobs =~= before.jobs.push(job));
            before.with_job_is_consistent(job);
        }
        Some(job)
    }
}

} // verus!
