//! The records of the domain: users, images, image versions and jobs.
//!
//! Each record is plain data. Its view replaces every string by the
//! sequence of its characters; contracts speak of views, so that two
//! records with the same contents are the same record.

use vstd::prelude::*;
use crate::ids::Uuid;

verus! {

/// A point in time, in microseconds since the Unix epoch.
pub type Timestamp = i64;

/// A registered user. Created once at registration; owns images and jobs.
#[derive(Debug)]
pub struct User {
    pub id: Uuid,
    pub email: String,
    pub password_hash: String,
    pub created_at: Timestamp,
}

pub struct UserView {
    pub id: Uuid,
    pub email: Seq<char>,
    pub password_hash: Seq<char>,
    pub created_at: Timestamp,
}

impl View for User {
    type V = UserView;

    open spec fn view(&self) -> UserView {
        UserView {
            id: self.id,
            email: self.email@,
            password_hash: self.password_hash@,
            created_at: self.created_at,
        }
    }
}

impl Clone for User {
    fn clone(&self) -> (copy: Self)
        ensures
            copy == *self,
    {
        User {
            id: self.id,
            email: self.email.clone(),
            password_hash: self.password_hash.clone(),
            created_at: self.created_at,
        }
    }
}

/// The identifier of the user, where there is a user.
pub open spec fn id_of(user: Option<&User>) -> Option<Uuid> {
    match user {
        Some(user) => Some(user.id),
        None => None,
    }
}

/// A user as shown to clients: without the password hash.
#[derive(Debug)]
pub struct NonSecureUser {
    pub id: Uuid,
    pub email: String,
    pub created_at: Timestamp,
}

pub struct NonSecureUserView {
    pub id: Uuid,
    pub email: Seq<char>,
    pub created_at: Timestamp,
}

impl View for NonSecureUser {
    type V = NonSecureUserView;

    open spec fn view(&self) -> NonSecureUserView {
        NonSecureUserView { id: self.id, email: self.email@, created_at: self.created_at }
    }
}

impl Clone for NonSecureUser {
    fn clone(&self) -> (copy: Self)
        ensures
            copy == *self,
    {
        NonSecureUser { id: self.id, email: self.email.clone(), created_at: self.created_at }
    }
}

impl UserView {
    /// The user without the password hash.
    pub open spec fn public(self) -> NonSecureUserView {
        NonSecureUserView { id: self.id, email: self.email, created_at: self.created_at }
    }
}

impl User {
    /// Drops the password hash.
    pub fn to_public(&self) -> (shown: NonSecureUser)
        ensures
            shown@ == self@.public(),
    {
        NonSecureUser { id: self.id, email: self.email.clone(), created_at: self.created_at }
    }
}

/// A deployable artifact registered by a user: a name and a location.
#[derive(Debug)]
pub struct Image {
    pub id: Uuid,
    pub user_id: Uuid,
    pub nickname: String,
    pub image_url: String,
    pub created_at: Timestamp,
}

pub struct ImageView {
    pub id: Uuid,
    pub user_id: Uuid,
    pub nickname: Seq<char>,
    pub image_url: Seq<char>,
    pub created_at: Timestamp,
}

impl View for Image {
    type V = ImageView;

    open spec fn view(&self) -> ImageView {
        ImageView {
            id: self.id,
            user_id: self.user_id,
            nickname: self.nickname@,
            image_url: self.image_url@,
            created_at: self.created_at,
        }
    }
}

impl Clone for Image {
    fn clone(&self) -> (copy: Self)
        ensures
            copy == *self,
    {
        Image {
            id: self.id,
            user_id: self.user_id,
            nickname: self.nickname.clone(),
            image_url: self.image_url.clone(),
            created_at: self.created_at,
        }
    }
}

/// One version of an image. Never changed once created.
#[derive(Debug)]
pub struct ImageVersion {
    pub id: Uuid,
    pub image_id: Uuid,
    pub hash: String,
    pub version_number: String,
    pub created_at: Timestamp,
}

pub struct ImageVersionView {
    pub id: Uuid,
    pub image_id: Uuid,
    pub hash: Seq<char>,
    pub version_number: Seq<char>,
    pub created_at: Timestamp,
}

impl View for ImageVersion {
    type V = ImageVersionView;

    open spec fn view(&self) -> ImageVersionView {
        ImageVersionView {
            id: self.id,
            image_id: self.image_id,
            hash: self.hash@,
            version_number: self.version_number@,
            created_at: self.created_at,
        }
    }
}

impl Clone for ImageVersion {
    fn clone(&self) -> (copy: Self)
        ensures
            copy == *self,
    {
        ImageVersion {
            id: self.id,
            image_id: self.image_id,
            hash: self.hash.clone(),
            version_number: self.version_number.clone(),
            created_at: self.created_at,
        }
    }
}

/// Where a job stands.
#[derive(Clone, Copy, Debug, PartialEq, Eq, Structural)]
pub enum JobStatus {
    Completed,
    Failed,
    Pending,
}

/// A request to run one image version as a remote machine.
#[derive(Clone, Copy, Debug, PartialEq, Eq, Structural)]
pub struct Job {
    pub id: Uuid,
    pub user_id: Uuid,
    pub status: JobStatus,
    pub image_version_id: Uuid,
    pub created_at: Timestamp,
    pub updated_at: Timestamp,
}

/// The views of a sequence of images, in order.
pub open spec fn image_views(images: Seq<Image>) -> Seq<ImageView> {
    images.map_values(|image: Image| image@)
}

/// The views of a sequence of image versions, in order.
pub open spec fn version_views(versions: Seq<ImageVersion>) -> Seq<ImageVersionView> {
    versions.map_values(|version: ImageVersion| version@)
}

} // verus!
