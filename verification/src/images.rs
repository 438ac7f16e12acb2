//! Images: registering one, listing a user's images, and listing the
//! versions of an image.
//!
//! A fresh image comes with one version, numbered `latest` and with an
//! empty hash. Both rows are written in one transaction, so that no image
//! is ever without a version.

use vstd::prelude::*;
use vstd::string::*;
use crate::errors::Error;
use crate::ids::Uuid;
use crate::models::{id_of, Image, ImageView, User};
use crate::ownership::{filter_images, filter_versions, images_of, versions_of};
use crate::protocol::{Action, ActionView, Body, BodyView, Event, EventView, Response, ResponseView};

verus! {

/// The number of the version that a fresh image comes with.
pub open spec fn first_version_number() -> Seq<char> {
    "latest"@
}

/// The hash of the version that a fresh image comes with.
pub open spec fn first_version_hash() -> Seq<char> {
    ""@
}

/// A request to register an image.
#[derive(Debug)]
pub struct CreateImage {
    pub nickname: String,
    pub image_url: String,
}

pub struct CreateImageView {
    pub nickname: Seq<char>,
    pub image_url: Seq<char>,
}

impl View for CreateImage {
    type V = CreateImageView;

    open spec fn view(&self) -> CreateImageView {
        CreateImageView { nickname: self.nickname@, image_url: self.image_url@ }
    }
}

/// Where an image handler stands.
#[derive(Debug)]
pub enum ImageFlow {
    /// Registering: the transaction is being opened.
    Opening { user_id: Uuid, request: CreateImage },
    /// Registering: the image row is being written.
    InsertingImage { user_id: Uuid },
    /// Registering: the first version's row is being written.
    InsertingVersion { image: Image },
    /// Registering: the transaction is being committed.
    Committing { image: Image },
    /// Registering: the request has failed; the transaction is being
    /// rolled back.
    Aborting { error: Error },
    /// Listing images: the user's images are being read.
    Listing { user_id: Uuid },
    /// Listing versions: the image is being loaded.
    CheckingOwner { user_id: Uuid, image_id: Uuid },
    /// Listing versions: the requester owns the image; its versions are
    /// being read.
    ListingVersions { image_id: Uuid },
}

pub enum ImageFlowView {
    Opening { user_id: Uuid, request: CreateImageView },
    InsertingImage { user_id: Uuid },
    InsertingVersion { image: ImageView },
    Committing { image: ImageView },
    Aborting { error: Error },
    Listing { user_id: Uuid },
    CheckingOwner { user_id: Uuid, image_id: Uuid },
    ListingVersions { image_id: Uuid },
}

impl View for ImageFlow {
    type V = ImageFlowView;

    open spec fn view(&self) -> ImageFlowView {
        match self {
            ImageFlow::Opening { user_id, request } => ImageFlowView::Opening {
                user_id: *user_id,
                request: request@,
            },
            ImageFlow::InsertingImage { user_id } => ImageFlowView::InsertingImage {
                user_id: *user_id,
            },
            ImageFlow::InsertingVersion { image } => ImageFlowView::InsertingVersion {
                image: image@,
            },
            ImageFlow::Committing { image } => ImageFlowView::Committing { image: image@ },
            ImageFlow::Aborting { error } => ImageFlowView::Aborting { error: *error },
            ImageFlow::Listing { user_id } => ImageFlowView::Listing { user_id: *user_id },
            ImageFlow::CheckingOwner { user_id, image_id } => ImageFlowView::CheckingOwner {
                user_id: *user_id,
                image_id: *image_id,
            },
            ImageFlow::ListingVersions { image_id } => ImageFlowView::ListingVersions {
                image_id: *image_id,
            },
        }
    }
}

/// The view of a handler that may have finished.
pub open spec fn image_flow_view(flow: Option<ImageFlow>) -> Option<ImageFlowView> {
    match flow {
        Some(flow) => Some(flow@),
        None => None,
    }
}

/// Leaves the transaction: the handler rolls back and will then report
/// `error`.
pub open spec fn abort(error: Error) -> (Option<ImageFlowView>, ActionView) {
    (Some(ImageFlowView::Aborting { error }), ActionView::Rollback)
}

/// How registering an image begins.
pub open spec fn create_image_start(user_id: Option<Uuid>, request: CreateImageView) -> (
    Option<ImageFlowView>,
    ActionView,
) {
    match user_id {
        Some(user_id) => (Some(ImageFlowView::Opening { user_id, request }), ActionView::Begin),
        None => (None, ActionView::fail(Error::Unauthenticated)),
    }
}

/// How listing a user's images begins.
pub open spec fn get_images_start(user_id: Option<Uuid>) -> (Option<ImageFlowView>, ActionView) {
    match user_id {
        Some(user_id) => (
            Some(ImageFlowView::Listing { user_id }),
            ActionView::ReadImagesOfUser { user_id },
        ),
        None => (None, ActionView::fail(Error::Unauthenticated)),
    }
}

/// How listing the versions of an image begins: by loading the image, so
/// that its owner can be checked.
pub open spec fn get_image_versions_start(user_id: Option<Uuid>, image_id: Uuid) -> (
    Option<ImageFlowView>,
    ActionView,
) {
    match user_id {
        Some(user_id) => (
            Some(ImageFlowView::CheckingOwner { user_id, image_id }),
            ActionView::ReadImage { id: image_id },
        ),
        None => (None, ActionView::fail(Error::Unauthenticated)),
    }
}

/// What an image handler does on an event.
pub open spec fn image_step(flow: ImageFlowView, event: EventView) -> (
    Option<ImageFlowView>,
    ActionView,
) {
    match flow {
        ImageFlowView::Opening { user_id, request } => match event {
            EventView::Done => (
                Some(ImageFlowView::InsertingImage { user_id }),
                ActionView::InsertImage {
                    user_id,
                    nickname: request.nickname,
                    image_url: request.image_url,
                },
            ),
            _ => (None, ActionView::fail(Error::StoreError)),
        },
        ImageFlowView::InsertingImage { user_id } => match event {
            EventView::Image(Some(image)) => if image.user_id == user_id {
                (
                    Some(ImageFlowView::InsertingVersion { image }),
                    ActionView::InsertVersion {
                        image_id: image.id,
                        hash: first_version_hash(),
                        version_number: first_version_number(),
                    },
                )
            } else {
                abort(Error::StoreError)
            },
            _ => abort(Error::StoreError),
        },
        ImageFlowView::InsertingVersion { image } => match event {
            EventView::Version(version) => if version.image_id == image.id {
                (Some(ImageFlowView::Committing { image }), ActionView::Commit)
            } else {
                abort(Error::StoreError)
            },
            _ => abort(Error::StoreError),
        },
        ImageFlowView::Committing { image } => match event {
            EventView::Done => (
                None,
                ActionView::Respond { response: ResponseView::created(BodyView::Image(image)) },
            ),
            _ => (None, ActionView::fail(Error::StoreError)),
        },
        ImageFlowView::Aborting { error } => (None, ActionView::fail(error)),
        ImageFlowView::Listing { user_id } => match event {
            EventView::Images(images) => (
                None,
                ActionView::Respond {
                    response: ResponseView::ok(BodyView::Images(images_of(images, user_id))),
                },
            ),
            _ => (None, ActionView::fail(Error::StoreError)),
        },
        ImageFlowView::CheckingOwner { user_id, image_id } => match event {
            EventView::Image(Some(image)) => if image.id != image_id {
                (None, ActionView::fail(Error::NotFound))
            } else if image.user_id != user_id {
                (None, ActionView::fail(Error::Unauthorized))
            } else {
                (
                    Some(ImageFlowView::ListingVersions { image_id }),
                    ActionView::ReadVersionsOfImage { image_id },
                )
            },
            EventView::Image(None) => (None, ActionView::fail(Error::NotFound)),
            _ => (None, ActionView::fail(Error::StoreError)),
        },
        ImageFlowView::ListingVersions { image_id } => match event {
            EventView::Versions(versions) => (
                None,
                ActionView::Respond {
                    response: ResponseView::ok(BodyView::Versions(versions_of(versions, image_id))),
                },
            ),
            _ => (None, ActionView::fail(Error::StoreError)),
        },
    }
}

fn abort_with(error: Error) -> (next: (Option<ImageFlow>, Action))
    ensures
        (image_flow_view(next.0), next.1@) == abort(error),
{
    (Some(ImageFlow::Aborting { error }), Action::Rollback)
}

/// Begins registering an image for the authenticated user, if there is
/// one.
pub fn create_image(user: Option<&User>, request: CreateImage) -> (next: (
    Option<ImageFlow>,
    Action,
))
    ensures
        (image_flow_view(next.0), next.1@) == create_image_start(id_of(user), request@),
{
    match user {
        Some(user) => (Some(ImageFlow::Opening { user_id: user.id, request }), Action::Begin),
        None => (None, Action::fail(Error::Unauthenticated)),
    }
}

/// Begins listing the images of the authenticated user, if there is one.
pub fn get_images(user: Option<&User>) -> (next: (Option<ImageFlow>, Action))
    ensures
        (image_flow_view(next.0), next.1@) == get_images_start(id_of(user)),
{
    match user {
        Some(user) => (
            Some(ImageFlow::Listing { user_id: user.id }),
            Action::ReadImagesOfUser { user_id: user.id },
        ),
        None => (None, Action::fail(Error::Unauthenticated)),
    }
}

/// Begins listing the versions of an image for the authenticated user,
/// if there is one.
pub fn get_image_versions(user: Option<&User>, image_id: Uuid) -> (next: (
    Option<ImageFlow>,
    Action,
))
    ensures
        (image_flow_view(next.0), next.1@) == get_image_versions_start(id_of(user), image_id),
{
    match user {
        Some(user) => (
            Some(ImageFlow::CheckingOwner { user_id: user.id, image_id }),
            Action::ReadImage { id: image_id },
        ),
        None => (None, Action::fail(Error::Unauthenticated)),
    }
}

impl ImageFlow {
    /// Takes what came of the last action and says what to do next.
    pub fn step(self, event: Event) -> (next: (Option<ImageFlow>, Action))
        ensures
            (image_flow_view(next.0), next.1@) == image_step(self@, event@),
    {
        match self {
            ImageFlow::Opening { user_id, request } => match event {
                Event::Done => (
                    Some(ImageFlow::InsertingImage { user_id }),
                    Action::InsertImage {
                        user_id,
                        nickname: request.nickname,
                        image_url: request.image_url,
                    },
                ),
                _ => (None, Action::fail(Error::StoreError)),
            },
            ImageFlow::InsertingImage { user_id } => match event {
                Event::Image(Some(image)) => {
                    if image.user_id == user_id {
                        let image_id = image.id;
                        (
                            Some(ImageFlow::InsertingVersion { image }),
                            Action::InsertVersion {
                                image_id,
                                hash: String::from_str(""),
                                version_number: String::from_str("latest"),
                            },
                        )
                    } else {
                        abort_with(Error::StoreError)
                    }
                },
                _ => abort_with(Error::StoreError),
            },
            ImageFlow::InsertingVersion { image } => match event {
                Event::Version(version) => {
                    if version.image_id == image.id {
                        (Some(ImageFlow::Committing { image }), Action::Commit)
                    } else {
                        abort_with(Error::StoreError)
                    }
                },
                _ => abort_with(Error::StoreError),
            },
            ImageFlow::Committing { image } => match event {
                Event::Done => (
                    None,
                    Action::Respond { response: Response::created(Body::Image(image)) },
                ),
                _ => (None, Action::fail(Error::StoreError)),
            },
            ImageFlow::Aborting { error } => (None, Action::fail(error)),
            ImageFlow::Listing { user_id } => match event {
                Event::Images(images) => (
                    None,
                    Action::Respond {
                        response: Response::ok(Body::Images(filter_images(&images, user_id))),
                    },
                ),
                _ => (None, Action::fail(Error::StoreError)),
            },
            ImageFlow::CheckingOwner { user_id, image_id } => match event {
                Event::Image(Some(image)) => {
                    if image.id != image_id {
                        (None, Action::fail(Error::NotFound))
                    } else if image.user_id != user_id {
                        (None, Action::fail(Error::Unauthorized))
                    } else {
                        (
                            Some(ImageFlow::ListingVersions { image_id }),
                            Action::ReadVersionsOfImage { image_id },
                        )
                    }
                },
                Event::Image(None) => (None, Action::fail(Error::NotFound)),
                _ => (None, Action::fail(Error::StoreError)),
            },
            ImageFlow::ListingVersions { image_id } => match event {
                Event::Versions(versions) => (
                    None,
                    Action::Respond {
                        response: Response::ok(
                            Body::Versions(filter_versions(&versions, image_id)),
                        ),
                    },
                ),
                _ => (None, Action::fail(Error::StoreError)),
            },
        }
    }
}

} // verus!
