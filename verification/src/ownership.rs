//! Who owns what. A user owns its images and its jobs and shares neither;
//! an image owns its versions. Whatever a store hands back is held to
//! that before it is used or shown.

use vstd::prelude::*;
use crate::ids::Uuid;
use crate::models::{
    image_views, version_views, Image, ImageVersion, ImageVersionView, ImageView, Job,
};

verus! {

/// The jobs of one user, in the order given.
pub open spec fn jobs_of(jobs: Seq<Job>, user_id: Uuid) -> Seq<Job> {
    jobs.filter(|job: Job| job.user_id == user_id)
}

/// The images of one user, in the order given.
pub open spec fn images_of(images: Seq<ImageView>, user_id: Uuid) -> Seq<ImageView> {
    images.filter(|image: ImageView| image.user_id == user_id)
}

/// The versions of one image, in the order given.
pub open spec fn versions_of(versions: Seq<ImageVersionView>, image_id: Uuid) -> Seq<
    ImageVersionView,
> {
    versions.filter(|version: ImageVersionView| version.image_id == image_id)
}

/// Whether a version is the one asked for: it has the identifier asked
/// for and belongs to the image.
pub open spec fn is_wanted(version: ImageVersionView, image_id: Uuid, version_id: Uuid) -> bool {
    version.id == version_id && version.image_id == image_id
}

/// Whether `index` is the first place at which the version asked for
/// stands.
pub open spec fn first_wanted(
    versions: Seq<ImageVersionView>,
    image_id: Uuid,
    version_id: Uuid,
    index: int,
) -> bool {
    &&& 0 <= index < versions.len()
    &&& is_wanted(versions[index], image_id, version_id)
    &&& forall|earlier: int|
        0 <= earlier < index ==> !is_wanted(#[trigger] versions[earlier], image_id, version_id)
}

/// The version asked for among the versions given: the first that has the
/// identifier asked for and belongs to the image, if there is one.
pub open spec fn find_version(
    versions: Seq<ImageVersionView>,
    image_id: Uuid,
    version_id: Uuid,
) -> Option<ImageVersionView> {
    if exists|index: int| first_wanted(versions, image_id, version_id, index) {
        Some(versions[choose|index: int| first_wanted(versions, image_id, version_id, index)])
    } else {
        None
    }
}

/// Where a version that is wanted stands, `find_version` finds the first
/// such version.
pub proof fn find_version_at(
    versions: Seq<ImageVersionView>,
    image_id: Uuid,
    version_id: Uuid,
    index: int,
)
    requires
        first_wanted(versions, image_id, version_id, index),
    ensures
        find_version(versions, image_id, version_id) == Some(versions[index]),
{
    let chosen = choose|index: int| first_wanted(versions, image_id, version_id, index);
    assert(first_wanted(versions, image_id, version_id, chosen));
    if chosen < index {
        assert(!is_wanted(versions[chosen], image_id, version_id));
    }
    if index < chosen {
        assert(!is_wanted(versions[index], image_id, version_id));
    }
}

/// Where no version is wanted, `find_version` finds none.
pub proof fn find_version_absent(
    versions: Seq<ImageVersionView>,
    image_id: Uuid,
    version_id: Uuid,
)
    requires
        forall|index: int|
            0 <= index < versions.len() ==> !is_wanted(
                #[trigger] versions[index],
                image_id,
                version_id,
            ),
    ensures
        find_version(versions, image_id, version_id) is None,
{
}

/// What `find_version` finds is wanted and stands among the versions.
pub proof fn find_version_found(
    versions: Seq<ImageVersionView>,
    image_id: Uuid,
    version_id: Uuid,
)
    requires
        find_version(versions, image_id, version_id) is Some,
    ensures
        is_wanted(find_version(versions, image_id, version_id)->0, image_id, version_id),
        versions.contains(find_version(versions, image_id, version_id)->0),
{
    let chosen = choose|index: int| first_wanted(versions, image_id, version_id, index);
    assert(first_wanted(versions, image_id, version_id, chosen));
}

/// Selects the version asked for among the versions of an image.
pub fn select_version(versions: &Vec<ImageVersion>, image_id: Uuid, version_id: Uuid) -> (found:
    Option<ImageVersion>)
    ensures
        match found {
            Some(version) => find_version(version_views(versions@), image_id, version_id) == Some(
                version@,
            ),
            None => find_version(version_views(versions@), image_id, version_id) is None,
        },
{
    let ghost views = version_views(versions@);
    let mut index: usize = 0;
    while index < versions.len()
        invariant
            index <= versions.len(),
            views == version_views(versions@),
            forall|earlier: int|
                0 <= earlier < index ==> !is_wanted(#[trigger] views[earlier], image_id, version_id),
        decreases versions.len() - index,
    {
        let version = &versions[index];
        if version.id == version_id && version.image_id == image_id {
            proof {
                assert(first_wanted(views, image_id, version_id, index as int));
                find_version_at(views, image_id, version_id, index as int);
            }
            return Some(version.clone());
        }
        index = index + 1;
    }
    proof {
        find_version_absent(views, image_id, version_id);
    }
    None
}

/// Keeps the jobs of one user.
pub fn filter_jobs(jobs: &Vec<Job>, user_id: Uuid) -> (kept: Vec<Job>)
    ensures
        kept@ == jobs_of(jobs@, user_id),
{
    let ghost owned = |job: Job| job.user_id == user_id;
    let mut kept: Vec<Job> = Vec::new();
    let mut index: usize = 0;
    proof {
        reveal(Seq::filter);
        assert(jobs@.subrange(0, 0).filter(owned) =~= Seq::<Job>::empty());
    }
    while index < jobs.len()
        invariant
            index <= jobs.len(),
            owned == (|job: Job| job.user_id == user_id),
            kept@ == jobs@.subrange(0, index as int).filter(owned),
        decreases jobs.len() - index,
    {
        let job = jobs[index];
        proof {
            let seen = jobs@.subrange(0, index as int);
            assert(jobs@.subrange(0, index + 1) =~= seen.push(job));
            seen.lemma_filter_push(job, owned);
        }
        if job.user_id == user_id {
            kept.push(job);
        }
        index = index + 1;
    }
    assert(jobs@.subrange(0, jobs.len() as int) =~= jobs@);
    kept
}

/// Keeps the images of one user.
pub fn filter_images(images: &Vec<Image>, user_id: Uuid) -> (kept: Vec<Image>)
    ensures
        image_views(kept@) == images_of(image_views(images@), user_id),
{
    let ghost owned = |image: ImageView| image.user_id == user_id;
    let ghost views = image_views(images@);
    let mut kept: Vec<Image> = Vec::new();
    let mut index: usize = 0;
    proof {
        reveal(Seq::filter);
        assert(views.subrange(0, 0).filter(owned) =~= Seq::<ImageView>::empty());
        assert(image_views(kept@) =~= Seq::<ImageView>::empty());
    }
    while index < images.len()
        invariant
            index <= images.len(),
            owned == (|image: ImageView| image.user_id == user_id),
            views == image_views(images@),
            image_views(kept@) == views.subrange(0, index as int).filter(owned),
        decreases images.len() - index,
    {
        let image = &images[index];
        proof {
            let seen = views.subrange(0, index as int);
            assert(views.subrange(0, index + 1) =~= seen.push(image@));
            seen.lemma_filter_push(image@, owned);
        }
        if image.user_id == user_id {
            let ghost before = kept@;
            kept.push(image.clone());
            assert(image_views(kept@) =~= image_views(before).push(image@));
        }
        index = index + 1;
    }
    assert(views.subrange(0, images.len() as int) =~= views);
    kept
}

/// Keeps the versions of one image.
pub fn filter_versions(versions: &Vec<ImageVersion>, image_id: Uuid) -> (kept: Vec<ImageVersion>)
    ensures
        version_views(kept@) == versions_of(version_views(versions@), image_id),
{
    let ghost owned = |version: ImageVersionView| version.image_id == image_id;
    let ghost views = version_views(versions@);
    let mut kept: Vec<ImageVersion> = Vec::new();
    let mut index: usize = 0;
    proof {
        reveal(Seq::filter);
        assert(views.subrange(0, 0).filter(owned) =~= Seq::<ImageVersionView>::empty());
        assert(version_views(kept@) =~= Seq::<ImageVersionView>::empty());
    }
    while index < versions.len()
        invariant
            index <= versions.len(),
            owned == (|version: ImageVersionView| version.image_id == image_id),
            views == version_views(versions@),
            version_views(kept@) == views.subrange(0, index as int).filter(owned),
        decreases versions.len() - index,
    {
        let version = &versions[index];
        proof {
            let seen = views.subrange(0, index as int);
            assert(views.subrange(0, index + 1) =~= seen.push(version@));
            seen.lemma_filter_push(version@, owned);
        }
        if version.image_id == image_id {
            let ghost before = kept@;
            kept.push(version.clone());
            assert(version_views(kept@) =~= version_views(before).push(version@));
        }
        index = index + 1;
    }
    assert(views.subrange(0, versions.len() as int) =~= views);
    kept
}

/// Filtering what is filtered already changes nothing.
pub proof fn filter_twice<A>(items: Seq<A>, kept: spec_fn(A) -> bool)
    ensures
        items.filter(kept).filter(kept) == items.filter(kept),
    decreases items.len(),
{
    reveal(Seq::filter);
    if items.len() > 0 {
        let front = items.drop_last();
        let last = items.last();
        filter_twice(front, kept);
        assert(items =~= front.push(last));
        front.lemma_filter_push(last, kept);
        if kept(last) {
            front.filter(kept).lemma_filter_push(last, kept);
        }
    }
}

} // verus!
