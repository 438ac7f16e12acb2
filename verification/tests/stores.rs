use lim_backend::credentials::CredentialStore;
use lim_backend::ids::Uuid;
use lim_backend::models::JobStatus;
use lim_backend::provisioning::{
    create_app_request, create_machine_request, image_reference_of, Provisioner,
};
use lim_backend::models::{Image, ImageVersion};
use lim_backend::records::RecordStore;

#[test]
fn credential_is_live_until_its_time_is_up() {
    let mut store = CredentialStore::new();
    let user = Uuid::from_u128(9);
    assert_eq!(store.get("k", 0), None);
    store.set_ex("k".to_string(), user, 2, 10);
    assert_eq!(store.get("k", 10), Some(user));
    assert_eq!(store.get("k", 2_000_009), Some(user));
    assert_eq!(store.get("k", 2_000_010), None);
    assert_eq!(store.get("k", i64::MAX), None);
    assert_eq!(store.get("k", i64::MIN), Some(user));
    assert_eq!(store.get("other", 10), None);
    assert_eq!(store.get("", 10), None);
}

#[test]
fn writing_a_key_again_replaces_its_entry() {
    let mut store = CredentialStore::new();
    store.set_ex("a".to_string(), Uuid::from_u128(1), 1, 0);
    store.set_ex("b".to_string(), Uuid::from_u128(2), 1, 0);
    store.set_ex("a".to_string(), Uuid::from_u128(3), 5, 0);
    assert_eq!(store.get("a", 0), Some(Uuid::from_u128(3)));
    assert_eq!(store.get("a", 4_999_999), Some(Uuid::from_u128(3)));
    assert_eq!(store.get("b", 0), Some(Uuid::from_u128(2)));
    assert_eq!(store.get("b", 1_000_000), None);
}

#[test]
fn credential_lifetime_cannot_overflow() {
    let mut store = CredentialStore::new();
    store.set_ex("k".to_string(), Uuid::from_u128(1), u64::MAX, i64::MAX);
    assert_eq!(store.get("k", i64::MAX), Some(Uuid::from_u128(1)));
    store.set_ex("z".to_string(), Uuid::from_u128(1), 0, i64::MAX);
    assert_eq!(store.get("z", i64::MAX), None);
}

#[test]
fn rows_get_the_next_identifier_and_the_time_given() {
    let mut store = RecordStore::new();
    let user = store.insert_user("a@example.com".to_string(), "h".to_string(), 5).unwrap();
    let image = store.insert_image(user.id, "n".to_string(), "u".to_string(), 6).unwrap();
    let version = store.insert_version(image.id, "".to_string(), "latest".to_string(), 7).unwrap();
    let job = store.insert_job(user.id, JobStatus::Pending, version.id, 8).unwrap();
    assert_eq!(user.id, Uuid::from_u128(0));
    assert_eq!(image.id, Uuid::from_u128(1));
    assert_eq!(version.id, Uuid::from_u128(2));
    assert_eq!(job.id, Uuid::from_u128(3));
    assert_eq!((user.created_at, image.created_at, version.created_at), (5, 6, 7));
    assert_eq!((job.created_at, job.updated_at), (8, 8));
    assert_eq!(store.read_user(user.id).unwrap().email, "a@example.com");
    assert_eq!(store.read_user_by_email("a@example.com").unwrap().id, user.id);
    assert!(store.read_user_by_email("A@example.com").is_none());
    assert!(store.read_user(image.id).is_none());
    assert_eq!(store.read_image(image.id).unwrap().nickname, "n");
    assert!(store.read_image(user.id).is_none());
    assert_eq!(store.read_images_where_user_id(user.id).len(), 1);
    assert_eq!(store.read_versions_where_image_id(image.id).len(), 1);
    assert_eq!(store.read_jobs_where_user_id(user.id), vec![job]);
    assert!(store.read_jobs_where_user_id(image.id).is_empty());
}

#[test]
fn email_is_unique() {
    let mut store = RecordStore::new();
    assert!(store.insert_user("a@example.com".to_string(), "h".to_string(), 0).is_some());
    assert!(store.insert_user("a@example.com".to_string(), "other".to_string(), 0).is_none());
    assert!(store.insert_user("b@example.com".to_string(), "h".to_string(), 0).is_some());
    assert_eq!(store.read_user_by_email("a@example.com").unwrap().password_hash, "h");
}

#[test]
fn rollback_drops_what_the_transaction_wrote() {
    let mut store = RecordStore::new();
    let kept = store.insert_user("kept@example.com".to_string(), "h".to_string(), 0).unwrap();
    assert!(!store.in_transaction());
    assert!(store.begin());
    assert!(store.in_transaction());
    assert!(!store.begin());
    let dropped = store.insert_user("dropped@example.com".to_string(), "h".to_string(), 0).unwrap();
    let job = store.insert_job(kept.id, JobStatus::Pending, Uuid::from_u128(77), 0).unwrap();
    assert_eq!(store.read_jobs_where_user_id(kept.id), vec![job]);
    assert!(store.rollback());
    assert!(!store.in_transaction());
    assert!(!store.rollback());
    assert!(!store.commit());
    assert!(store.read_user(dropped.id).is_none());
    assert!(store.read_user_by_email("dropped@example.com").is_none());
    assert!(store.read_jobs_where_user_id(kept.id).is_empty());
    assert!(store.read_user(kept.id).is_some());
    let next = store.insert_user("next@example.com".to_string(), "h".to_string(), 0).unwrap();
    assert_eq!(next.id, dropped.id);
}

#[test]
fn commit_keeps_what_the_transaction_wrote() {
    let mut store = RecordStore::new();
    assert!(store.begin());
    let user = store.insert_user("a@example.com".to_string(), "h".to_string(), 0).unwrap();
    assert!(store.commit());
    assert!(!store.rollback());
    assert!(store.read_user(user.id).is_some());
}

#[test]
fn requests_to_the_provisioning_service_are_built_from_the_records() {
    let user = Uuid::from_u128(0x550e8400_e29b_41d4_a716_446655440000);
    let app = create_app_request(user);
    assert_eq!(app.app_name, "550e8400-e29b-41d4-a716-446655440000");
    assert_eq!(app.org_slug, "peter-mertz");

    let image = Image {
        id: Uuid::from_u128(1),
        user_id: user,
        nickname: "demo".to_string(),
        image_url: "registry.example/demo".to_string(),
        created_at: 0,
    };
    let version = ImageVersion {
        id: Uuid::from_u128(2),
        image_id: image.id,
        hash: "".to_string(),
        version_number: "1.2.3".to_string(),
        created_at: 0,
    };
    assert_eq!(image_reference_of(&image, &version), "registry.example/demo:1.2.3");
    let machine = create_machine_request(user, "performance", "a100", &image, &version);
    assert_eq!(machine.app_id, "550e8400-e29b-41d4-a716-446655440000");
    assert_eq!(machine.region, "ord");
    assert_eq!(machine.image, "registry.example/demo:1.2.3");
    assert_eq!(machine.cpu_kind, "performance");
    assert_eq!(machine.gpu_kind, "a100");
    assert_eq!(machine.cpus, 4);
    assert_eq!(machine.memory_mb, 1024 * 16);
    assert!(machine.autostart);
    assert!(machine.autostop);
    assert_eq!(machine.min_machines_running, 0);
    assert_eq!(machine.protocol, "tcp");
    assert_eq!(machine.internal_port, 8888);
    assert_eq!(machine.external_port, 8080);
    assert_eq!(machine.handler, "http");
    assert!(!machine.force_https);
}

#[test]
fn stand_in_keeps_every_request_whatever_it_answers() {
    let mut service = Provisioner::new();
    assert!(service.create_app(create_app_request(Uuid::from_u128(1))));
    service.set_reachable(false);
    assert!(!service.create_app(create_app_request(Uuid::from_u128(2))));
    assert_eq!(service.apps_requested(), 2);
    assert_eq!(service.app_request(1).unwrap().app_name, Uuid::from_u128(2).to_text());
    assert!(service.app_request(2).is_none());
    assert_eq!(service.machines_requested(), 0);
}
