use lim_backend::backend::Backend;
use lim_backend::errors::Error;
use lim_backend::protocol::Body;
use lim_backend::session::{
    _session_key, extract_token, new_session_token, session_cookie, strip_bearer,
    token_from_entropy, SessionResponse,
};

fn register(app: &mut Backend, email: &str, password: &str) -> lim_backend::ids::Uuid {
    let response = app.create_user(email, password);
    assert_eq!(response.status, 201, "It should have a created status");
    match response.body {
        Body::User(user) => user.id,
        other => panic!("expected a user, got {:?}", other),
    }
}

fn login(app: &mut Backend, email: &str, password: &str) -> SessionResponse {
    let response = app.create_session(email, password);
    assert_eq!(response.status, 201, "It should have a created status");
    match response.body {
        Body::Session(session) => session,
        other => panic!("expected a session, got {:?}", other),
    }
}

#[test]
fn create_session() {
    let mut test_app = Backend::new(0, 1_209_600);

    register(&mut test_app, "test-first@lionfi.sh", "abceasyas123");
    let _ = login(&mut test_app, "test-first@lionfi.sh", "abceasyas123");
}

#[test]
fn issued_token_resolves_to_the_user_who_logged_in() {
    let mut app = Backend::new(0, 1_209_600);
    let first = register(&mut app, "a@example.com", "abceasyas123");
    let second = register(&mut app, "b@example.com", "123easyasabc");
    let session = login(&mut app, "b@example.com", "123easyasabc");
    let response = app.authenticate(Some(&format!("Bearer {}", session.token)), None);
    assert_eq!(response.status, 200);
    match response.body {
        Body::Identity(user) => {
            assert_eq!(user.id, second);
            assert_ne!(user.id, first);
            assert_eq!(user.email, "b@example.com");
        },
        other => panic!("expected an identity, got {:?}", other),
    }
}

#[test]
fn wrong_password_and_unknown_email_are_answered_alike() {
    let mut app = Backend::new(0, 1_209_600);
    register(&mut app, "a@example.com", "abceasyas123");
    let wrong = app.create_session("a@example.com", "abceasyas124");
    let unknown = app.create_session("nobody@example.com", "abceasyas123");
    assert_eq!(wrong.status, 401);
    assert_eq!(unknown.status, 401);
    assert_eq!(wrong.error(), Some(Error::Unauthenticated));
    assert_eq!(unknown.error(), Some(Error::Unauthenticated));
    assert_eq!(Error::Unauthenticated.message(), "Unauthorized");
}

#[test]
fn empty_malformed_and_unknown_tokens_are_unauthenticated() {
    let mut app = Backend::new(0, 1_209_600);
    register(&mut app, "a@example.com", "abceasyas123");
    let session = login(&mut app, "a@example.com", "abceasyas123");
    let candidates: Vec<Option<String>> = vec![
        None,
        Some(String::new()),
        Some("Bearer ".to_string()),
        Some("Bearer".to_string()),
        Some("Bearer not-a-token".to_string()),
        Some(session.token.clone()),
        Some(format!("bearer {}", session.token)),
        Some(format!("Basic  {}", session.token)),
        Some(format!("Bearer  {}", session.token)),
        Some(format!("Bearer {}z", session.token)),
        Some(format!("Bearer {}:session", session.token)),
    ];
    for candidate in candidates {
        let response = app.authenticate(candidate.as_deref(), None);
        assert_eq!(response.status, 401, "{:?}", candidate);
        assert_eq!(response.error(), Some(Error::Unauthenticated), "{:?}", candidate);
    }
}

#[test]
fn header_takes_precedence_over_cookie() {
    let mut app = Backend::new(0, 1_209_600);
    register(&mut app, "a@example.com", "abceasyas123");
    let session = login(&mut app, "a@example.com", "abceasyas123");
    let good = format!("Bearer {}", session.token);
    let by_cookie = app.authenticate(None, Some(&good));
    assert_eq!(by_cookie.status, 200);
    let by_header = app.authenticate(Some(&good), Some("Bearer nonsense"));
    assert_eq!(by_header.status, 200);
    let bad_header = app.authenticate(Some("Bearer nonsense"), Some(&good));
    assert_eq!(bad_header.error(), Some(Error::Unauthenticated));
}

#[test]
fn session_expires_when_its_time_is_up() {
    let mut app = Backend::new(1_000, 60);
    register(&mut app, "a@example.com", "abceasyas123");
    let session = login(&mut app, "a@example.com", "abceasyas123");
    let credential = format!("Bearer {}", session.token);
    app.set_time(1_000 + 60_000_000 - 1);
    assert_eq!(app.authenticate(Some(&credential), None).status, 200);
    app.set_time(1_000 + 60_000_000);
    let expired = app.authenticate(Some(&credential), None);
    assert_eq!(expired.error(), Some(Error::Unauthenticated));
}

#[test]
fn session_with_no_lifetime_is_never_live() {
    let mut app = Backend::new(0, 0);
    register(&mut app, "a@example.com", "abceasyas123");
    let session = login(&mut app, "a@example.com", "abceasyas123");
    let response = app.authenticate(Some(&format!("Bearer {}", session.token)), None);
    assert_eq!(response.error(), Some(Error::Unauthenticated));
}

#[test]
fn logging_in_again_keeps_earlier_sessions() {
    let mut app = Backend::new(0, 1_209_600);
    register(&mut app, "a@example.com", "abceasyas123");
    let first = login(&mut app, "a@example.com", "abceasyas123");
    let second = login(&mut app, "a@example.com", "abceasyas123");
    assert_ne!(first.token, second.token);
    assert_eq!(app.authenticate(Some(&format!("Bearer {}", first.token)), None).status, 200);
    assert_eq!(app.authenticate(Some(&format!("Bearer {}", second.token)), None).status, 200);
}

#[test]
fn login_with_a_given_token_hands_out_that_token() {
    let mut app = Backend::new(0, 1_209_600);
    let id = register(&mut app, "a@example.com", "abceasyas123");
    let response =
        app.create_session_with_token("a@example.com", "abceasyas123", "chosen".to_string());
    assert_eq!(response.status, 201);
    match response.body {
        Body::Session(session) => {
            assert_eq!(session.token, "chosen");
            assert_eq!(session.cookie.name, "Authorization");
            assert_eq!(session.cookie.value, "Bearer%20chosen");
            assert!(session.cookie.http_only);
        },
        other => panic!("expected a session, got {:?}", other),
    }
    match app.authenticate(Some("Bearer chosen"), None).body {
        Body::Identity(user) => assert_eq!(user.id, id),
        other => panic!("expected an identity, got {:?}", other),
    }
}

#[test]
fn session_key_appends_the_suffix() {
    assert_eq!(_session_key("abc"), "abc:session");
    assert_eq!(_session_key(""), ":session");
    assert_eq!(_session_key("a:session"), "a:session:session");
}

#[test]
fn bearer_prefix_is_required_and_stripped() {
    assert_eq!(strip_bearer("Bearer abc"), Some("abc".to_string()));
    assert_eq!(strip_bearer("Bearer "), Some(String::new()));
    assert_eq!(strip_bearer("Bearer"), None);
    assert_eq!(strip_bearer(""), None);
    assert_eq!(strip_bearer("       abc"), None);
    assert_eq!(strip_bearer("bearer abc"), None);
    assert_eq!(strip_bearer("Bearer é-ü"), Some("é-ü".to_string()));
    assert_eq!(strip_bearer("Beareré abc"), None);
    assert_eq!(extract_token(None, None), None);
    assert_eq!(extract_token(Some("Bearer h"), Some("Bearer c")), Some("h".to_string()));
    assert_eq!(extract_token(None, Some("Bearer c")), Some("c".to_string()));
    assert_eq!(extract_token(Some("nonsense"), Some("Bearer c")), None);
}

#[test]
fn token_is_the_base64_of_its_entropy() {
    assert_eq!(token_from_entropy(&[0u8; 32]), "AAAAAAAAAAAAAAAAAAAAAAAAAAAAAAAAAAAAAAAAAAA=");
    assert_eq!(token_from_entropy(&[255u8; 32]), "//////////////////////////////////////////8=");
    let mut counting = [0u8; 32];
    for (index, byte) in counting.iter_mut().enumerate() {
        *byte = index as u8;
    }
    assert_eq!(token_from_entropy(&counting), "AAECAwQFBgcICQoLDA0ODxAREhMUFRYXGBkaGxwdHh8=");
}

#[test]
fn fresh_tokens_have_the_length_of_32_bytes_in_base64_and_differ() {
    let first = new_session_token();
    let second = new_session_token();
    assert_eq!(first.len(), 44);
    assert_eq!(second.len(), 44);
    assert!(first.ends_with('='));
    assert_ne!(first, second);
}

#[test]
fn session_cookie_is_percent_encoded() {
    let cookie = session_cookie("ab+/=~_.-Z9");
    assert_eq!(cookie.name, "Authorization");
    assert_eq!(cookie.value, "Bearer%20ab%2B%2F%3D~_.-Z9");
    assert!(cookie.http_only);
    assert_eq!(session_cookie("é").value, "Bearer%20%C3%A9");
}
