use lim_backend::ids::Uuid;

#[test]
fn identifier_is_written_in_hyphenated_lower_case() {
    assert_eq!(Uuid::from_u128(0).to_text(), "00000000-0000-0000-0000-000000000000");
    assert_eq!(
        Uuid::from_u128(0x550e8400_e29b_41d4_a716_446655440000).to_text(),
        "550e8400-e29b-41d4-a716-446655440000"
    );
    assert_eq!(Uuid::from_u128(u128::MAX).to_text(), "ffffffff-ffff-ffff-ffff-ffffffffffff");
    assert_eq!(Uuid::from_u128(0xABCDEF).to_text(), "00000000-0000-0000-0000-000000abcdef");
}

#[test]
fn identifier_is_read_in_every_form() {
    let expected = Some(Uuid::from_u128(0x936da01f_9abd_4d9d_80c7_02af85c822a8));
    assert_eq!(Uuid::parse_str("936da01f-9abd-4d9d-80c7-02af85c822a8"), expected);
    assert_eq!(Uuid::parse_str("936DA01F-9ABD-4D9D-80C7-02AF85C822A8"), expected);
    assert_eq!(Uuid::parse_str("936da01f9abd4d9d80c702af85c822a8"), expected);
    assert_eq!(Uuid::parse_str("{936da01f-9abd-4d9d-80c7-02af85c822a8}"), expected);
    assert_eq!(Uuid::parse_str("urn:uuid:936da01f-9abd-4d9d-80c7-02af85c822a8"), expected);
}

#[test]
fn malformed_identifier_is_refused() {
    for text in [
        "",
        "z",
        "936da01f-9abd-4d9d-80c7-02af85c822a",
        "936da01f-9abd-4d9d-80c7-02af85c822a8a",
        "936da01f-9abd-4d9d-80c7-02af85c822ag",
        "936da01f_9abd_4d9d_80c7_02af85c822a8",
        " 936da01f-9abd-4d9d-80c7-02af85c822a8",
        "936da01f-9abd-4d9d-80c7-02af85c822a8:session",
    ] {
        assert_eq!(Uuid::parse_str(text), None, "{text}");
    }
}

#[test]
fn identifier_text_reads_back() {
    for value in [0u128, 1, 42, 0x1234_5678_9abc_def0_0fed_cba9_8765_4321, u128::MAX] {
        let id = Uuid::from_u128(value);
        assert_eq!(id.as_u128(), value);
        assert_eq!(Uuid::parse_str(&id.to_text()), Some(id));
    }
}

#[test]
fn identifier_agrees_with_the_uuid_crate() {
    let outside = uuid::Uuid::new_v4();
    let id = Uuid::from_u128(outside.as_u128());
    assert_eq!(id.to_text(), outside.to_string());
    assert_eq!(Uuid::parse_str(&outside.simple().to_string()), Some(id));
}
