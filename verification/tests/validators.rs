use repo_writer::{
    is_git_object_id, is_uuid, random_string, reference_name_verdict, uuid,
    validate_git_reference_name, AppError, ErrorKind,
};

#[test]
fn a_version_four_identifier_is_accepted() {
    assert!(is_uuid("7d1c2a34-5b6f-4c7d-8e9f-0a1b2c3d4e5f"));
    assert!(is_uuid("00000000-0000-4000-8000-000000000000"));
    assert!(is_uuid("ffffffff-ffff-4fff-bfff-ffffffffffff"));
    assert!(is_uuid("7d1c2a34-5b6f-4c7d-Ae9f-0a1b2c3d4e5f"));
    assert!(is_uuid("7d1c2a34-5b6f-4c7d-Be9f-0a1b2c3d4e5f"));
}

#[test]
fn other_shapes_are_not_identifiers() {
    assert!(!is_uuid(""));
    assert!(!is_uuid("7d1c2a34-5b6f-4c7d-8e9f-0a1b2c3d4e5"));
    assert!(!is_uuid("7d1c2a34-5b6f-4c7d-8e9f-0a1b2c3d4e5f0"));
    assert!(!is_uuid("7d1c2a34-5b6f-1c7d-8e9f-0a1b2c3d4e5f"));
    assert!(!is_uuid("7d1c2a34-5b6f-4c7d-7e9f-0a1b2c3d4e5f"));
    assert!(!is_uuid("7d1c2a34-5b6f-4c7d-ce9f-0a1b2c3d4e5f"));
    assert!(!is_uuid("7D1C2A34-5B6F-4C7D-8E9F-0A1B2C3D4E5F"));
    assert!(!is_uuid("7d1c2a34_5b6f-4c7d-8e9f-0a1b2c3d4e5f"));
    assert!(!is_uuid("7d1c2a34-5b6f-4c7d-8e9f-0a1b2c3d4e5g"));
    assert!(!is_uuid("7d1c2a345b6f4c7d8e9f0a1b2c3d4e5f"));
    assert!(!is_uuid("7d1c2a34-5b6f-4c7d-8e9f-0a1b2c3d4e5é"));
}

#[test]
fn fresh_identifiers_are_version_four_and_differ() {
    let one = uuid();
    let two = uuid();
    assert!(is_uuid(&one));
    assert!(is_uuid(&two));
    assert_eq!(one.len(), 36);
    assert_eq!(one, one.to_lowercase());
    assert_ne!(one, two);
}

#[test]
fn random_text_has_the_length_asked_for() {
    assert_eq!(random_string(0), "");
    assert_eq!(random_string(10).chars().count(), 10);
    let text = random_string(100);
    assert_eq!(text.len(), 100);
    assert!(text.chars().all(|c| c.is_ascii_alphanumeric()));
    assert_ne!(random_string(100), text);
}

#[test]
fn an_object_name_is_forty_lower_case_characters() {
    assert!(is_git_object_id("da39a3ee5e6b4b0d3255bfef95601890afd80709"));
    assert!(is_git_object_id("zzzzzzzzzzzzzzzzzzzzzzzzzzzzzzzzzzzzzzzz"));
    assert!(!is_git_object_id("da39a3ee5e6b4b0d3255bfef95601890afd8070"));
    assert!(!is_git_object_id("da39a3ee5e6b4b0d3255bfef95601890afd807090"));
    assert!(!is_git_object_id("DA39A3EE5E6B4B0D3255BFEF95601890AFD80709"));
    assert!(!is_git_object_id("da39a3ee5e6b4b0d3255bfef95601890afd8070-"));
    assert!(!is_git_object_id(""));
}

#[test]
fn branch_names_that_can_stand_in_a_reference_are_accepted() {
    assert_eq!(validate_git_reference_name("master"), Ok(()));
    assert_eq!(validate_git_reference_name("feature/one"), Ok(()));
    assert_eq!(validate_git_reference_name("v1.2"), Ok(()));
}

#[test]
fn branch_names_that_cannot_are_malformed_input() {
    let refused = Err(AppError::ValidationError("invalid_git_reference_name".to_string()));
    assert_eq!(validate_git_reference_name(""), refused);
    assert_eq!(validate_git_reference_name("a..b"), refused);
    assert_eq!(validate_git_reference_name("a b"), refused);
    assert_eq!(validate_git_reference_name("a~b"), refused);
    assert_eq!(validate_git_reference_name("a.lock"), refused);
    assert_eq!(validate_git_reference_name("/a"), refused);
    assert_eq!(validate_git_reference_name("a\0b"), refused);
    assert_eq!(validate_git_reference_name("\0"), refused);
}

#[test]
fn the_verdict_follows_the_store() {
    assert_eq!(reference_name_verdict(true), Ok(()));
    let refused = reference_name_verdict(false).unwrap_err();
    assert_eq!(refused.kind(), ErrorKind::Validation);
    assert_eq!(refused.message(), "invalid_git_reference_name");
}
