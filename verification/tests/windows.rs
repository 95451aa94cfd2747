use codex_plus_core::encoding::sha256_hex_of;
use codex_plus_core::windows::{
    admin_pipe_name, admin_pipe_sddl, client_pipe_sddl, current_windows_identity,
    validate_canonical_sid, DecimalError, IdentityError, SidError, SidField, ADMIN_PIPE_PREFIX,
    MAX_ADMIN_PIPE_NAME_LEN,
};

const USER_SID: &str = "S-1-5-21-1004336348-1177238915-682003330-1001";

#[test]
fn account_sids_are_accepted_in_canonical_form_only() {
    assert_eq!(validate_canonical_sid(USER_SID), Ok(()));
    assert_eq!(validate_canonical_sid("X-1-5-21-1-2-3-4"), Err(SidError::NotSidPrefix));
    assert_eq!(validate_canonical_sid("S-2-5-21-1-2-3-4"), Err(SidError::UnsupportedRevision));
    assert_eq!(validate_canonical_sid("S-1-16-21-1-2-3-4"), Err(SidError::NotNtAuthority));
    assert_eq!(validate_canonical_sid("S-1-5"), Err(SidError::NoSubauthority));
    assert_eq!(validate_canonical_sid("S-1-5-18"), Err(SidError::NotAccountSid));
    assert_eq!(validate_canonical_sid("S-1-5-32-1-2-3-4"), Err(SidError::NotAccountSid));
    assert_eq!(
        validate_canonical_sid("S-01-5-21-1-2-3-4"),
        Err(SidError::Field(SidField::Revision, DecimalError::NotCanonical))
    );
    assert_eq!(
        validate_canonical_sid("S-1"),
        Err(SidError::Field(SidField::IdentifierAuthority, DecimalError::Missing))
    );
    assert_eq!(
        validate_canonical_sid("S-1-5-21-1-2-3-"),
        Err(SidError::Field(SidField::Subauthority, DecimalError::Empty))
    );
    assert_eq!(
        validate_canonical_sid("S-1-5-21-1-2-3-4294967296"),
        Err(SidError::Field(SidField::Subauthority, DecimalError::OutOfRange))
    );
    assert_eq!(
        validate_canonical_sid("S-1-5-21-1-2-3-+4"),
        Err(SidError::Field(SidField::Subauthority, DecimalError::NotDigits))
    );
    assert_eq!(
        validate_canonical_sid("S-256-5-21-1-2-3-4"),
        Err(SidError::Field(SidField::Revision, DecimalError::OutOfRange))
    );
}

#[test]
fn pipe_security_descriptors_name_the_account() {
    assert_eq!(
        admin_pipe_sddl(USER_SID).unwrap(),
        format!("D:P(A;;GA;;;SY)(A;;GA;;;BA)(A;;GA;;;{USER_SID})")
    );
    assert_eq!(
        client_pipe_sddl(USER_SID).unwrap(),
        format!("D:P(A;;GA;;;SY)(A;;GA;;;BA)(A;;0x0012019B;;;{USER_SID})")
    );
    assert_eq!(admin_pipe_sddl("S-1-5-18"), Err(SidError::NotAccountSid));
}

#[test]
fn pipe_names_keep_safe_characters_of_the_session() {
    assert_eq!(admin_pipe_name("session-123"), r"\\.\pipe\codex-plus-admin-session-123");
    assert_eq!(admin_pipe_name("a b/c\\d"), r"\\.\pipe\codex-plus-admin-a-b-c-d");
    assert_eq!(admin_pipe_name("ünï"), r"\\.\pipe\codex-plus-admin--n-");
}

#[test]
fn long_pipe_names_end_with_the_session_digest() {
    let session = "x".repeat(300);
    let name = admin_pipe_name(&session);
    assert_eq!(name.len(), MAX_ADMIN_PIPE_NAME_LEN);
    let digest = sha256_hex_of(session.as_bytes());
    assert!(name.ends_with(&format!("-{digest}")));
    assert!(name.starts_with(ADMIN_PIPE_PREFIX));
    let kept = MAX_ADMIN_PIPE_NAME_LEN - ADMIN_PIPE_PREFIX.len() - digest.len() - 1;
    assert_eq!(&name[ADMIN_PIPE_PREFIX.len()..ADMIN_PIPE_PREFIX.len() + kept], "x".repeat(kept));
    let exact = "y".repeat(MAX_ADMIN_PIPE_NAME_LEN - ADMIN_PIPE_PREFIX.len());
    assert_eq!(admin_pipe_name(&exact), format!("{ADMIN_PIPE_PREFIX}{exact}"));
}

#[test]
fn windows_identity_is_unavailable_on_other_platforms() {
    assert_eq!(current_windows_identity(), Err(IdentityError::Unsupported));
}
