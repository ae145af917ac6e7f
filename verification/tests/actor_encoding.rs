use graft::actor::ActorVariant;
use graft::actor::EncodeError;
use graft::actor::IsNull;
use graft::actor::SqlKind;
use graft::actor::SqlType;

fn enumeration(name: &str, labels: &[&str]) -> SqlType {
    SqlType {
        name: name.to_string(),
        kind: SqlKind::Enumeration(labels.iter().map(|l| l.to_string()).collect()),
    }
}

#[test]
fn accepts_the_expected_enumeration() {
    assert!(ActorVariant::accepts(&enumeration("actors_available", &["member", "organization"])));
}

#[test]
fn accepts_the_labels_in_either_order() {
    assert!(ActorVariant::accepts(&enumeration("actors_available", &["organization", "member"])));
}

#[test]
fn refuses_another_type_name() {
    assert!(!ActorVariant::accepts(&enumeration("actors", &["member", "organization"])));
    assert!(!ActorVariant::accepts(&enumeration("", &["member", "organization"])));
}

#[test]
fn refuses_a_type_that_is_no_enumeration() {
    let ty = SqlType { name: "actors_available".to_string(), kind: SqlKind::Other };
    assert!(!ActorVariant::accepts(&ty));
}

#[test]
fn refuses_another_number_of_labels() {
    assert!(!ActorVariant::accepts(&enumeration("actors_available", &[])));
    assert!(!ActorVariant::accepts(&enumeration("actors_available", &["member"])));
    assert!(!ActorVariant::accepts(&enumeration(
        "actors_available",
        &["member", "organization", "bot"]
    )));
}

#[test]
fn refuses_other_labels() {
    assert!(!ActorVariant::accepts(&enumeration("actors_available", &["member", "robot"])));
    assert!(!ActorVariant::accepts(&enumeration("actors_available", &["user", "group"])));
    assert!(!ActorVariant::accepts(&enumeration("actors_available", &["Member", "organization"])));
}

#[test]
fn refuses_one_label_twice() {
    assert!(!ActorVariant::accepts(&enumeration("actors_available", &["member", "member"])));
    assert!(!ActorVariant::accepts(&enumeration(
        "actors_available",
        &["organization", "organization"]
    )));
}

#[test]
fn user_is_written_as_member() {
    let ty = enumeration("actors_available", &["member", "organization"]);
    let mut buf: Vec<u8> = Vec::new();
    assert_eq!(ActorVariant::User.to_sql(&ty, &mut buf), Ok(IsNull::No));
    assert_eq!(buf, b"member".to_vec());
}

#[test]
fn group_is_written_as_organization() {
    let ty = enumeration("actors_available", &["member", "organization"]);
    let mut buf: Vec<u8> = Vec::new();
    assert_eq!(ActorVariant::Group.to_sql(&ty, &mut buf), Ok(IsNull::No));
    assert_eq!(buf, b"organization".to_vec());
}

#[test]
fn encoding_is_appended_to_what_the_buffer_holds() {
    let ty = enumeration("actors_available", &["member", "organization"]);
    let mut buf: Vec<u8> = vec![1, 2, 3];
    assert_eq!(ActorVariant::User.to_sql(&ty, &mut buf), Ok(IsNull::No));
    assert_eq!(buf, vec![1, 2, 3, b'm', b'e', b'm', b'b', b'e', b'r']);
}

#[test]
fn unchecked_encoding_does_not_look_at_the_type() {
    let ty = SqlType { name: "text".to_string(), kind: SqlKind::Other };
    let mut buf: Vec<u8> = Vec::new();
    assert_eq!(ActorVariant::Group.to_sql(&ty, &mut buf), Ok(IsNull::No));
    assert_eq!(buf, b"organization".to_vec());
}

#[test]
fn checked_encoding_of_user_succeeds_on_the_two_label_enumeration() {
    let ty = enumeration("actors_available", &["member", "organization"]);
    assert!(ActorVariant::accepts(&ty));
    let mut buf: Vec<u8> = Vec::new();
    assert_eq!(ActorVariant::User.to_sql_checked(&ty, &mut buf), Ok(IsNull::No));
    assert_eq!(buf, b"member".to_vec());
}

#[test]
fn checked_encoding_of_group_succeeds_on_the_two_label_enumeration() {
    let ty = enumeration("actors_available", &["organization", "member"]);
    let mut buf: Vec<u8> = vec![7];
    assert_eq!(ActorVariant::Group.to_sql_checked(&ty, &mut buf), Ok(IsNull::No));
    let mut expected = vec![7u8];
    expected.extend_from_slice(b"organization");
    assert_eq!(buf, expected);
}

#[test]
fn checked_encoding_fails_on_another_label_set_without_writing() {
    let ty = enumeration("actors_available", &["member", "moderator"]);
    let mut buf: Vec<u8> = vec![9, 9];
    assert_eq!(ActorVariant::User.to_sql_checked(&ty, &mut buf), Err(EncodeError::WrongType));
    assert_eq!(buf, vec![9, 9]);
}

#[test]
fn checked_encoding_fails_on_a_drifted_type_without_writing() {
    let mut buf: Vec<u8> = Vec::new();
    let renamed = enumeration("actor_kinds", &["member", "organization"]);
    assert_eq!(ActorVariant::Group.to_sql_checked(&renamed, &mut buf), Err(EncodeError::WrongType));
    let grown = enumeration("actors_available", &["member", "organization", "service"]);
    assert_eq!(ActorVariant::Group.to_sql_checked(&grown, &mut buf), Err(EncodeError::WrongType));
    let plain = SqlType { name: "actors_available".to_string(), kind: SqlKind::Other };
    assert_eq!(ActorVariant::Group.to_sql_checked(&plain, &mut buf), Err(EncodeError::WrongType));
    assert!(buf.is_empty());
}
