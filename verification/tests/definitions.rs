use intelligence::auth::authenticator::AuthFailure;
use intelligence::definitions::{BodyUser, IntelliThing, Signal, User};
use intelligence::storage::database_manager::{first_row, PaginationParams};

fn alice() -> User {
    User {
        id: IntelliThing::new("alice_id".to_string()),
        admin: false,
        name: "alice".to_string(),
        email: "alice@example.org".to_string(),
        password: "correct horse".to_string(),
        firstname: Some("Alice".to_string()),
        lastname: None,
    }
}

fn empty_patch() -> BodyUser {
    BodyUser {
        id: None,
        name: None,
        email: None,
        admin: None,
        password: None,
        firstname: None,
        lastname: None,
    }
}

#[test]
fn key_reads_as_its_text() {
    let key = IntelliThing::new("u1".to_string());
    assert_eq!(key.to_string(), "u1");
    assert_eq!(IntelliThing::text_of(&Some(key)), "u1");
    assert_eq!(IntelliThing::text_of(&None), "");
}

#[test]
fn keys_are_equal_when_their_text_is() {
    let a = IntelliThing::new("u1".to_string());
    assert!(a == IntelliThing::new("u1".to_string()));
    assert!(a != IntelliThing::new("u2".to_string()));
    assert!(a != IntelliThing::new("U1".to_string()));
    assert!(a == a.clone());
}

#[test]
fn password_must_match_exactly() {
    let u = alice();
    assert!(u.validate_password("correct horse".to_string()));
    assert!(!u.validate_password("correct horse ".to_string()));
    assert!(!u.validate_password("Correct horse".to_string()));
    assert!(!u.validate_password(String::new()));
}

#[test]
fn compare_matches_key_name_or_email() {
    let u = alice();
    assert!(u.compare(&"alice_id".to_string()));
    assert!(u.compare(&"alice".to_string()));
    assert!(u.compare(&"alice@example.org".to_string()));
    assert!(!u.compare(&"bob".to_string()));
    assert!(!u.compare(&"Alice".to_string()));
    assert!(!u.compare(&"correct horse".to_string()));
    assert!(!u.compare(&String::new()));
}

#[test]
fn compare_matches_when_only_the_last_of_the_three_does() {
    let mut u = alice();
    u.id = IntelliThing::new("x".to_string());
    u.name = "y".to_string();
    u.email = "z".to_string();
    assert!(u.compare(&"z".to_string()));
    assert!(u.compare(&"y".to_string()));
    assert!(u.compare(&"x".to_string()));
}

#[test]
fn compare_accepts_another_users_name_as_ones_own_email() {
    // Weak equality: a target that is someone else's name still matches here.
    let mut u = alice();
    u.email = "bob".to_string();
    assert!(u.compare(&"bob".to_string()));
}

#[test]
fn compare_gives_the_same_answer_every_time() {
    let u = alice();
    let first = u.compare(&"alice".to_string());
    for _ in 0..3 {
        assert_eq!(u.compare(&"alice".to_string()), first);
        assert_eq!(u.is_admin(), false);
    }
    // Nothing but key, name, email and the flag is read.
    let mut other = alice();
    other.password = "changed".to_string();
    other.firstname = None;
    other.lastname = Some("L".to_string());
    for target in ["alice", "alice_id", "alice@example.org", "bob", ""] {
        assert_eq!(u.compare(&target.to_string()), other.compare(&target.to_string()));
        assert_eq!(u.may_act_on(&target.to_string()), other.may_act_on(&target.to_string()));
    }
}

#[test]
fn admin_may_act_on_anyone() {
    let mut u = alice();
    assert!(!u.is_admin());
    assert!(!u.may_act_on(&"bob".to_string()));
    assert!(u.may_act_on(&"alice".to_string()));
    u.admin = true;
    assert!(u.is_admin());
    assert!(u.may_act_on(&"bob".to_string()));
    assert!(u.may_act_on(&"alice".to_string()));
}

#[test]
fn patch_replaces_only_what_it_carries() {
    let mut u = alice();
    let mut patch = empty_patch();
    patch.email = Some("new@example.org".to_string());
    patch.lastname = Some("Liddell".to_string());
    patch.id = Some(IntelliThing::new("other_id".to_string()));
    u.apply(&patch);
    assert_eq!(u.id.to_string(), "alice_id");
    assert_eq!(u.name, "alice");
    assert_eq!(u.email, "new@example.org");
    assert_eq!(u.password, "correct horse");
    assert_eq!(u.firstname.as_deref(), Some("Alice"));
    assert_eq!(u.lastname.as_deref(), Some("Liddell"));
    assert!(!u.admin);
}

#[test]
fn empty_patch_changes_nothing() {
    let mut u = alice();
    u.apply(&empty_patch());
    assert_eq!(u.name, "alice");
    assert_eq!(u.firstname.as_deref(), Some("Alice"));
    assert_eq!(u.lastname, None);
    assert!(!u.admin);
}

#[test]
fn full_patch_replaces_everything_but_the_key() {
    let mut u = alice();
    let patch = BodyUser {
        id: None,
        name: Some("al".to_string()),
        email: Some("al@example.org".to_string()),
        admin: Some(true),
        password: Some("pw".to_string()),
        firstname: Some("Al".to_string()),
        lastname: Some("Ice".to_string()),
    };
    u.apply(&patch);
    assert_eq!(u.id.to_string(), "alice_id");
    assert_eq!(u.name, "al");
    assert_eq!(u.email, "al@example.org");
    assert!(u.admin);
    assert_eq!(u.password, "pw");
    assert_eq!(u.firstname.as_deref(), Some("Al"));
    assert_eq!(u.lastname.as_deref(), Some("Ice"));
}

#[test]
fn patch_made_from_a_user_carries_every_field() {
    let u = alice();
    let patch = BodyUser::from_user(&u);
    assert_eq!(patch.id.as_ref().map(|id| id.to_string()), Some("alice_id".to_string()));
    assert_eq!(patch.name.as_deref(), Some("alice"));
    assert_eq!(patch.email.as_deref(), Some("alice@example.org"));
    assert_eq!(patch.admin, Some(false));
    assert_eq!(patch.password.as_deref(), Some("correct horse"));
    assert_eq!(patch.firstname.as_deref(), Some("Alice"));
    assert_eq!(patch.lastname, None);
    let mut again = alice();
    again.apply(&patch);
    assert_eq!(format!("{:?}", again), format!("{:?}", u));
}

#[test]
fn user_clone_is_equal_in_every_field() {
    let u = alice();
    assert_eq!(format!("{:?}", u.clone()), format!("{:?}", u));
}

#[test]
fn pagination_holds_page_and_size() {
    let p = PaginationParams { page: Some(2), per_page: None };
    assert_eq!(p.page, Some(2));
    assert_eq!(p.per_page, None);
}

#[test]
fn auth_failures_are_signalled_without_the_reason() {
    for failure in [
        AuthFailure::NoCredential,
        AuthFailure::Malformed,
        AuthFailure::BadSignature,
        AuthFailure::Expired,
        AuthFailure::PrincipalNotFound,
    ] {
        assert_eq!(failure.signal(), Signal::Unauthorized);
    }
    assert_eq!(AuthFailure::StoreUnavailable.signal(), Signal::InternalError);
}

#[test]
fn first_row_is_the_first_or_none() {
    assert_eq!(first_row(vec![7, 8, 9]), Some(7));
    assert_eq!(first_row(vec!["only"]), Some("only"));
    assert_eq!(first_row(Vec::<u8>::new()), None);
}
