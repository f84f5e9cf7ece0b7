use ibis_auth::{
    article_notif_mark_as_read, change_password, change_password_after_reset, count_notifications,
    empty_to_none, list_notifications, login_user, request_reset_password, send_verification_email,
    update_user_profile, validate_display_name, validate_email, validate_new_password,
    verify_email, BackendError, Config, IbisContext, LocalUser, LocalUserView, Notification, Person,
    UpdateUserParams, PASSWORD_RESET_VALIDITY_SECS,
};

const NOW: i64 = 1_700_000_000;

fn config() -> Config {
    Config {
        domain: "example.org".to_string(),
        email_required: false,
        jwt_secret: Some("SECRET-REDACTED".to_string()),
        secure_cookies: true,
        min_password_length: 8,
        max_password_length: 60,
        hash_cost: 4,
    }
}

fn user(id: u64, name: &str, password: &str, email: &str) -> LocalUserView {
    LocalUserView {
        person: Person { id, username: name.to_string(), display_name: None, bio: None },
        local_user: LocalUser {
            id,
            password_encrypted: Some(bcrypt::hash(password, 4).unwrap()),
            email: Some(email.to_string()),
            email_verified: true,
            email_notifications: false,
        },
    }
}

fn context() -> IbisContext {
    IbisContext {
        conf: config(),
        users: vec![user(1, "bob", "bobs password", "bob@example.org"), user(2, "alice", "correct", "alice@example.org")],
        reset_requests: Vec::new(),
        verifications: Vec::new(),
        notifications: vec![
            Notification { id: 10, recipient_id: 2, read: false, created_at: 1 },
            Notification { id: 11, recipient_id: 1, read: false, created_at: 2 },
            Notification { id: 12, recipient_id: 2, read: true, created_at: 3 },
            Notification { id: 13, recipient_id: 2, read: false, created_at: 4 },
        ],
    }
}

#[test]
fn reset_request_lowercases_email_and_stores_request() {
    let mut ctx = context();
    let r = request_reset_password(&mut ctx, "Alice@Example.ORG", "tok1".to_string(), NOW);
    assert!(r.success);
    assert_eq!(ctx.reset_requests.len(), 1);
    let req = &ctx.reset_requests[0];
    assert_eq!(req.token, "tok1");
    assert_eq!(req.local_user_id, 2);
    assert_eq!(req.created_at, NOW);
    assert_eq!(req.expiry, NOW + PASSWORD_RESET_VALIDITY_SECS);
}

#[test]
fn reset_request_same_response_for_unknown_email() {
    let mut ctx = context();
    let known = request_reset_password(&mut ctx, "alice@example.org", "tok1".to_string(), NOW);
    let unknown = request_reset_password(&mut ctx, "nobody@example.org", "tok2".to_string(), NOW);
    assert_eq!(known, unknown);
    assert_eq!(ctx.reset_requests.len(), 1);
}

#[test]
fn reset_completion_changes_password_once() {
    let mut ctx = context();
    request_reset_password(&mut ctx, "alice@example.org", "tok1".to_string(), NOW);
    let r = change_password_after_reset(&mut ctx, "tok1", "new password", "new password", NOW + 10);
    assert!(r.unwrap().success);
    assert!(ctx.reset_requests.is_empty());
    assert!(login_user(&ctx, "alice", "new password", NOW).is_ok());
    assert_eq!(login_user(&ctx, "alice", "correct", NOW).unwrap_err(), BackendError::InvalidLogin);
    let again = change_password_after_reset(&mut ctx, "tok1", "other password", "other password", NOW + 20);
    assert_eq!(again.unwrap_err(), BackendError::InvalidOrExpiredToken);
    assert!(login_user(&ctx, "alice", "new password", NOW).is_ok());
}

#[test]
fn reset_concurrent_completions_exactly_one_succeeds() {
    let mut ctx = context();
    request_reset_password(&mut ctx, "alice@example.org", "tok1".to_string(), NOW);
    let first = change_password_after_reset(&mut ctx, "tok1", "password one", "password one", NOW);
    let second = change_password_after_reset(&mut ctx, "tok1", "password two", "password two", NOW);
    assert_eq!([first.is_ok(), second.is_ok()].iter().filter(|b| **b).count(), 1);
    assert_eq!(second.unwrap_err(), BackendError::InvalidOrExpiredToken);
}

#[test]
fn reset_unknown_token_fails() {
    let mut ctx = context();
    let r = change_password_after_reset(&mut ctx, "nope", "new password", "new password", NOW);
    assert_eq!(r.unwrap_err(), BackendError::InvalidOrExpiredToken);
}

#[test]
fn reset_expired_token_fails_and_is_consumed() {
    let mut ctx = context();
    request_reset_password(&mut ctx, "alice@example.org", "tok1".to_string(), NOW);
    let late = NOW + PASSWORD_RESET_VALIDITY_SECS + 1;
    let r = change_password_after_reset(&mut ctx, "tok1", "new password", "new password", late);
    assert_eq!(r.unwrap_err(), BackendError::InvalidOrExpiredToken);
    assert!(ctx.reset_requests.is_empty());
}

#[test]
fn reset_token_checked_before_password() {
    let mut ctx = context();
    let r = change_password_after_reset(&mut ctx, "nope", "a", "b", NOW);
    assert_eq!(r.unwrap_err(), BackendError::InvalidOrExpiredToken);
}

#[test]
fn reset_mismatch_consumes_token() {
    let mut ctx = context();
    request_reset_password(&mut ctx, "alice@example.org", "tok1".to_string(), NOW);
    let r = change_password_after_reset(&mut ctx, "tok1", "new password", "new passw0rd", NOW);
    assert_eq!(r.unwrap_err(), BackendError::Mismatch);
    assert!(ctx.reset_requests.is_empty());
    assert!(login_user(&ctx, "alice", "correct", NOW).is_ok());
}

#[test]
fn reset_weak_password() {
    let mut ctx = context();
    request_reset_password(&mut ctx, "alice@example.org", "tok1".to_string(), NOW);
    let r = change_password_after_reset(&mut ctx, "tok1", "short", "short", NOW);
    assert_eq!(r.unwrap_err(), BackendError::TooWeak);
}

#[test]
fn reset_duplicate_token_not_stored_twice() {
    let mut ctx = context();
    request_reset_password(&mut ctx, "alice@example.org", "tok1".to_string(), NOW);
    request_reset_password(&mut ctx, "bob@example.org", "tok1".to_string(), NOW);
    assert_eq!(ctx.reset_requests.len(), 1);
    assert_eq!(ctx.reset_requests[0].local_user_id, 2);
}

#[test]
fn new_password_rules() {
    let conf = config();
    assert!(validate_new_password("12345678", "12345678", &conf).is_ok());
    assert_eq!(validate_new_password("12345678", "12345679", &conf).unwrap_err(), BackendError::Mismatch);
    assert_eq!(validate_new_password("1234567", "1234567", &conf).unwrap_err(), BackendError::TooWeak);
    let long = "x".repeat(61);
    assert_eq!(validate_new_password(&long, &long, &conf).unwrap_err(), BackendError::TooWeak);
    let max = "x".repeat(60);
    assert!(validate_new_password(&max, &max, &conf).is_ok());
}

#[test]
fn change_password_requires_old_password() {
    let mut ctx = context();
    let alice = user(2, "alice", "correct", "alice@example.org");
    let r = change_password(&mut ctx, &alice, "wrong", "new password", "new password");
    assert_eq!(r.unwrap_err(), BackendError::InvalidLogin);
    let r = change_password(&mut ctx, &alice, "correct", "new password", "new password");
    assert!(r.unwrap().success);
    assert!(login_user(&ctx, "alice", "new password", NOW).is_ok());
}

#[test]
fn change_password_bad_cost_is_internal() {
    let mut ctx = context();
    ctx.conf.hash_cost = 2;
    let alice = user(2, "alice", "correct", "alice@example.org");
    let r = change_password(&mut ctx, &alice, "correct", "new password", "new password");
    assert_eq!(r.unwrap_err(), BackendError::Internal);
}

fn params(display_name: Option<&str>, bio: Option<&str>, email: Option<&str>) -> UpdateUserParams {
    UpdateUserParams {
        display_name: display_name.map(|s| s.to_string()),
        bio: bio.map(|s| s.to_string()),
        email: email.map(|s| s.to_string()),
        email_notifications: Some(true),
    }
}

#[test]
fn update_profile_empty_display_name_clears_it() {
    let mut ctx = context();
    ctx.users[1].person.display_name = Some("Alice A".to_string());
    let alice = user(2, "alice", "correct", "alice@example.org");
    let r = update_user_profile(&mut ctx, &alice, params(Some(""), Some("hello"), None), "v1".to_string());
    assert!(r.unwrap().success);
    assert_eq!(ctx.users[1].person.display_name, None);
    assert_eq!(ctx.users[1].person.bio, Some("hello".to_string()));
    assert!(ctx.users[1].local_user.email_notifications);
    assert!(ctx.verifications.is_empty());
}

#[test]
fn update_profile_invalid_display_name_changes_nothing() {
    let mut ctx = context();
    let alice = user(2, "alice", "correct", "alice@example.org");
    let r = update_user_profile(&mut ctx, &alice, params(Some("a@b"), Some("hello"), None), "v1".to_string());
    assert_eq!(r.unwrap_err(), BackendError::InvalidFormat);
    assert_eq!(ctx.users[1].person.bio, None);
}

#[test]
fn update_profile_new_email_starts_verification() {
    let mut ctx = context();
    let alice = user(2, "alice", "correct", "alice@example.org");
    let r = update_user_profile(&mut ctx, &alice, params(Some("Alice"), None, Some("new@mail.org")), "v1".to_string());
    assert!(r.is_ok());
    assert_eq!(ctx.users[1].person.display_name, Some("Alice".to_string()));
    assert_eq!(ctx.users[1].local_user.email, Some("alice@example.org".to_string()));
    assert_eq!(ctx.verifications.len(), 1);
    assert_eq!(ctx.verifications[0].pending_email, "new@mail.org");
    assert_eq!(ctx.verifications[0].local_user_id, 2);
    let done = verify_email(&mut ctx, "v1").unwrap();
    assert!(done.success);
    assert_eq!(ctx.users[1].local_user.email, Some("new@mail.org".to_string()));
    assert!(ctx.users[1].local_user.email_verified);
    assert!(ctx.verifications.is_empty());
    assert_eq!(verify_email(&mut ctx, "v1").unwrap_err(), BackendError::InvalidOrExpiredToken);
}

#[test]
fn update_profile_invalid_email_changes_nothing() {
    let mut ctx = context();
    let alice = user(2, "alice", "correct", "alice@example.org");
    let r = update_user_profile(&mut ctx, &alice, params(Some("Alice"), Some("bio"), Some("no-at-sign")), "v1".to_string());
    assert_eq!(r.unwrap_err(), BackendError::InvalidFormat);
    assert_eq!(ctx.users[1].person.bio, None);
    assert_eq!(ctx.users[1].person.display_name, None);
    assert!(!ctx.users[1].local_user.email_notifications);
    assert!(ctx.verifications.is_empty());
}

#[test]
fn update_profile_duplicate_verification_token_keeps_profile_update() {
    let mut ctx = context();
    send_verification_email(&mut ctx, 1, "b@c.org", "v1".to_string()).unwrap();
    let alice = user(2, "alice", "correct", "alice@example.org");
    let r = update_user_profile(&mut ctx, &alice, params(None, Some("bio"), Some("new@mail.org")), "v1".to_string());
    assert_eq!(r.unwrap_err(), BackendError::Internal);
    assert_eq!(ctx.users[1].person.bio, Some("bio".to_string()));
    assert_eq!(ctx.verifications.len(), 1);
}

#[test]
fn verify_unknown_token_fails() {
    let mut ctx = context();
    assert_eq!(verify_email(&mut ctx, "zzz").unwrap_err(), BackendError::InvalidOrExpiredToken);
}

#[test]
fn verification_for_missing_user() {
    let mut ctx = context();
    send_verification_email(&mut ctx, 99, "x@y.org", "v9".to_string()).unwrap();
    assert_eq!(verify_email(&mut ctx, "v9").unwrap_err(), BackendError::NotFound);
    assert!(ctx.verifications.is_empty());
}

#[test]
fn verification_duplicate_token_refused() {
    let mut ctx = context();
    send_verification_email(&mut ctx, 2, "x@y.org", "v1".to_string()).unwrap();
    let r = send_verification_email(&mut ctx, 1, "z@y.org", "v1".to_string());
    assert_eq!(r.unwrap_err(), BackendError::Internal);
}

#[test]
fn email_syntax() {
    assert!(validate_email("alice@example.org").is_ok());
    assert!(validate_email("a@b.co").is_ok());
    for bad in ["", "alice", "@example.org", "alice@", "alice@org", "alice@.org", "alice@org.", "a@b@c.org"] {
        assert_eq!(validate_email(bad).unwrap_err(), BackendError::InvalidFormat, "{bad}");
    }
}

#[test]
fn display_name_rules() {
    assert!(validate_display_name(&None).is_ok());
    assert!(validate_display_name(&Some("Ali".to_string())).is_ok());
    assert!(validate_display_name(&Some("x".repeat(20))).is_ok());
    assert_eq!(validate_display_name(&Some("Al".to_string())).unwrap_err(), BackendError::InvalidFormat);
    assert_eq!(validate_display_name(&Some("x".repeat(21))).unwrap_err(), BackendError::InvalidFormat);
    assert_eq!(validate_display_name(&Some("al@ce".to_string())).unwrap_err(), BackendError::InvalidFormat);
}

#[test]
fn empty_strings_become_none() {
    let mut a = Some(String::new());
    empty_to_none(&mut a);
    assert_eq!(a, None);
    let mut b = Some("x".to_string());
    empty_to_none(&mut b);
    assert_eq!(b, Some("x".to_string()));
    let mut c: Option<String> = None;
    empty_to_none(&mut c);
    assert_eq!(c, None);
}

#[test]
fn count_notifications_anonymous_is_zero() {
    let ctx = context();
    assert_eq!(count_notifications(&ctx, None), 0);
}

#[test]
fn count_notifications_counts_unread_of_user() {
    let ctx = context();
    let alice = user(2, "alice", "correct", "alice@example.org");
    let bob = user(1, "bob", "x", "bob@example.org");
    let carol = user(3, "carol", "x", "carol@example.org");
    assert_eq!(count_notifications(&ctx, Some(&alice)), 2);
    assert_eq!(count_notifications(&ctx, Some(&bob)), 1);
    assert_eq!(count_notifications(&ctx, Some(&carol)), 0);
}

#[test]
fn list_notifications_unread_of_user() {
    let ctx = context();
    let alice = user(2, "alice", "correct", "alice@example.org");
    let ids: Vec<u64> = list_notifications(&ctx, &alice).iter().map(|n| n.id).collect();
    assert_eq!(ids, vec![10, 13]);
}

#[test]
fn mark_as_read_by_owner() {
    let mut ctx = context();
    let alice = user(2, "alice", "correct", "alice@example.org");
    assert!(article_notif_mark_as_read(&mut ctx, 13, &alice).unwrap().success);
    assert!(ctx.notifications[3].read);
    assert_eq!(count_notifications(&ctx, Some(&alice)), 1);
}

#[test]
fn mark_as_read_by_other_is_refused() {
    let mut ctx = context();
    let bob = user(1, "bob", "x", "bob@example.org");
    assert_eq!(article_notif_mark_as_read(&mut ctx, 10, &bob).unwrap_err(), BackendError::NotOwner);
    assert!(!ctx.notifications[0].read);
    assert_eq!(article_notif_mark_as_read(&mut ctx, 99, &bob).unwrap_err(), BackendError::NotFound);
}

#[test]
fn well_formed_detects_duplicates() {
    let mut ctx = context();
    assert!(ctx.well_formed());
    ctx.users.push(user(3, "alice", "x", "other@example.org"));
    assert!(!ctx.well_formed());
    let mut ctx = context();
    ctx.users.push(user(2, "carol", "x", "carol@example.org"));
    assert!(!ctx.well_formed());
    let mut ctx = context();
    request_reset_password(&mut ctx, "alice@example.org", "t".to_string(), NOW);
    send_verification_email(&mut ctx, 2, "x@y.org", "v".to_string()).unwrap();
    assert!(ctx.well_formed());
    let dup = ctx.verifications[0].token.clone();
    ctx.verifications.push(ibis_auth::EmailVerification { token: dup, local_user_id: 1, pending_email: "z@y.org".to_string() });
    assert!(!ctx.well_formed());
    let mut ctx = context();
    ctx.notifications.push(Notification { id: 10, recipient_id: 1, read: false, created_at: 5 });
    assert!(!ctx.well_formed());
}
