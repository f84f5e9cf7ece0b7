//! Authentication and session lifecycle of a federated wiki: signed session
//! tokens, session cookies, credential checks, password reset, email
//! verification, profile updates and notification read state.
//!
//! All state this core reads and writes is held in an explicit
//! [`IbisContext`]; the current time and fresh random tokens are passed in by
//! the caller.
mod model;
mod text;
mod jwt;
mod password;
mod session;
mod reset;
mod profile;
mod notifications;

pub use model::{
    BackendError, Config, IbisContext, LocalUser, LocalUserView, Notification, Person,
    PasswordResetRequest, EmailVerification, SuccessResponse, MAX_UNIX_TIME,
};
pub use jwt::Claims;
pub use password::{validate_password, validate_new_password};
pub use session::{
    validate, create_cookie, removal_cookie, login_user, logout_user, issue_token, read_jwt_secret,
    check_claims, get_user, SessionCookie, AUTH_COOKIE, SESSION_VALIDITY_SECS,
    COOKIE_VALIDITY_SECS,
};
pub use reset::{
    request_reset_password, change_password_after_reset, change_password,
    PASSWORD_RESET_VALIDITY_SECS,
};
pub use profile::{
    empty_to_none, validate_display_name, validate_email, update_user_profile,
    send_verification_email, verify_email, UpdateUserParams, MAX_DISPLAY_NAME_CHARS,
    MIN_DISPLAY_NAME_CHARS,
};
pub use notifications::{list_notifications, count_notifications, article_notif_mark_as_read};
