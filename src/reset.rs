use vstd::prelude::*;
use crate::model::{
    BackendError, IbisContext, LocalUserView, PasswordResetRequest, SuccessResponse, valid_time,
    first_by_email, user_with_id,
};
use crate::password::{
    bcrypt_hash, fails_with, new_password_problem, password_matches, validate_new_password,
    validate_password,
};
use crate::text::{lower_of, lowercase};

verus! {

/// How long a password reset token stays valid: one day.
pub const PASSWORD_RESET_VALIDITY_SECS: i64 = 86400;

/// Index of the pending reset whose token is `token`.
pub open spec fn reset_index(reqs: Seq<PasswordResetRequest>, token: Seq<char>) -> Option<int> {
    if exists|i: int| 0 <= i < reqs.len() && (#[trigger] reqs[i]).token@ == token {
        Some(choose|i: int| 0 <= i < reqs.len() && (#[trigger] reqs[i]).token@ == token)
    } else {
        None
    }
}

/// `u` with its stored password hash replaced by `h`.
pub open spec fn with_password(u: LocalUserView, h: Option<String>) -> LocalUserView {
    LocalUserView {
        local_user: crate::model::LocalUser { password_encrypted: h, ..u.local_user },
        ..u
    }
}

/// `after` is `before` with the password of user `i` set to one that
/// `password` matches.
pub open spec fn password_set(
    before: Seq<LocalUserView>,
    after: Seq<LocalUserView>,
    i: int,
    password: Seq<char>,
) -> bool {
    &&& 0 <= i < before.len()
    &&& after == before.update(i, with_password(before[i], after[i].local_user.password_encrypted))
    &&& password_matches(after[i], password)
}

/// Only the users of the context may have changed.
pub open spec fn only_users_changed(before: IbisContext, after: IbisContext) -> bool {
    &&& after.conf == before.conf
    &&& after.reset_requests == before.reset_requests
    &&& after.verifications == before.verifications
    &&& after.notifications == before.notifications
}

/// Stores a new password hash for the user whose local user id is `user_id`.
fn set_password(ctx: &mut IbisContext, user_id: u64, password: &str) -> (r: Result<(), BackendError>)
    requires
        old(ctx).wf(),
    ensures
        final(ctx).wf(),
        only_users_changed(*old(ctx), *final(ctx)),
        match user_with_id(old(ctx).users@, user_id) {
            None => fails_with(r, BackendError::NotFound) && final(ctx).users == old(ctx).users,
            Some(i) => (r is Ok && password_set(old(ctx).users@, final(ctx).users@, i, password@))
                || (fails_with(r, BackendError::Internal) && final(ctx).users == old(ctx).users),
        },
{
    let i = match ctx.find_user_by_id(user_id) {
        Some(i) => i,
        None => return Err(BackendError::NotFound),
    };
    let h = match bcrypt_hash(password, ctx.conf.hash_cost) {
        Some(h) => h,
        None => return Err(BackendError::Internal),
    };
    ctx.users[i].local_user.password_encrypted = Some(h);
    proof {
        reveal(IbisContext::wf);
        assert(final(ctx).users@ =~= old(ctx).users@.update(
            i as int,
            with_password(old(ctx).users@[i as int], final(ctx).users@[i as int].local_user.password_encrypted),
        ));
    }
    Ok(())
}

/// Index of the pending reset whose token is `token`.
fn find_reset(reqs: &Vec<PasswordResetRequest>, token: &str) -> (r: Option<usize>)
    ensures
        r matches Some(i) ==> i < reqs@.len() && reqs@[i as int].token@ == token@,
        r is None ==> forall|j: int| 0 <= j < reqs@.len() ==> (#[trigger] reqs@[j]).token@ != token@,
{
    let mut i: usize = 0;
    while i < reqs.len()
        invariant
            i <= reqs@.len(),
            forall|j: int| 0 <= j < i ==> (#[trigger] reqs@[j]).token@ != token@,
        decreases reqs@.len() - i,
    {
        if crate::text::same_text(reqs[i].token.as_str(), token) {
            return Some(i);
        }
        i += 1;
    }
    None
}

/// Reads and deletes, in one step, the pending reset whose token is `token`,
/// and gives its user id if it has not expired.
fn read_and_delete(ctx: &mut IbisContext, token: &str, now: i64) -> (r: Result<u64, BackendError>)
    requires
        old(ctx).wf(),
    ensures
        final(ctx).wf(),
        final(ctx).conf == old(ctx).conf,
        final(ctx).users == old(ctx).users,
        final(ctx).verifications == old(ctx).verifications,
        final(ctx).notifications == old(ctx).notifications,
        reset_index(final(ctx).reset_requests@, token@) is None,
        match reset_index(old(ctx).reset_requests@, token@) {
            None => fails_with(r, BackendError::InvalidOrExpiredToken) && final(ctx).reset_requests
                == old(ctx).reset_requests,
            Some(k) => final(ctx).reset_requests@ == old(ctx).reset_requests@.remove(k) && if now
                > old(ctx).reset_requests@[k].expiry {
                fails_with(r, BackendError::InvalidOrExpiredToken)
            } else {
                r matches Ok(id) && id == old(ctx).reset_requests@[k].local_user_id
            },
        },
{
    proof {
        reveal(IbisContext::wf);
    }
    let i = match find_reset(&ctx.reset_requests, token) {
        Some(i) => i,
        None => return Err(BackendError::InvalidOrExpiredToken),
    };
    let ghost before = ctx.reset_requests@;
    proof {
        let c = choose|c: int| 0 <= c < before.len() && (#[trigger] before[c]).token@ == token@;
        assert(before[i as int].token@ == token@);
        if c != i {
            if c < i {
                assert(before[c].token@ != before[i as int].token@);
            } else {
                assert(before[i as int].token@ != before[c].token@);
            }
        }
    }
    let req = ctx.reset_requests.remove(i);
    proof {
        let after = ctx.reset_requests@;
        assert(after =~= before.remove(i as int));
        assert forall|a: int, b: int| 0 <= a < b < after.len() implies (#[trigger] after[a]).token@
            != (#[trigger] after[b]).token@ by {
            let a0 = if a < i { a } else { a + 1 };
            let b0 = if b < i { b } else { b + 1 };
            assert(before[a0].token@ != before[b0].token@);
        }
        assert forall|x: int| 0 <= x < after.len() implies (#[trigger] after[x]).token@ != token@ by {
            let x0 = if x < i { x } else { x + 1 };
            if x0 < i {
                assert(before[x0].token@ != before[i as int].token@);
            } else {
                assert(before[i as int].token@ != before[x0].token@);
            }
        }
    }
    if now > req.expiry {
        return Err(BackendError::InvalidOrExpiredToken);
    }
    Ok(req.local_user_id)
}

} // verus!

verus! {

/// What `change_password_after_reset` does. The token is gone afterwards
/// whatever the outcome; it is looked at before the new password is.
pub open spec fn reset_post(
    before: IbisContext,
    after: IbisContext,
    token: Seq<char>,
    password: Seq<char>,
    confirm: Seq<char>,
    now: int,
    r: Result<SuccessResponse, BackendError>,
) -> bool {
    &&& after.wf()
    &&& after.conf == before.conf
    &&& after.verifications == before.verifications
    &&& after.notifications == before.notifications
    &&& reset_index(after.reset_requests@, token) is None
    &&& r matches Ok(s) ==> s.success
    &&& match reset_index(before.reset_requests@, token) {
        None => fails_with(r, BackendError::InvalidOrExpiredToken) && after.reset_requests
            == before.reset_requests && after.users == before.users,
        Some(k) => {
            let req = before.reset_requests@[k];
            &&& after.reset_requests@ == before.reset_requests@.remove(k)
            &&& if now > req.expiry {
                fails_with(r, BackendError::InvalidOrExpiredToken) && after.users == before.users
            } else {
                match new_password_problem(password, confirm, before.conf) {
                    Some(e) => fails_with(r, e) && after.users == before.users,
                    None => match user_with_id(before.users@, req.local_user_id) {
                        None => fails_with(r, BackendError::NotFound) && after.users == before.users,
                        Some(i) => (r is Ok && password_set(before.users@, after.users@, i, password))
                            || (fails_with(r, BackendError::Internal) && after.users
                            == before.users),
                    },
                }
            }
        },
    }
}

/// Completes a password reset: consumes the reset token, checks the new
/// password and stores it for the user the token was issued to.
pub fn change_password_after_reset(
    ctx: &mut IbisContext,
    token: &str,
    password: &str,
    confirm_password: &str,
    now: i64,
) -> (r: Result<SuccessResponse, BackendError>)
    requires
        old(ctx).wf(),
    ensures
        reset_post(*old(ctx), *final(ctx), token@, password@, confirm_password@, now as int, r),
{
    let local_user_id = read_and_delete(ctx, token, now)?;
    validate_new_password(password, confirm_password, &ctx.conf)?;
    set_password(ctx, local_user_id, password)?;
    Ok(SuccessResponse::ok())
}

/// Once `change_password_after_reset` has been called with a token, a second
/// call with the same token fails with `InvalidOrExpiredToken`.
pub proof fn law_reset_token_single_use(
    c0: IbisContext,
    c1: IbisContext,
    c2: IbisContext,
    token: Seq<char>,
    password1: Seq<char>,
    confirm1: Seq<char>,
    now1: int,
    r1: Result<SuccessResponse, BackendError>,
    password2: Seq<char>,
    confirm2: Seq<char>,
    now2: int,
    r2: Result<SuccessResponse, BackendError>,
)
    requires
        reset_post(c0, c1, token, password1, confirm1, now1, r1),
        reset_post(c1, c2, token, password2, confirm2, now2, r2),
    ensures
        fails_with(r2, BackendError::InvalidOrExpiredToken),
{
}

/// Of two completions with the same reset token, taken one after the other
/// as the atomic read-and-delete orders them, at most one succeeds; and where
/// the token was live, the password acceptable and its user present, the
/// first fails only if hashing the password failed.
pub proof fn law_reset_concurrent_completions(
    c0: IbisContext,
    c1: IbisContext,
    c2: IbisContext,
    token: Seq<char>,
    password1: Seq<char>,
    confirm1: Seq<char>,
    now1: int,
    r1: Result<SuccessResponse, BackendError>,
    password2: Seq<char>,
    confirm2: Seq<char>,
    now2: int,
    r2: Result<SuccessResponse, BackendError>,
)
    requires
        reset_post(c0, c1, token, password1, confirm1, now1, r1),
        reset_post(c1, c2, token, password2, confirm2, now2, r2),
    ensures
        !(r1 is Ok && r2 is Ok),
        (reset_index(c0.reset_requests@, token) matches Some(k) && now1
            <= c0.reset_requests@[k].expiry && new_password_problem(password1, confirm1, c0.conf)
            is None && user_with_id(c0.users@, c0.reset_requests@[k].local_user_id) is Some)
            ==> (r1 is Ok || fails_with(r1, BackendError::Internal)),
{
}

/// Changes the password of a logged-in user, who must give the old one.
pub fn change_password(
    ctx: &mut IbisContext,
    user: &LocalUserView,
    old_password: &str,
    new_password: &str,
    confirm_new_password: &str,
) -> (r: Result<SuccessResponse, BackendError>)
    requires
        old(ctx).wf(),
    ensures
        final(ctx).wf(),
        only_users_changed(*old(ctx), *final(ctx)),
        r matches Ok(s) ==> s.success,
        if !password_matches(*user, old_password@) {
            fails_with(r, BackendError::InvalidLogin) && final(ctx).users == old(ctx).users
        } else {
            match new_password_problem(new_password@, confirm_new_password@, old(ctx).conf) {
                Some(e) => fails_with(r, e) && final(ctx).users == old(ctx).users,
                None => match user_with_id(old(ctx).users@, user.local_user.id) {
                    None => fails_with(r, BackendError::NotFound) && final(ctx).users == old(ctx).users,
                    Some(i) => (r is Ok && password_set(old(ctx).users@, final(ctx).users@, i, new_password@))
                        || (fails_with(r, BackendError::Internal) && final(ctx).users == old(ctx).users),
                },
            }
        },
{
    validate_password(user, old_password)?;
    validate_new_password(new_password, confirm_new_password, &ctx.conf)?;
    set_password(ctx, user.local_user.id, new_password)?;
    Ok(SuccessResponse::ok())
}

/// What `request_reset_password` stores: where `email`, lowercased, is the
/// address of an account and `token` is not pending yet, one new reset for
/// that account, valid from `now` for `PASSWORD_RESET_VALIDITY_SECS`.
pub open spec fn reset_requested(
    before: IbisContext,
    after: IbisContext,
    email: Seq<char>,
    token: Seq<char>,
    now: int,
) -> bool {
    &&& after.wf()
    &&& after.conf == before.conf
    &&& after.users == before.users
    &&& after.verifications == before.verifications
    &&& after.notifications == before.notifications
    &&& match first_by_email(before.users@, lower_of(email)) {
        Some(i) if reset_index(before.reset_requests@, token) is None => {
            let req = after.reset_requests@.last();
            &&& after.reset_requests@.len() == before.reset_requests@.len() + 1
            &&& after.reset_requests@.drop_last() == before.reset_requests@
            &&& req.token@ == token
            &&& req.local_user_id == before.users@[i].local_user.id
            &&& req.created_at == now
            &&& req.expiry == now + PASSWORD_RESET_VALIDITY_SECS
        },
        _ => after.reset_requests == before.reset_requests,
    }
}

/// Starts a password reset for the account whose address is `email`, under
/// the fresh random `token`. The answer is the same success whether or not
/// an account matched, so that it reveals no registered address.
pub fn request_reset_password(ctx: &mut IbisContext, email: &str, token: String, now: i64) -> (r:
    SuccessResponse)
    requires
        old(ctx).wf(),
        valid_time(now),
    ensures
        r == (SuccessResponse { success: true }),
        reset_requested(*old(ctx), *final(ctx), email@, token@, now as int),
{
    let email = lowercase(email);
    if let Some(i) = ctx.find_user_by_email(email.as_str()) {
        if find_reset(&ctx.reset_requests, token.as_str()).is_none() {
            let req = PasswordResetRequest {
                token,
                local_user_id: ctx.users[i].local_user.id,
                created_at: now,
                expiry: now + PASSWORD_RESET_VALIDITY_SECS,
            };
            let ghost before = ctx.reset_requests@;
            ctx.reset_requests.push(req);
            proof {
                reveal(IbisContext::wf);
                let after = ctx.reset_requests@;
                assert(after.drop_last() =~= before);
                assert forall|a: int, b: int| 0 <= a < b < after.len() implies (#[trigger] after[a]).token@
                    != (#[trigger] after[b]).token@ by {
                    if b == before.len() {
                        assert(before[a].token@ != token@);
                    } else {
                        assert(before[a].token@ != before[b].token@);
                    }
                }
                assert(reset_index(before, token@) is None);
            }
        }
    }
    SuccessResponse::ok()
}

} // verus!
