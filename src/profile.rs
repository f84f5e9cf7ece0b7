use vstd::prelude::*;
use crate::model::{
    BackendError, EmailVerification, IbisContext, LocalUser, LocalUserView, Person,
    SuccessResponse, user_with_id,
};
use crate::password::fails_with;
use crate::text::same_text;

verus! {

/// Most characters a display name may have.
pub const MAX_DISPLAY_NAME_CHARS: usize = 20;

/// Fewest characters a display name may have.
pub const MIN_DISPLAY_NAME_CHARS: usize = 3;

/// An optional text field with the empty string read as no value.
pub open spec fn blank_to_absent(o: Option<String>) -> Option<String> {
    match o {
        Some(s) => if s@.len() == 0 {
            None
        } else {
            Some(s)
        },
        None => None,
    }
}

/// Turns an empty string into no value.
pub fn empty_to_none(o: &mut Option<String>)
    ensures
        *final(o) == blank_to_absent(*old(o)),
{
    let blank = match o {
        Some(s) => s.as_str().unicode_len() == 0,
        None => false,
    };
    if blank {
        *o = None;
    }
}

/// Whether `name` is an acceptable display name: 3 to 20 characters, no `@`.
pub open spec fn valid_display_name(name: Seq<char>) -> bool {
    &&& MIN_DISPLAY_NAME_CHARS <= name.len() <= MAX_DISPLAY_NAME_CHARS
    &&& forall|j: int| 0 <= j < name.len() ==> name[j] != '@'
}

/// Accepts an absent display name, or one that `valid_display_name` allows.
pub fn validate_display_name(name: &Option<String>) -> (r: Result<(), BackendError>)
    ensures
        r is Ok <==> (name matches Some(n) ==> valid_display_name(n@)),
        r is Err ==> fails_with(r, BackendError::InvalidFormat),
{
    if let Some(n) = name {
        let s = n.as_str();
        let len = s.unicode_len();
        if len < MIN_DISPLAY_NAME_CHARS || len > MAX_DISPLAY_NAME_CHARS {
            return Err(BackendError::InvalidFormat);
        }
        let mut i: usize = 0;
        while i < len
            invariant
                len == n@.len(),
                s@ == n@,
                *name == Some(*n),
                i <= len,
                forall|j: int| 0 <= j < i ==> n@[j] != '@',
            decreases len - i,
        {
            if s.get_char(i) == '@' {
                assert(n@[i as int] == '@');
                return Err(BackendError::InvalidFormat);
            }
            i += 1;
        }
    }
    Ok(())
}

/// Whether `e` is an email address: exactly one `@`, with text before it,
/// and a domain after it that holds a `.` with text on both sides.
pub open spec fn valid_email(e: Seq<char>) -> bool {
    exists|k: int|
        0 < k < e.len() && #[trigger] e[k] == '@' && (forall|j: int|
            0 <= j < e.len() && j != k ==> e[j] != '@') && exists|p: int|
            k + 1 < p < e.len() - 1 && #[trigger] e[p] == '.'
}

/// Accepts an email address that `valid_email` allows.
pub fn validate_email(email: &str) -> (r: Result<(), BackendError>)
    ensures
        r is Ok <==> valid_email(email@),
        r is Err ==> fails_with(r, BackendError::InvalidFormat),
{
    let e = Ghost(email@);
    let n = email.unicode_len();
    let mut at: Option<usize> = None;
    let mut i: usize = 0;
    while i < n
        invariant
            n == e@.len(),
            e@ == email@,
            i <= n,
            at matches Some(k) ==> k < i && e@[k as int] == '@',
            forall|j: int| 0 <= j < i && (at matches Some(k) ==> j != k) ==> e@[j] != '@',
        decreases n - i,
    {
        if email.get_char(i) == '@' {
            if let Some(k) = at {
                proof {
                    assert forall|x: int|
                        0 < x < e@.len() && #[trigger] e@[x] == '@' implies !(forall|j: int|
                        0 <= j < e@.len() && j != x ==> e@[j] != '@') by {
                        if x == k {
                            assert(e@[i as int] == '@');
                        } else {
                            assert(e@[k as int] == '@');
                        }
                    }
                }
                return Err(BackendError::InvalidFormat);
            }
            at = Some(i);
        }
        i += 1;
    }
    let k = match at {
        Some(k) => k,
        None => return Err(BackendError::InvalidFormat),
    };
    if k == 0 {
        assert forall|x: int| 0 < x < e@.len() && #[trigger] e@[x] == '@' implies false by {
            assert(x != k);
        }
        return Err(BackendError::InvalidFormat);
    }
    let mut p: usize = k + 1;
    while p < n - 1
        invariant
            n == e@.len(),
            e@ == email@,
            e@[k as int] == '@',
            forall|j: int| 0 <= j < e@.len() && j != k ==> e@[j] != '@',
            k + 1 <= p,
            0 < k < n,
            forall|q: int| k + 1 < q < p && q < n - 1 ==> e@[q] != '.',
        decreases n - p,
    {
        if p > k + 1 && email.get_char(p) == '.' {
            assert(k + 1 < p < e@.len() - 1 && e@[p as int] == '.');
            assert(0 < k < e@.len() && e@[k as int] == '@');
            return Ok(());
        }
        p += 1;
    }
    assert forall|x: int|
        0 < x < e@.len() && #[trigger] e@[x] == '@' && (forall|j: int|
            0 <= j < e@.len() && j != x ==> e@[j] != '@') implies !(exists|q: int|
        x + 1 < q < e@.len() - 1 && #[trigger] e@[q] == '.') by {
        if x != k {
            assert(e@[k as int] == '@');
        }
    }
    Err(BackendError::InvalidFormat)
}

} // verus!

verus! {

/// Index of the pending verification whose token is `token`.
pub open spec fn verification_index(vs: Seq<EmailVerification>, token: Seq<char>) -> Option<int> {
    if exists|i: int| 0 <= i < vs.len() && (#[trigger] vs[i]).token@ == token {
        Some(choose|i: int| 0 <= i < vs.len() && (#[trigger] vs[i]).token@ == token)
    } else {
        None
    }
}

fn find_verification(vs: &Vec<EmailVerification>, token: &str) -> (r: Option<usize>)
    ensures
        r matches Some(i) ==> i < vs@.len() && vs@[i as int].token@ == token@,
        r is None ==> forall|j: int| 0 <= j < vs@.len() ==> (#[trigger] vs@[j]).token@ != token@,
{
    let mut i: usize = 0;
    while i < vs.len()
        invariant
            i <= vs@.len(),
            forall|j: int| 0 <= j < i ==> (#[trigger] vs@[j]).token@ != token@,
        decreases vs@.len() - i,
    {
        if same_text(vs[i].token.as_str(), token) {
            return Some(i);
        }
        i += 1;
    }
    None
}

/// Only the pending verifications of the context may have changed.
pub open spec fn only_verifications_changed(before: IbisContext, after: IbisContext) -> bool {
    &&& after.conf == before.conf
    &&& after.users == before.users
    &&& after.reset_requests == before.reset_requests
    &&& after.notifications == before.notifications
}

/// What `send_verification_email` records: a pending address `email` for
/// the user `local_user_id`, under `token`.
pub open spec fn verification_recorded(
    before: Seq<EmailVerification>,
    after: Seq<EmailVerification>,
    local_user_id: u64,
    email: Seq<char>,
    token: Seq<char>,
) -> bool {
    &&& after.len() == before.len() + 1
    &&& after.drop_last() == before
    &&& after.last().token@ == token
    &&& after.last().local_user_id == local_user_id
    &&& after.last().pending_email@ == email
}

/// Records `email` as the pending address of the user `local_user_id`,
/// to be confirmed with `token`; the account's address is not changed yet.
/// The caller mails `token` to `email`.
pub fn send_verification_email(ctx: &mut IbisContext, local_user_id: u64, email: &str, token: String) -> (r:
    Result<(), BackendError>)
    requires
        old(ctx).wf(),
    ensures
        final(ctx).wf(),
        only_verifications_changed(*old(ctx), *final(ctx)),
        if !valid_email(email@) {
            fails_with(r, BackendError::InvalidFormat) && final(ctx).verifications == old(ctx).verifications
        } else if verification_index(old(ctx).verifications@, token@) is Some {
            fails_with(r, BackendError::Internal) && final(ctx).verifications == old(ctx).verifications
        } else {
            r is Ok && verification_recorded(
                old(ctx).verifications@,
                final(ctx).verifications@,
                local_user_id,
                email@,
                token@,
            )
        },
{
    validate_email(email)?;
    if find_verification(&ctx.verifications, token.as_str()).is_some() {
        return Err(BackendError::Internal);
    }
    let ghost before = ctx.verifications@;
    ctx.verifications.push(
        EmailVerification { token, local_user_id, pending_email: email.to_string() },
    );
    proof {
        reveal(IbisContext::wf);
        let after = ctx.verifications@;
        assert(after.drop_last() =~= before);
        assert forall|a: int, b: int| 0 <= a < b < after.len() implies (#[trigger] after[a]).token@
            != (#[trigger] after[b]).token@ by {
            if b == before.len() {
                assert(before[a].token@ != after[b].token@);
            } else {
                assert(before[a].token@ != before[b].token@);
            }
        }
    }
    Ok(())
}

/// `u` with `email` as its address, marked verified.
pub open spec fn email_confirmed(u: LocalUserView, email: String) -> LocalUserView {
    LocalUserView { local_user: LocalUser { email: Some(email), email_verified: true, ..u.local_user }, ..u }
}

/// Confirms a pending address: consumes its token, makes the address the
/// account's own and marks it verified.
pub fn verify_email(ctx: &mut IbisContext, token: &str) -> (r: Result<SuccessResponse, BackendError>)
    requires
        old(ctx).wf(),
    ensures
        final(ctx).wf(),
        final(ctx).conf == old(ctx).conf,
        final(ctx).reset_requests == old(ctx).reset_requests,
        final(ctx).notifications == old(ctx).notifications,
        verification_index(final(ctx).verifications@, token@) is None,
        match verification_index(old(ctx).verifications@, token@) {
            None => fails_with(r, BackendError::InvalidOrExpiredToken) && final(ctx).verifications
                == old(ctx).verifications && final(ctx).users == old(ctx).users,
            Some(k) => {
                let v = old(ctx).verifications@[k];
                &&& final(ctx).verifications@ == old(ctx).verifications@.remove(k)
                &&& match user_with_id(old(ctx).users@, v.local_user_id) {
                    None => fails_with(r, BackendError::NotFound) && final(ctx).users == old(ctx).users,
                    Some(i) => r matches Ok(s) && s.success && final(ctx).users@ == old(
                        ctx,
                    ).users@.update(i, email_confirmed(old(ctx).users@[i], v.pending_email)),
                }
            },
        },
{
    proof {
        reveal(IbisContext::wf);
    }
    let k = match find_verification(&ctx.verifications, token) {
        Some(k) => k,
        None => return Err(BackendError::InvalidOrExpiredToken),
    };
    let ghost before = ctx.verifications@;
    proof {
        let c = choose|c: int| 0 <= c < before.len() && (#[trigger] before[c]).token@ == token@;
        if c != k {
            if c < k {
                assert(before[c].token@ != before[k as int].token@);
            } else {
                assert(before[k as int].token@ != before[c].token@);
            }
        }
    }
    let v = ctx.verifications.remove(k);
    proof {
        let after = ctx.verifications@;
        assert(after =~= before.remove(k as int));
        assert forall|a: int, b: int| 0 <= a < b < after.len() implies (#[trigger] after[a]).token@
            != (#[trigger] after[b]).token@ by {
            let a0 = if a < k { a } else { a + 1 };
            let b0 = if b < k { b } else { b + 1 };
            assert(before[a0].token@ != before[b0].token@);
        }
        assert forall|x: int| 0 <= x < after.len() implies (#[trigger] after[x]).token@ != token@ by {
            let x0 = if x < k { x } else { x + 1 };
            if x0 < k {
                assert(before[x0].token@ != before[k as int].token@);
            } else {
                assert(before[k as int].token@ != before[x0].token@);
            }
        }
    }
    let i = match ctx.find_user_by_id(v.local_user_id) {
        Some(i) => i,
        None => return Err(BackendError::NotFound),
    };
    let ghost users0 = ctx.users@;
    ctx.users[i].local_user.email = Some(v.pending_email);
    ctx.users[i].local_user.email_verified = true;
    proof {
        assert(ctx.users@ =~= users0.update(i as int, email_confirmed(users0[i as int], v.pending_email)));
    }
    Ok(SuccessResponse::ok())
}

} // verus!

verus! {

/// A profile update as submitted: an empty string stands for no value.
#[derive(Debug)]
pub struct UpdateUserParams {
    pub display_name: Option<String>,
    pub bio: Option<String>,
    pub email: Option<String>,
    pub email_notifications: Option<bool>,
}

/// `u` with the public profile fields and the notification setting applied.
pub open spec fn profile_applied(
    u: LocalUserView,
    display_name: Option<String>,
    bio: Option<String>,
    email_notifications: Option<bool>,
) -> LocalUserView {
    LocalUserView {
        person: Person { display_name, bio, ..u.person },
        local_user: LocalUser {
            email_notifications: match email_notifications {
                Some(b) => b,
                None => u.local_user.email_notifications,
            },
            ..u.local_user
        },
    }
}

/// What `update_user_profile` does. The display name and the new address are
/// checked before anything is written; then the profile is written, and the
/// new address is recorded for verification. The two writes are independent:
/// where recording the address fails, the profile stays updated.
pub open spec fn profile_update_post(
    before: IbisContext,
    after: IbisContext,
    id: u64,
    params: UpdateUserParams,
    token: Seq<char>,
    r: Result<SuccessResponse, BackendError>,
) -> bool {
    let display_name = blank_to_absent(params.display_name);
    let email = blank_to_absent(params.email);
    &&& after.wf()
    &&& after.conf == before.conf
    &&& after.reset_requests == before.reset_requests
    &&& after.notifications == before.notifications
    &&& r matches Ok(s) ==> s.success
    &&& if display_name matches Some(n) && !valid_display_name(n@) {
        fails_with(r, BackendError::InvalidFormat) && after == before
    } else if email matches Some(e) && !valid_email(e@) {
        fails_with(r, BackendError::InvalidFormat) && after == before
    } else {
        &&& match user_with_id(before.users@, id) {
            None => after.users == before.users,
            Some(i) => after.users@ == before.users@.update(
                i,
                profile_applied(
                    before.users@[i],
                    display_name,
                    blank_to_absent(params.bio),
                    params.email_notifications,
                ),
            ),
        }
        &&& match email {
            None => r is Ok && after.verifications == before.verifications,
            Some(e) => if verification_index(before.verifications@, token) is Some {
                fails_with(r, BackendError::Internal) && after.verifications == before.verifications
            } else {
                r is Ok && verification_recorded(
                    before.verifications@,
                    after.verifications@,
                    id,
                    e@,
                    token,
                )
            },
        }
    }
}

/// Updates the profile of `user` and, where a new address is given, starts
/// its verification under `verification_token`.
pub fn update_user_profile(
    ctx: &mut IbisContext,
    user: &LocalUserView,
    params: UpdateUserParams,
    verification_token: String,
) -> (r: Result<SuccessResponse, BackendError>)
    requires
        old(ctx).wf(),
    ensures
        profile_update_post(*old(ctx), *final(ctx), user.local_user.id, params, verification_token@, r),
{
    let ghost p0 = params;
    let mut params = params;
    empty_to_none(&mut params.display_name);
    empty_to_none(&mut params.bio);
    empty_to_none(&mut params.email);
    validate_display_name(&params.display_name)?;
    if let Some(e) = &params.email {
        validate_email(e.as_str())?;
    }
    if let Some(i) = ctx.find_user_by_id(user.local_user.id) {
        let ghost users0 = ctx.users@;
        ctx.users[i].person.display_name = params.display_name;
        ctx.users[i].person.bio = params.bio;
        if let Some(b) = params.email_notifications {
            ctx.users[i].local_user.email_notifications = b;
        }
        proof {
            reveal(IbisContext::wf);
            assert(ctx.users@ =~= users0.update(
                i as int,
                profile_applied(
                    users0[i as int],
                    blank_to_absent(p0.display_name),
                    blank_to_absent(p0.bio),
                    p0.email_notifications,
                ),
            ));
        }
    }
    if let Some(email) = params.email {
        send_verification_email(ctx, user.local_user.id, email.as_str(), verification_token)?;
    }
    Ok(SuccessResponse::ok())
}

} // verus!
