use vstd::prelude::*;
use crate::model::{BackendError, IbisContext, LocalUserView, Notification, SuccessResponse};
use crate::password::fails_with;

verus! {

/// Whether `n` is an unread notification for the local user `id`.
pub open spec fn unread_for(n: Notification, id: u64) -> bool {
    n.recipient_id == id && !n.read
}

/// The unread notifications for the local user `id`, in their order.
pub open spec fn unread_of(ns: Seq<Notification>, id: u64) -> Seq<Notification> {
    ns.filter(|n: Notification| unread_for(n, id))
}

proof fn lemma_unread_step(ns: Seq<Notification>, id: u64, i: int)
    requires
        0 <= i < ns.len(),
    ensures
        unread_of(ns.subrange(0, i + 1), id) == if unread_for(ns[i], id) {
            unread_of(ns.subrange(0, i), id).push(ns[i])
        } else {
            unread_of(ns.subrange(0, i), id)
        },
{
    let s = ns.subrange(0, i + 1);
    assert(s.drop_last() =~= ns.subrange(0, i));
    assert(s.last() == ns[i]);
    reveal_with_fuel(Seq::<Notification>::filter, 1);
}

/// The unread notifications of `user`.
pub fn list_notifications(ctx: &IbisContext, user: &LocalUserView) -> (r: Vec<Notification>)
    ensures
        r@ == unread_of(ctx.notifications@, user.local_user.id),
{
    let ns = &ctx.notifications;
    let id = user.local_user.id;
    let mut r: Vec<Notification> = Vec::new();
    let mut i: usize = 0;
    while i < ns.len()
        invariant
            i <= ns@.len(),
            r@ == unread_of(ns@.subrange(0, i as int), id),
        decreases ns@.len() - i,
    {
        proof {
            lemma_unread_step(ns@, id, i as int);
        }
        let n = ns[i];
        if n.recipient_id == id && !n.read {
            r.push(n);
        }
        i += 1;
    }
    assert(ns@.subrange(0, ns@.len() as int) =~= ns@);
    r
}

/// How many unread notifications the caller has: none for an anonymous one.
pub fn count_notifications(ctx: &IbisContext, user: Option<&LocalUserView>) -> (r: u64)
    ensures
        match user {
            None => r == 0,
            Some(u) => r == unread_of(ctx.notifications@, u.local_user.id).len(),
        },
{
    let u = match user {
        Some(u) => u,
        None => return 0,
    };
    let ns = &ctx.notifications;
    let id = u.local_user.id;
    let mut count: usize = 0;
    let mut i: usize = 0;
    while i < ns.len()
        invariant
            i <= ns@.len(),
            count <= i,
            count == unread_of(ns@.subrange(0, i as int), id).len(),
        decreases ns@.len() - i,
    {
        proof {
            lemma_unread_step(ns@, id, i as int);
        }
        if ns[i].recipient_id == id && !ns[i].read {
            count += 1;
        }
        i += 1;
    }
    assert(ns@.subrange(0, ns@.len() as int) =~= ns@);
    count as u64
}

/// Index of the first notification whose id is `id`.
pub open spec fn notification_index(ns: Seq<Notification>, id: u64) -> Option<int> {
    if exists|i: int|
        0 <= i < ns.len() && (#[trigger] ns[i]).id == id && forall|j: int|
            0 <= j < i ==> (#[trigger] ns[j]).id != id {
        Some(
            choose|i: int|
                0 <= i < ns.len() && (#[trigger] ns[i]).id == id && forall|j: int|
                    0 <= j < i ==> (#[trigger] ns[j]).id != id,
        )
    } else {
        None
    }
}

/// Marks the notification `id` as read; only its recipient may.
pub fn article_notif_mark_as_read(ctx: &mut IbisContext, id: u64, user: &LocalUserView) -> (r: Result<
    SuccessResponse,
    BackendError,
>)
    requires
        old(ctx).wf(),
    ensures
        final(ctx).wf(),
        final(ctx).conf == old(ctx).conf,
        final(ctx).users == old(ctx).users,
        final(ctx).reset_requests == old(ctx).reset_requests,
        final(ctx).verifications == old(ctx).verifications,
        match notification_index(old(ctx).notifications@, id) {
            None => fails_with(r, BackendError::NotFound) && final(ctx).notifications == old(
                ctx,
            ).notifications,
            Some(k) => {
                let n = old(ctx).notifications@[k];
                if n.recipient_id != user.local_user.id {
                    fails_with(r, BackendError::NotOwner) && final(ctx).notifications == old(
                        ctx,
                    ).notifications
                } else {
                    r matches Ok(s) && s.success && final(ctx).notifications@ == old(
                        ctx,
                    ).notifications@.update(k, Notification { read: true, ..n })
                }
            },
        },
{
    let mut i: usize = 0;
    while i < ctx.notifications.len()
        invariant
            *ctx == *old(ctx),
            ctx.wf(),
            i <= ctx.notifications@.len(),
            forall|j: int| 0 <= j < i ==> (#[trigger] ctx.notifications@[j]).id != id,
        decreases ctx.notifications@.len() - i,
    {
        if ctx.notifications[i].id == id {
            assert(ctx.notifications@[i as int].id == id);
            if ctx.notifications[i].recipient_id != user.local_user.id {
                return Err(BackendError::NotOwner);
            }
            let ghost ns0 = ctx.notifications@;
            ctx.notifications[i].read = true;
            proof {
                reveal(IbisContext::wf);
                assert(ctx.notifications@ =~= ns0.update(
                    i as int,
                    Notification { read: true, ..ns0[i as int] },
                ));
            }
            return Ok(SuccessResponse::ok());
        }
        i += 1;
    }
    Err(BackendError::NotFound)
}

} // verus!
