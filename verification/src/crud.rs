//! Create/read/update/delete endpoints: comments, communities, emojis,
//! multi-communities, posts, private messages, the site, taglines.
use vstd::prelude::*;
use crate::error::{Guard, StudyCycleErrorType, StudyCycleResult, require_guard, fails_with, refused_by};
use crate::modlog::ModlogEntry;
use crate::outside::{utc_timestamp_opt, utc_timestamp_in_range};
use crate::time::{Timestamp, spec_before, is_before, now, spec_clock_reading};

verus! {

/// Reading a comment is refused to anonymous visitors of a private instance.
pub fn get_comment(private_instance_ok: bool) -> (res: StudyCycleResult<()>)
    ensures
        res == (if private_instance_ok { Ok(()) } else { Err::<(), StudyCycleErrorType>(
            StudyCycleErrorType::Refused(Guard::PrivateInstance),
        ) }),
{
    require_guard(private_instance_ok, Guard::PrivateInstance)
}

/// The federation activity that removes (or restores) a community.
#[derive(Debug, Clone)]
pub struct RemoveCommunityActivity {
    pub moderator_id: i32,
    pub reason: Option<String>,
    pub removed: bool,
}

/// What removing (or restoring) a community does: set its `removed` flag,
/// resolve all its reports in the name of `reports_resolved_by`, add the
/// modlog entry and send the activity.
#[derive(Debug, Clone)]
pub struct RemoveCommunityPlan {
    pub removed: bool,
    pub reports_resolved_by: i32,
    pub modlog: ModlogEntry,
    pub activity: RemoveCommunityActivity,
}

/// Removing a community needs the right to moderate it (a deleted community
/// included) and an admin.  The modlog names the community's top moderator
/// as its owner.
pub fn remove_community(
    community_mod_action_ok: bool,
    admin_ok: bool,
    person_id: i32,
    community_id: i32,
    community_owner_id: i32,
    removed: bool,
    reason: Option<String>,
) -> (res: StudyCycleResult<RemoveCommunityPlan>)
    ensures
        !community_mod_action_ok ==> refused_by(res, Guard::CommunityModAction),
        community_mod_action_ok && !admin_ok ==> refused_by(res, Guard::Admin),
        community_mod_action_ok && admin_ok ==> (res matches Ok(plan) && plan.removed == removed
            && plan.reports_resolved_by == person_id && plan.modlog == ModlogEntry::AdminRemoveCommunity {
            admin_person_id: person_id,
            community_id,
            community_owner_id,
            removed,
            reason,
        } && plan.activity == RemoveCommunityActivity { moderator_id: person_id, reason, removed }),
{
    require_guard(community_mod_action_ok, Guard::CommunityModAction)?;
    require_guard(admin_ok, Guard::Admin)?;
    let activity = RemoveCommunityActivity { moderator_id: person_id, reason: reason.clone(), removed };
    Ok(RemoveCommunityPlan {
        removed,
        reports_resolved_by: person_id,
        modlog: ModlogEntry::AdminRemoveCommunity {
            admin_person_id: person_id,
            community_id,
            community_owner_id,
            removed,
            reason,
        },
        activity,
    })
}

/// Deleting a custom emoji is for admins only.
pub fn delete_custom_emoji(admin_ok: bool) -> (res: StudyCycleResult<()>)
    ensures
        res == (if admin_ok { Ok(()) } else { Err::<(), StudyCycleErrorType>(
            StudyCycleErrorType::Refused(Guard::Admin),
        ) }),
{
    require_guard(admin_ok, Guard::Admin)
}

/// Who may change a multi-community.
pub open spec fn spec_may_change_multi_community(
    multi_local: bool,
    multi_creator_id: i32,
    is_admin: bool,
    person_id: i32,
) -> bool {
    (multi_local && is_admin) || multi_creator_id == person_id
}

/// A multi-community may be changed by its creator, and a local one by any
/// admin too.
pub fn check_multi_community_creator(
    multi_local: bool,
    multi_creator_id: i32,
    is_admin: bool,
    person_id: i32,
) -> (res: StudyCycleResult<()>)
    ensures
        res == (if spec_may_change_multi_community(multi_local, multi_creator_id, is_admin, person_id) {
            Ok(())
        } else {
            Err::<(), StudyCycleErrorType>(StudyCycleErrorType::MultiCommunityUpdateWrongUser)
        }),
{
    if multi_local && is_admin {
        Ok(())
    } else if multi_creator_id != person_id {
        Err(StudyCycleErrorType::MultiCommunityUpdateWrongUser)
    } else {
        Ok(())
    }
}

/// The answer to a request to set a post's `deleted` flag.
pub open spec fn spec_delete_post(
    post_deleted: bool,
    deleted: bool,
    community_user_action_ok: bool,
    person_id: i32,
    post_creator_id: i32,
) -> StudyCycleResult<bool> {
    if post_deleted == deleted {
        Err(StudyCycleErrorType::CouldntUpdate)
    } else if !community_user_action_ok {
        Err(StudyCycleErrorType::Refused(Guard::CommunityUserAction))
    } else if person_id != post_creator_id {
        Err(StudyCycleErrorType::NoPostEditAllowed)
    } else {
        Ok(deleted)
    }
}

/// Deleting (or restoring) a post.  A request that would leave the flag as it
/// is fails; otherwise the person must be allowed to act in the community and
/// must have written the post.  On success the requested flag is returned.
pub fn delete_post(
    post_deleted: bool,
    deleted: bool,
    community_user_action_ok: bool,
    person_id: i32,
    post_creator_id: i32,
) -> (res: StudyCycleResult<bool>)
    ensures
        res == spec_delete_post(post_deleted, deleted, community_user_action_ok, person_id, post_creator_id),
{
    if post_deleted == deleted {
        return Err(StudyCycleErrorType::CouldntUpdate);
    }
    require_guard(community_user_action_ok, Guard::CommunityUserAction)?;
    if person_id != post_creator_id {
        return Err(StudyCycleErrorType::NoPostEditAllowed);
    }
    Ok(deleted)
}

/// How many posts a person who is not an admin may have waiting to be
/// published.
pub const MAX_SCHEDULED_POSTS: i64 = 10;

/// The moment `secs` seconds after the epoch, to the second.
pub open spec fn spec_at_second(secs: i64) -> Timestamp {
    Timestamp { secs, nanos: 0 }
}

/// The decision on a scheduled publication time `secs`, read against the
/// current time `now`: it must lie in the future, and a person who is not
/// an admin must have fewer than `MAX_SCHEDULED_POSTS` posts waiting.
pub open spec fn spec_scheduled_publish_decision(
    secs: i64,
    now: Timestamp,
    is_admin: bool,
    scheduled_post_count: i64,
) -> StudyCycleResult<Option<i64>> {
    if spec_before(spec_at_second(secs), now) {
        Err(StudyCycleErrorType::PostScheduleTimeMustBeInFuture)
    } else if !is_admin && scheduled_post_count >= MAX_SCHEDULED_POSTS {
        Err(StudyCycleErrorType::TooManyScheduledPosts)
    } else {
        Ok(Some(secs))
    }
}

/// Decides on a scheduled publication time against the current time `now`.
pub fn scheduled_publish_decision(secs: i64, now: Timestamp, is_admin: bool, scheduled_post_count: i64) -> (res:
    StudyCycleResult<Option<i64>>)
    ensures
        res == spec_scheduled_publish_decision(secs, now, is_admin, scheduled_post_count),
{
    if is_before(Timestamp { secs, nanos: 0 }, now) {
        return Err(StudyCycleErrorType::PostScheduleTimeMustBeInFuture);
    }
    if !is_admin && scheduled_post_count >= MAX_SCHEDULED_POSTS {
        return Err(StudyCycleErrorType::TooManyScheduledPosts);
    }
    Ok(Some(secs))
}

/// The publication time of a new or edited post, as a UNIX timestamp.  No
/// time asked for means now (`None`).  A time asked for must be a date that
/// can be represented; the rest is `scheduled_publish_decision` against the
/// clock as read here.
pub fn convert_published_time(
    scheduled_publish_time: Option<i64>,
    is_admin: bool,
    scheduled_post_count: i64,
) -> (res: StudyCycleResult<Option<i64>>)
    ensures
        scheduled_publish_time is None ==> res == Ok::<Option<i64>, StudyCycleErrorType>(None),
        scheduled_publish_time matches Some(secs) && !utc_timestamp_in_range(secs) ==> fails_with(
            res,
            StudyCycleErrorType::InvalidUnixTime,
        ),
        scheduled_publish_time is Some && utc_timestamp_in_range(scheduled_publish_time->0) ==> {
            let secs = scheduled_publish_time->0;
            ||| res == Ok::<Option<i64>, StudyCycleErrorType>(Some(secs)) && (is_admin
                || scheduled_post_count < MAX_SCHEDULED_POSTS)
            ||| fails_with(res, StudyCycleErrorType::PostScheduleTimeMustBeInFuture)
            ||| fails_with(res, StudyCycleErrorType::TooManyScheduledPosts) && !is_admin
                && scheduled_post_count >= MAX_SCHEDULED_POSTS
        },
        scheduled_publish_time is Some && utc_timestamp_in_range(scheduled_publish_time->0) ==> (
        exists|t: Timestamp|
            #![trigger spec_clock_reading(t)]
            spec_clock_reading(t) && res == spec_scheduled_publish_decision(
                scheduled_publish_time->0,
                t,
                is_admin,
                scheduled_post_count,
            )),
{
    match scheduled_publish_time {
        None => Ok(None),
        Some(requested) => {
            let secs = match utc_timestamp_opt(requested) {
                Some(t) => t,
                None => {
                    return Err(StudyCycleErrorType::InvalidUnixTime);
                },
            };
            let clock = now();
            let res = scheduled_publish_decision(secs, clock, is_admin, scheduled_post_count);
            assert(spec_clock_reading(clock));
            res
        },
    }
}

/// The federation activity that announces a deleted (or restored) private
/// message: who acted, and the requested flag.
#[derive(Debug, Clone, Copy, PartialEq, Eq, Structural)]
pub struct DeletePrivateMessageActivity {
    pub person_id: i32,
    pub deleted: bool,
}

/// What deleting (or restoring) a private message changes: the recipient's
/// copy or the sender's; and the activity sent.
#[derive(Debug, Clone, Copy, PartialEq, Eq, Structural)]
pub struct PrivateMessageDeletion {
    pub deleted: Option<bool>,
    pub deleted_by_recipient: Option<bool>,
    pub activity: DeletePrivateMessageActivity,
}

/// The answer to a request to delete (or restore) a private message.
pub open spec fn spec_delete_private_message(
    local_user_valid: bool,
    person_id: i32,
    recipient_id: i32,
    creator_id: i32,
    deleted: bool,
) -> StudyCycleResult<PrivateMessageDeletion> {
    if !local_user_valid {
        Err(StudyCycleErrorType::Refused(Guard::LocalUserValid))
    } else if person_id == recipient_id {
        Ok(PrivateMessageDeletion {
            deleted: None,
            deleted_by_recipient: Some(deleted),
            activity: DeletePrivateMessageActivity { person_id, deleted },
        })
    } else if person_id == creator_id {
        Ok(PrivateMessageDeletion {
            deleted: Some(deleted),
            deleted_by_recipient: None,
            activity: DeletePrivateMessageActivity { person_id, deleted },
        })
    } else {
        Err(StudyCycleErrorType::EditPrivateMessageNotAllowed)
    }
}

/// Deleting a private message needs a valid account that received or sent
/// it.  The recipient deletes the message for themselves; the sender deletes
/// it for both.  Someone who sent a message to themselves counts as its
/// recipient.  The activity sent names the acting person and the requested
/// flag.
pub fn delete_private_message(
    local_user_valid: bool,
    person_id: i32,
    recipient_id: i32,
    creator_id: i32,
    deleted: bool,
) -> (res: StudyCycleResult<PrivateMessageDeletion>)
    ensures
        res == spec_delete_private_message(local_user_valid, person_id, recipient_id, creator_id, deleted),
{
    require_guard(local_user_valid, Guard::LocalUserValid)?;
    if person_id == recipient_id {
        Ok(PrivateMessageDeletion {
            deleted: None,
            deleted_by_recipient: Some(deleted),
            activity: DeletePrivateMessageActivity { person_id, deleted },
        })
    } else if person_id == creator_id {
        Ok(PrivateMessageDeletion {
            deleted: Some(deleted),
            deleted_by_recipient: None,
            activity: DeletePrivateMessageActivity { person_id, deleted },
        })
    } else {
        Err(StudyCycleErrorType::EditPrivateMessageNotAllowed)
    }
}

/// The site description is shared by every visitor, but the admin view of
/// the sign-in providers is shown to admins only: anyone else gets an empty
/// list.
pub fn get_site<T>(viewer_is_admin: Option<bool>, admin_oauth_providers: Vec<T>) -> (res: Vec<T>)
    ensures
        viewer_is_admin == Some(true) ==> res@ == admin_oauth_providers@,
        viewer_is_admin != Some(true) ==> res@.len() == 0,
{
    let admin = match viewer_is_admin {
        Some(a) => a,
        None => false,
    };
    if admin {
        admin_oauth_providers
    } else {
        Vec::new()
    }
}

/// Deleting a tagline is for admins only.
pub fn delete_tagline(admin_ok: bool) -> (res: StudyCycleResult<()>)
    ensures
        res == (if admin_ok { Ok(()) } else { Err::<(), StudyCycleErrorType>(
            StudyCycleErrorType::Refused(Guard::Admin),
        ) }),
{
    require_guard(admin_ok, Guard::Admin)
}

/// Editing a tagline is for admins only; the edit stamps the tagline with
/// the current time, which is returned.
pub fn edit_tagline(admin_ok: bool) -> (res: StudyCycleResult<Timestamp>)
    ensures
        !admin_ok ==> refused_by(res, Guard::Admin),
        admin_ok ==> res is Ok,
{
    require_guard(admin_ok, Guard::Admin)?;
    Ok(now())
}

} // verus!
