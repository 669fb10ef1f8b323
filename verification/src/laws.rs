//! Properties of the endpoints that span calls or hold of every input.
use vstd::prelude::*;
use crate::error::{StudyCycleErrorType, StudyCycleResult};
use crate::community::{
    CommunityFollowerState, FollowerActivity, CommunityNotificationsMode, spec_follower_decision,
    spec_pending_follows_filter, spec_edit_community_notifications,
};
use crate::crud::{
    spec_delete_post, spec_delete_private_message, spec_may_change_multi_community,
    spec_scheduled_publish_decision, spec_at_second, MAX_SCHEDULED_POSTS,
};
use crate::local_user::{
    spec_session_token, spec_user_block_instance_communities, spec_user_block_instance_persons,
    spec_reset_password_response, spec_try_reset_password,
};
use crate::post::{PostFeatureType, PostNotificationsMode, spec_feature_post, spec_edit_post_notifications};
use crate::time::{Timestamp, spec_before};

verus! {

/// A deletion cannot be repeated: once a request to set a post's `deleted`
/// flag succeeded, the same request against the updated post fails with
/// `CouldntUpdate`, while the opposite request (a restore after a delete, or
/// a delete after a restore) succeeds for the same person.
pub proof fn law_delete_post_not_repeatable(
    post_deleted: bool,
    deleted: bool,
    community_user_action_ok: bool,
    person_id: i32,
    post_creator_id: i32,
)
    requires
        spec_delete_post(post_deleted, deleted, community_user_action_ok, person_id, post_creator_id)
            is Ok,
    ensures
        spec_delete_post(deleted, deleted, community_user_action_ok, person_id, post_creator_id)
            == Err::<bool, StudyCycleErrorType>(StudyCycleErrorType::CouldntUpdate),
        spec_delete_post(deleted, !deleted, community_user_action_ok, person_id, post_creator_id)
            == Ok::<bool, StudyCycleErrorType>(!deleted),
{
}

/// A password reset answers the same whatever its attempt gave, success or
/// any error: the answer tells nothing about the address asked for.
pub proof fn law_reset_password_reveals_nothing(
    attempt: StudyCycleResult<()>,
    other_attempt: StudyCycleResult<()>,
    local_user_valid: bool,
    email_verified: bool,
)
    ensures
        spec_reset_password_response(attempt) == spec_reset_password_response(other_attempt),
        spec_reset_password_response(attempt) == Ok::<(), StudyCycleErrorType>(()),
        spec_reset_password_response(spec_try_reset_password(local_user_valid, email_verified))
            == Ok::<(), StudyCycleErrorType>(()),
{
}

/// Nobody can block their own instance, through either blocking endpoint
/// (the communities endpoint first refuses an invalid account).
pub proof fn law_own_instance_never_blocked(local_user_valid: bool, instance_id: i32, block: bool)
    ensures
        spec_user_block_instance_persons(instance_id, instance_id, block) == Err::<
            bool,
            StudyCycleErrorType,
        >(StudyCycleErrorType::CantBlockLocalInstance),
        local_user_valid ==> spec_user_block_instance_communities(
            local_user_valid,
            instance_id,
            instance_id,
            block,
        ) == Err::<bool, StudyCycleErrorType>(StudyCycleErrorType::CantBlockLocalInstance),
        spec_user_block_instance_communities(local_user_valid, instance_id, instance_id, block)
            is Err,
{
}

/// The creator of a multi-community may always change it; anyone else may
/// only if the multi-community is local and they are an admin.
pub proof fn law_multi_community_changes(
    multi_local: bool,
    multi_creator_id: i32,
    is_admin: bool,
    person_id: i32,
)
    ensures
        spec_may_change_multi_community(multi_local, multi_creator_id, is_admin, multi_creator_id),
        person_id != multi_creator_id ==> (spec_may_change_multi_community(
            multi_local,
            multi_creator_id,
            is_admin,
            person_id,
        ) <==> multi_local && is_admin),
{
}

/// Only an admin ever lists the pending followers of all communities.
pub proof fn law_all_pending_follows_admin_only(
    is_admin: bool,
    all_communities: Option<bool>,
    unread_only: Option<bool>,
)
    ensures
        spec_pending_follows_filter(is_admin, all_communities, unread_only).all_communities
            ==> is_admin,
{
}

/// Approving and denying the same follower lead to different states, the
/// activity sent names the same community and follower either way, and the
/// acting person is recorded as the one who decided.
pub proof fn law_follower_decisions(person_id: i32, community_id: i32, follower_id: i32)
    ensures
        spec_follower_decision(person_id, community_id, follower_id, true).state
            == CommunityFollowerState::Accepted,
        spec_follower_decision(person_id, community_id, follower_id, false).state
            == CommunityFollowerState::Denied,
        spec_follower_decision(person_id, community_id, follower_id, true).activity
            == FollowerActivity::AcceptFollower(community_id, follower_id),
        spec_follower_decision(person_id, community_id, follower_id, false).activity
            == FollowerActivity::RejectFollower(community_id, follower_id),
        spec_follower_decision(person_id, community_id, follower_id, true).approver_id == person_id,
        spec_follower_decision(person_id, community_id, follower_id, false).approver_id == person_id,
{
}

/// A successful deletion of a private message changes exactly one copy: the
/// recipient's or the sender's.
pub proof fn law_private_message_one_side(
    local_user_valid: bool,
    person_id: i32,
    recipient_id: i32,
    creator_id: i32,
    deleted: bool,
)
    requires
        spec_delete_private_message(local_user_valid, person_id, recipient_id, creator_id, deleted)
            is Ok,
    ensures
        ({
            let d = spec_delete_private_message(
                local_user_valid,
                person_id,
                recipient_id,
                creator_id,
                deleted,
            )->Ok_0;
            (d.deleted is Some) != (d.deleted_by_recipient is Some)
        }),
        person_id == recipient_id || person_id == creator_id,
{
}

/// Logging out and validating the session both fail with `NotLoggedIn`
/// exactly when the request carries no session token.
pub proof fn law_session_token_required(auth_token: Option<String>)
    ensures
        spec_session_token(auth_token) is Err <==> auth_token is None,
        auth_token is None ==> spec_session_token(auth_token) == Err::<String, StudyCycleErrorType>(
            StudyCycleErrorType::NotLoggedIn,
        ),
{
}

/// Changing notification settings never follows a local community: only a
/// remote community is followed, and there exactly for a mode that wants
/// every post (community settings) or every comment (post settings).
pub proof fn law_notifications_follow_remote_only(
    community_mode: CommunityNotificationsMode,
    post_mode: PostNotificationsMode,
)
    ensures
        !spec_edit_community_notifications(community_mode, true),
        !spec_edit_post_notifications(post_mode, true),
        spec_edit_community_notifications(community_mode, false) <==> (community_mode
            == CommunityNotificationsMode::AllPostsAndComments || community_mode
            == CommunityNotificationsMode::AllPosts),
        spec_edit_post_notifications(post_mode, false) <==> post_mode
            == PostNotificationsMode::AllComments,
{
}

/// A scheduled publication time that is accepted never lies before the
/// time it was checked against.
pub proof fn law_scheduled_time_not_past(
    secs: i64,
    now: Timestamp,
    is_admin: bool,
    scheduled_post_count: i64,
)
    requires
        spec_scheduled_publish_decision(secs, now, is_admin, scheduled_post_count) is Ok,
    ensures
        spec_scheduled_publish_decision(secs, now, is_admin, scheduled_post_count) == Ok::<
            Option<i64>,
            StudyCycleErrorType,
        >(Some(secs)),
        !spec_before(spec_at_second(secs), now),
{
}

/// Featuring a post on the whole site is never done without an admin,
/// whereas featuring it in its community needs moderation rights alone.
pub proof fn law_site_featuring_needs_admin(
    community_mod_action_ok: bool,
    admin_ok: bool,
    person_id: i32,
    post_id: i32,
    featured: bool,
)
    ensures
        spec_feature_post(
            community_mod_action_ok,
            admin_ok,
            person_id,
            post_id,
            PostFeatureType::Local,
            featured,
        ) is Ok ==> admin_ok,
        spec_feature_post(
            community_mod_action_ok,
            admin_ok,
            person_id,
            post_id,
            PostFeatureType::Community,
            featured,
        ) is Ok <==> community_mod_action_ok,
{
}

/// A scheduled time is judged against the clock reading alone: a time that
/// is not before the reading is accepted for an admin, or for anyone with
/// fewer than `MAX_SCHEDULED_POSTS` posts waiting, and comes back unchanged;
/// "must be in the future" comes only for a time before the reading, and
/// "too many" only for a non-admin at the limit.
pub proof fn law_scheduled_time_against_clock(
    secs: i64,
    now: Timestamp,
    is_admin: bool,
    scheduled_post_count: i64,
)
    ensures
        !spec_before(spec_at_second(secs), now) && (is_admin || scheduled_post_count
            < MAX_SCHEDULED_POSTS) ==> spec_scheduled_publish_decision(
            secs,
            now,
            is_admin,
            scheduled_post_count,
        ) == Ok::<Option<i64>, StudyCycleErrorType>(Some(secs)),
        spec_scheduled_publish_decision(secs, now, is_admin, scheduled_post_count) == Err::<
            Option<i64>,
            StudyCycleErrorType,
        >(StudyCycleErrorType::PostScheduleTimeMustBeInFuture) ==> secs < now.secs || (secs
            == now.secs && 0 < now.nanos),
        spec_scheduled_publish_decision(secs, now, is_admin, scheduled_post_count) == Err::<
            Option<i64>,
            StudyCycleErrorType,
        >(StudyCycleErrorType::TooManyScheduledPosts) ==> !is_admin && scheduled_post_count
            >= MAX_SCHEDULED_POSTS,
        // A time later than the whole second of the reading is in the future.
        secs > now.secs && is_admin ==> spec_scheduled_publish_decision(
            secs,
            now,
            is_admin,
            scheduled_post_count,
        ) == Ok::<Option<i64>, StudyCycleErrorType>(Some(secs)),
{
}

/// A time accepted against one clock reading is accepted against any earlier
/// reading: the judgement only grows stricter as the clock moves on.
pub proof fn law_scheduled_time_earlier_clock(
    secs: i64,
    earlier: Timestamp,
    later: Timestamp,
    is_admin: bool,
    scheduled_post_count: i64,
)
    requires
        !spec_before(later, earlier),
        spec_scheduled_publish_decision(secs, later, is_admin, scheduled_post_count) is Ok,
    ensures
        spec_scheduled_publish_decision(secs, earlier, is_admin, scheduled_post_count)
            == spec_scheduled_publish_decision(secs, later, is_admin, scheduled_post_count),
{
}

/// Featuring sets the flag of the requested kind to the requested value and
/// leaves the other kind alone, and the modlog and the activity carry the
/// same value; requests that differ only in `featured` give plans that differ
/// in that flag.
pub proof fn law_feature_post_sets_requested_flag(
    community_mod_action_ok: bool,
    admin_ok: bool,
    person_id: i32,
    post_id: i32,
    feature_type: PostFeatureType,
    featured: bool,
)
    ensures
        spec_feature_post(community_mod_action_ok, admin_ok, person_id, post_id, feature_type, featured)
            matches Ok(plan) ==> {
            &&& feature_type == PostFeatureType::Community ==> plan.featured_community == Some(
                featured,
            ) && plan.featured_local is None
            &&& feature_type == PostFeatureType::Local ==> plan.featured_local == Some(featured)
                && plan.featured_community is None
            &&& plan.activity.featured == featured
            &&& plan.activity.moderator_id == person_id
        },
        community_mod_action_ok && (feature_type == PostFeatureType::Local ==> admin_ok) ==> {
            let on = spec_feature_post(community_mod_action_ok, admin_ok, person_id, post_id, feature_type, true);
            let off = spec_feature_post(community_mod_action_ok, admin_ok, person_id, post_id, feature_type, false);
            &&& on is Ok && off is Ok
            &&& on->Ok_0.featured_community != off->Ok_0.featured_community || on->Ok_0.featured_local
                != off->Ok_0.featured_local
        },
{
}

/// Deleting or restoring a private message sets the copy of the acting
/// person (the recipient's, or else the sender's) to the requested flag and
/// leaves the other copy alone; the activity carries the same flag.  So a
/// restore undoes a delete of the same copy.
pub proof fn law_private_message_requested_flag(
    local_user_valid: bool,
    person_id: i32,
    recipient_id: i32,
    creator_id: i32,
    deleted: bool,
)
    ensures
        spec_delete_private_message(local_user_valid, person_id, recipient_id, creator_id, deleted)
            matches Ok(d) ==> {
            &&& person_id == recipient_id ==> d.deleted_by_recipient == Some(deleted) && d.deleted
                is None
            &&& person_id != recipient_id ==> d.deleted == Some(deleted) && d.deleted_by_recipient
                is None
            &&& d.activity.deleted == deleted
            &&& d.activity.person_id == person_id
        },
        local_user_valid && (person_id == recipient_id || person_id == creator_id) ==> {
            let del = spec_delete_private_message(local_user_valid, person_id, recipient_id, creator_id, true);
            let restore = spec_delete_private_message(local_user_valid, person_id, recipient_id, creator_id, false);
            &&& del is Ok && restore is Ok
            &&& person_id == recipient_id ==> del->Ok_0.deleted_by_recipient == Some(true)
                && restore->Ok_0.deleted_by_recipient == Some(false)
            &&& person_id != recipient_id ==> del->Ok_0.deleted == Some(true) && restore->Ok_0.deleted
                == Some(false)
        },
{
}

/// The pending-follows filter lists all communities exactly when an admin
/// asks for it: asking explicitly for `false`, or not asking, never does;
/// and only unread requests exactly when they are asked for.
pub proof fn law_pending_follows_filter_as_asked(
    is_admin: bool,
    all_communities: Option<bool>,
    unread_only: Option<bool>,
)
    ensures
        spec_pending_follows_filter(is_admin, all_communities, unread_only).all_communities <==> (
        is_admin && all_communities == Some(true)),
        !spec_pending_follows_filter(is_admin, Some(false), unread_only).all_communities,
        !spec_pending_follows_filter(is_admin, None, unread_only).all_communities,
        spec_pending_follows_filter(true, Some(true), unread_only).all_communities,
        spec_pending_follows_filter(is_admin, all_communities, unread_only).unread_only <==> unread_only
            == Some(true),
        !spec_pending_follows_filter(is_admin, all_communities, Some(false)).unread_only,
{
}

/// Blocking the persons or the communities of another instance does what
/// was asked: a block request gives `Ok(true)`, an unblock request
/// `Ok(false)`, so the two requests never give the same answer.
pub proof fn law_instance_block_as_asked(
    local_user_valid: bool,
    person_instance_id: i32,
    instance_id: i32,
    block: bool,
)
    requires
        person_instance_id != instance_id,
    ensures
        spec_user_block_instance_persons(person_instance_id, instance_id, block) == Ok::<
            bool,
            StudyCycleErrorType,
        >(block),
        spec_user_block_instance_persons(person_instance_id, instance_id, true)
            != spec_user_block_instance_persons(person_instance_id, instance_id, false),
        local_user_valid ==> spec_user_block_instance_communities(
            local_user_valid,
            person_instance_id,
            instance_id,
            block,
        ) == Ok::<bool, StudyCycleErrorType>(block),
        local_user_valid ==> spec_user_block_instance_communities(
            local_user_valid,
            person_instance_id,
            instance_id,
            true,
        ) != spec_user_block_instance_communities(local_user_valid, person_instance_id, instance_id, false),
{
}

} // verus!
