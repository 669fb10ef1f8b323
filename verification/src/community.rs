//! Community endpoints: following, pending followers, tags, notifications.
use vstd::prelude::*;
use vstd::string::*;
use crate::error::{Guard, StudyCycleErrorType, StudyCycleResult, require_guard, fails_with, refused_by};
use crate::time::{Timestamp, now};
use crate::field::{string_update, spec_string_update};
use crate::outside::{url_parse, url_parse_serialization};

verus! {

/// Following (or unfollowing) a community needs a valid account.  On success
/// the requested `follow` flag is returned.
pub fn follow_community(local_user_valid: bool, follow: bool) -> (res: StudyCycleResult<bool>)
    ensures
        res == (if local_user_valid { Ok(follow) } else { Err::<bool, StudyCycleErrorType>(
            StudyCycleErrorType::Refused(Guard::LocalUserValid),
        ) }),
{
    require_guard(local_user_valid, Guard::LocalUserValid)?;
    Ok(follow)
}

/// The state a follow request of a private community is left in.
#[derive(Debug, Clone, Copy, PartialEq, Eq, Structural)]
pub enum CommunityFollowerState {
    Accepted,
    Denied,
}

/// The federation activity that answers a follow request:
/// `(community_id, follower_id)`.
#[derive(Debug, Clone, Copy, PartialEq, Eq, Structural)]
pub enum FollowerActivity {
    AcceptFollower(i32, i32),
    RejectFollower(i32, i32),
}

/// What approving or denying a pending follower does: the follow is left in
/// `state`, recorded as decided by `approver_id`, and `activity` is sent.
#[derive(Debug, Clone, Copy, PartialEq, Eq, Structural)]
pub struct FollowerDecision {
    pub state: CommunityFollowerState,
    pub approver_id: i32,
    pub activity: FollowerActivity,
}

/// The decision of `post_pending_follows_approve` for a person the guard lets through.
pub open spec fn spec_follower_decision(
    person_id: i32,
    community_id: i32,
    follower_id: i32,
    approve: bool,
) -> FollowerDecision {
    if approve {
        FollowerDecision {
            state: CommunityFollowerState::Accepted,
            approver_id: person_id,
            activity: FollowerActivity::AcceptFollower(community_id, follower_id),
        }
    } else {
        FollowerDecision {
            state: CommunityFollowerState::Denied,
            approver_id: person_id,
            activity: FollowerActivity::RejectFollower(community_id, follower_id),
        }
    }
}

/// Approving or denying a pending follower of a private community is open
/// to its moderators and to admins.  Approval accepts the follower and sends
/// an accept activity; denial denies and sends a reject.  Either way the
/// acting person is recorded as the one who decided.
pub fn post_pending_follows_approve(
    mod_or_admin_ok: bool,
    person_id: i32,
    community_id: i32,
    follower_id: i32,
    approve: bool,
) -> (res: StudyCycleResult<FollowerDecision>)
    ensures
        res == (if mod_or_admin_ok {
            Ok(spec_follower_decision(person_id, community_id, follower_id, approve))
        } else {
            Err::<FollowerDecision, StudyCycleErrorType>(StudyCycleErrorType::Refused(Guard::ModOrAdmin))
        }),
{
    require_guard(mod_or_admin_ok, Guard::ModOrAdmin)?;
    if approve {
        Ok(FollowerDecision {
            state: CommunityFollowerState::Accepted,
            approver_id: person_id,
            activity: FollowerActivity::AcceptFollower(community_id, follower_id),
        })
    } else {
        Ok(FollowerDecision {
            state: CommunityFollowerState::Denied,
            approver_id: person_id,
            activity: FollowerActivity::RejectFollower(community_id, follower_id),
        })
    }
}

/// The filter that lists the pending followers.
#[derive(Debug, Clone, Copy, PartialEq, Eq, Structural)]
pub struct PendingFollowsFilter {
    /// List the requests of every community, not only those the person moderates.
    pub all_communities: bool,
    pub unread_only: bool,
}

/// The filter of a pending-followers listing, for a person the guard lets through.
pub open spec fn spec_pending_follows_filter(
    is_admin: bool,
    all_communities: Option<bool>,
    unread_only: Option<bool>,
) -> PendingFollowsFilter {
    PendingFollowsFilter {
        all_communities: all_communities == Some(true) && is_admin,
        unread_only: unread_only == Some(true),
    }
}

/// Listing pending followers is open to moderators of some community and
/// to admins.  Only an admin may list the requests of all communities;
/// absent flags count as `false`.
pub fn get_pending_follows_list(
    mod_of_any_or_admin_ok: bool,
    is_admin: bool,
    all_communities: Option<bool>,
    unread_only: Option<bool>,
) -> (res: StudyCycleResult<PendingFollowsFilter>)
    ensures
        !mod_of_any_or_admin_ok ==> res == Err::<PendingFollowsFilter, StudyCycleErrorType>(
            StudyCycleErrorType::Refused(Guard::ModOfAnyOrAdmin),
        ),
        mod_of_any_or_admin_ok ==> res == Ok::<PendingFollowsFilter, StudyCycleErrorType>(
            spec_pending_follows_filter(is_admin, all_communities, unread_only),
        ),
{
    require_guard(mod_of_any_or_admin_ok, Guard::ModOfAnyOrAdmin)?;
    let all = match all_communities {
        Some(b) => b,
        None => false,
    };
    let unread = match unread_only {
        Some(b) => b,
        None => false,
    };
    Ok(PendingFollowsFilter { all_communities: all && is_admin, unread_only: unread })
}

/// A request to create a community tag, with a colour of type `C`.
pub struct CreateCommunityTag<C> {
    pub community_id: i32,
    pub name: String,
    pub display_name: Option<String>,
    pub summary: Option<String>,
    pub color: Option<C>,
}

/// The row that creating a tag inserts.
pub struct CommunityTagInsertForm<C> {
    pub name: String,
    pub display_name: Option<String>,
    pub summary: Option<String>,
    pub community_id: i32,
    /// The federation id of the tag: `<community ap_id>/tag/<name>`, as parsed.
    pub ap_id: String,
    pub deleted: Option<bool>,
    pub color: Option<C>,
}

/// The federation id that a tag named `name` gets in the community with
/// federation id `community_ap_id`, before parsing.
pub open spec fn spec_tag_ap_id(community_ap_id: Seq<char>, name: Seq<char>) -> Seq<char> {
    community_ap_id + "/tag/"@ + name
}

/// Builds `<community ap_id>/tag/<name>`.
pub fn tag_ap_id(community_ap_id: &str, name: &str) -> (res: String)
    ensures
        res@ == spec_tag_ap_id(community_ap_id@, name@),
{
    let s = String::from_str(community_ap_id);
    let s = s.concat("/tag/");
    s.concat(name)
}

/// Creating a tag.  In order: the name must be a valid actor name, the
/// person must be able to moderate the community, the community must not
/// hold too many tags already, and a summary, where one is given, must be
/// short enough and free of slurs.  The tag's federation id is
/// `<community ap_id>/tag/<name>` as the URL parser gives it back; an id
/// that does not parse is an error of no specific type.  The new tag is not
/// deleted and has the requested colour.
pub fn create_community_tag<C>(
    data: CreateCommunityTag<C>,
    community_ap_id: &str,
    actor_name_ok: bool,
    community_mod_action_ok: bool,
    tag_count_ok: bool,
    summary_length_ok: bool,
    summary_slurs_ok: bool,
) -> (res: StudyCycleResult<CommunityTagInsertForm<C>>)
    ensures
        !actor_name_ok ==> refused_by(res, Guard::ActorName),
        actor_name_ok && !community_mod_action_ok ==> refused_by(res, Guard::CommunityModAction),
        actor_name_ok && community_mod_action_ok && !tag_count_ok ==> refused_by(res, Guard::ApiElementsCount),
        actor_name_ok && community_mod_action_ok && tag_count_ok && data.summary is Some
            && !summary_length_ok ==> refused_by(res, Guard::SummaryLength),
        actor_name_ok && community_mod_action_ok && tag_count_ok && data.summary is Some
            && summary_length_ok && !summary_slurs_ok ==> refused_by(res, Guard::Slurs),
        actor_name_ok && community_mod_action_ok && tag_count_ok && (data.summary is Some
            ==> summary_length_ok && summary_slurs_ok) ==> {
            let parsed = url_parse_serialization(spec_tag_ap_id(community_ap_id@, data.name@));
            &&& parsed is None ==> fails_with(res, StudyCycleErrorType::Unknown)
            &&& parsed matches Some(ap_id) ==> (res matches Ok(form) && form.ap_id@ == ap_id
                && form.name@ == data.name@ && form.display_name == data.display_name
                && form.summary == data.summary && form.community_id == data.community_id
                && form.deleted == Some(false) && form.color == data.color)
        },
{
    require_guard(actor_name_ok, Guard::ActorName)?;
    require_guard(community_mod_action_ok, Guard::CommunityModAction)?;
    require_guard(tag_count_ok, Guard::ApiElementsCount)?;
    if data.summary.is_some() {
        require_guard(summary_length_ok, Guard::SummaryLength)?;
        require_guard(summary_slurs_ok, Guard::Slurs)?;
    }
    let candidate = tag_ap_id(community_ap_id, data.name.as_str());
    let ap_id = match url_parse(candidate.as_str()) {
        Some(u) => u,
        None => {
            return Err(StudyCycleErrorType::Unknown);
        },
    };
    Ok(CommunityTagInsertForm {
        name: data.name,
        display_name: data.display_name,
        summary: data.summary,
        community_id: data.community_id,
        ap_id,
        deleted: Some(false),
        color: data.color,
    })
}

/// What editing a tag changes.  `display_name` and `summary` are field
/// updates (`None` keeps the field, `Some(None)` clears it, `Some(Some(s))`
/// sets it); the colour is the requested one.
pub struct CommunityTagEdit<C> {
    pub display_name: Option<Option<String>>,
    pub summary: Option<Option<String>>,
    pub color: Option<C>,
    pub updated_at: Timestamp,
}

/// Editing a tag: the person must be able to moderate the tag's community,
/// and a summary, where one is given, must be short enough and free of
/// slurs.  An absent display name or summary keeps the tag's, an empty one
/// clears it, any other replaces it.  The edit stamps the tag with the
/// current time.
pub fn edit_community_tag<C>(
    display_name: Option<String>,
    summary: Option<String>,
    color: Option<C>,
    community_mod_action_ok: bool,
    summary_length_ok: bool,
    summary_slurs_ok: bool,
) -> (res: StudyCycleResult<CommunityTagEdit<C>>)
    ensures
        !community_mod_action_ok ==> refused_by(res, Guard::CommunityModAction),
        community_mod_action_ok && summary is Some && !summary_length_ok ==> refused_by(res, Guard::SummaryLength),
        community_mod_action_ok && summary is Some && summary_length_ok && !summary_slurs_ok
            ==> refused_by(res, Guard::Slurs),
        community_mod_action_ok && (summary is Some ==> summary_length_ok && summary_slurs_ok)
            ==> (res matches Ok(edit) && edit.display_name == spec_string_update(display_name)
            && edit.summary == spec_string_update(summary) && edit.color == color),
{
    require_guard(community_mod_action_ok, Guard::CommunityModAction)?;
    if summary.is_some() {
        require_guard(summary_length_ok, Guard::SummaryLength)?;
        require_guard(summary_slurs_ok, Guard::Slurs)?;
    }
    Ok(CommunityTagEdit {
        display_name: string_update(display_name),
        summary: string_update(summary),
        color,
        updated_at: now(),
    })
}

/// What deleting (or restoring) a tag changes.
#[derive(Debug, Clone, Copy, PartialEq, Eq, Structural)]
pub struct CommunityTagDeletion {
    pub deleted: bool,
    pub updated_at: Timestamp,
}

/// Deleting a tag is a soft delete, open to those who may moderate the
/// tag's community; it stamps the tag with the current time.
pub fn delete_community_tag(community_mod_action_ok: bool, delete: bool) -> (res: StudyCycleResult<
    CommunityTagDeletion,
>)
    ensures
        !community_mod_action_ok ==> refused_by(res, Guard::CommunityModAction),
        community_mod_action_ok ==> (res matches Ok(d) && d.deleted == delete),
{
    require_guard(community_mod_action_ok, Guard::CommunityModAction)?;
    Ok(CommunityTagDeletion { deleted: delete, updated_at: now() })
}

/// How a person is notified of a community's content.
#[derive(Debug, Clone, Copy, PartialEq, Eq, Structural)]
pub enum CommunityNotificationsMode {
    AllPostsAndComments,
    AllPosts,
    RepliesAndMentions,
    Mute,
}

/// The modes that deliver every post of the community.
pub open spec fn spec_mode_wants_posts(mode: CommunityNotificationsMode) -> bool {
    mode == CommunityNotificationsMode::AllPostsAndComments || mode
        == CommunityNotificationsMode::AllPosts
}

/// Whether the new mode delivers every post, so that the community must be
/// looked at to decide on following it.
pub fn community_mode_wants_posts(mode: CommunityNotificationsMode) -> (res: bool)
    ensures
        res == spec_mode_wants_posts(mode),
{
    match mode {
        CommunityNotificationsMode::AllPostsAndComments => true,
        CommunityNotificationsMode::AllPosts => true,
        _ => false,
    }
}

/// Whether changing the notification mode follows the community.
pub open spec fn spec_edit_community_notifications(
    mode: CommunityNotificationsMode,
    community_local: bool,
) -> bool {
    spec_mode_wants_posts(mode) && !community_local
}

/// After the mode is stored: a remote community only delivers its posts to
/// followers, so a mode that wants every post follows a remote community.
/// Returns whether to follow.
pub fn edit_community_notifications(mode: CommunityNotificationsMode, community_local: bool) -> (res:
    bool)
    ensures
        res == spec_edit_community_notifications(mode, community_local),
{
    community_mode_wants_posts(mode) && !community_local
}

} // verus!
