//! Post endpoints: featuring, locking, hiding, saving, reading.
use vstd::prelude::*;
use crate::error::{Guard, StudyCycleErrorType, StudyCycleResult, require_guard, fails_with, refused_by};
use crate::modlog::ModlogEntry;
use crate::outside::{url_parse, url_parse_serialization};

verus! {

/// Where a post is pinned: at the top of its community, or of the whole site.
#[derive(Debug, Clone, Copy, PartialEq, Eq, Structural)]
pub enum PostFeatureType {
    Local,
    Community,
}

/// The federation activity that announces a (un)featured post.
#[derive(Debug, Clone, Copy, PartialEq, Eq, Structural)]
pub struct FeaturePostActivity {
    pub moderator_id: i32,
    pub featured: bool,
}

/// What featuring (or unfeaturing) a post changes: exactly one of the two
/// flags, the modlog entry that records it, and the activity sent.
#[derive(Debug, Clone)]
pub struct FeaturePostPlan {
    pub featured_community: Option<bool>,
    pub featured_local: Option<bool>,
    pub modlog: ModlogEntry,
    pub activity: FeaturePostActivity,
}

/// The answer to a request to feature (or unfeature) a post.
pub open spec fn spec_feature_post(
    community_mod_action_ok: bool,
    admin_ok: bool,
    person_id: i32,
    post_id: i32,
    feature_type: PostFeatureType,
    featured: bool,
) -> StudyCycleResult<FeaturePostPlan> {
    if !community_mod_action_ok {
        Err(StudyCycleErrorType::Refused(Guard::CommunityModAction))
    } else if feature_type == PostFeatureType::Local && !admin_ok {
        Err(StudyCycleErrorType::Refused(Guard::Admin))
    } else if feature_type == PostFeatureType::Community {
        Ok(FeaturePostPlan {
            featured_community: Some(featured),
            featured_local: None,
            modlog: ModlogEntry::ModFeaturePostCommunity { mod_person_id: person_id, post_id, featured },
            activity: FeaturePostActivity { moderator_id: person_id, featured },
        })
    } else {
        Ok(FeaturePostPlan {
            featured_community: None,
            featured_local: Some(featured),
            modlog: ModlogEntry::AdminFeaturePostSite { admin_person_id: person_id, post_id, featured },
            activity: FeaturePostActivity { moderator_id: person_id, featured },
        })
    }
}

/// Featuring a post needs the right to moderate its community; featuring it
/// on the whole site needs an admin besides.  The flag of the requested kind
/// takes the requested value (the other is left as it is), the modlog
/// records it, and the activity sent carries the same value.
pub fn feature_post(
    community_mod_action_ok: bool,
    admin_ok: bool,
    person_id: i32,
    post_id: i32,
    feature_type: PostFeatureType,
    featured: bool,
) -> (res: StudyCycleResult<FeaturePostPlan>)
    ensures
        res == spec_feature_post(community_mod_action_ok, admin_ok, person_id, post_id, feature_type, featured),
{
    require_guard(community_mod_action_ok, Guard::CommunityModAction)?;
    if feature_type == PostFeatureType::Local {
        require_guard(admin_ok, Guard::Admin)?;
    }
    if feature_type == PostFeatureType::Community {
        Ok(FeaturePostPlan {
            featured_community: Some(featured),
            featured_local: None,
            modlog: ModlogEntry::ModFeaturePostCommunity { mod_person_id: person_id, post_id, featured },
            activity: FeaturePostActivity { moderator_id: person_id, featured },
        })
    } else {
        Ok(FeaturePostPlan {
            featured_community: None,
            featured_local: Some(featured),
            modlog: ModlogEntry::AdminFeaturePostSite { admin_person_id: person_id, post_id, featured },
            activity: FeaturePostActivity { moderator_id: person_id, featured },
        })
    }
}

/// The link whose metadata is fetched must parse as a URL; it is fetched in
/// the form the parser gives back.
pub fn get_link_metadata(url: &str) -> (res: StudyCycleResult<String>)
    ensures
        url_parse_serialization(url@) is None ==> fails_with(res, StudyCycleErrorType::InvalidUrl),
        url_parse_serialization(url@) matches Some(u) ==> (res matches Ok(r) && r@ == u),
{
    match url_parse(url) {
        Some(u) => Ok(u),
        None => Err(StudyCycleErrorType::InvalidUrl),
    }
}

/// Hiding (or unhiding) a post needs a valid account; the requested flag is
/// returned.
pub fn hide_post(local_user_valid: bool, hide: bool) -> (res: StudyCycleResult<bool>)
    ensures
        res == (if local_user_valid { Ok(hide) } else { Err::<bool, StudyCycleErrorType>(
            StudyCycleErrorType::Refused(Guard::LocalUserValid),
        ) }),
{
    require_guard(local_user_valid, Guard::LocalUserValid)?;
    Ok(hide)
}

/// Listing the votes on a post is open to the community's moderators and to
/// admins only.
pub fn list_post_likes(mod_or_admin_ok: bool) -> (res: StudyCycleResult<()>)
    ensures
        res == (if mod_or_admin_ok { Ok(()) } else { Err::<(), StudyCycleErrorType>(
            StudyCycleErrorType::Refused(Guard::ModOrAdmin),
        ) }),
{
    require_guard(mod_or_admin_ok, Guard::ModOrAdmin)
}

/// The federation activity that announces a (un)locked post.
#[derive(Debug, Clone)]
pub struct LockPostActivity {
    pub moderator_id: i32,
    pub locked: bool,
    pub reason: Option<String>,
}

/// What locking (or unlocking) a post changes, the modlog entry that
/// records it, and the activity sent.
#[derive(Debug, Clone)]
pub struct LockPostPlan {
    pub locked: bool,
    pub modlog: ModlogEntry,
    pub activity: LockPostActivity,
}

/// Locking a post needs the right to moderate its community.  The post's
/// `locked` flag takes the requested value, the modlog records who did it,
/// with the reason given, and the activity sent carries the same flag and
/// reason.  The modlog entry is added even where the flag does not change.
pub fn lock_post(
    community_mod_action_ok: bool,
    person_id: i32,
    post_id: i32,
    locked: bool,
    reason: Option<String>,
) -> (res: StudyCycleResult<LockPostPlan>)
    ensures
        !community_mod_action_ok ==> refused_by(res, Guard::CommunityModAction),
        community_mod_action_ok ==> (res matches Ok(plan) && plan.locked == locked && plan.modlog
            == ModlogEntry::ModLockPost { mod_person_id: person_id, post_id, locked, reason }
            && plan.activity == LockPostActivity { moderator_id: person_id, locked, reason }),
{
    require_guard(community_mod_action_ok, Guard::CommunityModAction)?;
    let activity = LockPostActivity { moderator_id: person_id, locked, reason: reason.clone() };
    Ok(LockPostPlan {
        locked,
        modlog: ModlogEntry::ModLockPost { mod_person_id: person_id, post_id, locked, reason },
        activity,
    })
}

/// Marking many posts read (or unread) needs a list of accepted length; the
/// requested flag is returned.
pub fn mark_posts_as_read(post_count_ok: bool, read: bool) -> (res: StudyCycleResult<bool>)
    ensures
        res == (if post_count_ok { Ok(read) } else { Err::<bool, StudyCycleErrorType>(
            StudyCycleErrorType::Refused(Guard::ApiElementsCount),
        ) }),
{
    require_guard(post_count_ok, Guard::ApiElementsCount)?;
    Ok(read)
}

/// What saving (or unsaving) a post does: `save` saves or unsaves it, and
/// `mark_read` marks it read afterwards.
#[derive(Debug, Clone, Copy, PartialEq, Eq, Structural)]
pub struct SavePostPlan {
    pub save: bool,
    pub mark_read: bool,
}

/// Saving (or unsaving) a post needs a valid account.  Either way the post
/// is then marked read.
pub fn save_post(local_user_valid: bool, save: bool) -> (res: StudyCycleResult<SavePostPlan>)
    ensures
        res == (if local_user_valid { Ok(SavePostPlan { save, mark_read: true }) } else { Err::<
            SavePostPlan,
            StudyCycleErrorType,
        >(StudyCycleErrorType::Refused(Guard::LocalUserValid)) }),
{
    require_guard(local_user_valid, Guard::LocalUserValid)?;
    Ok(SavePostPlan { save, mark_read: true })
}

/// How a person is notified of the comments on a post.
#[derive(Debug, Clone, Copy, PartialEq, Eq, Structural)]
pub enum PostNotificationsMode {
    AllComments,
    RepliesAndMentions,
    Mute,
}

/// Whether the new mode delivers every comment, so that the post's community
/// must be looked at to decide on following it.
pub fn post_mode_wants_comments(mode: PostNotificationsMode) -> (res: bool)
    ensures
        res == (mode == PostNotificationsMode::AllComments),
{
    match mode {
        PostNotificationsMode::AllComments => true,
        _ => false,
    }
}

/// Whether changing the notification mode of a post follows its community.
pub open spec fn spec_edit_post_notifications(mode: PostNotificationsMode, community_local: bool) -> bool {
    mode == PostNotificationsMode::AllComments && !community_local
}

/// After the mode is stored: a remote community only delivers comments to
/// followers, so a mode that wants every comment follows the post's remote
/// community.  Returns whether to follow.
pub fn edit_post_notifications(mode: PostNotificationsMode, community_local: bool) -> (res: bool)
    ensures
        res == spec_edit_post_notifications(mode, community_local),
{
    post_mode_wants_comments(mode) && !community_local
}

} // verus!
