//! Comment endpoints.
use vstd::prelude::*;
use crate::error::{Guard, StudyCycleErrorType, StudyCycleResult, require_guard};

verus! {

/// Distinguishing a comment: the acting person must be allowed to act in the
/// comment's community, must have written the comment, and must be allowed to
/// moderate the community.  On success the comment's `distinguished` flag is
/// set to the requested value, which is returned.
pub fn distinguish_comment(
    person_id: i32,
    comment_creator_id: i32,
    distinguished: bool,
    community_user_action_ok: bool,
    community_mod_action_ok: bool,
) -> (res: StudyCycleResult<bool>)
    ensures
        !community_user_action_ok ==> res == Err::<bool, StudyCycleErrorType>(
            StudyCycleErrorType::Refused(Guard::CommunityUserAction),
        ),
        community_user_action_ok && person_id != comment_creator_id ==> res == Err::<
            bool,
            StudyCycleErrorType,
        >(StudyCycleErrorType::NoCommentEditAllowed),
        community_user_action_ok && person_id == comment_creator_id && !community_mod_action_ok
            ==> res == Err::<bool, StudyCycleErrorType>(
            StudyCycleErrorType::Refused(Guard::CommunityModAction),
        ),
        community_user_action_ok && person_id == comment_creator_id && community_mod_action_ok
            ==> res == Ok::<bool, StudyCycleErrorType>(distinguished),
{
    require_guard(community_user_action_ok, Guard::CommunityUserAction)?;
    if person_id != comment_creator_id {
        return Err(StudyCycleErrorType::NoCommentEditAllowed);
    }
    require_guard(community_mod_action_ok, Guard::CommunityModAction)?;
    Ok(distinguished)
}

/// Listing the votes on a comment is open to the community's moderators and
/// to admins only.
pub fn list_comment_likes(mod_or_admin_ok: bool) -> (res: StudyCycleResult<()>)
    ensures
        res == (if mod_or_admin_ok { Ok(()) } else { Err::<(), StudyCycleErrorType>(
            StudyCycleErrorType::Refused(Guard::ModOrAdmin),
        ) }),
{
    require_guard(mod_or_admin_ok, Guard::ModOrAdmin)
}

} // verus!
