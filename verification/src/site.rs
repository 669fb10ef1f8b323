//! Site administration endpoints.
use vstd::prelude::*;
use crate::error::{Guard, StudyCycleErrorType, StudyCycleResult, require_guard, fails_with, refused_by};
use crate::modlog::ModlogEntry;
use crate::time::{Timestamp, now};
use crate::field::{string_update, spec_string_update};

verus! {

/// What blocking (or unblocking) an instance does.
#[derive(Debug, Clone)]
pub struct BlockInstancePlan {
    pub block: bool,
    pub modlog: ModlogEntry,
}

/// Blocking an instance for the whole site is for admins, needs an expiry
/// in the future where one is given, and cannot be combined with an
/// allowlist: while any instance is allowlisted, nothing can be blocked.
/// Nothing is read or written about the instance before this passes.
pub fn admin_block_instance(
    admin_ok: bool,
    expire_time_ok: bool,
    allowlist_empty: bool,
) -> (res: StudyCycleResult<()>)
    ensures
        !admin_ok ==> refused_by(res, Guard::Admin),
        admin_ok && !expire_time_ok ==> refused_by(res, Guard::ExpireTime),
        admin_ok && expire_time_ok && !allowlist_empty ==> fails_with(
            res,
            StudyCycleErrorType::CannotCombineFederationBlocklistAndAllowlist,
        ),
        admin_ok && expire_time_ok && allowlist_empty ==> (res is Ok),
{
    require_guard(admin_ok, Guard::Admin)?;
    require_guard(expire_time_ok, Guard::ExpireTime)?;
    if !allowlist_empty {
        return Err(StudyCycleErrorType::CannotCombineFederationBlocklistAndAllowlist);
    }
    Ok(())
}

/// Once `admin_block_instance` let the request through and the instance was
/// looked up (or created): block or unblock it as requested, and record the
/// admin, the instance, the new state and the reason in the modlog.
pub fn admin_block_instance_plan(
    person_id: i32,
    instance_id: i32,
    block: bool,
    reason: Option<String>,
) -> (res: BlockInstancePlan)
    ensures
        res.block == block,
        res.modlog == (ModlogEntry::AdminBlockInstance {
            admin_person_id: person_id,
            instance_id,
            blocked: block,
            reason,
        }),
{
    BlockInstancePlan {
        block,
        modlog: ModlogEntry::AdminBlockInstance {
            admin_person_id: person_id,
            instance_id,
            blocked: block,
            reason,
        },
    }
}

/// Listing the local users is for admins only.
pub fn admin_list_users(admin_ok: bool) -> (res: StudyCycleResult<()>)
    ensures
        res == (if admin_ok { Ok(()) } else { Err::<(), StudyCycleErrorType>(
            StudyCycleErrorType::Refused(Guard::Admin),
        ) }),
{
    require_guard(admin_ok, Guard::Admin)
}

/// Listing the media of every user is for admins only.
pub fn list_all_media(admin_ok: bool) -> (res: StudyCycleResult<()>)
    ensures
        res == (if admin_ok { Ok(()) } else { Err::<(), StudyCycleErrorType>(
            StudyCycleErrorType::Refused(Guard::Admin),
        ) }),
{
    require_guard(admin_ok, Guard::Admin)
}

/// The federation activity that removes a post from the network.
#[derive(Debug, Clone)]
pub struct RemovePostActivity {
    pub moderator_id: i32,
    pub reason: Option<String>,
    pub removed: bool,
    pub with_replies: bool,
}

/// What purging a post does besides deleting it and its images.
#[derive(Debug, Clone)]
pub struct PurgePostPlan {
    pub modlog: ModlogEntry,
    pub activity: RemovePostActivity,
}

/// Purging a post is for admins who rank above the post's creator (where the
/// creator is an admin too).  The modlog records the purge in the post's
/// community, and the network is told that the post was removed, without its
/// replies.
pub fn purge_post(
    admin_ok: bool,
    higher_admin_ok: bool,
    person_id: i32,
    community_id: i32,
    reason: Option<String>,
) -> (res: StudyCycleResult<PurgePostPlan>)
    ensures
        !admin_ok ==> refused_by(res, Guard::Admin),
        admin_ok && !higher_admin_ok ==> refused_by(res, Guard::HigherAdmin),
        admin_ok && higher_admin_ok ==> (res matches Ok(plan) && plan.modlog
            == ModlogEntry::AdminPurgePost { admin_person_id: person_id, community_id, reason }
            && plan.activity == RemovePostActivity {
            moderator_id: person_id,
            reason,
            removed: true,
            with_replies: false,
        }),
{
    require_guard(admin_ok, Guard::Admin)?;
    require_guard(higher_admin_ok, Guard::HigherAdmin)?;
    let activity = RemovePostActivity {
        moderator_id: person_id,
        reason: reason.clone(),
        removed: true,
        with_replies: false,
    };
    Ok(PurgePostPlan {
        modlog: ModlogEntry::AdminPurgePost { admin_person_id: person_id, community_id, reason },
        activity,
    })
}

/// What deciding on a registration application changes: the application
/// records the deciding admin, the time and an update of the reason for a
/// denial (`None` keeps the stored reason, `Some(None)` clears it,
/// `Some(Some(r))` sets it); the applicant's account records whether it was
/// accepted.
#[derive(Debug, Clone)]
pub struct RegistrationDecision {
    pub admin_id: i32,
    pub deny_reason: Option<Option<String>>,
    pub updated_at: Timestamp,
    pub accepted_application: bool,
}

/// Approving or denying a registration application is for admins only.  No
/// reason keeps the stored one, an empty reason clears it, any other replaces
/// it.
pub fn approve_registration_application(
    admin_ok: bool,
    person_id: i32,
    approve: bool,
    deny_reason: Option<String>,
) -> (res: StudyCycleResult<RegistrationDecision>)
    ensures
        !admin_ok ==> refused_by(res, Guard::Admin),
        admin_ok ==> (res matches Ok(d) && d.admin_id == person_id && d.deny_reason
            == spec_string_update(deny_reason) && d.accepted_application == approve),
{
    require_guard(admin_ok, Guard::Admin)?;
    Ok(RegistrationDecision {
        admin_id: person_id,
        deny_reason: string_update(deny_reason),
        updated_at: now(),
        accepted_application: approve,
    })
}

/// The email that tells an applicant of the decision.
#[derive(Debug, Clone)]
pub enum ApplicationEmail {
    NoEmail,
    Approved,
    Denied(Option<String>),
}

/// After the decision is stored: an applicant with an email address is told
/// of it, with the reason where the application was denied.
pub fn registration_application_email(
    applicant_has_email: bool,
    approve: bool,
    deny_reason: Option<String>,
) -> (res: ApplicationEmail)
    ensures
        res == (if !applicant_has_email {
            ApplicationEmail::NoEmail
        } else if approve {
            ApplicationEmail::Approved
        } else {
            ApplicationEmail::Denied(deny_reason)
        }),
{
    if !applicant_has_email {
        ApplicationEmail::NoEmail
    } else if approve {
        ApplicationEmail::Approved
    } else {
        ApplicationEmail::Denied(deny_reason)
    }
}

/// Reading the registration application of a person is for admins only.
pub fn get_registration_application(admin_ok: bool) -> (res: StudyCycleResult<()>)
    ensures
        res == (if admin_ok { Ok(()) } else { Err::<(), StudyCycleErrorType>(
            StudyCycleErrorType::Refused(Guard::Admin),
        ) }),
{
    require_guard(admin_ok, Guard::Admin)
}

} // verus!
