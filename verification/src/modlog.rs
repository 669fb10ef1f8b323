//! The entries that moderation and administration actions add to the modlog.
use vstd::prelude::*;

verus! {

/// One modlog entry, by the ids of what it concerns.
#[derive(Debug, Clone)]
pub enum ModlogEntry {
    ModFeaturePostCommunity { mod_person_id: i32, post_id: i32, featured: bool },
    AdminFeaturePostSite { admin_person_id: i32, post_id: i32, featured: bool },
    ModLockPost { mod_person_id: i32, post_id: i32, locked: bool, reason: Option<String> },
    AdminBlockInstance { admin_person_id: i32, instance_id: i32, blocked: bool, reason: Option<String> },
    AdminPurgePost { admin_person_id: i32, community_id: i32, reason: Option<String> },
    AdminRemoveCommunity {
        admin_person_id: i32,
        community_id: i32,
        community_owner_id: i32,
        removed: bool,
        reason: Option<String>,
    },
}

} // verus!
