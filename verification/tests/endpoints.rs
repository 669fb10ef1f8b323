use studycycle_api::comment::{distinguish_comment, list_comment_likes};
use studycycle_api::community::{
    create_community_tag, delete_community_tag, edit_community_notifications, edit_community_tag,
    follow_community, get_pending_follows_list, post_pending_follows_approve, tag_ap_id,
    CommunityFollowerState, CommunityNotificationsMode, CreateCommunityTag, FollowerActivity,
};
use studycycle_api::crud::{
    check_multi_community_creator, convert_published_time, delete_custom_emoji, delete_post,
    delete_private_message, delete_tagline, edit_tagline, get_comment, get_site, remove_community,
    scheduled_publish_decision, MAX_SCHEDULED_POSTS,
};
use studycycle_api::error::{Guard, StudyCycleErrorType};
use studycycle_api::federation::{list_persons, read_multi_community, search, ListingOrder, ListingScope};
use studycycle_api::local_user::{
    change_password, logout, old_password_valid, reset_password, reset_password_response,
    resend_verification_email,
    try_reset_password, user_block_instance_communities, user_block_instance_persons,
    validate_auth,
};
use studycycle_api::modlog::ModlogEntry;
use studycycle_api::post::{
    edit_post_notifications, feature_post, get_link_metadata, hide_post, list_post_likes,
    lock_post, mark_posts_as_read, save_post, PostFeatureType, PostNotificationsMode,
};
use studycycle_api::reports::resolve_pm_report;
use studycycle_api::site::{
    admin_block_instance, admin_block_instance_plan, admin_list_users, approve_registration_application,
    get_registration_application, list_all_media, purge_post, registration_application_email,
    ApplicationEmail,
};
use studycycle_api::time::{is_before, Timestamp};
use studycycle_api::field::string_update;
use studycycle_api::outside::{UTC_MAX_TIMESTAMP, UTC_MIN_TIMESTAMP};

fn refused(g: Guard) -> StudyCycleErrorType {
    StudyCycleErrorType::Refused(g)
}

#[test]
fn distinguish_comment_order_of_checks() {
    assert_eq!(distinguish_comment(1, 2, true, false, false), Err(refused(Guard::CommunityUserAction)));
    assert_eq!(distinguish_comment(1, 2, true, true, true), Err(StudyCycleErrorType::NoCommentEditAllowed));
    assert_eq!(distinguish_comment(1, 1, true, true, false), Err(refused(Guard::CommunityModAction)));
    assert_eq!(distinguish_comment(1, 1, true, true, true), Ok(true));
    assert_eq!(distinguish_comment(1, 1, false, true, true), Ok(false));
}

#[test]
fn guard_only_endpoints() {
    assert_eq!(list_comment_likes(false), Err(refused(Guard::ModOrAdmin)));
    assert_eq!(list_comment_likes(true), Ok(()));
    assert_eq!(list_post_likes(false), Err(refused(Guard::ModOrAdmin)));
    assert_eq!(list_persons(false), Err(refused(Guard::PrivateInstance)));
    assert_eq!(get_comment(false), Err(refused(Guard::PrivateInstance)));
    assert_eq!(get_comment(true), Ok(()));
    assert_eq!(admin_list_users(false), Err(refused(Guard::Admin)));
    assert_eq!(list_all_media(false), Err(refused(Guard::Admin)));
    assert_eq!(get_registration_application(false), Err(refused(Guard::Admin)));
    assert_eq!(delete_custom_emoji(false), Err(refused(Guard::Admin)));
    assert_eq!(delete_tagline(false), Err(refused(Guard::Admin)));
    assert_eq!(delete_tagline(true), Ok(()));
    assert_eq!(resolve_pm_report(false, 7, true), Err(refused(Guard::Admin)));
    let r = resolve_pm_report(true, 7, false).unwrap();
    assert_eq!((r.resolver_id, r.resolved), (7, false));
    assert_eq!(resend_verification_email(false), Err(refused(Guard::LocalUserValid)));
    assert!(edit_tagline(false).is_err());
    assert!(edit_tagline(true).is_ok());
}

#[test]
fn follow_and_pending_followers() {
    assert_eq!(follow_community(false, true), Err(refused(Guard::LocalUserValid)));
    assert_eq!(follow_community(true, false), Ok(false));
    let d = post_pending_follows_approve(true, 5, 7, 9, true).unwrap();
    assert_eq!(d.approver_id, 5);
    assert_eq!(d.state, CommunityFollowerState::Accepted);
    assert_eq!(d.activity, FollowerActivity::AcceptFollower(7, 9));
    let d = post_pending_follows_approve(true, 5, 7, 9, false).unwrap();
    assert_eq!(d.approver_id, 5);
    assert_eq!(d.state, CommunityFollowerState::Denied);
    assert_eq!(d.activity, FollowerActivity::RejectFollower(7, 9));
    assert_eq!(post_pending_follows_approve(false, 5, 7, 9, true), Err(refused(Guard::ModOrAdmin)));
}

#[test]
fn pending_follows_all_communities_only_for_admins() {
    let f = get_pending_follows_list(true, false, Some(true), None).unwrap();
    assert!(!f.all_communities);
    assert!(!f.unread_only);
    let f = get_pending_follows_list(true, true, Some(true), Some(true)).unwrap();
    assert!(f.all_communities);
    assert!(f.unread_only);
    let f = get_pending_follows_list(true, true, None, Some(false)).unwrap();
    assert!(!f.all_communities);
    assert_eq!(get_pending_follows_list(false, true, None, None), Err(refused(Guard::ModOfAnyOrAdmin)));
}

fn tag_request(summary: Option<&str>) -> CreateCommunityTag<u8> {
    CreateCommunityTag {
        community_id: 3,
        name: "news".to_string(),
        display_name: Some("News".to_string()),
        summary: summary.map(|s| s.to_string()),
        color: Some(4),
    }
}

#[test]
fn create_community_tag_builds_parsed_ap_id() {
    let form = create_community_tag(tag_request(None), "HTTPS://Example.COM/c/rust", true, true, true, false, false)
        .unwrap();
    assert_eq!(form.ap_id, "https://example.com/c/rust/tag/news");
    assert_eq!(form.name, "news");
    assert_eq!(form.community_id, 3);
    assert_eq!(form.deleted, Some(false));
    assert_eq!(form.display_name, Some("News".to_string()));
    assert_eq!(form.color, Some(4));
    assert_eq!(tag_ap_id("https://a.org/c/x", "y"), "https://a.org/c/x/tag/y");
}

#[test]
fn create_community_tag_refusals() {
    let r = create_community_tag(tag_request(None), "https://a.org/c/x", false, true, true, true, true);
    assert_eq!(r.err(), Some(refused(Guard::ActorName)));
    let r = create_community_tag(tag_request(None), "https://a.org/c/x", true, false, true, true, true);
    assert_eq!(r.err(), Some(refused(Guard::CommunityModAction)));
    let r = create_community_tag(tag_request(None), "https://a.org/c/x", true, true, false, true, true);
    assert_eq!(r.err(), Some(refused(Guard::ApiElementsCount)));
    let r = create_community_tag(tag_request(Some("s")), "https://a.org/c/x", true, true, true, false, true);
    assert_eq!(r.err(), Some(refused(Guard::SummaryLength)));
    let r = create_community_tag(tag_request(Some("s")), "https://a.org/c/x", true, true, true, true, false);
    assert_eq!(r.err(), Some(refused(Guard::Slurs)));
    // The summary guards do not apply without a summary.
    let r = create_community_tag(tag_request(None), "https://a.org/c/x", true, true, true, false, false);
    assert!(r.is_ok());
    // A community id that is no URL gives a tag id that does not parse.
    let r = create_community_tag(tag_request(None), "not a url", true, true, true, true, true);
    assert_eq!(r.err(), Some(StudyCycleErrorType::Unknown));
}

#[test]
fn edit_and_delete_community_tag() {
    let e = edit_community_tag(Some("".to_string()), Some("x".to_string()), Some(2u8), true, true, true).unwrap();
    // An empty display name clears it; a summary replaces it.
    assert_eq!(e.display_name, Some(None));
    assert_eq!(e.summary, Some(Some("x".to_string())));
    assert_eq!(e.color, Some(2));
    let e = edit_community_tag::<u8>(None, None, None, true, false, false).unwrap();
    // Absent values keep the fields.
    assert_eq!(e.display_name, None);
    assert_eq!(e.summary, None);
    assert_eq!(edit_community_tag::<u8>(None, Some("x".to_string()), None, true, false, true).err(), Some(refused(Guard::SummaryLength)));
    assert_eq!(edit_community_tag::<u8>(None, None, None, false, true, true).err(), Some(refused(Guard::CommunityModAction)));
    assert!(delete_community_tag(true, true).unwrap().deleted);
    assert!(!delete_community_tag(true, false).unwrap().deleted);
    assert_eq!(delete_community_tag(false, true).err(), Some(refused(Guard::CommunityModAction)));
}

#[test]
fn notifications_follow_remote_communities_only() {
    assert!(edit_community_notifications(CommunityNotificationsMode::AllPosts, false));
    assert!(edit_community_notifications(CommunityNotificationsMode::AllPostsAndComments, false));
    assert!(!edit_community_notifications(CommunityNotificationsMode::AllPosts, true));
    assert!(!edit_community_notifications(CommunityNotificationsMode::Mute, false));
    assert!(!edit_community_notifications(CommunityNotificationsMode::RepliesAndMentions, false));
    assert!(edit_post_notifications(PostNotificationsMode::AllComments, false));
    assert!(!edit_post_notifications(PostNotificationsMode::AllComments, true));
    assert!(!edit_post_notifications(PostNotificationsMode::Mute, false));
}

#[test]
fn multi_community_and_search() {
    assert_eq!(read_multi_community(Some(4)), Ok(4));
    assert_eq!(read_multi_community(None), Err(StudyCycleErrorType::NoIdGiven));
    let plan = search("rust".to_string(), Some(true), true).unwrap();
    assert_eq!(plan.posts.search_term, Some("rust".to_string()));
    assert_eq!(plan.posts.search_title_only, Some(true));
    assert_eq!(plan.comments.search_title_only, None);
    assert_eq!(plan.comments.search_term, Some("rust".to_string()));
    assert_eq!(plan.persons.search_title_only, Some(true));
    assert_eq!(plan.communities.search_title_only, Some(true));
    assert_eq!(plan.multi_communities.search_term, Some("rust".to_string()));
    for q in [&plan.posts, &plan.comments, &plan.persons, &plan.communities, &plan.multi_communities] {
        assert_eq!(q.listing, ListingScope::All);
        assert_eq!(q.sort, ListingOrder::New);
    }
    assert_eq!(search("rust".to_string(), None, false).err(), Some(refused(Guard::PrivateInstance)));
}

#[test]
fn change_password_checks() {
    let hash = bcrypt::hash("old secret", 4).unwrap();
    assert_eq!(change_password(false, true, "a", "a", "x", None), Err(refused(Guard::LocalUserValid)));
    assert_eq!(change_password(true, false, "a", "a", "x", None), Err(refused(Guard::PasswordLength)));
    assert_eq!(
        change_password(true, true, "new secret", "new secreT", "old secret", Some(&hash)),
        Err(StudyCycleErrorType::PasswordsDoNotMatch)
    );
    assert_eq!(
        change_password(true, true, "new secret", "new secret", "wrong", Some(&hash)),
        Err(StudyCycleErrorType::IncorrectLogin)
    );
    assert_eq!(change_password(true, true, "new secret", "new secret", "old secret", Some(&hash)), Ok(()));
    // Without a stored password only the empty old password is accepted.
    assert_eq!(change_password(true, true, "n", "n", "", None), Ok(()));
    assert_eq!(change_password(true, true, "n", "n", "x", None), Err(StudyCycleErrorType::IncorrectLogin));
}

#[test]
fn old_password_against_stored_hash() {
    let hash = bcrypt::hash("pw", 4).unwrap();
    assert!(old_password_valid("pw", Some(&hash)));
    assert!(!old_password_valid("pW", Some(&hash)));
    // A stored value that is no bcrypt hash never matches, not even itself.
    assert!(!old_password_valid("pw", Some("pw")));
    assert!(!old_password_valid("", Some("")));
}

#[test]
fn session_tokens() {
    assert_eq!(logout(None), Err(StudyCycleErrorType::NotLoggedIn));
    assert_eq!(logout(Some("jwt".to_string())), Ok("jwt".to_string()));
    assert_eq!(validate_auth(None), Err(StudyCycleErrorType::NotLoggedIn));
    assert_eq!(validate_auth(Some("t".to_string())), Ok("t".to_string()));
}

#[test]
fn password_reset() {
    assert_eq!(reset_password("Alice@Example.COM"), "alice@example.com");
    assert_eq!(try_reset_password(false, true), Err(refused(Guard::LocalUserValid)));
    assert_eq!(try_reset_password(true, false), Err(refused(Guard::EmailVerified)));
    assert_eq!(try_reset_password(true, true), Ok(()));
    // The answer is success whatever the attempt gave.
    assert_eq!(reset_password_response(Ok(())), Ok(()));
    assert_eq!(reset_password_response(try_reset_password(false, true)), Ok(()));
    assert_eq!(reset_password_response(try_reset_password(true, false)), Ok(()));
    assert_eq!(reset_password_response(Err(StudyCycleErrorType::Unknown)), Ok(()));
}

#[test]
fn instance_blocks() {
    assert_eq!(user_block_instance_communities(true, 1, 1, true), Err(StudyCycleErrorType::CantBlockLocalInstance));
    assert_eq!(user_block_instance_communities(false, 1, 2, true), Err(refused(Guard::LocalUserValid)));
    assert_eq!(user_block_instance_communities(true, 1, 2, false), Ok(false));
    assert_eq!(user_block_instance_persons(5, 5, false), Err(StudyCycleErrorType::CantBlockLocalInstance));
    assert_eq!(user_block_instance_persons(5, 6, true), Ok(true));
}

#[test]
fn feature_post_plans() {
    let p = feature_post(true, false, 10, 20, PostFeatureType::Community, true).unwrap();
    assert_eq!(p.featured_community, Some(true));
    assert_eq!(p.featured_local, None);
    assert_eq!((p.activity.moderator_id, p.activity.featured), (10, true));
    assert!(matches!(p.modlog, ModlogEntry::ModFeaturePostCommunity { mod_person_id: 10, post_id: 20, featured: true }));
    let p = feature_post(true, true, 10, 20, PostFeatureType::Local, false).unwrap();
    assert_eq!(p.featured_local, Some(false));
    assert!(!p.activity.featured);
    assert_eq!(p.featured_community, None);
    assert!(matches!(p.modlog, ModlogEntry::AdminFeaturePostSite { admin_person_id: 10, post_id: 20, featured: false }));
    assert_eq!(feature_post(true, false, 10, 20, PostFeatureType::Local, true).err(), Some(refused(Guard::Admin)));
    assert_eq!(feature_post(false, true, 10, 20, PostFeatureType::Local, true).err(), Some(refused(Guard::CommunityModAction)));
}

#[test]
fn link_metadata_needs_a_url() {
    assert_eq!(get_link_metadata("http://EXAMPLE.com"), Ok("http://example.com/".to_string()));
    assert_eq!(get_link_metadata(""), Err(StudyCycleErrorType::InvalidUrl));
    assert_eq!(get_link_metadata("no scheme"), Err(StudyCycleErrorType::InvalidUrl));
}

#[test]
fn post_flags() {
    assert_eq!(hide_post(true, true), Ok(true));
    assert_eq!(hide_post(false, true), Err(refused(Guard::LocalUserValid)));
    let p = save_post(true, false).unwrap();
    assert!(!p.save);
    assert!(p.mark_read);
    assert_eq!(save_post(false, true).err(), Some(refused(Guard::LocalUserValid)));
    assert_eq!(mark_posts_as_read(true, false), Ok(false));
    assert_eq!(mark_posts_as_read(false, true), Err(refused(Guard::ApiElementsCount)));
}

#[test]
fn lock_post_plan() {
    let p = lock_post(true, 3, 4, true, Some("spam".to_string())).unwrap();
    assert!(p.locked);
    assert_eq!(p.activity.moderator_id, 3);
    assert!(p.activity.locked);
    assert_eq!(p.activity.reason, Some("spam".to_string()));
    match p.modlog {
        ModlogEntry::ModLockPost { mod_person_id, post_id, locked, reason } => {
            assert_eq!((mod_person_id, post_id, locked), (3, 4, true));
            assert_eq!(reason, Some("spam".to_string()));
        }
        _ => panic!("wrong modlog entry"),
    }
    assert_eq!(lock_post(false, 3, 4, true, None).err(), Some(refused(Guard::CommunityModAction)));
}

#[test]
fn admin_block_instance_decisions() {
    assert_eq!(admin_block_instance(false, true, true), Err(refused(Guard::Admin)));
    assert_eq!(admin_block_instance(true, false, true), Err(refused(Guard::ExpireTime)));
    assert_eq!(
        admin_block_instance(true, true, false),
        Err(StudyCycleErrorType::CannotCombineFederationBlocklistAndAllowlist)
    );
    assert_eq!(admin_block_instance(true, true, true), Ok(()));
    let p = admin_block_instance_plan(1, 2, false, Some("r".to_string()));
    assert!(!p.block);
    assert!(matches!(p.modlog, ModlogEntry::AdminBlockInstance { admin_person_id: 1, instance_id: 2, blocked: false, .. }));
}

#[test]
fn purge_post_plan() {
    assert_eq!(purge_post(false, true, 1, 2, None).err(), Some(refused(Guard::Admin)));
    assert_eq!(purge_post(true, false, 1, 2, None).err(), Some(refused(Guard::HigherAdmin)));
    let p = purge_post(true, true, 1, 2, Some("x".to_string())).unwrap();
    assert!(p.activity.removed);
    assert!(!p.activity.with_replies);
    assert_eq!(p.activity.reason, Some("x".to_string()));
    assert!(matches!(p.modlog, ModlogEntry::AdminPurgePost { admin_person_id: 1, community_id: 2, .. }));
}

#[test]
fn registration_applications() {
    assert_eq!(approve_registration_application(false, 1, true, None).err(), Some(refused(Guard::Admin)));
    let d = approve_registration_application(true, 1, false, Some("no".to_string())).unwrap();
    assert_eq!(d.admin_id, 1);
    assert!(!d.accepted_application);
    assert_eq!(d.deny_reason, Some(Some("no".to_string())));
    let d = approve_registration_application(true, 1, true, Some("".to_string())).unwrap();
    assert_eq!(d.deny_reason, Some(None));
    let d = approve_registration_application(true, 1, true, None).unwrap();
    assert_eq!(d.deny_reason, None);
    assert!(matches!(registration_application_email(false, true, None), ApplicationEmail::NoEmail));
    assert!(matches!(registration_application_email(true, true, None), ApplicationEmail::Approved));
    match registration_application_email(true, false, Some("r".to_string())) {
        ApplicationEmail::Denied(r) => assert_eq!(r, Some("r".to_string())),
        _ => panic!("expected a denial"),
    }
}

#[test]
fn remove_community_plan() {
    assert_eq!(remove_community(false, true, 1, 2, 3, true, None).err(), Some(refused(Guard::CommunityModAction)));
    assert_eq!(remove_community(true, false, 1, 2, 3, true, None).err(), Some(refused(Guard::Admin)));
    let p = remove_community(true, true, 1, 2, 3, true, Some("r".to_string())).unwrap();
    assert!(p.removed);
    assert_eq!(p.reports_resolved_by, 1);
    assert!(p.activity.removed);
    assert!(matches!(p.modlog, ModlogEntry::AdminRemoveCommunity { admin_person_id: 1, community_id: 2, community_owner_id: 3, removed: true, .. }));
}

#[test]
fn multi_community_creator() {
    assert_eq!(check_multi_community_creator(false, 5, false, 5), Ok(()));
    assert_eq!(check_multi_community_creator(true, 5, true, 6), Ok(()));
    assert_eq!(check_multi_community_creator(false, 5, true, 6), Err(StudyCycleErrorType::MultiCommunityUpdateWrongUser));
    assert_eq!(check_multi_community_creator(true, 5, false, 6), Err(StudyCycleErrorType::MultiCommunityUpdateWrongUser));
}

#[test]
fn delete_post_cannot_be_repeated() {
    assert_eq!(delete_post(false, true, true, 1, 1), Ok(true));
    // The same request against the deleted post fails ...
    assert_eq!(delete_post(true, true, true, 1, 1), Err(StudyCycleErrorType::CouldntUpdate));
    // ... and restoring it works.
    assert_eq!(delete_post(true, false, true, 1, 1), Ok(false));
    assert_eq!(delete_post(false, true, false, 1, 1), Err(refused(Guard::CommunityUserAction)));
    assert_eq!(delete_post(false, true, true, 1, 2), Err(StudyCycleErrorType::NoPostEditAllowed));
}

#[test]
fn scheduled_publication() {
    let now = Timestamp { secs: 1_000, nanos: 5 };
    assert_eq!(scheduled_publish_decision(999, now, false, 0), Err(StudyCycleErrorType::PostScheduleTimeMustBeInFuture));
    // The same second, but at its start: already past.
    assert_eq!(scheduled_publish_decision(1_000, now, false, 0), Err(StudyCycleErrorType::PostScheduleTimeMustBeInFuture));
    assert_eq!(scheduled_publish_decision(1_000, Timestamp { secs: 1_000, nanos: 0 }, false, 0), Ok(Some(1_000)));
    assert_eq!(scheduled_publish_decision(1_001, now, false, MAX_SCHEDULED_POSTS), Err(StudyCycleErrorType::TooManyScheduledPosts));
    assert_eq!(scheduled_publish_decision(1_001, now, false, 9), Ok(Some(1_001)));
    assert_eq!(scheduled_publish_decision(1_001, now, true, 50), Ok(Some(1_001)));
}

#[test]
fn convert_published_time_cases() {
    assert_eq!(convert_published_time(None, false, 100), Ok(None));
    assert_eq!(convert_published_time(Some(i64::MAX), true, 0), Err(StudyCycleErrorType::InvalidUnixTime));
    assert_eq!(convert_published_time(Some(0), true, 0), Err(StudyCycleErrorType::PostScheduleTimeMustBeInFuture));
    // The year 2286: in the future for a long while.
    assert_eq!(convert_published_time(Some(10_000_000_000), false, 0), Ok(Some(10_000_000_000)));
    assert_eq!(convert_published_time(Some(10_000_000_000), false, 10), Err(StudyCycleErrorType::TooManyScheduledPosts));
}

#[test]
fn private_message_deletion() {
    let d = delete_private_message(true, 1, 1, 2, true).unwrap();
    assert_eq!((d.deleted, d.deleted_by_recipient), (None, Some(true)));
    assert_eq!((d.activity.person_id, d.activity.deleted), (1, true));
    let d = delete_private_message(true, 2, 1, 2, false).unwrap();
    assert_eq!((d.deleted, d.deleted_by_recipient), (Some(false), None));
    assert_eq!((d.activity.person_id, d.activity.deleted), (2, false));
    // A message sent to oneself is deleted as its recipient.
    let d = delete_private_message(true, 3, 3, 3, true).unwrap();
    assert_eq!((d.deleted, d.deleted_by_recipient), (None, Some(true)));
    assert_eq!(delete_private_message(true, 4, 1, 2, true), Err(StudyCycleErrorType::EditPrivateMessageNotAllowed));
    assert_eq!(delete_private_message(false, 1, 1, 2, true), Err(refused(Guard::LocalUserValid)));
}

#[test]
fn site_hides_admin_providers() {
    assert_eq!(get_site(Some(true), vec![1, 2]), vec![1, 2]);
    assert!(get_site(Some(false), vec![1, 2]).is_empty());
    assert!(get_site(None, vec![1, 2]).is_empty());
}

#[test]
fn timestamps_order() {
    assert!(is_before(Timestamp { secs: 1, nanos: 9 }, Timestamp { secs: 2, nanos: 0 }));
    assert!(is_before(Timestamp { secs: 2, nanos: 0 }, Timestamp { secs: 2, nanos: 1 }));
    assert!(!is_before(Timestamp { secs: 2, nanos: 1 }, Timestamp { secs: 2, nanos: 1 }));
}

#[test]
fn edits_are_stamped_with_the_clock() {
    // 2020-09-13: any clock this runs under is later.
    let t = edit_tagline(true).unwrap();
    assert!(t.secs > 1_600_000_000);
    assert!(t.nanos < 1_000_000_000);
    let d = delete_community_tag(true, true).unwrap();
    assert!(d.updated_at.secs > 1_600_000_000);
}

#[test]
fn string_updates() {
    assert_eq!(string_update(None), None);
    assert_eq!(string_update(Some(String::new())), Some(None));
    assert_eq!(string_update(Some("a".to_string())), Some(Some("a".to_string())));
}

#[test]
fn chrono_range_bounds() {
    assert!(chrono::DateTime::from_timestamp(UTC_MIN_TIMESTAMP, 0).is_some());
    assert!(chrono::DateTime::from_timestamp(UTC_MIN_TIMESTAMP - 1, 0).is_none());
    assert!(chrono::DateTime::from_timestamp(UTC_MAX_TIMESTAMP, 0).is_some());
    assert!(chrono::DateTime::from_timestamp(UTC_MAX_TIMESTAMP + 1, 0).is_none());
    // The bounds as the scheduling endpoint sees them: far past, never unrepresentable.
    assert_eq!(convert_published_time(Some(UTC_MIN_TIMESTAMP), true, 0), Err(StudyCycleErrorType::PostScheduleTimeMustBeInFuture));
    assert_eq!(convert_published_time(Some(UTC_MIN_TIMESTAMP - 1), true, 0), Err(StudyCycleErrorType::InvalidUnixTime));
    assert_eq!(convert_published_time(Some(UTC_MAX_TIMESTAMP), true, 0), Ok(Some(UTC_MAX_TIMESTAMP)));
    assert_eq!(convert_published_time(Some(UTC_MAX_TIMESTAMP + 1), true, 0), Err(StudyCycleErrorType::InvalidUnixTime));
}
