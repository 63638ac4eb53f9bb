//! The policy evaluator: similarity threshold, duplicate pairing,
//! inactivity and active-status checks.

use purgebot::evaluate::evaluate;
use purgebot::jira::{InvitationStatus, ManagedStatus, User};
use purgebot::robot::RobotScheduler;
use purgebot::within_threshold;
use purgebot::{PurgeReason, ReasonSet};

const DAY: i64 = 86400;
const NOW: i64 = 1_700_000_000;

fn roster_user(id: &str, email: &str, name: &str, active: bool, created: i64) -> User {
    User {
        platform_role: None,
        id: id.to_string(),
        email: email.to_string(),
        display_name: name.to_string(),
        active,
        has_verified_email: true,
        picture: String::new(),
        active_status: String::new(),
        nickname: String::new(),
        title: None,
        timezone: None,
        location: None,
        company_name: None,
        department: None,
        presence: None,
        created,
        invitation_status: None,
        system: false,
        org_admin: false,
        site_admin: false,
        sys_admin: false,
        trusted_user: false,
        presence_unavailable: None,
        managed_status: ManagedStatus { managed: false, owner: None },
    }
}

fn scheduler(
    last_active: i64,
    check_double_name: bool,
    check_double_email: bool,
    check_active_status: bool,
) -> RobotScheduler {
    RobotScheduler {
        schedule: 1,
        last_active,
        check_double_name,
        check_double_email,
        check_active_status,
    }
}

fn no_reasons() -> ReasonSet {
    ReasonSet {
        active_status: false,
        last_active: false,
        duplicate_email: false,
        duplicate_name: false,
    }
}

#[test]
fn threshold_is_a_fifth_of_the_longer_length() {
    // "a@x.com" vs "a@x.co": distance 1, longer length 7 -> similar.
    assert!(within_threshold(1, 7, 6));
    // Distance 2 over length 7: 10 > 7 -> not similar.
    assert!(!within_threshold(2, 7, 6));
    // Equal strings: distance 0, also for empty ones.
    assert!(within_threshold(0, 0, 0));
    // Length 10 admits distance 2 but not 3.
    assert!(within_threshold(2, 10, 10));
    assert!(!within_threshold(3, 10, 10));
}

#[test]
fn effective_last_active_falls_back() {
    let mut user = roster_user("u1", "a@x.com", "Alice", true, 1000);
    assert_eq!(user.get_available_presence(), 1000);
    user.invitation_status = Some(InvitationStatus {
        invited_at: 2000,
        status: "PENDING".to_string(),
    });
    assert_eq!(user.get_available_presence(), 2000);
    user.presence = Some(3000);
    assert_eq!(user.get_available_presence(), 3000);
}

#[test]
fn inactive_disabled_user_gets_both_reasons() {
    // Policy: lastActiveDays = 30, checkActiveStatus = true. User created 40
    // days ago, no presence, disabled.
    let sch = scheduler(30, false, false, true);
    let roster = vec![roster_user("u1", "a@x.com", "Alice", false, NOW - 40 * DAY)];
    let sets = evaluate(&sch, &roster, NOW);
    assert_eq!(sets.len(), 1);
    assert!(sets[0].active_status);
    assert!(sets[0].last_active);
    assert!(!sets[0].duplicate_email);
    assert!(!sets[0].duplicate_name);
    assert!(sets[0].contains(PurgeReason::ActiveStatus));
    assert!(sets[0].contains(PurgeReason::LastActive));
}

#[test]
fn inactivity_threshold_is_inclusive() {
    let sch = scheduler(30, false, false, false);
    // Exactly 30 days old: effectiveLastActive + 30 days <= now fires.
    let at_threshold = vec![roster_user("u1", "a@x.com", "Alice", true, NOW - 30 * DAY)];
    assert!(evaluate(&sch, &at_threshold, NOW)[0].last_active);
    // One second fresher does not fire.
    let fresher = vec![roster_user("u1", "a@x.com", "Alice", true, NOW - 30 * DAY + 1)];
    assert!(!evaluate(&sch, &fresher, NOW)[0].last_active);
}

#[test]
fn zero_threshold_disables_inactivity_check() {
    let sch = scheduler(0, false, false, false);
    let roster = vec![roster_user("u1", "a@x.com", "Alice", false, NOW - 400 * DAY)];
    assert_eq!(evaluate(&sch, &roster, NOW), vec![no_reasons()]);
}

#[test]
fn later_created_duplicate_email_is_flagged() {
    let sch = scheduler(0, false, true, false);
    let earlier = roster_user("u1", "a@x.com", "Alice", true, 1000);
    let later = roster_user("u2", "a@x.co", "Bob", true, 2000);
    let roster = vec![earlier.clone(), later.clone()];
    let sets = evaluate(&sch, &roster, NOW);
    assert!(!sets[0].duplicate_email, "the earlier account stays canonical");
    assert!(sets[1].duplicate_email, "the later-created account is flagged");
    // Same pair listed the other way round: still the later-created one.
    let swapped = vec![later, earlier];
    let sets = evaluate(&sch, &swapped, NOW);
    assert!(sets[0].duplicate_email);
    assert!(!sets[1].duplicate_email);
}

#[test]
fn equal_creation_time_flags_the_second_listed() {
    let sch = scheduler(0, true, false, false);
    let a = roster_user("u1", "a@x.com", "Jo Smith", true, 1000);
    let b = roster_user("u2", "b@y.com", "Jo Smyth", true, 1000);
    let sets = evaluate(&sch, &vec![a, b], NOW);
    assert!(!sets[0].duplicate_name);
    assert!(sets[1].duplicate_name);
}

#[test]
fn dissimilar_strings_are_not_flagged() {
    let sch = scheduler(0, true, true, false);
    let a = roster_user("u1", "alice@example.com", "Alice Cooper", true, 1000);
    let b = roster_user("u2", "bob@other.org", "Robert Plant", true, 2000);
    let sets = evaluate(&sch, &vec![a, b], NOW);
    assert_eq!(sets, vec![no_reasons(), no_reasons()]);
}

#[test]
fn identical_emails_are_flagged() {
    let sch = scheduler(0, false, true, false);
    let a = roster_user("u1", "same@x.com", "Alice", true, 1000);
    let b = roster_user("u2", "same@x.com", "Bob", true, 2000);
    let sets = evaluate(&sch, &vec![a, b], NOW);
    assert!(!sets[0].duplicate_email);
    assert!(sets[1].duplicate_email);
}

#[test]
fn toggles_disable_duplicate_checks() {
    let sch = scheduler(0, false, false, false);
    let a = roster_user("u1", "same@x.com", "Jo", true, 1000);
    let b = roster_user("u2", "same@x.com", "Jo", true, 2000);
    let sets = evaluate(&sch, &vec![a, b], NOW);
    assert_eq!(sets, vec![no_reasons(), no_reasons()]);
}

#[test]
fn name_and_email_checks_fire_independently() {
    let sch = scheduler(0, true, true, false);
    let a = roster_user("u1", "same@x.com", "Jo Smith", true, 1000);
    let b = roster_user("u2", "same@x.com", "Jo Smyth", true, 2000);
    let sets = evaluate(&sch, &vec![a, b], NOW);
    assert!(sets[1].duplicate_email && sets[1].duplicate_name);
    assert!(!sets[0].duplicate_email && !sets[0].duplicate_name);
}

#[test]
fn reason_set_union_is_idempotent_and_commutative() {
    let a = ReasonSet {
        active_status: true,
        last_active: false,
        duplicate_email: true,
        duplicate_name: false,
    };
    let b = ReasonSet {
        active_status: false,
        last_active: true,
        duplicate_email: true,
        duplicate_name: false,
    };
    assert_eq!(a.union(&a), a);
    assert_eq!(a.union(&b), b.union(&a));
    let ab = a.union(&b);
    assert!(ab.contains(PurgeReason::ActiveStatus));
    assert!(ab.contains(PurgeReason::LastActive));
    assert!(ab.contains(PurgeReason::DuplicateEmail));
    assert!(!ab.contains(PurgeReason::DuplicateName));
    assert_eq!(
        ab.to_vec(),
        vec![
            PurgeReason::ActiveStatus,
            PurgeReason::LastActive,
            PurgeReason::DuplicateEmail
        ]
    );
}
