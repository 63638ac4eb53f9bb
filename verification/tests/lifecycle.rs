//! The purge-record state machine and the per-tick reconciliation.

use purgebot::jira::{ManagedStatus, User};
use purgebot::purge::{PurgeAction, PurgeData, PurgeRobot, PurgeUser};
use purgebot::report::report_for;
use purgebot::robot::{Robot, RobotConfig, RobotCredential, RobotData, RobotIdentifier, RobotScheduler};
use purgebot::robot::{get_active_robots, RobotBuilder};
use purgebot::tick::{insert_candidates, run_tick, should_run, transition_pass};
use purgebot::ReasonSet;

const DAY: i64 = 86400;
const NOW: i64 = 1_700_000_000;

fn lifecycle_user(id: &str, email: &str, name: &str, active: bool, created: i64) -> User {
    User {
        platform_role: None,
        id: id.to_string(),
        email: email.to_string(),
        display_name: name.to_string(),
        active,
        has_verified_email: true,
        picture: String::new(),
        active_status: String::new(),
        nickname: String::new(),
        title: None,
        timezone: None,
        location: None,
        company_name: None,
        department: None,
        presence: None,
        created,
        invitation_status: None,
        system: false,
        org_admin: false,
        site_admin: false,
        sys_admin: false,
        trusted_user: false,
        presence_unavailable: None,
        managed_status: ManagedStatus { managed: false, owner: None },
    }
}

fn lifecycle_robot(modified: Option<i64>, sch: RobotScheduler) -> Robot {
    Robot {
        data: RobotData {
            id: RobotIdentifier { unique: Some(42) },
            name: "janitor".to_string(),
            description: String::new(),
            active: true,
            created: Some(0),
            modified,
        },
        config: RobotConfig {
            credential: RobotCredential {
                platform_email: "ops@x.com".to_string(),
                platform_api_key: "key".to_string(),
                cloud_session_token: "token".to_string(),
            },
            scheduler: sch,
        },
    }
}

fn active_check_only() -> RobotScheduler {
    RobotScheduler {
        schedule: 1,
        last_active: 0,
        check_double_name: false,
        check_double_email: false,
        check_active_status: true,
    }
}

fn only(reason_active: bool, reason_last: bool, reason_email: bool, reason_name: bool) -> ReasonSet {
    ReasonSet {
        active_status: reason_active,
        last_active: reason_last,
        duplicate_email: reason_email,
        duplicate_name: reason_name,
    }
}

fn staged_record(user_id: &str, email: &str, name: &str, time: i64, alert: Option<i64>, reasons: ReasonSet) -> PurgeData {
    PurgeData {
        user: PurgeUser {
            id: user_id.to_string(),
            display_name: name.to_string(),
            email: email.to_string(),
            presence: 1000,
        },
        robot: PurgeRobot { id: 42 },
        time,
        alert,
        reasons,
    }
}

#[test]
fn warn_formula_is_exact() {
    let rec = staged_record("u1", "a@x.com", "Alice", NOW + 7 * DAY, None, only(true, false, false, false));
    assert!(rec.should_email_user(NOW, 3), "never warned: a warning is due");
    let t0 = NOW;
    let warned = PurgeData { alert: Some(t0), ..rec };
    assert!(!warned.should_email_user(t0 + 3 * DAY - 1, 3));
    assert!(warned.should_email_user(t0 + 3 * DAY, 3), "the window boundary is inclusive");
    assert!(warned.should_email_user(t0 + 4 * DAY, 3));
}

#[test]
fn removal_window_is_inclusive() {
    let rec = staged_record("u1", "a@x.com", "Alice", NOW, None, only(true, false, false, false));
    assert!(!rec.should_remove_user(NOW - 1));
    assert!(rec.should_remove_user(NOW));
    assert!(rec.should_remove_user(NOW + 1));
}

#[test]
fn robot_freshness_follows_schedule() {
    let sch = active_check_only();
    let never_run = lifecycle_robot(None, sch);
    assert!(!never_run.is_updated(NOW), "a robot never evaluated is due");
    let fresh = lifecycle_robot(Some(NOW - DAY / 2), sch);
    assert!(fresh.is_updated(NOW));
    let stale = lifecycle_robot(Some(NOW - 2 * DAY), sch);
    assert!(!stale.is_updated(NOW));
}

#[test]
fn decide_covers_every_branch() {
    let reasons = only(true, false, false, false);
    let in_grace = staged_record("u1", "a@x.com", "Alice", NOW + DAY, None, reasons);
    let expired = staged_record("u1", "a@x.com", "Alice", NOW - 1, None, reasons);
    let disabled_user = lifecycle_user("u1", "a@x.com", "Alice", false, 1000);
    let enabled_user = lifecycle_user("u1", "a@x.com", "Alice", true, 1000);

    // Reason holds, grace expired: remove.
    assert_eq!(expired.decide(Some(&disabled_user), NOW), PurgeAction::Remove);
    // Reason holds, within grace, never warned: warn.
    assert_eq!(in_grace.decide(Some(&disabled_user), NOW), PurgeAction::Warn);
    // Reason holds, within grace, warned recently: keep.
    let recently_warned = PurgeData { alert: Some(NOW - DAY), ..in_grace.clone() };
    assert_eq!(recently_warned.decide(Some(&disabled_user), NOW), PurgeAction::Keep);
    // Reasons lapsed, within grace: keep (no early clear).
    assert_eq!(in_grace.decide(Some(&enabled_user), NOW), PurgeAction::Keep);
    // Reasons lapsed, grace expired: clear.
    assert_eq!(expired.decide(Some(&enabled_user), NOW), PurgeAction::Clear);
    // User left the directory: keep within grace, clear after.
    assert_eq!(in_grace.decide(None, NOW), PurgeAction::Keep);
    assert_eq!(expired.decide(None, NOW), PurgeAction::Clear);
}

#[test]
fn revalidation_compares_against_the_snapshot() {
    // DuplicateEmail lapses once the email changed; LastActive lapses once
    // the user has been seen after the snapshot.
    let reasons = only(false, true, true, false);
    let expired = staged_record("u1", "a@x.com", "Alice", NOW - 1, None, reasons);
    let mut user = lifecycle_user("u1", "a@x.com", "Alice", true, 1000);
    // Email equals the snapshot: still a duplicate, remove.
    assert_eq!(expired.decide(Some(&user), NOW), PurgeAction::Remove);
    // Email changed and presence is newer than the snapshot: clear.
    user.email = "fresh@y.com".to_string();
    user.presence = Some(2000);
    assert_eq!(expired.decide(Some(&user), NOW), PurgeAction::Clear);
}

#[test]
fn insertion_is_idempotent_from_empty() {
    let sch = active_check_only();
    let robot = lifecycle_robot(None, sch);
    let roster = vec![
        lifecycle_user("u1", "a@x.com", "Alice", false, 1000),
        lifecycle_user("u2", "b@y.com", "Bob", true, 2000),
    ];
    let sets = vec![only(true, false, false, false), only(false, false, false, false)];
    let once = insert_candidates(Vec::new(), &robot, &roster, &sets, NOW);
    let twice = insert_candidates(once.clone(), &robot, &roster, &sets, NOW);
    assert_eq!(once, twice);
    assert_eq!(once.len(), 1, "a user with no reasons is not staged");
    assert_eq!(once[0].user.id, "u1");
    assert_eq!(once[0].time, NOW + 7 * DAY, "removal is scheduled a grace window ahead");
    assert_eq!(once[0].alert, None);
}

#[test]
fn merge_unions_reasons_and_keeps_the_schedule() {
    let sch = active_check_only();
    let robot = lifecycle_robot(None, sch);
    let roster = vec![lifecycle_user("u1", "a@x.com", "Alice", false, 1000)];
    let first_found = vec![only(true, false, false, false)];
    let later_found = vec![only(false, true, false, false)];
    let first_tick = insert_candidates(Vec::new(), &robot, &roster, &first_found, NOW);
    let second_tick = insert_candidates(first_tick.clone(), &robot, &roster, &later_found, NOW + DAY);
    assert_eq!(second_tick.len(), 1);
    assert_eq!(second_tick[0].reasons, only(true, true, false, false), "the union, never a loss");
    assert_eq!(second_tick[0].time, first_tick[0].time, "first-detected wins the schedule");
    assert_eq!(second_tick[0].alert, first_tick[0].alert);
    assert_eq!(second_tick[0].user, first_tick[0].user, "the snapshot is not retaken");
}

#[test]
fn expired_record_is_removed_with_a_log_trail() {
    // Record scheduled for removal at T; now = T + 1; the user is still
    // disabled in the fresh roster.
    let removal_at = NOW;
    let rec = staged_record("u1", "a@x.com", "Alice", removal_at, Some(NOW - DAY), only(true, false, false, false));
    let sch = active_check_only();
    // The robot was evaluated recently, so the tick only transitions.
    let robot = lifecycle_robot(Some(NOW), sch);
    let roster = vec![lifecycle_user("u1", "a@x.com", "Alice", false, 1000)];
    let now = removal_at + 1;
    let outcome = run_tick(&robot, vec![rec.clone()], &roster, now);
    assert!(!outcome.stamp_modified);
    assert_eq!(outcome.records.len(), 0, "the record left the store");
    assert_eq!(outcome.logs.len(), 1, "exactly one log entry");
    assert_eq!(outcome.logs[0].user.id, "u1");
    assert_eq!(outcome.logs[0].robot, robot);
    assert_eq!(outcome.logs[0].reasons, rec.reasons);
    assert_eq!(outcome.logs[0].time, now);
    assert_eq!(outcome.removals, vec!["u1".to_string()], "external removal requested once");
    assert_eq!(outcome.warned.len(), 0);
}

#[test]
fn warn_cadence_over_two_ticks() {
    let t0 = NOW;
    let rec = staged_record("u1", "a@x.com", "Alice", t0 + 7 * DAY, Some(t0), only(true, false, false, false));
    let sch = active_check_only();
    let roster = vec![lifecycle_user("u1", "a@x.com", "Alice", false, 1000)];

    // Two days after the warning: nothing is sent, nothing changes.
    let robot = lifecycle_robot(Some(t0 + 2 * DAY), sch);
    let quiet = run_tick(&robot, vec![rec.clone()], &roster, t0 + 2 * DAY);
    assert_eq!(quiet.warned.len(), 0);
    assert_eq!(quiet.records, vec![rec.clone()]);

    // Four days after: a new warning goes out and the stamp moves.
    let robot = lifecycle_robot(Some(t0 + 4 * DAY), sch);
    let warned = run_tick(&robot, vec![rec.clone()], &roster, t0 + 4 * DAY);
    assert_eq!(warned.warned.len(), 1);
    assert_eq!(warned.warned[0].id, "u1");
    assert_eq!(warned.records.len(), 1);
    assert_eq!(warned.records[0].alert, Some(t0 + 4 * DAY));
    assert_eq!(warned.records[0].time, rec.time, "warning does not move the removal time");
}

#[test]
fn lapsed_record_is_not_cleared_early() {
    let rec = staged_record("u1", "a@x.com", "Alice", NOW + 7 * DAY, Some(NOW - DAY), only(true, false, false, false));
    let sch = active_check_only();
    let robot = lifecycle_robot(Some(NOW), sch);
    // The user is active again: every recorded reason lapsed.
    let roster = vec![lifecycle_user("u1", "a@x.com", "Alice", true, 1000)];
    let outcome = run_tick(&robot, vec![rec.clone()], &roster, NOW);
    assert_eq!(outcome.records, vec![rec.clone()], "still within grace: kept untouched");
    assert_eq!(outcome.logs.len(), 0);
    assert_eq!(outcome.warned.len(), 0);
    assert_eq!(outcome.removals.len(), 0);

    // Once the grace window expires, the lapsed record is cleared silently.
    let robot = lifecycle_robot(Some(NOW + 8 * DAY), sch);
    let cleared = run_tick(&robot, vec![rec], &roster, NOW + 8 * DAY);
    assert_eq!(cleared.records.len(), 0);
    assert_eq!(cleared.logs.len(), 0, "a clear leaves no log entry");
    assert_eq!(cleared.removals.len(), 0);
}

#[test]
fn departed_user_is_cleared_only_after_expiry_and_without_a_log() {
    let rec = staged_record("u1", "a@x.com", "Alice", NOW + DAY, None, only(true, false, false, false));
    let sch = active_check_only();
    let robot = lifecycle_robot(Some(NOW), sch);
    let empty_roster: Vec<User> = Vec::new();
    let kept = transition_pass(&robot, &vec![rec.clone()], &empty_roster, NOW);
    assert_eq!(kept.kept, vec![rec.clone()]);
    assert_eq!(kept.logs.len(), 0);
    let gone = transition_pass(&robot, &vec![rec], &empty_roster, NOW + 2 * DAY);
    assert_eq!(gone.kept.len(), 0);
    assert_eq!(gone.logs.len(), 0, "no current user, nothing to log");
    assert_eq!(gone.removals.len(), 0);
}

#[test]
fn due_tick_stages_and_warns_in_the_same_pass() {
    let sch = active_check_only();
    // Never evaluated: the tick is due and stamps the robot.
    let robot = lifecycle_robot(None, sch);
    let roster = vec![lifecycle_user("u1", "a@x.com", "Alice", false, 1000)];
    let outcome = run_tick(&robot, Vec::new(), &roster, NOW);
    assert!(outcome.stamp_modified);
    assert_eq!(outcome.records.len(), 1);
    assert_eq!(outcome.records[0].user.id, "u1");
    assert_eq!(outcome.records[0].time, NOW + 7 * DAY);
    assert_eq!(outcome.records[0].reasons, only(true, false, false, false));
    assert_eq!(outcome.records[0].alert, Some(NOW), "a fresh record is warned at once");
    assert_eq!(outcome.warned.len(), 1);
    assert_eq!(outcome.logs.len(), 0);
    assert_eq!(outcome.removals.len(), 0);
}

#[test]
fn only_active_robots_are_selected() {
    let sch = active_check_only();
    let on = lifecycle_robot(None, sch);
    let mut off = lifecycle_robot(None, sch);
    off.data.active = false;
    off.data.name = "sleeper".to_string();
    let picked = get_active_robots(&vec![on.clone(), off]);
    assert_eq!(picked, vec![on]);
}

#[test]
fn scheduler_runs_first_time_and_then_on_schedule() {
    assert!(should_run(None, None, NOW), "the first pass always runs");
    assert!(!should_run(Some(NOW), Some(NOW + 60), NOW), "not due before the next instant");
    assert!(should_run(Some(NOW), Some(NOW + 60), NOW + 60), "due at the next instant");
    assert!(!should_run(Some(NOW), None, NOW), "a schedule with no next instant never fires");
}

#[test]
fn builder_assembles_a_query() {
    let query = RobotBuilder::new()
        .id(Some(42))
        .name(Some("janitor".to_string()))
        .active(Some(true))
        .schedule(Some(1))
        .last_active(Some(30))
        .check_active_status(Some(true))
        .finish();
    assert_eq!(query.id, Some(42));
    assert_eq!(query.name, Some("janitor".to_string()));
    assert_eq!(query.active, Some(true));
    assert_eq!(query.schedule, Some(1));
    assert_eq!(query.last_active, Some(30));
    assert_eq!(query.check_active_status, Some(true));
    assert_eq!(query.description, None);
    assert_eq!(query.platform_type, None);
    assert_eq!(query.last_updated, None);
}

#[test]
fn report_filters_queued_records_by_robot() {
    let mine = staged_record("u1", "a@x.com", "Alice", NOW, None, only(true, false, false, false));
    let other = PurgeData { robot: PurgeRobot { id: 7 }, ..staged_record("u2", "b@y.com", "Bob", NOW, None, only(true, false, false, false)) };
    let records = vec![mine.clone(), other];
    let report = report_for(&records, Vec::new(), 42);
    assert_eq!(report.queued, vec![mine]);
    assert_eq!(report.removed.len(), 0);
}
