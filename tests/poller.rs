use status_relay::dispatchers::discord::DiscordDispatcher;
use status_relay::jobs::{JobRegistry, SchedulerError};
use status_relay::modules::radarr::{
    disable, enable, poll_status, to_bare_notification, PollError, RadarrServiceStatusType,
    RadarrStatus, SingleStatus, POLL_JOB_NAME,
};
use status_relay::notifications::{NotificationManager, NotificationType};

fn manager() -> NotificationManager {
    NotificationManager::new(DiscordDispatcher::new("u".to_string()).unwrap())
}

fn item(t: RadarrServiceStatusType, message: &str) -> SingleStatus {
    SingleStatus { source: "IndexerCheck".to_string(), status_type: t, message: message.to_string() }
}

#[test]
fn malformed_body_changes_nothing() {
    let mut m = manager();
    m.send_notification_with_id(
        to_bare_notification(&item(RadarrServiceStatusType::INFO, "up")),
        "a".to_string(),
    );
    let r = poll_status(&mut m, Err(PollError::MalformedBody("expected value at line 1".to_string())));
    assert!(matches!(r, Err(PollError::MalformedBody(_))));
    assert_eq!(m.notifications().len(), 1);
    assert_eq!(m.discord().pending(), 1);
}

#[test]
fn report_items_are_submitted_in_order() {
    let mut m = manager();
    let status = RadarrStatus {
        service_status: vec![
            item(RadarrServiceStatusType::WARNING, "indexers unavailable"),
            item(RadarrServiceStatusType::ERROR, "download client down"),
            item(RadarrServiceStatusType::WARNING, "indexers unavailable"),
            item(RadarrServiceStatusType::INFO, "update available"),
        ],
    };
    assert!(poll_status(&mut m, Ok(status)).is_ok());
    let h = m.notifications();
    assert_eq!(h.len(), 3);
    assert_eq!(h[0].notification_type, NotificationType::Warning);
    assert_eq!(h[0].message, "indexers unavailable");
    assert_eq!(h[1].notification_type, NotificationType::Error);
    assert_eq!(h[2].notification_type, NotificationType::Info);
    assert_eq!(m.discord().pending(), 3);
}

#[test]
fn status_types_map_to_severities() {
    assert_eq!(RadarrServiceStatusType::WARNING.into_notification_type(), NotificationType::Warning);
    assert_eq!(RadarrServiceStatusType::INFO.into_notification_type(), NotificationType::Info);
    assert_eq!(RadarrServiceStatusType::ERROR.into_notification_type(), NotificationType::Error);
}

#[test]
fn enable_and_disable_poll_job() {
    let mut jobs = JobRegistry::new();
    assert_eq!(enable(&mut jobs), Ok(()));
    assert!(jobs.contains(&POLL_JOB_NAME.to_string()));
    assert_eq!(enable(&mut jobs), Err(SchedulerError::DuplicateName));
    assert_eq!(jobs.len(), 1);
    assert!(disable(&mut jobs));
    assert!(!jobs.contains(&POLL_JOB_NAME.to_string()));
    assert!(!disable(&mut jobs));
    assert_eq!(enable(&mut jobs), Ok(()));
}

#[test]
fn cancel_keeps_other_jobs_in_order() {
    let mut jobs = JobRegistry::new();
    assert_eq!(jobs.add("a".to_string(), "* * * * * *".to_string()), Ok(()));
    assert_eq!(jobs.add("b".to_string(), "*/5 * * * * *".to_string()), Ok(()));
    assert_eq!(jobs.add("c".to_string(), "0 * * * * *".to_string()), Ok(()));
    assert!(jobs.cancel(&"b".to_string()));
    assert_eq!(jobs.len(), 2);
    assert!(jobs.contains(&"a".to_string()));
    assert!(jobs.contains(&"c".to_string()));
    assert!(!jobs.cancel(&"b".to_string()));
}
