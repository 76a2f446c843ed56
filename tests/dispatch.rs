use status_relay::dispatchers::discord::{register_flush_job, DiscordDispatcher, FLUSH_JOB_NAME};
use status_relay::dispatchers::EventDispatcher;
use status_relay::jobs::{JobRegistry, SchedulerError};
use status_relay::notifications::{BareNotification, NotificationManager, NotificationType};

#[test]
fn enqueue_then_flush_transmits_in_order() {
    let mut m = NotificationManager::new(DiscordDispatcher::new("u".to_string()).unwrap());
    for (i, t) in [NotificationType::Info, NotificationType::Error, NotificationType::Warning].iter().enumerate() {
        m.send_notification_with_id(
            BareNotification { notification_type: *t, message: format!("m{}", i) },
            format!("n{}", i),
        );
    }
    let sent: Vec<String> = m.drain_messages().into_iter().map(|b| b.content).collect();
    assert_eq!(
        sent,
        vec![
            "Notification n0 (INFO): m0".to_string(),
            "Notification n1 (ERROR): m1".to_string(),
            "Notification n2 (WARNING): m2".to_string(),
        ]
    );
    assert_eq!(m.discord().pending(), 0);
}

#[test]
fn trait_take_messages_returns_payloads() {
    let mut src = NotificationManager::new(DiscordDispatcher::new("u".to_string()).unwrap());
    src.send_notification_with_id(
        BareNotification { notification_type: NotificationType::Info, message: "hi".to_string() },
        "k".to_string(),
    );
    let mut d = DiscordDispatcher::new("u".to_string()).unwrap();
    EventDispatcher::send_message(&mut d, &src.notifications()[0]);
    assert_eq!(d.take_messages(), vec!["Notification k (INFO): hi".to_string()]);
    assert_eq!(d.take_messages(), Vec::<String>::new());
}

#[test]
fn flush_job_registers_once() {
    let mut jobs = JobRegistry::new();
    assert_eq!(register_flush_job(&mut jobs), Ok(()));
    assert_eq!(register_flush_job(&mut jobs), Err(SchedulerError::DuplicateName));
    assert!(jobs.contains(&FLUSH_JOB_NAME.to_string()));
    assert_eq!(jobs.len(), 1);
}
