use status_relay::dispatchers::discord::{render_payload, DiscordDispatcher, DispatchError};
use status_relay::notifications::{BareNotification, NotificationManager, NotificationType};

fn bare(t: NotificationType, message: &str) -> BareNotification {
    BareNotification { notification_type: t, message: message.to_string() }
}

fn manager() -> NotificationManager {
    let discord = DiscordDispatcher::new("https://example.invalid/hook".to_string()).unwrap();
    NotificationManager::new(discord)
}

fn contents(m: &mut NotificationManager) -> Vec<String> {
    m.drain_messages().into_iter().map(|b| b.content).collect()
}

#[test]
fn same_notification_twice_is_recorded_once() {
    let mut m = manager();
    m.send_notification(bare(NotificationType::Info, "disk ok"));
    m.send_notification(bare(NotificationType::Info, "disk ok"));
    assert_eq!(m.notifications().len(), 1);
    assert_eq!(m.discord().pending(), 1);
    let sent = contents(&mut m);
    assert_eq!(sent.len(), 1);
    let id = m.notifications()[0].id.clone();
    assert_eq!(sent[0], format!("Notification {} (INFO): disk ok", id));
}

#[test]
fn same_text_other_severity_is_recorded_twice() {
    let mut m = manager();
    m.send_notification(bare(NotificationType::Info, "disk ok"));
    m.send_notification(bare(NotificationType::Warning, "disk ok"));
    let h = m.notifications();
    assert_eq!(h.len(), 2);
    assert_ne!(h[0].id, h[1].id);
    assert_eq!(h[0].notification_type, NotificationType::Info);
    assert_eq!(h[1].notification_type, NotificationType::Warning);
    let ids = (h[0].id.clone(), h[1].id.clone());
    let sent = contents(&mut m);
    assert_eq!(
        sent,
        vec![
            format!("Notification {} (INFO): disk ok", ids.0),
            format!("Notification {} (WARNING): disk ok", ids.1),
        ]
    );
}

#[test]
fn given_ids_give_exact_payloads_in_order() {
    let mut m = manager();
    m.send_notification_with_id(bare(NotificationType::Error, "db down"), "a1".to_string());
    m.send_notification_with_id(bare(NotificationType::Info, "db up"), "b2".to_string());
    m.send_notification_with_id(bare(NotificationType::Error, "db down"), "c3".to_string());
    assert_eq!(m.notifications().len(), 2);
    assert_eq!(
        contents(&mut m),
        vec!["Notification a1 (ERROR): db down".to_string(), "Notification b2 (INFO): db up".to_string()]
    );
    assert_eq!(m.discord().pending(), 0);
    assert_eq!(m.notifications().len(), 2);
}

#[test]
fn repeated_submissions_forward_once() {
    let mut m = manager();
    for i in 0..5 {
        m.send_notification_with_id(bare(NotificationType::Warning, "cpu hot"), format!("id{}", i));
    }
    assert_eq!(m.notifications().len(), 1);
    assert_eq!(m.notifications()[0].id, "id0");
    assert_eq!(contents(&mut m), vec!["Notification id0 (WARNING): cpu hot".to_string()]);
}

#[test]
fn taken_candidate_gets_dashes_appended() {
    let mut m = manager();
    m.send_notification_with_id(bare(NotificationType::Info, "one"), "x".to_string());
    m.send_notification_with_id(bare(NotificationType::Info, "two"), "x".to_string());
    m.send_notification_with_id(bare(NotificationType::Info, "three"), "x".to_string());
    m.send_notification_with_id(bare(NotificationType::Info, "four"), "x-".to_string());
    let ids: Vec<String> = m.notifications().iter().map(|n| n.id.clone()).collect();
    assert_eq!(ids, vec!["x", "x-", "x--", "x---"]);
}

#[test]
fn fingerprint_depends_on_severity_and_text() {
    let mut m = manager();
    m.send_notification_with_id(bare(NotificationType::Info, "disk ok"), "a".to_string());
    m.send_notification_with_id(bare(NotificationType::Warning, "disk ok"), "b".to_string());
    m.send_notification_with_id(bare(NotificationType::Info, "disk full"), "c".to_string());
    let h = m.notifications();
    assert_eq!(h.len(), 3);
    assert_ne!(h[0].hash, h[1].hash);
    assert_ne!(h[0].hash, h[2].hash);
    let mut other = manager();
    other.send_notification_with_id(bare(NotificationType::Info, "disk ok"), "z".to_string());
    assert_eq!(other.notifications()[0].hash, h[0].hash);
}

#[test]
fn random_ids_are_url_safe_and_of_length_21() {
    let mut m = manager();
    m.send_notification(bare(NotificationType::Error, "a"));
    m.send_notification(bare(NotificationType::Error, "b"));
    let h = m.notifications();
    for n in h.iter() {
        assert_eq!(n.id.chars().count(), 21);
        assert!(n.id.chars().all(|c| c.is_ascii_alphanumeric() || c == '_' || c == '-'));
    }
    assert_ne!(h[0].id, h[1].id);
}

#[test]
fn flush_empties_queue_and_later_cycles_work() {
    let mut m = manager();
    m.send_notification_with_id(bare(NotificationType::Info, "first"), "f".to_string());
    let lost = contents(&mut m);
    assert_eq!(lost.len(), 1);
    assert_eq!(m.discord().pending(), 0);
    m.send_notification_with_id(bare(NotificationType::Info, "second"), "s".to_string());
    assert_eq!(contents(&mut m), vec!["Notification s (INFO): second".to_string()]);
    assert_eq!(m.notifications().len(), 2);
    assert_eq!(contents(&mut m), Vec::<String>::new());
}

#[test]
fn empty_webhook_url_is_refused() {
    assert!(matches!(DiscordDispatcher::new(String::new()), Err(DispatchError::MissingWebhookUrl)));
    let d = DiscordDispatcher::new("u".to_string()).unwrap();
    assert_eq!(d.webhook_url(), "u");
    assert_eq!(d.pending(), 0);
}

#[test]
fn labels_and_rendering() {
    assert_eq!(NotificationType::Info.label(), "INFO");
    assert_eq!(NotificationType::Warning.label(), "WARNING");
    assert_eq!(NotificationType::Error.label(), "ERROR");
    let mut m = manager();
    m.send_notification_with_id(bare(NotificationType::Warning, "low space"), "q".to_string());
    assert_eq!(render_payload(&m.notifications()[0]), "Notification q (WARNING): low space");
}
