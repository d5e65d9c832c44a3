use forecast_watch::config::{Config, POLL_INTERVAL_SECS};
use forecast_watch::error::ErrorKind;
use forecast_watch::slot::{setup, SlotName, SlotWrite};

fn write(slot: SlotName, text: &str) -> SlotWrite {
    SlotWrite { slot, text: text.to_string() }
}

#[test]
fn setup_creates_both_missing_slots_full_first() {
    let full = String::from("Summit winds 70mph, visibility poor.");
    let abbreviated = String::from("Mon: windy. Tue: clear.");
    assert_eq!(
        setup(&full, &abbreviated, false, false),
        vec![
            write(SlotName::Full, "Summit winds 70mph, visibility poor."),
            write(SlotName::Abbreviated, "Mon: windy. Tue: clear."),
        ]
    );
}

#[test]
fn setup_leaves_existing_slots_alone() {
    let full = String::from("F");
    let abbreviated = String::from("A");
    assert_eq!(setup(&full, &abbreviated, true, true), Vec::<SlotWrite>::new());
}

#[test]
fn setup_creates_only_the_missing_slot() {
    let full = String::from("F");
    let abbreviated = String::from("A");
    assert_eq!(setup(&full, &abbreviated, true, false), vec![write(SlotName::Abbreviated, "A")]);
    assert_eq!(setup(&full, &abbreviated, false, true), vec![write(SlotName::Full, "F")]);
}

#[test]
fn setup_writes_empty_texts_too() {
    let empty = String::new();
    assert_eq!(
        setup(&empty, &empty, false, false),
        vec![write(SlotName::Full, ""), write(SlotName::Abbreviated, "")]
    );
}

#[test]
fn default_config_polls_every_minute_without_notifications() {
    let config = Config::default();
    assert_eq!(config.poll_interval_secs(), 60);
    assert_eq!(config.chunk_max_length(), 160);
    assert!(!config.notifies());
    assert_eq!(config.notification_endpoint(), None);
    assert_eq!(POLL_INTERVAL_SECS, 60);
}

#[test]
fn enabled_notifications_need_an_endpoint() {
    match Config::new(60, 160, true, None) {
        Err(kind) => assert_eq!(kind, ErrorKind::Configuration),
        Ok(_) => panic!("a configuration without endpoint was accepted"),
    }
}

#[test]
fn enabled_notifications_keep_the_endpoint() {
    let config = Config::new(30, 100, true, Some("https://example.org/reply".to_string()))
        .ok()
        .unwrap();
    assert!(config.notifies());
    assert_eq!(config.notification_endpoint(), Some("https://example.org/reply".to_string()));
    assert_eq!(config.poll_interval_secs(), 30);
    assert_eq!(config.chunk_max_length(), 100);
}

#[test]
fn disabled_notifications_need_no_endpoint() {
    let config = Config::new(60, 160, false, None).ok().unwrap();
    assert!(!config.notifies());
    let config = Config::new(60, 160, false, Some("https://example.org/reply".to_string()))
        .ok()
        .unwrap();
    assert!(!config.notifies());
    assert_eq!(config.notification_endpoint(), None);
}

#[test]
fn every_error_kind_has_its_diagnostic() {
    assert_eq!(ErrorKind::Retrieval.diagnostic(), "could not fetch the forecast");
    assert_eq!(ErrorKind::StorageRead.diagnostic(), "could not read the stored forecast");
    assert_eq!(ErrorKind::StorageWrite.diagnostic(), "could not write the forecast");
    assert_eq!(
        ErrorKind::Configuration.diagnostic(),
        "the notification endpoint is not configured"
    );
}
