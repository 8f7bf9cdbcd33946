use znicz_tui::toast::{Level, Toasts, ERROR_LIFETIME_MS, LIFETIME_MS, MAX_KEPT};

#[test]
fn the_newest_message_is_the_one_shown() {
    let mut toasts = Toasts::new();
    toasts.info("first");
    toasts.info("second");
    assert_eq!(toasts.current().unwrap().text, "second");
}

#[test]
fn messages_disappear_once_their_time_is_up() {
    let mut toasts = Toasts::new();
    let now = 0;
    toasts.push("hello".into(), Level::Info, now);

    toasts.tick_at(now + 1000);
    assert!(!toasts.is_empty(), "should still be visible after 1s");

    toasts.tick_at(now + LIFETIME_MS);
    assert!(toasts.is_empty(), "should be gone once the lifetime passes");
}

#[test]
fn errors_outlive_ordinary_messages() {
    let mut toasts = Toasts::new();
    let now = 0;
    toasts.push("broke".into(), Level::Error, now);

    toasts.tick_at(now + LIFETIME_MS + 1);
    assert!(!toasts.is_empty(), "errors need longer to read");

    toasts.tick_at(now + ERROR_LIFETIME_MS);
    assert!(toasts.is_empty());
}

#[test]
fn a_flood_of_messages_does_not_grow_without_bound() {
    let mut toasts = Toasts::new();
    for i in 0..50 {
        toasts.info(&format!("message {i}"));
    }
    assert_eq!(toasts.recent().len(), MAX_KEPT);
    assert_eq!(toasts.current().unwrap().text, "message 49");
}

#[test]
fn only_three_messages_are_visible() {
    let mut toasts = Toasts::new();
    toasts.warn("a");
    toasts.error("b");
    toasts.success("c");
    toasts.info("d");
    let shown = toasts.visible();
    assert_eq!(shown.len(), 3);
    assert_eq!(shown[0].text, "d");
    assert_eq!(shown[1].level, Level::Success);
    assert_eq!(shown[2].level, Level::Error);
}

#[test]
fn a_clock_reading_before_the_message_keeps_it() {
    let mut toasts = Toasts::new();
    toasts.push("late".into(), Level::Warn, 5000);
    toasts.tick_at(100);
    assert!(!toasts.is_empty());
    toasts.tick_at(9000);
    assert!(toasts.is_empty());
}

#[test]
fn a_tick_keeps_what_each_level_allows() {
    let mut toasts = Toasts::new();
    toasts.push("saved".to_string(), Level::Success, 0);
    toasts.push("player error: no device".to_string(), Level::Error, 0);
    toasts.push("queue is empty".to_string(), Level::Warn, 1000);
    for t in toasts.recent() {
        let expected = if t.level == Level::Error { 8000 } else { 4000 };
        assert_eq!(t.lifetime, expected);
    }
    toasts.tick_at(4500);
    let left: Vec<&str> = toasts.recent().iter().map(|t| t.text.as_str()).collect();
    assert_eq!(left, vec!["queue is empty", "player error: no device"]);
    toasts.tick_at(8000);
    assert!(toasts.is_empty());
}
