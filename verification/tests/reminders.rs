use cyberbun::reminders::{
    build_reminder, reminder_offset_seconds, NewReminder, ReminderLedger,
};

fn sample(timestamp: u64, text: &str) -> NewReminder {
    NewReminder {
        timestamp,
        message: String::from(text),
        user_id: 11,
        channel_id: 22,
        private: false,
    }
}

#[test]
fn immediate_reminder_round_trip() {
    let now: u64 = 1_000;
    let mut ledger = ReminderLedger::new();
    let id = ledger.new_reminder(sample(now, "water the plants"));

    // one tick: the reminder is handed out exactly once
    let due = ledger.get_expired_reminders(now);
    assert_eq!(due.len(), 1);
    assert_eq!(due[0].id, id);
    assert_eq!(due[0].message, "water the plants");
    assert_eq!(due[0].user_id, 11);
    assert_eq!(due[0].channel_id, 22);

    // delivery succeeded: the row is completed
    ledger.record_delivery(id, true);

    // a second tick performs no further action on that row
    let again = ledger.get_expired_reminders(now + 30);
    assert!(again.is_empty());
}

#[test]
fn failed_delivery_is_retried_next_tick() {
    let now: u64 = 1_000;
    let mut ledger = ReminderLedger::new();
    let id = ledger.new_reminder(sample(now, "call back"));

    let due = ledger.get_expired_reminders(now);
    assert_eq!(due.len(), 1);

    // the send failed: the row stays pending, nothing is lost
    ledger.record_delivery(id, false);

    let retried = ledger.get_expired_reminders(now + 30);
    assert_eq!(retried.len(), 1);
    assert_eq!(retried[0].id, id);
    assert_eq!(retried[0].message, "call back");
}

#[test]
fn future_reminders_are_not_due() {
    let now: u64 = 1_000;
    let mut ledger = ReminderLedger::new();
    ledger.new_reminder(sample(now + 60, "later"));
    assert!(ledger.get_expired_reminders(now).is_empty());
    assert_eq!(ledger.get_expired_reminders(now + 60).len(), 1);
}

#[test]
fn each_reminder_is_independent() {
    let now: u64 = 500;
    let mut ledger = ReminderLedger::new();
    let a = ledger.new_reminder(sample(now, "first"));
    let b = ledger.new_reminder(sample(now, "second"));
    assert_ne!(a, b);

    let due = ledger.get_expired_reminders(now);
    assert_eq!(due.len(), 2);

    ledger.record_delivery(a, true);
    let due = ledger.get_expired_reminders(now);
    assert_eq!(due.len(), 1);
    assert_eq!(due[0].id, b);
}

#[test]
fn offset_formula() {
    assert_eq!(reminder_offset_seconds(0, 0, 0), 0);
    assert_eq!(reminder_offset_seconds(1, 2, 3), 86_400 + 2 * 3_600 + 3 * 60);
    assert_eq!(
        reminder_offset_seconds(u32::MAX, u32::MAX, u32::MAX),
        u32::MAX as u64 * 86_400 + u32::MAX as u64 * 3_600 + u32::MAX as u64 * 60
    );
}

#[test]
fn built_reminder_fires_after_the_delay() {
    let r = build_reminder(1_000, 0, 1, 30, String::from("standup"), 7, 8);
    assert_eq!(r.timestamp, 1_000 + 3_600 + 30 * 60);
    assert_eq!(r.message, "standup");
    assert_eq!(r.user_id, 7);
    assert_eq!(r.channel_id, 8);
    assert!(!r.private);
}
