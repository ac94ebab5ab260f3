use cyberbun::colors::ColorStore;
use cyberbun::starred::StarredMessages;

#[test]
fn created_role_is_found_again() {
    let mut store = ColorStore::new();
    store.create_color_role(900, 7, 1, 0xa0b0c0, String::from("seven"));

    let row = store.get_color(7, 1).unwrap();
    assert_eq!(row.role_id, 900);
    assert_eq!(row.color, 0xa0b0c0);
    assert_eq!(row.role_name, "seven");

    assert!(store.get_color(7, 2).is_none());
    assert!(store.get_color(8, 1).is_none());
}

#[test]
fn repainting_changes_only_the_color() {
    let mut store = ColorStore::new();
    store.create_color_role(900, 7, 1, 0x111111, String::from("seven"));
    store.create_color_role(901, 8, 1, 0x222222, String::from("eight"));

    store.update_color_role(900, 0x333333);

    let row = store.get_color(7, 1).unwrap();
    assert_eq!(row.color, 0x333333);
    assert_eq!(row.role_name, "seven");
    assert_eq!(store.get_color(8, 1).unwrap().color, 0x222222);
}

#[test]
fn repainting_a_missing_role_changes_nothing() {
    let mut store = ColorStore::new();
    store.create_color_role(900, 7, 1, 0x111111, String::from("seven"));
    store.update_color_role(999, 0x333333);
    assert_eq!(store.get_color(7, 1).unwrap().color, 0x111111);
}

#[test]
fn ledger_membership_only_grows() {
    let mut ledger = StarredMessages::new();
    assert!(!ledger.message_exists(5));
    assert!(ledger.insert_message(5));
    assert!(ledger.message_exists(5));
    // a second insert reports the message as already recorded
    assert!(!ledger.insert_message(5));
    assert!(ledger.message_exists(5));
    assert!(!ledger.message_exists(6));
}
