use booking_store::{Booking, BookingStore, Msg};

fn row(who: &str, editing: bool) -> Booking {
    Booking {
        begin: 0,
        end: 3_600_000,
        who: who.to_string(),
        server: "Martha".to_string(),
        editing,
    }
}

#[test]
fn two_rows_toggle_then_delete_then_stale_delete() {
    let mut store = BookingStore::from_bookings(vec![row("A", false), row("B", false)]);

    assert!(store.toggle_edit_or_save(0));
    assert_eq!(store.bookings(), &vec![row("A", true), row("B", false)]);

    assert!(store.delete(0));
    assert_eq!(store.bookings(), &vec![row("B", false)]);

    assert!(!store.delete(5));
    assert_eq!(store.bookings(), &vec![row("B", false)]);
}

#[test]
fn two_rows_same_steps_as_intents() {
    let mut store = BookingStore::from_bookings(vec![row("A", false), row("B", false)]);

    assert!(store.update(Msg::SaveOrEdit(0)));
    assert_eq!(store.bookings(), &vec![row("A", true), row("B", false)]);

    assert!(store.update(Msg::Delete(0)));
    assert_eq!(store.bookings(), &vec![row("B", false)]);

    assert!(!store.update(Msg::Delete(5)));
    assert_eq!(store.bookings(), &vec![row("B", false)]);
}

#[test]
fn empty_list_absorbs_delete_and_toggle() {
    let mut store = BookingStore::new();

    assert!(!store.delete(0));
    assert!(store.bookings().is_empty());

    assert!(!store.toggle_edit_or_save(0));
    assert!(store.bookings().is_empty());

    let mut given_empty = BookingStore::from_bookings(Vec::new());
    assert!(!given_empty.update(Msg::Delete(0)));
    assert!(!given_empty.update(Msg::SaveOrEdit(0)));
    assert_eq!(given_empty.len(), 0);
}

#[test]
fn delete_middle_then_toggle_reaches_the_former_third_row() {
    let mut store =
        BookingStore::from_bookings(vec![row("A", false), row("B", false), row("C", false)]);

    assert!(store.delete(1));
    assert_eq!(store.bookings(), &vec![row("A", false), row("C", false)]);

    assert!(store.toggle_edit_or_save(1));
    assert_eq!(store.bookings(), &vec![row("A", false), row("C", true)]);

    assert!(!store.toggle_edit_or_save(2));
    assert_eq!(store.bookings(), &vec![row("A", false), row("C", true)]);
}

#[test]
fn seeded_list_walks_through_edit_save_and_delete() {
    let mut store = BookingStore::seeded(1_000);
    assert!(store.update(Msg::SaveOrEdit(1)));
    assert!(!store.bookings()[0].editing);
    assert!(store.bookings()[1].editing);
    assert!(store.update(Msg::SaveOrEdit(1)));
    assert!(!store.bookings()[1].editing);
    assert!(store.update(Msg::Delete(0)));
    assert_eq!(store.len(), 1);
    assert_eq!(store.bookings()[0].who, "Dimitrios");
    assert_eq!(store.bookings()[0].server, "Rose");
    assert_eq!(store.bookings()[0].begin, 1_000);
    assert_eq!(store.bookings()[0].end, 3_601_000);
}
