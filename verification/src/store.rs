//! The store that owns the booking list and applies intents to it.

use vstd::prelude::*;
use crate::booking::{views_of, Booking, BookingView};
use crate::model;
use crate::model::Msg;

verus! {

/// Milliseconds in one hour: how long each example booking lasts.
pub const HOUR_MS: i64 = 3_600_000;

/// The two example bookings that a demonstration starts from: both begin at
/// `now` and end one hour later, and neither is open for editing.
pub open spec fn example_bookings(now: int) -> Seq<BookingView> {
    seq![
        BookingView {
            begin: now,
            end: now + HOUR_MS,
            who: "Dimitria"@,
            server: "Martha"@,
            editing: false,
        },
        BookingView {
            begin: now,
            end: now + HOUR_MS,
            who: "Dimitrios"@,
            server: "Rose"@,
            editing: false,
        },
    ]
}

/// The booking list and its sole owner. Rows keep the order in which they
/// were put in; nothing re-sorts them.
pub struct BookingStore {
    bookings: Vec<Booking>,
}

impl View for BookingStore {
    type V = Seq<BookingView>;

    closed spec fn view(&self) -> Seq<BookingView> {
        views_of(self.bookings@)
    }
}

impl BookingStore {
    /// A store with no rows.
    pub fn new() -> (store: Self)
        ensures
            store@ == Seq::<BookingView>::empty(),
    {
        BookingStore { bookings: Vec::new() }
    }

    /// A store that starts from the two example bookings, for `now` in
    /// milliseconds since the Unix epoch.
    pub fn seeded(now: i64) -> (store: Self)
        requires
            now + HOUR_MS <= i64::MAX,
        ensures
            store@ == example_bookings(now as int),
    {
        let later: i64 = now + HOUR_MS;
        let bookings = vec![
            Booking {
                begin: now,
                end: later,
                who: "Dimitria".to_owned(),
                server: "Martha".to_owned(),
                editing: false,
            },
            Booking {
                begin: now,
                end: later,
                who: "Dimitrios".to_owned(),
                server: "Rose".to_owned(),
                editing: false,
            },
        ];
        BookingStore { bookings }
    }

    /// A store over the given rows, in the given order.
    pub fn from_bookings(bookings: Vec<Booking>) -> (store: Self)
        ensures
            store@ == views_of(bookings@),
    {
        BookingStore { bookings }
    }

    /// The rows in presentation order. The position of a row in this list is
    /// the index by which an intent names it until the next change.
    pub fn bookings(&self) -> (rows: &Vec<Booking>)
        ensures
            views_of(rows@) == self@,
    {
        &self.bookings
    }

    /// How many rows the list holds.
    pub fn len(&self) -> (n: usize)
        ensures
            n == self@.len(),
    {
        self.bookings.len()
    }

    /// Flip the editing flag of the row at `index`. An index that names no
    /// row changes nothing. Returns whether anything changed.
    pub fn toggle_edit_or_save(&mut self, index: usize) -> (changed: bool)
        ensures
            changed == (index < old(self)@.len()),
            final(self)@ == model::toggle_edit_or_save(old(self)@, index as int).bookings,
            changed == model::toggle_edit_or_save(old(self)@, index as int).changed,
    {
        if index < self.bookings.len() {
            let editing = self.bookings[index].editing;
            self.bookings[index].editing = !editing;
            true
        } else {
            false
        }
    }

    /// Remove the row at `index`; later rows move up by one. An index that
    /// names no row changes nothing. Returns whether anything changed.
    pub fn delete(&mut self, index: usize) -> (changed: bool)
        ensures
            changed == (index < old(self)@.len()),
            final(self)@ == model::delete(old(self)@, index as int).bookings,
            changed == model::delete(old(self)@, index as int).changed,
    {
        if index < self.bookings.len() {
            self.bookings.remove(index);
            true
        } else {
            false
        }
    }

    /// Begin a new booking. The list is left as it is; the result asks for
    /// the table to be drawn again.
    pub fn begin_new_booking(&mut self) -> (changed: bool)
        ensures
            final(self)@ == model::begin_new_booking(old(self)@).bookings,
            changed == model::begin_new_booking(old(self)@).changed,
    {
        true
    }

    /// Apply one intent. Returns whether the table has to be drawn again.
    pub fn update(&mut self, msg: Msg) -> (changed: bool)
        ensures
            final(self)@ == model::update(old(self)@, msg).bookings,
            changed == model::update(old(self)@, msg).changed,
    {
        match msg {
            Msg::SaveOrEdit(index) => self.toggle_edit_or_save(index),
            Msg::Delete(index) => self.delete(index),
            Msg::Book => self.begin_new_booking(),
        }
    }
}

} // verus!
