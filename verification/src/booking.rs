//! One reservation record and its mathematical view.

use vstd::prelude::*;

verus! {

/// What a [`Booking`] is to the contracts of this crate: two instants in
/// milliseconds since the Unix epoch, two names as sequences of characters,
/// and the flag that tells whether the row is open for editing.
pub struct BookingView {
    pub begin: int,
    pub end: int,
    pub who: Seq<char>,
    pub server: Seq<char>,
    pub editing: bool,
}

/// One reservation.
///
/// `begin` and `end` are instants in milliseconds since the Unix epoch. The
/// `editing` flag opens or closes the whole record for editing; there is no
/// per-field state.
#[derive(Debug, PartialEq, Eq)]
pub struct Booking {
    pub begin: i64,
    pub end: i64,
    pub who: String,
    pub server: String,
    pub editing: bool,
}

impl View for Booking {
    type V = BookingView;

    open spec fn view(&self) -> BookingView {
        BookingView {
            begin: self.begin as int,
            end: self.end as int,
            who: self.who@,
            server: self.server@,
            editing: self.editing,
        }
    }
}

/// The views of a list of records, position by position.
pub open spec fn views_of(list: Seq<Booking>) -> Seq<BookingView> {
    list.map_values(|b: Booking| b@)
}

} // verus!
