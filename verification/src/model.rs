//! The booking list as a mathematical sequence, and what each intent makes
//! of it.
//!
//! Positions are arbitrary integers here. A position below zero or at or
//! beyond the length names no row, and every transition is defined on it.

use vstd::prelude::*;
use crate::booking::BookingView;

verus! {

/// A discrete request raised by the user against the list.
#[derive(Debug, Clone, Copy, PartialEq, Eq)]
pub enum Msg {
    /// Open the row at this position for editing, or close it again.
    SaveOrEdit(usize),
    /// Remove the row at this position.
    Delete(usize),
    /// Begin a new booking.
    Book,
}

/// What an intent leaves behind: the list after it, and whether anything
/// visible changed.
pub struct Outcome {
    pub bookings: Seq<BookingView>,
    pub changed: bool,
}

/// Whether `index` names a row of `list`.
pub open spec fn names_row(list: Seq<BookingView>, index: int) -> bool {
    0 <= index < list.len()
}

/// The same record with its editing flag flipped.
pub open spec fn flip_editing(b: BookingView) -> BookingView {
    BookingView { editing: !b.editing, ..b }
}

/// Toggle between viewing and editing at `index`.
pub open spec fn toggle_edit_or_save(list: Seq<BookingView>, index: int) -> Outcome {
    if names_row(list, index) {
        Outcome { bookings: list.update(index, flip_editing(list[index])), changed: true }
    } else {
        Outcome { bookings: list, changed: false }
    }
}

/// Remove the row at `index`.
pub open spec fn delete(list: Seq<BookingView>, index: int) -> Outcome {
    if names_row(list, index) {
        Outcome { bookings: list.remove(index), changed: true }
    } else {
        Outcome { bookings: list, changed: false }
    }
}

/// Begin a new booking: the table is to be drawn again, the list stays.
pub open spec fn begin_new_booking(list: Seq<BookingView>) -> Outcome {
    Outcome { bookings: list, changed: true }
}

/// The transition for any intent.
pub open spec fn update(list: Seq<BookingView>, msg: Msg) -> Outcome {
    match msg {
        Msg::SaveOrEdit(index) => toggle_edit_or_save(list, index as int),
        Msg::Delete(index) => delete(list, index as int),
        Msg::Book => begin_new_booking(list),
    }
}

} // verus!
