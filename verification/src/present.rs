//! What a row shows for a record, as plain values: the style classes of the
//! row and of its input fields, whether the fields are read-only, and the
//! caption of the button that opens or closes the row.
//!
//! The editing flag decides all of them for the whole record at once.

use vstd::prelude::*;
use crate::booking::Booking;

verus! {

/// The style classes of a row, separated by a blank.
pub open spec fn row_class_of(editing: bool) -> Seq<char> {
    if editing {
        "booking editing"@
    } else {
        "booking"@
    }
}

/// The style class of each input field of a row.
pub open spec fn input_class_of(editing: bool) -> Seq<char> {
    if editing {
        "form-control"@
    } else {
        "form-control-plaintext"@
    }
}

/// The caption of the button that toggles a row.
pub open spec fn action_label_of(editing: bool) -> Seq<char> {
    if editing {
        "Save"@
    } else {
        "Edit"@
    }
}

/// The style classes of the row that shows `entry`: always `booking`, and
/// `editing` beside it while the record is open for editing.
pub fn row_class(entry: &Booking) -> (class: &'static str)
    ensures
        class@ == row_class_of(entry.editing),
{
    if entry.editing {
        "booking editing"
    } else {
        "booking"
    }
}

/// The style class of every input field of the row that shows `entry`.
pub fn input_class(entry: &Booking) -> (class: &'static str)
    ensures
        class@ == input_class_of(entry.editing),
{
    if entry.editing {
        "form-control"
    } else {
        "form-control-plaintext"
    }
}

/// Whether the input fields of the row that shows `entry` are read-only:
/// all of them are unless the record is open for editing.
pub fn input_read_only(entry: &Booking) -> (read_only: bool)
    ensures
        read_only == !entry.editing,
{
    !entry.editing
}

/// The caption of the button that toggles the row that shows `entry`.
pub fn action_label(entry: &Booking) -> (label: &'static str)
    ensures
        label@ == action_label_of(entry.editing),
{
    if entry.editing {
        "Save"
    } else {
        "Edit"
    }
}

} // verus!
