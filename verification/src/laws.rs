//! What holds of the transitions in [`crate::model`], for every list and
//! every position.

use vstd::prelude::*;
use crate::booking::BookingView;
use crate::model::{delete, names_row, toggle_edit_or_save};

verus! {

/// Toggling at a position that names a row reports a change, flips the
/// editing flag of that row, and leaves its other fields, every other row
/// and the length of the list as they were.
pub proof fn toggle_flips_only_the_named_row(list: Seq<BookingView>, index: int)
    requires
        names_row(list, index),
    ensures
        toggle_edit_or_save(list, index).changed,
        toggle_edit_or_save(list, index).bookings.len() == list.len(),
        toggle_edit_or_save(list, index).bookings[index].editing == !list[index].editing,
        toggle_edit_or_save(list, index).bookings[index].begin == list[index].begin,
        toggle_edit_or_save(list, index).bookings[index].end == list[index].end,
        toggle_edit_or_save(list, index).bookings[index].who == list[index].who,
        toggle_edit_or_save(list, index).bookings[index].server == list[index].server,
        forall|j: int|
            0 <= j < list.len() && j != index
                ==> #[trigger] toggle_edit_or_save(list, index).bookings[j] == list[j],
{
}

/// At a position that names no row, below zero as well as at or beyond the
/// length, neither toggling nor deleting touches the list, and both report
/// that nothing changed.
pub proof fn position_without_row_changes_nothing(list: Seq<BookingView>, index: int)
    requires
        index < 0 || index >= list.len(),
    ensures
        toggle_edit_or_save(list, index).bookings == list,
        !toggle_edit_or_save(list, index).changed,
        delete(list, index).bookings == list,
        !delete(list, index).changed,
{
}

/// Deleting at a position that names a row reports a change and shortens the
/// list by one. The rows before the position stay where they were, the rows
/// after it move up by one in the same order, and the named row is the one
/// that is gone.
pub proof fn delete_removes_only_the_named_row(list: Seq<BookingView>, index: int)
    requires
        names_row(list, index),
    ensures
        delete(list, index).changed,
        delete(list, index).bookings.len() == list.len() - 1,
        forall|j: int| 0 <= j < index ==> #[trigger] delete(list, index).bookings[j] == list[j],
        forall|j: int|
            index <= j < list.len() - 1
                ==> #[trigger] delete(list, index).bookings[j] == list[j + 1],
        list == delete(list, index).bookings.insert(index, list[index]),
{
}

/// Toggling twice in succession at the same position gives back the list it
/// started from; where the position names a row, that row's editing flag is
/// flipped in between.
pub proof fn toggle_twice_restores(list: Seq<BookingView>, index: int)
    ensures
        toggle_edit_or_save(toggle_edit_or_save(list, index).bookings, index).bookings == list,
        names_row(list, index) ==> toggle_edit_or_save(list, index).bookings[index].editing
            != list[index].editing,
        names_row(list, index) ==> toggle_edit_or_save(
            toggle_edit_or_save(list, index).bookings,
            index,
        ).bookings[index].editing == list[index].editing,
{
}

/// After a row is deleted, the position it had names the row that came
/// after it: toggling there flips the editing flag of that later row.
pub proof fn toggle_after_delete_reaches_the_next_row(list: Seq<BookingView>, index: int)
    requires
        names_row(list, index),
        names_row(list, index + 1),
    ensures
        toggle_edit_or_save(delete(list, index).bookings, index).changed,
        toggle_edit_or_save(delete(list, index).bookings, index).bookings[index]
            == crate::model::flip_editing(list[index + 1]),
{
}

} // verus!
