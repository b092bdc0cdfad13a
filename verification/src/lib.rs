//! A booking table: an ordered list of reservation records together with the
//! three intents a user can raise against it (open or close a row for
//! editing, delete a row, begin a new booking).
//!
//! Every operation is total over its index argument: a position that does not
//! name a row leaves the list as it is and reports that nothing changed.

pub mod booking;
pub mod laws;
pub mod model;
pub mod present;
pub mod store;

pub use booking::{Booking, BookingView};
pub use model::Msg;
pub use store::BookingStore;
