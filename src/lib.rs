//! Support-ticket workflow: ticket records, their storage rows, the posting
//! state machine, interaction routing and the intake form.
pub mod interaction;
pub mod modal;
pub mod poster;
pub mod retry;
pub mod store;
pub mod ticket;
