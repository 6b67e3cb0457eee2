//! Host-side management of background workers: the table of live workers,
//! the decisions of the thread that launches a worker, the message protocol
//! of a worker's handle, and the outward shape of the events a worker reports.

pub mod channel;
pub mod event;
pub mod host;
pub mod launcher;
pub mod table;
pub mod text;
