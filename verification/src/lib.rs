//! A small asynchronous program, modelled as a lazy task that greets,
//! connects to a server, and reports the connection, together with the
//! `Future` trait that such computations implement.
pub mod future;
pub mod task;
pub mod laws;
