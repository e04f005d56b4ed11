//! Single-instance IPC: open requests, the messages between instances, and the
//! choice of the window that receives them.
pub mod protocol;
pub mod queue;
pub mod window_selection;
