//! Building blocks that the parts of the server share.

pub mod thread_handler;
