//! Client-side core of a real-time chat: the wire codec and the session
//! state machine that folds server events into the online-user list and the
//! message history.

pub mod codec;
pub mod session;
