//! A verified model of a click-counter built on the message-channel/reducer
//! pattern: UI clicks become `Increment`/`Decrement` messages on a bounded
//! FIFO queue, and a single reducer drains the queue, updates an owned
//! counter, and renders a display string after each transition.

pub mod channel;
pub mod msg;
pub mod reducer;
pub mod render;
