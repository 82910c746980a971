//! A small desktop shell around Chrome's remote-debugging protocol.
//!
//! The library holds the logic of the application: the state record the
//! window works on, how results coming back from background tasks are folded
//! into that state, the launch and connect policies for reaching a browser
//! over the DevTools protocol, and the per-OS computation of the default
//! Chrome profile directory. Rendering, the async runtime, and the file
//! dialogs sit outside the library and call into it with plain values.

pub mod adapter;
pub mod channel;
pub mod connect;
pub mod paths;
pub mod state;
