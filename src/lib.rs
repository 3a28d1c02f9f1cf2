//! Commands that a desktop front end invokes on its application window.
//!
//! `greet` answers with a greeting. The window commands are driven as small
//! state machines: an [`Invocation`] says which primitive window call the host
//! runtime must make next, takes the host's answer, and finally yields the
//! command's outcome, with any host failure carried through as its message.
pub mod greeting;
pub mod laws;
pub mod window;

pub use greeting::greet;
pub use window::{Invocation, Next, WindowCall, WindowCommand};
