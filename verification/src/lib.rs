//! The command bridge of a desktop application: the three commands that a
//! web-rendered front end may invoke on the host shell, as decisions.
//!
//! A command never touches the shell itself. It names the call that the shell
//! is to make, takes the shell's reply, and either names the next call or
//! gives the command's result. Whoever holds the window performs the calls.

pub mod error;
pub mod request;
pub mod shell;
pub mod bridge;
pub mod course;
pub mod window;
