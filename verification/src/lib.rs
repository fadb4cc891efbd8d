//! Linux tap interfaces: how one is named, how the specs that ask for one are
//! parsed, and which system calls open one.
//!
//! The library makes no system call itself. Each operation says which call is
//! to be made and with which arguments, and a second function takes what came
//! back and says what follows from it.

pub mod error;
pub mod ifreq;
pub mod ioctl;
pub mod laws;
pub mod open_spec;
pub mod operations;
pub mod syscall;
pub mod tap;
pub mod text;

pub use crate::error::TapError;
pub use crate::ifreq::{IfReq, IfReqBuilder};
pub use crate::open_spec::{parse_tap_open_spec, TapOpenSpec};
pub use crate::syscall::{Reply, Syscall};
pub use crate::tap::{Pending, Step, Tap};
