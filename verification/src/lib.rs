//! Kernel-mode networking over the Winsock Kernel (WSK) interface.
//!
//! The library holds what a Windows driver decides when it registers with
//! the WSK provider, creates, connects, uses and closes connection sockets,
//! and receives a stream: each operation is a state machine that takes the
//! answers of the kernel calls it asks for and says what to do next. It also
//! models the I/O request packet and its completion routine, reads an HTTP
//! response head to tell when a response is complete, and picks the kernel
//! directory of the installed Windows Kits.
use vstd::prelude::*;

pub mod driver;
pub mod http;
pub mod irp;
pub mod kits;
pub mod mdl;
pub mod receive;
pub mod socket;
pub mod status;
pub mod winsock;
