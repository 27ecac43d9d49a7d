//! Userland IPC transport: sessions, command contexts, buffer descriptors and
//! the two wire encodings, with the data layouts of the services built on them.

pub mod gpu;
pub mod ipc;
pub mod rc;
pub mod result;
pub mod service;
pub mod svc;
pub mod thread;
pub mod util;
pub mod vmem;
