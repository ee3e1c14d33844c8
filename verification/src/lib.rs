//! Core of a TLS-terminating reverse proxy: the connection slab, the
//! per-record spinlock, the stream variant, the worker message bus and the
//! event-loop bookkeeping (token heap and workload table).
//!
//! All OS-level I/O (polling, accepting, connecting, TLS record work) happens
//! outside this crate; the functions here take the outcome of each such call
//! as a plain value and make every decision the event loop and the workers
//! need, under contracts.

pub mod config;
pub mod conn;
pub mod eventloop;
pub mod ipc;
pub mod lock;
pub mod slab;
pub mod token;
pub mod workerid;
