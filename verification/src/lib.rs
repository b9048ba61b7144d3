//! Host/guest operation bus: a shared binary record queue, a resource table
//! handing out opaque integer handles, an op dispatcher with sync and async
//! replies, a single-slot global timer, and the op handlers' decision logic.

pub mod compilers;
pub mod dispatch;
pub mod errors;
pub mod fetch;
pub mod io;
pub mod permissions;
pub mod process;
pub mod random;
pub mod resources;
pub mod shared_queue;
pub mod signal;
pub mod source_maps;
pub mod timers;
