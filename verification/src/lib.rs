//! A capability bridge: a fixed, name-addressed table of host-implemented
//! operations exposed to sandboxed guest code through a restricted,
//! file-like stream interface.
//!
//! A guest opens a capability by name, writes a request payload, and reads
//! back a response payload. The host enforces per-capability read/write
//! permissions, threads each capability's state through its processor, and
//! rejects every structural mutation of the namespace.

pub mod decimal;
pub mod error;
pub mod handler;
pub mod laws;
pub mod map;
pub mod plugin;
pub mod processors;
pub mod stat;
pub mod stream;

pub use error::BridgeError;
pub use error::RegisterError;
pub use handler::Handler;
pub use handler::Mode;
pub use handler::ReadWrite;
pub use map::HandlerMap;
pub use stat::FileKind;
pub use stat::Filestat;
pub use stream::StreamHandle;
