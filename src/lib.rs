//! Client side of the Streaming Telemetry Transport Protocol (STTP): tick timestamps,
//! compact measurement and signal index cache codecs, and the connection and
//! reconnection state machines of a data subscriber.
use vstd::prelude::*;

mod config;
pub mod guid;
pub mod text;
pub mod ticks;
pub mod transport;
mod version;

pub use crate::config::Config;
pub use crate::guid::Guid;
pub use crate::ticks::{Ticks, UtcDateTime};
pub use crate::version::Version;

verus! {

/// A simplified subscriber for common uses of the protocol; it holds no state yet.
#[derive(Clone, Copy)]
pub struct Subscriber {}

} // verus!
