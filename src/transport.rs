//! Transport layer: protocol constants, quality flags, the signal index cache, the
//! compact measurement codec, and the subscriber's connection state machines.
pub mod compact_measurement;
pub mod constants;
pub mod data_subscriber;
pub mod signal_index_cache;
pub mod state_flags;
pub mod subscriber_connector;
pub mod subscription_info;
pub mod wire;

pub use crate::transport::compact_measurement::CompactMeasurement;
pub use crate::transport::constants::{
    DataPacketFlags, Defaults, OperationalEncoding, OperationalModes, SecurityMode, ServerCommand,
    ServerResponse,
};
pub use crate::transport::data_subscriber::{
    ConnectionState, DataSubscriber, ResponseEnvelope, SubscriberError,
};
pub use crate::transport::signal_index_cache::SignalIndexCache;
pub use crate::transport::state_flags::{CompactStateFlags, StateFlags};
pub use crate::transport::subscriber_connector::{
    ConnectStatus, ReconnectPhase, ReconnectStep, SubscriberConnector,
};
pub use crate::transport::subscription_info::SubscriptionInfo;
pub use crate::transport::wire::DecodeError;
