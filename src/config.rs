use vstd::prelude::*;

verus! {

/// Connection settings of a subscriber.
#[derive(Clone, Debug)]
pub struct Config {
    /// Maximum number of connection retries; -1 retries without end.
    pub max_retries: i32,
    /// Base retry interval in milliseconds; retries back off exponentially from it.
    pub retry_interval: i32,
    /// Maximum retry interval in milliseconds.
    pub max_retry_interval: i32,
    /// Whether lost connections are reattempted automatically.
    pub auto_reconnect: bool,
    /// Whether metadata is requested upon connecting, before subscribing.
    pub auto_request_metadata: bool,
    /// Whether to subscribe upon connecting (after metadata, where that is requested).
    pub auto_subscribe: bool,
    /// Whether payload data is compressed.
    pub compress_payload_data: bool,
    /// Whether metadata is compressed.
    pub compress_metadata: bool,
    /// Whether the signal index cache is compressed.
    pub compress_signal_index_cache: bool,
    /// Filters applied to incoming metadata, separated by semicolons.
    pub metadata_filters: String,
    /// Target protocol version.
    pub version: u8,
}

impl Default for Config {
    fn default() -> (r: Self)
        ensures
            r.max_retries == -1,
            r.retry_interval == 1000,
            r.max_retry_interval == 30_000,
            r.auto_reconnect,
            r.auto_request_metadata,
            r.auto_subscribe,
            r.compress_payload_data,
            r.compress_metadata,
            r.compress_signal_index_cache,
            r.metadata_filters@ == Seq::<char>::empty(),
            r.version == 2,
    {
        Config {
            max_retries: -1,
            retry_interval: 1000,
            max_retry_interval: 30_000,
            auto_reconnect: true,
            auto_request_metadata: true,
            auto_subscribe: true,
            compress_payload_data: true,
            compress_metadata: true,
            compress_signal_index_cache: true,
            metadata_filters: String::new(),
            version: 2,
        }
    }
}

} // verus!
