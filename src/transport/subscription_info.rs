use crate::transport::constants::Defaults;
use vstd::prelude::*;

verus! {

/// Settings of a subscription to a publisher's data stream. Publish interval, lag
/// time and lead time count microseconds.
#[derive(Clone, Debug)]
pub struct SubscriptionInfo {
    /// Filter expression that selects the measurements to subscribe to.
    pub filter_expression: String,
    /// Whether the data stream is throttled to the publish interval.
    pub throttled: bool,
    /// Interval between publications of a throttled stream, in microseconds.
    pub publish_interval: i64,
    /// Whether data arrives over a separate UDP channel.
    pub udp_data_channel: bool,
    /// Local port of the UDP data channel.
    pub data_channel_local_port: u16,
    /// Local interface of the UDP data channel.
    pub data_channel_interface: String,
    /// Whether measurements carry timestamps.
    pub include_time: bool,
    /// Whether the publisher checks timestamps against lag and lead time.
    pub enable_time_reasonability_check: bool,
    /// Allowed past deviation of timestamps, in microseconds.
    pub lag_time: i64,
    /// Allowed future deviation of timestamps, in microseconds.
    pub lead_time: i64,
    /// Whether the publisher's local clock is real time.
    pub use_local_clock_as_real_time: bool,
    /// Whether timestamps use millisecond instead of tick resolution.
    pub use_millisecond_resolution: bool,
    /// Whether the publisher drops NaN values.
    pub request_nan_value_filter: bool,
    /// Start time of a historical replay.
    pub start_time: String,
    /// Stop time of a historical replay.
    pub stop_time: String,
    /// Further time constraint parameters.
    pub constraint_parameters: String,
    /// Processing interval of a historical replay.
    pub processing_interval: i32,
    /// Free-form parameters appended to the subscription request.
    pub extra_connection_string_parameters: String,
}

/// Whether every setting holds its default value.
pub open spec fn is_default_subscription(info: SubscriptionInfo) -> bool {
    &&& info.filter_expression@ == Seq::<char>::empty()
    &&& info.throttled == Defaults::THROTTLED
    &&& info.publish_interval == Defaults::PUBLISH_INTERVAL
    &&& info.udp_data_channel == Defaults::UDP_DATA_CHANNEL
    &&& info.data_channel_local_port == Defaults::DATA_CHANNEL_LOCAL_PORT
    &&& info.data_channel_interface@ == Seq::<char>::empty()
    &&& info.include_time == Defaults::INCLUDE_TIME
    &&& info.enable_time_reasonability_check == Defaults::ENABLE_TIME_REASONABILITY_CHECK
    &&& info.lag_time == Defaults::LAG_TIME
    &&& info.lead_time == Defaults::LEAD_TIME
    &&& info.use_local_clock_as_real_time == Defaults::USE_LOCAL_CLOCK_AS_REAL_TIME
    &&& info.use_millisecond_resolution == Defaults::USE_MILLISECOND_RESOLUTION
    &&& info.request_nan_value_filter == Defaults::REQUEST_NAN_VALUE_FILTER
    &&& info.start_time@ == Seq::<char>::empty()
    &&& info.stop_time@ == Seq::<char>::empty()
    &&& info.constraint_parameters@ == Seq::<char>::empty()
    &&& info.processing_interval == Defaults::PROCESSING_INTERVAL
    &&& info.extra_connection_string_parameters@ == Seq::<char>::empty()
}

impl Default for SubscriptionInfo {
    fn default() -> (r: Self)
        ensures
            is_default_subscription(r),
    {
        SubscriptionInfo {
            filter_expression: String::new(),
            throttled: Defaults::THROTTLED,
            publish_interval: Defaults::PUBLISH_INTERVAL,
            udp_data_channel: Defaults::UDP_DATA_CHANNEL,
            data_channel_local_port: Defaults::DATA_CHANNEL_LOCAL_PORT,
            data_channel_interface: String::new(),
            include_time: Defaults::INCLUDE_TIME,
            enable_time_reasonability_check: Defaults::ENABLE_TIME_REASONABILITY_CHECK,
            lag_time: Defaults::LAG_TIME,
            lead_time: Defaults::LEAD_TIME,
            use_local_clock_as_real_time: Defaults::USE_LOCAL_CLOCK_AS_REAL_TIME,
            use_millisecond_resolution: Defaults::USE_MILLISECOND_RESOLUTION,
            request_nan_value_filter: Defaults::REQUEST_NAN_VALUE_FILTER,
            start_time: String::new(),
            stop_time: String::new(),
            constraint_parameters: String::new(),
            processing_interval: Defaults::PROCESSING_INTERVAL,
            extra_connection_string_parameters: String::new(),
        }
    }
}

} // verus!
