use crate::guid::Guid;
use crate::text::{
    bool_of, bool_text, fixed6_of, push_decimal, push_fixed6, push_signed_decimal, signed_decimal_of,
    decimal_of,
};
use crate::transport::constants::{
    DataPacketFlags, Defaults, OperationalEncoding, OperationalModes, ServerCommand, ServerResponse,
    servercommand_code,
};
use crate::transport::signal_index_cache::{
    apply_records, parse_cache, utf8_text, EntriesView, SignalIndexCache,
};
use crate::transport::subscriber_connector::{ReconnectPhase, SubscriberConnector};
use crate::transport::subscription_info::{is_default_subscription, SubscriptionInfo};
use crate::transport::wire::{be_bytes32, be_u32_at, push_bytes, push_u32_be, read_u32_be, DecodeError};
use crate::version::Version;
use vstd::prelude::*;
use vstd::string::StringExecFns;
use vstd::utf8::{decode_utf8, encode_utf8, valid_utf8};

verus! {

/// Where a subscriber's connection stands.
#[derive(Copy, Clone, Debug, PartialEq, Eq, Hash, Structural)]
pub enum ConnectionState {
    /// No connection.
    Disconnected,
    /// Connected, not yet confirmed as a protocol connection.
    Connected,
    /// Connected and confirmed by the publisher.
    Validated,
    /// Validated and receiving a data stream.
    Subscribed,
}

/// Why a subscriber refused a request.
#[derive(Copy, Clone, Debug, PartialEq, Eq, Hash, Structural)]
pub enum SubscriberError {
    /// Connecting while connected.
    AlreadyConnected,
    /// Connecting while listening for a publisher's connection.
    Listening,
    /// Connecting before the teardown of a disconnect has completed.
    DisconnectPending,
    /// Subscribing while not connected.
    NotConnected,
    /// Subscribing before the publisher validated the connection.
    NotValidated,
    /// A command payload longer than a frame's 32-bit length can declare.
    PayloadTooLarge,
}

impl SubscriberError {
    /// A sentence that describes the error.
    pub fn message(&self) -> (r: &'static str)
        ensures
            *self == SubscriberError::AlreadyConnected ==> r@
                == "subscriber is already connected; disconnect first"@,
            *self == SubscriberError::Listening ==> r@
                == "subscriber is listening for connections; direct connections disallowed"@,
            *self == SubscriberError::DisconnectPending ==> r@
                == "subscriber is still disconnecting; connect after the teardown completes"@,
            *self == SubscriberError::NotConnected ==> r@
                == "subscriber is not connected; cannot subscribe"@,
            *self == SubscriberError::NotValidated ==> r@
                == "subscriber is not validated; cannot subscribe"@,
            *self == SubscriberError::PayloadTooLarge ==> r@
                == "command payload is too large for a frame"@,
    {
        match self {
            SubscriberError::AlreadyConnected => "subscriber is already connected; disconnect first",
            SubscriberError::Listening => "subscriber is listening for connections; direct connections disallowed",
            SubscriberError::DisconnectPending => "subscriber is still disconnecting; connect after the teardown completes",
            SubscriberError::NotConnected => "subscriber is not connected; cannot subscribe",
            SubscriberError::NotValidated => "subscriber is not validated; cannot subscribe",
            SubscriberError::PayloadTooLarge => "command payload is too large for a frame",
        }
    }
}

/// A command frame: 4-byte big-endian length (payload plus the code byte), the command
/// code, the payload.
pub open spec fn command_frame(code: u8, payload: Seq<u8>) -> Seq<u8> {
    be_bytes32((payload.len() + 1) as u32) + seq![code] + payload
}

/// `prefix + value + suffix` where `value` is not empty; nothing otherwise.
pub open spec fn optional_field(prefix: Seq<char>, value: Seq<char>, suffix: Seq<char>) -> Seq<char> {
    if value.len() > 0 {
        prefix + value + suffix
    } else {
        Seq::empty()
    }
}

/// The stream settings part of a subscription request.
pub open spec fn stream_parameters(info: SubscriptionInfo) -> Seq<char> {
    "throttled="@ + bool_of(info.throttled) + ";publishInterval="@ + fixed6_of(
        info.publish_interval as int,
    ) + ";includeTime="@ + bool_of(info.include_time) + ";enableTimeReasonabilityCheck="@
        + bool_of(info.enable_time_reasonability_check)
}

/// The timing part of a subscription request.
pub open spec fn timing_parameters(info: SubscriptionInfo) -> Seq<char> {
    ";lagTime="@ + fixed6_of(info.lag_time as int) + ";leadTime="@ + fixed6_of(
        info.lead_time as int,
    ) + ";useLocalClockAsRealTime="@ + bool_of(info.use_local_clock_as_real_time)
        + ";processingInterval="@ + signed_decimal_of(info.processing_interval as int)
        + ";useMillisecondResolution="@ + bool_of(info.use_millisecond_resolution)
        + ";requestNaNValueFilter="@ + bool_of(info.request_nan_value_filter)
}

/// The block that identifies the library to the publisher.
pub open spec fn assembly_parameters(source: Seq<char>, version: Seq<char>, updated_on: Seq<char>) -> Seq<char> {
    ";assemblyInfo={source="@ + source + ";version="@ + version + ";updatedOn="@ + updated_on
        + "}"@
}

/// The optional parts of a subscription request: each present only where its setting
/// is not empty.
pub open spec fn optional_parameters(info: SubscriptionInfo) -> Seq<char> {
    optional_field(";filterExpression={"@, info.filter_expression@, "}"@) + optional_field(
        ";startTimeConstraint="@,
        info.start_time@,
        Seq::empty(),
    ) + optional_field(";stopTimeConstraint="@, info.stop_time@, Seq::empty()) + optional_field(
        ";timeConstraintParameters="@,
        info.constraint_parameters@,
        Seq::empty(),
    ) + optional_field(";"@, info.extra_connection_string_parameters@, Seq::empty())
}

/// The `;`-separated `key=value` parameters of a subscription request.
pub open spec fn subscribe_parameters(
    info: SubscriptionInfo,
    source: Seq<char>,
    version: Seq<char>,
    updated_on: Seq<char>,
) -> Seq<char> {
    stream_parameters(info) + timing_parameters(info) + assembly_parameters(
        source,
        version,
        updated_on,
    ) + optional_parameters(info)
}

/// Payload of a subscription request: the compact flag byte, the 4-byte big-endian
/// length of the parameters' UTF-8 bytes, and those bytes.
pub open spec fn subscribe_payload(params: Seq<char>) -> Seq<u8> {
    seq![0x02u8] + be_bytes32(encode_utf8(params).len() as u32) + encode_utf8(params)
}

/// The operational modes word: protocol version, UTF-8 encoding and the compression
/// choices.
pub open spec fn operational_modes_of(
    version: u8,
    compress_payload_data: bool,
    compress_metadata: bool,
    compress_signal_index_cache: bool,
) -> u32 {
    (version as u32) | 0x0000_0200 | (if compress_payload_data {
        0x2000_0000u32
    } else {
        0u32
    }) | (if compress_metadata {
        0x8000_0000u32
    } else {
        0u32
    }) | (if compress_signal_index_cache {
        0x4000_0000u32
    } else {
        0u32
    })
}

/// Bytes of a response header: response code, command code, 4-byte payload length.
pub const RESPONSE_HEADER_SIZE: usize = 6;

/// A response frame found at the start of a buffer: its codes and where its payload lies.
#[derive(Copy, Clone, Debug, PartialEq, Eq, Hash, Structural)]
pub struct ResponseEnvelope {
    /// The response code.
    pub response: u8,
    /// Code of the command the response answers.
    pub command: u8,
    /// Offset of the payload in the buffer.
    pub payload_start: usize,
    /// Length of the payload.
    pub payload_length: usize,
}

/// The response frame at the start of `s`, if `s` holds all of it.
pub open spec fn response_envelope_of(s: Seq<u8>) -> Option<ResponseEnvelope> {
    if s.len() < 6 || s.len() - 6 < be_u32_at(s, 2) {
        None
    } else {
        Some(
            ResponseEnvelope {
                response: s[0],
                command: s[1],
                payload_start: 6,
                payload_length: be_u32_at(s, 2) as usize,
            },
        )
    }
}

/// Reads the response frame at the start of `buffer`: response code, command code,
/// 4-byte big-endian payload length, payload. `None` where the buffer does not yet hold
/// the whole frame; the frame takes `payload_start + payload_length` bytes.
pub fn parse_response(buffer: &[u8]) -> (r: Option<ResponseEnvelope>)
    ensures
        r == response_envelope_of(buffer@),
{
    let len = buffer.len();
    if len < RESPONSE_HEADER_SIZE {
        return None;
    }
    let n = read_u32_be(buffer, 2) as usize;
    if len - RESPONSE_HEADER_SIZE < n {
        return None;
    }
    Some(
        ResponseEnvelope {
            response: buffer[0],
            command: buffer[1],
            payload_start: RESPONSE_HEADER_SIZE,
            payload_length: n,
        },
    )
}

/// The frame for a command and its payload; `None` where the payload is too long for a
/// frame's 32-bit length.
pub fn frame_command(command: ServerCommand, payload: &[u8]) -> (r: Option<Vec<u8>>)
    ensures
        payload@.len() < 0xFFFF_FFFF ==> (r matches Some(f) && f@ == command_frame(
            servercommand_code(command),
            payload@,
        )),
        payload@.len() >= 0xFFFF_FFFF ==> r is None,
{
    if payload.len() >= 0xFFFF_FFFF {
        return None;
    }
    let mut out: Vec<u8> = Vec::new();
    push_u32_be(&mut out, (payload.len() + 1) as u32);
    out.push(command.code());
    push_bytes(&mut out, payload);
    assert(out@ =~= command_frame(servercommand_code(command), payload@));
    Some(out)
}

fn push_stream_parameters(p: &mut String, info: &SubscriptionInfo)
    ensures
        final(p)@ == old(p)@ + stream_parameters(*info),
{
    p.append("throttled=");
    p.append(bool_text(info.throttled));
    p.append(";publishInterval=");
    push_fixed6(p, info.publish_interval);
    p.append(";includeTime=");
    p.append(bool_text(info.include_time));
    p.append(";enableTimeReasonabilityCheck=");
    p.append(bool_text(info.enable_time_reasonability_check));
    assert(p@ =~= old(p)@ + stream_parameters(*info));
}

fn push_timing_parameters(p: &mut String, info: &SubscriptionInfo)
    ensures
        final(p)@ == old(p)@ + timing_parameters(*info),
{
    p.append(";lagTime=");
    push_fixed6(p, info.lag_time);
    p.append(";leadTime=");
    push_fixed6(p, info.lead_time);
    p.append(";useLocalClockAsRealTime=");
    p.append(bool_text(info.use_local_clock_as_real_time));
    let ghost mid = p@;
    assert(mid =~= old(p)@ + (";lagTime="@ + fixed6_of(info.lag_time as int) + ";leadTime="@
        + fixed6_of(info.lead_time as int) + ";useLocalClockAsRealTime="@ + bool_of(
        info.use_local_clock_as_real_time,
    )));
    p.append(";processingInterval=");
    push_signed_decimal(p, info.processing_interval as i64);
    p.append(";useMillisecondResolution=");
    p.append(bool_text(info.use_millisecond_resolution));
    p.append(";requestNaNValueFilter=");
    p.append(bool_text(info.request_nan_value_filter));
    assert(p@ =~= old(p)@ + timing_parameters(*info));
}

fn push_assembly_parameters(p: &mut String, source: &str, version: &str, updated_on: &str)
    ensures
        final(p)@ == old(p)@ + assembly_parameters(source@, version@, updated_on@),
{
    p.append(";assemblyInfo={source=");
    p.append(source);
    p.append(";version=");
    p.append(version);
    p.append(";updatedOn=");
    p.append(updated_on);
    p.append("}");
    assert(p@ =~= old(p)@ + assembly_parameters(source@, version@, updated_on@));
}

fn push_optional_field(p: &mut String, prefix: &str, value: &str, suffix: &str)
    ensures
        final(p)@ == old(p)@ + optional_field(prefix@, value@, suffix@),
{
    if !value.is_empty() {
        p.append(prefix);
        p.append(value);
        p.append(suffix);
    }
    assert(p@ =~= old(p)@ + optional_field(prefix@, value@, suffix@));
}

fn push_optional_parameters(p: &mut String, info: &SubscriptionInfo)
    ensures
        final(p)@ == old(p)@ + optional_parameters(*info),
{
    proof {
        reveal_strlit("");
    }
    push_optional_field(p, ";filterExpression={", info.filter_expression.as_str(), "}");
    push_optional_field(p, ";startTimeConstraint=", info.start_time.as_str(), "");
    push_optional_field(p, ";stopTimeConstraint=", info.stop_time.as_str(), "");
    push_optional_field(p, ";timeConstraintParameters=", info.constraint_parameters.as_str(), "");
    push_optional_field(p, ";", info.extra_connection_string_parameters.as_str(), "");
    assert(p@ =~= old(p)@ + optional_parameters(*info));
}

/// Builds the parameters of a subscription request from the subscription settings
/// and the library's identification.
pub fn subscription_parameters(
    info: &SubscriptionInfo,
    source: &str,
    version: &str,
    updated_on: &str,
) -> (r: String)
    ensures
        r@ == subscribe_parameters(*info, source@, version@, updated_on@),
{
    let mut p = String::new();
    push_stream_parameters(&mut p, info);
    push_timing_parameters(&mut p, info);
    push_assembly_parameters(&mut p, source, version, updated_on);
    push_optional_parameters(&mut p, info);
    assert(p@ =~= subscribe_parameters(*info, source@, version@, updated_on@));
    p
}

/// The connection and subscription state of a subscriber to a publisher. Sockets,
/// threads and callbacks belong to its runner; this value decides what happens and
/// builds the frames to send.
#[derive(Clone, Debug)]
pub struct DataSubscriber {
    /// Settings of the next subscription.
    pub subscription: SubscriptionInfo,
    /// Subscriber ID the publisher assigned in its last signal index cache.
    pub subscriber_id: Guid,
    /// String encoding of the connection; only UTF-8 is supported.
    pub encoding: OperationalEncoding,
    /// Retry and reconnect policy of the connection.
    pub connector: SubscriberConnector,
    /// Where the connection stands.
    pub state: ConnectionState,
    /// Whether the subscriber waits for a publisher to connect to it.
    pub listening: bool,
    /// Whether a disconnect is tearing the connection down.
    pub disconnecting: bool,
    /// Whether the last connection has been torn down.
    pub disconnected: bool,
    /// Whether the subscriber is shutting down for good.
    pub disposing: bool,
    /// Address of the current connection, `host:port`.
    pub connection_id: String,
    /// Bytes received on the command channel since connecting.
    pub total_command_channel_bytes_received: u64,
    /// Bytes received on the data channel since connecting.
    pub total_data_channel_bytes_received: u64,
    /// Measurements received since subscribing.
    pub total_measurements_received: u64,
    /// Cipher key and IV pairs of an encrypted data channel.
    pub key_ivs: Option<Vec<Vec<u8>>>,
    /// Whether the TSSC decompressor must restart with the next data packet.
    pub tssc_reset_requested: bool,
    /// Whether payload data is compressed.
    pub compress_payload_data: bool,
    /// Whether metadata is compressed.
    pub compress_metadata: bool,
    /// Whether the signal index cache is compressed.
    pub compress_signal_index_cache: bool,
    /// Protocol version.
    pub version: u8,
    /// Library title sent to the publisher.
    pub sttp_source_info: String,
    /// Library version sent to the publisher.
    pub sttp_version_info: String,
    /// Library date sent to the publisher.
    pub sttp_updated_on_info: String,
    /// Socket timeout in milliseconds.
    pub socket_timeout: i32,
    /// First of the two signal index cache slots; one is active, the other takes an
    /// update.
    pub first_signal_index_cache: SignalIndexCache,
    /// Second of the two signal index cache slots.
    pub second_signal_index_cache: SignalIndexCache,
    /// Which slot is active: `false` for the first, `true` for the second.
    pub cache_index: bool,
    /// Which of the two base time offsets measurements use.
    pub time_index: bool,
    /// The two rolling base time offsets.
    pub base_time_offsets: [u64; 2],
}

impl DataSubscriber {
    /// The subscriber after a connection attempt has been set up: flags and counters
    /// reset, no cipher keys.
    pub open spec fn set_up(&self) -> DataSubscriber {
        DataSubscriber {
            disconnected: false,
            total_command_channel_bytes_received: 0,
            total_data_channel_bytes_received: 0,
            total_measurements_received: 0,
            key_ivs: None,
            ..*self
        }
    }

    /// Creates a disconnected subscriber with default settings.
    pub fn new() -> (r: Self)
        ensures
            r.state == ConnectionState::Disconnected,
            !r.listening,
            !r.disconnecting,
            !r.disposing,
            r.encoding == OperationalEncoding::UTF8,
            r.version == Defaults::VERSION,
            r.compress_payload_data && r.compress_metadata && r.compress_signal_index_cache,
            !r.disconnected,
            is_default_subscription(r.subscription),
            r.subscriber_id.value == 0,
            r.connection_id@ == Seq::<char>::empty(),
            r.total_command_channel_bytes_received == 0,
            r.total_data_channel_bytes_received == 0,
            r.total_measurements_received == 0,
            r.key_ivs is None,
            !r.tssc_reset_requested,
            r.sttp_source_info@ == Version::STTP_SOURCE@,
            r.sttp_version_info@ == Version::STTP_VERSION@,
            r.sttp_updated_on_info@ == Version::STTP_UPDATED_ON@,
            r.socket_timeout == Defaults::SOCKET_TIMEOUT,
            r.connector.hostname@ == "localhost"@,
            r.connector.port == 6162,
            r.connector.max_retries == -1,
            r.connector.retry_interval == 1000,
            r.connector.max_retry_interval == 60000,
            r.connector.auto_reconnect,
            r.connector.attempts() == 0,
            !r.connector.refused(),
            !r.connector.canceled(),
            r.connector.reconnect_phase() == ReconnectPhase::Idle,
            r.first_signal_index_cache.wf() && r.second_signal_index_cache.wf(),
            r.first_signal_index_cache.entries() == EntriesView::empty(),
            r.first_signal_index_cache.reverse() == Map::<u128, i32>::empty(),
            r.second_signal_index_cache.entries() == EntriesView::empty(),
            r.second_signal_index_cache.reverse() == Map::<u128, i32>::empty(),
            !r.cache_index,
            !r.time_index,
            r.base_time_offsets@ == seq![0u64, 0u64],
    {
        let r = DataSubscriber {
            subscription: SubscriptionInfo::default(),
            subscriber_id: Guid::nil(),
            encoding: OperationalEncoding::UTF8,
            connector: SubscriberConnector::new(),
            state: ConnectionState::Disconnected,
            listening: false,
            disconnecting: false,
            disconnected: false,
            disposing: false,
            connection_id: String::new(),
            total_command_channel_bytes_received: 0,
            total_data_channel_bytes_received: 0,
            total_measurements_received: 0,
            key_ivs: None,
            tssc_reset_requested: false,
            compress_payload_data: Defaults::COMPRESS_PAYLOAD_DATA,
            compress_metadata: Defaults::COMPRESS_METADATA,
            compress_signal_index_cache: Defaults::COMPRESS_SIGNAL_INDEX_CACHE,
            version: Defaults::VERSION,
            sttp_source_info: String::from_str(Version::STTP_SOURCE),
            sttp_version_info: String::from_str(Version::STTP_VERSION),
            sttp_updated_on_info: String::from_str(Version::STTP_UPDATED_ON),
            socket_timeout: Defaults::SOCKET_TIMEOUT,
            first_signal_index_cache: SignalIndexCache::new(),
            second_signal_index_cache: SignalIndexCache::new(),
            cache_index: false,
            time_index: false,
            base_time_offsets: [0, 0],
        };
        assert(r.base_time_offsets@ =~= seq![0u64, 0u64]);
        r
    }

    /// Takes a signal index cache image from the publisher. It is decoded into a fresh
    /// cache in the slot `second` names; only once the whole image has decoded does that
    /// slot become active and its subscriber ID the subscriber's. A failed decode leaves
    /// the subscriber as it was.
    pub fn update_signal_index_cache(&mut self, second: bool, buffer: &[u8]) -> (r: Result<
        Guid,
        DecodeError,
    >)
        ensures
            match parse_cache(buffer@) {
                Ok((subscriber_id, recs)) => {
                    let e = apply_records(EntriesView::empty(), Map::empty(), recs);
                    let c = if second {
                        final(self).second_signal_index_cache
                    } else {
                        final(self).first_signal_index_cache
                    };
                    &&& r == Ok::<Guid, DecodeError>(Guid { value: subscriber_id })
                    &&& c.wf()
                    &&& (c.entries(), c.reverse()) == e
                    &&& final(self).cache_index == second
                    &&& final(self).subscriber_id == Guid { value: subscriber_id }
                    &&& second ==> final(self).first_signal_index_cache
                        == old(self).first_signal_index_cache
                    &&& !second ==> final(self).second_signal_index_cache
                        == old(self).second_signal_index_cache
                },
                Err(e) => r == Err::<Guid, DecodeError>(e) && *final(self) == *old(self),
            },
    {
        let mut cache = SignalIndexCache::new();
        match cache.decode(buffer) {
            Err(e) => Err(e),
            Ok(id) => {
                if second {
                    self.second_signal_index_cache = cache;
                } else {
                    self.first_signal_index_cache = cache;
                }
                self.cache_index = second;
                self.subscriber_id = id;
                Ok(id)
            },
        }
    }

    /// Determines if the subscriber is connected to a publisher.
    pub fn is_connected(&self) -> (r: bool)
        ensures
            r == (self.state != ConnectionState::Disconnected),
    {
        self.state != ConnectionState::Disconnected
    }

    /// Determines if the publisher has validated the connection.
    pub fn is_validated(&self) -> (r: bool)
        ensures
            r == (self.state == ConnectionState::Validated || self.state
                == ConnectionState::Subscribed),
    {
        self.state == ConnectionState::Validated || self.state == ConnectionState::Subscribed
    }

    /// Determines if the subscriber waits for a publisher to connect to it.
    pub fn is_listening(&self) -> (r: bool)
        ensures
            r == self.listening,
    {
        self.listening
    }

    /// Determines if the subscriber receives a data stream.
    pub fn is_subscribed(&self) -> (r: bool)
        ensures
            r == (self.state == ConnectionState::Subscribed),
    {
        self.state == ConnectionState::Subscribed
    }

    /// Address of the current connection.
    pub fn get_connection_id(&self) -> (r: &str)
        ensures
            r@ == self.connection_id@,
    {
        self.connection_id.as_str()
    }

    /// The UTF-8 bytes of a text.
    pub fn encode_string(&self, data: &str) -> (r: Vec<u8>)
        requires
            self.encoding == OperationalEncoding::UTF8,
        ensures
            r@ == encode_utf8(data@),
    {
        let bytes = data.as_bytes();
        let mut out: Vec<u8> = Vec::new();
        push_bytes(&mut out, bytes);
        assert(out@ =~= encode_utf8(data@));
        out
    }

    /// The text that UTF-8 bytes encode; `InvalidUtf8` where they are not UTF-8.
    pub fn decode_string(&self, data: &[u8]) -> (r: Result<String, DecodeError>)
        requires
            self.encoding == OperationalEncoding::UTF8,
        ensures
            valid_utf8(data@) ==> (r matches Ok(s) && s@ == decode_utf8(data@)),
            !valid_utf8(data@) ==> r == Err::<String, DecodeError>(DecodeError::InvalidUtf8),
    {
        match utf8_text(data) {
            Some(text) => Ok(String::from_str(text)),
            None => Err(DecodeError::InvalidUtf8),
        }
    }

    #[verifier::rlimit(40)]
    fn start_connection(&mut self, auto_reconnecting: bool) -> (r: Result<(), SubscriberError>)
        ensures
            old(self).state != ConnectionState::Disconnected ==> r == Err::<(), SubscriberError>(
                SubscriberError::AlreadyConnected,
            ) && *final(self) == *old(self),
            old(self).state == ConnectionState::Disconnected && old(self).listening ==> r == Err::<
                (),
                SubscriberError,
            >(SubscriberError::Listening) && *final(self) == *old(self),
            old(self).state == ConnectionState::Disconnected && !old(self).listening
                && old(self).disconnecting ==> r == Err::<(), SubscriberError>(
                SubscriberError::DisconnectPending,
            ) && *final(self) == *old(self),
            old(self).state == ConnectionState::Disconnected && !old(self).listening
                && !old(self).disconnecting ==> {
                &&& r == Ok::<(), SubscriberError>(())
                &&& final(self).connector.connection_refused == false
                &&& auto_reconnecting ==> final(self).connector.connect_attempt
                    == old(self).connector.connect_attempt
                &&& !auto_reconnecting ==> final(self).connector.connect_attempt == 0
                &&& *final(self) == (DataSubscriber {
                    connector: final(self).connector,
                    ..old(self).set_up()
                })
                &&& final(self).connector == (SubscriberConnector {
                    connect_attempt: final(self).connector.connect_attempt,
                    connection_refused: false,
                    ..old(self).connector
                })
            },
    {
        if self.state != ConnectionState::Disconnected {
            return Err(SubscriberError::AlreadyConnected);
        }
        if self.listening {
            return Err(SubscriberError::Listening);
        }
        if self.disconnecting {
            return Err(SubscriberError::DisconnectPending);
        }
        self.disconnected = false;
        self.total_command_channel_bytes_received = 0;
        self.total_data_channel_bytes_received = 0;
        self.total_measurements_received = 0;
        self.key_ivs = None;
        if !auto_reconnecting {
            self.connector.reset_connection();
        }
        self.connector.set_connection_refused(false);
        Ok(())
    }

    /// Requests a connection to the publisher at `hostname:port`. Fails, changing
    /// nothing, while connected, while listening, or while the teardown of a disconnect
    /// is still under way (the runner waits for `disconnect_completed` and asks again). Otherwise records the address, resets the
    /// connection counters and, since the user asked for it, the retry backoff; the
    /// runner then opens the socket and calls `establish_connection` or
    /// `connection_failed`.
    pub fn connect(&mut self, hostname: &str, port: u16) -> (r: Result<(), SubscriberError>)
        ensures
            old(self).state != ConnectionState::Disconnected ==> r == Err::<(), SubscriberError>(
                SubscriberError::AlreadyConnected,
            ) && *final(self) == *old(self),
            old(self).state == ConnectionState::Disconnected && old(self).listening ==> r == Err::<
                (),
                SubscriberError,
            >(SubscriberError::Listening) && *final(self) == *old(self),
            old(self).state == ConnectionState::Disconnected && !old(self).listening
                && old(self).disconnecting ==> r == Err::<(), SubscriberError>(
                SubscriberError::DisconnectPending,
            ) && *final(self) == *old(self),
            old(self).state == ConnectionState::Disconnected && !old(self).listening
                && !old(self).disconnecting ==> {
                &&& r == Ok::<(), SubscriberError>(())
                &&& final(self).connector.hostname@ == hostname@
                &&& final(self).connector.port == port
                &&& final(self).connector.connect_attempt == 0
                &&& !final(self).connector.connection_refused
                &&& *final(self) == (DataSubscriber {
                    connector: final(self).connector,
                    ..old(self).set_up()
                })
            },
    {
        let r = self.start_connection(false);
        if r.is_ok() {
            self.connector.hostname = String::from_str(hostname);
            self.connector.port = port;
        }
        r
    }

    /// Requests a connection again to the address last connected to, as an automatic
    /// reconnect: the retry backoff is kept.
    pub fn reconnect(&mut self) -> (r: Result<(), SubscriberError>)
        ensures
            old(self).state != ConnectionState::Disconnected ==> r == Err::<(), SubscriberError>(
                SubscriberError::AlreadyConnected,
            ) && *final(self) == *old(self),
            old(self).state == ConnectionState::Disconnected && old(self).listening ==> r == Err::<
                (),
                SubscriberError,
            >(SubscriberError::Listening) && *final(self) == *old(self),
            old(self).state == ConnectionState::Disconnected && !old(self).listening
                && old(self).disconnecting ==> r == Err::<(), SubscriberError>(
                SubscriberError::DisconnectPending,
            ) && *final(self) == *old(self),
            old(self).state == ConnectionState::Disconnected && !old(self).listening
                && !old(self).disconnecting ==> {
                &&& r == Ok::<(), SubscriberError>(())
                &&& final(self).connector == (SubscriberConnector {
                    connection_refused: false,
                    ..old(self).connector
                })
                &&& *final(self) == (DataSubscriber {
                    connector: final(self).connector,
                    ..old(self).set_up()
                })
            },
    {
        self.start_connection(true)
    }

    /// The socket to the publisher is open: the subscriber is connected, not yet
    /// validated, and the frame that declares its operational modes is returned for the
    /// runner to send.
    pub fn establish_connection(&mut self) -> (r: Vec<u8>)
        ensures
            final(self).state == ConnectionState::Connected,
            final(self).connection_id@ == old(self).connector.hostname@ + seq![':'] + decimal_of(
                old(self).connector.port as nat,
            ),
            *final(self) == (DataSubscriber {
                state: ConnectionState::Connected,
                connection_id: final(self).connection_id,
                ..*old(self)
            }),
            r@ == command_frame(
                0x06,
                be_bytes32(
                    operational_modes_of(
                        old(self).version,
                        old(self).compress_payload_data,
                        old(self).compress_metadata,
                        old(self).compress_signal_index_cache,
                    ),
                ),
            ),
    {
        let mut id = String::from_str(self.connector.hostname.as_str());
        proof {
            reveal_strlit(":");
        }
        id.append(":");
        push_decimal(&mut id, self.connector.port as u64);
        assert(id@ =~= self.connector.hostname@ + seq![':'] + decimal_of(
            self.connector.port as nat,
        ));
        self.connection_id = id;
        self.state = ConnectionState::Connected;
        let modes = self.operational_modes();
        let mut payload: Vec<u8> = Vec::new();
        push_u32_be(&mut payload, modes);
        let frame = frame_command(ServerCommand::DefineOperationalModes, payload.as_slice());
        match frame {
            Some(f) => f,
            None => Vec::new(),
        }
    }

    /// The operational modes word of this subscriber.
    pub fn operational_modes(&self) -> (r: u32)
        ensures
            r == operational_modes_of(
                self.version,
                self.compress_payload_data,
                self.compress_metadata,
                self.compress_signal_index_cache,
            ),
    {
        let mut modes: u32 = (self.version as u32) | OperationalEncoding::UTF8.code();
        if self.compress_payload_data {
            modes = modes | OperationalModes::COMPRESS_PAYLOAD_DATA;
        }
        if self.compress_metadata {
            modes = modes | OperationalModes::COMPRESS_METADATA;
        }
        if self.compress_signal_index_cache {
            modes = modes | OperationalModes::COMPRESS_SIGNAL_INDEX_CACHE;
        }
        let v = self.version as u32;
        let a = if self.compress_payload_data { 0x2000_0000u32 } else { 0u32 };
        let b = if self.compress_metadata { 0x8000_0000u32 } else { 0u32 };
        let c = if self.compress_signal_index_cache { 0x4000_0000u32 } else { 0u32 };
        assert(((v | 0x200) | a) == (v | 0x200 | a) && (v | 0x200 | a) | 0 == (v | 0x200 | a)
            && (v | 0x200 | a | b) | 0 == (v | 0x200 | a | b) && (v | 0x200) | 0 == (v | 0x200))
            by (bit_vector);
        modes
    }

    /// The socket to the publisher could not be opened: the attempt counts as refused.
    pub fn connection_failed(&mut self)
        ensures
            *final(self) == (DataSubscriber {
                connector: SubscriberConnector { connection_refused: true, ..old(self).connector },
                ..*old(self)
            }),
    {
        self.connector.set_connection_refused(true);
    }

    /// A response from the publisher to a command. A successful response to the
    /// declaration of operational modes validates a connected subscriber; other
    /// responses change nothing here.
    pub fn handle_command_response(&mut self, response: ServerResponse, command: ServerCommand)
        ensures
            response == ServerResponse::Succeeded && command == ServerCommand::DefineOperationalModes
                && old(self).state == ConnectionState::Connected ==> *final(self) == (DataSubscriber {
                state: ConnectionState::Validated,
                ..*old(self)
            }),
            !(response == ServerResponse::Succeeded && command
                == ServerCommand::DefineOperationalModes && old(self).state
                == ConnectionState::Connected) ==> *final(self) == *old(self),
    {
        if response == ServerResponse::Succeeded && command == ServerCommand::DefineOperationalModes
            && self.state == ConnectionState::Connected {
            self.state = ConnectionState::Validated;
        }
    }

    /// Subscribes to the publisher's data stream with the current subscription settings.
    /// Fails, changing nothing, where the subscriber is not connected, not validated, or
    /// the request would not fit a frame. A subscribed subscriber unsubscribes first.
    /// Gives the frames to send, in order: the unsubscribe request where there is one,
    /// then the subscribe request.
    #[verifier::rlimit(40)]
    pub fn subscribe(&mut self) -> (r: Result<Vec<Vec<u8>>, SubscriberError>)
        ensures
            old(self).state == ConnectionState::Disconnected ==> r == Err::<
                Vec<Vec<u8>>,
                SubscriberError,
            >(SubscriberError::NotConnected) && *final(self) == *old(self),
            old(self).state == ConnectionState::Connected ==> r == Err::<
                Vec<Vec<u8>>,
                SubscriberError,
            >(SubscriberError::NotValidated) && *final(self) == *old(self),
            old(self).state == ConnectionState::Validated || old(self).state
                == ConnectionState::Subscribed ==> ({
                let params = subscribe_parameters(
                    old(self).subscription,
                    old(self).sttp_source_info@,
                    old(self).sttp_version_info@,
                    old(self).sttp_updated_on_info@,
                );
                let payload = subscribe_payload(params);
                if payload.len() >= 0xFFFF_FFFF {
                    r == Err::<Vec<Vec<u8>>, SubscriberError>(SubscriberError::PayloadTooLarge)
                        && *final(self) == *old(self)
                } else {
                    &&& r matches Ok(frames)
                    &&& frames@.len() == (if old(self).state == ConnectionState::Subscribed {
                        2nat
                    } else {
                        1nat
                    })
                    &&& frames@.last()@ == command_frame(0x02, payload)
                    &&& old(self).state == ConnectionState::Subscribed ==> frames@[0]@
                        == command_frame(0x03, Seq::empty())
                    &&& *final(self) == (DataSubscriber {
                        state: ConnectionState::Subscribed,
                        total_measurements_received: 0,
                        tssc_reset_requested: true,
                        ..*old(self)
                    })
                }
            }),
    {
        if self.state == ConnectionState::Disconnected {
            return Err(SubscriberError::NotConnected);
        }
        if self.state == ConnectionState::Connected {
            return Err(SubscriberError::NotValidated);
        }
        let params = subscription_parameters(
            &self.subscription,
            self.sttp_source_info.as_str(),
            self.sttp_version_info.as_str(),
            self.sttp_updated_on_info.as_str(),
        );
        let bytes = params.as_str().as_bytes();
        if bytes.len() >= 0xFFFF_FFFF - 5 {
            return Err(SubscriberError::PayloadTooLarge);
        }
        let mut payload: Vec<u8> = Vec::new();
        payload.push(DataPacketFlags::COMPACT);
        push_u32_be(&mut payload, bytes.len() as u32);
        push_bytes(&mut payload, bytes);
        assert(payload@ =~= subscribe_payload(params@));
        let mut frames: Vec<Vec<u8>> = Vec::new();
        if self.state == ConnectionState::Subscribed {
            match self.unsubscribe() {
                Some(f) => frames.push(f),
                None => {},
            }
        }
        match frame_command(ServerCommand::Subscribe, payload.as_slice()) {
            Some(f) => frames.push(f),
            None => {},
        }
        self.state = ConnectionState::Subscribed;
        self.total_measurements_received = 0;
        self.tssc_reset_requested = true;
        Ok(frames)
    }

    /// Stops the data stream. Nothing happens unless the subscriber is subscribed;
    /// otherwise it falls back to validated and the unsubscribe request is returned for
    /// the runner to send, after which the runner closes the data channel.
    pub fn unsubscribe(&mut self) -> (r: Option<Vec<u8>>)
        ensures
            old(self).state != ConnectionState::Subscribed ==> r is None && *final(self)
                == *old(self),
            old(self).state == ConnectionState::Subscribed ==> (r matches Some(f) && f@
                == command_frame(0x03, Seq::empty())) && *final(self) == (DataSubscriber {
                state: ConnectionState::Validated,
                ..*old(self)
            }),
    {
        if self.state != ConnectionState::Subscribed {
            return None;
        }
        self.state = ConnectionState::Validated;
        let empty: Vec<u8> = Vec::new();
        frame_command(ServerCommand::Unsubscribe, empty.as_slice())
    }

    /// Starts tearing the connection down: nothing happens while a disconnect is under
    /// way (and `false` is returned); otherwise the subscriber is disconnected, stops
    /// listening, and `true` tells the runner to close the sockets and then call
    /// `disconnect_completed`.
    pub fn disconnect(&mut self) -> (r: bool)
        ensures
            old(self).disconnecting ==> !r && *final(self) == *old(self),
            !old(self).disconnecting ==> r && *final(self) == (DataSubscriber {
                disconnecting: true,
                state: ConnectionState::Disconnected,
                listening: false,
                ..*old(self)
            }),
    {
        if self.disconnecting {
            return false;
        }
        self.disconnecting = true;
        self.state = ConnectionState::Disconnected;
        self.listening = false;
        true
    }

    /// The runner has closed the sockets of a disconnect.
    pub fn disconnect_completed(&mut self)
        ensures
            *final(self) == (DataSubscriber {
                disconnecting: false,
                disconnected: true,
                ..*old(self)
            }),
    {
        self.disconnecting = false;
        self.disconnected = true;
    }

    /// The connection broke (a read or write failed). Nothing happens while disconnected
    /// or disconnecting, and `false` is returned. Otherwise the subscriber is
    /// disconnected, keeping its listening mode, and the result tells whether the
    /// connector should reconnect automatically: auto-reconnect is on, the connector is
    /// not canceled and the subscriber is not disposing.
    pub fn connection_terminated(&mut self) -> (r: bool)
        ensures
            old(self).disconnecting || old(self).state == ConnectionState::Disconnected ==> !r
                && *final(self) == *old(self),
            !(old(self).disconnecting || old(self).state == ConnectionState::Disconnected) ==> r
                == (old(self).connector.auto_reconnect && !old(self).connector.cancel
                && !old(self).disposing) && *final(self) == (DataSubscriber {
                state: ConnectionState::Disconnected,
                ..*old(self)
            }),
    {
        if self.disconnecting || self.state == ConnectionState::Disconnected {
            return false;
        }
        self.state = ConnectionState::Disconnected;
        self.connector.auto_reconnect && !self.connector.cancel && !self.disposing
    }

    /// Shuts the subscriber down for good: it is marked disposing, its connector is
    /// canceled, and the connection is torn down as `disconnect` does; the result is
    /// that of `disconnect`.
    pub fn dispose(&mut self) -> (r: bool)
        ensures
            r == !old(self).disconnecting,
            old(self).disconnecting ==> *final(self) == (DataSubscriber {
                disposing: true,
                connector: SubscriberConnector { cancel: true, ..old(self).connector },
                ..*old(self)
            }),
            !old(self).disconnecting ==> *final(self) == (DataSubscriber {
                disposing: true,
                connector: SubscriberConnector { cancel: true, ..old(self).connector },
                disconnecting: true,
                state: ConnectionState::Disconnected,
                listening: false,
                ..*old(self)
            }),
    {
        self.disposing = true;
        self.connector.dispose();
        self.disconnect()
    }
}

} // verus!
