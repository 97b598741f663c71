use vstd::prelude::*;

verus! {

/// Commands a subscriber sends to a publisher over the command channel.
#[derive(Copy, Clone, Debug, PartialEq, Eq, Hash, Structural)]
pub enum ServerCommand {
    /// Session connection request.
    Connect,
    /// Request to refresh metadata.
    MetadataRefresh,
    /// Request to subscribe to a data stream.
    Subscribe,
    /// Request to stop the data stream.
    Unsubscribe,
    /// Request to rotate the cipher keys.
    RotateCipherKeys,
    /// Request to change the publication interval.
    UpdateProcessingInterval,
    /// Declares the subscriber's operational modes.
    DefineOperationalModes,
    /// Confirms receipt of a notification.
    ConfirmNotification,
    /// Confirms receipt of a buffer block.
    ConfirmBufferBlock,
    /// Confirms receipt of new base time offsets.
    ConfirmUpdateBaseTimes,
    /// Confirms receipt of a new signal index cache.
    ConfirmUpdateSignalIndexCache,
    /// Confirms receipt of new cipher keys.
    ConfirmUpdateCipherKeys,
    /// Requests the primary metadata schema.
    GetPrimaryMetadataSchema,
    /// Requests the signal selection schema.
    GetSignalSelectionSchema,
    /// User-defined command 0.
    UserCommand00,
    /// User-defined command 1.
    UserCommand01,
    /// User-defined command 2.
    UserCommand02,
    /// User-defined command 3.
    UserCommand03,
    /// User-defined command 4.
    UserCommand04,
    /// User-defined command 5.
    UserCommand05,
    /// User-defined command 6.
    UserCommand06,
    /// User-defined command 7.
    UserCommand07,
    /// User-defined command 8.
    UserCommand08,
    /// User-defined command 9.
    UserCommand09,
    /// User-defined command 10.
    UserCommand10,
    /// User-defined command 11.
    UserCommand11,
    /// User-defined command 12.
    UserCommand12,
    /// User-defined command 13.
    UserCommand13,
    /// User-defined command 14.
    UserCommand14,
    /// User-defined command 15.
    UserCommand15,
}

/// The wire code of each `ServerCommand`.
pub open spec fn servercommand_code(v: ServerCommand) -> u8 {
    match v {
        ServerCommand::Connect => 0x00,
        ServerCommand::MetadataRefresh => 0x01,
        ServerCommand::Subscribe => 0x02,
        ServerCommand::Unsubscribe => 0x03,
        ServerCommand::RotateCipherKeys => 0x04,
        ServerCommand::UpdateProcessingInterval => 0x05,
        ServerCommand::DefineOperationalModes => 0x06,
        ServerCommand::ConfirmNotification => 0x07,
        ServerCommand::ConfirmBufferBlock => 0x08,
        ServerCommand::ConfirmUpdateBaseTimes => 0x09,
        ServerCommand::ConfirmUpdateSignalIndexCache => 0x0A,
        ServerCommand::ConfirmUpdateCipherKeys => 0x0B,
        ServerCommand::GetPrimaryMetadataSchema => 0x0C,
        ServerCommand::GetSignalSelectionSchema => 0x0D,
        ServerCommand::UserCommand00 => 0xD0,
        ServerCommand::UserCommand01 => 0xD1,
        ServerCommand::UserCommand02 => 0xD2,
        ServerCommand::UserCommand03 => 0xD3,
        ServerCommand::UserCommand04 => 0xD4,
        ServerCommand::UserCommand05 => 0xD5,
        ServerCommand::UserCommand06 => 0xD6,
        ServerCommand::UserCommand07 => 0xD7,
        ServerCommand::UserCommand08 => 0xD8,
        ServerCommand::UserCommand09 => 0xD9,
        ServerCommand::UserCommand10 => 0xDA,
        ServerCommand::UserCommand11 => 0xDB,
        ServerCommand::UserCommand12 => 0xDC,
        ServerCommand::UserCommand13 => 0xDD,
        ServerCommand::UserCommand14 => 0xDE,
        ServerCommand::UserCommand15 => 0xDF,
    }
}

impl ServerCommand {
    /// The wire code.
    pub fn code(&self) -> (r: u8)
        ensures
            r == servercommand_code(*self),
    {
        match self {
            ServerCommand::Connect => 0x00,
            ServerCommand::MetadataRefresh => 0x01,
            ServerCommand::Subscribe => 0x02,
            ServerCommand::Unsubscribe => 0x03,
            ServerCommand::RotateCipherKeys => 0x04,
            ServerCommand::UpdateProcessingInterval => 0x05,
            ServerCommand::DefineOperationalModes => 0x06,
            ServerCommand::ConfirmNotification => 0x07,
            ServerCommand::ConfirmBufferBlock => 0x08,
            ServerCommand::ConfirmUpdateBaseTimes => 0x09,
            ServerCommand::ConfirmUpdateSignalIndexCache => 0x0A,
            ServerCommand::ConfirmUpdateCipherKeys => 0x0B,
            ServerCommand::GetPrimaryMetadataSchema => 0x0C,
            ServerCommand::GetSignalSelectionSchema => 0x0D,
            ServerCommand::UserCommand00 => 0xD0,
            ServerCommand::UserCommand01 => 0xD1,
            ServerCommand::UserCommand02 => 0xD2,
            ServerCommand::UserCommand03 => 0xD3,
            ServerCommand::UserCommand04 => 0xD4,
            ServerCommand::UserCommand05 => 0xD5,
            ServerCommand::UserCommand06 => 0xD6,
            ServerCommand::UserCommand07 => 0xD7,
            ServerCommand::UserCommand08 => 0xD8,
            ServerCommand::UserCommand09 => 0xD9,
            ServerCommand::UserCommand10 => 0xDA,
            ServerCommand::UserCommand11 => 0xDB,
            ServerCommand::UserCommand12 => 0xDC,
            ServerCommand::UserCommand13 => 0xDD,
            ServerCommand::UserCommand14 => 0xDE,
            ServerCommand::UserCommand15 => 0xDF,
        }
    }

    /// The value with the given wire code, if there is one.
    pub fn from_code(code: u8) -> (r: Option<ServerCommand>)
        ensures
            r matches Some(v) ==> servercommand_code(v) == code,
            r is None ==> forall|v: ServerCommand| servercommand_code(v) != code,
    {
        match code {
            0x00 => Some(ServerCommand::Connect),
            0x01 => Some(ServerCommand::MetadataRefresh),
            0x02 => Some(ServerCommand::Subscribe),
            0x03 => Some(ServerCommand::Unsubscribe),
            0x04 => Some(ServerCommand::RotateCipherKeys),
            0x05 => Some(ServerCommand::UpdateProcessingInterval),
            0x06 => Some(ServerCommand::DefineOperationalModes),
            0x07 => Some(ServerCommand::ConfirmNotification),
            0x08 => Some(ServerCommand::ConfirmBufferBlock),
            0x09 => Some(ServerCommand::ConfirmUpdateBaseTimes),
            0x0A => Some(ServerCommand::ConfirmUpdateSignalIndexCache),
            0x0B => Some(ServerCommand::ConfirmUpdateCipherKeys),
            0x0C => Some(ServerCommand::GetPrimaryMetadataSchema),
            0x0D => Some(ServerCommand::GetSignalSelectionSchema),
            0xD0 => Some(ServerCommand::UserCommand00),
            0xD1 => Some(ServerCommand::UserCommand01),
            0xD2 => Some(ServerCommand::UserCommand02),
            0xD3 => Some(ServerCommand::UserCommand03),
            0xD4 => Some(ServerCommand::UserCommand04),
            0xD5 => Some(ServerCommand::UserCommand05),
            0xD6 => Some(ServerCommand::UserCommand06),
            0xD7 => Some(ServerCommand::UserCommand07),
            0xD8 => Some(ServerCommand::UserCommand08),
            0xD9 => Some(ServerCommand::UserCommand09),
            0xDA => Some(ServerCommand::UserCommand10),
            0xDB => Some(ServerCommand::UserCommand11),
            0xDC => Some(ServerCommand::UserCommand12),
            0xDD => Some(ServerCommand::UserCommand13),
            0xDE => Some(ServerCommand::UserCommand14),
            0xDF => Some(ServerCommand::UserCommand15),
            _ => None,
        }
    }
}

/// Responses a publisher sends to a subscriber over the command channel.
#[derive(Copy, Clone, Debug, PartialEq, Eq, Hash, Structural)]
pub enum ServerResponse {
    /// The command succeeded.
    Succeeded,
    /// The command failed.
    Failed,
    /// A packet of measurements.
    DataPacket,
    /// A new signal index cache.
    UpdateSignalIndexCache,
    /// New base time offsets.
    UpdateBaseTimes,
    /// New cipher keys.
    UpdateCipherKeys,
    /// Timestamp of the first measurement of a subscription.
    DataStartTime,
    /// Temporal processing has completed.
    ProcessingComplete,
    /// A buffer block.
    BufferBlock,
    /// A notification that needs receipt.
    Notify,
    /// The publisher's configuration changed.
    ConfigurationChanged,
    /// User-defined response 0.
    UserResponse00,
    /// User-defined response 1.
    UserResponse01,
    /// User-defined response 2.
    UserResponse02,
    /// User-defined response 3.
    UserResponse03,
    /// User-defined response 4.
    UserResponse04,
    /// User-defined response 5.
    UserResponse05,
    /// User-defined response 6.
    UserResponse06,
    /// User-defined response 7.
    UserResponse07,
    /// User-defined response 8.
    UserResponse08,
    /// User-defined response 9.
    UserResponse09,
    /// User-defined response 10.
    UserResponse10,
    /// User-defined response 11.
    UserResponse11,
    /// User-defined response 12.
    UserResponse12,
    /// User-defined response 13.
    UserResponse13,
    /// User-defined response 14.
    UserResponse14,
    /// User-defined response 15.
    UserResponse15,
    /// Keep-alive; nothing to do.
    NoOP,
}

/// The wire code of each `ServerResponse`.
pub open spec fn serverresponse_code(v: ServerResponse) -> u8 {
    match v {
        ServerResponse::Succeeded => 0x80,
        ServerResponse::Failed => 0x81,
        ServerResponse::DataPacket => 0x82,
        ServerResponse::UpdateSignalIndexCache => 0x83,
        ServerResponse::UpdateBaseTimes => 0x84,
        ServerResponse::UpdateCipherKeys => 0x85,
        ServerResponse::DataStartTime => 0x86,
        ServerResponse::ProcessingComplete => 0x87,
        ServerResponse::BufferBlock => 0x88,
        ServerResponse::Notify => 0x89,
        ServerResponse::ConfigurationChanged => 0x8A,
        ServerResponse::UserResponse00 => 0xE0,
        ServerResponse::UserResponse01 => 0xE1,
        ServerResponse::UserResponse02 => 0xE2,
        ServerResponse::UserResponse03 => 0xE3,
        ServerResponse::UserResponse04 => 0xE4,
        ServerResponse::UserResponse05 => 0xE5,
        ServerResponse::UserResponse06 => 0xE6,
        ServerResponse::UserResponse07 => 0xE7,
        ServerResponse::UserResponse08 => 0xE8,
        ServerResponse::UserResponse09 => 0xE9,
        ServerResponse::UserResponse10 => 0xEA,
        ServerResponse::UserResponse11 => 0xEB,
        ServerResponse::UserResponse12 => 0xEC,
        ServerResponse::UserResponse13 => 0xED,
        ServerResponse::UserResponse14 => 0xEE,
        ServerResponse::UserResponse15 => 0xEF,
        ServerResponse::NoOP => 0xFF,
    }
}

impl ServerResponse {
    /// The wire code.
    pub fn code(&self) -> (r: u8)
        ensures
            r == serverresponse_code(*self),
    {
        match self {
            ServerResponse::Succeeded => 0x80,
            ServerResponse::Failed => 0x81,
            ServerResponse::DataPacket => 0x82,
            ServerResponse::UpdateSignalIndexCache => 0x83,
            ServerResponse::UpdateBaseTimes => 0x84,
            ServerResponse::UpdateCipherKeys => 0x85,
            ServerResponse::DataStartTime => 0x86,
            ServerResponse::ProcessingComplete => 0x87,
            ServerResponse::BufferBlock => 0x88,
            ServerResponse::Notify => 0x89,
            ServerResponse::ConfigurationChanged => 0x8A,
            ServerResponse::UserResponse00 => 0xE0,
            ServerResponse::UserResponse01 => 0xE1,
            ServerResponse::UserResponse02 => 0xE2,
            ServerResponse::UserResponse03 => 0xE3,
            ServerResponse::UserResponse04 => 0xE4,
            ServerResponse::UserResponse05 => 0xE5,
            ServerResponse::UserResponse06 => 0xE6,
            ServerResponse::UserResponse07 => 0xE7,
            ServerResponse::UserResponse08 => 0xE8,
            ServerResponse::UserResponse09 => 0xE9,
            ServerResponse::UserResponse10 => 0xEA,
            ServerResponse::UserResponse11 => 0xEB,
            ServerResponse::UserResponse12 => 0xEC,
            ServerResponse::UserResponse13 => 0xED,
            ServerResponse::UserResponse14 => 0xEE,
            ServerResponse::UserResponse15 => 0xEF,
            ServerResponse::NoOP => 0xFF,
        }
    }

    /// The value with the given wire code, if there is one.
    pub fn from_code(code: u8) -> (r: Option<ServerResponse>)
        ensures
            r matches Some(v) ==> serverresponse_code(v) == code,
            r is None ==> forall|v: ServerResponse| serverresponse_code(v) != code,
    {
        match code {
            0x80 => Some(ServerResponse::Succeeded),
            0x81 => Some(ServerResponse::Failed),
            0x82 => Some(ServerResponse::DataPacket),
            0x83 => Some(ServerResponse::UpdateSignalIndexCache),
            0x84 => Some(ServerResponse::UpdateBaseTimes),
            0x85 => Some(ServerResponse::UpdateCipherKeys),
            0x86 => Some(ServerResponse::DataStartTime),
            0x87 => Some(ServerResponse::ProcessingComplete),
            0x88 => Some(ServerResponse::BufferBlock),
            0x89 => Some(ServerResponse::Notify),
            0x8A => Some(ServerResponse::ConfigurationChanged),
            0xE0 => Some(ServerResponse::UserResponse00),
            0xE1 => Some(ServerResponse::UserResponse01),
            0xE2 => Some(ServerResponse::UserResponse02),
            0xE3 => Some(ServerResponse::UserResponse03),
            0xE4 => Some(ServerResponse::UserResponse04),
            0xE5 => Some(ServerResponse::UserResponse05),
            0xE6 => Some(ServerResponse::UserResponse06),
            0xE7 => Some(ServerResponse::UserResponse07),
            0xE8 => Some(ServerResponse::UserResponse08),
            0xE9 => Some(ServerResponse::UserResponse09),
            0xEA => Some(ServerResponse::UserResponse10),
            0xEB => Some(ServerResponse::UserResponse11),
            0xEC => Some(ServerResponse::UserResponse12),
            0xED => Some(ServerResponse::UserResponse13),
            0xEE => Some(ServerResponse::UserResponse14),
            0xEF => Some(ServerResponse::UserResponse15),
            0xFF => Some(ServerResponse::NoOP),
            _ => None,
        }
    }
}

/// String encodings of the protocol; this library speaks UTF-8 only.
#[derive(Copy, Clone, Debug, PartialEq, Eq, Hash, Structural)]
pub enum OperationalEncoding {
    /// UTF-16, little endian; not supported.
    UTF16LE,
    /// UTF-16, big endian; not supported.
    UTF16BE,
    /// UTF-8.
    UTF8,
}

impl OperationalEncoding {
    /// The bits of the encoding within the operational modes word.
    pub fn code(&self) -> (r: u32)
        ensures
            *self == OperationalEncoding::UTF16LE ==> r == 0x0000_0000,
            *self == OperationalEncoding::UTF16BE ==> r == 0x0000_0100,
            *self == OperationalEncoding::UTF8 ==> r == 0x0000_0200,
    {
        match self {
            OperationalEncoding::UTF16LE => 0x0000_0000,
            OperationalEncoding::UTF16BE => 0x0000_0100,
            OperationalEncoding::UTF8 => 0x0000_0200,
        }
    }
}

/// Transport security of a connection.
#[derive(Copy, Clone, Debug, PartialEq, Eq, Hash, Structural)]
pub enum SecurityMode {
    /// Plain TCP.
    Off,
    /// TLS over TCP.
    TLS,
}

/// Bits of the flag byte that precedes a data packet or a subscription request.
pub struct DataPacketFlags;

impl DataPacketFlags {
    /// The payload uses the compact measurement format.
    pub const COMPACT: u8 = 0x02;
    /// Which cipher key pair the payload is encrypted with.
    pub const CIPHER_INDEX: u8 = 0x04;
    /// The payload is compressed.
    pub const COMPRESSED: u8 = 0x08;
    /// Which signal index cache the payload uses.
    pub const CACHE_INDEX: u8 = 0x10;
    /// No flag set.
    pub const NO_FLAGS: u8 = 0x00;
}

/// Bits of the operational modes word a subscriber declares on connecting.
pub struct OperationalModes;

impl OperationalModes {
    /// Protocol version.
    pub const VERSION_MASK: u32 = 0x0000_00FF;
    /// String encoding.
    pub const ENCODING_MASK: u32 = 0x0000_0300;
    /// Implementation-specific extensions.
    pub const IMPLEMENTATION_SPECIFIC_EXTENSION_MASK: u32 = 0x00FF_0000;
    /// Receive metadata of other publishers.
    pub const RECEIVE_EXTERNAL_METADATA: u32 = 0x0200_0000;
    /// Receive metadata of the publisher itself.
    pub const RECEIVE_INTERNAL_METADATA: u32 = 0x0400_0000;
    /// Compress payload data.
    pub const COMPRESS_PAYLOAD_DATA: u32 = 0x2000_0000;
    /// Compress the signal index cache.
    pub const COMPRESS_SIGNAL_INDEX_CACHE: u32 = 0x4000_0000;
    /// Compress metadata.
    pub const COMPRESS_METADATA: u32 = 0x8000_0000;
    /// No flag set.
    pub const NO_FLAGS: u32 = 0x0000_0000;
}

/// Default values of connection and subscription settings. Intervals and timeouts are
/// in milliseconds; publish interval, lag time and lead time in microseconds.
#[derive(Clone, Copy)]
pub struct Defaults;

impl Defaults {
    /// Retry connections without end.
    pub const MAX_RETRIES: i32 = -1;
    /// Base retry interval: 1 s.
    pub const RETRY_INTERVAL: i32 = 1000;
    /// Maximum retry interval: 30 s.
    pub const MAX_RETRY_INTERVAL: i32 = 30_000;
    /// Reconnect automatically.
    pub const AUTO_RECONNECT: bool = true;
    /// Request metadata on connecting.
    pub const AUTO_REQUEST_METADATA: bool = true;
    /// Subscribe on connecting.
    pub const AUTO_SUBSCRIBE: bool = true;
    /// Compress payload data.
    pub const COMPRESS_PAYLOAD_DATA: bool = true;
    /// Compress metadata.
    pub const COMPRESS_METADATA: bool = true;
    /// Compress the signal index cache.
    pub const COMPRESS_SIGNAL_INDEX_CACHE: bool = true;
    /// Socket timeout: 2 s.
    pub const SOCKET_TIMEOUT: i32 = 2000;
    /// Protocol version.
    pub const VERSION: u8 = 2;
    /// Do not throttle the data stream.
    pub const THROTTLED: bool = false;
    /// Publish interval: 1 s.
    pub const PUBLISH_INTERVAL: i64 = 1_000_000;
    /// No UDP data channel.
    pub const UDP_DATA_CHANNEL: bool = false;
    /// Any local port for a UDP data channel.
    pub const DATA_CHANNEL_LOCAL_PORT: u16 = 0;
    /// Include timestamps in measurements.
    pub const INCLUDE_TIME: bool = true;
    /// No time reasonability check.
    pub const ENABLE_TIME_REASONABILITY_CHECK: bool = false;
    /// Lag time: 10 s.
    pub const LAG_TIME: i64 = 10_000_000;
    /// Lead time: 5 s.
    pub const LEAD_TIME: i64 = 5_000_000;
    /// Use the publisher's clock as real time.
    pub const USE_LOCAL_CLOCK_AS_REAL_TIME: bool = false;
    /// Full tick resolution.
    pub const USE_MILLISECOND_RESOLUTION: bool = false;
    /// Do not filter NaN values.
    pub const REQUEST_NAN_VALUE_FILTER: bool = false;
    /// Default processing interval.
    pub const PROCESSING_INTERVAL: i32 = -1;
}

} // verus!
