//! A local-machine publish/subscribe message broker protocol: framed binary
//! messages over named pipes, a control protocol on a common access pipe, and
//! the broker's routing rules.
//!
//! This crate holds the verified core: the wire codec, the control-message
//! codec, the message model, and the pure state machines of the client and the
//! broker. The pipe I/O itself, and the threads that poll the pipes, live in
//! the surrounding application code.

pub mod cap;
pub mod client;
pub mod message;
pub mod serializer;
pub mod server;
pub mod options;

pub use message::OctopipesMessage;
pub use options::OctopipesOptions;

use vstd::prelude::*;

verus! {

/// Errors returned by client-side operations.
#[derive(Copy, Clone, PartialEq, Eq, Structural, Debug)]
pub enum OctopipesError {
    Uninitialized,
    BadPacket,
    BadChecksum,
    UnsupportedVersion,
    NoDataAvailable,
    OpenFailed,
    WriteFailed,
    ReadFailed,
    CapTimeout,
    NotSubscribed,
    NotUnsubscribed,
    ThreadError,
    ThreadAlreadyRunning,
    Unknown,
}

/// Errors carried inside an Assignment reply on the common access pipe.
#[derive(Copy, Clone, PartialEq, Eq, Structural, Debug)]
pub enum OctopipesCapError {
    NoError,
    NameAlreadyTaken,
    FileSystemError,
}

/// The type of a control message on the common access pipe.
#[derive(Copy, Clone, PartialEq, Eq, Structural, Debug)]
pub enum OctopipesCapMessage {
    Subscription,
    Unsubscription,
    Assignment,
}

/// The lifecycle state of a client.
#[derive(Copy, Clone, PartialEq, Eq, Structural, Debug)]
pub enum OctopipesState {
    Initialized,
    Subscribed,
    Running,
    Unsubscribed,
    Stopped,
}

/// The protocol version spoken on the wire.
#[derive(Copy, Clone, PartialEq, Eq, Structural, Debug)]
pub enum OctopipesProtocolVersion {
    Version1,
}

/// Errors returned by server-side operations.
#[derive(Copy, Clone, PartialEq, Eq, Structural, Debug)]
pub enum OctopipesServerError {
    Uninitialized,
    BadPacket,
    BadChecksum,
    UnsupportedVersion,
    OpenFailed,
    WriteFailed,
    ReadFailed,
    CapTimeout,
    ThreadError,
    ThreadAlreadyRunning,
    WorkerExists,
    WorkerNotFound,
    WorkerAlreadyRunning,
    WorkerNotRunning,
    NoRecipient,
    BadClientDir,
    Unknown,
}

/// The state of the server's listener on the common access pipe.
#[derive(Copy, Clone, PartialEq, Eq, Structural, Debug)]
pub enum OctopipesServerState {
    Initialized,
    Running,
    Block,
    Stopped,
}

impl OctopipesProtocolVersion {
    /// The version byte written on the wire.
    pub fn to_u8(&self) -> (r: u8)
        ensures
            r == 1u8,
    {
        match self {
            OctopipesProtocolVersion::Version1 => 1,
        }
    }

    /// Reads a version byte; only 1 names a known version.
    pub fn from_u8(value: u8) -> (r: Option<OctopipesProtocolVersion>)
        ensures
            r == (if value == 1u8 {
                Some(OctopipesProtocolVersion::Version1)
            } else {
                None::<OctopipesProtocolVersion>
            }),
    {
        match value {
            1 => Some(OctopipesProtocolVersion::Version1),
            _ => None,
        }
    }
}

impl OctopipesCapMessage {
    /// The type byte that names this control message on the wire.
    pub fn to_u8(&self) -> (r: u8)
        ensures
            r == self.spec_u8(),
    {
        match self {
            OctopipesCapMessage::Subscription => 0x01,
            OctopipesCapMessage::Unsubscription => 0x02,
            OctopipesCapMessage::Assignment => 0xff,
        }
    }

    /// The type byte of each control message.
    pub open spec fn spec_u8(&self) -> u8 {
        match self {
            OctopipesCapMessage::Subscription => 0x01,
            OctopipesCapMessage::Unsubscription => 0x02,
            OctopipesCapMessage::Assignment => 0xff,
        }
    }

    /// Reads a control-message type byte; 0x01, 0x02 and 0xff name the three
    /// known types.
    pub fn from_u8(value: u8) -> (r: Option<OctopipesCapMessage>)
        ensures
            r == Self::spec_from_u8(value),
    {
        match value {
            0x01 => Some(OctopipesCapMessage::Subscription),
            0x02 => Some(OctopipesCapMessage::Unsubscription),
            0xff => Some(OctopipesCapMessage::Assignment),
            _ => None,
        }
    }

    /// Which control-message type, if any, a type byte names.
    pub open spec fn spec_from_u8(value: u8) -> Option<OctopipesCapMessage> {
        if value == 0x01 {
            Some(OctopipesCapMessage::Subscription)
        } else if value == 0x02 {
            Some(OctopipesCapMessage::Unsubscription)
        } else if value == 0xff {
            Some(OctopipesCapMessage::Assignment)
        } else {
            None
        }
    }

    /// A short name for the control-message type.
    pub fn to_string(&self) -> (r: &'static str)
        ensures
            r@ == self.spec_string(),
    {
        match self {
            OctopipesCapMessage::Assignment => "ASSIGNMENT",
            OctopipesCapMessage::Subscription => "SUBSCRIPTION",
            OctopipesCapMessage::Unsubscription => "UNSUBSCRIPTION",
        }
    }

    /// The short name of each control-message type.
    pub open spec fn spec_string(&self) -> Seq<char> {
        match self {
            OctopipesCapMessage::Assignment => "ASSIGNMENT"@,
            OctopipesCapMessage::Subscription => "SUBSCRIPTION"@,
            OctopipesCapMessage::Unsubscription => "UNSUBSCRIPTION"@,
        }
    }
}

impl OctopipesCapError {
    /// The error byte written in an Assignment payload.
    pub fn to_u8(&self) -> (r: u8)
        ensures
            r == self.spec_u8(),
    {
        match self {
            OctopipesCapError::NoError => 0x00,
            OctopipesCapError::NameAlreadyTaken => 0x01,
            OctopipesCapError::FileSystemError => 0x02,
        }
    }

    /// The error byte of each Assignment error.
    pub open spec fn spec_u8(&self) -> u8 {
        match self {
            OctopipesCapError::NoError => 0x00,
            OctopipesCapError::NameAlreadyTaken => 0x01,
            OctopipesCapError::FileSystemError => 0x02,
        }
    }

    /// Reads an Assignment error byte; 0, 1 and 2 name the known errors.
    pub fn from_u8(value: u8) -> (r: Option<OctopipesCapError>)
        ensures
            r == Self::spec_from_u8(value),
    {
        match value {
            0x00 => Some(OctopipesCapError::NoError),
            0x01 => Some(OctopipesCapError::NameAlreadyTaken),
            0x02 => Some(OctopipesCapError::FileSystemError),
            _ => None,
        }
    }

    /// Which Assignment error, if any, an error byte names.
    pub open spec fn spec_from_u8(value: u8) -> Option<OctopipesCapError> {
        if value == 0x00 {
            Some(OctopipesCapError::NoError)
        } else if value == 0x01 {
            Some(OctopipesCapError::NameAlreadyTaken)
        } else if value == 0x02 {
            Some(OctopipesCapError::FileSystemError)
        } else {
            None
        }
    }

    /// A short name for the Assignment error.
    pub fn to_string(&self) -> (r: &'static str)
        ensures
            r@ == self.spec_string(),
    {
        match self {
            OctopipesCapError::FileSystemError => "FileSystemError",
            OctopipesCapError::NameAlreadyTaken => "NameAlreadyTaken",
            OctopipesCapError::NoError => "NoError",
        }
    }

    /// The short name of each Assignment error.
    pub open spec fn spec_string(&self) -> Seq<char> {
        match self {
            OctopipesCapError::FileSystemError => "FileSystemError"@,
            OctopipesCapError::NameAlreadyTaken => "NameAlreadyTaken"@,
            OctopipesCapError::NoError => "NoError"@,
        }
    }
}

impl OctopipesError {
    /// A short description of the error.
    pub fn to_string(&self) -> (r: &'static str)
        ensures
            r@ == self.spec_string(),
    {
        match self {
            OctopipesError::Uninitialized => "OctopipesClient is not initialized yet",
            OctopipesError::BadChecksum => "Packet has bad checksum",
            OctopipesError::BadPacket => "It was not possible to decode packet, since it contains bad data",
            OctopipesError::CapTimeout => "CAP timeout",
            OctopipesError::NoDataAvailable => "There is not data available on pipe",
            OctopipesError::NotSubscribed => "The client must be subscribed to the server before receiving and sending messages",
            OctopipesError::NotUnsubscribed => "The client must be unsubscribed to perform this action",
            OctopipesError::OpenFailed => "Could not open the requested pipe",
            OctopipesError::ReadFailed => "Could not read from pipe",
            OctopipesError::ThreadAlreadyRunning => "Client loop Thread is already running",
            OctopipesError::ThreadError => "Thread error",
            OctopipesError::UnsupportedVersion => "Unsupported protocol version",
            OctopipesError::WriteFailed => "Could not write to pipe",
            _ => "Unknown error",
        }
    }

    /// The description of each error.
    pub open spec fn spec_string(&self) -> Seq<char> {
        match self {
            OctopipesError::Uninitialized => "OctopipesClient is not initialized yet"@,
            OctopipesError::BadChecksum => "Packet has bad checksum"@,
            OctopipesError::BadPacket => "It was not possible to decode packet, since it contains bad data"@,
            OctopipesError::CapTimeout => "CAP timeout"@,
            OctopipesError::NoDataAvailable => "There is not data available on pipe"@,
            OctopipesError::NotSubscribed => "The client must be subscribed to the server before receiving and sending messages"@,
            OctopipesError::NotUnsubscribed => "The client must be unsubscribed to perform this action"@,
            OctopipesError::OpenFailed => "Could not open the requested pipe"@,
            OctopipesError::ReadFailed => "Could not read from pipe"@,
            OctopipesError::ThreadAlreadyRunning => "Client loop Thread is already running"@,
            OctopipesError::ThreadError => "Thread error"@,
            OctopipesError::UnsupportedVersion => "Unsupported protocol version"@,
            OctopipesError::WriteFailed => "Could not write to pipe"@,
            _ => "Unknown error"@,
        }
    }

    /// The server-side error that stands for this client-side error.
    pub fn to_server_error(&self) -> (r: OctopipesServerError)
        ensures
            r == self.spec_server_error(),
    {
        match self {
            OctopipesError::BadChecksum => OctopipesServerError::BadChecksum,
            OctopipesError::BadPacket => OctopipesServerError::BadPacket,
            OctopipesError::CapTimeout => OctopipesServerError::CapTimeout,
            OctopipesError::OpenFailed => OctopipesServerError::OpenFailed,
            OctopipesError::ReadFailed => OctopipesServerError::ReadFailed,
            OctopipesError::WriteFailed => OctopipesServerError::WriteFailed,
            OctopipesError::UnsupportedVersion => OctopipesServerError::UnsupportedVersion,
            _ => OctopipesServerError::Unknown,
        }
    }

    /// The table of the client-to-server error translation.
    pub open spec fn spec_server_error(&self) -> OctopipesServerError {
        match self {
            OctopipesError::BadChecksum => OctopipesServerError::BadChecksum,
            OctopipesError::BadPacket => OctopipesServerError::BadPacket,
            OctopipesError::CapTimeout => OctopipesServerError::CapTimeout,
            OctopipesError::OpenFailed => OctopipesServerError::OpenFailed,
            OctopipesError::ReadFailed => OctopipesServerError::ReadFailed,
            OctopipesError::WriteFailed => OctopipesServerError::WriteFailed,
            OctopipesError::UnsupportedVersion => OctopipesServerError::UnsupportedVersion,
            _ => OctopipesServerError::Unknown,
        }
    }
}

impl OctopipesServerError {
    /// A short description of the error.
    pub fn to_string(&self) -> (r: &'static str)
        ensures
            r@ == self.spec_string(),
    {
        match self {
            OctopipesServerError::Uninitialized => "OctopipesServer is not initialized yet",
            OctopipesServerError::BadChecksum => "Packet has bad checksum",
            OctopipesServerError::BadClientDir => "Could not create client directory",
            OctopipesServerError::BadPacket => "It was not possible to decode packet, since it contains bad data",
            OctopipesServerError::CapTimeout => "CAP timeout",
            OctopipesServerError::NoRecipient => "The provided message has no recipient",
            OctopipesServerError::OpenFailed => "Could not open the requested pipe",
            OctopipesServerError::ReadFailed => "Could not read from pipe",
            OctopipesServerError::ThreadAlreadyRunning => "Server CAP loop Thread is already running",
            OctopipesServerError::ThreadError => "Thread error",
            OctopipesServerError::WorkerAlreadyRunning => "The requested worker is already running",
            OctopipesServerError::WorkerNotFound => "The requested Worker couldn't be found",
            OctopipesServerError::WorkerExists => "The requested Worker already exists",
            OctopipesServerError::WorkerNotRunning => "This worker is not running",
            OctopipesServerError::WriteFailed => "Could not write to pipe",
            OctopipesServerError::UnsupportedVersion => "Unsupported protocol version",
            _ => "Unknown error",
        }
    }

    /// The description of each error.
    pub open spec fn spec_string(&self) -> Seq<char> {
        match self {
            OctopipesServerError::Uninitialized => "OctopipesServer is not initialized yet"@,
            OctopipesServerError::BadChecksum => "Packet has bad checksum"@,
            OctopipesServerError::BadClientDir => "Could not create client directory"@,
            OctopipesServerError::BadPacket => "It was not possible to decode packet, since it contains bad data"@,
            OctopipesServerError::CapTimeout => "CAP timeout"@,
            OctopipesServerError::NoRecipient => "The provided message has no recipient"@,
            OctopipesServerError::OpenFailed => "Could not open the requested pipe"@,
            OctopipesServerError::ReadFailed => "Could not read from pipe"@,
            OctopipesServerError::ThreadAlreadyRunning => "Server CAP loop Thread is already running"@,
            OctopipesServerError::ThreadError => "Thread error"@,
            OctopipesServerError::WorkerAlreadyRunning => "The requested worker is already running"@,
            OctopipesServerError::WorkerNotFound => "The requested Worker couldn't be found"@,
            OctopipesServerError::WorkerExists => "The requested Worker already exists"@,
            OctopipesServerError::WorkerNotRunning => "This worker is not running"@,
            OctopipesServerError::WriteFailed => "Could not write to pipe"@,
            OctopipesServerError::UnsupportedVersion => "Unsupported protocol version"@,
            _ => "Unknown error"@,
        }
    }
}

} // verus!
