//! What can go wrong, and how each failure reads to a person.

use vstd::prelude::*;
use vstd::string::*;
use crate::dbus::Property;

verus! {

/// No bus could be reached; the text is the transport's.
#[derive(Debug, PartialEq, Eq)]
pub struct ConnectionError {
    pub reason: String,
}

/// Why a reply could not be taken as the value of a property.
#[derive(Debug, PartialEq, Eq)]
pub enum Undecoded {
    /// The reply carries no value of the property's type.
    WrongType(Property),
    /// The body of the reply could not be read at all; the text is the
    /// transport's.
    Unreadable(String),
}

/// A call to the relay did not yield what was asked for.
#[derive(Debug, PartialEq, Eq)]
pub enum RemoteError {
    /// The call itself was rejected; the text is the bus's.
    CallFailure(String),
    /// The call returned, but not with a value of the expected type.
    DecodeFailure(Undecoded),
}

/// A bridged call did not complete.
#[derive(Debug, PartialEq, Eq)]
pub enum BridgeError {
    /// The connection for the call could not be opened.
    Connection(ConnectionError),
    /// The relay, or the bus on the way to it, failed the call.
    Remote(RemoteError),
    /// The worker did not run the call to its end; the text is the
    /// runtime's.
    WorkerFailure(String),
}

/// The tray icon could not be produced or shown.
#[derive(Debug, PartialEq, Eq)]
pub enum IconError {
    /// The image encoder refused the canvas.
    Encoding,
    /// The tray host refused the icon or the tooltip; the text is the host's.
    HostRejected(String),
}

impl ConnectionError {
    /// What `message` returns, as a sequence of characters.
    pub open spec fn message_text(self) -> Seq<char> {
        self.reason@
    }

    /// The failure as one human-readable line.
    pub fn message(&self) -> (text: String)
        ensures
            text@ == self.message_text(),
    {
        self.reason.clone()
    }
}

impl Undecoded {
    /// What `message` returns, as a sequence of characters.
    pub open spec fn message_text(self) -> Seq<char> {
        match self {
            Undecoded::WrongType(Property::Temperature) => "Failed to parse temperature"@,
            Undecoded::WrongType(Property::Brightness) => "Failed to parse brightness"@,
            Undecoded::Unreadable(reason) => reason@,
        }
    }

    /// The failure as one human-readable line.
    pub fn message(&self) -> (text: String)
        ensures
            text@ == self.message_text(),
    {
        match self {
            Undecoded::WrongType(property) => match property {
                Property::Temperature => String::from_str("Failed to parse temperature"),
                Property::Brightness => String::from_str("Failed to parse brightness"),
            },
            Undecoded::Unreadable(reason) => reason.clone(),
        }
    }
}

impl RemoteError {
    /// What `message` returns, as a sequence of characters.
    pub open spec fn message_text(self) -> Seq<char> {
        match self {
            RemoteError::CallFailure(reason) => reason@,
            RemoteError::DecodeFailure(cause) => cause.message_text(),
        }
    }

    /// The failure as one human-readable line.
    pub fn message(&self) -> (text: String)
        ensures
            text@ == self.message_text(),
    {
        match self {
            RemoteError::CallFailure(reason) => reason.clone(),
            RemoteError::DecodeFailure(cause) => cause.message(),
        }
    }
}

impl BridgeError {
    /// What `message` returns, as a sequence of characters.
    pub open spec fn message_text(self) -> Seq<char> {
        match self {
            BridgeError::Connection(error) => error.message_text(),
            BridgeError::Remote(error) => error.message_text(),
            BridgeError::WorkerFailure(reason) => reason@,
        }
    }

    /// The failure as one human-readable line.
    pub fn message(&self) -> (text: String)
        ensures
            text@ == self.message_text(),
    {
        match self {
            BridgeError::Connection(error) => error.message(),
            BridgeError::Remote(error) => error.message(),
            BridgeError::WorkerFailure(reason) => reason.clone(),
        }
    }
}

impl IconError {
    /// What `message` returns, as a sequence of characters.
    pub open spec fn message_text(self) -> Seq<char> {
        match self {
            IconError::Encoding => "Failed to write PNG"@,
            IconError::HostRejected(reason) => reason@,
        }
    }

    /// The failure as one human-readable line.
    pub fn message(&self) -> (text: String)
        ensures
            text@ == self.message_text(),
    {
        match self {
            IconError::Encoding => String::from_str("Failed to write PNG"),
            IconError::HostRejected(reason) => reason.clone(),
        }
    }
}

} // verus!
