//! The bus client: which calls read and write the relay's two properties,
//! what their replies mean, and how the composed operations proceed from
//! one call to the next. Nothing here touches a bus; the caller performs
//! each call and hands back the reply.

use vstd::prelude::*;
use crate::error::{ConnectionError, RemoteError, Undecoded};

verus! {

/// A 64-bit IEEE 754 number, held by its bit pattern. The client passes
/// such numbers on and never computes with them.
#[derive(Debug, Clone, Copy, PartialEq, Eq, Structural)]
pub struct Double {
    pub bits: u64,
}

/// The state of the relay: the colour temperature in kelvin and the
/// brightness. Neither is checked against a range.
#[derive(Debug, Clone, Copy, PartialEq, Eq, Structural)]
pub struct GammaRelayState {
    pub temperature: u16,
    pub brightness: Double,
}

/// One of the relay's two properties.
#[derive(Debug, Clone, Copy, PartialEq, Eq, Structural)]
pub enum Property {
    Temperature,
    Brightness,
}

/// A value in the bus's variant encoding, as far as the client tells
/// values apart: the fixed-size types with their content, anything else
/// without.
#[derive(Debug, Clone, Copy, PartialEq, Eq, Structural)]
pub enum Variant {
    U8(u8),
    Bool(bool),
    I16(i16),
    U16(u16),
    I32(i32),
    U32(u32),
    I64(i64),
    U64(u64),
    F64(Double),
    /// A string, a container, a nested variant or a file descriptor.
    Other,
}

/// A value the client writes: a number of one of the two types that the
/// relay's properties have.
#[derive(Debug, Clone, Copy, PartialEq, Eq, Structural)]
pub enum Payload {
    U16(u16),
    F64(Double),
}

/// A call of the bus's generic property interface on the relay.
#[derive(Debug, Clone, Copy, PartialEq, Eq, Structural)]
pub enum PropertyCall {
    /// Read a property.
    Read { property: Property },
    /// Write a property; the value travels wrapped as a variant.
    Write { property: Property, value: Payload },
}

/// What came back for a call.
#[derive(Debug, PartialEq, Eq)]
pub enum Reply {
    /// The call returned, and its body is this variant.
    Value(Variant),
    /// The call returned, and its body was not looked at.
    Empty,
    /// The call returned, but its body could not be read as a variant.
    Unreadable(String),
    /// The call failed.
    Failed(String),
}

/// What an operation yields when it succeeds.
#[derive(Debug, Clone, Copy, PartialEq, Eq, Structural)]
pub enum Outcome {
    Temperature(u16),
    Brightness(Double),
    State(GammaRelayState),
    /// A write went through.
    Done,
}

/// An operation under way: which operation it is, and which of its calls
/// is outstanding.
#[derive(Debug, Clone, Copy, PartialEq, Eq, Structural)]
pub enum Exchange {
    GetTemperature,
    SetTemperature(u16),
    GetBrightness,
    SetBrightness(Double),
    /// Reading the state: the temperature is being read.
    GetStateTemperature,
    /// Reading the state: the temperature is known, the brightness is being
    /// read.
    GetStateBrightness(u16),
    /// Writing the state: the temperature is being written.
    SetStateTemperature(GammaRelayState),
    /// Writing the state: the temperature is written, the brightness is
    /// being written.
    SetStateBrightness(Double),
}

/// Where an operation stands once a reply has been taken in.
#[derive(Debug, PartialEq, Eq)]
pub enum Progress {
    /// Another call is to be made.
    Continue(Exchange),
    /// The operation ended this way; no further call belongs to it.
    Finished(Result<Outcome, RemoteError>),
}

impl Property {
    /// The name of the property on the bus.
    pub open spec fn name_text(self) -> Seq<char> {
        match self {
            Property::Temperature => "Temperature"@,
            Property::Brightness => "Brightness"@,
        }
    }

    /// The name of the property on the bus.
    pub fn name(&self) -> (name: &'static str)
        ensures
            name@ == self.name_text(),
    {
        match self {
            Property::Temperature => "Temperature",
            Property::Brightness => "Brightness",
        }
    }
}

impl PropertyCall {
    /// The property read or written.
    pub open spec fn property(self) -> Property {
        match self {
            PropertyCall::Read { property } => property,
            PropertyCall::Write { property, .. } => property,
        }
    }

    /// The method of the property interface: `Get` to read, `Set` to write.
    pub open spec fn member_text(self) -> Seq<char> {
        match self {
            PropertyCall::Read { .. } => "Get"@,
            PropertyCall::Write { .. } => "Set"@,
        }
    }

    /// The well-known name of the service the call goes to.
    pub fn destination(&self) -> (name: &'static str)
        ensures
            name@ == "rs.wl-gammarelay"@,
    {
        "rs.wl-gammarelay"
    }

    /// The path of the object the call goes to.
    pub fn path(&self) -> (path: &'static str)
        ensures
            path@ == "/"@,
    {
        "/"
    }

    /// The interface the called method belongs to.
    pub fn interface(&self) -> (name: &'static str)
        ensures
            name@ == "org.freedesktop.DBus.Properties"@,
    {
        "org.freedesktop.DBus.Properties"
    }

    /// The method called.
    pub fn member(&self) -> (name: &'static str)
        ensures
            name@ == self.member_text(),
    {
        match self {
            PropertyCall::Read { .. } => "Get",
            PropertyCall::Write { .. } => "Set",
        }
    }

    /// The interface that holds the property: the first argument.
    pub fn property_interface(&self) -> (name: &'static str)
        ensures
            name@ == "rs.wl.gammarelay"@,
    {
        "rs.wl.gammarelay"
    }

    /// The name of the property: the second argument.
    pub fn property_name(&self) -> (name: &'static str)
        ensures
            name@ == self.property().name_text(),
    {
        match self {
            PropertyCall::Read { property } => property.name(),
            PropertyCall::Write { property, .. } => property.name(),
        }
    }

    /// The value to write: the third argument of a write, absent from a
    /// read.
    pub fn value(&self) -> (value: Option<Payload>)
        ensures
            value == match *self {
                PropertyCall::Read { .. } => None,
                PropertyCall::Write { value, .. } => Some(value),
            },
    {
        match self {
            PropertyCall::Read { .. } => None,
            PropertyCall::Write { value, .. } => Some(*value),
        }
    }
}

/// What a reply to a read of the temperature is worth: the number, if the
/// reply carries an unsigned 16-bit variant.
pub open spec fn temperature_in(reply: Reply) -> Result<u16, RemoteError> {
    match reply {
        Reply::Value(Variant::U16(temperature)) => Ok(temperature),
        Reply::Value(_) => Err(RemoteError::DecodeFailure(Undecoded::WrongType(Property::Temperature))),
        Reply::Empty => Err(RemoteError::DecodeFailure(Undecoded::WrongType(Property::Temperature))),
        Reply::Unreadable(reason) => Err(RemoteError::DecodeFailure(Undecoded::Unreadable(reason))),
        Reply::Failed(reason) => Err(RemoteError::CallFailure(reason)),
    }
}

/// What a reply to a read of the brightness is worth: the number, if the
/// reply carries a 64-bit floating-point variant.
pub open spec fn brightness_in(reply: Reply) -> Result<Double, RemoteError> {
    match reply {
        Reply::Value(Variant::F64(brightness)) => Ok(brightness),
        Reply::Value(_) => Err(RemoteError::DecodeFailure(Undecoded::WrongType(Property::Brightness))),
        Reply::Empty => Err(RemoteError::DecodeFailure(Undecoded::WrongType(Property::Brightness))),
        Reply::Unreadable(reason) => Err(RemoteError::DecodeFailure(Undecoded::Unreadable(reason))),
        Reply::Failed(reason) => Err(RemoteError::CallFailure(reason)),
    }
}

/// What a reply to a write is worth: a write succeeds when the bus accepts
/// the call; what the relay made of the value is not read back.
pub open spec fn acknowledgement_in(reply: Reply) -> Result<(), RemoteError> {
    match reply {
        Reply::Failed(reason) => Err(RemoteError::CallFailure(reason)),
        _ => Ok(()),
    }
}

/// Decodes the reply to a read of the temperature.
pub fn decode_temperature(reply: Reply) -> (decoded: Result<u16, RemoteError>)
    ensures
        decoded == temperature_in(reply),
{
    match reply {
        Reply::Value(value) => match value {
            Variant::U16(temperature) => Ok(temperature),
            _ => Err(RemoteError::DecodeFailure(Undecoded::WrongType(Property::Temperature))),
        },
        Reply::Empty => Err(RemoteError::DecodeFailure(Undecoded::WrongType(Property::Temperature))),
        Reply::Unreadable(reason) => Err(RemoteError::DecodeFailure(Undecoded::Unreadable(reason))),
        Reply::Failed(reason) => Err(RemoteError::CallFailure(reason)),
    }
}

/// Decodes the reply to a read of the brightness.
pub fn decode_brightness(reply: Reply) -> (decoded: Result<Double, RemoteError>)
    ensures
        decoded == brightness_in(reply),
{
    match reply {
        Reply::Value(value) => match value {
            Variant::F64(brightness) => Ok(brightness),
            _ => Err(RemoteError::DecodeFailure(Undecoded::WrongType(Property::Brightness))),
        },
        Reply::Empty => Err(RemoteError::DecodeFailure(Undecoded::WrongType(Property::Brightness))),
        Reply::Unreadable(reason) => Err(RemoteError::DecodeFailure(Undecoded::Unreadable(reason))),
        Reply::Failed(reason) => Err(RemoteError::CallFailure(reason)),
    }
}

/// Decodes the reply to a write.
pub fn decode_acknowledgement(reply: Reply) -> (decoded: Result<(), RemoteError>)
    ensures
        decoded == acknowledgement_in(reply),
{
    match reply {
        Reply::Failed(reason) => Err(RemoteError::CallFailure(reason)),
        _ => Ok(()),
    }
}

/// The temperature that an outcome stands for. An outcome of another kind
/// holds none, which counts as a reply of the wrong type.
pub open spec fn temperature_from(outcome: Outcome) -> Result<u16, RemoteError> {
    match outcome {
        Outcome::Temperature(temperature) => Ok(temperature),
        _ => Err(RemoteError::DecodeFailure(Undecoded::WrongType(Property::Temperature))),
    }
}

/// The brightness that an outcome stands for. An outcome of another kind
/// holds none, which counts as a reply of the wrong type.
pub open spec fn brightness_from(outcome: Outcome) -> Result<Double, RemoteError> {
    match outcome {
        Outcome::Brightness(brightness) => Ok(brightness),
        _ => Err(RemoteError::DecodeFailure(Undecoded::WrongType(Property::Brightness))),
    }
}

/// The state that an outcome stands for. An outcome of another kind holds
/// none, which counts as a wrong type for the property read first.
pub open spec fn state_from(outcome: Outcome) -> Result<GammaRelayState, RemoteError> {
    match outcome {
        Outcome::State(state) => Ok(state),
        _ => Err(RemoteError::DecodeFailure(Undecoded::WrongType(Property::Temperature))),
    }
}

/// Takes the temperature out of the outcome of a read of the temperature.
pub fn temperature_of(outcome: Outcome) -> (temperature: Result<u16, RemoteError>)
    ensures
        temperature == temperature_from(outcome),
{
    match outcome {
        Outcome::Temperature(temperature) => Ok(temperature),
        _ => Err(RemoteError::DecodeFailure(Undecoded::WrongType(Property::Temperature))),
    }
}

/// Takes the brightness out of the outcome of a read of the brightness.
pub fn brightness_of(outcome: Outcome) -> (brightness: Result<Double, RemoteError>)
    ensures
        brightness == brightness_from(outcome),
{
    match outcome {
        Outcome::Brightness(brightness) => Ok(brightness),
        _ => Err(RemoteError::DecodeFailure(Undecoded::WrongType(Property::Brightness))),
    }
}

/// Takes the state out of the outcome of a read of the state.
pub fn state_of(outcome: Outcome) -> (state: Result<GammaRelayState, RemoteError>)
    ensures
        state == state_from(outcome),
{
    match outcome {
        Outcome::State(state) => Ok(state),
        _ => Err(RemoteError::DecodeFailure(Undecoded::WrongType(Property::Temperature))),
    }
}

impl Exchange {
    /// The call that is outstanding.
    pub open spec fn pending(self) -> PropertyCall {
        match self {
            Exchange::GetTemperature => PropertyCall::Read { property: Property::Temperature },
            Exchange::SetTemperature(temperature) => PropertyCall::Write {
                property: Property::Temperature,
                value: Payload::U16(temperature),
            },
            Exchange::GetBrightness => PropertyCall::Read { property: Property::Brightness },
            Exchange::SetBrightness(brightness) => PropertyCall::Write {
                property: Property::Brightness,
                value: Payload::F64(brightness),
            },
            Exchange::GetStateTemperature => PropertyCall::Read { property: Property::Temperature },
            Exchange::GetStateBrightness(_) => PropertyCall::Read { property: Property::Brightness },
            Exchange::SetStateTemperature(state) => PropertyCall::Write {
                property: Property::Temperature,
                value: Payload::U16(state.temperature),
            },
            Exchange::SetStateBrightness(brightness) => PropertyCall::Write {
                property: Property::Brightness,
                value: Payload::F64(brightness),
            },
        }
    }

    /// Where the operation stands after `reply` to the outstanding call.
    /// A single read or write ends with its reply. Reading the state reads
    /// the temperature, then the brightness; writing it writes the
    /// temperature, then the brightness. The first failure ends either, and
    /// nothing is undone or tried again.
    pub open spec fn after(self, reply: Reply) -> Progress {
        match self {
            Exchange::GetTemperature => Progress::Finished(
                match temperature_in(reply) {
                    Ok(temperature) => Ok(Outcome::Temperature(temperature)),
                    Err(error) => Err(error),
                },
            ),
            Exchange::GetBrightness => Progress::Finished(
                match brightness_in(reply) {
                    Ok(brightness) => Ok(Outcome::Brightness(brightness)),
                    Err(error) => Err(error),
                },
            ),
            Exchange::SetTemperature(_) => Progress::Finished(
                match acknowledgement_in(reply) {
                    Ok(()) => Ok(Outcome::Done),
                    Err(error) => Err(error),
                },
            ),
            Exchange::SetBrightness(_) => Progress::Finished(
                match acknowledgement_in(reply) {
                    Ok(()) => Ok(Outcome::Done),
                    Err(error) => Err(error),
                },
            ),
            Exchange::GetStateTemperature => match temperature_in(reply) {
                Ok(temperature) => Progress::Continue(Exchange::GetStateBrightness(temperature)),
                Err(error) => Progress::Finished(Err(error)),
            },
            Exchange::GetStateBrightness(temperature) => Progress::Finished(
                match brightness_in(reply) {
                    Ok(brightness) => Ok(Outcome::State(GammaRelayState { temperature, brightness })),
                    Err(error) => Err(error),
                },
            ),
            Exchange::SetStateTemperature(state) => match acknowledgement_in(reply) {
                Ok(()) => Progress::Continue(Exchange::SetStateBrightness(state.brightness)),
                Err(error) => Progress::Finished(Err(error)),
            },
            Exchange::SetStateBrightness(_) => Progress::Finished(
                match acknowledgement_in(reply) {
                    Ok(()) => Ok(Outcome::Done),
                    Err(error) => Err(error),
                },
            ),
        }
    }

    /// The call to make now.
    pub fn call(&self) -> (call: PropertyCall)
        ensures
            call == self.pending(),
    {
        match self {
            Exchange::GetTemperature => PropertyCall::Read { property: Property::Temperature },
            Exchange::SetTemperature(temperature) => PropertyCall::Write {
                property: Property::Temperature,
                value: Payload::U16(*temperature),
            },
            Exchange::GetBrightness => PropertyCall::Read { property: Property::Brightness },
            Exchange::SetBrightness(brightness) => PropertyCall::Write {
                property: Property::Brightness,
                value: Payload::F64(*brightness),
            },
            Exchange::GetStateTemperature => PropertyCall::Read { property: Property::Temperature },
            Exchange::GetStateBrightness(_) => PropertyCall::Read { property: Property::Brightness },
            Exchange::SetStateTemperature(state) => PropertyCall::Write {
                property: Property::Temperature,
                value: Payload::U16(state.temperature),
            },
            Exchange::SetStateBrightness(brightness) => PropertyCall::Write {
                property: Property::Brightness,
                value: Payload::F64(*brightness),
            },
        }
    }

    /// Takes in the reply to the outstanding call.
    pub fn resume(self, reply: Reply) -> (progress: Progress)
        ensures
            progress == self.after(reply),
    {
        match self {
            Exchange::GetTemperature => match decode_temperature(reply) {
                Ok(temperature) => Progress::Finished(Ok(Outcome::Temperature(temperature))),
                Err(error) => Progress::Finished(Err(error)),
            },
            Exchange::GetBrightness => match decode_brightness(reply) {
                Ok(brightness) => Progress::Finished(Ok(Outcome::Brightness(brightness))),
                Err(error) => Progress::Finished(Err(error)),
            },
            Exchange::SetTemperature(_) => match decode_acknowledgement(reply) {
                Ok(()) => Progress::Finished(Ok(Outcome::Done)),
                Err(error) => Progress::Finished(Err(error)),
            },
            Exchange::SetBrightness(_) => match decode_acknowledgement(reply) {
                Ok(()) => Progress::Finished(Ok(Outcome::Done)),
                Err(error) => Progress::Finished(Err(error)),
            },
            Exchange::GetStateTemperature => match decode_temperature(reply) {
                Ok(temperature) => Progress::Continue(Exchange::GetStateBrightness(temperature)),
                Err(error) => Progress::Finished(Err(error)),
            },
            Exchange::GetStateBrightness(temperature) => match decode_brightness(reply) {
                Ok(brightness) => Progress::Finished(
                    Ok(Outcome::State(GammaRelayState { temperature, brightness })),
                ),
                Err(error) => Progress::Finished(Err(error)),
            },
            Exchange::SetStateTemperature(state) => match decode_acknowledgement(reply) {
                Ok(()) => Progress::Continue(Exchange::SetStateBrightness(state.brightness)),
                Err(error) => Progress::Finished(Err(error)),
            },
            Exchange::SetStateBrightness(_) => match decode_acknowledgement(reply) {
                Ok(()) => Progress::Finished(Ok(Outcome::Done)),
                Err(error) => Progress::Finished(Err(error)),
            },
        }
    }
}

/// The client of one open connection to the bus. It is made from the
/// outcome of opening the connection and from nothing else, holds the
/// connection for as long as it lives, and starts the operations; it keeps
/// nothing of what it has read or written. What a connection is, is the
/// caller's business: the client only carries it.
#[derive(Debug)]
pub struct DBusClient<C> {
    connection: C,
}

impl<C> DBusClient<C> {
    /// The connection the client holds.
    pub closed spec fn handle(self) -> C {
        self.connection
    }

    /// Makes the client of a connection from the outcome of opening it:
    /// the client of that connection where it was opened, and the failure
    /// to reach the bus, with the transport's words, where it was not.
    pub fn new(opened: Result<C, String>) -> (client: Result<DBusClient<C>, ConnectionError>)
        ensures
            match opened {
                Ok(connection) => client is Ok && client->Ok_0.handle() == connection,
                Err(reason) => client == Err::<DBusClient<C>, ConnectionError>(
                    ConnectionError { reason },
                ),
            },
    {
        match opened {
            Ok(connection) => Ok(DBusClient { connection }),
            Err(reason) => Err(ConnectionError { reason }),
        }
    }

    /// The connection to perform the calls on.
    pub fn connection(&self) -> (connection: &C)
        ensures
            *connection == self.handle(),
    {
        &self.connection
    }

    /// Gives the connection up, ending the client.
    pub fn into_connection(self) -> (connection: C)
        ensures
            connection == self.handle(),
    {
        self.connection
    }

    /// Starts reading the temperature.
    pub fn get_temperature(&self) -> (exchange: Exchange)
        ensures
            exchange == Exchange::GetTemperature,
    {
        Exchange::GetTemperature
    }

    /// Starts writing the temperature, whatever its value.
    pub fn set_temperature(&self, temperature: u16) -> (exchange: Exchange)
        ensures
            exchange == Exchange::SetTemperature(temperature),
    {
        Exchange::SetTemperature(temperature)
    }

    /// Starts reading the brightness.
    pub fn get_brightness(&self) -> (exchange: Exchange)
        ensures
            exchange == Exchange::GetBrightness,
    {
        Exchange::GetBrightness
    }

    /// Starts writing the brightness, whatever its value.
    pub fn set_brightness(&self, brightness: Double) -> (exchange: Exchange)
        ensures
            exchange == Exchange::SetBrightness(brightness),
    {
        Exchange::SetBrightness(brightness)
    }

    /// Starts reading the state, the temperature first.
    pub fn get_state(&self) -> (exchange: Exchange)
        ensures
            exchange == Exchange::GetStateTemperature,
    {
        Exchange::GetStateTemperature
    }

    /// Starts writing the state, the temperature first.
    pub fn set_state(&self, state: &GammaRelayState) -> (exchange: Exchange)
        ensures
            exchange == Exchange::SetStateTemperature(*state),
    {
        Exchange::SetStateTemperature(*state)
    }
}

} // verus!
