//! The bridge for callers that must not block: each call is described by a
//! plain value, carried out on a worker over a connection of its own, and
//! its outcome handed back when the worker is done.

use vstd::prelude::*;
use crate::dbus::{DBusClient, Double, Exchange, GammaRelayState, Outcome};
use crate::error::{BridgeError, ConnectionError, RemoteError};

verus! {

/// One call across the bridge, with its arguments.
#[derive(Debug, Clone, Copy, PartialEq, Eq, Structural)]
pub enum BridgedCall {
    GetTemperature,
    SetTemperature(u16),
    GetBrightness,
    SetBrightness(Double),
    GetState,
    SetState(GammaRelayState),
}

/// Describes a read of the temperature.
pub fn get_temperature() -> (call: BridgedCall)
    ensures
        call == BridgedCall::GetTemperature,
{
    BridgedCall::GetTemperature
}

/// Describes a write of the temperature.
pub fn set_temperature(temperature: u16) -> (call: BridgedCall)
    ensures
        call == BridgedCall::SetTemperature(temperature),
{
    BridgedCall::SetTemperature(temperature)
}

/// Describes a read of the brightness.
pub fn get_brightness() -> (call: BridgedCall)
    ensures
        call == BridgedCall::GetBrightness,
{
    BridgedCall::GetBrightness
}

/// Describes a write of the brightness.
pub fn set_brightness(brightness: Double) -> (call: BridgedCall)
    ensures
        call == BridgedCall::SetBrightness(brightness),
{
    BridgedCall::SetBrightness(brightness)
}

/// Describes a read of the state.
pub fn get_state() -> (call: BridgedCall)
    ensures
        call == BridgedCall::GetState,
{
    BridgedCall::GetState
}

/// Describes a write of the state.
pub fn set_state(state: GammaRelayState) -> (call: BridgedCall)
    ensures
        call == BridgedCall::SetState(state),
{
    BridgedCall::SetState(state)
}

impl BridgedCall {
    /// The operation of the bus client that carries the call out.
    pub open spec fn operation(self) -> Exchange {
        match self {
            BridgedCall::GetTemperature => Exchange::GetTemperature,
            BridgedCall::SetTemperature(temperature) => Exchange::SetTemperature(temperature),
            BridgedCall::GetBrightness => Exchange::GetBrightness,
            BridgedCall::SetBrightness(brightness) => Exchange::SetBrightness(brightness),
            BridgedCall::GetState => Exchange::GetStateTemperature,
            BridgedCall::SetState(state) => Exchange::SetStateTemperature(state),
        }
    }

    /// How the call starts on the worker, given the outcome of opening its
    /// connection: with its operation, on that connection; or not at all.
    pub open spec fn begun<C>(self, opened: Result<C, String>) -> Result<(Exchange, C), BridgeError> {
        match opened {
            Ok(connection) => Ok((self.operation(), connection)),
            Err(reason) => Err(BridgeError::Connection(ConnectionError { reason })),
        }
    }

    /// Starts the call on the worker. `opened` is the outcome of opening a
    /// connection for this call and no other. The call starts on that very
    /// connection, which is handed back beside the operation; without it
    /// the call makes no request at all.
    pub fn begin<C>(self, opened: Result<C, String>) -> (start: Result<(Exchange, C), BridgeError>)
        ensures
            start == self.begun(opened),
    {
        match DBusClient::new(opened) {
            Err(error) => Err(BridgeError::Connection(error)),
            Ok(client) => {
                let exchange = match self {
                    BridgedCall::GetTemperature => client.get_temperature(),
                    BridgedCall::SetTemperature(temperature) => client.set_temperature(temperature),
                    BridgedCall::GetBrightness => client.get_brightness(),
                    BridgedCall::SetBrightness(brightness) => client.set_brightness(brightness),
                    BridgedCall::GetState => client.get_state(),
                    BridgedCall::SetState(state) => client.set_state(&state),
                };
                Ok((exchange, client.into_connection()))
            },
        }
    }
}

/// What the end of the operation means to the caller of the bridge: the
/// client's error is handed on unchanged.
pub open spec fn bridged(ended: Result<Outcome, RemoteError>) -> Result<Outcome, BridgeError> {
    match ended {
        Ok(outcome) => Ok(outcome),
        Err(error) => Err(BridgeError::Remote(error)),
    }
}

/// Hands the end of the operation on to the caller of the bridge.
pub fn finish(ended: Result<Outcome, RemoteError>) -> (result: Result<Outcome, BridgeError>)
    ensures
        result == bridged(ended),
{
    match ended {
        Ok(outcome) => Ok(outcome),
        Err(error) => Err(BridgeError::Remote(error)),
    }
}

/// What the caller is resumed with: the worker's result if the worker ran
/// to its end, and a worker failure with the runtime's words if it did not.
pub open spec fn settled(joined: Result<Result<Outcome, BridgeError>, String>) -> Result<
    Outcome,
    BridgeError,
> {
    match joined {
        Ok(result) => result,
        Err(reason) => Err(BridgeError::WorkerFailure(reason)),
    }
}

/// Resumes the caller with what became of the worker.
pub fn settle(joined: Result<Result<Outcome, BridgeError>, String>) -> (result: Result<
    Outcome,
    BridgeError,
>)
    ensures
        result == settled(joined),
{
    match joined {
        Ok(result) => result,
        Err(reason) => Err(BridgeError::WorkerFailure(reason)),
    }
}

} // verus!
