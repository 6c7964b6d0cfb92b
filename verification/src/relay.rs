//! The relay as the client expects it to behave, and what the client's
//! operations amount to against it.

use vstd::prelude::*;
use crate::dbus::{
    acknowledgement_in, temperature_in, Exchange, GammaRelayState, Outcome, Payload, Progress,
    Property, PropertyCall, Reply, Variant,
};
use crate::error::RemoteError;

verus! {

/// The relay's state after it has carried out `call`. A write of a value of
/// the property's type replaces the property; nothing else changes
/// anything.
pub open spec fn relay_after(store: GammaRelayState, call: PropertyCall) -> GammaRelayState {
    match call {
        PropertyCall::Write { property: Property::Temperature, value: Payload::U16(temperature) } => {
            GammaRelayState { temperature, brightness: store.brightness }
        },
        PropertyCall::Write { property: Property::Brightness, value: Payload::F64(brightness) } => {
            GammaRelayState { temperature: store.temperature, brightness }
        },
        _ => store,
    }
}

/// The relay's reply when it carries out `call`.
pub open spec fn relay_reply(store: GammaRelayState, call: PropertyCall) -> Reply {
    match call {
        PropertyCall::Read { property: Property::Temperature } => Reply::Value(
            Variant::U16(store.temperature),
        ),
        PropertyCall::Read { property: Property::Brightness } => Reply::Value(
            Variant::F64(store.brightness),
        ),
        PropertyCall::Write { .. } => Reply::Empty,
    }
}

/// Reading the state stops at the first failure: when the reply to the read
/// of the temperature is no temperature, the operation is finished with
/// that error, and no read of the brightness follows.
pub proof fn lemma_get_state_fails_fast(reply: Reply)
    requires
        temperature_in(reply) is Err,
    ensures
        Exchange::GetStateTemperature.after(reply) == Progress::Finished(
            Err(temperature_in(reply)->Err_0),
        ),
{
}

/// Writing the state stops at the first failure too: when the write of the
/// temperature fails, no write of the brightness follows.
pub proof fn lemma_set_state_fails_fast(state: GammaRelayState, reply: Reply)
    requires
        acknowledgement_in(reply) is Err,
    ensures
        Exchange::SetStateTemperature(state).after(reply) == Progress::Finished(
            Err(acknowledgement_in(reply)->Err_0),
        ),
{
}

/// Writing the state is not atomic. When the relay carries out the write of
/// the temperature and the write of the brightness then fails, the
/// operation fails with that failure and makes no further call, and the
/// relay is left with the new temperature beside the old brightness.
pub proof fn lemma_set_state_is_not_atomic(
    store: GammaRelayState,
    state: GammaRelayState,
    reason: String,
)
    ensures
        ({
            let first = Exchange::SetStateTemperature(state);
            let written = relay_after(store, first.pending());
            let second = Exchange::SetStateBrightness(state.brightness);
            &&& first.pending() == PropertyCall::Write {
                property: Property::Temperature,
                value: Payload::U16(state.temperature),
            }
            &&& first.after(relay_reply(store, first.pending())) == Progress::Continue(second)
            &&& second.pending() == PropertyCall::Write {
                property: Property::Brightness,
                value: Payload::F64(state.brightness),
            }
            &&& second.after(Reply::Failed(reason)) == Progress::Finished(
                Err(RemoteError::CallFailure(reason)),
            )
            &&& written == GammaRelayState {
                temperature: state.temperature,
                brightness: store.brightness,
            }
        }),
{
}

/// Against a relay that answers, reading the state takes two reads and
/// yields what the relay holds.
pub proof fn lemma_get_state_reads_the_relay(store: GammaRelayState)
    ensures
        ({
            let first = Exchange::GetStateTemperature;
            let second = Exchange::GetStateBrightness(store.temperature);
            &&& first.after(relay_reply(store, first.pending())) == Progress::Continue(second)
            &&& second.after(relay_reply(store, second.pending())) == Progress::Finished(
                Ok(Outcome::State(store)),
            )
            &&& relay_after(store, first.pending()) == store
            &&& relay_after(store, second.pending()) == store
        }),
{
}

/// Against a relay that answers, writing the state takes two writes, the
/// temperature first, and leaves the relay holding the state written.
pub proof fn lemma_set_state_writes_both(store: GammaRelayState, state: GammaRelayState)
    ensures
        ({
            let first = Exchange::SetStateTemperature(state);
            let second = Exchange::SetStateBrightness(state.brightness);
            let halfway = relay_after(store, first.pending());
            &&& first.after(relay_reply(store, first.pending())) == Progress::Continue(second)
            &&& second.after(relay_reply(halfway, second.pending())) == Progress::Finished(
                Ok(Outcome::Done),
            )
            &&& halfway == GammaRelayState {
                temperature: state.temperature,
                brightness: store.brightness,
            }
            &&& relay_after(halfway, second.pending()) == state
        }),
{
}

/// A temperature written is the temperature read afterwards, and the
/// brightness stays as it was.
pub proof fn lemma_temperature_written_is_read(store: GammaRelayState, temperature: u16)
    ensures
        ({
            let write = Exchange::SetTemperature(temperature);
            let stored = relay_after(store, write.pending());
            let first = Exchange::GetStateTemperature;
            let second = Exchange::GetStateBrightness(temperature);
            &&& write.after(relay_reply(store, write.pending())) == Progress::Finished(
                Ok(Outcome::Done),
            )
            &&& first.after(relay_reply(stored, first.pending())) == Progress::Continue(second)
            &&& second.after(relay_reply(stored, second.pending())) == Progress::Finished(
                Ok(Outcome::State(GammaRelayState { temperature, brightness: store.brightness })),
            )
        }),
{
}

/// An operation that ends well ends with the outcome of its kind: a read
/// of the temperature with a temperature, a read of the brightness with a
/// brightness, a read of the state with a state, and a write with nothing
/// but its completion.
pub proof fn lemma_outcome_fits_the_operation(exchange: Exchange, reply: Reply, outcome: Outcome)
    requires
        exchange.after(reply) == Progress::Finished(Ok(outcome)),
    ensures
        exchange == Exchange::GetTemperature ==> outcome is Temperature,
        exchange == Exchange::GetBrightness ==> outcome is Brightness,
        exchange is GetStateBrightness ==> outcome is State,
        exchange.pending() is Write ==> outcome == Outcome::Done,
{
}

/// No operation makes more than two calls: after the reply to its first
/// call it is finished, or it is finished after the reply to its second.
pub proof fn lemma_two_calls_at_most(exchange: Exchange, first: Reply, second: Reply)
    ensures
        match exchange.after(first) {
            Progress::Finished(_) => true,
            Progress::Continue(next) => next.after(second) is Finished,
        },
{
}

/// Reading writes nothing: every call of a read of the temperature, of the
/// brightness or of the state is a read, and leaves the relay as it was.
pub proof fn lemma_reading_leaves_the_relay_alone(
    exchange: Exchange,
    reply: Reply,
    store: GammaRelayState,
)
    requires
        exchange == Exchange::GetTemperature || exchange == Exchange::GetBrightness || exchange
            == Exchange::GetStateTemperature,
    ensures
        exchange.pending() is Read,
        relay_after(store, exchange.pending()) == store,
        match exchange.after(reply) {
            Progress::Finished(_) => true,
            Progress::Continue(next) => next.pending() is Read && relay_after(
                store,
                next.pending(),
            ) == store,
        },
{
}

} // verus!
