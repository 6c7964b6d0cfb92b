use sunshift::dbus::{
    brightness_of, decode_acknowledgement, decode_brightness, decode_temperature, state_of,
    temperature_of, DBusClient, Double, Exchange, GammaRelayState, Outcome, Payload, Progress,
    Property, PropertyCall, Reply, Variant,
};
use sunshift::error::{ConnectionError, RemoteError, Undecoded};

/// A stand-in for the relay that keeps the two properties in memory and can
/// be told to fail calls.
struct FakeRelay {
    temperature: u16,
    brightness: f64,
    fail_reads_of: Option<Property>,
    fail_writes_of: Option<Property>,
    calls: Vec<PropertyCall>,
}

fn fake_relay(temperature: u16, brightness: f64) -> FakeRelay {
    FakeRelay { temperature, brightness, fail_reads_of: None, fail_writes_of: None, calls: Vec::new() }
}

fn double(x: f64) -> Double {
    Double { bits: x.to_bits() }
}

fn perform(relay: &mut FakeRelay, call: PropertyCall) -> Reply {
    relay.calls.push(call);
    match call {
        PropertyCall::Read { property } => {
            if relay.fail_reads_of == Some(property) {
                return Reply::Failed("service not running".to_string());
            }
            match property {
                Property::Temperature => Reply::Value(Variant::U16(relay.temperature)),
                Property::Brightness => Reply::Value(Variant::F64(double(relay.brightness))),
            }
        }
        PropertyCall::Write { property, value } => {
            if relay.fail_writes_of == Some(property) {
                return Reply::Failed("write refused".to_string());
            }
            match (property, value) {
                (Property::Temperature, Payload::U16(t)) => relay.temperature = t,
                (Property::Brightness, Payload::F64(b)) => relay.brightness = f64::from_bits(b.bits),
                _ => return Reply::Failed("wrong type".to_string()),
            }
            Reply::Empty
        }
    }
}

fn drive(relay: &mut FakeRelay, start: Exchange) -> Result<Outcome, RemoteError> {
    let mut exchange = start;
    loop {
        let reply = perform(relay, exchange.call());
        match exchange.resume(reply) {
            Progress::Continue(next) => exchange = next,
            Progress::Finished(result) => return result,
        }
    }
}

fn client() -> DBusClient<()> {
    DBusClient::new(Ok(())).unwrap()
}

#[test]
fn client_needs_an_open_connection() {
    let refused = DBusClient::<u8>::new(Err("no session bus".to_string()));
    assert_eq!(refused.unwrap_err(), ConnectionError { reason: "no session bus".to_string() });
    assert_eq!(ConnectionError { reason: "no session bus".to_string() }.message(), "no session bus");
}

#[test]
fn client_holds_its_connection() {
    let client = DBusClient::new(Ok(7u8)).unwrap();
    assert_eq!(*client.connection(), 7);
    assert_eq!(client.get_state(), Exchange::GetStateTemperature);
    assert_eq!(client.into_connection(), 7);
    let named = DBusClient::new(Ok("session".to_string())).unwrap();
    assert_eq!(named.connection(), "session");
}

#[test]
fn calls_are_addressed_to_the_relay() {
    let read = client().get_temperature().call();
    assert_eq!(read, PropertyCall::Read { property: Property::Temperature });
    assert_eq!(read.destination(), "rs.wl-gammarelay");
    assert_eq!(read.path(), "/");
    assert_eq!(read.interface(), "org.freedesktop.DBus.Properties");
    assert_eq!(read.member(), "Get");
    assert_eq!(read.property_interface(), "rs.wl.gammarelay");
    assert_eq!(read.property_name(), "Temperature");
    assert_eq!(read.value(), None);

    let write = client().set_brightness(double(0.5)).call();
    assert_eq!(write.destination(), "rs.wl-gammarelay");
    assert_eq!(write.path(), "/");
    assert_eq!(write.interface(), "org.freedesktop.DBus.Properties");
    assert_eq!(write.member(), "Set");
    assert_eq!(write.property_interface(), "rs.wl.gammarelay");
    assert_eq!(write.property_name(), "Brightness");
    assert_eq!(write.value(), Some(Payload::F64(double(0.5))));
}

#[test]
fn property_names() {
    assert_eq!(Property::Temperature.name(), "Temperature");
    assert_eq!(Property::Brightness.name(), "Brightness");
}

#[test]
fn each_operation_starts_with_its_call() {
    let c = client();
    let state = GammaRelayState { temperature: 4500, brightness: double(0.8) };
    assert_eq!(c.get_temperature(), Exchange::GetTemperature);
    assert_eq!(c.set_temperature(4500), Exchange::SetTemperature(4500));
    assert_eq!(c.get_brightness(), Exchange::GetBrightness);
    assert_eq!(c.set_brightness(double(0.8)), Exchange::SetBrightness(double(0.8)));
    assert_eq!(c.get_state(), Exchange::GetStateTemperature);
    assert_eq!(c.set_state(&state), Exchange::SetStateTemperature(state));
    assert_eq!(c.get_brightness().call(), PropertyCall::Read { property: Property::Brightness });
    assert_eq!(
        c.set_temperature(4500).call(),
        PropertyCall::Write { property: Property::Temperature, value: Payload::U16(4500) }
    );
    assert_eq!(c.get_state().call(), PropertyCall::Read { property: Property::Temperature });
    assert_eq!(
        c.set_state(&state).call(),
        PropertyCall::Write { property: Property::Temperature, value: Payload::U16(4500) }
    );
    assert_eq!(
        Exchange::GetStateBrightness(1).call(),
        PropertyCall::Read { property: Property::Brightness }
    );
    assert_eq!(
        Exchange::SetStateBrightness(double(0.8)).call(),
        PropertyCall::Write { property: Property::Brightness, value: Payload::F64(double(0.8)) }
    );
}

#[test]
fn temperature_is_decoded_from_an_unsigned_16_bit_variant_only() {
    assert_eq!(decode_temperature(Reply::Value(Variant::U16(6500))), Ok(6500));
    let wrong = Err(RemoteError::DecodeFailure(Undecoded::WrongType(Property::Temperature)));
    assert_eq!(decode_temperature(Reply::Value(Variant::U32(6500))), wrong);
    assert_eq!(decode_temperature(Reply::Value(Variant::I16(6500))), wrong);
    assert_eq!(decode_temperature(Reply::Value(Variant::U8(1))), wrong);
    assert_eq!(decode_temperature(Reply::Value(Variant::F64(double(6500.0)))), wrong);
    assert_eq!(decode_temperature(Reply::Value(Variant::Other)), wrong);
    assert_eq!(decode_temperature(Reply::Empty), wrong);
    assert_eq!(
        decode_temperature(Reply::Unreadable("not a variant".to_string())),
        Err(RemoteError::DecodeFailure(Undecoded::Unreadable("not a variant".to_string())))
    );
    assert_eq!(
        decode_temperature(Reply::Failed("no such service".to_string())),
        Err(RemoteError::CallFailure("no such service".to_string()))
    );
}

#[test]
fn brightness_is_decoded_from_a_double_variant_only() {
    assert_eq!(decode_brightness(Reply::Value(Variant::F64(double(1.0)))), Ok(double(1.0)));
    let wrong = Err(RemoteError::DecodeFailure(Undecoded::WrongType(Property::Brightness)));
    assert_eq!(decode_brightness(Reply::Value(Variant::U16(1))), wrong);
    assert_eq!(decode_brightness(Reply::Value(Variant::U64(1))), wrong);
    assert_eq!(decode_brightness(Reply::Value(Variant::I64(1))), wrong);
    assert_eq!(decode_brightness(Reply::Value(Variant::I32(1))), wrong);
    assert_eq!(decode_brightness(Reply::Value(Variant::Bool(true))), wrong);
    assert_eq!(decode_brightness(Reply::Empty), wrong);
    assert_eq!(
        decode_brightness(Reply::Unreadable("garbled".to_string())),
        Err(RemoteError::DecodeFailure(Undecoded::Unreadable("garbled".to_string())))
    );
    assert_eq!(
        decode_brightness(Reply::Failed("timeout".to_string())),
        Err(RemoteError::CallFailure("timeout".to_string()))
    );
}

#[test]
fn a_write_succeeds_when_the_call_is_accepted() {
    assert_eq!(decode_acknowledgement(Reply::Empty), Ok(()));
    assert_eq!(decode_acknowledgement(Reply::Value(Variant::Other)), Ok(()));
    assert_eq!(decode_acknowledgement(Reply::Unreadable("ignored".to_string())), Ok(()));
    assert_eq!(
        decode_acknowledgement(Reply::Failed("read-only".to_string())),
        Err(RemoteError::CallFailure("read-only".to_string()))
    );
}

#[test]
fn error_messages() {
    assert_eq!(RemoteError::CallFailure("no such service".to_string()).message(), "no such service");
    assert_eq!(
        RemoteError::DecodeFailure(Undecoded::WrongType(Property::Temperature)).message(),
        "Failed to parse temperature"
    );
    assert_eq!(
        RemoteError::DecodeFailure(Undecoded::WrongType(Property::Brightness)).message(),
        "Failed to parse brightness"
    );
    assert_eq!(
        RemoteError::DecodeFailure(Undecoded::Unreadable("garbled".to_string())).message(),
        "garbled"
    );
    assert_eq!(Undecoded::WrongType(Property::Brightness).message(), "Failed to parse brightness");
}

#[test]
fn single_reads_and_writes() {
    let mut relay = fake_relay(6500, 1.0);
    assert_eq!(drive(&mut relay, client().get_temperature()), Ok(Outcome::Temperature(6500)));
    assert_eq!(drive(&mut relay, client().get_brightness()), Ok(Outcome::Brightness(double(1.0))));
    assert_eq!(drive(&mut relay, client().set_brightness(double(0.25))), Ok(Outcome::Done));
    assert_eq!(relay.brightness, 0.25);
    assert_eq!(drive(&mut relay, client().set_temperature(1234)), Ok(Outcome::Done));
    assert_eq!(relay.temperature, 1234);
    assert_eq!(relay.calls.len(), 4);
}

#[test]
fn values_out_of_range_are_passed_through() {
    let mut relay = fake_relay(6500, 1.0);
    assert_eq!(drive(&mut relay, client().set_brightness(double(5.0))), Ok(Outcome::Done));
    assert_eq!(drive(&mut relay, client().set_temperature(0)), Ok(Outcome::Done));
    assert_eq!(relay.brightness, 5.0);
    assert_eq!(relay.temperature, 0);
    assert_eq!(
        relay.calls,
        vec![
            PropertyCall::Write { property: Property::Brightness, value: Payload::F64(double(5.0)) },
            PropertyCall::Write { property: Property::Temperature, value: Payload::U16(0) },
        ]
    );
}

#[test]
fn end_to_end_scenario() {
    let mut relay = fake_relay(6500, 1.0);
    assert_eq!(
        drive(&mut relay, client().get_state()),
        Ok(Outcome::State(GammaRelayState { temperature: 6500, brightness: double(1.0) }))
    );
    assert_eq!(drive(&mut relay, client().set_temperature(3000)), Ok(Outcome::Done));
    assert_eq!(
        drive(&mut relay, client().get_state()),
        Ok(Outcome::State(GammaRelayState { temperature: 3000, brightness: double(1.0) }))
    );
    let update = sunshift::tray::update_tray_icon(3000).unwrap();
    assert_eq!(update.tooltip, "Sunshift - 3000K");
}

#[test]
fn get_state_reads_the_temperature_then_the_brightness() {
    let mut relay = fake_relay(4000, 0.5);
    drive(&mut relay, client().get_state()).unwrap();
    assert_eq!(
        relay.calls,
        vec![
            PropertyCall::Read { property: Property::Temperature },
            PropertyCall::Read { property: Property::Brightness },
        ]
    );
}

#[test]
fn get_state_stops_at_a_failed_temperature() {
    let mut relay = fake_relay(6500, 1.0);
    relay.fail_reads_of = Some(Property::Temperature);
    assert_eq!(
        drive(&mut relay, client().get_state()),
        Err(RemoteError::CallFailure("service not running".to_string()))
    );
    assert_eq!(relay.calls, vec![PropertyCall::Read { property: Property::Temperature }]);
}

#[test]
fn get_state_stops_at_an_undecodable_temperature() {
    let progress = client().get_state().resume(Reply::Value(Variant::I32(6500)));
    assert_eq!(
        progress,
        Progress::Finished(Err(RemoteError::DecodeFailure(Undecoded::WrongType(
            Property::Temperature
        ))))
    );
}

#[test]
fn get_state_gives_no_partial_state() {
    let mut relay = fake_relay(6500, 1.0);
    relay.fail_reads_of = Some(Property::Brightness);
    assert_eq!(
        drive(&mut relay, client().get_state()),
        Err(RemoteError::CallFailure("service not running".to_string()))
    );
    assert_eq!(relay.calls.len(), 2);
}

#[test]
fn set_state_writes_the_temperature_then_the_brightness() {
    let mut relay = fake_relay(6500, 1.0);
    let state = GammaRelayState { temperature: 3500, brightness: double(0.7) };
    assert_eq!(drive(&mut relay, client().set_state(&state)), Ok(Outcome::Done));
    assert_eq!(relay.temperature, 3500);
    assert_eq!(relay.brightness, 0.7);
    assert_eq!(
        relay.calls,
        vec![
            PropertyCall::Write { property: Property::Temperature, value: Payload::U16(3500) },
            PropertyCall::Write { property: Property::Brightness, value: Payload::F64(double(0.7)) },
        ]
    );
}

#[test]
fn set_state_is_not_rolled_back() {
    let mut relay = fake_relay(6500, 1.0);
    relay.fail_writes_of = Some(Property::Brightness);
    let state = GammaRelayState { temperature: 3500, brightness: double(0.7) };
    assert_eq!(
        drive(&mut relay, client().set_state(&state)),
        Err(RemoteError::CallFailure("write refused".to_string()))
    );
    assert_eq!(relay.temperature, 3500);
    assert_eq!(relay.brightness, 1.0);
    assert_eq!(relay.calls.len(), 2);
}

#[test]
fn set_state_stops_at_a_failed_temperature() {
    let mut relay = fake_relay(6500, 1.0);
    relay.fail_writes_of = Some(Property::Temperature);
    let state = GammaRelayState { temperature: 3500, brightness: double(0.7) };
    assert_eq!(
        drive(&mut relay, client().set_state(&state)),
        Err(RemoteError::CallFailure("write refused".to_string()))
    );
    assert_eq!(relay.temperature, 6500);
    assert_eq!(relay.brightness, 1.0);
    assert_eq!(relay.calls.len(), 1);
}

#[test]
fn outcomes_give_up_their_values() {
    let state = GammaRelayState { temperature: 6500, brightness: double(1.0) };
    assert_eq!(temperature_of(Outcome::Temperature(6500)), Ok(6500));
    assert_eq!(brightness_of(Outcome::Brightness(double(1.0))), Ok(double(1.0)));
    assert_eq!(state_of(Outcome::State(state)), Ok(state));
}

#[test]
fn an_outcome_of_another_kind_is_a_wrong_type() {
    let state = GammaRelayState { temperature: 6500, brightness: double(1.0) };
    let no_temperature = Err(RemoteError::DecodeFailure(Undecoded::WrongType(Property::Temperature)));
    let no_brightness = Err(RemoteError::DecodeFailure(Undecoded::WrongType(Property::Brightness)));
    assert_eq!(temperature_of(Outcome::Done), no_temperature);
    assert_eq!(temperature_of(Outcome::State(state)), no_temperature);
    assert_eq!(temperature_of(Outcome::Brightness(double(1.0))), no_temperature);
    assert_eq!(brightness_of(Outcome::Temperature(1)), no_brightness);
    assert_eq!(brightness_of(Outcome::Done), no_brightness);
    assert_eq!(state_of(Outcome::Done), Err(RemoteError::DecodeFailure(Undecoded::WrongType(Property::Temperature))));
    assert_eq!(state_of(Outcome::Temperature(6500)), Err(RemoteError::DecodeFailure(Undecoded::WrongType(Property::Temperature))));
}
