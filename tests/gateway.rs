use mod_host_proxy::codec::{CreateLv2PluginResponse, ParameterReading};
use mod_host_proxy::gateway::{
    create_step, effect_name_of, finish_create, parameter_outcome, CreateStep, GatewayError,
    PluginDescriptor,
};
use mod_host_proxy::proxy::{ExchangeError, Reply};

#[test]
fn created_instance_is_registered_with_its_id_and_uri() {
    let reply = Reply::Created(CreateLv2PluginResponse::Created(7));
    let expected = PluginDescriptor {
        id: 7,
        mod_host_id: 7,
        name: "effect_7".to_string(),
        plugin_uri: "urn:amp".to_string(),
    };
    let mut registrations = Vec::new();
    let answer = match create_step(&reply, "urn:amp") {
        CreateStep::Register(d) => {
            registrations.push(d.clone());
            finish_create(d, true)
        }
        CreateStep::Fail(e) => Err(e),
    };
    assert_eq!(registrations, vec![expected.clone()]);
    assert_eq!(answer, Ok(expected));
}

#[test]
fn refused_creation_registers_nothing() {
    let reply = Reply::Created(CreateLv2PluginResponse::Error(-2));
    let step = create_step(&reply, "urn:amp");
    assert_eq!(step, CreateStep::Fail(GatewayError::HostRejected(-2)));
    if let CreateStep::Fail(e) = step {
        assert_eq!(e.message(), "Error code: -2");
    }
}

#[test]
fn host_failure_fails_the_creation() {
    let reply = Reply::Failed(ExchangeError::HostUnavailable);
    assert_eq!(
        create_step(&reply, "urn:amp"),
        CreateStep::Fail(GatewayError::Exchange(ExchangeError::HostUnavailable))
    );
    assert_eq!(
        create_step(&Reply::Updated, "urn:amp"),
        CreateStep::Fail(GatewayError::Exchange(ExchangeError::ProtocolViolation))
    );
}

#[test]
fn failed_registration_fails_the_call() {
    let d = PluginDescriptor {
        id: 1,
        mod_host_id: 1,
        name: "effect_1".to_string(),
        plugin_uri: "urn:x".to_string(),
    };
    assert_eq!(finish_create(d, false), Err(GatewayError::RegistrationFailed));
}

#[test]
fn parameter_outcomes() {
    assert_eq!(
        parameter_outcome(Reply::Parameter(ParameterReading::Failed)),
        Ok(ParameterReading::Failed)
    );
    assert_eq!(
        parameter_outcome(Reply::Parameter(ParameterReading::Value(b"1.5".to_vec()))),
        Ok(ParameterReading::Value(b"1.5".to_vec()))
    );
    assert_eq!(
        parameter_outcome(Reply::Failed(ExchangeError::ProtocolViolation)),
        Err(GatewayError::Exchange(ExchangeError::ProtocolViolation))
    );
    assert_eq!(
        parameter_outcome(Reply::Updated),
        Err(GatewayError::Exchange(ExchangeError::ProtocolViolation))
    );
}

#[test]
fn names_and_messages() {
    assert_eq!(effect_name_of(0), "effect_0");
    assert_eq!(effect_name_of(123), "effect_123");
    assert_eq!(GatewayError::HostRejected(-101).message(), "Error code: -101");
    assert_eq!(
        GatewayError::Exchange(ExchangeError::HostUnavailable).message(),
        "plugin host unavailable"
    );
    assert_eq!(
        GatewayError::Exchange(ExchangeError::InstanceIdsExhausted).message(),
        "no instance id left"
    );
    assert_eq!(
        GatewayError::RegistrationFailed.message(),
        "registration of the instance failed"
    );
}
