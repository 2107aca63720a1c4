//! The gateway's handling of its three calls, between the caller and the
//! host connection. A successful creation is registered with the registry
//! before the caller is answered; a failed registration fails the call and
//! the instance stays on the host.
use vstd::prelude::*;
use vstd::string::*;
use crate::codec::{CreateLv2PluginResponse, ParameterReading};
use crate::decimal::{push_signed_decimal, signed_decimal};
use crate::proxy::{ExchangeError, Reply};

verus! {

/// The description of a created instance, as registered and as returned to
/// the caller. Its plugin type is always LV2.
#[derive(Debug, Clone, PartialEq, Eq)]
pub struct PluginDescriptor {
    pub id: u32,
    pub mod_host_id: u32,
    pub name: String,
    pub plugin_uri: String,
}

/// Why a call to the gateway failed.
#[derive(Debug, Clone, Copy, PartialEq, Eq, Structural)]
pub enum GatewayError {
    /// The host refused to create the instance, with this code.
    HostRejected(i32),
    /// The exchange with the host failed.
    Exchange(ExchangeError),
    /// The registry did not accept the new instance.
    RegistrationFailed,
}

/// What a creation call does once the host has answered.
#[derive(Debug, Clone, PartialEq, Eq)]
pub enum CreateStep {
    /// Register this instance, then answer with it.
    Register(PluginDescriptor),
    /// Answer with this error; nothing is registered.
    Fail(GatewayError),
}

/// `effect_` and the decimal id: the display name of an instance.
pub open spec fn effect_name(id: int) -> Seq<char> {
    seq!['e', 'f', 'f', 'e', 'c', 't', '_'] + signed_decimal(id)
}

/// The descriptor registered for the instance that the host created under
/// `id` from `plugin_uri`.
pub open spec fn describes(d: PluginDescriptor, id: i32, plugin_uri: Seq<char>) -> bool {
    &&& d.id == id as u32
    &&& d.mod_host_id == id as u32
    &&& d.name@ == effect_name(id as int)
    &&& d.plugin_uri@ == plugin_uri
}

/// The display name of the instance with id `id`.
pub fn effect_name_of(id: i32) -> (r: String)
    ensures
        r@ == effect_name(id as int),
{
    proof {
        reveal_strlit("effect_");
    }
    let mut s = String::from_str("effect_");
    push_signed_decimal(&mut s, id);
    s
}

/// Decides a creation call from the host's reply: a created instance is to
/// be registered under its id and plugin URI, anything else fails the call.
pub fn create_step(reply: &Reply, plugin_uri: &str) -> (r: CreateStep)
    ensures
        match *reply {
            Reply::Created(CreateLv2PluginResponse::Created(id)) => match r {
                CreateStep::Register(d) => describes(d, id, plugin_uri@),
                CreateStep::Fail(_) => false,
            },
            Reply::Created(CreateLv2PluginResponse::Error(code)) => r == CreateStep::Fail(
                GatewayError::HostRejected(code),
            ),
            Reply::Failed(e) => r == CreateStep::Fail(GatewayError::Exchange(e)),
            _ => r == CreateStep::Fail(GatewayError::Exchange(ExchangeError::ProtocolViolation)),
        },
{
    match reply {
        Reply::Created(CreateLv2PluginResponse::Created(id)) => {
            let id = *id;
            CreateStep::Register(
                PluginDescriptor {
                    id: id as u32,
                    mod_host_id: id as u32,
                    name: effect_name_of(id),
                    plugin_uri: plugin_uri.to_owned(),
                },
            )
        },
        Reply::Created(CreateLv2PluginResponse::Error(code)) => CreateStep::Fail(
            GatewayError::HostRejected(*code),
        ),
        Reply::Failed(e) => CreateStep::Fail(GatewayError::Exchange(*e)),
        _ => CreateStep::Fail(GatewayError::Exchange(ExchangeError::ProtocolViolation)),
    }
}

/// Answers a creation call once the registry has been asked to register
/// `descriptor`.
pub fn finish_create(descriptor: PluginDescriptor, registered: bool) -> (r: Result<
    PluginDescriptor,
    GatewayError,
>)
    ensures
        registered ==> r == Ok::<PluginDescriptor, GatewayError>(descriptor),
        !registered ==> r == Err::<PluginDescriptor, GatewayError>(
            GatewayError::RegistrationFailed,
        ),
{
    if registered {
        Ok(descriptor)
    } else {
        Err(GatewayError::RegistrationFailed)
    }
}

/// Answers a parameter read from the host's reply.
pub fn parameter_outcome(reply: Reply) -> (r: Result<ParameterReading, GatewayError>)
    ensures
        match reply {
            Reply::Parameter(reading) => r == Ok::<ParameterReading, GatewayError>(reading),
            Reply::Failed(e) => r == Err::<ParameterReading, GatewayError>(
                GatewayError::Exchange(e),
            ),
            _ => r == Err::<ParameterReading, GatewayError>(
                GatewayError::Exchange(ExchangeError::ProtocolViolation),
            ),
        },
{
    match reply {
        Reply::Parameter(reading) => Ok(reading),
        Reply::Failed(e) => Err(GatewayError::Exchange(e)),
        _ => Err(GatewayError::Exchange(ExchangeError::ProtocolViolation)),
    }
}

/// `Error code: ` and the decimal code.
pub open spec fn error_code_message(code: int) -> Seq<char> {
    seq!['E', 'r', 'r', 'o', 'r', ' ', 'c', 'o', 'd', 'e', ':', ' '] + signed_decimal(code)
}

impl GatewayError {
    /// The text of the failed call's status.
    pub fn message(&self) -> (r: String)
        ensures
            match *self {
                GatewayError::HostRejected(code) => r@ == error_code_message(code as int),
                GatewayError::Exchange(ExchangeError::HostUnavailable) => r@
                    == "plugin host unavailable"@,
                GatewayError::Exchange(ExchangeError::ProtocolViolation) => r@
                    == "invalid answer from the plugin host"@,
                GatewayError::Exchange(ExchangeError::InstanceIdsExhausted) => r@
                    == "no instance id left"@,
                GatewayError::RegistrationFailed => r@ == "registration of the instance failed"@,
            },
    {
        match self {
            GatewayError::HostRejected(code) => {
                proof {
                    reveal_strlit("Error code: ");
                }
                let mut s = String::from_str("Error code: ");
                push_signed_decimal(&mut s, *code);
                s
            },
            GatewayError::Exchange(ExchangeError::HostUnavailable) => String::from_str(
                "plugin host unavailable",
            ),
            GatewayError::Exchange(ExchangeError::ProtocolViolation) => String::from_str(
                "invalid answer from the plugin host",
            ),
            GatewayError::Exchange(ExchangeError::InstanceIdsExhausted) => String::from_str(
                "no instance id left",
            ),
            GatewayError::RegistrationFailed => String::from_str(
                "registration of the instance failed",
            ),
        }
    }
}

} // verus!
