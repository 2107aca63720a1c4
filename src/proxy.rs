//! The decisions of the task that owns the host connection. Exchanges run
//! one at a time: a request is encoded and written, then the answer is read
//! and decoded, and every exchange ends in exactly one reply, failures
//! included. Instance ids come from a counter that advances when an `add`
//! command is handed out, whether or not it is then written and whatever the
//! host answers, so ids are never reused and may leave gaps.
use vstd::prelude::*;
use crate::codec::{
    add_command, decode_create, decode_get, decoded_create, encode_create, encode_get, encode_set,
    is_get_answer, param_get_command, param_set_command, reports_value, value_text,
    CreateLv2PluginResponse, ParameterReading,
};

verus! {

/// A request to the host.
#[derive(Debug, Clone, PartialEq, Eq)]
pub enum ModHostProxyRequests {
    CreateLv2Plugin { plugin_uri: String },
    GetParameterValue { instance_number: u32, symbol: String },
    /// `value` is the new value as it is to be written on the wire.
    UpdateParameterValue { instance_number: u32, symbol: String, value: String },
}

/// Why an exchange ended without an answer from the host.
#[derive(Debug, Clone, Copy, PartialEq, Eq, Structural)]
pub enum ExchangeError {
    /// Writing the command or reading the answer failed.
    HostUnavailable,
    /// The answer did not follow the protocol.
    ProtocolViolation,
    /// Every instance id has been handed out.
    InstanceIdsExhausted,
}

/// The kind of answer that the exchange in progress waits for.
#[derive(Debug, Clone, Copy, PartialEq, Eq, Structural)]
pub enum Exchange {
    Create { instance_id: u32 },
    Get,
    Update,
}

/// Where the connection stands.
#[derive(Debug, Clone, Copy, PartialEq, Eq, Structural)]
pub enum Phase {
    Idle,
    Writing(Exchange),
    Reading(Exchange),
}

/// The result handed back to the requester when an exchange ends.
#[derive(Debug, Clone, PartialEq, Eq)]
pub enum Reply {
    Created(CreateLv2PluginResponse),
    Parameter(ParameterReading),
    Updated,
    Failed(ExchangeError),
}

/// The command written for `request` when `next_id` is the next instance id.
pub open spec fn command_for(request: ModHostProxyRequests, next_id: nat) -> Seq<char> {
    match request {
        ModHostProxyRequests::CreateLv2Plugin { plugin_uri } => add_command(plugin_uri@, next_id),
        ModHostProxyRequests::GetParameterValue { instance_number, symbol } => param_get_command(
            instance_number as nat,
            symbol@,
        ),
        ModHostProxyRequests::UpdateParameterValue { instance_number, symbol, value } =>
            param_set_command(instance_number as nat, symbol@, value@),
    }
}

/// The exchange that `request` starts when `next_id` is the next instance id.
pub open spec fn exchange_for(request: ModHostProxyRequests, next_id: nat) -> Exchange {
    match request {
        ModHostProxyRequests::CreateLv2Plugin { .. } => Exchange::Create {
            instance_id: next_id as u32,
        },
        ModHostProxyRequests::GetParameterValue { .. } => Exchange::Get,
        ModHostProxyRequests::UpdateParameterValue { .. } => Exchange::Update,
    }
}

/// The reply to `exchange` when the host answered with `buf`.
pub open spec fn reply_fits(exchange: Exchange, buf: Seq<u8>, r: Reply) -> bool {
    match exchange {
        Exchange::Create { .. } => r == match decoded_create(buf) {
            Some(c) => Reply::Created(c),
            None => Reply::Failed(ExchangeError::ProtocolViolation),
        },
        Exchange::Get => match r {
            Reply::Failed(e) => e == ExchangeError::ProtocolViolation && !is_get_answer(buf),
            Reply::Parameter(ParameterReading::Failed) => is_get_answer(buf) && !reports_value(
                buf,
            ),
            Reply::Parameter(ParameterReading::Value(v)) => is_get_answer(buf) && reports_value(
                buf,
            ) && v@ == value_text(buf),
            _ => false,
        },
        Exchange::Update => r == Reply::Updated,
    }
}

/// Instance ids stay below this bound, so that the host can report each of
/// them back as a non-negative `i32` status.
pub const INSTANCE_ID_LIMIT: u32 = 2147483647;

/// The state of the connection's owner: the next instance id and the
/// exchange in progress.
pub struct HostProxy {
    next_instance_id: u32,
    phase: Phase,
    issued: Ghost<Seq<u32>>,
}

impl HostProxy {
    /// The id that the next `add` command will carry.
    pub closed spec fn next_id(&self) -> nat {
        self.next_instance_id as nat
    }

    pub closed spec fn phase(&self) -> Phase {
        self.phase
    }

    /// The ids carried by the `add` commands handed out so far, in order.
    pub closed spec fn issued(&self) -> Seq<u32> {
        self.issued@
    }

    pub closed spec fn wf(&self) -> bool {
        &&& forall|i: int, j: int|
            0 <= i < j < self.issued@.len() ==> self.issued@[i] < self.issued@[j]
        &&& forall|i: int| 0 <= i < self.issued@.len() ==> self.issued@[i] < self.next_instance_id
        &&& self.next_instance_id <= INSTANCE_ID_LIMIT
    }

    /// A connection with nothing in progress, whose first instance id is 0.
    pub fn new() -> (r: HostProxy)
        ensures
            r.wf(),
            r.next_id() == 0,
            r.phase() == Phase::Idle,
            r.issued() == Seq::<u32>::empty(),
    {
        HostProxy { next_instance_id: 0, phase: Phase::Idle, issued: Ghost(Seq::empty()) }
    }

    pub fn next_instance_id(&self) -> (r: u32)
        ensures
            r as nat == self.next_id(),
    {
        self.next_instance_id
    }

    pub fn is_idle(&self) -> (r: bool)
        ensures
            r == (self.phase() == Phase::Idle),
    {
        matches!(self.phase, Phase::Idle)
    }

    pub fn is_writing(&self) -> (r: bool)
        ensures
            r == (self.phase() is Writing),
    {
        matches!(self.phase, Phase::Writing(_))
    }

    pub fn is_reading(&self) -> (r: bool)
        ensures
            r == (self.phase() is Reading),
    {
        matches!(self.phase, Phase::Reading(_))
    }

    /// Starts the exchange for `request` and returns the command to write.
    /// A creation spends the next instance id at once; it is refused, with
    /// nothing to write, once the ids are spent.
    pub fn submit(&mut self, request: &ModHostProxyRequests) -> (r: Result<String, ExchangeError>)
        requires
            old(self).wf(),
            old(self).phase() == Phase::Idle,
        ensures
            final(self).wf(),
            r is Err <==> (request is CreateLv2Plugin && old(self).next_id()
                == INSTANCE_ID_LIMIT),
            match r {
                Ok(command) => {
                    &&& command@ == command_for(*request, old(self).next_id())
                    &&& final(self).phase() == Phase::Writing(
                        exchange_for(*request, old(self).next_id()),
                    )
                    &&& if request is CreateLv2Plugin {
                        &&& final(self).next_id() == old(self).next_id() + 1
                        &&& final(self).issued() == old(self).issued().push(
                            old(self).next_id() as u32,
                        )
                    } else {
                        &&& final(self).next_id() == old(self).next_id()
                        &&& final(self).issued() == old(self).issued()
                    }
                },
                Err(e) => {
                    &&& e == ExchangeError::InstanceIdsExhausted
                    &&& final(self).phase() == Phase::Idle
                    &&& final(self).next_id() == old(self).next_id()
                    &&& final(self).issued() == old(self).issued()
                },
            },
    {
        match request {
            ModHostProxyRequests::CreateLv2Plugin { plugin_uri } => {
                if self.next_instance_id == INSTANCE_ID_LIMIT {
                    return Err(ExchangeError::InstanceIdsExhausted);
                }
                let instance_id = self.next_instance_id;
                let command = encode_create(plugin_uri.as_str(), instance_id);
                self.next_instance_id = instance_id + 1;
                self.issued = Ghost(self.issued@.push(instance_id));
                self.phase = Phase::Writing(Exchange::Create { instance_id });
                Ok(command)
            },
            ModHostProxyRequests::GetParameterValue { instance_number, symbol } => {
                let command = encode_get(*instance_number, symbol.as_str());
                self.phase = Phase::Writing(Exchange::Get);
                Ok(command)
            },
            ModHostProxyRequests::UpdateParameterValue { instance_number, symbol, value } => {
                let command = encode_set(*instance_number, symbol.as_str(), value.as_str());
                self.phase = Phase::Writing(Exchange::Update);
                Ok(command)
            },
        }
    }

    /// Records whether the command was written. A failed write ends the
    /// exchange with `HostUnavailable`; otherwise the answer is awaited.
    /// The instance id of an `add` command stays spent either way.
    pub fn write_finished(&mut self, written: bool) -> (r: Option<Reply>)
        requires
            old(self).wf(),
            old(self).phase() is Writing,
        ensures
            final(self).wf(),
            final(self).next_id() == old(self).next_id(),
            final(self).issued() == old(self).issued(),
            written ==> r is None && final(self).phase() == Phase::Reading(
                old(self).phase()->Writing_0,
            ),
            !written ==> r == Some(Reply::Failed(ExchangeError::HostUnavailable))
                && final(self).phase() == Phase::Idle,
    {
        let exchange = match self.phase {
            Phase::Writing(e) => e,
            _ => Exchange::Update,
        };
        if !written {
            self.phase = Phase::Idle;
            return Some(Reply::Failed(ExchangeError::HostUnavailable));
        }
        self.phase = Phase::Reading(exchange);
        None
    }

    /// Ends the exchange with the reply that the answer gives, or with
    /// `HostUnavailable` where reading it failed.
    pub fn response_received(&mut self, response: Option<&[u8]>) -> (r: Reply)
        requires
            old(self).wf(),
            old(self).phase() is Reading,
        ensures
            final(self).wf(),
            final(self).phase() == Phase::Idle,
            final(self).next_id() == old(self).next_id(),
            final(self).issued() == old(self).issued(),
            match response {
                None => r == Reply::Failed(ExchangeError::HostUnavailable),
                Some(buf) => reply_fits(old(self).phase()->Reading_0, buf@, r),
            },
    {
        let exchange = match self.phase {
            Phase::Reading(e) => e,
            _ => Exchange::Update,
        };
        self.phase = Phase::Idle;
        match response {
            None => Reply::Failed(ExchangeError::HostUnavailable),
            Some(buf) => match exchange {
                Exchange::Create { .. } => match decode_create(buf) {
                    Some(c) => Reply::Created(c),
                    None => Reply::Failed(ExchangeError::ProtocolViolation),
                },
                Exchange::Get => match decode_get(buf) {
                    Some(reading) => Reply::Parameter(reading),
                    None => Reply::Failed(ExchangeError::ProtocolViolation),
                },
                Exchange::Update => Reply::Updated,
            },
        }
    }
}

/// The instance ids of the `add` commands handed out increase strictly in
/// the order the commands were handed out, so no two are equal; each is
/// below the id that the next command will carry, and below the bound that
/// keeps it a non-negative `i32`.
pub proof fn lemma_instance_ids_increase(p: &HostProxy)
    requires
        p.wf(),
    ensures
        forall|i: int, j: int|
            0 <= i < j < p.issued().len() ==> p.issued()[i] < p.issued()[j],
        forall|i: int, j: int|
            0 <= i < p.issued().len() && 0 <= j < p.issued().len() && i != j ==> p.issued()[i]
                != p.issued()[j],
        forall|i: int| 0 <= i < p.issued().len() ==> p.issued()[i] < p.next_id(),
        forall|i: int| 0 <= i < p.issued().len() ==> p.issued()[i] < INSTANCE_ID_LIMIT,
{
    assert forall|i: int, j: int|
        0 <= i < p.issued().len() && 0 <= j < p.issued().len() && i != j implies p.issued()[i]
        != p.issued()[j] by {
        if i < j {
            assert(p.issued()[i] < p.issued()[j]);
        } else {
            assert(p.issued()[j] < p.issued()[i]);
        }
    }
}

} // verus!
