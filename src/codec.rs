//! The host's wire protocol: null-terminated text commands, and the
//! null-terminated `resp <status> ...` answers to them.
use vstd::prelude::*;
use vstd::string::*;
use crate::decimal::{decimal, parse_i32, parsed_i32, push_decimal};

verus! {

/// What the host answers to an `add` command.
#[derive(Debug, Clone, Copy, PartialEq, Eq, Structural)]
pub enum CreateLv2PluginResponse {
    /// The host refused the instance, with this (negative) code.
    Error(i32),
    /// The host created the instance under this id.
    Created(i32),
}

/// What the host answers to a `param_get` command.
#[derive(Debug, Clone, PartialEq, Eq)]
pub enum ParameterReading {
    /// The host read the parameter; the value is given as the host wrote it.
    Value(Vec<u8>),
    /// The host reported a failed read.
    Failed,
}

/// `add <plugin_uri> <instance_id>` and a null terminator.
pub open spec fn add_command(plugin_uri: Seq<char>, instance_id: nat) -> Seq<char> {
    seq!['a', 'd', 'd', ' '] + plugin_uri + seq![' '] + decimal(instance_id) + seq!['\0']
}

/// `param_get <instance_id> <symbol>` and a null terminator.
pub open spec fn param_get_command(instance_id: nat, symbol: Seq<char>) -> Seq<char> {
    seq!['p', 'a', 'r', 'a', 'm', '_', 'g', 'e', 't', ' '] + decimal(instance_id) + seq![' ']
        + symbol + seq!['\0']
}

/// `param_set <instance_id> <symbol> <value>` and a null terminator.
pub open spec fn param_set_command(instance_id: nat, symbol: Seq<char>, value: Seq<char>) -> Seq<
    char,
> {
    seq!['p', 'a', 'r', 'a', 'm', '_', 's', 'e', 't', ' '] + decimal(instance_id) + seq![' ']
        + symbol + seq![' '] + value + seq!['\0']
}

/// The command that asks the host to create an instance of `plugin_uri`.
pub fn encode_create(plugin_uri: &str, instance_id: u32) -> (r: String)
    ensures
        r@ == add_command(plugin_uri@, instance_id as nat),
{
    proof {
        reveal_strlit("add ");
        reveal_strlit(" ");
        reveal_strlit("\0");
    }
    let mut s = String::from_str("add ");
    s.append(plugin_uri);
    s.append(" ");
    push_decimal(&mut s, instance_id);
    s.append("\0");
    proof {
        assert(s@ =~= add_command(plugin_uri@, instance_id as nat));
    }
    s
}

/// The command that reads parameter `symbol` of an instance.
pub fn encode_get(instance_id: u32, symbol: &str) -> (r: String)
    ensures
        r@ == param_get_command(instance_id as nat, symbol@),
{
    proof {
        reveal_strlit("param_get ");
        reveal_strlit(" ");
        reveal_strlit("\0");
    }
    let mut s = String::from_str("param_get ");
    push_decimal(&mut s, instance_id);
    s.append(" ");
    s.append(symbol);
    s.append("\0");
    proof {
        assert(s@ =~= param_get_command(instance_id as nat, symbol@));
    }
    s
}

/// The command that sets parameter `symbol` of an instance to the value
/// written as `value`.
pub fn encode_set(instance_id: u32, symbol: &str, value: &str) -> (r: String)
    ensures
        r@ == param_set_command(instance_id as nat, symbol@, value@),
{
    proof {
        reveal_strlit("param_set ");
        reveal_strlit(" ");
        reveal_strlit("\0");
    }
    let mut s = String::from_str("param_set ");
    push_decimal(&mut s, instance_id);
    s.append(" ");
    s.append(symbol);
    s.append(" ");
    s.append(value);
    s.append("\0");
    proof {
        assert(s@ =~= param_set_command(instance_id as nat, symbol@, value@));
    }
    s
}

/// The index of the first null byte at or after `i`, or the length of `buf`
/// when there is none.
pub open spec fn nul_from(buf: Seq<u8>, i: int) -> int
    decreases buf.len() - i,
{
    if i >= buf.len() || buf[i] == 0 {
        i
    } else {
        nul_from(buf, i + 1)
    }
}

/// The answer held in a received buffer: what comes before its first null
/// byte.
pub open spec fn response_text(buf: Seq<u8>) -> Seq<u8> {
    buf.take(nul_from(buf, 0))
}

/// `resp` and a space, in ASCII.
pub open spec fn resp_token() -> Seq<u8> {
    seq![114u8, 101u8, 115u8, 112u8, 32u8]
}

/// An answer that starts with the `resp` token and its delimiter.
pub open spec fn is_resp(t: Seq<u8>) -> bool {
    t.len() >= 5 && t.take(5) == resp_token()
}

/// What a received buffer says of an `add` command, or `None` where it
/// breaks the protocol: the status is a decimal `i32`, the new instance's id
/// when it is not negative, the host's error code when it is.
pub open spec fn decoded_create(buf: Seq<u8>) -> Option<CreateLv2PluginResponse> {
    let t = response_text(buf);
    if is_resp(t) {
        match parsed_i32(t.skip(5)) {
            Some(v) => Some(
                if v < 0 {
                    CreateLv2PluginResponse::Error(v)
                } else {
                    CreateLv2PluginResponse::Created(v)
                },
            ),
            None => None,
        }
    } else {
        None
    }
}

/// A received buffer that answers a `param_get` command within the protocol:
/// a status after `resp `, and when the status starts with `0` a space and
/// the value after it.
pub open spec fn is_get_answer(buf: Seq<u8>) -> bool {
    let t = response_text(buf);
    is_resp(t) && t.len() > 5 && (t[5] == 48u8 ==> t.len() >= 7 && t[6] == 32u8)
}

/// The answer reports a value: its status starts with `0`.
pub open spec fn reports_value(buf: Seq<u8>) -> bool {
    response_text(buf)[5] == 48u8
}

/// The value text of an answer that reports one.
pub open spec fn value_text(buf: Seq<u8>) -> Seq<u8> {
    response_text(buf).skip(7)
}

proof fn lemma_nul_from_bounds(buf: Seq<u8>, i: int)
    requires
        0 <= i <= buf.len(),
    ensures
        i <= nul_from(buf, i) <= buf.len(),
        forall|j: int| i <= j < nul_from(buf, i) ==> buf[j] != 0,
    decreases buf.len() - i,
{
    if i < buf.len() && buf[i] != 0 {
        lemma_nul_from_bounds(buf, i + 1);
    }
}

/// The length of the answer held in `buf`: the index of its first null byte,
/// or its length when it has none.
pub fn response_len(buf: &[u8]) -> (k: usize)
    ensures
        k == nul_from(buf@, 0),
        k <= buf@.len(),
        response_text(buf@) == buf@.subrange(0, k as int),
{
    let mut i: usize = 0;
    while i < buf.len() && buf[i] != 0
        invariant
            i <= buf@.len(),
            nul_from(buf@, i as int) == nul_from(buf@, 0),
        decreases buf@.len() - i,
    {
        i = i + 1;
    }
    proof {
        lemma_nul_from_bounds(buf@, 0);
    }
    i
}

fn starts_with_resp(buf: &[u8], len: usize) -> (r: bool)
    requires
        len <= buf@.len(),
    ensures
        r == is_resp(buf@.subrange(0, len as int)),
{
    let r = len >= 5 && buf[0] == 114u8 && buf[1] == 101u8 && buf[2] == 115u8 && buf[3] == 112u8
        && buf[4] == 32u8;
    proof {
        let t = buf@.subrange(0, len as int);
        if len >= 5 {
            if r {
                assert(t.take(5) =~= resp_token());
            } else {
                if t.take(5) == resp_token() {
                    assert(t.take(5)[0] == buf@[0]);
                    assert(t.take(5)[1] == buf@[1]);
                    assert(t.take(5)[2] == buf@[2]);
                    assert(t.take(5)[3] == buf@[3]);
                    assert(t.take(5)[4] == buf@[4]);
                }
            }
        }
    }
    r
}

/// Decodes the host's answer to an `add` command.
pub fn decode_create(buf: &[u8]) -> (r: Option<CreateLv2PluginResponse>)
    ensures
        r == decoded_create(buf@),
{
    let len = response_len(buf);
    if !starts_with_resp(buf, len) {
        return None;
    }
    let parsed = parse_i32(buf, 5, len);
    proof {
        assert(buf@.subrange(0, len as int).skip(5) =~= buf@.subrange(5, len as int));
    }
    match parsed {
        Some(v) => if v < 0 {
            Some(CreateLv2PluginResponse::Error(v))
        } else {
            Some(CreateLv2PluginResponse::Created(v))
        },
        None => None,
    }
}

/// Decodes the host's answer to a `param_get` command: `None` where it
/// breaks the protocol.
pub fn decode_get(buf: &[u8]) -> (r: Option<ParameterReading>)
    ensures
        match r {
            None => !is_get_answer(buf@),
            Some(ParameterReading::Failed) => is_get_answer(buf@) && !reports_value(buf@),
            Some(ParameterReading::Value(v)) => is_get_answer(buf@) && reports_value(buf@) && v@
                == value_text(buf@),
        },
{
    let len = response_len(buf);
    if !starts_with_resp(buf, len) || len == 5 {
        return None;
    }
    if buf[5] != 48u8 {
        return Some(ParameterReading::Failed);
    }
    if len < 7 || buf[6] != 32u8 {
        return None;
    }
    let mut value: Vec<u8> = Vec::new();
    let mut i: usize = 7;
    while i < len
        invariant
            7 <= i <= len <= buf@.len(),
            value@ == buf@.subrange(7, i as int),
        decreases len - i,
    {
        value.push(buf[i]);
        i = i + 1;
        proof {
            assert(value@ =~= buf@.subrange(7, i as int));
        }
    }
    proof {
        assert(value@ =~= value_text(buf@));
    }
    Some(ParameterReading::Value(value))
}

} // verus!
