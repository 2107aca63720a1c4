use std::collections::HashMap;

use mod_host_proxy::codec::{CreateLv2PluginResponse, ParameterReading};
use mod_host_proxy::proxy::{ExchangeError, HostProxy, ModHostProxyRequests, Reply};

/// A stand-in for the plugin host: it answers commands as the host would.
struct FakeHost {
    params: HashMap<(u32, String), String>,
}

impl FakeHost {
    fn answer(&mut self, command: &str) -> Vec<u8> {
        let command = command.trim_end_matches('\0');
        let words: Vec<&str> = command.split(' ').collect();
        let text = match words[0] {
            "add" => format!("resp {}", words[2]),
            "param_get" => {
                let key = (words[1].parse().unwrap(), words[2].to_string());
                match self.params.get(&key) {
                    Some(v) => format!("resp 0 {}", v),
                    None => "resp -1".to_string(),
                }
            }
            "param_set" => {
                let key = (words[1].parse().unwrap(), words[2].to_string());
                self.params.insert(key, words[3].to_string());
                "resp 0".to_string()
            }
            _ => "bad".to_string(),
        };
        let mut buf = text.into_bytes();
        buf.resize(120, 0);
        buf
    }
}

fn exchange(proxy: &mut HostProxy, host: &mut FakeHost, request: &ModHostProxyRequests) -> Reply {
    let command = match proxy.submit(request) {
        Ok(c) => c,
        Err(e) => return Reply::Failed(e),
    };
    if let Some(reply) = proxy.write_finished(true) {
        return reply;
    }
    let answer = host.answer(&command);
    proxy.response_received(Some(&answer))
}

fn create(uri: &str) -> ModHostProxyRequests {
    ModHostProxyRequests::CreateLv2Plugin { plugin_uri: uri.to_string() }
}

fn get(instance: u32, symbol: &str) -> ModHostProxyRequests {
    ModHostProxyRequests::GetParameterValue { instance_number: instance, symbol: symbol.to_string() }
}

fn value_of(reply: Reply) -> f64 {
    match reply {
        Reply::Parameter(ParameterReading::Value(v)) => {
            std::str::from_utf8(&v).unwrap().parse().unwrap()
        }
        other => panic!("unexpected {:?}", other),
    }
}

#[test]
fn creation_ids_increase_in_submission_order() {
    let mut proxy = HostProxy::new();
    let mut host = FakeHost { params: HashMap::new() };
    let mut ids = Vec::new();
    for uri in ["urn:a", "urn:b", "urn:c", "urn:d"] {
        match exchange(&mut proxy, &mut host, &create(uri)) {
            Reply::Created(CreateLv2PluginResponse::Created(id)) => ids.push(id),
            other => panic!("unexpected {:?}", other),
        }
    }
    assert_eq!(ids, vec![0, 1, 2, 3]);
    assert_eq!(proxy.next_instance_id(), 4);
}

#[test]
fn refused_creation_still_spends_its_id() {
    let mut proxy = HostProxy::new();
    let command = proxy.submit(&create("urn:a")).unwrap();
    assert_eq!(command, "add urn:a 0\0");
    assert_eq!(proxy.next_instance_id(), 1);
    assert!(proxy.is_writing());
    assert_eq!(proxy.write_finished(true), None);
    assert!(proxy.is_reading());
    let reply = proxy.response_received(Some(b"resp -2\0"));
    assert_eq!(reply, Reply::Created(CreateLv2PluginResponse::Error(-2)));
    assert!(proxy.is_idle());
    assert_eq!(proxy.submit(&create("urn:b")).unwrap(), "add urn:b 1\0");
}

#[test]
fn gets_on_different_instances_are_not_swapped() {
    let mut proxy = HostProxy::new();
    let mut host = FakeHost { params: HashMap::new() };
    host.params.insert((1, "gain".to_string()), "0.25".to_string());
    host.params.insert((2, "gain".to_string()), "0.75".to_string());
    assert_eq!(value_of(exchange(&mut proxy, &mut host, &get(2, "gain"))), 0.75);
    assert_eq!(value_of(exchange(&mut proxy, &mut host, &get(1, "gain"))), 0.25);
}

#[test]
fn update_then_get_reads_new_value() {
    let mut proxy = HostProxy::new();
    let mut host = FakeHost { params: HashMap::new() };
    let update = ModHostProxyRequests::UpdateParameterValue {
        instance_number: 1,
        symbol: "gain".to_string(),
        value: format!("{}", 0.8f64),
    };
    assert_eq!(exchange(&mut proxy, &mut host, &update), Reply::Updated);
    assert_eq!(value_of(exchange(&mut proxy, &mut host, &get(1, "gain"))), 0.8);
}

#[test]
fn failed_write_during_creation_is_reported() {
    let mut proxy = HostProxy::new();
    proxy.submit(&create("urn:a")).unwrap();
    let reply = proxy.write_finished(false);
    assert_eq!(reply, Some(Reply::Failed(ExchangeError::HostUnavailable)));
    assert!(proxy.is_idle());
    assert_eq!(proxy.next_instance_id(), 1);
    assert_eq!(proxy.submit(&create("urn:b")).unwrap(), "add urn:b 1\0");
}

#[test]
fn failed_read_during_creation_is_reported() {
    let mut proxy = HostProxy::new();
    proxy.submit(&create("urn:a")).unwrap();
    assert_eq!(proxy.write_finished(true), None);
    let reply = proxy.response_received(None);
    assert_eq!(reply, Reply::Failed(ExchangeError::HostUnavailable));
    assert!(proxy.is_idle());
    assert_eq!(proxy.next_instance_id(), 1);
}

#[test]
fn malformed_answer_is_a_protocol_violation() {
    let mut proxy = HostProxy::new();
    proxy.submit(&get(1, "gain")).unwrap();
    proxy.write_finished(true);
    let reply = proxy.response_received(Some(b"nonsense\0"));
    assert_eq!(reply, Reply::Failed(ExchangeError::ProtocolViolation));
    proxy.submit(&create("urn:a")).unwrap();
    proxy.write_finished(true);
    let reply = proxy.response_received(Some(b"resp seven\0"));
    assert_eq!(reply, Reply::Failed(ExchangeError::ProtocolViolation));
}

#[test]
fn update_answer_is_not_parsed() {
    let mut proxy = HostProxy::new();
    let update = ModHostProxyRequests::UpdateParameterValue {
        instance_number: 3,
        symbol: "freq".to_string(),
        value: "440".to_string(),
    };
    assert_eq!(proxy.submit(&update).unwrap(), "param_set 3 freq 440\0");
    proxy.write_finished(true);
    assert_eq!(proxy.response_received(Some(b"whatever\0")), Reply::Updated);
}
