use ovsdb::ovs_client::{
    check_response, read_response, OvsAction, OvsCall, OvsClient, OvsExchange, OvsReply,
    OvsSettled,
};
use ovsdb::ovs_error::{OvsError, OvsErrorType};
use ovsdb::ovs_port::{OvsPort, OvsPortMode};
use ovsdb::text::push_decimal;
use serde_json::Value;

const PORT_SELECT_0: &str =
    r#"{"id":0,"method":"transact","params":["Open_vSwitch",{"op":"select","table":"Port","where":[]}]}"#;

const EMPTY: &str = r#"{"id":0,"error":null,"result":[{"rows":[]}]}"#;

const PORTS: &str = r#"{"id":0,"error":null,"result":[{"rows":[
    {"_uuid":["uuid","p-9"],"name":"eth9","tag":9,"trunks":["set",[]]},
    {"_uuid":["uuid","p-0"],"name":"eth0","tag":["set",[]],"trunks":["set",[10,20]]}
]}]}"#;

const BRIDGES: &str = r#"{"id":1,"error":null,"result":[{"rows":[
    {"_uuid":["uuid","b-0"],"name":"sw0","ports":["set",[]]},
    {"_uuid":["uuid","b-1"],"name":"sw1","ports":["set",[["uuid","p-9"],["uuid","p-0"]]]}
]}]}"#;

const ADDED: &str = r#"{"id":3,"error":null,"result":[{"uuid":["uuid","i-1"]},{"uuid":["uuid","p-1"]},{"count":1}]}"#;

fn json(text: &str) -> Value {
    serde_json::from_str(text).unwrap()
}

fn received(text: &str) -> OvsExchange {
    OvsExchange::Received(text.as_bytes().to_vec())
}

fn client() -> OvsClient {
    OvsClient::new("127.0.0.1", 6632).unwrap()
}

/// Plays the part of the database: answers the requests of an operation with the
/// given replies, in turn, and gives the result together with the texts that were sent.
fn run(
    client: &mut OvsClient,
    first: OvsAction,
    replies: &[&str],
) -> (Result<OvsReply, OvsError>, Vec<String>) {
    let mut sent = Vec::new();
    let mut action = first;
    loop {
        match action {
            OvsAction::Send(call, text) => {
                assert!(sent.len() < replies.len(), "more requests than replies: {}", text);
                let exchange = received(replies[sent.len()]);
                sent.push(text);
                action = client.resume(call, exchange);
            }
            OvsAction::Finish(result) => return (result, sent),
        }
    }
}

fn kind<T>(result: Result<T, OvsError>) -> OvsErrorType {
    match result {
        Ok(_) => panic!("expected an error"),
        Err(e) => e.error_type,
    }
}

#[test]
fn test_ovs_core() {
    let ovsc = OvsClient::new("127.0.0.1", 6632);
    match ovsc {
        Err(e) => println!("{}", e.to_string()),
        Ok(mut c) => {
            let first = c.get_ports();
            match run(&mut c, first, &[PORTS]).0 {
                Ok(OvsReply::Ports(ports)) => {
                    println!("number of port : {0}", ports.len());
                    for port in ports {
                        println!("{:?}", port);
                    }
                }
                Ok(other) => panic!("unexpected {:?}", other),
                Err(e) => println!("{}", e.to_string()),
            }

            let first = c.get_bridges();
            match run(&mut c, first, &[BRIDGES, PORTS]).0 {
                Ok(OvsReply::Bridges(bridges)) => {
                    println!("number of bridges : {0}", bridges.len());
                    for br in bridges {
                        println!("{:?}", br);
                    }
                }
                Ok(other) => panic!("unexpected {:?}", other),
                Err(e) => println!("{}", e.to_string()),
            }

            let first = c.add_port("test", "enp3s0", &OvsPortMode::Access(10));
            match run(&mut c, first, &[PORTS, BRIDGES, PORTS, ADDED]).0 {
                Err(e) => println!("{}", e.to_string()),
                Ok(i) => println!("{:?}", i),
            }
        }
    }
}

#[test]
fn new_client_targets_host_and_port() {
    let c = client();
    assert_eq!(c.target(), "127.0.0.1:6632");
    assert_eq!(c.transaction_id(), 0);
    assert_eq!(OvsClient::new("db.example", 0).unwrap().target(), "db.example:0");
    assert_eq!(OvsClient::new("h", 7).unwrap().target(), "h:7");
    assert_eq!(OvsClient::new("h", 10).unwrap().target(), "h:10");
    assert_eq!(OvsClient::new("h", i16::MAX).unwrap().target(), "h:32767");
    assert_eq!(OvsClient::new("h", -1).unwrap().target(), "h:-1");
    assert_eq!(OvsClient::new("", i16::MIN).unwrap().target(), ":-32768");
}

#[test]
fn push_decimal_writes_base_ten() {
    let mut text = String::from("n=");
    push_decimal(&mut text, 0);
    push_decimal(&mut text, 1905);
    push_decimal(&mut text, u32::MAX);
    assert_eq!(text, "n=019054294967295");
}

#[test]
fn send_prints_the_request_and_counts_it() {
    let mut c = client();
    let text = c.send(&json(r#"{"b":[1,"x",null],"a":{"k":true}}"#));
    assert_eq!(text, r#"{"a":{"k":true},"b":[1,"x",null]}"#);
    assert_eq!(c.transaction_id(), 1);
    c.send(&json("[]"));
    assert_eq!(c.transaction_id(), 2);
    assert_eq!(c.target(), "127.0.0.1:6632");
}

#[test]
fn requests_are_numbered_in_rising_order() {
    let mut c = client();
    let first = c.get_bridges();
    let (_, sent) = run(&mut c, first, &[BRIDGES, PORTS]);
    let first = c.get_ports();
    let (_, more) = run(&mut c, first, &[PORTS]);
    let ids: Vec<Value> =
        sent.iter().chain(more.iter()).map(|text| json(text)["id"].clone()).collect();
    assert_eq!(ids, vec![json("0"), json("1"), json("2")]);
    assert_eq!(c.transaction_id(), 3);
}

#[test]
fn get_ports_sends_the_port_select() {
    let mut c = client();
    match c.get_ports() {
        OvsAction::Send(OvsCall::Ports, text) => assert_eq!(text, PORT_SELECT_0),
        other => panic!("unexpected {:?}", other),
    }
    assert_eq!(c.transaction_id(), 1);
}

#[test]
fn get_ports_gives_the_ports_of_the_reply() {
    let mut c = client();
    let first = c.get_ports();
    let (result, sent) = run(&mut c, first, &[PORTS]);
    assert_eq!(sent, vec![PORT_SELECT_0.to_string()]);
    match result {
        Ok(OvsReply::Ports(ports)) => assert_eq!(
            ports,
            vec![
                OvsPort::new("eth9", "p-9", &OvsPortMode::Access(9)),
                OvsPort::new("eth0", "p-0", &OvsPortMode::Trunk(vec![10, 20])),
            ]
        ),
        other => panic!("unexpected {:?}", other),
    }
}

#[test]
fn get_ports_reports_a_missing_column() {
    let mut c = client();
    let first = c.get_ports();
    let (result, _) = run(&mut c, first, &[r#"{"result":[{"rows":[{"name":"eth0"}]}]}"#]);
    let e = result.unwrap_err();
    assert_eq!(e.error_type, OvsErrorType::UnexpectedResponse);
    assert_eq!(e.error_detail, "_uuid");
}

#[test]
fn get_bridges_reads_bridges_then_ports() {
    let mut c = client();
    let first = c.get_bridges();
    let (result, sent) = run(&mut c, first, &[BRIDGES, PORTS]);
    assert_eq!(
        sent,
        vec![
            r#"{"id":0,"method":"transact","params":["Open_vSwitch",{"op":"select","table":"Bridge","where":[]}]}"#,
            r#"{"id":1,"method":"transact","params":["Open_vSwitch",{"op":"select","table":"Port","where":[]}]}"#,
        ]
    );
    match result {
        Ok(OvsReply::Bridges(bridges)) => {
            assert_eq!(bridges.len(), 2);
            assert_eq!(bridges[0].name, "sw0");
            assert_eq!(bridges[0].uuid, "b-0");
            assert!(bridges[0].ports.is_empty());
            assert_eq!(bridges[1].name, "sw1");
            assert_eq!(bridges[1].uuid, "b-1");
            assert_eq!(
                bridges[1].ports,
                vec![
                    OvsPort::new("eth9", "p-9", &OvsPortMode::Access(9)),
                    OvsPort::new("eth0", "p-0", &OvsPortMode::Trunk(vec![10, 20])),
                ]
            );
        }
        other => panic!("unexpected {:?}", other),
    }
}

#[test]
fn get_bridges_stops_at_a_refused_bridge_select() {
    let mut c = client();
    let first = c.get_bridges();
    let (result, sent) = run(&mut c, first, &[r#"{"result":[{"error":"unknown table"}]}"#]);
    assert_eq!(sent.len(), 1);
    assert_eq!(kind(result), OvsErrorType::QueryError);
}

#[test]
fn get_bridges_reports_bad_bridge_rows_after_the_ports_are_read() {
    let mut c = client();
    let first = c.get_bridges();
    let (result, sent) = run(&mut c, first, &[r#"{"result":[{"rows":[{"name":"sw1"}]}]}"#, PORTS]);
    assert_eq!(sent.len(), 2);
    let e = result.unwrap_err();
    assert_eq!(e.error_type, OvsErrorType::UnexpectedResponse);
    assert_eq!(e.error_detail, "_uuid");
}

#[test]
fn empty_database_gives_no_ports_and_no_bridges_and_no_bridge_to_add_to() {
    let mut c = client();
    let first = c.get_ports();
    match run(&mut c, first, &[EMPTY]).0 {
        Ok(OvsReply::Ports(ports)) => assert!(ports.is_empty()),
        other => panic!("unexpected {:?}", other),
    }
    let first = c.get_bridges();
    match run(&mut c, first, &[EMPTY, EMPTY]).0 {
        Ok(OvsReply::Bridges(bridges)) => assert!(bridges.is_empty()),
        other => panic!("unexpected {:?}", other),
    }
    for bridge_name in ["sw1", "", "anything"] {
        let first = c.add_port(bridge_name, "eth1", &OvsPortMode::Access(10));
        let (result, sent) = run(&mut c, first, &[EMPTY, EMPTY, EMPTY]);
        assert_eq!(sent.len(), 3);
        let e = result.unwrap_err();
        assert_eq!(e.error_type, OvsErrorType::InconsistentInstruction);
        assert_eq!(e.error_message, format!("Bridge is not found. ({})", bridge_name));
        assert_eq!(e.error_detail, bridge_name);
    }
}

#[test]
fn add_port_refuses_a_taken_name_whatever_the_bridge() {
    for bridge_name in ["sw1", "nowhere"] {
        let mut c = client();
        let first = c.add_port(bridge_name, "eth0", &OvsPortMode::Access(10));
        let (result, sent) = run(&mut c, first, &[PORTS, BRIDGES, PORTS]);
        assert_eq!(sent.len(), 3);
        let e = result.unwrap_err();
        assert_eq!(e.error_type, OvsErrorType::InconsistentInstruction);
        assert_eq!(e.error_message, "Interface already exist in ovsdb. (eth0)");
        assert_eq!(e.error_detail, "eth0");
    }
}

#[test]
fn add_port_refuses_an_unknown_bridge() {
    let mut c = client();
    let first = c.add_port("sw7", "eth1", &OvsPortMode::Access(10));
    let (result, sent) = run(&mut c, first, &[PORTS, BRIDGES, PORTS]);
    assert_eq!(sent.len(), 3);
    let e = result.unwrap_err();
    assert_eq!(e.error_type, OvsErrorType::InconsistentInstruction);
    assert_eq!(e.error_message, "Bridge is not found. (sw7)");
}

fn is_placeholder(name: &str) -> bool {
    name.len() == 39
        && name.starts_with("row")
        && name[3..].chars().all(|c| c == '_' || c.is_ascii_digit() || ('a'..='f').contains(&c))
        && name[3..].chars().filter(|c| *c == '_').count() == 4
}

#[test]
fn add_port_sends_one_transaction_of_three_operations() {
    let mut c = client();
    let first = c.add_port("sw1", "eth1", &OvsPortMode::Access(10));
    let (result, sent) = run(&mut c, first, &[PORTS, BRIDGES, PORTS, ADDED]);
    assert_eq!(sent.len(), 4);
    assert_eq!(sent[0], PORT_SELECT_0);
    match result {
        Ok(OvsReply::Added(reply)) => assert_eq!(reply, json(ADDED)),
        other => panic!("unexpected {:?}", other),
    }

    let request = json(&sent[3]);
    assert_eq!(request["method"], "transact");
    assert_eq!(request["id"], 3);
    let params = request["params"].as_array().unwrap();
    assert_eq!(params.len(), 4);
    assert_eq!(params[0], "Open_vSwitch");

    let interface_name = params[1]["uuid-name"].as_str().unwrap().to_string();
    let port_placeholder = params[2]["uuid-name"].as_str().unwrap().to_string();
    assert!(is_placeholder(&interface_name), "{}", interface_name);
    assert!(is_placeholder(&port_placeholder), "{}", port_placeholder);
    assert_ne!(interface_name, port_placeholder);

    assert_eq!(params[1]["op"], "insert");
    assert_eq!(params[1]["table"], "Interface");
    assert_eq!(params[1]["row"], json(r#"{"name":"eth1","type":""}"#));

    assert_eq!(params[2]["op"], "insert");
    assert_eq!(params[2]["table"], "Port");
    assert_eq!(params[2]["row"]["name"], "eth1");
    assert_eq!(params[2]["row"]["interfaces"], json(&format!(r#"["named-uuid","{}"]"#, interface_name)));
    assert_eq!(params[2]["row"]["tag"], 10);
    assert!(params[2]["row"].get("trunks").is_none());
    assert_eq!(params[2]["row"].as_object().unwrap().len(), 3);

    assert_eq!(params[3]["op"], "update");
    assert_eq!(params[3]["table"], "Bridge");
    assert_eq!(params[3]["where"], json(r#"[["_uuid","==",["uuid","b-1"]]]"#));
    assert_eq!(
        params[3]["row"],
        json(&format!(
            r#"{{"ports":["set",[["uuid","p-9"],["uuid","p-0"],["named-uuid","{}"]]]}}"#,
            port_placeholder
        ))
    );
}

#[test]
fn add_port_of_a_trunk_to_a_bridge_without_ports() {
    let mut c = client();
    let first = c.add_port("sw0", "eth1", &OvsPortMode::Trunk(vec![100, 200]));
    let (result, sent) = run(&mut c, first, &[PORTS, BRIDGES, PORTS, ADDED]);
    assert!(result.is_ok());
    let request = json(&sent[3]);
    let port_placeholder = request["params"][2]["uuid-name"].as_str().unwrap().to_string();
    assert_eq!(request["params"][2]["row"]["trunks"], json(r#"["set",[100,200]]"#));
    assert!(request["params"][2]["row"].get("tag").is_none());
    assert_eq!(request["params"][3]["where"], json(r#"[["_uuid","==",["uuid","b-0"]]]"#));
    assert_eq!(
        request["params"][3]["row"]["ports"],
        json(&format!(r#"["set",[["named-uuid","{}"]]]"#, port_placeholder))
    );
}

#[test]
fn two_transactions_use_different_placeholders() {
    let mut names = Vec::new();
    for _ in 0..2 {
        let mut c = client();
        let first = c.add_port("sw1", "eth1", &OvsPortMode::Access(10));
        let (_, sent) = run(&mut c, first, &[PORTS, BRIDGES, PORTS, ADDED]);
        let request = json(&sent[3]);
        names.push(request["params"][1]["uuid-name"].as_str().unwrap().to_string());
        names.push(request["params"][2]["uuid-name"].as_str().unwrap().to_string());
    }
    for i in 0..names.len() {
        for j in 0..i {
            assert_ne!(names[i], names[j]);
        }
    }
}

#[test]
fn add_port_surfaces_the_refusal_of_the_database() {
    let refusal =
        r#"{"result":[{"error":"referential integrity violation","details":"Table Port column interfaces"}]}"#;
    let mut c = client();
    let first = c.add_port("sw1", "eth1", &OvsPortMode::Access(10));
    let (result, sent) = run(&mut c, first, &[PORTS, BRIDGES, PORTS, refusal]);
    assert_eq!(sent.len(), 4);
    let e = result.unwrap_err();
    assert_eq!(e.error_type, OvsErrorType::QueryError);
    assert_eq!(e.error_message, "Client received error response. Please check detail.");
    assert_eq!(
        e.error_detail,
        r#"{"details":"Table Port column interfaces","error":"referential integrity violation"}"#
    );
}

#[test]
fn error_reply_is_a_query_error_with_the_first_result_as_detail() {
    let c = client();
    let reply = r#"{"result":[{"error":"referential integrity violation","details":"..."}]}"#;
    let e = c.receive(received(reply)).unwrap_err();
    assert_eq!(e.error_type, OvsErrorType::QueryError);
    assert_eq!(
        e.error_detail,
        serde_json::to_string(&json(reply)["result"][0]).unwrap()
    );
    assert_eq!(e.error_detail, r#"{"details":"...","error":"referential integrity violation"}"#);
}

#[test]
fn error_is_looked_for_in_the_first_result_only() {
    let c = client();
    let reply = r#"{"result":[{"rows":[]},{"error":"later"}],"error":"top"}"#;
    assert_eq!(c.receive(received(reply)).unwrap(), json(reply));
    let e = c.receive(received(r#"{"result":[{"error":null}]}"#)).unwrap_err();
    assert_eq!(e.error_type, OvsErrorType::QueryError);
    assert_eq!(e.error_detail, r#"{"error":null}"#);
}

#[test]
fn reply_without_an_object_as_first_result_is_invalid() {
    let c = client();
    for reply in [
        r#"{}"#,
        r#"[]"#,
        r#"null"#,
        r#"7"#,
        r#"{"result":[]}"#,
        r#"{"result":{"rows":[]}}"#,
        r#"{"result":[[{"rows":[]}]]}"#,
        r#"{"result":["error"]}"#,
        r#"{"error":"x"}"#,
    ] {
        let e = c.receive(received(reply)).unwrap_err();
        assert_eq!(e.error_type, OvsErrorType::InvalidResponse, "{}", reply);
        assert_eq!(e.error_message, "Faild to parse response data");
        assert_eq!(e.error_detail, "");
    }
}

#[test]
fn reply_that_is_no_json_text_is_invalid_json() {
    let c = client();
    for reply in ["", "{", "{\"result\":[{}]", "not json", "{\"result\":[{}]} trailing", "{'a':1}"] {
        let e = c.receive(received(reply)).unwrap_err();
        assert_eq!(e.error_type, OvsErrorType::InvalidResponseJson, "{}", reply);
        assert_eq!(e.error_message, "Faild to parse response data");
    }
    let e = c.receive(OvsExchange::Received(vec![0x7b, 0xff, 0xfe, 0x7d])).unwrap_err();
    assert_eq!(e.error_type, OvsErrorType::InvalidResponseJson);
    let e = read_response(vec![0xc3]).unwrap_err();
    assert_eq!(e.error_type, OvsErrorType::InvalidResponseJson);
}

#[test]
fn reply_in_good_order_is_handed_on_whole() {
    let c = client();
    assert_eq!(c.receive(received(PORTS)).unwrap(), json(PORTS));
    assert_eq!(read_response(BRIDGES.as_bytes().to_vec()).unwrap(), json(BRIDGES));
    assert_eq!(
        read_response("{\"result\":[{\"name\":\"caf\u{e9} \u{4e2d}\"}]}".as_bytes().to_vec()).unwrap()
            ["result"][0]["name"],
        "caf\u{e9} \u{4e2d}"
    );
    let reply = json(r#"{"result":[{}]}"#);
    assert_eq!(check_response(reply.clone()).unwrap(), reply);
    assert_eq!(kind(check_response(json(r#"{"result":[1]}"#))), OvsErrorType::InvalidResponse);
    assert_eq!(kind(check_response(json(r#"{"result":[{"error":"e"}]}"#))), OvsErrorType::QueryError);
}

#[test]
fn failed_exchanges_are_connection_errors_with_the_reason() {
    let c = client();
    let e = c.receive(OvsExchange::ConnectFailed("Connection refused".to_string())).unwrap_err();
    assert_eq!(e.error_type, OvsErrorType::ConnectionError);
    assert_eq!(e.error_message, "failed to connect ovs (127.0.0.1:6632)");
    assert_eq!(e.error_detail, "Connection refused");
    assert_eq!(
        e.to_string(),
        "[OvsError]failed to connect ovs (127.0.0.1:6632)\n  ->(detail)Connection refused"
    );
    let e = c.receive(OvsExchange::SendFailed("Broken pipe".to_string())).unwrap_err();
    assert_eq!(e.error_type, OvsErrorType::ConnectionError);
    assert_eq!(e.error_message, "Faild to send request data");
    assert_eq!(e.error_detail, "Broken pipe");
    let e = c.receive(OvsExchange::ReadFailed("reset".to_string())).unwrap_err();
    assert_eq!(e.error_type, OvsErrorType::ConnectionError);
    assert_eq!(e.error_message, "Failed to read response data");
    assert_eq!(e.error_detail, "reset");
}

#[test]
fn any_failure_ends_an_operation_at_once() {
    let mut c = client();
    let first = c.add_port("sw1", "eth1", &OvsPortMode::Access(10));
    let call = match first {
        OvsAction::Send(call, _) => call,
        other => panic!("unexpected {:?}", other),
    };
    match c.resume(call, OvsExchange::ConnectFailed("down".to_string())) {
        OvsAction::Finish(Err(e)) => assert_eq!(e.error_type, OvsErrorType::ConnectionError),
        other => panic!("unexpected {:?}", other),
    }
    assert_eq!(c.transaction_id(), 1);

    let first = c.add_port("sw1", "eth1", &OvsPortMode::Access(10));
    let (result, sent) = run(&mut c, first, &[PORTS, "garbage"]);
    assert_eq!(sent.len(), 2);
    assert_eq!(kind(result), OvsErrorType::InvalidResponseJson);
}

#[test]
fn settle_stops_before_the_transaction_is_written() {
    let mut c = client();
    let call = OvsCall::AddPortBridgePorts {
        add: ovsdb::ovs_client::OvsAddPort {
            bridge_name: "sw1".to_string(),
            port_name: "eth1".to_string(),
            port_mode: OvsPortMode::Access(10),
        },
        ports: Vec::new(),
        rows: json(BRIDGES),
    };
    match c.settle(call, received(PORTS)) {
        OvsSettled::Commit(add, bridge) => {
            assert_eq!(add.port_name, "eth1");
            assert_eq!(bridge.uuid, "b-1");
            assert_eq!(bridge.ports.len(), 2);
            assert_eq!(c.transaction_id(), 0);
            match c.commit(&add, &bridge, "aa-bb", "cc-dd") {
                OvsAction::Send(OvsCall::AddPortCommit, text) => {
                    let request = json(&text);
                    assert_eq!(request["params"][1]["uuid-name"], "rowaa_bb");
                    assert_eq!(request["params"][2]["uuid-name"], "rowcc_dd");
                    assert_eq!(request["id"], 0);
                }
                other => panic!("unexpected {:?}", other),
            }
            assert_eq!(c.transaction_id(), 1);
        }
        other => panic!("unexpected {:?}", other),
    }
}

#[test]
fn check_connection_tells_whether_a_reply_is_in_good_order() {
    let c = client();
    assert!(c.check_connection(received(PORTS)));
    assert!(!c.check_connection(received("")));
    assert!(!c.check_connection(OvsExchange::ConnectFailed("down".to_string())));
    assert!(!c.check_connection(received(r#"{"result":[{"error":"x"}]}"#)));
}
