use ovsdb::ovs_bridge::OvsBridge;
use ovsdb::ovs_error::OvsErrorType;
use ovsdb::ovs_port::{OvsPort, OvsPortMode};
use ovsdb::ovs_transaction::{
    check_add_port, find_bridge, placeholder, placeholders, port_exists, text_value,
    write_add_port_request, write_bridge_update, write_insert_operation, write_interface_row,
    write_port_references, write_port_row, write_transact_request,
};
use serde_json::Value;

fn json(text: &str) -> Value {
    serde_json::from_str(text).unwrap()
}

fn ports() -> Vec<OvsPort> {
    vec![
        OvsPort::new("eth9", "p-9", &OvsPortMode::Access(9)),
        OvsPort::new("eth0", "p-0", &OvsPortMode::Trunk(vec![])),
    ]
}

fn bridge(name: &str, uuid: &str, ports: Vec<OvsPort>) -> OvsBridge {
    let mut b = OvsBridge::new(name, uuid);
    b.ports = ports;
    b
}

#[test]
fn placeholder_is_row_and_the_token_with_underscores() {
    assert_eq!(
        placeholder("67e55044-10b1-426f-9247-bb680e5fe0c8"),
        "row67e55044_10b1_426f_9247_bb680e5fe0c8"
    );
    assert_eq!(placeholder(""), "row");
    assert_eq!(placeholder("---"), "row___");
    assert_eq!(placeholder("a_b-c"), "rowa_b_c");
}

#[test]
fn placeholders_of_different_tokens_are_their_placeholders() {
    let (one, two) = placeholders(
        "67e55044-10b1-426f-9247-bb680e5fe0c8",
        "0436b9a2-5c1e-4d7a-8a3e-0e8b0d6c1f00",
    );
    assert_eq!(one, "row67e55044_10b1_426f_9247_bb680e5fe0c8");
    assert_eq!(two, "row0436b9a2_5c1e_4d7a_8a3e_0e8b0d6c1f00");
}

#[test]
fn placeholders_of_equal_tokens_still_differ() {
    let (one, two) = placeholders("abc-def", "abc-def");
    assert_eq!(one, "rowabc_def");
    assert_eq!(two, "rowabc_def_");
    let (one, two) = placeholders("abc-def", "abc_def");
    assert_eq!(one, "rowabc_def");
    assert_eq!(two, "rowabc_def_");
    assert_ne!(one, two);
}

#[test]
fn port_exists_looks_at_names_only() {
    let ports = ports();
    assert!(port_exists(&ports, "eth0"));
    assert!(port_exists(&ports, "eth9"));
    assert!(!port_exists(&ports, "eth1"));
    assert!(!port_exists(&ports, "p-0"));
    assert!(!port_exists(&ports, ""));
    assert!(!port_exists(&Vec::new(), "eth0"));
}

#[test]
fn find_bridge_gives_the_last_of_the_name() {
    let bridges = vec![
        bridge("sw1", "b-1", vec![]),
        bridge("sw2", "b-2", vec![]),
        bridge("sw1", "b-3", vec![]),
        bridge("sw3", "b-4", vec![]),
    ];
    assert_eq!(find_bridge(&bridges, "sw1"), Some(2));
    assert_eq!(find_bridge(&bridges, "sw2"), Some(1));
    assert_eq!(find_bridge(&bridges, "sw3"), Some(3));
    assert_eq!(find_bridge(&bridges, "sw4"), None);
    assert_eq!(find_bridge(&Vec::new(), "sw1"), None);
}

#[test]
fn find_bridge_sees_the_last_bridge_of_the_list() {
    let bridges = vec![bridge("sw1", "b-1", vec![]), bridge("sw2", "b-2", vec![])];
    assert_eq!(find_bridge(&bridges, "sw2"), Some(1));
    let bridges = vec![bridge("only", "b-1", vec![])];
    assert_eq!(find_bridge(&bridges, "only"), Some(0));
}

#[test]
fn taken_port_name_is_refused_whatever_the_bridge() {
    let ports = ports();
    let bridges = vec![bridge("sw1", "b-1", ports.clone())];
    for bridge_name in ["sw1", "nowhere", ""] {
        let e = check_add_port(&ports, &bridges, bridge_name, "eth0").unwrap_err();
        assert_eq!(e.error_type, OvsErrorType::InconsistentInstruction);
        assert_eq!(e.error_message, "Interface already exist in ovsdb. (eth0)");
        assert_eq!(e.error_detail, "eth0");
    }
    let e = check_add_port(&ports, &Vec::new(), "sw1", "eth9").unwrap_err();
    assert_eq!(e.error_type, OvsErrorType::InconsistentInstruction);
    assert_eq!(e.error_detail, "eth9");
}

#[test]
fn unknown_bridge_is_refused_for_a_new_port_name() {
    let ports = ports();
    let bridges = vec![bridge("sw1", "b-1", ports.clone())];
    let e = check_add_port(&ports, &bridges, "sw2", "eth1").unwrap_err();
    assert_eq!(e.error_type, OvsErrorType::InconsistentInstruction);
    assert_eq!(e.error_message, "Bridge is not found. (sw2)");
    assert_eq!(e.error_detail, "sw2");
}

#[test]
fn empty_database_has_no_bridge_to_add_to() {
    let e = check_add_port(&Vec::new(), &Vec::new(), "sw1", "eth1").unwrap_err();
    assert_eq!(e.error_type, OvsErrorType::InconsistentInstruction);
    assert_eq!(e.error_message, "Bridge is not found. (sw1)");
}

#[test]
fn valid_instruction_gives_the_bridge() {
    let ports = ports();
    let bridges = vec![bridge("sw0", "b-0", vec![]), bridge("sw1", "b-1", ports.clone())];
    assert_eq!(check_add_port(&ports, &bridges, "sw1", "eth1").unwrap(), 1);
    assert_eq!(check_add_port(&ports, &bridges, "sw0", "eth1").unwrap(), 0);
    assert_eq!(check_add_port(&Vec::new(), &bridges, "sw0", "eth0").unwrap(), 0);
}

#[test]
fn text_value_is_a_json_string() {
    assert_eq!(text_value("a \"b\""), json(r#""a \"b\"""#));
    assert_eq!(text_value(""), json(r#""""#));
}

#[test]
fn transact_request_puts_the_database_first() {
    let request = write_transact_request(vec![json("1"), json(r#"{"op":"x"}"#)], 5);
    assert_eq!(
        request,
        json(r#"{"method":"transact","params":["Open_vSwitch",1,{"op":"x"}],"id":5}"#)
    );
    let request = write_transact_request(Vec::new(), i32::MAX);
    assert_eq!(request, json(r#"{"method":"transact","params":["Open_vSwitch"],"id":2147483647}"#));
}

#[test]
fn insert_operation_and_rows() {
    assert_eq!(write_interface_row("eth1"), json(r#"{"name":"eth1","type":""}"#));
    assert_eq!(
        write_insert_operation("Interface", "rowa", write_interface_row("eth1")),
        json(r#"{"uuid-name":"rowa","op":"insert","table":"Interface","row":{"name":"eth1","type":""}}"#)
    );
}

#[test]
fn access_port_row_has_tag_and_no_trunks() {
    let row = write_port_row("eth1", "rowa", &OvsPortMode::Access(10));
    assert_eq!(row, json(r#"{"name":"eth1","interfaces":["named-uuid","rowa"],"tag":10}"#));
    assert!(row.get("trunks").is_none());
}

#[test]
fn trunk_port_row_has_trunks_and_no_tag() {
    let row = write_port_row("eth1", "rowa", &OvsPortMode::Trunk(vec![10, 20, 5]));
    assert_eq!(
        row,
        json(r#"{"name":"eth1","interfaces":["named-uuid","rowa"],"trunks":["set",[10,20,5]]}"#)
    );
    assert!(row.get("tag").is_none());
    let row = write_port_row("eth1", "rowa", &OvsPortMode::Trunk(vec![]));
    assert_eq!(row, json(r#"{"name":"eth1","interfaces":["named-uuid","rowa"],"trunks":["set",[]]}"#));
}

#[test]
fn port_references_end_with_the_new_port() {
    assert_eq!(
        write_port_references(&ports(), "rowb"),
        vec![json(r#"["uuid","p-9"]"#), json(r#"["uuid","p-0"]"#), json(r#"["named-uuid","rowb"]"#)]
    );
    assert_eq!(write_port_references(&Vec::new(), "rowb"), vec![json(r#"["named-uuid","rowb"]"#)]);
}

#[test]
fn bridge_update_matches_the_bridge_by_identity() {
    assert_eq!(
        write_bridge_update("b-1", vec![json(r#"["named-uuid","rowb"]"#)]),
        json(
            r#"{"where":[["_uuid","==",["uuid","b-1"]]],"row":{"ports":["set",[["named-uuid","rowb"]]]},"op":"update","table":"Bridge"}"#
        )
    );
}

#[test]
fn add_port_request_for_an_access_port() {
    let target = bridge("sw1", "b-1", ports());
    let request =
        write_add_port_request(&target, "eth1", &OvsPortMode::Access(10), "rowa", "rowb", 3);
    assert_eq!(
        request,
        json(
            r#"{
                "method":"transact",
                "params":[
                    "Open_vSwitch",
                    {"uuid-name":"rowa","op":"insert","table":"Interface","row":{"name":"eth1","type":""}},
                    {"uuid-name":"rowb","op":"insert","table":"Port",
                     "row":{"name":"eth1","interfaces":["named-uuid","rowa"],"tag":10}},
                    {"where":[["_uuid","==",["uuid","b-1"]]],
                     "row":{"ports":["set",[["uuid","p-9"],["uuid","p-0"],["named-uuid","rowb"]]]},
                     "op":"update","table":"Bridge"}
                ],
                "id":3
            }"#
        )
    );
    assert_eq!(request["params"].as_array().unwrap().len(), 4);
}

#[test]
fn add_port_request_for_a_trunk_port_on_a_bridge_without_ports() {
    let target = bridge("sw1", "b-1", vec![]);
    let request =
        write_add_port_request(&target, "eth1", &OvsPortMode::Trunk(vec![7, 8]), "rowa", "rowb", 0);
    assert_eq!(
        request["params"][2]["row"],
        json(r#"{"name":"eth1","interfaces":["named-uuid","rowa"],"trunks":["set",[7,8]]}"#)
    );
    assert_eq!(request["params"][3]["row"]["ports"], json(r#"["set",[["named-uuid","rowb"]]]"#));
}
