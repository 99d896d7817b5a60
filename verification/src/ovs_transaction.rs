//! The transaction that adds a port to a bridge.
//!
//! Adding a port takes three operations in one transaction: the insertion of an
//! interface, the insertion of a port that refers to that interface, and the update of
//! the bridge, whose list of ports gains a reference to the new port. The two inserted
//! rows have no identity yet; within the transaction they go by placeholders.

use crate::json::{array_value, insert_member, integer_value, json_of, items_of, new_map};
use crate::json::{no_members, object_value, string_value, JsonValue};
use crate::ovs_bridge::{bridges_view, OvsBridge, OvsBridgeView};
use crate::ovs_column::{encoded_named_uuid, encoded_number, encoded_set, encoded_uuid};
use crate::ovs_column::{named_uuid_value, number_value, set_value, uuid_value};
use crate::ovs_error::{error_with_detail, OvsError, OvsErrorType, OvsErrorView};
use crate::ovs_port::{ports_view, OvsPort, OvsPortMode, OvsPortModeView, OvsPortView};
use vstd::prelude::*;

verus! {

/// Whether `c` is a digit of a number written in base 16 with small letters.
pub open spec fn is_lower_hex(c: char) -> bool {
    ('0' <= c && c <= '9') || ('a' <= c && c <= 'f')
}

/// Whether `text` has the form in which a UUID is commonly written: 36 characters,
/// hyphens after the 8th, 12th, 16th and 20th digit, and digits of base 16 elsewhere.
pub open spec fn is_hyphenated_uuid(text: Seq<char>) -> bool {
    &&& text.len() == 36
    &&& forall|i: int|
        0 <= i < 36 ==> if i == 8 || i == 13 || i == 18 || i == 23 {
            #[trigger] text[i] == '-'
        } else {
            is_lower_hex(text[i])
        }
}

/// `uuid::Uuid::new_v4`, written out by `to_string`: a fresh random UUID as text.
/// Trusted: the text has the hyphenated form with small letters. Which UUID it is
/// depends on the random numbers of the operating system, so nothing more is stated;
/// the call ends the program where the operating system has no random numbers to give.
#[verifier::external_body]
pub(crate) fn random_uuid() -> (text: String)
    ensures
        is_hyphenated_uuid(text@),
{
    uuid::Uuid::new_v4().to_string()
}

/// `text` with an underscore in place of each hyphen.
pub open spec fn underscored(text: Seq<char>) -> Seq<char> {
    text.map_values(
        |c: char|
            if c == '-' {
                '_'
            } else {
                c
            },
    )
}

/// The placeholder made from a token: the word `row` and the token with underscores
/// for hyphens, so that the placeholder is an identifier.
pub open spec fn placeholder_of(token: Seq<char>) -> Seq<char> {
    "row"@ + underscored(token)
}

/// The placeholder made from the second of two tokens. It is the placeholder of that
/// token, with one more underscore at its end where both tokens give the same
/// placeholder.
pub open spec fn second_placeholder_of(first: Seq<char>, second: Seq<char>) -> Seq<char> {
    if placeholder_of(first) == placeholder_of(second) {
        placeholder_of(second).push('_')
    } else {
        placeholder_of(second)
    }
}

/// Makes the placeholder for a token.
pub fn placeholder(token: &str) -> (name: String)
    ensures
        name@ == placeholder_of(token@),
{
    let mut name = "row".to_owned();
    let n = token.unicode_len();
    let mut i: usize = 0;
    assert(underscored(token@.subrange(0, 0)) =~= Seq::<char>::empty());
    assert(name@ =~= "row"@ + Seq::<char>::empty());
    while i < n
        invariant
            i <= n,
            n == token@.len(),
            name@ == "row"@ + underscored(token@.subrange(0, i as int)),
        decreases n - i,
    {
        let c = token.get_char(i);
        if c == '-' {
            name.push('_');
        } else {
            name.push(c);
        }
        proof {
            let done = token@.subrange(0, i as int);
            assert(token@.subrange(0, i + 1) =~= done.push(c));
            assert(underscored(done.push(c)) =~= underscored(done).push(name@.last()));
            assert(name@ =~= "row"@ + underscored(token@.subrange(0, i + 1)));
        }
        i += 1;
    }
    assert(token@.subrange(0, n as int) =~= token@);
    name
}

/// Makes the placeholders of the two rows that one transaction inserts, from two
/// tokens. The two placeholders differ, whatever the tokens are.
pub fn placeholders(first: &str, second: &str) -> (names: (String, String))
    ensures
        names.0@ == placeholder_of(first@),
        names.1@ == second_placeholder_of(first@, second@),
        names.0@ != names.1@,
{
    let one = placeholder(first);
    let mut two = placeholder(second);
    if one == two {
        two.push('_');
    }
    (one, two)
}

/// Whether one of `ports` has the name `name`.
pub open spec fn has_port_named(ports: Seq<OvsPortView>, name: Seq<char>) -> bool {
    exists|i: int| 0 <= i < ports.len() && (#[trigger] ports[i]).name == name
}

/// The position of the bridge named `name` among `bridges`: that of the last one where
/// several have the name, and `None` where none has it.
pub open spec fn bridge_named(bridges: Seq<OvsBridgeView>, name: Seq<char>) -> Option<int>
    decreases bridges.len(),
{
    if bridges.len() == 0 {
        None
    } else if bridges.last().name == name {
        Some(bridges.len() - 1)
    } else {
        bridge_named(bridges.drop_last(), name)
    }
}

/// The error for a port whose name is taken.
pub open spec fn port_exists_error(port_name: Seq<char>) -> OvsErrorView {
    error_with_detail(
        OvsErrorType::InconsistentInstruction,
        "Interface already exist in ovsdb. ("@ + port_name + ")"@,
        port_name,
    )
}

/// The error for a bridge that the database does not have.
pub open spec fn bridge_missing_error(bridge_name: Seq<char>) -> OvsErrorView {
    error_with_detail(
        OvsErrorType::InconsistentInstruction,
        "Bridge is not found. ("@ + bridge_name + ")"@,
        bridge_name,
    )
}

/// What the rules for adding a port say of an instruction, given the ports and bridges
/// that the database has: the position of the target bridge, or the error. A taken
/// port name is reported before the bridge is looked for.
pub open spec fn add_port_target(
    ports: Seq<OvsPortView>,
    bridges: Seq<OvsBridgeView>,
    bridge_name: Seq<char>,
    port_name: Seq<char>,
) -> Result<int, OvsErrorView> {
    if has_port_named(ports, port_name) {
        Err(port_exists_error(port_name))
    } else {
        match bridge_named(bridges, bridge_name) {
            Some(at) => Ok(at),
            None => Err(bridge_missing_error(bridge_name)),
        }
    }
}

/// Whether one of `ports` has the name `name`.
pub fn port_exists(ports: &Vec<OvsPort>, name: &str) -> (found: bool)
    ensures
        found == has_port_named(ports_view(ports@), name@),
{
    let wanted = name.to_owned();
    let mut i: usize = 0;
    while i < ports.len()
        invariant
            i <= ports.len(),
            wanted@ == name@,
            forall|k: int| 0 <= k < i ==> (#[trigger] ports_view(ports@)[k]).name != name@,
        decreases ports.len() - i,
    {
        if ports[i].name == wanted {
            assert(ports_view(ports@)[i as int].name == name@);
            return true;
        }
        i += 1;
    }
    false
}

/// Finds the bridge named `name`: the last one where several have the name.
pub fn find_bridge(bridges: &Vec<OvsBridge>, name: &str) -> (found: Option<usize>)
    ensures
        match found {
            Some(at) => bridge_named(bridges_view(bridges@), name@) == Some(at as int),
            None => bridge_named(bridges_view(bridges@), name@) is None,
        },
        found matches Some(at) ==> at < bridges.len() && bridges[at as int].name@ == name@,
{
    let wanted = name.to_owned();
    let mut found: Option<usize> = None;
    let mut i: usize = 0;
    assert(bridges_view(bridges@).subrange(0, 0).len() == 0);
    while i < bridges.len()
        invariant
            i <= bridges.len(),
            wanted@ == name@,
            match found {
                Some(at) => bridge_named(bridges_view(bridges@).subrange(0, i as int), name@)
                    == Some(at as int),
                None => bridge_named(bridges_view(bridges@).subrange(0, i as int), name@) is None,
            },
            found matches Some(at) ==> at < i && bridges[at as int].name@ == name@,
        decreases bridges.len() - i,
    {
        proof {
            let all = bridges_view(bridges@);
            let next = all.subrange(0, i + 1);
            assert(next.drop_last() =~= all.subrange(0, i as int));
            assert(next.last() == bridges@[i as int]@);
        }
        if bridges[i].name == wanted {
            found = Some(i);
        }
        i += 1;
    }
    assert(bridges_view(bridges@).subrange(0, i as int) =~= bridges_view(bridges@));
    found
}

/// Applies the rules for adding a port: no port may have the new name yet, and the
/// bridge must exist. Gives the position of the bridge among `bridges`.
pub fn check_add_port(
    ports: &Vec<OvsPort>,
    bridges: &Vec<OvsBridge>,
    bridge_name: &str,
    port_name: &str,
) -> (r: Result<usize, OvsError>)
    ensures
        match r {
            Ok(at) => add_port_target(
                ports_view(ports@),
                bridges_view(bridges@),
                bridge_name@,
                port_name@,
            ) == Ok::<int, OvsErrorView>(at as int) && at < bridges.len(),
            Err(e) => add_port_target(
                ports_view(ports@),
                bridges_view(bridges@),
                bridge_name@,
                port_name@,
            ) == Err::<int, OvsErrorView>(e@),
        },
{
    if port_exists(ports, port_name) {
        let mut message = "Interface already exist in ovsdb. (".to_owned();
        message.append(port_name);
        message.append(")");
        return Err(
            OvsError::new(OvsErrorType::InconsistentInstruction, message.as_str()).detail(
                port_name,
            ),
        );
    }
    match find_bridge(bridges, bridge_name) {
        Some(at) => Ok(at),
        None => {
            let mut message = "Bridge is not found. (".to_owned();
            message.append(bridge_name);
            message.append(")");
            Err(
                OvsError::new(OvsErrorType::InconsistentInstruction, message.as_str()).detail(
                    bridge_name,
                ),
            )
        },
    }
}


/// The request that asks the database `Open_vSwitch` to carry out `operations` as one
/// transaction, under the request number `id`.
pub open spec fn transact_request(operations: Seq<JsonValue>, id: int) -> JsonValue {
    JsonValue::Object(
        no_members().insert("method"@, JsonValue::String("transact"@)).insert(
            "params"@,
            JsonValue::Array(seq![JsonValue::String("Open_vSwitch"@)] + operations),
        ).insert("id"@, JsonValue::Integer(id)),
    )
}

/// The operation that inserts a row into `table` under the placeholder `placeholder`.
pub open spec fn insert_operation(
    table: Seq<char>,
    placeholder: Seq<char>,
    row: JsonValue,
) -> JsonValue {
    JsonValue::Object(
        no_members().insert("uuid-name"@, JsonValue::String(placeholder)).insert(
            "op"@,
            JsonValue::String("insert"@),
        ).insert("table"@, JsonValue::String(table)).insert("row"@, row),
    )
}

/// The row of the new interface: its name, and an empty type.
pub open spec fn interface_row(port_name: Seq<char>) -> JsonValue {
    JsonValue::Object(
        no_members().insert("name"@, JsonValue::String(port_name)).insert(
            "type"@,
            JsonValue::String(""@),
        ),
    )
}

/// The VLANs of a trunk, each as a bare number.
pub open spec fn encoded_vlans(vlans: Seq<u16>) -> Seq<JsonValue> {
    vlans.map_values(|vlan: u16| encoded_number(vlan as u64))
}

/// The row of the new port: its name, the reference to the new interface, and `tag`
/// for an access port or `trunks` for a trunk port.
pub open spec fn port_row(
    port_name: Seq<char>,
    interface_placeholder: Seq<char>,
    mode: OvsPortModeView,
) -> JsonValue {
    let common = no_members().insert("name"@, JsonValue::String(port_name)).insert(
        "interfaces"@,
        encoded_named_uuid(interface_placeholder),
    );
    match mode {
        OvsPortModeView::Access(vlan) => JsonValue::Object(
            common.insert("tag"@, encoded_number(vlan as u64)),
        ),
        OvsPortModeView::Trunk(vlans) => JsonValue::Object(
            common.insert("trunks"@, encoded_set(encoded_vlans(vlans))),
        ),
    }
}

/// The references that the bridge holds after the update: one to each port that it
/// has, in their order, and then the one to the new port.
pub open spec fn port_references(
    ports: Seq<OvsPortView>,
    port_placeholder: Seq<char>,
) -> Seq<JsonValue> {
    ports.map_values(|port: OvsPortView| encoded_uuid(port.uuid)).push(
        encoded_named_uuid(port_placeholder),
    )
}

/// The operation that sets the ports of the bridge with identity `bridge_uuid` to
/// `references`.
pub open spec fn bridge_update(bridge_uuid: Seq<char>, references: Seq<JsonValue>) -> JsonValue {
    JsonValue::Object(
        no_members().insert(
            "where"@,
            JsonValue::Array(
                seq![
                    JsonValue::Array(
                        seq![
                            JsonValue::String("_uuid"@),
                            JsonValue::String("=="@),
                            encoded_uuid(bridge_uuid),
                        ],
                    ),
                ],
            ),
        ).insert(
            "row"@,
            JsonValue::Object(no_members().insert("ports"@, encoded_set(references))),
        ).insert("op"@, JsonValue::String("update"@)).insert(
            "table"@,
            JsonValue::String("Bridge"@),
        ),
    )
}

/// The three operations that add the port `port_name` to `bridge`: the insertion of
/// the interface, the insertion of the port, the update of the bridge.
pub open spec fn add_port_operations(
    bridge: OvsBridgeView,
    port_name: Seq<char>,
    mode: OvsPortModeView,
    interface_placeholder: Seq<char>,
    port_placeholder: Seq<char>,
) -> Seq<JsonValue> {
    seq![
        insert_operation("Interface"@, interface_placeholder, interface_row(port_name)),
        insert_operation(
            "Port"@,
            port_placeholder,
            port_row(port_name, interface_placeholder, mode),
        ),
        bridge_update(bridge.uuid, port_references(bridge.ports, port_placeholder)),
    ]
}

/// The request that adds the port `port_name` to `bridge`.
pub open spec fn add_port_request(
    bridge: OvsBridgeView,
    port_name: Seq<char>,
    mode: OvsPortModeView,
    interface_placeholder: Seq<char>,
    port_placeholder: Seq<char>,
    id: int,
) -> JsonValue {
    transact_request(
        add_port_operations(bridge, port_name, mode, interface_placeholder, port_placeholder),
        id,
    )
}

/// Writes a string value.
pub fn text_value(text: &str) -> (value: serde_json::Value)
    ensures
        json_of(value) == JsonValue::String(text@),
{
    string_value(text.to_owned())
}

/// Writes the request for one transaction of `operations` under the number `id`.
pub fn write_transact_request(
    operations: Vec<serde_json::Value>,
    id: i32,
) -> (request: serde_json::Value)
    ensures
        json_of(request) == transact_request(items_of(operations@), id as int),
{
    let mut operations = operations;
    let ghost asked = operations@;
    let mut params: Vec<serde_json::Value> = Vec::new();
    params.push(text_value("Open_vSwitch"));
    params.append(&mut operations);
    assert(items_of(params@) =~= seq![JsonValue::String("Open_vSwitch"@)] + items_of(asked));
    let mut members = new_map();
    insert_member(&mut members, "method".to_owned(), text_value("transact"));
    insert_member(&mut members, "params".to_owned(), array_value(params));
    insert_member(&mut members, "id".to_owned(), integer_value(id as i64));
    object_value(members)
}

/// Writes the operation that inserts `row` into `table` under `placeholder`.
pub fn write_insert_operation(
    table: &str,
    placeholder: &str,
    row: serde_json::Value,
) -> (operation: serde_json::Value)
    ensures
        json_of(operation) == insert_operation(table@, placeholder@, json_of(row)),
{
    let mut members = new_map();
    insert_member(&mut members, "uuid-name".to_owned(), text_value(placeholder));
    insert_member(&mut members, "op".to_owned(), text_value("insert"));
    insert_member(&mut members, "table".to_owned(), text_value(table));
    insert_member(&mut members, "row".to_owned(), row);
    object_value(members)
}

/// Writes the row of the new interface.
pub fn write_interface_row(port_name: &str) -> (row: serde_json::Value)
    ensures
        json_of(row) == interface_row(port_name@),
{
    let mut members = new_map();
    insert_member(&mut members, "name".to_owned(), text_value(port_name));
    insert_member(&mut members, "type".to_owned(), text_value(""));
    object_value(members)
}

/// Writes the row of the new port.
pub fn write_port_row(
    port_name: &str,
    interface_placeholder: &str,
    mode: &OvsPortMode,
) -> (row: serde_json::Value)
    ensures
        json_of(row) == port_row(port_name@, interface_placeholder@, mode@),
{
    let mut members = new_map();
    insert_member(&mut members, "name".to_owned(), text_value(port_name));
    insert_member(&mut members, "interfaces".to_owned(), named_uuid_value(interface_placeholder));
    match mode {
        OvsPortMode::Access(vlan) => {
            insert_member(&mut members, "tag".to_owned(), number_value(*vlan));
        },
        OvsPortMode::Trunk(vlans) => {
            let mut numbers: Vec<serde_json::Value> = Vec::new();
            let mut i: usize = 0;
            while i < vlans.len()
                invariant
                    i <= vlans.len(),
                    items_of(numbers@) == encoded_vlans(vlans@.subrange(0, i as int)),
                decreases vlans.len() - i,
            {
                let ghost before = numbers@;
                let number = number_value(vlans[i]);
                numbers.push(number);
                proof {
                    let done = vlans@.subrange(0, i as int);
                    assert(items_of(numbers@) =~= items_of(before).push(json_of(number)));
                    assert(vlans@.subrange(0, i + 1) =~= done.push(vlans@[i as int]));
                    assert(encoded_vlans(done.push(vlans@[i as int])) =~= encoded_vlans(done).push(
                        encoded_number(vlans@[i as int] as u64),
                    ));
                }
                i += 1;
            }
            assert(vlans@.subrange(0, i as int) =~= vlans@);
            insert_member(&mut members, "trunks".to_owned(), set_value(numbers));
        },
    }
    object_value(members)
}

/// Writes the references that the bridge holds after the update.
pub fn write_port_references(
    ports: &Vec<OvsPort>,
    port_placeholder: &str,
) -> (references: Vec<serde_json::Value>)
    ensures
        items_of(references@) == port_references(ports_view(ports@), port_placeholder@),
{
    let mut references: Vec<serde_json::Value> = Vec::new();
    let mut i: usize = 0;
    while i < ports.len()
        invariant
            i <= ports.len(),
            items_of(references@) == ports_view(ports@).subrange(0, i as int).map_values(
                |port: OvsPortView| encoded_uuid(port.uuid),
            ),
        decreases ports.len() - i,
    {
        let ghost before = references@;
        let reference = uuid_value(ports[i].uuid.as_str());
        references.push(reference);
        proof {
            let done = ports_view(ports@).subrange(0, i as int);
            let port = ports_view(ports@)[i as int];
            assert(items_of(references@) =~= items_of(before).push(json_of(reference)));
            assert(ports_view(ports@).subrange(0, i + 1) =~= done.push(port));
            assert(done.push(port).map_values(|port: OvsPortView| encoded_uuid(port.uuid))
                =~= done.map_values(|port: OvsPortView| encoded_uuid(port.uuid)).push(
                encoded_uuid(port.uuid),
            ));
        }
        i += 1;
    }
    assert(ports_view(ports@).subrange(0, i as int) =~= ports_view(ports@));
    references.push(named_uuid_value(port_placeholder));
    assert(items_of(references@) =~= port_references(ports_view(ports@), port_placeholder@));
    references
}

/// Writes the operation that sets the ports of a bridge to `references`.
pub fn write_bridge_update(
    bridge_uuid: &str,
    references: Vec<serde_json::Value>,
) -> (operation: serde_json::Value)
    ensures
        json_of(operation) == bridge_update(bridge_uuid@, items_of(references@)),
{
    let mut condition: Vec<serde_json::Value> = Vec::new();
    condition.push(text_value("_uuid"));
    condition.push(text_value("=="));
    condition.push(uuid_value(bridge_uuid));
    assert(items_of(condition@) =~= seq![
        JsonValue::String("_uuid"@),
        JsonValue::String("=="@),
        encoded_uuid(bridge_uuid@),
    ]);
    let mut conditions: Vec<serde_json::Value> = Vec::new();
    conditions.push(array_value(condition));
    assert(items_of(conditions@) =~= seq![
        JsonValue::Array(
            seq![
                JsonValue::String("_uuid"@),
                JsonValue::String("=="@),
                encoded_uuid(bridge_uuid@),
            ],
        ),
    ]);
    let mut row = new_map();
    insert_member(&mut row, "ports".to_owned(), set_value(references));
    let mut members = new_map();
    insert_member(&mut members, "where".to_owned(), array_value(conditions));
    insert_member(&mut members, "row".to_owned(), object_value(row));
    insert_member(&mut members, "op".to_owned(), text_value("update"));
    insert_member(&mut members, "table".to_owned(), text_value("Bridge"));
    object_value(members)
}

/// Writes the request that adds the port `port_name` to `bridge`, with the given
/// placeholders for the two new rows and the request number `id`.
pub fn write_add_port_request(
    bridge: &OvsBridge,
    port_name: &str,
    mode: &OvsPortMode,
    interface_placeholder: &str,
    port_placeholder: &str,
    id: i32,
) -> (request: serde_json::Value)
    ensures
        json_of(request) == add_port_request(
            bridge@,
            port_name@,
            mode@,
            interface_placeholder@,
            port_placeholder@,
            id as int,
        ),
{
    let mut operations: Vec<serde_json::Value> = Vec::new();
    operations.push(
        write_insert_operation("Interface", interface_placeholder, write_interface_row(port_name)),
    );
    operations.push(
        write_insert_operation(
            "Port",
            port_placeholder,
            write_port_row(port_name, interface_placeholder, mode),
        ),
    );
    operations.push(
        write_bridge_update(
            bridge.uuid.as_str(),
            write_port_references(&bridge.ports, port_placeholder),
        ),
    );
    assert(items_of(operations@) =~= add_port_operations(
        bridge@,
        port_name@,
        mode@,
        interface_placeholder@,
        port_placeholder@,
    ));
    write_transact_request(operations, id)
}


/// The two placeholders of one transaction differ, whatever tokens they are made
/// from.
pub proof fn lemma_placeholders_differ(first: Seq<char>, second: Seq<char>)
    ensures
        placeholder_of(first) != second_placeholder_of(first, second),
{
    if placeholder_of(first) == placeholder_of(second) {
        assert(placeholder_of(second).push('_').len() == placeholder_of(second).len() + 1);
    }
}

/// A placeholder made from a UUID in its hyphenated form is an identifier: the word
/// `row` and 36 characters, each a digit of base 16 or an underscore. It is not itself
/// of the form of a UUID, so it is never the identity of a row.
pub proof fn lemma_placeholder_is_identifier(token: Seq<char>)
    requires
        is_hyphenated_uuid(token),
    ensures
        placeholder_of(token).len() == 39,
        !is_hyphenated_uuid(placeholder_of(token)),
        placeholder_of(token).subrange(0, 3) == "row"@,
        forall|i: int|
            3 <= i < 39 ==> is_lower_hex(#[trigger] placeholder_of(token)[i]) || placeholder_of(
                token,
            )[i] == '_',
{
    reveal_strlit("row");
    assert(placeholder_of(token).subrange(0, 3) =~= "row"@);
    assert forall|i: int| 3 <= i < 39 implies is_lower_hex(#[trigger] placeholder_of(token)[i])
        || placeholder_of(token)[i] == '_' by {
        let k = i - 3;
        assert(placeholder_of(token)[i] == underscored(token)[k]);
        if k == 8 || k == 13 || k == 18 || k == 23 {
            assert(token[k] == '-');
        } else {
            assert(is_lower_hex(token[k]));
        }
    }
}

/// The bridge that is found has the name, and is the last that has it; none is found
/// exactly where no bridge has the name.
pub proof fn lemma_bridge_named(bridges: Seq<OvsBridgeView>, name: Seq<char>)
    ensures
        match bridge_named(bridges, name) {
            Some(at) => 0 <= at < bridges.len() && bridges[at].name == name && forall|k: int|
                at < k < bridges.len() ==> (#[trigger] bridges[k]).name != name,
            None => forall|k: int| 0 <= k < bridges.len() ==> (#[trigger] bridges[k]).name != name,
        },
    decreases bridges.len(),
{
    if bridges.len() > 0 && bridges.last().name != name {
        let front = bridges.drop_last();
        lemma_bridge_named(front, name);
        match bridge_named(front, name) {
            Some(at) => {
                assert(front[at] == bridges[at]);
                assert forall|k: int| at < k < bridges.len() implies (#[trigger] bridges[k]).name
                    != name by {
                    if k < front.len() {
                        assert(front[k] == bridges[k]);
                    }
                }
            },
            None => {
                assert forall|k: int| 0 <= k < bridges.len() implies (#[trigger] bridges[k]).name
                    != name by {
                    if k < front.len() {
                        assert(front[k] == bridges[k]);
                    }
                }
            },
        }
    }
}

/// The rules for adding a port. A name that a port already has is refused, whatever
/// the bridge is. A bridge that the database does not have is refused. Each refusal is
/// an `InconsistentInstruction` whose detail is the offending name. Any other
/// instruction passes, for a bridge of the given name.
pub proof fn lemma_add_port_rules(
    ports: Seq<OvsPortView>,
    bridges: Seq<OvsBridgeView>,
    bridge_name: Seq<char>,
    port_name: Seq<char>,
)
    ensures
        has_port_named(ports, port_name) ==> add_port_target(
            ports,
            bridges,
            bridge_name,
            port_name,
        ) == Err::<int, OvsErrorView>(port_exists_error(port_name)),
        !has_port_named(ports, port_name) && (forall|k: int|
            0 <= k < bridges.len() ==> (#[trigger] bridges[k]).name != bridge_name)
            ==> add_port_target(ports, bridges, bridge_name, port_name) == Err::<
            int,
            OvsErrorView,
        >(bridge_missing_error(bridge_name)),
        add_port_target(ports, bridges, bridge_name, port_name) matches Err(e) ==> e.error_type
            == OvsErrorType::InconsistentInstruction,
        add_port_target(ports, bridges, bridge_name, port_name) matches Ok(at) ==> {
            &&& !has_port_named(ports, port_name)
            &&& 0 <= at < bridges.len()
            &&& bridges[at].name == bridge_name
        },
{
    lemma_bridge_named(bridges, bridge_name);
}

/// The references of the bridge after the update: those to the ports that it has,
/// in their order, and after all of them the one to the new port.
pub proof fn lemma_port_references(ports: Seq<OvsPortView>, port_placeholder: Seq<char>)
    ensures
        port_references(ports, port_placeholder).len() == ports.len() + 1,
        forall|i: int|
            0 <= i < ports.len() ==> #[trigger] port_references(ports, port_placeholder)[i]
                == encoded_uuid(ports[i].uuid),
        port_references(ports, port_placeholder).last() == encoded_named_uuid(port_placeholder),
{
}

/// The row of the new port names the port and refers to the new interface. It holds
/// `tag` and no `trunks` for an access port, and `trunks` and no `tag` for a trunk
/// port.
pub proof fn lemma_port_row(
    port_name: Seq<char>,
    interface_placeholder: Seq<char>,
    mode: OvsPortModeView,
)
    ensures
        port_row(port_name, interface_placeholder, mode).field("name"@) == JsonValue::String(
            port_name,
        ),
        port_row(port_name, interface_placeholder, mode).field("interfaces"@)
            == encoded_named_uuid(interface_placeholder),
        match mode {
            OvsPortModeView::Access(vlan) => {
                &&& port_row(port_name, interface_placeholder, mode).field("tag"@)
                    == encoded_number(vlan as u64)
                &&& !port_row(port_name, interface_placeholder, mode).has_field("trunks"@)
            },
            OvsPortModeView::Trunk(vlans) => {
                &&& port_row(port_name, interface_placeholder, mode).field("trunks"@)
                    == encoded_set(encoded_vlans(vlans))
                &&& !port_row(port_name, interface_placeholder, mode).has_field("tag"@)
            },
        },
{
    lemma_keys_differ();
}

/// The keys that the requests use are different texts.
pub proof fn lemma_keys_differ()
    ensures
        "name"@ != "interfaces"@,
        "name"@ != "tag"@,
        "name"@ != "trunks"@,
        "name"@ != "type"@,
        "interfaces"@ != "tag"@,
        "interfaces"@ != "trunks"@,
        "tag"@ != "trunks"@,
        "method"@ != "params"@,
        "method"@ != "id"@,
        "params"@ != "id"@,
        "uuid-name"@ != "op"@,
        "uuid-name"@ != "table"@,
        "uuid-name"@ != "row"@,
        "op"@ != "table"@,
        "op"@ != "row"@,
        "table"@ != "row"@,
        "where"@ != "row"@,
        "where"@ != "op"@,
        "where"@ != "table"@,
{
    reveal_strlit("name");
    reveal_strlit("interfaces");
    reveal_strlit("tag");
    reveal_strlit("trunks");
    reveal_strlit("type");
    reveal_strlit("method");
    reveal_strlit("params");
    reveal_strlit("id");
    reveal_strlit("uuid-name");
    reveal_strlit("op");
    reveal_strlit("table");
    reveal_strlit("row");
    reveal_strlit("where");
    assert("name"@[0] != "interfaces"@[0]);
    assert("name"@[0] != "tag"@[0]);
    assert("name"@[0] != "trunks"@[0]);
    assert("name"@[0] != "type"@[0]);
    assert("interfaces"@[0] != "tag"@[0]);
    assert("interfaces"@[0] != "trunks"@[0]);
    assert("tag"@[1] != "trunks"@[1]);
    assert("method"@[0] != "params"@[0]);
    assert("method"@[0] != "id"@[0]);
    assert("params"@[0] != "id"@[0]);
    assert("uuid-name"@[0] != "op"@[0]);
    assert("uuid-name"@[0] != "table"@[0]);
    assert("uuid-name"@[0] != "row"@[0]);
    assert("op"@[0] != "table"@[0]);
    assert("op"@[0] != "row"@[0]);
    assert("table"@[0] != "row"@[0]);
    assert("where"@[0] != "row"@[0]);
    assert("where"@[0] != "op"@[0]);
    assert("where"@[0] != "table"@[0]);
}

/// The shape of the request that adds a port: a `transact` on `Open_vSwitch` with
/// exactly three operations. The first inserts the interface under its placeholder.
/// The second inserts the port under its placeholder, with a row that refers to the
/// placeholder of the interface. The third updates the bridge whose identity is that
/// of the target, and sets its ports to the references of the ports that it has,
/// followed by the reference to the placeholder of the new port.
pub proof fn lemma_add_port_request(
    bridge: OvsBridgeView,
    port_name: Seq<char>,
    mode: OvsPortModeView,
    interface_placeholder: Seq<char>,
    port_placeholder: Seq<char>,
    id: int,
)
    ensures
        ({
            let request = add_port_request(
                bridge,
                port_name,
                mode,
                interface_placeholder,
                port_placeholder,
                id,
            );
            let params = request.field("params"@);
            &&& request.field("method"@) == JsonValue::String("transact"@)
            &&& request.field("id"@) == JsonValue::Integer(id)
            &&& params is Array
            &&& params->Array_0.len() == 4
            &&& params.item(0) == JsonValue::String("Open_vSwitch"@)
            &&& params.item(1).field("op"@) == JsonValue::String("insert"@)
            &&& params.item(1).field("table"@) == JsonValue::String("Interface"@)
            &&& params.item(1).field("uuid-name"@) == JsonValue::String(interface_placeholder)
            &&& params.item(1).field("row"@) == interface_row(port_name)
            &&& params.item(2).field("op"@) == JsonValue::String("insert"@)
            &&& params.item(2).field("table"@) == JsonValue::String("Port"@)
            &&& params.item(2).field("uuid-name"@) == JsonValue::String(port_placeholder)
            &&& params.item(2).field("row"@) == port_row(port_name, interface_placeholder, mode)
            &&& params.item(3).field("op"@) == JsonValue::String("update"@)
            &&& params.item(3).field("table"@) == JsonValue::String("Bridge"@)
            &&& params.item(3).field("where"@) == JsonValue::Array(
                seq![
                    JsonValue::Array(
                        seq![
                            JsonValue::String("_uuid"@),
                            JsonValue::String("=="@),
                            encoded_uuid(bridge.uuid),
                        ],
                    ),
                ],
            )
            &&& params.item(3).field("row"@).field("ports"@) == encoded_set(
                port_references(bridge.ports, port_placeholder),
            )
        }),
{
    lemma_keys_differ();
    let operations = add_port_operations(
        bridge,
        port_name,
        mode,
        interface_placeholder,
        port_placeholder,
    );
    let params = seq![JsonValue::String("Open_vSwitch"@)] + operations;
    assert(params.len() == 4);
    assert(params[0] == JsonValue::String("Open_vSwitch"@));
    assert(params[1] == operations[0]);
    assert(params[2] == operations[1]);
    assert(params[3] == operations[2]);
}


} // verus!
