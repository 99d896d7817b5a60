//! Reading the tables `Port` and `Bridge`.
//!
//! Each table is read with one `select` without conditions. The rows of the reply are
//! decoded into ports and bridges; a bridge refers to its ports by their identities,
//! which are resolved against the ports read before.

use crate::json::{array_value, as_array, as_object, as_str, as_u64, contains_key, get_field};
use crate::json::get_item;
use crate::json::{insert_member, items_of, json_of, new_map, no_members, object_value, JsonValue};
use crate::ovs_bridge::{bridges_view, OvsBridge, OvsBridgeView};
use crate::ovs_column::{column_error, decoded_number, decoded_set, encoded_number, encoded_set};
use crate::ovs_column::{lemma_decode_encoded, unwrap_value};
use crate::ovs_column::{decoded_text, decoded_uuid, number_column, set_column, text_column};
use crate::ovs_column::{unexpected_column, uuid_column};
use crate::ovs_error::{OvsError, OvsErrorView};
use crate::ovs_port::{ports_view, OvsPort, OvsPortMode, OvsPortModeView, OvsPortView};
use crate::ovs_transaction::{encoded_vlans, text_value, transact_request};
use crate::ovs_transaction::write_transact_request;
use vstd::prelude::*;

verus! {

/// The operation that selects every row of `table`.
pub open spec fn select_operation(table: Seq<char>) -> JsonValue {
    JsonValue::Object(
        no_members().insert("op"@, JsonValue::String("select"@)).insert(
            "table"@,
            JsonValue::String(table),
        ).insert("where"@, JsonValue::Array(Seq::empty())),
    )
}

/// The request that selects every row of `table`, under the request number `id`.
pub open spec fn select_request(table: Seq<char>, id: int) -> JsonValue {
    transact_request(seq![select_operation(table)], id)
}

/// Writes the request that selects every row of `table`.
pub fn write_select_request(table: &str, id: i32) -> (request: serde_json::Value)
    ensures
        json_of(request) == select_request(table@, id as int),
{
    let conditions: Vec<serde_json::Value> = Vec::new();
    assert(items_of(conditions@) =~= Seq::<JsonValue>::empty());
    let mut members = new_map();
    insert_member(&mut members, "op".to_owned(), text_value("select"));
    insert_member(&mut members, "table".to_owned(), text_value(table));
    insert_member(&mut members, "where".to_owned(), array_value(conditions));
    let mut operations: Vec<serde_json::Value> = Vec::new();
    operations.push(object_value(members));
    assert(items_of(operations@) =~= seq![select_operation(table@)]);
    write_transact_request(operations, id)
}

/// The rows that the reply to a `select` holds: the array `rows` of the first result.
pub open spec fn reply_rows(reply: JsonValue) -> Option<Seq<JsonValue>> {
    match reply.field("result"@).item(0).field("rows"@) {
        JsonValue::Array(rows) => Some(rows),
        _ => None,
    }
}

/// Reads the rows of the reply to a `select`.
pub fn read_rows<'a>(
    reply: &'a serde_json::Value,
) -> (r: Result<&'a Vec<serde_json::Value>, OvsError>)
    ensures
        match r {
            Ok(rows) => reply_rows(json_of(*reply)) == Some(items_of(rows@)),
            Err(e) => reply_rows(json_of(*reply)) is None && e@ == unexpected_column("rows"@),
        },
{
    match as_array(get_field(get_item(get_field(reply, "result"), 0), "rows")) {
        Some(rows) => Ok(rows),
        None => Err(column_error("rows")),
    }
}

/// The number as a VLAN: its low 16 bits.
pub open spec fn vlan_of(number: u64) -> u16 {
    (number % 0x10000) as u16
}

/// Makes a VLAN of a number.
pub fn to_vlan(number: u64) -> (vlan: u16)
    ensures
        vlan == vlan_of(number),
{
    (number % 0x10000) as u16
}

/// The VLANs that the column `trunks` of a row holds. A row without the column has
/// none; a column that is there must be a wrapped set of numbers.
pub open spec fn decoded_trunks(row: JsonValue) -> Option<Seq<u16>> {
    if !row.has_field("trunks"@) {
        Some(Seq::empty())
    } else {
        match decoded_set(row.field("trunks"@)) {
            Some(items) => if forall|i: int|
                0 <= i < items.len() ==> decoded_number(#[trigger] items[i]) is Some {
                Some(items.map_values(|item: JsonValue| vlan_of(decoded_number(item).unwrap())))
            } else {
                None
            },
            None => None,
        }
    }
}

/// The VLAN that the column `tag` of a row holds, where it holds a number.
pub open spec fn decoded_tag(row: JsonValue) -> Option<u16> {
    match decoded_number(row.field("tag"@)) {
        Some(number) => Some(vlan_of(number)),
        None => None,
    }
}

/// The mode of a port with the given trunks and tag: a trunk of the listed VLANs where
/// any are listed, else an access port of the tag where there is one, else a trunk of
/// every VLAN.
pub open spec fn decoded_mode(trunks: Seq<u16>, tag: Option<u16>) -> OvsPortModeView {
    if trunks.len() > 0 {
        OvsPortModeView::Trunk(trunks)
    } else {
        match tag {
            Some(vlan) => OvsPortModeView::Access(vlan),
            None => OvsPortModeView::Trunk(Seq::empty()),
        }
    }
}

/// The port that a row of the table `Port` stands for, or the error for the first of
/// `name`, `_uuid` and `trunks` that cannot be read.
pub open spec fn decoded_port(row: JsonValue) -> Result<OvsPortView, OvsErrorView> {
    match decoded_text(row.field("name"@)) {
        None => Err(unexpected_column("name"@)),
        Some(name) => match decoded_uuid(row.field("_uuid"@)) {
            None => Err(unexpected_column("_uuid"@)),
            Some(uuid) => match decoded_trunks(row) {
                None => Err(unexpected_column("trunks"@)),
                Some(trunks) => Ok(
                    OvsPortView { name, uuid, mode: decoded_mode(trunks, decoded_tag(row)) },
                ),
            },
        },
    }
}

/// The ports that rows of the table `Port` stand for, in the order of the rows, or the
/// error of the first row that cannot be read.
pub open spec fn decoded_ports(rows: Seq<JsonValue>) -> Result<Seq<OvsPortView>, OvsErrorView>
    decreases rows.len(),
{
    if rows.len() == 0 {
        Ok(Seq::empty())
    } else {
        match decoded_ports(rows.drop_last()) {
            Err(e) => Err(e),
            Ok(ports) => match decoded_port(rows.last()) {
                Err(e) => Err(e),
                Ok(port) => Ok(ports.push(port)),
            },
        }
    }
}

/// The ports that the reply to the `select` of the table `Port` holds.
pub open spec fn reply_ports(reply: JsonValue) -> Result<Seq<OvsPortView>, OvsErrorView> {
    match reply_rows(reply) {
        None => Err(unexpected_column("rows"@)),
        Some(rows) => decoded_ports(rows),
    }
}

/// Whether `row` is an object with a member under `column`.
pub fn has_column(row: &serde_json::Value, column: &str) -> (has: bool)
    ensures
        has == json_of(*row).has_field(column@),
{
    match as_object(row) {
        Some(members) => contains_key(members, column),
        None => false,
    }
}

/// Reads the column `trunks` of a row.
pub fn decode_trunks(row: &serde_json::Value) -> (r: Result<Vec<u16>, OvsError>)
    ensures
        match r {
            Ok(trunks) => decoded_trunks(json_of(*row)) == Some(trunks@),
            Err(e) => decoded_trunks(json_of(*row)) is None && e@ == unexpected_column(
                "trunks"@,
            ),
        },
{
    let mut trunks: Vec<u16> = Vec::new();
    if !has_column(row, "trunks") {
        return Ok(trunks);
    }
    let items = match set_column(row, "trunks") {
        Ok(items) => items,
        Err(e) => {
            return Err(e);
        },
    };
    let ghost documents = items_of(items@);
    let mut i: usize = 0;
    while i < items.len()
        invariant
            i <= items.len(),
            documents == items_of(items@),
            json_of(*row).has_field("trunks"@),
            decoded_set(json_of(*row).field("trunks"@)) == Some(documents),
            forall|k: int| 0 <= k < i ==> decoded_number(#[trigger] documents[k]) is Some,
            trunks@ == documents.subrange(0, i as int).map_values(
                |item: JsonValue| vlan_of(decoded_number(item).unwrap()),
            ),
        decreases items.len() - i,
    {
        assert(documents[i as int] == json_of(items@[i as int]));
        match as_u64(&items[i]) {
            Some(number) => {
                trunks.push(to_vlan(number));
                proof {
                    let done = documents.subrange(0, i as int);
                    assert(documents.subrange(0, i + 1) =~= done.push(documents[i as int]));
                    assert(trunks@ =~= documents.subrange(0, i + 1).map_values(
                        |item: JsonValue| vlan_of(decoded_number(item).unwrap()),
                    ));
                }
            },
            None => {
                assert(decoded_number(documents[i as int]) is None);
                return Err(column_error("trunks"));
            },
        }
        i += 1;
    }
    assert(documents.subrange(0, i as int) =~= documents);
    Ok(trunks)
}

/// Reads the column `tag` of a row.
pub fn decode_tag(row: &serde_json::Value) -> (tag: Option<u16>)
    ensures
        tag == decoded_tag(json_of(*row)),
{
    match number_column(row, "tag") {
        Some(number) => Some(to_vlan(number)),
        None => None,
    }
}

/// Decides the mode of a port from its trunks and its tag.
pub fn decode_mode(trunks: Vec<u16>, tag: Option<u16>) -> (mode: OvsPortMode)
    ensures
        mode@ == decoded_mode(trunks@, tag),
{
    if trunks.len() > 0 {
        OvsPortMode::Trunk(trunks)
    } else {
        match tag {
            Some(vlan) => OvsPortMode::Access(vlan),
            None => {
                assert(trunks@ =~= Seq::<u16>::empty());
                OvsPortMode::Trunk(trunks)
            },
        }
    }
}

/// Decodes a row of the table `Port`.
pub fn decode_port(row: &serde_json::Value) -> (r: Result<OvsPort, OvsError>)
    ensures
        match r {
            Ok(port) => decoded_port(json_of(*row)) == Ok::<OvsPortView, OvsErrorView>(port@),
            Err(e) => decoded_port(json_of(*row)) == Err::<OvsPortView, OvsErrorView>(e@),
        },
{
    let name = match text_column(row, "name") {
        Ok(name) => name,
        Err(e) => {
            return Err(e);
        },
    };
    let uuid = match uuid_column(row, "_uuid") {
        Ok(uuid) => uuid,
        Err(e) => {
            return Err(e);
        },
    };
    let trunks = match decode_trunks(row) {
        Ok(trunks) => trunks,
        Err(e) => {
            return Err(e);
        },
    };
    let mode = decode_mode(trunks, decode_tag(row));
    Ok(OvsPort { name, uuid, mode })
}

/// Decodes the reply to the `select` of the table `Port`.
pub fn decode_ports(reply: &serde_json::Value) -> (r: Result<Vec<OvsPort>, OvsError>)
    ensures
        match r {
            Ok(ports) => reply_ports(json_of(*reply)) == Ok::<Seq<OvsPortView>, OvsErrorView>(
                ports_view(ports@),
            ),
            Err(e) => reply_ports(json_of(*reply)) == Err::<Seq<OvsPortView>, OvsErrorView>(e@),
        },
{
    let rows = match read_rows(reply) {
        Ok(rows) => rows,
        Err(e) => {
            return Err(e);
        },
    };
    let ghost documents = items_of(rows@);
    let mut ports: Vec<OvsPort> = Vec::new();
    let mut i: usize = 0;
    assert(documents.subrange(0, 0) =~= Seq::<JsonValue>::empty());
    assert(ports_view(ports@) =~= Seq::<OvsPortView>::empty());
    while i < rows.len()
        invariant
            i <= rows.len(),
            documents == items_of(rows@),
            reply_rows(json_of(*reply)) == Some(documents),
            decoded_ports(documents.subrange(0, i as int)) == Ok::<
                Seq<OvsPortView>,
                OvsErrorView,
            >(ports_view(ports@)),
        decreases rows.len() - i,
    {
        proof {
            let next = documents.subrange(0, i + 1);
            assert(next.drop_last() =~= documents.subrange(0, i as int));
            assert(next.last() == json_of(rows@[i as int]));
        }
        let ghost before = ports@;
        match decode_port(&rows[i]) {
            Ok(port) => {
                ports.push(port);
                assert(ports_view(ports@) =~= ports_view(before).push(port@));
            },
            Err(e) => {
                proof {
                    lemma_decoded_ports_error(documents, i as int);
                }
                return Err(e);
            },
        }
        i += 1;
    }
    assert(documents.subrange(0, i as int) =~= documents);
    Ok(ports)
}

/// The error of the first row that cannot be read is the error of the whole: once a
/// prefix of the rows has an error, every longer sequence of rows has the same.
pub proof fn lemma_decoded_ports_error(rows: Seq<JsonValue>, at: int)
    requires
        0 <= at < rows.len(),
        decoded_ports(rows.subrange(0, at + 1)) is Err,
    ensures
        decoded_ports(rows) == decoded_ports(rows.subrange(0, at + 1)),
    decreases rows.len(),
{
    if at + 1 == rows.len() {
        assert(rows.subrange(0, at + 1) =~= rows);
    } else {
        assert(rows.drop_last().subrange(0, at + 1) =~= rows.subrange(0, at + 1));
        lemma_decoded_ports_error(rows.drop_last(), at);
    }
}

/// The first of `ports` with the identity `uuid`.
pub open spec fn port_with_uuid(ports: Seq<OvsPortView>, uuid: Seq<char>) -> Option<OvsPortView>
    decreases ports.len(),
{
    if ports.len() == 0 {
        None
    } else if ports.first().uuid == uuid {
        Some(ports.first())
    } else {
        port_with_uuid(ports.drop_first(), uuid)
    }
}

/// The port that a reference of a bridge stands for: the first of `ports` whose
/// identity the reference holds. A value that is no `uuid` reference, or one to a port
/// that is not among `ports`, stands for none.
pub open spec fn resolved_port(reference: JsonValue, ports: Seq<OvsPortView>) -> Option<
    OvsPortView,
> {
    match decoded_uuid(reference) {
        Some(uuid) => port_with_uuid(ports, uuid),
        None => None,
    }
}

/// The ports that references stand for, in the order of the references. A reference
/// that stands for no port is left out.
pub open spec fn resolved_ports(references: Seq<JsonValue>, ports: Seq<OvsPortView>) -> Seq<
    OvsPortView,
>
    decreases references.len(),
{
    if references.len() == 0 {
        Seq::empty()
    } else {
        let before = resolved_ports(references.drop_last(), ports);
        match resolved_port(references.last(), ports) {
            Some(port) => before.push(port),
            None => before,
        }
    }
}

/// The references that the column `ports` of a row holds: the elements of a wrapped
/// set, and none where the column is missing or holds anything else.
pub open spec fn bridge_references(row: JsonValue) -> Seq<JsonValue> {
    match decoded_set(row.field("ports"@)) {
        Some(references) => references,
        None => Seq::empty(),
    }
}

/// The bridge that a row of the table `Bridge` stands for, with its ports resolved
/// against `ports`, or the error for the first of `name` and `_uuid` that cannot be
/// read.
pub open spec fn decoded_bridge(row: JsonValue, ports: Seq<OvsPortView>) -> Result<
    OvsBridgeView,
    OvsErrorView,
> {
    match decoded_text(row.field("name"@)) {
        None => Err(unexpected_column("name"@)),
        Some(name) => match decoded_uuid(row.field("_uuid"@)) {
            None => Err(unexpected_column("_uuid"@)),
            Some(uuid) => Ok(
                OvsBridgeView { name, uuid, ports: resolved_ports(bridge_references(row), ports) },
            ),
        },
    }
}

/// The bridges that rows of the table `Bridge` stand for, in the order of the rows, or
/// the error of the first row that cannot be read.
pub open spec fn decoded_bridges(rows: Seq<JsonValue>, ports: Seq<OvsPortView>) -> Result<
    Seq<OvsBridgeView>,
    OvsErrorView,
>
    decreases rows.len(),
{
    if rows.len() == 0 {
        Ok(Seq::empty())
    } else {
        match decoded_bridges(rows.drop_last(), ports) {
            Err(e) => Err(e),
            Ok(bridges) => match decoded_bridge(rows.last(), ports) {
                Err(e) => Err(e),
                Ok(bridge) => Ok(bridges.push(bridge)),
            },
        }
    }
}

/// The bridges that the reply to the `select` of the table `Bridge` holds, with their
/// ports resolved against `ports`.
pub open spec fn reply_bridges(reply: JsonValue, ports: Seq<OvsPortView>) -> Result<
    Seq<OvsBridgeView>,
    OvsErrorView,
> {
    match reply_rows(reply) {
        None => Err(unexpected_column("rows"@)),
        Some(rows) => decoded_bridges(rows, ports),
    }
}

/// Finds the first of `ports` with the identity `uuid`.
pub fn find_port(ports: &Vec<OvsPort>, uuid: &str) -> (found: Option<usize>)
    ensures
        match found {
            Some(at) => at < ports.len() && port_with_uuid(ports_view(ports@), uuid@) == Some(
                ports@[at as int]@,
            ),
            None => port_with_uuid(ports_view(ports@), uuid@) is None,
        },
{
    let wanted = uuid.to_owned();
    let ghost all = ports_view(ports@);
    let mut i: usize = 0;
    assert(all.subrange(0, all.len() as int) =~= all);
    while i < ports.len()
        invariant
            i <= ports.len(),
            wanted@ == uuid@,
            all == ports_view(ports@),
            port_with_uuid(all, uuid@) == port_with_uuid(
                all.subrange(i as int, all.len() as int),
                uuid@,
            ),
        decreases ports.len() - i,
    {
        proof {
            let rest = all.subrange(i as int, all.len() as int);
            assert(rest.first() == ports@[i as int]@);
            assert(rest.drop_first() =~= all.subrange(i + 1, all.len() as int));
        }
        if ports[i].uuid == wanted {
            return Some(i);
        }
        i += 1;
    }
    None
}

/// Resolves the references of a bridge against `ports`.
pub fn resolve_ports(
    references: &Vec<serde_json::Value>,
    ports: &Vec<OvsPort>,
) -> (resolved: Vec<OvsPort>)
    ensures
        ports_view(resolved@) == resolved_ports(items_of(references@), ports_view(ports@)),
{
    let ghost documents = items_of(references@);
    let mut resolved: Vec<OvsPort> = Vec::new();
    let mut i: usize = 0;
    assert(documents.subrange(0, 0) =~= Seq::<JsonValue>::empty());
    assert(ports_view(resolved@) =~= Seq::<OvsPortView>::empty());
    while i < references.len()
        invariant
            i <= references.len(),
            documents == items_of(references@),
            ports_view(resolved@) == resolved_ports(
                documents.subrange(0, i as int),
                ports_view(ports@),
            ),
        decreases references.len() - i,
    {
        proof {
            let next = documents.subrange(0, i + 1);
            assert(next.drop_last() =~= documents.subrange(0, i as int));
            assert(next.last() == json_of(references@[i as int]));
        }
        let ghost before = resolved@;
        match unwrap_value("uuid", &references[i]) {
            Some(inner) => match as_str(inner) {
                Some(uuid) => match find_port(ports, uuid) {
                    Some(at) => {
                        let port = ports[at].clone();
                        resolved.push(port);
                        assert(ports_view(resolved@) =~= ports_view(before).push(port@));
                    },
                    None => {},
                },
                None => {},
            },
            None => {},
        }
        i += 1;
    }
    assert(documents.subrange(0, i as int) =~= documents);
    resolved
}

/// Decodes a row of the table `Bridge` and resolves its ports against `ports`.
pub fn decode_bridge(
    row: &serde_json::Value,
    ports: &Vec<OvsPort>,
) -> (r: Result<OvsBridge, OvsError>)
    ensures
        match r {
            Ok(bridge) => decoded_bridge(json_of(*row), ports_view(ports@)) == Ok::<
                OvsBridgeView,
                OvsErrorView,
            >(bridge@),
            Err(e) => decoded_bridge(json_of(*row), ports_view(ports@)) == Err::<
                OvsBridgeView,
                OvsErrorView,
            >(e@),
        },
{
    let name = match text_column(row, "name") {
        Ok(name) => name,
        Err(e) => {
            return Err(e);
        },
    };
    let uuid = match uuid_column(row, "_uuid") {
        Ok(uuid) => uuid,
        Err(e) => {
            return Err(e);
        },
    };
    let resolved = match set_column(row, "ports") {
        Ok(references) => resolve_ports(references, ports),
        Err(_) => {
            let none: Vec<OvsPort> = Vec::new();
            assert(ports_view(none@) =~= Seq::<OvsPortView>::empty());
            none
        },
    };
    Ok(OvsBridge { name, uuid, ports: resolved })
}

/// Decodes the reply to the `select` of the table `Bridge` and resolves the ports of
/// each bridge against `ports`.
pub fn decode_bridges(
    reply: &serde_json::Value,
    ports: &Vec<OvsPort>,
) -> (r: Result<Vec<OvsBridge>, OvsError>)
    ensures
        match r {
            Ok(bridges) => reply_bridges(json_of(*reply), ports_view(ports@)) == Ok::<
                Seq<OvsBridgeView>,
                OvsErrorView,
            >(bridges_view(bridges@)),
            Err(e) => reply_bridges(json_of(*reply), ports_view(ports@)) == Err::<
                Seq<OvsBridgeView>,
                OvsErrorView,
            >(e@),
        },
{
    let rows = match read_rows(reply) {
        Ok(rows) => rows,
        Err(e) => {
            return Err(e);
        },
    };
    let ghost documents = items_of(rows@);
    let mut bridges: Vec<OvsBridge> = Vec::new();
    let mut i: usize = 0;
    assert(documents.subrange(0, 0) =~= Seq::<JsonValue>::empty());
    assert(bridges_view(bridges@) =~= Seq::<OvsBridgeView>::empty());
    while i < rows.len()
        invariant
            i <= rows.len(),
            documents == items_of(rows@),
            reply_rows(json_of(*reply)) == Some(documents),
            decoded_bridges(documents.subrange(0, i as int), ports_view(ports@)) == Ok::<
                Seq<OvsBridgeView>,
                OvsErrorView,
            >(bridges_view(bridges@)),
        decreases rows.len() - i,
    {
        proof {
            let next = documents.subrange(0, i + 1);
            assert(next.drop_last() =~= documents.subrange(0, i as int));
            assert(next.last() == json_of(rows@[i as int]));
        }
        let ghost before = bridges@;
        match decode_bridge(&rows[i], ports) {
            Ok(bridge) => {
                bridges.push(bridge);
                assert(bridges_view(bridges@) =~= bridges_view(before).push(bridge@));
            },
            Err(e) => {
                proof {
                    lemma_decoded_bridges_error(documents, ports_view(ports@), i as int);
                }
                return Err(e);
            },
        }
        i += 1;
    }
    assert(documents.subrange(0, i as int) =~= documents);
    Ok(bridges)
}

/// The error of the first row that cannot be read is the error of the whole: once a
/// prefix of the rows has an error, every longer sequence of rows has the same.
pub proof fn lemma_decoded_bridges_error(rows: Seq<JsonValue>, ports: Seq<OvsPortView>, at: int)
    requires
        0 <= at < rows.len(),
        decoded_bridges(rows.subrange(0, at + 1), ports) is Err,
    ensures
        decoded_bridges(rows, ports) == decoded_bridges(rows.subrange(0, at + 1), ports),
    decreases rows.len(),
{
    if at + 1 == rows.len() {
        assert(rows.subrange(0, at + 1) =~= rows);
    } else {
        assert(rows.drop_last().subrange(0, at + 1) =~= rows.subrange(0, at + 1));
        lemma_decoded_bridges_error(rows.drop_last(), ports, at);
    }
}


/// The mode of a port is decided in three steps, and by the first that applies:
/// trunks that are listed make a trunk, whatever the tag; without them a tag makes an
/// access port; without either the port is a trunk of every VLAN. Every row is given
/// exactly one mode.
pub proof fn lemma_mode_policy(trunks: Seq<u16>, tag: Option<u16>)
    ensures
        trunks.len() > 0 ==> decoded_mode(trunks, tag) == OvsPortModeView::Trunk(trunks),
        trunks.len() == 0 && tag is Some ==> decoded_mode(trunks, tag) == OvsPortModeView::Access(
            tag.unwrap(),
        ),
        trunks.len() == 0 && tag is None ==> decoded_mode(trunks, tag) == OvsPortModeView::Trunk(
            Seq::empty(),
        ),
        decoded_mode(trunks, tag) is Access <==> !(decoded_mode(trunks, tag) is Trunk),
{
}

/// A VLAN that is written as a number reads back as itself.
pub proof fn lemma_vlan_of_number(vlan: u16)
    ensures
        decoded_number(encoded_number(vlan as u64)) == Some(vlan as u64),
        vlan_of(vlan as u64) == vlan,
{
}

/// A row whose column `trunks` is a wrapped set of the VLANs `vlans`, written as
/// numbers, has these trunks. Where the set is not empty the port is a trunk of them,
/// whatever its column `tag` holds.
pub proof fn lemma_trunks_before_tag(row: JsonValue, vlans: Seq<u16>)
    requires
        row.has_field("trunks"@),
        row.field("trunks"@) == encoded_set(
            encoded_vlans(vlans),
        ),
    ensures
        decoded_trunks(row) == Some(vlans),
        vlans.len() > 0 ==> decoded_mode(vlans, decoded_tag(row)) == OvsPortModeView::Trunk(vlans),
        vlans.len() > 0 ==> (decoded_port(row) matches Ok(port) ==> port.mode
            == OvsPortModeView::Trunk(vlans)),
{
    let items = encoded_vlans(vlans);
    lemma_decode_encoded(Seq::empty(), items, Seq::empty(), 0);
    assert forall|i: int| 0 <= i < items.len() implies decoded_number(#[trigger] items[i])
        is Some by {
        lemma_vlan_of_number(vlans[i]);
    }
    let read = items.map_values(|item: JsonValue| vlan_of(decoded_number(item).unwrap()));
    assert forall|i: int| 0 <= i < vlans.len() implies read[i] == vlans[i] by {
        lemma_vlan_of_number(vlans[i]);
    }
    assert(read =~= vlans);
}

/// The first port with an identity is one of the ports and has that identity; there
/// is none exactly where no port has the identity.
pub proof fn lemma_port_with_uuid(ports: Seq<OvsPortView>, uuid: Seq<char>)
    ensures
        match port_with_uuid(ports, uuid) {
            Some(port) => port.uuid == uuid && ports.contains(port),
            None => forall|i: int| 0 <= i < ports.len() ==> (#[trigger] ports[i]).uuid != uuid,
        },
    decreases ports.len(),
{
    if ports.len() > 0 {
        if ports.first().uuid == uuid {
            assert(ports[0] == ports.first());
        } else {
            let rest = ports.drop_first();
            lemma_port_with_uuid(rest, uuid);
            match port_with_uuid(rest, uuid) {
                Some(port) => {
                    let k = choose|k: int| 0 <= k < rest.len() && rest[k] == port;
                    assert(ports[k + 1] == port);
                },
                None => {
                    assert forall|i: int| 0 <= i < ports.len() implies (#[trigger] ports[i]).uuid
                        != uuid by {
                        if i > 0 {
                            assert(ports[i] == rest[i - 1]);
                        }
                    }
                },
            }
        }
    }
}

/// Resolving references one after the other is the same as resolving them together:
/// the ports of a bridge keep the order of its references, and a reference that stands
/// for no port leaves no trace.
pub proof fn lemma_resolved_ports_concat(
    front: Seq<JsonValue>,
    back: Seq<JsonValue>,
    ports: Seq<OvsPortView>,
)
    ensures
        resolved_ports(front + back, ports) == resolved_ports(front, ports) + resolved_ports(
            back,
            ports,
        ),
    decreases back.len(),
{
    if back.len() == 0 {
        assert(front + back =~= front);
        assert(resolved_ports(front, ports) + resolved_ports(back, ports) =~= resolved_ports(
            front,
            ports,
        ));
    } else {
        lemma_resolved_ports_concat(front, back.drop_last(), ports);
        assert((front + back).drop_last() =~= front + back.drop_last());
        assert((front + back).last() == back.last());
        let before = resolved_ports(front, ports) + resolved_ports(back.drop_last(), ports);
        match resolved_port(back.last(), ports) {
            Some(port) => {
                assert(before.push(port) =~= resolved_ports(front, ports) + resolved_ports(
                    back.drop_last(),
                    ports,
                ).push(port));
            },
            None => {},
        }
    }
}

/// A bridge never has more ports than references.
pub proof fn lemma_resolved_ports_len(references: Seq<JsonValue>, ports: Seq<OvsPortView>)
    ensures
        resolved_ports(references, ports).len() <= references.len(),
    decreases references.len(),
{
    if references.len() > 0 {
        lemma_resolved_ports_len(references.drop_last(), ports);
    }
}

/// Where every reference stands for a port, the bridge has as many ports as
/// references, and its port at each place is the one that the reference at that place
/// stands for.
pub proof fn lemma_resolved_ports_all(references: Seq<JsonValue>, ports: Seq<OvsPortView>)
    requires
        forall|i: int|
            0 <= i < references.len() ==> resolved_port(#[trigger] references[i], ports) is Some,
    ensures
        resolved_ports(references, ports).len() == references.len(),
        forall|i: int|
            0 <= i < references.len() ==> #[trigger] resolved_ports(references, ports)[i]
                == resolved_port(references[i], ports).unwrap(),
    decreases references.len(),
{
    if references.len() > 0 {
        let front = references.drop_last();
        assert forall|i: int| 0 <= i < front.len() implies resolved_port(
            #[trigger] front[i],
            ports,
        ) is Some by {
            assert(front[i] == references[i]);
        }
        lemma_resolved_ports_all(front, ports);
        assert forall|i: int| 0 <= i < references.len() implies #[trigger] resolved_ports(
            references,
            ports,
        )[i] == resolved_port(references[i], ports).unwrap() by {
            if i < front.len() {
                assert(front[i] == references[i]);
                assert(resolved_ports(references, ports)[i] == resolved_ports(front, ports)[i]);
            }
        }
    }
}

/// A reference stands for a port exactly where it is a `uuid` reference to the
/// identity of one of the ports, and then for a port with that identity.
pub proof fn lemma_resolved_port(reference: JsonValue, ports: Seq<OvsPortView>)
    ensures
        match resolved_port(reference, ports) {
            Some(port) => decoded_uuid(reference) == Some(port.uuid) && ports.contains(port),
            None => decoded_uuid(reference) matches Some(uuid) ==> forall|i: int|
                0 <= i < ports.len() ==> (#[trigger] ports[i]).uuid != uuid,
        },
{
    match decoded_uuid(reference) {
        Some(uuid) => {
            lemma_port_with_uuid(ports, uuid);
        },
        None => {},
    }
}


} // verus!
