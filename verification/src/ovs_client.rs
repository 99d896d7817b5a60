//! The client: what it sends, and what it makes of what comes back.
//!
//! The client holds no connection. An exchange with the database (connect, write one
//! request, read the reply to its end, close) is the caller's part; the client gives
//! the text to write and takes what came of the exchange.

use crate::json::{as_object, contains_key, get_field, get_item, json_of, parse_text};
use crate::json::{parsed_text, print_text, printed_text, JsonValue};
use crate::ovs_bridge::{bridges_view, OvsBridge, OvsBridgeView};
use crate::ovs_error::{error_of, error_with_detail, OvsError, OvsErrorType, OvsErrorView};
use crate::ovs_port::{ports_view, OvsPort, OvsPortMode, OvsPortModeView, OvsPortView};
use crate::ovs_query::{decode_bridges, decode_ports, reply_bridges, reply_ports};
use crate::ovs_query::{select_request, write_select_request};
use crate::ovs_transaction::{add_port_request, add_port_target, check_add_port};
use crate::ovs_transaction::{has_port_named, lemma_add_port_rules};
use crate::ovs_transaction::{is_hyphenated_uuid, placeholder_of, placeholders, random_uuid};
use crate::ovs_transaction::{second_placeholder_of, write_add_port_request};
use crate::text::{push_decimal, signed_decimal};
use vstd::prelude::*;
use vstd::utf8::{decode_utf8, valid_utf8};

verus! {

#[verifier::external_type_specification]
#[verifier::external_body]
pub struct ExFromUtf8Error(std::string::FromUtf8Error);

/// `String::from_utf8`: the text that bytes encode in UTF-8. Trusted: the call
/// succeeds on the bytes that are valid UTF-8, and gives the text that they encode.
#[verifier::external_body]
pub(crate) fn u8v_to_string(v: Vec<u8>) -> (r: Result<String, std::string::FromUtf8Error>)
    ensures
        r is Ok <==> valid_utf8(v@),
        r matches Ok(text) ==> text@ == decode_utf8(v@),
{
    String::from_utf8(v)
}

/// What came of one exchange with the database.
#[derive(Debug)]
pub enum OvsExchange {
    /// No connection could be made; the text says why.
    ConnectFailed(String),
    /// The request could not be written; the text says why.
    SendFailed(String),
    /// The reply could not be read; the text says why.
    ReadFailed(String),
    /// The bytes that were read until the database closed the connection.
    Received(Vec<u8>),
}

/// The outcome of an exchange as a mathematical value.
pub enum OvsExchangeView {
    ConnectFailed(Seq<char>),
    SendFailed(Seq<char>),
    ReadFailed(Seq<char>),
    Received(Seq<u8>),
}

impl View for OvsExchange {
    type V = OvsExchangeView;

    open spec fn view(&self) -> OvsExchangeView {
        match self {
            OvsExchange::ConnectFailed(why) => OvsExchangeView::ConnectFailed(why@),
            OvsExchange::SendFailed(why) => OvsExchangeView::SendFailed(why@),
            OvsExchange::ReadFailed(why) => OvsExchangeView::ReadFailed(why@),
            OvsExchange::Received(bytes) => OvsExchangeView::Received(bytes@),
        }
    }
}

/// The address of the database: host and port with a colon between them.
pub open spec fn target_of(host: Seq<char>, port: int) -> Seq<char> {
    host + seq![':'] + signed_decimal(port)
}

/// The error for a reply that is no JSON text.
pub open spec fn unparsable_reply() -> OvsErrorView {
    error_of(OvsErrorType::InvalidResponseJson, "Faild to parse response data"@)
}

/// The error for a reply whose first result is no object.
pub open spec fn malformed_reply() -> OvsErrorView {
    error_of(OvsErrorType::InvalidResponse, "Faild to parse response data"@)
}

/// The error for a reply in which the database reports an error. Its detail is the
/// first result of the reply, printed as it is.
pub open spec fn refused_reply(first_result: JsonValue) -> OvsErrorView {
    error_with_detail(
        OvsErrorType::QueryError,
        "Client received error response. Please check detail."@,
        printed_text(first_result),
    )
}

/// What a reply document is taken for: the first element of its `result` must be an
/// object, and an object with a member `error` is the database's refusal. Any other
/// reply is handed on as it is.
pub open spec fn checked_reply(reply: JsonValue) -> Result<JsonValue, OvsErrorView> {
    let first = reply.field("result"@).item(0);
    match first {
        JsonValue::Object(members) => if members.contains_key("error"@) {
            Err(refused_reply(first))
        } else {
            Ok(reply)
        },
        _ => Err(malformed_reply()),
    }
}

/// What the bytes of a reply are taken for: they must be UTF-8 and JSON text, and the
/// document must pass as a reply.
pub open spec fn read_reply(bytes: Seq<u8>) -> Result<JsonValue, OvsErrorView> {
    if !valid_utf8(bytes) {
        Err(unparsable_reply())
    } else {
        match parsed_text(decode_utf8(bytes)) {
            None => Err(unparsable_reply()),
            Some(reply) => checked_reply(reply),
        }
    }
}

/// What the outcome of an exchange with the database at `target` is taken for: a
/// failure of the connection is a `ConnectionError` with the reason as its detail, and
/// bytes that were received are read as a reply.
pub open spec fn received(target: Seq<char>, exchange: OvsExchangeView) -> Result<
    JsonValue,
    OvsErrorView,
> {
    match exchange {
        OvsExchangeView::ConnectFailed(why) => Err(
            error_with_detail(
                OvsErrorType::ConnectionError,
                "failed to connect ovs ("@ + target + ")"@,
                why,
            ),
        ),
        OvsExchangeView::SendFailed(why) => Err(
            error_with_detail(OvsErrorType::ConnectionError, "Faild to send request data"@, why),
        ),
        OvsExchangeView::ReadFailed(why) => Err(
            error_with_detail(
                OvsErrorType::ConnectionError,
                "Failed to read response data"@,
                why,
            ),
        ),
        OvsExchangeView::Received(bytes) => read_reply(bytes),
    }
}

/// Checks a reply document: the part of reading a reply that follows the parsing.
pub fn check_response(reply: serde_json::Value) -> (r: Result<serde_json::Value, OvsError>)
    ensures
        match r {
            Ok(checked) => checked == reply && checked_reply(json_of(reply)) == Ok::<
                JsonValue,
                OvsErrorView,
            >(json_of(reply)),
            Err(e) => checked_reply(json_of(reply)) == Err::<JsonValue, OvsErrorView>(e@),
        },
{
    let first = get_item(get_field(&reply, "result"), 0);
    match as_object(first) {
        None => {
            return Err(OvsError::new(OvsErrorType::InvalidResponse, "Faild to parse response data"));
        },
        Some(members) => {
            if contains_key(members, "error") {
                let detail = print_text(first);
                return Err(
                    OvsError::new(
                        OvsErrorType::QueryError,
                        "Client received error response. Please check detail.",
                    ).detail(detail.as_str()),
                );
            }
        },
    }
    Ok(reply)
}

/// Reads the bytes of a reply.
pub fn read_response(bytes: Vec<u8>) -> (r: Result<serde_json::Value, OvsError>)
    ensures
        match r {
            Ok(reply) => read_reply(bytes@) == Ok::<JsonValue, OvsErrorView>(json_of(reply)),
            Err(e) => read_reply(bytes@) == Err::<JsonValue, OvsErrorView>(e@),
        },
{
    let text = match u8v_to_string(bytes) {
        Ok(text) => text,
        Err(_) => {
            return Err(
                OvsError::new(OvsErrorType::InvalidResponseJson, "Faild to parse response data"),
            );
        },
    };
    match parse_text(text.as_str()) {
        Ok(reply) => check_response(reply),
        Err(_) => Err(
            OvsError::new(OvsErrorType::InvalidResponseJson, "Faild to parse response data"),
        ),
    }
}

/// The instruction to add a port to a bridge.
#[derive(Debug)]
pub struct OvsAddPort {
    pub bridge_name: String,
    pub port_name: String,
    pub port_mode: OvsPortMode,
}

/// The instruction to add a port as a mathematical value.
pub struct OvsAddPortView {
    pub bridge_name: Seq<char>,
    pub port_name: Seq<char>,
    pub port_mode: OvsPortModeView,
}

impl View for OvsAddPort {
    type V = OvsAddPortView;

    open spec fn view(&self) -> OvsAddPortView {
        OvsAddPortView {
            bridge_name: self.bridge_name@,
            port_name: self.port_name@,
            port_mode: self.port_mode@,
        }
    }
}

/// An operation of the client that is under way: what it has learnt so far, and which
/// reply it waits for.
#[derive(Debug)]
pub enum OvsCall {
    /// Reading the ports: the rows of the table `Port` are awaited.
    Ports,
    /// Reading the bridges: the rows of the table `Bridge` are awaited.
    Bridges,
    /// Reading the bridges: their rows are here, the rows of the table `Port` are
    /// awaited.
    BridgePorts { rows: serde_json::Value },
    /// Adding a port: the rows of the table `Port` are awaited.
    AddPortPorts { add: OvsAddPort },
    /// Adding a port: the ports are known, the rows of the table `Bridge` are awaited.
    AddPortBridges { add: OvsAddPort, ports: Vec<OvsPort> },
    /// Adding a port: the rows of the bridges are here, and the rows of the table
    /// `Port` are awaited once more, to resolve the ports of the bridges.
    AddPortBridgePorts { add: OvsAddPort, ports: Vec<OvsPort>, rows: serde_json::Value },
    /// Adding a port: the transaction is out, its reply is awaited.
    AddPortCommit,
}

/// An operation under way as a mathematical value.
pub enum OvsCallView {
    Ports,
    Bridges,
    BridgePorts { rows: JsonValue },
    AddPortPorts { add: OvsAddPortView },
    AddPortBridges { add: OvsAddPortView, ports: Seq<OvsPortView> },
    AddPortBridgePorts { add: OvsAddPortView, ports: Seq<OvsPortView>, rows: JsonValue },
    AddPortCommit,
}

impl View for OvsCall {
    type V = OvsCallView;

    open spec fn view(&self) -> OvsCallView {
        match self {
            OvsCall::Ports => OvsCallView::Ports,
            OvsCall::Bridges => OvsCallView::Bridges,
            OvsCall::BridgePorts { rows } => OvsCallView::BridgePorts { rows: json_of(*rows) },
            OvsCall::AddPortPorts { add } => OvsCallView::AddPortPorts { add: add@ },
            OvsCall::AddPortBridges { add, ports } => OvsCallView::AddPortBridges {
                add: add@,
                ports: ports_view(ports@),
            },
            OvsCall::AddPortBridgePorts { add, ports, rows } => OvsCallView::AddPortBridgePorts {
                add: add@,
                ports: ports_view(ports@),
                rows: json_of(*rows),
            },
            OvsCall::AddPortCommit => OvsCallView::AddPortCommit,
        }
    }
}

/// What an operation of the client gives when it ends well.
#[derive(Debug)]
pub enum OvsReply {
    /// The ports of the switch.
    Ports(Vec<OvsPort>),
    /// The bridges of the switch.
    Bridges(Vec<OvsBridge>),
    /// The reply of the database to the transaction that added a port.
    Added(serde_json::Value),
}

/// The result of an operation as a mathematical value.
pub enum OvsReplyView {
    Ports(Seq<OvsPortView>),
    Bridges(Seq<OvsBridgeView>),
    Added(JsonValue),
}

impl View for OvsReply {
    type V = OvsReplyView;

    open spec fn view(&self) -> OvsReplyView {
        match self {
            OvsReply::Ports(ports) => OvsReplyView::Ports(ports_view(ports@)),
            OvsReply::Bridges(bridges) => OvsReplyView::Bridges(bridges_view(bridges@)),
            OvsReply::Added(reply) => OvsReplyView::Added(json_of(*reply)),
        }
    }
}

/// What the caller is to do next for an operation.
#[derive(Debug)]
pub enum OvsAction {
    /// Make one exchange with the database: write the text, read the reply, and hand
    /// what came of it to `resume` together with the operation.
    Send(OvsCall, String),
    /// Nothing: the operation has ended, with this result.
    Finish(Result<OvsReply, OvsError>),
}

/// The next action as a mathematical value.
pub enum OvsActionView {
    Send(OvsCallView, Seq<char>),
    Finish(Result<OvsReplyView, OvsErrorView>),
}

impl View for OvsAction {
    type V = OvsActionView;

    open spec fn view(&self) -> OvsActionView {
        match self {
            OvsAction::Send(call, text) => OvsActionView::Send(call@, text@),
            OvsAction::Finish(Ok(reply)) => OvsActionView::Finish(Ok(reply@)),
            OvsAction::Finish(Err(e)) => OvsActionView::Finish(Err(e@)),
        }
    }
}

/// Where an operation stands once a reply is taken in: at its next action, or, for the
/// addition of a port, at the point where the rules have passed and the transaction
/// for the given bridge is to be written.
#[derive(Debug)]
pub enum OvsSettled {
    Act(OvsAction),
    Commit(OvsAddPort, OvsBridge),
}

/// The standing of an operation as a mathematical value.
pub enum OvsSettledView {
    Act(OvsActionView),
    Commit(OvsAddPortView, OvsBridgeView),
}

impl View for OvsSettled {
    type V = OvsSettledView;

    open spec fn view(&self) -> OvsSettledView {
        match self {
            OvsSettled::Act(action) => OvsSettledView::Act(action@),
            OvsSettled::Commit(add, bridge) => OvsSettledView::Commit(add@, bridge@),
        }
    }
}

/// The action that sends the `select` of `table` for the operation `call`.
pub open spec fn select_action(call: OvsCallView, table: Seq<char>, id: int) -> OvsActionView {
    OvsActionView::Send(call, printed_text(select_request(table, id)))
}

/// The action that ends an operation with an error.
pub open spec fn failed(e: OvsErrorView) -> OvsSettledView {
    OvsSettledView::Act(OvsActionView::Finish(Err(e)))
}

/// Where the operation `call` stands once the outcome `exchange` of its last request
/// is taken in, for a client whose next request has the number `id`.
///
/// Any failure ends the operation with its error. Reading the ports ends with the
/// ports. Reading the bridges reads the ports after the bridges, and ends with the
/// bridges, their ports resolved. Adding a port reads the ports, then the bridges as
/// before, then applies the rules for the instruction; where they pass it stands at
/// the commit, and the reply to the transaction ends it.
pub open spec fn settled(
    target: Seq<char>,
    id: int,
    call: OvsCallView,
    exchange: OvsExchangeView,
) -> OvsSettledView {
    match received(target, exchange) {
        Err(e) => failed(e),
        Ok(reply) => match call {
            OvsCallView::Ports => match reply_ports(reply) {
                Err(e) => failed(e),
                Ok(ports) => OvsSettledView::Act(
                    OvsActionView::Finish(Ok(OvsReplyView::Ports(ports))),
                ),
            },
            OvsCallView::Bridges => OvsSettledView::Act(
                select_action(OvsCallView::BridgePorts { rows: reply }, "Port"@, id),
            ),
            OvsCallView::BridgePorts { rows } => match reply_ports(reply) {
                Err(e) => failed(e),
                Ok(ports) => match reply_bridges(rows, ports) {
                    Err(e) => failed(e),
                    Ok(bridges) => OvsSettledView::Act(
                        OvsActionView::Finish(Ok(OvsReplyView::Bridges(bridges))),
                    ),
                },
            },
            OvsCallView::AddPortPorts { add } => match reply_ports(reply) {
                Err(e) => failed(e),
                Ok(ports) => OvsSettledView::Act(
                    select_action(OvsCallView::AddPortBridges { add, ports }, "Bridge"@, id),
                ),
            },
            OvsCallView::AddPortBridges { add, ports } => OvsSettledView::Act(
                select_action(
                    OvsCallView::AddPortBridgePorts { add, ports, rows: reply },
                    "Port"@,
                    id,
                ),
            ),
            OvsCallView::AddPortBridgePorts { add, ports, rows } => match reply_ports(reply) {
                Err(e) => failed(e),
                Ok(fresh) => match reply_bridges(rows, fresh) {
                    Err(e) => failed(e),
                    Ok(bridges) => match add_port_target(
                        ports,
                        bridges,
                        add.bridge_name,
                        add.port_name,
                    ) {
                        Err(e) => failed(e),
                        Ok(at) => OvsSettledView::Commit(add, bridges[at]),
                    },
                },
            },
            OvsCallView::AddPortCommit => OvsSettledView::Act(
                OvsActionView::Finish(Ok(OvsReplyView::Added(reply))),
            ),
        },
    }
}

/// The action that sends the transaction which adds a port to `bridge`, with the
/// placeholders made from the tokens `first` and `second`.
pub open spec fn commit_action(
    id: int,
    add: OvsAddPortView,
    bridge: OvsBridgeView,
    first: Seq<char>,
    second: Seq<char>,
) -> OvsActionView {
    OvsActionView::Send(
        OvsCallView::AddPortCommit,
        printed_text(
            add_port_request(
                bridge,
                add.port_name,
                add.port_mode,
                placeholder_of(first),
                second_placeholder_of(first, second),
                id,
            ),
        ),
    )
}

/// The next action of the operation `call` once the outcome `exchange` of its last
/// request is taken in, where `first` and `second` are the tokens at hand for
/// placeholders.
pub open spec fn next_action(
    target: Seq<char>,
    id: int,
    call: OvsCallView,
    exchange: OvsExchangeView,
    first: Seq<char>,
    second: Seq<char>,
) -> OvsActionView {
    match settled(target, id, call, exchange) {
        OvsSettledView::Act(action) => action,
        OvsSettledView::Commit(add, bridge) => commit_action(id, add, bridge, first, second),
    }
}

/// The number of the next request after an action: one more where the action sends a
/// request.
pub open spec fn id_after(id: int, action: OvsActionView) -> int {
    match action {
        OvsActionView::Send(_, _) => id + 1,
        OvsActionView::Finish(_) => id,
    }
}

/// The state of a client: where its database is, and the number of its next request.
pub struct OvsClient {
    transaction_id: i32,
    target: String,
}

/// A client as a mathematical value.
pub struct OvsClientView {
    pub transaction_id: int,
    pub target: Seq<char>,
}

impl View for OvsClient {
    type V = OvsClientView;

    closed spec fn view(&self) -> OvsClientView {
        OvsClientView { transaction_id: self.transaction_id as int, target: self.target@ }
    }
}

impl OvsClient {
    /// Makes a client for the database at `host` and `port`. Its first request has the
    /// number 0. No connection is made, so this does not fail.
    pub fn new(host: &str, port: i16) -> (r: Result<OvsClient, OvsError>)
        ensures
            r matches Ok(client) && client@ == (OvsClientView {
                transaction_id: 0,
                target: target_of(host@, port as int),
            }),
    {
        let mut target = host.to_owned();
        target.push(':');
        if port < 0 {
            target.push('-');
            push_decimal(&mut target, (-(port as i32)) as u32);
        } else {
            push_decimal(&mut target, port as u32);
        }
        assert(target@ =~= target_of(host@, port as int));
        Ok(OvsClient { transaction_id: 0, target })
    }

    /// The address of the database, as `host:port`.
    pub fn target(&self) -> (target: &str)
        ensures
            target@ == self@.target,
    {
        self.target.as_str()
    }

    /// The number that the next request carries.
    pub fn transaction_id(&self) -> (id: i32)
        ensures
            id == self@.transaction_id,
    {
        self.transaction_id
    }
    /// Whether the client can number one more request.
    pub open spec fn can_send(&self) -> bool {
        self@.transaction_id < i32::MAX
    }

    /// Takes a request for sending: gives the text to write to the database, and
    /// counts the request.
    pub fn send(&mut self, msg: &serde_json::Value) -> (text: String)
        requires
            old(self).can_send(),
        ensures
            text@ == printed_text(json_of(*msg)),
            final(self)@ == (OvsClientView {
                transaction_id: old(self)@.transaction_id + 1,
                target: old(self)@.target,
            }),
    {
        self.transaction_id = self.transaction_id + 1;
        print_text(msg)
    }

    /// Takes what came of an exchange: gives the reply of the database, or the error
    /// that the outcome amounts to.
    pub fn receive(&self, exchange: OvsExchange) -> (r: Result<serde_json::Value, OvsError>)
        ensures
            match r {
                Ok(reply) => received(self@.target, exchange@) == Ok::<JsonValue, OvsErrorView>(
                    json_of(reply),
                ),
                Err(e) => received(self@.target, exchange@) == Err::<JsonValue, OvsErrorView>(e@),
            },
    {
        match exchange {
            OvsExchange::ConnectFailed(why) => {
                let mut message = "failed to connect ovs (".to_owned();
                message.append(self.target.as_str());
                message.append(")");
                Err(
                    OvsError::new(OvsErrorType::ConnectionError, message.as_str()).detail(
                        why.as_str(),
                    ),
                )
            },
            OvsExchange::SendFailed(why) => Err(
                OvsError::new(OvsErrorType::ConnectionError, "Faild to send request data").detail(
                    why.as_str(),
                ),
            ),
            OvsExchange::ReadFailed(why) => Err(
                OvsError::new(OvsErrorType::ConnectionError, "Failed to read response data").detail(
                    why.as_str(),
                ),
            ),
            OvsExchange::Received(bytes) => read_response(bytes),
        }
    }
    /// Sends the `select` of `table` for the operation `call`.
    pub fn select(&mut self, call: OvsCall, table: &str) -> (action: OvsAction)
        requires
            old(self).can_send(),
        ensures
            action@ == select_action(call@, table@, old(self)@.transaction_id),
            final(self)@.transaction_id == old(self)@.transaction_id + 1,
            final(self)@.target == old(self)@.target,
    {
        let request = write_select_request(table, self.transaction_id);
        let text = self.send(&request);
        OvsAction::Send(call, text)
    }

    /// Begins to read the ports of the switch.
    pub fn get_ports(&mut self) -> (action: OvsAction)
        requires
            old(self).can_send(),
        ensures
            action@ == select_action(OvsCallView::Ports, "Port"@, old(self)@.transaction_id),
            final(self)@.transaction_id == old(self)@.transaction_id + 1,
            final(self)@.target == old(self)@.target,
    {
        self.select(OvsCall::Ports, "Port")
    }

    /// Begins to read the bridges of the switch.
    pub fn get_bridges(&mut self) -> (action: OvsAction)
        requires
            old(self).can_send(),
        ensures
            action@ == select_action(OvsCallView::Bridges, "Bridge"@, old(self)@.transaction_id),
            final(self)@.transaction_id == old(self)@.transaction_id + 1,
            final(self)@.target == old(self)@.target,
    {
        self.select(OvsCall::Bridges, "Bridge")
    }

    /// Begins to add the port `port_name`, in the mode `port_mode`, to the bridge
    /// `bridge_name`.
    pub fn add_port(
        &mut self,
        bridge_name: &str,
        port_name: &str,
        port_mode: &OvsPortMode,
    ) -> (action: OvsAction)
        requires
            old(self).can_send(),
        ensures
            action@ == select_action(
                OvsCallView::AddPortPorts {
                    add: OvsAddPortView {
                        bridge_name: bridge_name@,
                        port_name: port_name@,
                        port_mode: port_mode@,
                    },
                },
                "Port"@,
                old(self)@.transaction_id,
            ),
            final(self)@.transaction_id == old(self)@.transaction_id + 1,
            final(self)@.target == old(self)@.target,
    {
        let add = OvsAddPort {
            bridge_name: bridge_name.to_owned(),
            port_name: port_name.to_owned(),
            port_mode: port_mode.clone(),
        };
        self.select(OvsCall::AddPortPorts { add }, "Port")
    }

    /// Takes in what came of the last request of the operation `call`, up to the point
    /// where a transaction is to be written.
    pub fn settle(&mut self, call: OvsCall, exchange: OvsExchange) -> (standing: OvsSettled)
        requires
            old(self).can_send(),
        ensures
            standing@ == settled(
                old(self)@.target,
                old(self)@.transaction_id,
                call@,
                exchange@,
            ),
            final(self)@.target == old(self)@.target,
            final(self)@.transaction_id == match standing@ {
                OvsSettledView::Act(action) => id_after(old(self)@.transaction_id, action),
                OvsSettledView::Commit(_, _) => old(self)@.transaction_id,
            },
    {
        let reply = match self.receive(exchange) {
            Ok(reply) => reply,
            Err(e) => {
                return OvsSettled::Act(OvsAction::Finish(Err(e)));
            },
        };
        match call {
            OvsCall::Ports => match decode_ports(&reply) {
                Ok(ports) => OvsSettled::Act(OvsAction::Finish(Ok(OvsReply::Ports(ports)))),
                Err(e) => OvsSettled::Act(OvsAction::Finish(Err(e))),
            },
            OvsCall::Bridges => OvsSettled::Act(
                self.select(OvsCall::BridgePorts { rows: reply }, "Port"),
            ),
            OvsCall::BridgePorts { rows } => {
                let ports = match decode_ports(&reply) {
                    Ok(ports) => ports,
                    Err(e) => {
                        return OvsSettled::Act(OvsAction::Finish(Err(e)));
                    },
                };
                match decode_bridges(&rows, &ports) {
                    Ok(bridges) => OvsSettled::Act(
                        OvsAction::Finish(Ok(OvsReply::Bridges(bridges))),
                    ),
                    Err(e) => OvsSettled::Act(OvsAction::Finish(Err(e))),
                }
            },
            OvsCall::AddPortPorts { add } => match decode_ports(&reply) {
                Ok(ports) => OvsSettled::Act(
                    self.select(OvsCall::AddPortBridges { add, ports }, "Bridge"),
                ),
                Err(e) => OvsSettled::Act(OvsAction::Finish(Err(e))),
            },
            OvsCall::AddPortBridges { add, ports } => OvsSettled::Act(
                self.select(OvsCall::AddPortBridgePorts { add, ports, rows: reply }, "Port"),
            ),
            OvsCall::AddPortBridgePorts { add, ports, rows } => {
                let fresh = match decode_ports(&reply) {
                    Ok(fresh) => fresh,
                    Err(e) => {
                        return OvsSettled::Act(OvsAction::Finish(Err(e)));
                    },
                };
                let mut bridges = match decode_bridges(&rows, &fresh) {
                    Ok(bridges) => bridges,
                    Err(e) => {
                        return OvsSettled::Act(OvsAction::Finish(Err(e)));
                    },
                };
                match check_add_port(
                    &ports,
                    &bridges,
                    add.bridge_name.as_str(),
                    add.port_name.as_str(),
                ) {
                    Ok(at) => {
                        let ghost all = bridges_view(bridges@);
                        let bridge = bridges.swap_remove(at);
                        assert(bridge@ == all[at as int]);
                        OvsSettled::Commit(add, bridge)
                    },
                    Err(e) => OvsSettled::Act(OvsAction::Finish(Err(e))),
                }
            },
            OvsCall::AddPortCommit => OvsSettled::Act(OvsAction::Finish(Ok(OvsReply::Added(reply)))),
        }
    }

    /// Sends the transaction that adds a port to `bridge`, with the placeholders made
    /// from the tokens `first` and `second`.
    pub fn commit(
        &mut self,
        add: &OvsAddPort,
        bridge: &OvsBridge,
        first: &str,
        second: &str,
    ) -> (action: OvsAction)
        requires
            old(self).can_send(),
        ensures
            action@ == commit_action(old(self)@.transaction_id, add@, bridge@, first@, second@),
            final(self)@.transaction_id == old(self)@.transaction_id + 1,
            final(self)@.target == old(self)@.target,
    {
        let names = placeholders(first, second);
        let request = write_add_port_request(
            bridge,
            add.port_name.as_str(),
            &add.port_mode,
            names.0.as_str(),
            names.1.as_str(),
            self.transaction_id,
        );
        let text = self.send(&request);
        OvsAction::Send(OvsCall::AddPortCommit, text)
    }

    /// Takes in what came of the last request of the operation `call`, and gives the
    /// next action. Where a transaction is to be written, its two placeholders are made
    /// from fresh random UUIDs.
    pub fn resume(&mut self, call: OvsCall, exchange: OvsExchange) -> (action: OvsAction)
        requires
            old(self).can_send(),
        ensures
            exists|first: Seq<char>, second: Seq<char>|
                is_hyphenated_uuid(first) && is_hyphenated_uuid(second) && action@
                    == #[trigger] next_action(
                    old(self)@.target,
                    old(self)@.transaction_id,
                    call@,
                    exchange@,
                    first,
                    second,
                ),
            final(self)@.target == old(self)@.target,
            final(self)@.transaction_id == id_after(old(self)@.transaction_id, action@),
    {
        match self.settle(call, exchange) {
            OvsSettled::Act(action) => {
                let ghost token: Seq<char> = hyphenated_witness();
                assert(action@ == next_action(
                    old(self)@.target,
                    old(self)@.transaction_id,
                    call@,
                    exchange@,
                    token,
                    token,
                ));
                action
            },
            OvsSettled::Commit(add, bridge) => {
                let first = random_uuid();
                let second = random_uuid();
                let action = self.commit(&add, &bridge, first.as_str(), second.as_str());
                assert(action@ == next_action(
                    old(self)@.target,
                    old(self)@.transaction_id,
                    call@,
                    exchange@,
                    first@,
                    second@,
                ));
                action
            },
        }
    }

    /// Whether the database answered a request in good order.
    pub fn check_connection(&self, exchange: OvsExchange) -> (alive: bool)
        ensures
            alive == received(self@.target, exchange@) is Ok,
    {
        match self.receive(exchange) {
            Ok(_) => true,
            Err(_) => false,
        }
    }
}

/// A text of the hyphenated form, to show that there is one.
pub proof fn hyphenated_witness() -> (token: Seq<char>)
    ensures
        is_hyphenated_uuid(token),
{
    Seq::new(
        36,
        |i: int|
            if i == 8 || i == 13 || i == 18 || i == 23 {
                '-'
            } else {
                '0'
            },
    )
}

/// An instruction to add a port that breaks a rule ends with an
/// `InconsistentInstruction` once the ports and bridges are read: where the name of the
/// port is taken, whatever the bridge is, and where no bridge has the name of the
/// bridge. A database without ports and bridges is such a case, for every instruction.
pub proof fn lemma_add_port_refused(
    target: Seq<char>,
    id: int,
    add: OvsAddPortView,
    ports: Seq<OvsPortView>,
    rows: JsonValue,
    exchange: OvsExchangeView,
)
    requires
        received(target, exchange) is Ok,
        reply_ports(received(target, exchange)->Ok_0) is Ok,
        reply_bridges(rows, reply_ports(received(target, exchange)->Ok_0)->Ok_0) is Ok,
        ({
            let bridges = reply_bridges(rows, reply_ports(received(target, exchange)->Ok_0)->Ok_0)->Ok_0;
            has_port_named(ports, add.port_name) || forall|k: int|
                0 <= k < bridges.len() ==> (#[trigger] bridges[k]).name != add.bridge_name
        }),
    ensures
        settled(target, id, OvsCallView::AddPortBridgePorts { add, ports, rows }, exchange)
            matches OvsSettledView::Act(OvsActionView::Finish(Err(e))) && e.error_type
            == OvsErrorType::InconsistentInstruction,
{
    let bridges = reply_bridges(rows, reply_ports(received(target, exchange)->Ok_0)->Ok_0)->Ok_0;
    lemma_add_port_rules(ports, bridges, add.bridge_name, add.port_name);
}

/// An operation that has ended asks for no further request, and one that goes on asks
/// for exactly one: the number of the next request never falls, and rises by one with
/// each request.
pub proof fn lemma_requests_are_counted(id: int, action: OvsActionView)
    ensures
        id <= id_after(id, action) <= id + 1,
        id_after(id, action) == id + 1 <==> action is Send,
{
}


} // verus!
