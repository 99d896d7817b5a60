//! A client for the OVSDB management protocol: it reads the bridges and ports of a
//! virtual switch and adds ports to a bridge, over a JSON-RPC transaction codec that
//! leaves the connection itself to the caller.

pub mod json;
pub mod ovs_column;
pub mod ovs_bridge;
pub mod ovs_client;
pub mod ovs_error;
pub mod ovs_port;
pub mod ovs_query;
pub mod ovs_transaction;
pub mod text;
