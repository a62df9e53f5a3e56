//! Client-side transport for talking to a MinKNOW control-plane server.
//!
//! The core is the secure authenticated channel: it trusts exactly one
//! caller-supplied CA certificate (the deployment uses self-signed
//! certificates, so hostname verification is disabled while trust is pinned
//! to that single certificate), pins TLS application-protocol negotiation to
//! the HTTP/2 identifier the RPC wire format requires, rewrites every
//! outgoing request so its destination is the channel's configured base
//! endpoint while preserving the request's own path and query, and attaches
//! a rotating bearer token under a fixed header name when one is set.

mod channel;
mod endpoint;
mod errors;
mod manager;
mod messages;
mod mock;
mod request;
mod tls;

pub use channel::ChannelView;
pub use channel::MinKNOWChannel;
pub use channel::auth_header_insertable;
pub use channel::forwardable;
pub use channel::header_value_char_ok;
pub use channel::header_value_ok;
pub use channel::lemma_prepare_depends_only_on_endpoint_and_token;
pub use channel::request_path_and_query;
pub use channel::uri_builds;
pub use endpoint::Endpoint;
pub use endpoint::EndpointView;
pub use endpoint::authority_of;
pub use endpoint::authority_string;
pub use endpoint::decimal;
pub use endpoint::decimal_string;
pub use endpoint::digit;
pub use errors::ChannelError;
pub use manager::FlowCellPosition;
pub use manager::FlowCellPositionView;
pub use manager::chunk_views;
pub use manager::collect_flow_cell_positions;
pub use manager::flatten_chunks;
pub use messages::DescribeHostResponse;
pub use messages::DescribeHostResponseView;
pub use messages::FlowCellPositionInfo;
pub use messages::FlowCellPositionInfoView;
pub use messages::FlowCellPositionsResponse;
pub use messages::FlowCellPositionsResponseView;
pub use messages::NotificationState;
pub use messages::RpcPorts;
pub use messages::notification_state_code;
pub use messages::position_views;
pub use messages::wait_for_finished_state_code;
pub use mock::MockFlowCellPosition;
pub use mock::MockFlowCellPositionView;
pub use mock::MockManagerServer;
pub use mock::MockMinKNOWManager;
pub use mock::PortCounter;
pub use mock::PositionState;
pub use mock::get_available_port;
pub use mock::state_code;
pub use request::Header;
pub use request::HeaderView;
pub use request::RequestUri;
pub use request::RequestUriView;
pub use request::TargetUri;
pub use request::TargetUriView;
pub use request::OutboundRequest;
pub use request::OutboundRequestView;
pub use request::RpcRequest;
pub use request::RpcRequestView;
pub use request::apply_auth_header;
pub use request::auth_header_name;
pub use request::auth_header_name_string;
pub use request::clone_token;
pub use request::header_views;
pub use request::inject_auth_spec;
pub use request::lemma_no_token_no_auth_header;
pub use request::lemma_rewrite_targets_base;
pub use request::lemma_token_set_attaches_header;
pub use request::prepare_spec;
pub use request::prepared_view;
pub use request::rewrite_uri;
pub use request::token_view;
pub use request::without_auth;
pub use tls::Http2TlsClient;
pub use tls::alpn_h2_wire;
pub use tls::build_http2_tls_client;
pub use tls::pem_cert_parses;
