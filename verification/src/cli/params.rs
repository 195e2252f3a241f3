//! The groups of parameters that the `run` command reads, and the values it
//! hands to the RPC server.

use crate::cli::arg_enums::{Origins, RpcMethods};
use std::path::PathBuf;
use vstd::prelude::*;

verus! {

/// `std::path::PathBuf`, a path that the library carries through without
/// looking into it.
#[verifier::external_type_specification]
#[verifier::external_body]
pub struct ExPathBuf(PathBuf);

/// A rate limit in calls per minute: a number that is not zero.
#[derive(Debug, Copy, Clone, PartialEq, Eq, Hash)]
pub struct RateLimit {
    calls_per_minute: u32,
}

impl View for RateLimit {
    type V = u32;

    closed spec fn view(&self) -> u32 {
        self.calls_per_minute
    }
}

impl RateLimit {
    #[verifier::type_invariant]
    spec fn is_positive(self) -> bool {
        self.calls_per_minute > 0
    }

    /// The rate limit of `calls_per_minute`, unless that is zero.
    pub fn new(calls_per_minute: u32) -> (limit: Option<RateLimit>)
        ensures
            limit is Some <==> calls_per_minute != 0,
            limit matches Some(l) ==> l@ == calls_per_minute,
    {
        if calls_per_minute == 0 {
            None
        } else {
            Some(RateLimit { calls_per_minute })
        }
    }

    /// The number of calls per minute, which is not zero.
    pub fn get(&self) -> (calls_per_minute: u32)
        ensures
            calls_per_minute == self@,
            calls_per_minute != 0,
    {
        proof {
            use_type_invariant(self);
        }
        self.calls_per_minute
    }
}

/// The IPv4 address `0.0.0.0`, which stands for every interface.
pub const IPV4_UNSPECIFIED: u32 = 0;

/// The IPv4 address `127.0.0.1` of the local host.
pub const IPV4_LOCALHOST: u32 = 0x7f00_0001;

/// The IPv6 address `::`, which stands for every interface.
pub const IPV6_UNSPECIFIED: u128 = 0;

/// The IPv6 address `::1` of the local host.
pub const IPV6_LOCALHOST: u128 = 1;

/// An IP address as its bits, most significant first.
#[derive(Debug, Copy, Clone, PartialEq, Eq, Hash, Structural)]
pub enum IpAddress {
    /// The 32 bits of an IPv4 address.
    V4(u32),
    /// The 128 bits of an IPv6 address.
    V6(u128),
}

/// An address to listen on.
#[derive(Debug, Copy, Clone, PartialEq, Eq, Hash, Structural)]
pub struct SocketAddress {
    /// The address of the interface.
    pub ip: IpAddress,
    /// The TCP port.
    pub port: u16,
}

/// A network in CIDR notation: an address and the length of its prefix.
#[derive(Debug, Copy, Clone, PartialEq, Eq, Hash, Structural)]
pub struct IpNetwork {
    /// The address of the network.
    pub address: IpAddress,
    /// The number of leading bits that the addresses of the network share.
    pub netmask: u8,
}

/// How the RPC server treats batch requests.
#[derive(Debug, Copy, Clone, PartialEq, Eq, Hash, Structural)]
pub enum RpcBatchRequestConfig {
    /// Batch requests are disabled.
    Disabled,
    /// Each batch request is limited to this many entries.
    Limit(u32),
    /// The batch request is unlimited.
    Unlimited,
}

/// Role of the local node.
#[derive(Debug, Copy, Clone, PartialEq, Eq, Hash, Structural)]
pub enum Role {
    /// Regular full node.
    Full,
    /// Actual authority.
    Authority,
}

/// One interface of the RPC server with its configuration.
#[derive(Debug)]
pub struct RpcEndpoint {
    /// Batch request configuration.
    pub batch_config: RpcBatchRequestConfig,
    /// Maximum number of connections.
    pub max_connections: u32,
    /// The address to listen on.
    pub listen_addr: SocketAddress,
    /// The RPC methods to expose.
    pub rpc_methods: RpcMethods,
    /// Rate limit in calls per minute for each connection.
    pub rate_limit: Option<RateLimit>,
    /// Whether to trust proxy headers for rate limiting.
    pub rate_limit_trust_proxy_headers: bool,
    /// The networks that rate limiting does not apply to.
    pub rate_limit_whitelisted_ips: Vec<IpNetwork>,
    /// Maximum payload of a request in megabytes.
    pub max_payload_in_mb: u32,
    /// Maximum payload of a response in megabytes.
    pub max_payload_out_mb: u32,
    /// Maximum number of subscriptions of one connection.
    pub max_subscriptions_per_connection: u32,
    /// Maximum number of messages kept in memory for one connection.
    pub max_buffer_capacity_per_connection: u32,
    /// The origins that may access the server; `None` allows all.
    pub cors: Option<Vec<String>>,
    /// Whether to retry with a random port if the port is in use.
    pub retry_random_port: bool,
    /// Whether the node may run without this interface.
    pub is_optional: bool,
}

/// An endpoint as plain values.
pub struct RpcEndpointView {
    pub batch_config: RpcBatchRequestConfig,
    pub max_connections: u32,
    pub listen_addr: SocketAddress,
    pub rpc_methods: RpcMethods,
    pub rate_limit: Option<RateLimit>,
    pub rate_limit_trust_proxy_headers: bool,
    pub rate_limit_whitelisted_ips: Seq<IpNetwork>,
    pub max_payload_in_mb: u32,
    pub max_payload_out_mb: u32,
    pub max_subscriptions_per_connection: u32,
    pub max_buffer_capacity_per_connection: u32,
    pub cors: Origins,
    pub retry_random_port: bool,
    pub is_optional: bool,
}

impl View for RpcEndpoint {
    type V = RpcEndpointView;

    open spec fn view(&self) -> RpcEndpointView {
        RpcEndpointView {
            batch_config: self.batch_config,
            max_connections: self.max_connections,
            listen_addr: self.listen_addr,
            rpc_methods: self.rpc_methods,
            rate_limit: self.rate_limit,
            rate_limit_trust_proxy_headers: self.rate_limit_trust_proxy_headers,
            rate_limit_whitelisted_ips: self.rate_limit_whitelisted_ips@,
            max_payload_in_mb: self.max_payload_in_mb,
            max_payload_out_mb: self.max_payload_out_mb,
            max_subscriptions_per_connection: self.max_subscriptions_per_connection,
            max_buffer_capacity_per_connection: self.max_buffer_capacity_per_connection,
            cors: self.cors.deep_view(),
            retry_random_port: self.retry_random_port,
            is_optional: self.is_optional,
        }
    }
}

impl Clone for RpcEndpoint {
    fn clone(&self) -> (copy: Self)
        ensures
            copy@ == self@,
    {
        RpcEndpoint {
            batch_config: self.batch_config,
            max_connections: self.max_connections,
            listen_addr: self.listen_addr,
            rpc_methods: self.rpc_methods,
            rate_limit: self.rate_limit,
            rate_limit_trust_proxy_headers: self.rate_limit_trust_proxy_headers,
            rate_limit_whitelisted_ips: self.rate_limit_whitelisted_ips.clone(),
            max_payload_in_mb: self.max_payload_in_mb,
            max_payload_out_mb: self.max_payload_out_mb,
            max_subscriptions_per_connection: self.max_subscriptions_per_connection,
            max_buffer_capacity_per_connection: self.max_buffer_capacity_per_connection,
            cors: self.cors.clone(),
            retry_random_port: self.retry_random_port,
            is_optional: self.is_optional,
        }
    }
}

/// A list of endpoints as plain values.
pub open spec fn endpoints_view(endpoints: Vec<RpcEndpoint>) -> Seq<RpcEndpointView> {
    endpoints@.map_values(|endpoint: RpcEndpoint| endpoint@)
}

/// The parameters shared by all commands, as far as the `run` command reads
/// them.
#[derive(Debug, Clone)]
pub struct SharedParams {
    /// Whether the node runs in development mode.
    pub dev: bool,
    /// The custom base path, if the operator gave one.
    pub base_path: Option<PathBuf>,
}

impl SharedParams {
    /// Whether the node runs in development mode.
    pub fn is_dev(&self) -> (dev: bool)
        ensures
            dev == self.dev,
    {
        self.dev
    }
}

/// The parameters of telemetry.
#[derive(Debug, Clone)]
pub struct TelemetryParams {
    /// Whether connecting to the telemetry server is disabled.
    pub no_telemetry: bool,
    /// The telemetry servers to connect to, each a url and a verbosity.
    pub telemetry_endpoints: Vec<(String, u8)>,
}

/// The parameters of the runtime cache.
#[derive(Debug, Clone)]
pub struct RuntimeParams {
    /// The size of the instances cache for each runtime.
    pub max_runtime_instances: usize,
    /// Maximum number of different runtimes that can be cached.
    pub runtime_cache_size: u8,
}

} // verus!
