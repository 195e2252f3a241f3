//! The `run` command used to run a node.

use crate::cli::arg_enums::{Cors, Origins, RpcMethods};
use crate::cli::error::Error;
use crate::cli::keyring::Keyring;
use crate::cli::params::{
    endpoints_view, IpAddress, IpNetwork, RateLimit, Role, RpcBatchRequestConfig, RpcEndpoint,
    RpcEndpointView, RuntimeParams, SharedParams, SocketAddress, TelemetryParams, IPV4_LOCALHOST,
    IPV4_UNSPECIFIED, IPV6_LOCALHOST, IPV6_UNSPECIFIED,
};
use crate::cli::pattern::{regex_compiles, regex_is_match, search};
use vstd::pervasive::unreached;
use vstd::prelude::*;
use vstd::string::{StrSliceExecFns, StringExecFns};

verus! {

/// The `run` command used to run a node.
#[derive(Debug, Clone)]
pub struct RunCmd {
    /// Enable validator mode.
    ///
    /// The node will be started with the authority role and actively
    /// participate in any consensus task that it can (e.g. depending on
    /// availability of local keys).
    pub validator: bool,
    /// Disable GRANDPA.
    ///
    /// Disables voter when running in validator mode, otherwise disable the
    /// GRANDPA observer.
    pub no_grandpa: bool,
    /// Listen to all RPC interfaces (default: local).
    pub rpc_external: bool,
    /// Listen to all RPC interfaces.
    ///
    /// Same as `rpc_external`, without the refusal for validators.
    pub unsafe_rpc_external: bool,
    /// RPC methods to expose.
    pub rpc_methods: RpcMethods,
    /// RPC rate limiting (calls/minute) for each connection.
    pub rpc_rate_limit: Option<RateLimit>,
    /// Disable RPC rate limiting for certain ip addresses.
    pub rpc_rate_limit_whitelisted_ips: Vec<IpNetwork>,
    /// Trust proxy headers for disable rate limiting.
    pub rpc_rate_limit_trust_proxy_headers: bool,
    /// Set the maximum RPC request payload size for both HTTP and WS in
    /// megabytes.
    pub rpc_max_request_size: u32,
    /// Set the maximum RPC response payload size for both HTTP and WS in
    /// megabytes.
    pub rpc_max_response_size: u32,
    /// Set the maximum concurrent subscriptions per connection.
    pub rpc_max_subscriptions_per_connection: u32,
    /// Specify JSON-RPC server TCP port.
    pub rpc_port: Option<u16>,
    /// The RPC interfaces given one by one, each with its own configuration.
    /// Where there is one, it replaces all the other RPC options.
    pub experimental_rpc_endpoint: Vec<RpcEndpoint>,
    /// Maximum number of RPC server connections.
    pub rpc_max_connections: u32,
    /// The number of messages the RPC server is allowed to keep in memory.
    pub rpc_message_buffer_capacity_per_connection: u32,
    /// Disable RPC batch requests.
    pub rpc_disable_batch_requests: bool,
    /// Limit the max length per RPC batch request.
    pub rpc_max_batch_request_len: Option<u32>,
    /// Specify browser *origins* allowed to access the HTTP & WS RPC servers.
    pub rpc_cors: Option<Cors>,
    /// The human-readable name for this node.
    ///
    /// It's used as network node name.
    pub name: Option<String>,
    /// The parameters of telemetry.
    pub telemetry_params: TelemetryParams,
    /// The parameters of the runtime cache.
    pub runtime_params: RuntimeParams,
    /// The parameters shared by all commands.
    pub shared_params: SharedParams,
    /// Shortcut for `--name Alice --validator`.
    pub alice: bool,
    /// Shortcut for `--name Bob --validator`.
    pub bob: bool,
    /// Shortcut for `--name Charlie --validator`.
    pub charlie: bool,
    /// Shortcut for `--name Dave --validator`.
    pub dave: bool,
    /// Shortcut for `--name Eve --validator`.
    pub eve: bool,
    /// Shortcut for `--name Ferdie --validator`.
    pub ferdie: bool,
    /// Shortcut for `--name One --validator`.
    pub one: bool,
    /// Shortcut for `--name Two --validator`.
    pub two: bool,
    /// Enable authoring even when offline.
    pub force_authoring: bool,
    /// Run a temporary node.
    ///
    /// A temporary directory will be created to store the configuration and
    /// will be deleted at the end of the process.
    pub tmp: bool,
}

impl RunCmd {
    /// The account that the flags select: that of the first flag set, in
    /// the order Alice, Bob, Charlie, Dave, Eve, Ferdie, One, Two.
    pub open spec fn spec_get_keyring(&self) -> Option<Keyring> {
        if self.alice {
            Some(Keyring::Alice)
        } else if self.bob {
            Some(Keyring::Bob)
        } else if self.charlie {
            Some(Keyring::Charlie)
        } else if self.dave {
            Some(Keyring::Dave)
        } else if self.eve {
            Some(Keyring::Eve)
        } else if self.ferdie {
            Some(Keyring::Ferdie)
        } else if self.one {
            Some(Keyring::One)
        } else if self.two {
            Some(Keyring::Two)
        } else {
            None
        }
    }

    /// Get the `Keyring` matching one of the flag.
    #[verifier::when_used_as_spec(spec_get_keyring)]
    pub fn get_keyring(&self) -> (keyring: Option<Keyring>)
        ensures
            keyring == self.spec_get_keyring(),
    {
        if self.alice {
            Some(Keyring::Alice)
        } else if self.bob {
            Some(Keyring::Bob)
        } else if self.charlie {
            Some(Keyring::Charlie)
        } else if self.dave {
            Some(Keyring::Dave)
        } else if self.eve {
            Some(Keyring::Eve)
        } else if self.ferdie {
            Some(Keyring::Ferdie)
        } else if self.one {
            Some(Keyring::One)
        } else if self.two {
            Some(Keyring::Two)
        } else {
            None
        }
    }

    /// Whether the node runs in development mode.
    pub fn is_dev(&self) -> (dev: Result<bool, Error>)
        ensures
            dev matches Ok(flag) && flag == self.shared_params.dev,
    {
        Ok(self.shared_params.is_dev())
    }

    /// The role of the node: an authority where it validates, runs in
    /// development mode or uses a well-known account, else a full node.
    pub open spec fn spec_role(&self, is_dev: bool) -> Role {
        if self.validator || is_dev || self.spec_get_keyring() is Some {
            Role::Authority
        } else {
            Role::Full
        }
    }

    /// The role of the node.
    pub fn role(&self, is_dev: bool) -> (role: Result<Role, Error>)
        ensures
            role matches Ok(r) && r == self.spec_role(is_dev),
    {
        let keyring = self.get_keyring();
        let is_authority = self.validator || is_dev || keyring.is_some();
        Ok(if is_authority { Role::Authority } else { Role::Full })
    }

    /// Whether to author even when offline; development mode implies it.
    pub fn force_authoring(&self) -> (forced: Result<bool, Error>)
        ensures
            forced matches Ok(flag) && flag == (self.shared_params.dev || self.force_authoring),
    {
        Ok(self.shared_params.dev || self.force_authoring)
    }

    /// Whether GRANDPA is disabled.
    pub fn disable_grandpa(&self) -> (disabled: Result<bool, Error>)
        ensures
            disabled matches Ok(flag) && flag == self.no_grandpa,
    {
        Ok(self.no_grandpa)
    }

    /// How batch requests are treated: disabled where the flag says so,
    /// else limited where a length is given, else unlimited.
    pub open spec fn spec_rpc_batch_config(&self) -> RpcBatchRequestConfig {
        if self.rpc_disable_batch_requests {
            RpcBatchRequestConfig::Disabled
        } else {
            match self.rpc_max_batch_request_len {
                Some(len) => RpcBatchRequestConfig::Limit(len),
                None => RpcBatchRequestConfig::Unlimited,
            }
        }
    }

    /// How batch requests are treated.
    pub fn rpc_batch_config(&self) -> (config: Result<RpcBatchRequestConfig, Error>)
        ensures
            config matches Ok(c) && c == self.spec_rpc_batch_config(),
    {
        Ok(self.batch_config())
    }

    /// How batch requests are treated.
    fn batch_config(&self) -> (config: RpcBatchRequestConfig)
        ensures
            config == self.spec_rpc_batch_config(),
    {
        if self.rpc_disable_batch_requests {
            RpcBatchRequestConfig::Disabled
        } else if let Some(l) = self.rpc_max_batch_request_len {
            RpcBatchRequestConfig::Limit(l)
        } else {
            RpcBatchRequestConfig::Unlimited
        }
    }
}

/// A node name has fewer characters than this.
pub const NODE_NAME_MAX_LENGTH: usize = 64;

/// The characters that a node name may not contain, as a regular expression.
pub const INVALID_CHARS: &'static str = "[\\\\.@]";

/// How a url begins, as a regular expression.
pub const INVALID_PATTERNS: &'static str = "^https?:";

/// A verdict on a node name with its message taken as a sequence of
/// characters.
pub open spec fn verdict_view(verdict: Result<(), &'static str>) -> Result<(), Seq<char>> {
    match verdict {
        Ok(()) => Ok(()),
        Err(message) => Err(message@),
    }
}

/// The verdict on `name`, given whether it holds an invalid character and
/// whether it begins like a url. The first rule that the name breaks gives
/// the message.
pub open spec fn node_name_verdict(
    name: Seq<char>,
    has_invalid_chars: bool,
    looks_like_url: bool,
) -> Result<(), Seq<char>> {
    if name.len() == 0 {
        Err("Node name cannot be empty"@)
    } else if name.len() >= NODE_NAME_MAX_LENGTH {
        Err("Node name too long"@)
    } else if has_invalid_chars {
        Err("Node name should not contain invalid chars such as '.' and '@'"@)
    } else if looks_like_url {
        Err("Node name should not contain urls"@)
    } else {
        Ok(())
    }
}

/// Judges a node name from its text and the outcome of the two searches.
pub fn judge_node_name(name: &str, has_invalid_chars: bool, looks_like_url: bool) -> (verdict:
    Result<(), &'static str>)
    ensures
        verdict_view(verdict) == node_name_verdict(name@, has_invalid_chars, looks_like_url),
{
    if name.is_empty() {
        return Err("Node name cannot be empty");
    }
    if name.unicode_len() >= NODE_NAME_MAX_LENGTH {
        return Err("Node name too long");
    }
    if has_invalid_chars {
        return Err("Node name should not contain invalid chars such as '.' and '@'");
    }
    if looks_like_url {
        return Err("Node name should not contain urls");
    }
    Ok(())
}

/// Whether every search that the verdict on `name` depends on can be made:
/// a search is needed only where the rules before it are kept, and it can be
/// made where its pattern compiles.
pub open spec fn node_name_checkable(name: Seq<char>) -> bool {
    ||| name.len() == 0
    ||| name.len() >= NODE_NAME_MAX_LENGTH
    ||| (regex_compiles(INVALID_CHARS@) && (regex_is_match(INVALID_CHARS@, name)
        || regex_compiles(INVALID_PATTERNS@)))
}

/// Check whether a node name is considered as valid.
///
/// A valid name is not empty, has fewer than 64 characters, and is matched
/// neither by `INVALID_CHARS`, the pattern for one of `\`, `.` and `@`, nor
/// by `INVALID_PATTERNS`, the pattern for the beginning of a url.
pub fn is_node_name_valid(name: &str) -> (verdict: Result<(), &'static str>)
    requires
        node_name_checkable(name@),
    ensures
        verdict_view(verdict) == node_name_verdict(
            name@,
            regex_is_match(INVALID_CHARS@, name@),
            regex_is_match(INVALID_PATTERNS@, name@),
        ),
{
    if name.is_empty() || name.unicode_len() >= NODE_NAME_MAX_LENGTH {
        return judge_node_name(name, false, false);
    }
    let has_invalid_chars = match search(INVALID_CHARS, name) {
        Some(hit) => hit,
        None => unreached(),
    };
    if has_invalid_chars {
        return judge_node_name(name, true, false);
    }
    let looks_like_url = match search(INVALID_PATTERNS, name) {
        Some(hit) => hit,
        None => unreached(),
    };
    judge_node_name(name, false, looks_like_url)
}

/// Checks a node name where the searches can be made, and says `None` where
/// one of them cannot.
pub fn check_node_name(name: &str) -> (checked: Option<Result<(), &'static str>>)
    ensures
        checked is Some <==> node_name_checkable(name@),
        checked matches Some(verdict) ==> verdict_view(verdict) == node_name_verdict(
            name@,
            regex_is_match(INVALID_CHARS@, name@),
            regex_is_match(INVALID_PATTERNS@, name@),
        ),
{
    if name.is_empty() || name.unicode_len() >= NODE_NAME_MAX_LENGTH {
        return Some(is_node_name_valid(name));
    }
    match search(INVALID_CHARS, name) {
        None => None,
        Some(true) => Some(is_node_name_valid(name)),
        Some(false) => match search(INVALID_PATTERNS, name) {
            None => None,
            Some(_) => Some(is_node_name_valid(name)),
        },
    }
}

/// Why a validator is refused an RPC server that listens on all interfaces.
pub const RPC_EXTERNAL_REFUSED: &'static str =
    "--rpc-external option shouldn't be used if the node is running as a validator. Use `--unsafe-rpc-external` or `--rpc-methods=unsafe` if you understand the risks. See the options description for more information.";

/// The addresses that the RPC server listens on, one of each family; `None`
/// where the options are refused.
///
/// A validator may not listen on all interfaces by `is_external` unless it
/// exposes the unsafe methods knowingly. Else the server listens on all
/// interfaces where either option asks for it, and on the local host alone
/// otherwise.
pub open spec fn spec_rpc_interface(
    is_external: bool,
    is_unsafe_external: bool,
    rpc_methods: RpcMethods,
    is_validator: bool,
) -> Option<(IpAddress, IpAddress)> {
    if is_external && is_validator && rpc_methods != RpcMethods::Unsafe {
        None
    } else if is_external || is_unsafe_external {
        Some((IpAddress::V4(IPV4_UNSPECIFIED), IpAddress::V6(IPV6_UNSPECIFIED)))
    } else {
        Some((IpAddress::V4(IPV4_LOCALHOST), IpAddress::V6(IPV6_LOCALHOST)))
    }
}

/// The addresses that the RPC server listens on, one of each family.
pub fn rpc_interface(
    is_external: bool,
    is_unsafe_external: bool,
    rpc_methods: RpcMethods,
    is_validator: bool,
) -> (interface: Result<(IpAddress, IpAddress), Error>)
    ensures
        match spec_rpc_interface(is_external, is_unsafe_external, rpc_methods, is_validator) {
            Some(addresses) => interface matches Ok(found) && found == addresses,
            None => interface matches Err(e) && e.message() == RPC_EXTERNAL_REFUSED@,
        },
{
    if is_external && is_validator && rpc_methods != RpcMethods::Unsafe {
        return Err(Error::Input(RPC_EXTERNAL_REFUSED.to_owned()));
    }
    if is_external || is_unsafe_external {
        Ok((IpAddress::V4(IPV4_UNSPECIFIED), IpAddress::V6(IPV6_UNSPECIFIED)))
    } else {
        Ok((IpAddress::V4(IPV4_LOCALHOST), IpAddress::V6(IPV6_LOCALHOST)))
    }
}

/// The origins allowed where the operator names none and the node does not
/// run in development mode.
pub open spec fn default_origins() -> Seq<Seq<char>> {
    seq![
        "http://localhost:*"@,
        "http://127.0.0.1:*"@,
        "https://localhost:*"@,
        "https://127.0.0.1:*"@,
        "https://polkadot.js.org"@,
    ]
}

impl RunCmd {
    /// The origins that may access the RPC servers: those that the operator
    /// named; else all in development mode, and the default list otherwise.
    pub open spec fn spec_rpc_cors(&self, is_dev: bool) -> Origins {
        match self.rpc_cors {
            Some(cors) => cors.origins(),
            None => if is_dev {
                None
            } else {
                Some(default_origins())
            },
        }
    }

    /// The origins that may access the RPC servers; `None` allows all.
    pub fn rpc_cors(&self, is_dev: bool) -> (origins: Result<Option<Vec<String>>, Error>)
        ensures
            origins matches Ok(allowed) && allowed.deep_view() == self.spec_rpc_cors(is_dev),
    {
        match &self.rpc_cors {
            Some(Cors::All) => Ok(None),
            Some(Cors::List(list)) => {
                let copy = list.clone();
                assert(copy.deep_view() =~= list.deep_view());
                Ok(Some(copy))
            },
            None => {
                if is_dev {
                    Ok(None)
                } else {
                    let mut list: Vec<String> = Vec::new();
                    list.push("http://localhost:*".to_owned());
                    list.push("http://127.0.0.1:*".to_owned());
                    list.push("https://localhost:*".to_owned());
                    list.push("https://127.0.0.1:*".to_owned());
                    list.push("https://polkadot.js.org".to_owned());
                    assert(list.deep_view() =~= default_origins());
                    Ok(Some(list))
                }
            },
        }
    }

    /// The endpoint that the RPC options describe for one address.
    pub open spec fn spec_endpoint(
        &self,
        ip: IpAddress,
        port: u16,
        is_optional: bool,
    ) -> RpcEndpointView {
        RpcEndpointView {
            batch_config: self.spec_rpc_batch_config(),
            max_connections: self.rpc_max_connections,
            listen_addr: SocketAddress { ip, port },
            rpc_methods: self.rpc_methods,
            rate_limit: self.rpc_rate_limit,
            rate_limit_trust_proxy_headers: self.rpc_rate_limit_trust_proxy_headers,
            rate_limit_whitelisted_ips: self.rpc_rate_limit_whitelisted_ips@,
            max_payload_in_mb: self.rpc_max_request_size,
            max_payload_out_mb: self.rpc_max_response_size,
            max_subscriptions_per_connection: self.rpc_max_subscriptions_per_connection,
            max_buffer_capacity_per_connection: self.rpc_message_buffer_capacity_per_connection,
            cors: self.spec_rpc_cors(self.shared_params.dev),
            retry_random_port: true,
            is_optional,
        }
    }

    /// The endpoints of the RPC server; `None` where the options are
    /// refused.
    ///
    /// Endpoints that the operator gave one by one are taken as they are.
    /// Else there are two, with the same configuration: a required one on
    /// the IPv4 address and an optional one on the IPv6 address that
    /// `spec_rpc_interface` gives, both on the port of the options or else
    /// on `default_listen_port`.
    pub open spec fn spec_rpc_addr(&self, default_listen_port: u16) -> Option<
        Seq<RpcEndpointView>,
    > {
        if self.experimental_rpc_endpoint@.len() > 0 {
            Some(endpoints_view(self.experimental_rpc_endpoint))
        } else {
            match spec_rpc_interface(
                self.rpc_external,
                self.unsafe_rpc_external,
                self.rpc_methods,
                self.validator,
            ) {
                None => None,
                Some((ipv4, ipv6)) => {
                    let port = match self.rpc_port {
                        Some(port) => port,
                        None => default_listen_port,
                    };
                    Some(
                        seq![
                            self.spec_endpoint(ipv4, port, false),
                            self.spec_endpoint(ipv6, port, true),
                        ],
                    )
                },
            }
        }
    }

    /// Builds the endpoint that the RPC options describe for one address.
    fn endpoint(
        &self,
        ip: IpAddress,
        port: u16,
        cors: &Option<Vec<String>>,
        is_optional: bool,
    ) -> (endpoint: RpcEndpoint)
        requires
            cors.deep_view() == self.spec_rpc_cors(self.shared_params.dev),
        ensures
            endpoint@ == self.spec_endpoint(ip, port, is_optional),
    {
        RpcEndpoint {
            batch_config: self.batch_config(),
            max_connections: self.rpc_max_connections,
            listen_addr: SocketAddress { ip, port },
            rpc_methods: self.rpc_methods,
            rate_limit: self.rpc_rate_limit,
            rate_limit_trust_proxy_headers: self.rpc_rate_limit_trust_proxy_headers,
            rate_limit_whitelisted_ips: self.rpc_rate_limit_whitelisted_ips.clone(),
            max_payload_in_mb: self.rpc_max_request_size,
            max_payload_out_mb: self.rpc_max_response_size,
            max_subscriptions_per_connection: self.rpc_max_subscriptions_per_connection,
            max_buffer_capacity_per_connection: self.rpc_message_buffer_capacity_per_connection,
            cors: cors.clone(),
            retry_random_port: true,
            is_optional,
        }
    }

    /// The endpoints of the RPC server.
    ///
    /// Fails exactly where no endpoint is given one by one and the options
    /// are refused for a validator.
    pub fn rpc_addr(&self, default_listen_port: u16) -> (endpoints: Result<
        Option<Vec<RpcEndpoint>>,
        Error,
    >)
        ensures
            match self.spec_rpc_addr(default_listen_port) {
                Some(expected) => endpoints matches Ok(Some(found)) && endpoints_view(found)
                    == expected,
                None => endpoints matches Err(e) && e.message() == RPC_EXTERNAL_REFUSED@,
            },
    {
        if !self.experimental_rpc_endpoint.is_empty() {
            let copy = self.experimental_rpc_endpoint.clone();
            assert(endpoints_view(copy) =~= endpoints_view(self.experimental_rpc_endpoint));
            return Ok(Some(copy));
        }
        let (ipv4, ipv6) = match rpc_interface(
            self.rpc_external,
            self.unsafe_rpc_external,
            self.rpc_methods,
            self.validator,
        ) {
            Ok(addresses) => addresses,
            Err(e) => {
                return Err(e);
            },
        };
        let cors = match self.rpc_cors(self.shared_params.dev) {
            Ok(cors) => cors,
            Err(e) => {
                return Err(e);
            },
        };
        let port = match self.rpc_port {
            Some(port) => port,
            None => default_listen_port,
        };
        let mut endpoints: Vec<RpcEndpoint> = Vec::new();
        endpoints.push(self.endpoint(ipv4, port, &cors, false));
        endpoints.push(self.endpoint(ipv6, port, &cors, true));
        assert(endpoints_view(endpoints) =~= seq![
            self.spec_endpoint(ipv4, port, false),
            self.spec_endpoint(ipv6, port, true),
        ]);
        Ok(Some(endpoints))
    }
}

/// The message of the error for a node name that `reason` rules out.
pub open spec fn invalid_node_name_message(name: Seq<char>, reason: Seq<char>) -> Seq<char> {
    "Invalid node name '"@ + name + "'. Reason: "@ + reason + ". If unsure, use none."@
}

/// Where the telemetry endpoints of the node come from.
#[derive(Debug, Copy, Clone, PartialEq, Eq, Hash, Structural)]
pub enum TelemetrySource {
    /// Telemetry is switched off: there are no endpoints.
    Disabled,
    /// The endpoints are those of the telemetry parameters.
    Parameters,
    /// The endpoints are those of the chain specification.
    ChainSpec,
}

/// Where the base path of the node comes from.
#[derive(Debug, Copy, Clone, PartialEq, Eq, Hash, Structural)]
pub enum BasePathSource {
    /// A temporary directory is created for this run.
    Temporary,
    /// The base path is that of the shared parameters.
    Parameters,
    /// No base path is set.
    Unset,
}

impl RunCmd {
    /// The name of the node before it is checked: the name that the
    /// operator gave, else that of the selected account, else `generated`.
    pub open spec fn spec_chosen_node_name(&self, generated: Seq<char>) -> Seq<char> {
        match (self.name, self.spec_get_keyring()) {
            (Some(name), _) => name@,
            (None, Some(keyring)) => keyring.spec_name(),
            (None, None) => generated,
        }
    }

    /// The name of the node before it is checked. `generated` is the name to
    /// fall back on where neither a name nor an account is given.
    pub fn chosen_node_name(&self, generated: &str) -> (name: String)
        ensures
            name@ == self.spec_chosen_node_name(generated@),
    {
        match (&self.name, self.get_keyring()) {
            (Some(name), _) => name.clone(),
            (None, Some(keyring)) => keyring.display(),
            (None, None) => generated.to_owned(),
        }
    }

    /// The name of the node, or an input error that tells why the name is
    /// not valid.
    pub fn node_name(&self, generated: &str) -> (name: Result<String, Error>)
        requires
            node_name_checkable(self.spec_chosen_node_name(generated@)),
        ensures
            ({
                let chosen = self.spec_chosen_node_name(generated@);
                match node_name_verdict(
                    chosen,
                    regex_is_match(INVALID_CHARS@, chosen),
                    regex_is_match(INVALID_PATTERNS@, chosen),
                ) {
                    Ok(()) => name matches Ok(valid) && valid@ == chosen,
                    Err(reason) => name matches Err(e) && e.message() == invalid_node_name_message(
                        chosen,
                        reason,
                    ),
                }
            }),
    {
        let name = self.chosen_node_name(generated);
        match is_node_name_valid(name.as_str()) {
            Ok(()) => Ok(name),
            Err(reason) => {
                let mut message = "Invalid node name '".to_owned();
                message.append(name.as_str());
                message.append("'. Reason: ");
                message.append(reason);
                message.append(". If unsure, use none.");
                Err(Error::Input(message))
            },
        }
    }

    /// The name of the node where its name can be checked, and `None` where
    /// a search that the check depends on cannot be made.
    pub fn try_node_name(&self, generated: &str) -> (name: Option<Result<String, Error>>)
        ensures
            name is Some <==> node_name_checkable(self.spec_chosen_node_name(generated@)),
            name matches Some(found) ==> ({
                let chosen = self.spec_chosen_node_name(generated@);
                match node_name_verdict(
                    chosen,
                    regex_is_match(INVALID_CHARS@, chosen),
                    regex_is_match(INVALID_PATTERNS@, chosen),
                ) {
                    Ok(()) => found matches Ok(valid) && valid@ == chosen,
                    Err(reason) => found matches Err(e) && e.message() == invalid_node_name_message(
                        chosen,
                        reason,
                    ),
                }
            }),
    {
        let chosen = self.chosen_node_name(generated);
        match check_node_name(chosen.as_str()) {
            Some(_) => Some(self.node_name(generated)),
            None => None,
        }
    }

    /// The seed of the development key: that of the selected account, else
    /// Alice's in development mode, else none.
    pub open spec fn spec_dev_key_seed(&self, is_dev: bool) -> Option<Seq<char>> {
        match self.spec_get_keyring() {
            Some(keyring) => Some("//"@ + keyring.spec_name()),
            None => if is_dev {
                Some("//Alice"@)
            } else {
                None
            },
        }
    }

    /// The seed of the development key.
    pub fn dev_key_seed(&self, is_dev: bool) -> (seed: Result<Option<String>, Error>)
        ensures
            seed matches Ok(found) && found.deep_view() == self.spec_dev_key_seed(is_dev),
    {
        match self.get_keyring() {
            Some(keyring) => {
                let name = keyring.display();
                Ok(Some("//".to_owned().concat(name.as_str())))
            },
            None => {
                if is_dev {
                    Ok(Some("//Alice".to_owned()))
                } else {
                    Ok(None)
                }
            },
        }
    }

    /// Where the telemetry endpoints come from: nowhere if telemetry is
    /// switched off, else from the parameters if they name any, else from
    /// the chain specification.
    pub open spec fn spec_telemetry_source(&self) -> TelemetrySource {
        if self.telemetry_params.no_telemetry {
            TelemetrySource::Disabled
        } else if self.telemetry_params.telemetry_endpoints@.len() > 0 {
            TelemetrySource::Parameters
        } else {
            TelemetrySource::ChainSpec
        }
    }

    /// Where the telemetry endpoints come from.
    #[verifier::when_used_as_spec(spec_telemetry_source)]
    pub fn telemetry_source(&self) -> (source: TelemetrySource)
        ensures
            source == self.spec_telemetry_source(),
    {
        if self.telemetry_params.no_telemetry {
            TelemetrySource::Disabled
        } else if !self.telemetry_params.telemetry_endpoints.is_empty() {
            TelemetrySource::Parameters
        } else {
            TelemetrySource::ChainSpec
        }
    }

    /// Where the base path comes from: a temporary directory if the
    /// operator asks for one, else the path of the shared parameters if
    /// there is one, else a temporary directory in development mode, and
    /// nowhere otherwise.
    pub open spec fn spec_base_path_source(&self) -> BasePathSource {
        if self.tmp {
            BasePathSource::Temporary
        } else if self.shared_params.base_path is Some {
            BasePathSource::Parameters
        } else if self.shared_params.dev {
            BasePathSource::Temporary
        } else {
            BasePathSource::Unset
        }
    }

    /// Where the base path comes from.
    #[verifier::when_used_as_spec(spec_base_path_source)]
    pub fn base_path_source(&self) -> (source: BasePathSource)
        ensures
            source == self.spec_base_path_source(),
    {
        if self.tmp {
            BasePathSource::Temporary
        } else {
            match &self.shared_params.base_path {
                Some(_) => BasePathSource::Parameters,
                None => if self.shared_params.is_dev() {
                    BasePathSource::Temporary
                } else {
                    BasePathSource::Unset
                },
            }
        }
    }

    /// The parameters shared by all commands.
    pub fn shared_params(&self) -> (params: &SharedParams)
        ensures
            params == &self.shared_params,
    {
        &self.shared_params
    }

    /// Maximum number of RPC server connections.
    pub fn rpc_max_connections(&self) -> (connections: Result<u32, Error>)
        ensures
            connections matches Ok(n) && n == self.rpc_max_connections,
    {
        Ok(self.rpc_max_connections)
    }

    /// The RPC methods to expose.
    pub fn rpc_methods(&self) -> (methods: Result<RpcMethods, Error>)
        ensures
            methods matches Ok(m) && m == self.rpc_methods,
    {
        Ok(self.rpc_methods)
    }

    /// The maximum RPC request payload size in megabytes.
    pub fn rpc_max_request_size(&self) -> (size: Result<u32, Error>)
        ensures
            size matches Ok(n) && n == self.rpc_max_request_size,
    {
        Ok(self.rpc_max_request_size)
    }

    /// The maximum RPC response payload size in megabytes.
    pub fn rpc_max_response_size(&self) -> (size: Result<u32, Error>)
        ensures
            size matches Ok(n) && n == self.rpc_max_response_size,
    {
        Ok(self.rpc_max_response_size)
    }

    /// The maximum concurrent subscriptions per connection.
    pub fn rpc_max_subscriptions_per_connection(&self) -> (subscriptions: Result<u32, Error>)
        ensures
            subscriptions matches Ok(n) && n == self.rpc_max_subscriptions_per_connection,
    {
        Ok(self.rpc_max_subscriptions_per_connection)
    }

    /// The number of messages the RPC server keeps in memory per connection.
    pub fn rpc_buffer_capacity_per_connection(&self) -> (capacity: Result<u32, Error>)
        ensures
            capacity matches Ok(n) && n == self.rpc_message_buffer_capacity_per_connection,
    {
        Ok(self.rpc_message_buffer_capacity_per_connection)
    }

    /// The RPC rate limit in calls per minute for each connection.
    pub fn rpc_rate_limit(&self) -> (limit: Result<Option<RateLimit>, Error>)
        ensures
            limit matches Ok(l) && l == self.rpc_rate_limit,
    {
        Ok(self.rpc_rate_limit)
    }

    /// The networks that RPC rate limiting does not apply to.
    pub fn rpc_rate_limit_whitelisted_ips(&self) -> (networks: Result<Vec<IpNetwork>, Error>)
        ensures
            networks matches Ok(list) && list@ == self.rpc_rate_limit_whitelisted_ips@,
    {
        Ok(self.rpc_rate_limit_whitelisted_ips.clone())
    }

    /// Whether proxy headers are trusted for RPC rate limiting.
    pub fn rpc_rate_limit_trust_proxy_headers(&self) -> (trusted: Result<bool, Error>)
        ensures
            trusted matches Ok(flag) && flag == self.rpc_rate_limit_trust_proxy_headers,
    {
        Ok(self.rpc_rate_limit_trust_proxy_headers)
    }

    /// The size of the instances cache for each runtime.
    pub fn max_runtime_instances(&self) -> (instances: Result<Option<usize>, Error>)
        ensures
            instances matches Ok(n) && n == Some(self.runtime_params.max_runtime_instances),
    {
        Ok(Some(self.runtime_params.max_runtime_instances))
    }

    /// Maximum number of different runtimes that can be cached.
    pub fn runtime_cache_size(&self) -> (size: Result<u8, Error>)
        ensures
            size matches Ok(n) && n == self.runtime_params.runtime_cache_size,
    {
        Ok(self.runtime_params.runtime_cache_size)
    }
}

} // verus!
