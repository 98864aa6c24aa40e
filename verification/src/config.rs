//! Configuration of the p2p subsystem, and the on-disk configuration-file
//! shapes that produce it.

use vstd::prelude::*;

verus! {

/// Default interval (in milliseconds) at which to poll the network for new
/// peers over multicast DNS.
pub const MDNS_DEFAULT_QUERY_INTERVAL: u64 = 0;
/// Whether multicast DNS discovery over IPv6 is on by default.
pub const MDNS_DEFAULT_IPV6_STATE: bool = false;

/// Default bound on the number of headers in one header-list response.
pub const DEFAULT_MSG_HEADER_COUNT_LIMIT: usize = 2000;
/// Default bound on the number of ids in a locator.
pub const DEFAULT_MSG_MAX_LOCATOR_COUNT: usize = 101;
/// Default bound on the number of blocks requested from one peer at a time.
pub const DEFAULT_MAX_REQUEST_BLOCKS_COUNT: usize = 500;

/// Multicast DNS configuration.
#[derive(Debug, Clone, PartialEq, Eq, Structural)]
pub enum MdnsConfig {
    Enabled { query_interval: u64, enable_ipv6_mdns_discovery: bool },
    Disabled,
}

/// The p2p subsystem configuration.
#[derive(Debug, Clone)]
pub struct P2pConfig {
    /// Address to bind P2P to.
    pub bind_address: String,
    /// The score threshold after which a peer is banned.
    pub ban_threshold: u32,
    /// The outbound connection timeout value in seconds.
    pub outbound_connection_timeout: u64,
    /// Multicast DNS configuration.
    pub mdns_config: MdnsConfig,
    /// Bound on the number of headers in one header-list response.
    pub msg_header_count_limit: usize,
    /// Bound on the number of ids in a locator.
    pub msg_max_locator_count: usize,
    /// Bound on the number of blocks requested from one peer at a time.
    pub max_request_blocks_count: usize,
    /// Deadline in seconds for completing an outstanding block batch.
    pub sync_stalling_timeout: u64,
}

/// Multicast DNS configuration as read from the configuration file.
#[derive(Debug, Clone, PartialEq, Eq, Structural)]
pub enum MdnsConfigFile {
    Enabled { query_interval: u64, enable_ipv6_mdns_discovery: bool },
    Disabled,
}

impl MdnsConfigFile {
    pub fn new() -> (r: Self)
        ensures
            r == MdnsConfigFile::Disabled,
    {
        MdnsConfigFile::Disabled
    }

    /// Builds the configuration from command-line style options.
    ///
    /// Specifying a query interval or the IPv6 flag while mDNS is disabled is
    /// an inconsistent combination and is excluded by the precondition.
    pub fn from_options(
        enable_mdns: bool,
        query_interval: Option<u64>,
        enable_ipv6_mdns_discovery: Option<bool>,
    ) -> (r: Self)
        requires
            !enable_mdns ==> query_interval is None && enable_ipv6_mdns_discovery is None,
        ensures
            enable_mdns ==> r == (MdnsConfigFile::Enabled {
                query_interval: if query_interval is Some {
                    query_interval->0
                } else {
                    MDNS_DEFAULT_QUERY_INTERVAL
                },
                enable_ipv6_mdns_discovery: if enable_ipv6_mdns_discovery is Some {
                    enable_ipv6_mdns_discovery->0
                } else {
                    MDNS_DEFAULT_IPV6_STATE
                },
            }),
            !enable_mdns ==> r == MdnsConfigFile::Disabled,
    {
        if enable_mdns {
            MdnsConfigFile::Enabled {
                query_interval: match query_interval {
                    Some(i) => i,
                    None => MDNS_DEFAULT_QUERY_INTERVAL,
                },
                enable_ipv6_mdns_discovery: match enable_ipv6_mdns_discovery {
                    Some(b) => b,
                    None => MDNS_DEFAULT_IPV6_STATE,
                },
            }
        } else {
            MdnsConfigFile::Disabled
        }
    }

    pub fn into_mdns_config(self) -> (r: MdnsConfig)
        ensures
            r == self.spec_mdns_config(),
    {
        match self {
            MdnsConfigFile::Enabled { query_interval, enable_ipv6_mdns_discovery } => {
                MdnsConfig::Enabled { query_interval, enable_ipv6_mdns_discovery }
            },
            MdnsConfigFile::Disabled => MdnsConfig::Disabled,
        }
    }

    /// The runtime configuration this file entry denotes.
    pub open spec fn spec_mdns_config(self) -> MdnsConfig {
        match self {
            MdnsConfigFile::Enabled { query_interval, enable_ipv6_mdns_discovery } => {
                MdnsConfig::Enabled { query_interval, enable_ipv6_mdns_discovery }
            },
            MdnsConfigFile::Disabled => MdnsConfig::Disabled,
        }
    }
}

/// The p2p subsystem configuration as read from the configuration file.
#[derive(Debug, Clone)]
pub struct P2pConfigFile {
    /// Address to bind P2P to.
    pub bind_address: String,
    /// The score threshold after which a peer is banned.
    pub ban_threshold: u32,
    /// The outbound connection timeout value in seconds.
    pub outbound_connection_timeout: u64,
    /// Multicast DNS configuration.
    pub mdns_config: MdnsConfigFile,
}

impl P2pConfigFile {
    /// Creates a new p2p configuration instance with the default values.
    pub fn new() -> (r: Self)
        ensures
            r.ban_threshold == 100,
            r.outbound_connection_timeout == 10,
            r.mdns_config == MdnsConfigFile::Disabled,
    {
        Self {
            bind_address: "/ip6/::1/tcp/3031".to_string(),
            ban_threshold: 100,
            outbound_connection_timeout: 10,
            mdns_config: MdnsConfigFile::Disabled,
        }
    }

    /// Turns the file contents into the runtime configuration; the message
    /// limits that the file does not carry take their default values.
    pub fn into_p2p_config(self) -> (r: P2pConfig)
        ensures
            r.bind_address == self.bind_address,
            r.ban_threshold == self.ban_threshold,
            r.outbound_connection_timeout == self.outbound_connection_timeout,
            r.mdns_config == self.mdns_config.spec_mdns_config(),
            r.msg_header_count_limit == DEFAULT_MSG_HEADER_COUNT_LIMIT,
            r.msg_max_locator_count == DEFAULT_MSG_MAX_LOCATOR_COUNT,
            r.max_request_blocks_count == DEFAULT_MAX_REQUEST_BLOCKS_COUNT,
    {
        P2pConfig {
            bind_address: self.bind_address,
            ban_threshold: self.ban_threshold,
            outbound_connection_timeout: self.outbound_connection_timeout,
            mdns_config: self.mdns_config.into_mdns_config(),
            msg_header_count_limit: DEFAULT_MSG_HEADER_COUNT_LIMIT,
            msg_max_locator_count: DEFAULT_MSG_MAX_LOCATOR_COUNT,
            max_request_blocks_count: DEFAULT_MAX_REQUEST_BLOCKS_COUNT,
            sync_stalling_timeout: 25,
        }
    }
}

impl Default for P2pConfigFile {
    fn default() -> (r: Self)
        ensures
            r.ban_threshold == 100,
            r.outbound_connection_timeout == 10,
            r.mdns_config == MdnsConfigFile::Disabled,
    {
        Self::new()
    }
}

} // verus!
