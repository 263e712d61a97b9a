//! The deployment's configuration: which resources to run and with
//! what settings, the network selection, and the connection
//! settings shared by every container.
//!
//! Values the configuration takes from the host (a data directory
//! path, secrets) are held as plain strings, and time delays as
//! milliseconds, so the rules about them can be stated and proved;
//! the caller converts at the boundary.

use vstd::prelude::*;

use crate::config::ManagedProtocol;
use crate::image::Envs;
use crate::strutil::concat2;

verus! {

/// Returned when a network name is not one of the supported
/// networks.  Holds the rejected string.
#[derive(Debug)]
pub struct UnsupportedNetwork(String);

impl UnsupportedNetwork {
    /// The rejected network name.
    pub fn value(&self) -> (r: &str)
        ensures
            r@ == self.rejected(),
    {
        self.0.as_str()
    }

    pub closed spec fn rejected(&self) -> Seq<char> {
        self.0@
    }
}

/// The supported networks.
#[derive(Debug, Clone, Copy, PartialEq, Eq, Structural)]
pub enum TariNetwork {
    Dibbler,
    Esmeralda,
    Igor,
    Mainnet,
}

/// The lower-case name of each supported network.
pub open spec fn lower_name(n: TariNetwork) -> Seq<char> {
    match n {
        TariNetwork::Dibbler => "dibbler"@,
        TariNetwork::Esmeralda => "esmeralda"@,
        TariNetwork::Igor => "igor"@,
        TariNetwork::Mainnet => "mainnet"@,
    }
}

/// The upper-case name of each supported network.
pub open spec fn upper_name(n: TariNetwork) -> Seq<char> {
    match n {
        TariNetwork::Dibbler => "DIBBLER"@,
        TariNetwork::Esmeralda => "ESMERALDA"@,
        TariNetwork::Igor => "IGOR"@,
        TariNetwork::Mainnet => "MAINNET"@,
    }
}

impl TariNetwork {
    pub fn lower_case(self) -> (r: &'static str)
        ensures
            r@ == lower_name(self),
    {
        match self {
            TariNetwork::Dibbler => "dibbler",
            TariNetwork::Esmeralda => "esmeralda",
            TariNetwork::Igor => "igor",
            TariNetwork::Mainnet => "mainnet",
        }
    }

    pub fn upper_case(self) -> (r: &'static str)
        ensures
            r@ == upper_name(self),
    {
        match self {
            TariNetwork::Dibbler => "DIBBLER",
            TariNetwork::Esmeralda => "ESMERALDA",
            TariNetwork::Igor => "IGOR",
            TariNetwork::Mainnet => "MAINNET",
        }
    }

    /// Translates a lower-case network name; every other string is
    /// rejected.
    pub fn parse(value: &str) -> (r: Result<TariNetwork, UnsupportedNetwork>)
        ensures
            value@ == "dibbler"@ ==> r == Ok::<TariNetwork, UnsupportedNetwork>(
                TariNetwork::Dibbler,
            ),
            value@ == "esmeralda"@ ==> r == Ok::<TariNetwork, UnsupportedNetwork>(
                TariNetwork::Esmeralda,
            ),
            value@ == "igor"@ ==> r == Ok::<TariNetwork, UnsupportedNetwork>(TariNetwork::Igor),
            value@ == "mainnet"@ ==> r == Ok::<TariNetwork, UnsupportedNetwork>(
                TariNetwork::Mainnet,
            ),
            value@ != "dibbler"@ && value@ != "esmeralda"@ && value@ != "igor"@ && value@
                != "mainnet"@ ==> (r matches Err(e) && e.rejected() == value@),
    {
        proof {
            reveal_strlit("dibbler");
            reveal_strlit("esmeralda");
            reveal_strlit("igor");
            reveal_strlit("mainnet");
            assert("dibbler"@.len() == 7);
            assert("esmeralda"@.len() == 9);
            assert("igor"@.len() == 4);
            assert("mainnet"@.len() == 7);
            assert("dibbler"@[0] == 'd' && "mainnet"@[0] == 'm');
        }
        if crate::strutil::str_eq(value, "dibbler") {
            Ok(TariNetwork::Dibbler)
        } else if crate::strutil::str_eq(value, "esmeralda") {
            Ok(TariNetwork::Esmeralda)
        } else if crate::strutil::str_eq(value, "igor") {
            Ok(TariNetwork::Igor)
        } else if crate::strutil::str_eq(value, "mainnet") {
            Ok(TariNetwork::Mainnet)
        } else {
            Err(UnsupportedNetwork(value.to_owned()))
        }
    }
}

/// The default network.
impl Default for TariNetwork {
    fn default() -> (r: Self)
        ensures
            r == TariNetwork::Esmeralda,
    {
        TariNetwork::Esmeralda
    }
}

/// Settings of the base node container.  `delay` is the time to
/// wait before starting the node executable, in milliseconds.
#[derive(Debug, Clone, Copy)]
pub struct BaseNodeConfig {
    pub delay: u64,
}

impl Default for BaseNodeConfig {
    fn default() -> (r: Self)
        ensures
            r.delay == 0,
    {
        BaseNodeConfig { delay: 0 }
    }
}

/// Settings of the wallet container: the start delay in
/// milliseconds and the password that encrypts the wallet
/// database.
#[derive(Debug)]
pub struct WalletConfig {
    pub delay: u64,
    pub password: String,
}

impl Clone for WalletConfig {
    fn clone(&self) -> (r: Self)
        ensures
            r == *self,
    {
        WalletConfig { delay: self.delay, password: self.password.clone() }
    }
}

impl Default for WalletConfig {
    fn default() -> (r: Self)
        ensures
            r.delay == 0,
            r.password@ == Seq::<char>::empty(),
    {
        WalletConfig { delay: 0, password: String::new() }
    }
}

/// Settings of the Monero miner container.
#[derive(Debug)]
pub struct XmRigConfig {
    pub delay: u64,
    /// The address that accepts the mining rewards.
    pub monero_mining_address: String,
}

impl Clone for XmRigConfig {
    fn clone(&self) -> (r: Self)
        ensures
            r == *self,
    {
        XmRigConfig {
            delay: self.delay,
            monero_mining_address: self.monero_mining_address.clone(),
        }
    }
}

impl Default for XmRigConfig {
    fn default() -> (r: Self)
        ensures
            r.delay == 0,
            r.monero_mining_address@ == Seq::<char>::empty(),
    {
        XmRigConfig { delay: 0, monero_mining_address: String::new() }
    }
}

/// Settings of the SHA3 miner container.
#[derive(Debug, Clone, Copy)]
pub struct Sha3MinerConfig {
    pub delay: u64,
    /// The number of mining threads to employ.
    pub num_mining_threads: usize,
}

impl Default for Sha3MinerConfig {
    fn default() -> (r: Self)
        ensures
            r.delay == 0,
            r.num_mining_threads == 0,
    {
        Sha3MinerConfig { delay: 0, num_mining_threads: 0 }
    }
}

/// The Monero daemons the merge-mining proxy connects to unless
/// the configuration names others.
pub const DEFAULT_MONEROD_URL: &'static str = "http://stagenet.xmr-tw.org:38081,http://stagenet.community.xmr.to:38081,http://monero-stagenet.exan.tech:38081,http://xmr-lux.boldsuck.org:38081,http://singapore.node.xmr.pm:38081";

/// Settings of the merge-mining proxy container.
#[derive(Debug)]
pub struct MmProxyConfig {
    pub delay: u64,
    pub monerod_url: String,
    pub monero_username: String,
    pub monero_password: String,
    /// Whether to hand the username and password to the daemon.
    pub monero_use_auth: bool,
}

impl Default for MmProxyConfig {
    fn default() -> (r: Self)
        ensures
            r.delay == 5000,
            r.monerod_url@ == DEFAULT_MONEROD_URL@,
            r.monero_username@ == Seq::<char>::empty(),
            r.monero_password@ == Seq::<char>::empty(),
            !r.monero_use_auth,
    {
        MmProxyConfig {
            delay: 5000,
            monerod_url: DEFAULT_MONEROD_URL.to_owned(),
            monero_username: String::new(),
            monero_password: String::new(),
            monero_use_auth: false,
        }
    }
}

impl Clone for MmProxyConfig {
    fn clone(&self) -> (r: Self)
        ensures
            r == *self,
    {
        MmProxyConfig {
            delay: self.delay,
            monerod_url: self.monerod_url.clone(),
            monero_username: self.monero_username.clone(),
            monero_password: self.monero_password.clone(),
            monero_use_auth: self.monero_use_auth,
        }
    }
}

impl MmProxyConfig {
    /// The auth flag as the 0-or-1 number the proxy's command line
    /// takes.
    pub fn monero_use_auth(&self) -> (r: usize)
        ensures
            r == (if self.monero_use_auth {
                1usize
            } else {
                0usize
            }),
    {
        if self.monero_use_auth {
            1
        } else {
            0
        }
    }
}

/// The deployment's whole configuration.  Replaced wholesale by
/// every `SetConfig`; a resource is run exactly when its section is
/// present.
#[derive(Debug)]
pub struct LaunchpadConfig {
    /// The host directory for config, id files and logs.
    pub data_directory: String,
    pub tari_network: TariNetwork,
    /// The tor control password shared among the containers.
    pub tor_control_password: String,
    pub base_node: Option<BaseNodeConfig>,
    pub wallet: Option<WalletConfig>,
    pub sha3_miner: Option<Sha3MinerConfig>,
    pub mm_proxy: Option<MmProxyConfig>,
    pub xmrig: Option<XmRigConfig>,
    /// The registry to download images from, if not the default.
    pub registry: Option<String>,
    /// The image tag to use, if not the default.
    pub tag: Option<String>,
    pub with_monitoring: bool,
}

impl Clone for LaunchpadConfig {
    fn clone(&self) -> (r: Self)
        ensures
            r == *self,
    {
        let r = LaunchpadConfig {
            data_directory: self.data_directory.clone(),
            tari_network: self.tari_network,
            tor_control_password: self.tor_control_password.clone(),
            base_node: self.base_node.clone(),
            wallet: self.wallet.clone(),
            sha3_miner: self.sha3_miner.clone(),
            mm_proxy: self.mm_proxy.clone(),
            xmrig: self.xmrig.clone(),
            registry: self.registry.clone(),
            tag: self.tag.clone(),
            with_monitoring: self.with_monitoring,
        };
        proof {
            assert(r.wallet == self.wallet) by {
                match self.wallet {
                    Some(w) => assert(r.wallet matches Some(v) && v == w),
                    None => assert(r.wallet is None),
                }
            }
            assert(r.mm_proxy == self.mm_proxy) by {
                match self.mm_proxy {
                    Some(m) => assert(r.mm_proxy matches Some(v) && v == m),
                    None => assert(r.mm_proxy is None),
                }
            }
            assert(r.xmrig == self.xmrig) by {
                match self.xmrig {
                    Some(x) => assert(r.xmrig matches Some(v) && v == x),
                    None => assert(r.xmrig is None),
                }
            }
            assert(r.base_node == self.base_node) by {
                match self.base_node {
                    Some(b) => assert(r.base_node matches Some(v) && v == b),
                    None => assert(r.base_node is None),
                }
            }
            assert(r.sha3_miner == self.sha3_miner) by {
                match self.sha3_miner {
                    Some(m) => assert(r.sha3_miner matches Some(v) && v == m),
                    None => assert(r.sha3_miner is None),
                }
            }
            assert(r.registry == self.registry) by {
                match self.registry {
                    Some(m) => assert(r.registry matches Some(v) && v@ == m@),
                    None => assert(r.registry is None),
                }
            }
            assert(r.tag == self.tag) by {
                match self.tag {
                    Some(m) => assert(r.tag matches Some(v) && v@ == m@),
                    None => assert(r.tag is None),
                }
            }
        }
        r
    }
}

impl Default for LaunchpadConfig {
    fn default() -> (r: Self)
        ensures
            r.data_directory@ == Seq::<char>::empty(),
            r.tari_network == TariNetwork::Esmeralda,
            r.tor_control_password@ == Seq::<char>::empty(),
            r.base_node is None,
            r.wallet is None,
            r.sha3_miner is None,
            r.mm_proxy is None,
            r.xmrig is None,
            r.registry is None,
            r.tag is None,
            !r.with_monitoring,
    {
        LaunchpadConfig {
            data_directory: String::new(),
            tari_network: TariNetwork::Esmeralda,
            tor_control_password: String::new(),
            base_node: None,
            wallet: None,
            sha3_miner: None,
            mm_proxy: None,
            xmrig: None,
            registry: None,
            tag: None,
            with_monitoring: false,
        }
    }
}

/// The protocol parameter of this deployment: its configuration
/// and its inner event payload.
#[derive(Debug)]
pub struct LaunchpadProtocol;

impl ManagedProtocol for LaunchpadProtocol {
    type Config = LaunchpadConfig;

    type Inner = LaunchpadInnerEvent;
}

/// Resource-specific data broadcast beyond plain readiness: the
/// identities the node and the wallet publish once they are
/// reachable.
#[derive(Debug, Clone)]
pub enum LaunchpadInnerEvent {
    IdentityReady(BaseNodeIdentity),
    WalletIdentityReady(WalletIdentity),
}

/// The network identity the base node publishes to its dependents.
#[derive(Debug, Clone)]
pub struct BaseNodeIdentity {
    pub public_key: Vec<u8>,
    pub public_address: String,
    node_id: Vec<u8>,
    emoji_id: String,
}

impl BaseNodeIdentity {
    pub closed spec fn public_key_view(&self) -> Seq<u8> {
        self.public_key@
    }

    pub closed spec fn public_address_view(&self) -> Seq<char> {
        self.public_address@
    }

    pub closed spec fn node_id_view(&self) -> Seq<u8> {
        self.node_id@
    }

    pub closed spec fn emoji_id_view(&self) -> Seq<char> {
        self.emoji_id@
    }

    pub fn new(public_key: Vec<u8>, public_address: String, node_id: Vec<u8>, emoji_id: String)
        -> (r: Self)
        ensures
            r.public_key_view() == public_key@,
            r.public_address_view() == public_address@,
            r.node_id_view() == node_id@,
            r.emoji_id_view() == emoji_id@,
    {
        BaseNodeIdentity { public_key, public_address, node_id, emoji_id }
    }

    pub fn node_id(&self) -> (r: &Vec<u8>)
        ensures
            r@ == self.node_id_view(),
    {
        &self.node_id
    }

    pub fn emoji_id(&self) -> (r: &str)
        ensures
            r@ == self.emoji_id_view(),
    {
        self.emoji_id.as_str()
    }
}

/// The identity the wallet publishes.
#[derive(Debug, Clone)]
pub struct WalletIdentity {
    public_key: Vec<u8>,
    public_address: String,
    node_id: Vec<u8>,
    emoji_id: String,
}

impl WalletIdentity {
    pub fn new(public_key: Vec<u8>, public_address: String, node_id: Vec<u8>, emoji_id: String)
        -> (r: Self)
        ensures
            r.public_key_view() == public_key@,
            r.public_address_view() == public_address@,
            r.node_id_view() == node_id@,
            r.emoji_id_view() == emoji_id@,
    {
        WalletIdentity { public_key, public_address, node_id, emoji_id }
    }

    pub closed spec fn public_key_view(&self) -> Seq<u8> {
        self.public_key@
    }

    pub closed spec fn public_address_view(&self) -> Seq<char> {
        self.public_address@
    }

    pub closed spec fn node_id_view(&self) -> Seq<u8> {
        self.node_id@
    }

    pub closed spec fn emoji_id_view(&self) -> Seq<char> {
        self.emoji_id@
    }

    pub fn public_address(&self) -> (r: &str)
        ensures
            r@ == self.public_address_view(),
    {
        self.public_address.as_str()
    }
}

/// The connection settings every Tari container shares, distilled
/// from the configuration.
#[derive(Debug)]
pub struct ConnectionSettings {
    pub tor_password: String,
    pub tari_network: TariNetwork,
    pub data_directory: String,
    pub wallet_password: String,
}

impl ConnectionSettings {
    /// Distills the shared settings out of a configuration; the
    /// wallet password is empty when no wallet section is present.
    pub fn from_config(config: &LaunchpadConfig) -> (r: Self)
        ensures
            r.tor_password@ == config.tor_control_password@,
            r.tari_network == config.tari_network,
            r.data_directory@ == config.data_directory@,
            r.wallet_password@ == (match config.wallet {
                Some(w) => w.password@,
                None => Seq::<char>::empty(),
            }),
    {
        let wallet_password = match &config.wallet {
            Some(w) => w.password.clone(),
            None => String::new(),
        };
        ConnectionSettings {
            tor_password: config.tor_control_password.clone(),
            tari_network: config.tari_network,
            data_directory: config.data_directory.clone(),
            wallet_password,
        }
    }

    /// Appends the tor control authentication to the environment.
    pub fn add_tor(&self, envs: &mut Envs)
        ensures
            final(envs)@ == old(envs)@.push(
                "TARI_BASE_NODE__P2P__TRANSPORT__TOR__CONTROL_AUTH"@ + "="@ + ("password="@
                    + self.tor_password@),
            ),
    {
        let value = concat2("password=", self.tor_password.as_str());
        envs.set("TARI_BASE_NODE__P2P__TRANSPORT__TOR__CONTROL_AUTH", value.as_str());
    }

    /// Appends the variables every Tari container needs: the
    /// network, the data folder, the log configuration and the
    /// search path.
    pub fn add_common(&self, envs: &mut Envs)
        ensures
            final(envs)@ == old(envs)@.push("TARI_NETWORK"@ + "="@ + lower_name(self.tari_network))
                .push("DATA_FOLDER"@ + "="@ + self.data_directory@).push(
                "TARI_LOG_CONFIGURATION"@ + "="@ + "/var/tari/config/log4rs.yml"@,
            ).push(
                "PATH"@ + "="@ + "/usr/local/sbin:/usr/local/bin:/usr/sbin:/usr/bin:/sbin:/bin"@,
            ),
    {
        envs.set("TARI_NETWORK", self.tari_network.lower_case());
        envs.set("DATA_FOLDER", self.data_directory.as_str());
        envs.set("TARI_LOG_CONFIGURATION", "/var/tari/config/log4rs.yml");
        envs.set("PATH", "/usr/local/sbin:/usr/local/bin:/usr/sbin:/usr/bin:/sbin:/bin");
    }
}

} // verus!
