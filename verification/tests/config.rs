//! The deployment configuration types, the shared connection
//! settings, the protocol state, and the base node's readiness
//! judgement.

use tari_sdm::image::checker::{CheckerEvent, ContainerChecker, ReadyIfStarted};
use tari_sdm::image::Envs;
use tari_sdm::launchpad::checkers::Checker;
use tari_sdm::launchpad::config::{
    ConnectionSettings, LaunchpadConfig, MmProxyConfig, TariNetwork, WalletConfig,
    DEFAULT_MONEROD_URL,
};
use tari_sdm::launchpad::local_state::{LocalState, LocalStateDelta, Scene};
use tari_sdm::launchpad::config::{BaseNodeIdentity, LaunchpadInnerEvent, WalletIdentity};
use tari_sdm::launchpad::state::{
    ContainerRecord, Incoming, LaunchpadAction, LaunchpadDelta, LaunchpadState, Outgoing,
};
use tari_sdm::scope::ControlEvent;

#[test]
fn network_names_round_both_cases() {
    assert_eq!(TariNetwork::Dibbler.lower_case(), "dibbler");
    assert_eq!(TariNetwork::Esmeralda.lower_case(), "esmeralda");
    assert_eq!(TariNetwork::Igor.lower_case(), "igor");
    assert_eq!(TariNetwork::Mainnet.lower_case(), "mainnet");
    assert_eq!(TariNetwork::Dibbler.upper_case(), "DIBBLER");
    assert_eq!(TariNetwork::Esmeralda.upper_case(), "ESMERALDA");
    assert_eq!(TariNetwork::Igor.upper_case(), "IGOR");
    assert_eq!(TariNetwork::Mainnet.upper_case(), "MAINNET");
}

#[test]
fn network_parse_accepts_the_four_networks() {
    assert_eq!(TariNetwork::parse("dibbler").unwrap(), TariNetwork::Dibbler);
    assert_eq!(TariNetwork::parse("esmeralda").unwrap(), TariNetwork::Esmeralda);
    assert_eq!(TariNetwork::parse("igor").unwrap(), TariNetwork::Igor);
    assert_eq!(TariNetwork::parse("mainnet").unwrap(), TariNetwork::Mainnet);
}

#[test]
fn network_parse_rejects_other_names() {
    let err = TariNetwork::parse("ESMERALDA").unwrap_err();
    assert_eq!(err.value(), "ESMERALDA");
    assert!(TariNetwork::parse("testnet").is_err());
}

#[test]
fn default_network_is_esmeralda() {
    assert_eq!(TariNetwork::default(), TariNetwork::Esmeralda);
}

#[test]
fn mm_proxy_defaults_match_the_documented_daemons() {
    let config = MmProxyConfig::default();
    assert_eq!(config.delay, 5000);
    assert_eq!(config.monerod_url, DEFAULT_MONEROD_URL);
    assert_eq!(config.monero_username, "");
    assert_eq!(config.monero_password, "");
    assert!(!config.monero_use_auth);
    assert_eq!(config.monero_use_auth(), 0);
    let with_auth = MmProxyConfig { monero_use_auth: true, ..MmProxyConfig::default() };
    assert_eq!(with_auth.monero_use_auth(), 1);
}

#[test]
fn launchpad_config_defaults_run_nothing() {
    let config = LaunchpadConfig::default();
    assert!(config.base_node.is_none());
    assert!(config.wallet.is_none());
    assert!(config.sha3_miner.is_none());
    assert!(config.mm_proxy.is_none());
    assert!(config.xmrig.is_none());
    assert!(!config.with_monitoring);
    assert_eq!(config.tari_network, TariNetwork::Esmeralda);
}

#[test]
fn connection_settings_distill_the_configuration() {
    let mut config = LaunchpadConfig::default();
    config.tor_control_password = "tari".to_string();
    config.data_directory = "/home/user/launchpad".to_string();
    config.wallet = Some(WalletConfig { delay: 0, password: "secret".to_string() });
    let settings = ConnectionSettings::from_config(&config);
    assert_eq!(settings.tor_password, "tari");
    assert_eq!(settings.data_directory, "/home/user/launchpad");
    assert_eq!(settings.wallet_password, "secret");

    config.wallet = None;
    let settings = ConnectionSettings::from_config(&config);
    assert_eq!(settings.wallet_password, "");
}

#[test]
fn connection_settings_build_the_common_environment() {
    let mut config = LaunchpadConfig::default();
    config.tor_control_password = "tari".to_string();
    config.data_directory = "/data".to_string();
    let settings = ConnectionSettings::from_config(&config);

    let mut envs = Envs::default();
    settings.add_common(&mut envs);
    settings.add_tor(&mut envs);
    assert_eq!(
        envs.build(),
        vec![
            "TARI_NETWORK=esmeralda".to_string(),
            "DATA_FOLDER=/data".to_string(),
            "TARI_LOG_CONFIGURATION=/var/tari/config/log4rs.yml".to_string(),
            "PATH=/usr/local/sbin:/usr/local/bin:/usr/sbin:/usr/bin:/sbin:/bin".to_string(),
            "TARI_BASE_NODE__P2P__TRANSPORT__TOR__CONTROL_AUTH=password=tari".to_string(),
        ]
    );
}

#[test]
fn launchpad_state_apply_replaces_the_config() {
    let mut state = LaunchpadState {
        config: LaunchpadConfig::default(),
        containers: vec![("Tor".to_string(), "scope_tor".to_string())],
    };
    let mut next = LaunchpadConfig::default();
    next.with_monitoring = true;
    state.apply(LaunchpadDelta::UpdateConfig(next));
    assert!(state.config.with_monitoring);
    assert_eq!(state.containers.len(), 1);
}

#[test]
fn local_state_apply_sets_the_scene() {
    let mut state = LocalState::default();
    assert_eq!(state.scene, Scene::BaseNode);
    state.apply(LocalStateDelta::SetScene(Scene::Mining));
    assert_eq!(state.scene, Scene::Mining);
    assert_eq!(state.scene.title(), "Mining");
    assert_eq!(Scene::BaseNode.title(), "Base Node");
    assert_eq!(Scene::Wallet.title(), "Wallet");
}

#[test]
fn sync_checker_judges_heights() {
    let checker = Checker::new();
    assert_eq!(checker.evaluate(10, 10), CheckerEvent::Ready);
    assert_eq!(checker.evaluate(0, 0), CheckerEvent::Progress(0));
    assert_eq!(checker.evaluate(5, 10), CheckerEvent::Progress(50));
    assert_eq!(checker.evaluate(1, 3), CheckerEvent::Progress(33));
    assert_eq!(checker.evaluate(20, 10), CheckerEvent::Progress(100));
    assert_eq!(checker.evaluate(0, 7), CheckerEvent::Progress(0));
}

#[test]
fn ready_if_started_reports_ready_immediately() {
    let mut checker = ReadyIfStarted;
    assert_eq!(checker.on_interval(), Some(CheckerEvent::Ready));
    assert_eq!(checker.on_log_line("anything"), None);
}

#[test]
fn identities_keep_their_fields() {
    let identity = BaseNodeIdentity::new(
        vec![1, 2, 3],
        "/ip4/127.0.0.1/tcp/18189".to_string(),
        vec![9, 9],
        "emoji".to_string(),
    );
    assert_eq!(identity.public_key, vec![1, 2, 3]);
    assert_eq!(identity.public_address, "/ip4/127.0.0.1/tcp/18189");
    assert_eq!(identity.node_id(), &vec![9, 9]);
    assert_eq!(identity.emoji_id(), "emoji");
    let event = LaunchpadInnerEvent::IdentityReady(identity.clone());
    assert!(matches!(event, LaunchpadInnerEvent::IdentityReady(_)));

    let wallet = WalletIdentity::new(
        vec![4],
        "/ip4/127.0.0.1/tcp/18188".to_string(),
        vec![],
        "w".to_string(),
    );
    assert_eq!(wallet.public_address(), "/ip4/127.0.0.1/tcp/18188");
}

#[test]
fn interface_messages_carry_their_payloads() {
    let incoming = Incoming::Action(LaunchpadAction::Connect);
    assert!(matches!(incoming, Incoming::Action(LaunchpadAction::Connect)));
    assert!(matches!(Incoming::Start, Incoming::Start));

    let state = LaunchpadState { config: LaunchpadConfig::default(), containers: Vec::new() };
    let outgoing = Outgoing::StateIsReady(state);
    assert!(matches!(outgoing, Outgoing::StateIsReady(_)));

    let mut record = ContainerRecord { logs: std::collections::VecDeque::new() };
    record.logs.push_back("line".to_string());
    assert_eq!(record.logs.len(), 1);
}

#[test]
fn start_publishes_the_configuration_in_force() {
    let mut config = LaunchpadConfig::default();
    config.with_monitoring = true;
    let state = LaunchpadState { config, containers: Vec::new() };

    match state.process_incoming(&Incoming::Start) {
        Some(ControlEvent::SetConfig(Some(published))) => {
            assert!(published.with_monitoring);
        },
        _ => panic!("expected a configuration broadcast"),
    }
    assert!(state.process_incoming(&Incoming::Action(LaunchpadAction::Connect)).is_none());
}
