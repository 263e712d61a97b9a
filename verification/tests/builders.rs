//! The container-definition collectors: arguments, environment,
//! ports, networks, volumes and mounts.

use tari_sdm::ids::TaskId;
use tari_sdm::image::{Args, Envs, Mount, Mounts, Networks, Ports, Volumes};

#[test]
fn args_collects_in_order() {
    let mut args = Args::default();
    args.set("--log-config", "/var/tari/config/log4rs.yml");
    args.flag("-n");
    args.set_pair("--watch", "status");
    let built = args.build();
    assert_eq!(
        built,
        vec![
            "--log-config=/var/tari/config/log4rs.yml".to_string(),
            "-n".to_string(),
            "--watch".to_string(),
            "status".to_string(),
        ]
    );
}

#[test]
fn envs_formats_name_value_pairs() {
    let mut envs = Envs::default();
    envs.set("TARI_NETWORK", "esmeralda");
    envs.set("APP_NAME", "base_node");
    assert_eq!(
        envs.build(),
        vec!["TARI_NETWORK=esmeralda".to_string(), "APP_NAME=base_node".to_string()]
    );
}

#[test]
fn ports_collects_in_order() {
    let mut ports = Ports::default();
    ports.add(18_142);
    ports.add(18_189);
    assert_eq!(ports.build(), vec![18_142, 18_189]);
}

#[test]
fn networks_pairs_hostnames_with_ids() {
    let mut networks = Networks::default();
    networks.add("base_node", TaskId::from_str("LocalNet"));
    let built = networks.build();
    assert_eq!(built.len(), 1);
    assert_eq!(built[0].0, "base_node");
    assert_eq!(built[0].1.as_str(), "LocalNet");
}

#[test]
fn volumes_collects_names() {
    let mut volumes = Volumes::default();
    volumes.add("/var/tari");
    volumes.add("/blockchain");
    assert_eq!(volumes.build(), vec!["/var/tari".to_string(), "/blockchain".to_string()]);
}

#[test]
fn mounts_collects_both_kinds() {
    let mut mounts = Mounts::default();
    mounts.bind_path("/home/user/data", "/var/tari");
    mounts.add_volume(TaskId::from_str("SharedVolume"), "/blockchain");
    let built = mounts.build();
    assert_eq!(built.len(), 2);
    match &built[0] {
        Mount::BindTo { source, target } => {
            assert_eq!(source, "/home/user/data");
            assert_eq!(target, "/var/tari");
        },
        _ => panic!("expected a bind mount first"),
    }
    match &built[1] {
        Mount::ToVolume { volume, target } => {
            assert_eq!(volume.as_str(), "SharedVolume");
            assert_eq!(target, "/blockchain");
        },
        _ => panic!("expected a volume mount second"),
    }
}
