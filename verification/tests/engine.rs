//! Whole-runner scenarios: registration, dependency gating,
//! provisioning, readiness edges, and recovery after external
//! deletion.

use tari_sdm::ids::{ManagedTask, TaskId};
use tari_sdm::image;
use tari_sdm::image::checker::CheckerEvent;
use tari_sdm::image::{ImageTask, ManagedContainer};
use tari_sdm::launchpad::config::{
    BaseNodeIdentity, LaunchpadConfig, LaunchpadInnerEvent, LaunchpadProtocol,
};
use tari_sdm::launchpad::networks::LocalNet;
use tari_sdm::launchpad::volumes::SharedVolume;
use tari_sdm::network;
use tari_sdm::network::NetworkTask;
use tari_sdm::scope::ControlEvent;
use tari_sdm::status::Fallback;
use tari_sdm::task::SdmTaskRunner;
use tari_sdm::volume;
use tari_sdm::volume::VolumeTask;

#[derive(Debug, Default)]
struct TestNode {
    identity: Option<BaseNodeIdentity>,
}

impl ManagedTask for TestNode {
    fn id() -> TaskId {
        TaskId::from_str("TestNode")
    }

    fn deps() -> Vec<TaskId> {
        vec![LocalNet::id(), SharedVolume::id()]
    }
}

impl ManagedContainer for TestNode {
    type Protocol = LaunchpadProtocol;

    fn registry(&self) -> &str {
        "quay.io/testlabs"
    }

    fn image_name(&self) -> &str {
        "test_node"
    }

    fn tag(&self) -> &str {
        "latest"
    }

    fn on_event(&mut self, event: LaunchpadInnerEvent) {
        match event {
            LaunchpadInnerEvent::IdentityReady(identity) => {
                self.identity = Some(identity);
            },
            LaunchpadInnerEvent::WalletIdentityReady(_) => {},
        }
    }
}

fn image_runner() -> SdmTaskRunner<ImageTask<TestNode>> {
    let task = ImageTask::new("scope", TestNode::default());
    SdmTaskRunner::new(TestNode::id(), TestNode::deps(), task)
}

fn volume_runner() -> SdmTaskRunner<VolumeTask<SharedVolume>> {
    let task = VolumeTask::new("scope", SharedVolume::default());
    SdmTaskRunner::new(SharedVolume::id(), Vec::new(), task)
}

fn network_runner() -> SdmTaskRunner<NetworkTask<LocalNet>> {
    let task = NetworkTask::new("scope", LocalNet::default());
    SdmTaskRunner::new(LocalNet::id(), Vec::new(), task)
}

#[test]
fn volume_provisions_when_absent_and_confirms_on_event() {
    let mut runner = volume_runner();
    assert_eq!(*runner.context.status.get(), volume::Status::InitialState);

    assert!(runner.begin_update(0));
    let d = runner.decide_update(&volume::Probe { volume_exists: false });
    assert!(d.action.is_none());
    runner.commit_update(d);
    assert_eq!(*runner.context.status.get(), volume::Status::Checking);

    // The volume was deleted behind the engine's back (or never
    // existed): the check sees it absent and re-provisions.
    let d = runner.decide_update(&volume::Probe { volume_exists: false });
    assert_eq!(d.action, Some(volume::Action::CreateVolume));
    assert_eq!(d.next, Some(volume::Status::WaitCreating));
    runner.commit_update(d);
    assert_eq!(*runner.context.status.get(), volume::Status::WaitCreating);

    runner.process_event(volume::Event::Created);
    assert_eq!(*runner.context.status.get(), volume::Status::Active);

    match runner.notify_dependants() {
        Some(ControlEvent::ResourceReady { task_id, name }) => {
            assert_eq!(task_id.as_str(), "SharedVolume");
            assert_eq!(name, "scope_volume");
        },
        other => panic!("expected a readiness broadcast, got {:?}", other.is_some()),
    }
}

#[test]
fn volume_adopts_an_existing_volume() {
    let mut runner = volume_runner();
    assert!(runner.begin_update(0));
    let d = runner.decide_update(&volume::Probe { volume_exists: true });
    runner.commit_update(d);
    let d = runner.decide_update(&volume::Probe { volume_exists: true });
    assert!(d.action.is_none());
    assert_eq!(d.next, Some(volume::Status::Active));
}

#[test]
fn readiness_edge_fires_at_most_once_per_interval() {
    let mut runner = volume_runner();
    runner.begin_update(0);
    let d = runner.decide_update(&volume::Probe { volume_exists: true });
    runner.commit_update(d);
    let d = runner.decide_update(&volume::Probe { volume_exists: true });
    runner.commit_update(d);
    assert_eq!(*runner.context.status.get(), volume::Status::Active);

    assert!(runner.notify_dependants().is_some());
    // Still ready: no second broadcast for the same interval.
    assert!(runner.notify_dependants().is_none());
    assert!(runner.notify_dependants().is_none());
}

#[test]
fn network_closes_and_reports_exactly_one_closed_edge() {
    let mut runner = network_runner();
    let config = LaunchpadConfig::default();
    assert!(runner.reconfigure(Some(&config)));

    runner.begin_update(0);
    let d = runner.decide_update(&network::Probe { network_exists: false });
    runner.commit_update(d);
    assert_eq!(*runner.context.status.get(), network::Status::Cleanup);
    let d = runner.decide_update(&network::Probe { network_exists: false });
    runner.commit_update(d);
    assert_eq!(*runner.context.status.get(), network::Status::Inactive);
    let d = runner.decide_update(&network::Probe { network_exists: false });
    assert_eq!(d.action, Some(network::Action::CreateNetwork));
    runner.commit_update(d);
    runner.process_event(network::Event::Created);
    assert_eq!(*runner.context.status.get(), network::Status::Active);

    match runner.notify_dependants() {
        Some(ControlEvent::ResourceReady { name, .. }) => assert_eq!(name, "scope_network"),
        _ => panic!("expected a readiness broadcast"),
    }

    // The configuration is withdrawn: the network leaves its ready
    // state and dependants hear exactly one closed edge.
    assert!(!runner.reconfigure(None));
    let d = runner.decide_update(&network::Probe { network_exists: true });
    runner.commit_update(d);
    assert_eq!(*runner.context.status.get(), network::Status::Cleanup);
    match runner.notify_dependants() {
        Some(ControlEvent::ResourceClosed { task_id }) => {
            assert_eq!(task_id.as_str(), "LocalNet");
        },
        _ => panic!("expected a closed broadcast"),
    }
    assert!(runner.notify_dependants().is_none());
}

#[test]
fn container_waits_for_every_dependency() {
    let mut runner = image_runner();
    let config = LaunchpadConfig::default();
    assert!(runner.reconfigure(Some(&config)));

    runner.begin_update(0);
    let d = runner.decide_update(&image::Probe::Image { exists: true });
    runner.commit_update(d);
    assert_eq!(*runner.context.status.get(), image::Status::CleanDangling);
    let d = runner.decide_update(&image::Probe::Container {
        state: image::ContainerState::NotFound,
    });
    runner.commit_update(d);
    assert_eq!(*runner.context.status.get(), image::Status::Idle);

    // Only one of the two dependencies is ready: no provisioning.
    let ready = ControlEvent::<LaunchpadProtocol>::ResourceReady {
        task_id: LocalNet::id(),
        name: "scope_network".to_string(),
    };
    runner.process_request(&ready);
    let d = runner.decide_update(&image::Probe::NoInspection);
    assert!(d.next.is_none());
    assert!(d.action.is_none());

    // Flipping the last flag enables provisioning on that cycle.
    let ready = ControlEvent::<LaunchpadProtocol>::ResourceReady {
        task_id: SharedVolume::id(),
        name: "scope_volume".to_string(),
    };
    runner.process_request(&ready);
    let d = runner.decide_update(&image::Probe::NoInspection);
    assert_eq!(d.next, Some(image::Status::CreateContainer));
    runner.commit_update(d);

    // The published names of ready dependencies are available to
    // the resource's own builders.
    let net_name = runner.context.resource(&LocalNet::id()).map(str::to_string);
    assert_eq!(net_name.as_deref(), Some("scope_network"));

    // A dependency closing flips its flag back and forgets its name.
    let closed = ControlEvent::<LaunchpadProtocol>::ResourceClosed { task_id: LocalNet::id() };
    runner.process_request(&closed);
    assert!(runner.context.resource(&LocalNet::id()).is_none());
    assert!(!runner.context.should_be_active());
}

#[test]
fn container_replay_reaches_ready_only_with_checker_signal() {
    let mut runner = image_runner();
    let config = LaunchpadConfig::default();
    runner.reconfigure(Some(&config));
    for id in TestNode::deps() {
        let name = format!("{}_up", id.as_str());
        let ready = ControlEvent::<LaunchpadProtocol>::ResourceReady { task_id: id, name };
        runner.process_request(&ready);
    }

    // Reach the provisioning branch.
    runner.begin_update(0);
    let d = runner.decide_update(&image::Probe::Image { exists: true });
    runner.commit_update(d);
    let d = runner.decide_update(&image::Probe::Container {
        state: image::ContainerState::NotFound,
    });
    runner.commit_update(d);
    let d = runner.decide_update(&image::Probe::NoInspection);
    runner.commit_update(d);
    assert_eq!(*runner.context.status.get(), image::Status::CreateContainer);
    let d = runner.decide_update(&image::Probe::NoInspection);
    assert_eq!(d.action, Some(image::Action::CreateContainer));
    runner.commit_update(d);

    // Replay the driver's confirmations: create, start, die.
    runner.process_event(image::Event::Created);
    assert_eq!(*runner.context.status.get(), image::Status::StartContainer);
    let d = runner.decide_update(&image::Probe::NoInspection);
    assert_eq!(d.action, Some(image::Action::StartContainer));
    runner.commit_update(d);
    runner.process_event(image::Event::Started);
    assert_eq!(*runner.context.status.get(), image::Status::Started);

    // `die` while started does not regress the machine, and no
    // readiness is reported without the checker's signal.
    runner.process_event(image::Event::Terminated);
    assert_eq!(*runner.context.status.get(), image::Status::Started);
    assert!(runner.notify_dependants().is_none());

    // Only the checker's ready signal completes the provisioning.
    runner.process_event(image::Event::CheckerEvent(CheckerEvent::Ready));
    assert_eq!(*runner.context.status.get(), image::Status::Ready);
    assert!(matches!(
        runner.notify_dependants(),
        Some(ControlEvent::ResourceReady { .. })
    ));
}

#[test]
fn second_identical_config_causes_no_extra_driver_calls() {
    let mut runner = volume_runner();
    let config = LaunchpadConfig::default();

    let set_config = ControlEvent::<LaunchpadProtocol>::SetConfig(Some(config.clone()));
    runner.process_request(&set_config);
    runner.begin_update(0);
    let d = runner.decide_update(&volume::Probe { volume_exists: false });
    runner.commit_update(d);
    let d = runner.decide_update(&volume::Probe { volume_exists: false });
    assert_eq!(d.action, Some(volume::Action::CreateVolume));
    runner.commit_update(d);
    assert_eq!(*runner.context.status.get(), volume::Status::WaitCreating);

    // The second, identical configuration: the machine stays where
    // its first activation committed it and no step decides another
    // driver call.
    let set_config = ControlEvent::<LaunchpadProtocol>::SetConfig(Some(config));
    runner.process_request(&set_config);
    assert_eq!(*runner.context.status.get(), volume::Status::WaitCreating);
    let d = runner.decide_update(&volume::Probe { volume_exists: false });
    assert!(d.action.is_none());
    assert!(d.next.is_none());
    runner.process_event(volume::Event::Created);
    let d = runner.decide_update(&volume::Probe { volume_exists: true });
    assert!(d.action.is_none());
    assert!(d.next.is_none());
}

#[test]
fn failed_driver_calls_back_off_and_retry() {
    let mut runner = volume_runner();
    runner.begin_update(0);
    let d = runner.decide_update(&volume::Probe { volume_exists: false });
    runner.commit_update(d);
    let d = runner.decide_update(&volume::Probe { volume_exists: false });
    assert_eq!(d.action, Some(volume::Action::CreateVolume));

    // The create call failed: the state stays, and nothing runs
    // again before the retry delay has passed.
    runner.update_failed(1000);
    assert_eq!(*runner.context.status.get(), volume::Status::Checking);
    assert!(!runner.begin_update(2000));
    assert!(runner.begin_update(6000));
    let d = runner.decide_update(&volume::Probe { volume_exists: false });
    assert_eq!(d.action, Some(volume::Action::CreateVolume));
}

#[test]
fn fallback_transition_fires_after_its_deadline() {
    
    let mut runner = volume_runner();
    runner.begin_update(0);
    let d = runner.decide_update(&volume::Probe { volume_exists: false });
    runner.commit_update(d);
    let d = runner.decide_update(&volume::Probe { volume_exists: false });
    runner.commit_update(d);
    assert_eq!(*runner.context.status.get(), volume::Status::WaitCreating);

    // The confirmation never arrives; a fallback pushes the machine
    // back to the check branch.
    runner.context.status.set_fallback(Fallback {
        when: 30_000,
        next_status: volume::Status::Checking,
    });
    assert!(runner.begin_update(20_000));
    assert_eq!(*runner.context.status.get(), volume::Status::WaitCreating);
    assert!(runner.begin_update(40_000));
    assert_eq!(*runner.context.status.get(), volume::Status::Checking);
}

#[test]
fn events_in_unexpected_states_are_ignored() {
    let mut runner = image_runner();
    // Fresh machine: confirmations nothing predicted change nothing.
    runner.process_event(image::Event::Created);
    assert_eq!(*runner.context.status.get(), image::Status::InitialState);
    runner.process_event(image::Event::Started);
    assert_eq!(*runner.context.status.get(), image::Status::InitialState);
    runner.process_event(image::Event::CheckerEvent(CheckerEvent::Ready));
    assert_eq!(*runner.context.status.get(), image::Status::InitialState);
}

#[test]
fn has_more_work_drives_the_inner_loop() {
    let mut runner = volume_runner();
    assert!(runner.begin_update(0));
    assert!(!runner.has_more_work());
    let d = runner.decide_update(&volume::Probe { volume_exists: false });
    runner.commit_update(d);
    assert!(runner.has_more_work());
    assert!(runner.begin_update(0));
    assert!(!runner.has_more_work());
}

#[test]
fn inner_events_reach_the_resource() {
    let mut runner = image_runner();
    assert!(runner.context.inner.image().identity.is_none());
    let identity = BaseNodeIdentity::new(
        vec![7],
        "/ip4/127.0.0.1/tcp/18189".to_string(),
        vec![],
        "emoji".to_string(),
    );
    let event = ControlEvent::<LaunchpadProtocol>::InnerEvent(
        LaunchpadInnerEvent::IdentityReady(identity),
    );
    runner.process_request(&event);
    let held = runner.context.inner.image().identity.as_ref();
    assert_eq!(held.map(|identity| identity.public_key.clone()), Some(vec![7]));
}

#[test]
fn image_names_are_fully_qualified() {
    let runner = image_runner();
    assert_eq!(runner.context.inner.image_name(), "quay.io/testlabs/test_node:latest");
    assert_eq!(runner.context.status.name(), "scope_test_node");
}
