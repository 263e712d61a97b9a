//! Resource ids, the status holder, and reports.

use tari_sdm::ids::TaskId;
use tari_sdm::launchpad::config::LaunchpadProtocol;
use tari_sdm::scope::{Report, ReportDetails};
use tari_sdm::status::{Fallback, SdmStatus};
use tari_sdm::volume;

#[test]
fn task_ids_compare_by_content() {
    let a = TaskId::from_str("Base Node");
    let b: TaskId = "Base Node".into();
    let c = TaskId::new("Wallet".to_string());
    assert_eq!(a, b);
    assert!(a.same_as(&b));
    assert!(!a.same_as(&c));
    assert_eq!(c.as_str(), "Wallet");
    assert_eq!(c.clone().into_string(), "Wallet");
}

#[test]
fn status_holder_tracks_outstanding_work() {
    let mut status = SdmStatus::new("scope_volume".to_string(), volume::Status::InitialState);
    assert_eq!(status.name(), "scope_volume");
    assert!(!status.has_work());
    assert!(!status.is_ready());

    status.set(volume::Status::Active);
    assert!(status.has_work());
    assert!(status.is_ready());
    assert_eq!(*status.get(), volume::Status::Active);

    status.reset_has_work_flag();
    assert!(!status.has_work());
}

#[test]
fn status_fallback_fires_only_after_its_deadline() {
    let mut status = SdmStatus::new("scope_volume".to_string(), volume::Status::WaitCreating);
    status.set_fallback(Fallback { when: 100, next_status: volume::Status::Checking });

    status.check_fallback(100);
    assert_eq!(*status.get(), volume::Status::WaitCreating);

    status.check_fallback(101);
    assert_eq!(*status.get(), volume::Status::Checking);
    assert!(status.has_work());
}

#[test]
fn setting_a_status_disarms_the_fallback() {
    let mut status = SdmStatus::new("scope_volume".to_string(), volume::Status::WaitCreating);
    status.set_fallback(Fallback { when: 100, next_status: volume::Status::Checking });
    status.set(volume::Status::Active);
    status.check_fallback(500);
    assert_eq!(*status.get(), volume::Status::Active);
}

#[test]
fn reports_carry_their_task_and_details() {
    let report: Report<LaunchpadProtocol> =
        Report::new(TaskId::from_str("Tor"), ReportDetails::Ready);
    assert_eq!(report.task_id().as_str(), "Tor");
    assert!(matches!(report.details(), ReportDetails::Ready));
}
