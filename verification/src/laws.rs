//! The engine's cross-cutting guarantees, stated and proved over
//! the same spec functions that the executable contracts are
//! pinned to: the edge-triggered notification rule
//! (`task::notify_emission`, which `SdmTaskRunner::notify_dependants`
//! is held to), and the machines' transition functions.

use vstd::prelude::*;

use crate::image;
use crate::image::checker::CheckerEvent;
use crate::network;
use crate::task::{all_values_true, notify_emission, NotifyKind};
use crate::volume;

verus! {

/// What dependants have been told before the `k`-th readiness poll
/// of a run that started with the edge-trigger memory at `initial`
/// and saw the readiness `samples`: the runner's memory always
/// equals the readiness seen at the previous poll.
pub open spec fn ready_flag_before(initial: bool, samples: Seq<bool>, k: int) -> bool {
    if k == 0 {
        initial
    } else {
        samples[k - 1]
    }
}

/// Over any run of readiness polls whose samples stay ready
/// throughout the interval `[i, j]`: a `Ready` edge can be emitted
/// at the interval's first poll only — and only if dependants had
/// not already been told — every later poll inside the interval
/// emits nothing, and the first poll after the interval that sees
/// not-ready emits exactly one matching `Closed` edge.  So repeated
/// reconfigure cycles can neither duplicate nor drop edges.
pub proof fn lemma_notification_edges(initial: bool, samples: Seq<bool>, i: int, j: int)
    requires
        0 <= i <= j < samples.len(),
        forall|m: int| i <= m <= j ==> samples[m],
    ensures
        forall|m: int|
            i < m <= j ==> notify_emission(ready_flag_before(initial, samples, m), samples[m])
                is None,
        notify_emission(ready_flag_before(initial, samples, i), samples[i]) == (
        if ready_flag_before(initial, samples, i) {
            Option::<NotifyKind>::None
        } else {
            Some(NotifyKind::Ready)
        }),
        j + 1 < samples.len() && !samples[j + 1] ==> notify_emission(
            ready_flag_before(initial, samples, j + 1),
            samples[j + 1],
        ) == Some(NotifyKind::Closed),
{
    assert forall|m: int|
        i < m <= j implies notify_emission(ready_flag_before(initial, samples, m), samples[m])
        is None by {
        assert(samples[m - 1]);
        assert(samples[m]);
    }
}

/// A container in `Idle` never reaches its provisioning branch
/// while any declared dependency's readiness flag is false,
/// whatever the configuration says.
pub proof fn lemma_container_provisioning_gated(
    should_start: bool,
    deps: Map<Seq<char>, bool>,
    probe: image::Probe,
    k: Seq<char>,
)
    requires
        deps.dom().contains(k),
        !deps[k],
    ensures
        ({
            let d = image::update_transition(
                image::Status::Idle,
                should_start && all_values_true(deps),
                probe,
            );
            d.next is None && d.action is None
        }),
{
    assert(!all_values_true(deps));
}

/// Flipping the last false dependency flag to true and then
/// running one reconciliation step makes a container in `Idle`
/// begin provisioning on that same cycle.
pub proof fn lemma_container_last_dependency_enables(
    deps: Map<Seq<char>, bool>,
    probe: image::Probe,
    k: Seq<char>,
)
    requires
        deps.dom().contains(k),
        forall|m: Seq<char>| deps.dom().contains(m) && m != k ==> deps[m],
    ensures
        ({
            let d = image::update_transition(
                image::Status::Idle,
                true && all_values_true(deps.insert(k, true)),
                probe,
            );
            d.next == Some(image::Status::CreateContainer)
        }),
{
    let flipped = deps.insert(k, true);
    assert forall|m: Seq<char>| flipped.dom().contains(m) implies flipped[m] by {
        if m != k {
            assert(deps.dom().contains(m) && deps[m]);
        }
    }
}

/// The same dependency gate for a network in `Inactive`.
pub proof fn lemma_network_provisioning_gated(
    should_start: bool,
    deps: Map<Seq<char>, bool>,
    exists_now: bool,
    k: Seq<char>,
)
    requires
        deps.dom().contains(k),
        !deps[k],
    ensures
        ({
            let d = network::update_transition(
                network::Status::Inactive,
                should_start && all_values_true(deps),
                exists_now,
            );
            d.next is None && d.action is None
        }),
{
    assert(!all_values_true(deps));
}

/// Flipping the last false dependency flag to true makes a network
/// in `Inactive` issue its create call on that same cycle.
pub proof fn lemma_network_last_dependency_enables(
    deps: Map<Seq<char>, bool>,
    exists_now: bool,
    k: Seq<char>,
)
    requires
        deps.dom().contains(k),
        forall|m: Seq<char>| deps.dom().contains(m) && m != k ==> deps[m],
    ensures
        ({
            let d = network::update_transition(
                network::Status::Inactive,
                true && all_values_true(deps.insert(k, true)),
                exists_now,
            );
            d.next == Some(network::Status::WaitCreating) && d.action == Some(
                network::Action::CreateNetwork,
            )
        }),
{
    let flipped = deps.insert(k, true);
    assert forall|m: Seq<char>| flipped.dom().contains(m) implies flipped[m] by {
        if m != k {
            assert(deps.dom().contains(m) && deps[m]);
        }
    }
}

/// Every container decision that issues a driver call also moves
/// the machine to a different state.  A configuration message
/// leaves the machine state untouched (the runner's contract), so
/// a second configuration yielding the same intent finds every
/// machine in the state its first activation committed, and no
/// driver call is repeated.
pub proof fn lemma_container_actions_move_state(
    s: image::Status,
    active: bool,
    probe: image::Probe,
)
    ensures
        ({
            let d = image::update_transition(s, active, probe);
            d.action is Some ==> d.next is Some && d.next != Some(s)
        }),
{
}

/// The same for a volume's single driver call.
pub proof fn lemma_volume_actions_move_state(s: volume::Status, active: bool, exists_now: bool)
    ensures
        ({
            let d = volume::update_transition(s, active, exists_now);
            d.action is Some ==> d.next is Some && d.next != Some(s)
        }),
{
}

/// The same for a network's two driver calls.
pub proof fn lemma_network_actions_move_state(s: network::Status, active: bool, exists_now: bool)
    ensures
        ({
            let d = network::update_transition(s, active, exists_now);
            d.action is Some ==> d.next is Some && d.next != Some(s)
        }),
{
}

/// A resource whose driver-level object was deleted behind the
/// engine's back is rediscovered as absent by the next inspection
/// of the check branch and is re-provisioned without manual
/// intervention: the decision trusts only the fresh inspection.
pub proof fn lemma_reprovision_after_external_deletion(active: bool)
    ensures
        volume::update_transition(volume::Status::Checking, active, false).next == Some(
            volume::Status::WaitCreating,
        ),
        volume::update_transition(volume::Status::Checking, active, false).action == Some(
            volume::Action::CreateVolume,
        ),
        network::update_transition(network::Status::Cleanup, active, false).next == Some(
            network::Status::Inactive,
        ),
        active ==> network::update_transition(network::Status::Inactive, active, false).action
            == Some(network::Action::CreateNetwork),
        image::update_transition(
            image::Status::CleanDangling,
            active,
            image::Probe::Container { state: image::ContainerState::NotFound },
        ).next == Some(image::Status::Idle),
        active ==> image::update_transition(
            image::Status::Idle,
            active,
            image::Probe::NoInspection,
        ).next == Some(image::Status::CreateContainer),
{
}

/// The container machine reaches `Ready` only through the
/// checker's `Ready` signal delivered while it counts as started:
/// no driver event and no reconciliation step can decide `Ready`
/// on its own.
pub proof fn lemma_ready_only_via_checker(
    s: image::Status,
    e: image::Event,
    active: bool,
    probe: image::Probe,
)
    ensures
        image::event_transition(s, e) == image::Status::Ready && s != image::Status::Ready ==> (s
            == image::Status::Started && e == image::Event::CheckerEvent(CheckerEvent::Ready)),
        image::update_transition(s, active, probe).next != Some(image::Status::Ready),
{
}

/// A `die` notification seen while the container counts as started
/// does not regress the machine: stale or duplicate driver
/// notifications cannot corrupt a running resource.
pub proof fn lemma_die_in_started_ignored()
    ensures
        image::event_transition(image::Status::Started, image::Event::Terminated)
            == image::Status::Started,
        image::event_transition(image::Status::Ready, image::Event::Terminated)
            == image::Status::Ready,
{
}

} // verus!
