//! Translation of raw driver event messages into each machine's
//! typed events.  The caller subscribes to the driver's stream,
//! reduces each raw message to the three fields the engine reads,
//! and runs them through the converter of the resource the
//! subscription belongs to; messages for another resource or of
//! another kind are dropped.

use vstd::prelude::*;

use crate::strutil::str_eq;

verus! {

/// Translates raw stream items into a machine's typed events;
/// `None` drops the item.
pub trait Converter<I, O>: Sized {
    fn convert(&self, res: Result<I, String>) -> Option<O>;
}

/// The kind tag of a raw driver event message.
#[derive(Debug, Clone, Copy, PartialEq, Eq, Structural)]
pub enum DriverEventKind {
    Container,
    Image,
    Network,
    Volume,
    Other,
}

/// One raw driver event message, reduced to the fields the engine
/// reads: its kind tag, its action string, and the resource name
/// its actor carries.
pub struct DriverEvent {
    pub kind: DriverEventKind,
    pub action: String,
    pub name: String,
}

/// Whether a raw message belongs to the subscription expecting the
/// given kind and resource name.
pub open spec fn message_matches(
    kind: DriverEventKind,
    name: Seq<char>,
    expected_kind: DriverEventKind,
    expected_name: Seq<char>,
) -> bool {
    kind == expected_kind && name == expected_name
}

/// Filters one raw message against the subscription's kind and
/// resource name.
pub fn matches_subscription(
    msg: &DriverEvent,
    expected_kind: DriverEventKind,
    expected_name: &str,
) -> (r: bool)
    ensures
        r == message_matches(msg.kind, msg.name@, expected_kind, expected_name@),
{
    let kind_matches = match (msg.kind, expected_kind) {
        (DriverEventKind::Container, DriverEventKind::Container) => true,
        (DriverEventKind::Image, DriverEventKind::Image) => true,
        (DriverEventKind::Network, DriverEventKind::Network) => true,
        (DriverEventKind::Volume, DriverEventKind::Volume) => true,
        (DriverEventKind::Other, DriverEventKind::Other) => true,
        _ => false,
    };
    kind_matches && str_eq(msg.name.as_str(), expected_name)
}

} // verus!
