//! Classification of a voice-state change: from the pair (previous location,
//! current location) to the kind of event it is.

use vstd::prelude::*;
use crate::models::VoiceStateEvent;

verus! {

/// Where a member is with respect to voice: in the channel with the given
/// identifier, or in no voice channel at all.
#[derive(Debug, Clone, Copy, PartialEq, Eq, Structural)]
pub enum VoiceLocation {
    Absent,
    Present { channel_id: u64 },
}

/// The outcome of classifying a presence transition.  `NoOp` covers the
/// transitions that must not produce a notification: the same channel on both
/// sides (a mute or deafen toggle fires the underlying event without a channel
/// change), and the defensive both-absent case.
#[derive(Debug, Clone, Copy, PartialEq, Eq, Structural)]
pub enum VoiceEventKind {
    Join,
    Move,
    Leave,
    NoOp,
}

/// What `classify` returns, stated case by case over the transition.
pub open spec fn spec_classify(previous: VoiceLocation, current: VoiceLocation) -> VoiceEventKind {
    match (previous, current) {
        (VoiceLocation::Absent, VoiceLocation::Absent) => VoiceEventKind::NoOp,
        (VoiceLocation::Absent, VoiceLocation::Present { .. }) => VoiceEventKind::Join,
        (VoiceLocation::Present { .. }, VoiceLocation::Absent) => VoiceEventKind::Leave,
        (
            VoiceLocation::Present { channel_id: p },
            VoiceLocation::Present { channel_id: c },
        ) => if p == c {
            VoiceEventKind::NoOp
        } else {
            VoiceEventKind::Move
        },
    }
}

/// Classifies a presence transition.  Total over all location pairs, with no
/// side effect and no failure: absent-to-present is a join, present-to-absent
/// a leave, a changed channel a move, and everything else no event.
pub fn classify(previous: &VoiceLocation, current: &VoiceLocation) -> (kind: VoiceEventKind)
    ensures
        kind == spec_classify(*previous, *current),
{
    match (previous, current) {
        (VoiceLocation::Absent, VoiceLocation::Absent) => VoiceEventKind::NoOp,
        (VoiceLocation::Absent, VoiceLocation::Present { .. }) => VoiceEventKind::Join,
        (VoiceLocation::Present { .. }, VoiceLocation::Absent) => VoiceEventKind::Leave,
        (
            VoiceLocation::Present { channel_id: p },
            VoiceLocation::Present { channel_id: c },
        ) => if p == c {
            VoiceEventKind::NoOp
        } else {
            VoiceEventKind::Move
        },
    }
}

/// Classification is deterministic and total: every pair of locations falls
/// under exactly one of the four cases, and the case is fixed by the pair
/// alone.  Same-channel pairs and the both-absent pair are `NoOp`,
/// absent-to-present is `Join`, present-to-absent is `Leave`, and a pair of
/// distinct channels is `Move`.
pub proof fn lemma_classify_total(previous: VoiceLocation, current: VoiceLocation)
    ensures
        previous is Absent && current is Absent ==> spec_classify(previous, current)
            == VoiceEventKind::NoOp,
        previous is Absent && current is Present ==> spec_classify(previous, current)
            == VoiceEventKind::Join,
        previous is Present && current is Absent ==> spec_classify(previous, current)
            == VoiceEventKind::Leave,
        previous is Present && current is Present && previous->channel_id == current->channel_id
            ==> spec_classify(previous, current) == VoiceEventKind::NoOp,
        previous is Present && current is Present && previous->channel_id != current->channel_id
            ==> spec_classify(previous, current) == VoiceEventKind::Move,
{
}

/// The event that a classification announces, if any: `NoOp` announces
/// nothing, each other kind maps to its `VoiceStateEvent`.
pub open spec fn spec_event_of_kind(kind: VoiceEventKind) -> Option<VoiceStateEvent> {
    match kind {
        VoiceEventKind::Join => Some(VoiceStateEvent::Join),
        VoiceEventKind::Move => Some(VoiceStateEvent::Move),
        VoiceEventKind::Leave => Some(VoiceStateEvent::Leave),
        VoiceEventKind::NoOp => None,
    }
}

/// Maps a classification to the event to announce: `None` exactly for `NoOp`.
pub fn event_of_kind(kind: &VoiceEventKind) -> (event: Option<VoiceStateEvent>)
    ensures
        event == spec_event_of_kind(*kind),
        event is None <==> *kind == VoiceEventKind::NoOp,
{
    match kind {
        VoiceEventKind::Join => Some(VoiceStateEvent::Join),
        VoiceEventKind::Move => Some(VoiceStateEvent::Move),
        VoiceEventKind::Leave => Some(VoiceStateEvent::Leave),
        VoiceEventKind::NoOp => None,
    }
}

} // verus!
