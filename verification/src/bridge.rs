//! What the bridge does when one side speaks: which note a request of the
//! control panel plays, and what the client is asked after a login.

use vstd::prelude::*;

use crate::frontend::ReceiveMessage;
use crate::interface::messages::MaRequestView;
use crate::interface::{MaEvent, MaRequest};
use crate::midi::message::MidiMessageView;
use crate::midi::{Channel, DeviceType, MessageMidi, MidiMessage, Note, Velocity};
use crate::types::{ButtonExecutor, Executor, FaderExecutor};

verus! {

/// The note of the first pad of the Launchpad.
pub const FIRST_PAD: u8 = 11;

/// The first and the last fader that the bridge watches.
pub const WATCHED_FADERS: (u16, u16) = (1, 8);

/// The first and the last button that the bridge watches.
pub const WATCHED_BUTTONS: (u16, u16) = (101, 191);

/// The page of the executors that the bridge watches.
pub const WATCHED_PAGE: u8 = 1;

/// Whether a request of the control panel can be turned into a note: the
/// column of a preset of the first two rows must leave room for the note
/// of the first pad.
pub open spec fn pad_in_reach(msg: ReceiveMessage) -> bool {
    msg matches ReceiveMessage::SetPreset { row, column } ==> row <= 1 ==> column + FIRST_PAD
        <= u8::MAX
}

/// The note that the bridge plays on the Launchpad for a request of the
/// control panel: a preset of the first row lights its pad, one of the
/// second row puts it out. Other requests play no note.
pub open spec fn pad_note(msg: ReceiveMessage) -> Option<(MidiMessageView, DeviceType)> {
    match msg {
        ReceiveMessage::SetPreset { row, column } => if row <= 1 {
            Some(
                (
                    MidiMessageView::NoteOn {
                        channel: Channel(0),
                        note: Note((FIRST_PAD + column) as u8),
                        velocity: Velocity(
                            if row == 0 {
                                127u8
                            } else {
                                0u8
                            },
                        ),
                    },
                    DeviceType::Launchpad,
                ),
            )
        } else {
            None
        },
        _ => None,
    }
}

/// The note that the bridge plays on the Launchpad for a request of the
/// control panel.
pub fn preset_message(msg: ReceiveMessage) -> (r: Option<MessageMidi>)
    requires
        pad_in_reach(msg),
    ensures
        r is Some <==> pad_note(msg) is Some,
        r matches Some(message) ==> pad_note(msg) == Some((message.midi_msg@, message.device_type)),
{
    match msg {
        ReceiveMessage::SetPreset { row, column } => {
            if row <= 1 {
                let velocity: u8 = if row == 0 {
                    127
                } else {
                    0
                };
                Some(
                    MessageMidi {
                        midi_msg: MidiMessage::NoteOn {
                            channel: Channel(0),
                            note: Note(FIRST_PAD + column),
                            velocity: Velocity(velocity),
                        },
                        device_type: DeviceType::Launchpad,
                    },
                )
            } else {
                None
            }
        },
        _ => None,
    }
}

/// What the bridge asks of the client once the console has accepted the
/// login: to watch the faders 1 to 8 and the buttons 101 to 191 of page 1.
pub open spec fn watched(requests: Seq<MaRequestView>) -> bool {
    &&& requests.len() == 2
    &&& requests[0] matches MaRequestView::SubscribeFader(first, last)
    &&& first.executor() == (Executor { page: WATCHED_PAGE, id: WATCHED_FADERS.0 })
    &&& last.executor() == (Executor { page: WATCHED_PAGE, id: WATCHED_FADERS.1 })
    &&& requests[1] matches MaRequestView::SubscribeButton(first, last)
    &&& first.executor() == (Executor { page: WATCHED_PAGE, id: WATCHED_BUTTONS.0 })
    &&& last.executor() == (Executor { page: WATCHED_PAGE, id: WATCHED_BUTTONS.1 })
}

/// The views of a run of requests.
pub open spec fn request_views(requests: Seq<MaRequest>) -> Seq<MaRequestView> {
    requests.map_values(|r: MaRequest| r@)
}

/// What the bridge asks of the client when the client tells of an event:
/// after an accepted login the subscriptions, else nothing.
pub fn requests_after(event: &MaEvent) -> (requests: Vec<MaRequest>)
    ensures
        event matches MaEvent::LoginSuccessful(true) ==> watched(request_views(requests@)),
        !(event matches MaEvent::LoginSuccessful(true)) ==> requests@.len() == 0,
{
    let mut requests: Vec<MaRequest> = Vec::new();
    if let MaEvent::LoginSuccessful(accepted) = event {
        if *accepted {
            requests.push(
                MaRequest::SubscribeFader(
                    FaderExecutor::new(WATCHED_PAGE, WATCHED_FADERS.0),
                    FaderExecutor::new(WATCHED_PAGE, WATCHED_FADERS.1),
                ),
            );
            requests.push(
                MaRequest::SubscribeButton(
                    ButtonExecutor::new(WATCHED_PAGE, WATCHED_BUTTONS.0),
                    ButtonExecutor::new(WATCHED_PAGE, WATCHED_BUTTONS.1),
                ),
            );
        }
    }
    requests
}

} // verus!
