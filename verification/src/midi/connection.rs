//! The control surfaces: their kinds, and messages on their way to or from
//! one of them.

use vstd::prelude::*;

use super::message::{bytes_read, decode, MidiMessage, MidiMessageError, MidiMessageView};
use crate::text::chars_of;

verus! {

/// The kinds of control surface that the bridge knows.
#[derive(Debug, PartialEq, Eq, Structural, Clone, Copy)]
pub enum DeviceType {
    XTouch,
    Launchpad,
}

/// The place of the first colon at or after `from`, or the length of the
/// name if there is none.
pub open spec fn first_colon(name: Seq<char>, from: int) -> int
    decreases name.len() - from,
{
    if from < 0 || from >= name.len() {
        name.len() as int
    } else if name[from] == ':' {
        from
    } else {
        first_colon(name, from + 1)
    }
}

/// The name of the device of a port: the name of the port up to its first
/// colon.
pub open spec fn device_name(port_name: Seq<char>) -> Seq<char> {
    port_name.subrange(0, first_colon(port_name, 0))
}

/// The kind of the device of a port, if the bridge knows it.
pub open spec fn device_type_of(port_name: Seq<char>) -> Option<DeviceType> {
    if device_name(port_name) == "Launchpad MK2"@ {
        Some(DeviceType::Launchpad)
    } else if device_name(port_name) == "X-TOUCH COMPACT"@ {
        Some(DeviceType::XTouch)
    } else {
        None
    }
}

/// Whether the first `end` characters are exactly the wanted ones.
fn is_prefix(chars: &Vec<char>, end: usize, wanted: &Vec<char>) -> (same: bool)
    requires
        end <= chars@.len(),
    ensures
        same == (chars@.subrange(0, end as int) == wanted@),
{
    if end != wanted.len() {
        return false;
    }
    let mut i: usize = 0;
    while i < end
        invariant
            i <= end,
            end == wanted@.len(),
            end <= chars@.len(),
            forall|k: int| 0 <= k < i ==> chars@[k] == wanted@[k],
        decreases end - i,
    {
        if chars[i] != wanted[i] {
            assert(chars@.subrange(0, end as int)[i as int] != wanted@[i as int]);
            return false;
        }
        i += 1;
    }
    assert(chars@.subrange(0, end as int) =~= wanted@);
    true
}

impl DeviceType {
    /// The kind of the device of a port, if the bridge knows it.
    pub fn of_port(port_name: &str) -> (r: Option<DeviceType>)
        ensures
            r == device_type_of(port_name@),
    {
        let chars = chars_of(port_name);
        let mut end: usize = 0;
        while end < chars.len() && chars[end] != ':'
            invariant
                end <= chars@.len(),
                first_colon(chars@, 0) == first_colon(chars@, end as int),
            decreases chars@.len() - end,
        {
            end += 1;
        }
        if is_prefix(&chars, end, &chars_of("Launchpad MK2")) {
            Some(DeviceType::Launchpad)
        } else if is_prefix(&chars, end, &chars_of("X-TOUCH COMPACT")) {
            Some(DeviceType::XTouch)
        } else {
            None
        }
    }
}

/// A MIDI message on its way from or to a device of one kind.
#[derive(Debug, Clone, PartialEq, Eq)]
pub struct MessageMidi {
    pub midi_msg: MidiMessage,
    pub device_type: DeviceType,
}

impl MessageMidi {
    /// Reads the message that a device of the given kind has sent. Bytes
    /// that end before the message does are no message at all.
    pub fn read(data: &[u8], device_type: DeviceType) -> (r: Option<
        Result<MessageMidi, MidiMessageError>,
    >)
        ensures
            r is Some <==> data@.len() >= 1 && data@.len() >= bytes_read(data@),
            r matches Some(Ok(message)) ==> message.device_type == device_type && decode(data@)
                == Ok::<MidiMessageView, MidiMessageError>(message.midi_msg@),
            r matches Some(Err(e)) ==> decode(data@) == Err::<MidiMessageView, MidiMessageError>(
                e,
            ),
    {
        match MidiMessage::checked_from(data) {
            Some(Ok(midi_msg)) => Some(Ok(MessageMidi { midi_msg, device_type })),
            Some(Err(e)) => Some(Err(e)),
            None => None,
        }
    }
}

/// A device that the bridge sends to.
#[derive(Debug, Clone, PartialEq, Eq)]
pub struct MidiConnection {
    pub name: String,
    device_type: DeviceType,
}

impl MidiConnection {
    pub fn new(name: &str, device_type: DeviceType) -> (connection: MidiConnection)
        ensures
            connection.port() == name@,
            connection.kind() == device_type,
    {
        MidiConnection { name: name.to_owned(), device_type }
    }

    /// The name of the port of the device.
    pub closed spec fn port(self) -> Seq<char> {
        self.name@
    }

    /// The kind of the device.
    pub closed spec fn kind(self) -> DeviceType {
        self.device_type
    }

    /// Whether the device is of the given kind.
    pub fn is_type(&self, other_type: &DeviceType) -> (same: bool)
        ensures
            same == (self.kind() == *other_type),
    {
        self.device_type == *other_type
    }
}

} // verus!
