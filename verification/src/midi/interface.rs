//! The devices that the bridge sends to, and the choice among them.

use vstd::prelude::*;

use super::connection::{DeviceType, MidiConnection};
use super::message::{encode, MidiMessage};

verus! {

/// The places among the first `upto` devices at which a device of the
/// wanted kind stands, in rising order.
pub open spec fn places_of(devices: Seq<MidiConnection>, wanted: DeviceType, upto: int) -> Seq<
    usize,
>
    decreases upto,
{
    if upto <= 0 {
        Seq::empty()
    } else if devices[upto - 1].kind() == wanted {
        places_of(devices, wanted, upto - 1).push((upto - 1) as usize)
    } else {
        places_of(devices, wanted, upto - 1)
    }
}

/// What is to be sent, and to which devices.
#[derive(Debug, Clone, PartialEq, Eq)]
pub struct Delivery {
    /// The bytes of the message.
    pub data: Vec<u8>,
    /// The places of the devices that get them, in the order in which the
    /// devices were added.
    pub targets: Vec<usize>,
}

/// The devices that the bridge sends to.
#[derive(Debug)]
pub struct MidiInterface {
    devices: Vec<MidiConnection>,
}

impl View for MidiInterface {
    type V = Seq<MidiConnection>;

    closed spec fn view(&self) -> Seq<MidiConnection> {
        self.devices@
    }
}

impl MidiInterface {
    /// An interface without devices.
    pub fn new() -> (interface: MidiInterface)
        ensures
            interface@ == Seq::<MidiConnection>::empty(),
    {
        MidiInterface { devices: Vec::new() }
    }

    /// Works out what is to be sent for a message: its bytes, and the
    /// devices of the given kind.
    pub fn send(&self, msg: MidiMessage, device_type: DeviceType) -> (delivery: Delivery)
        ensures
            delivery.data@ == encode(msg@),
            delivery.targets@ == places_of(self@, device_type, self@.len() as int),
    {
        let data = msg.to_bytes();
        let mut targets: Vec<usize> = Vec::new();
        let mut i: usize = 0;
        while i < self.devices.len()
            invariant
                i <= self.devices.len(),
                targets@ == places_of(self.devices@, device_type, i as int),
            decreases self.devices.len() - i,
        {
            if self.devices[i].is_type(&device_type) {
                targets.push(i);
            }
            i += 1;
        }
        Delivery { data, targets }
    }

    /// Takes one more device.
    pub fn add(&mut self, connection: MidiConnection)
        ensures
            final(self)@ == old(self)@.push(connection),
    {
        self.devices.push(connection);
    }

    /// The number of devices.
    pub fn len(&self) -> (n: usize)
        ensures
            n == self@.len(),
    {
        self.devices.len()
    }
}

} // verus!
