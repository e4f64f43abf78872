//! Finding devices and keeping channels to them.
//!
//! Sockets are the caller's business. This module decides: what is sent,
//! what is made of what arrives, and which channels count as live.

pub mod frame;
pub mod registry;
pub mod udp;

use crate::protocol::body::{BodyView, PacketBody};
use crate::protocol::packet::{EncodeError, Packet, PacketView};
use vstd::prelude::*;

verus! {

/// The transports that can be chosen when the program runs. So far there is
/// one, the local network. It is named here because a choice needs
/// something to choose: a type without a value could be neither made nor
/// verified.
#[derive(Debug, Clone, Copy, PartialEq, Eq, Structural)]
pub enum TransportKind {
    /// The local network: datagrams to find devices, streams to talk to
    /// them.
    Lan,
}

impl TransportKind {
    /// The name of the medium.
    pub open spec fn medium_name(self) -> Seq<char> {
        match self {
            TransportKind::Lan => "UDP"@,
        }
    }

    /// The name of the medium.
    pub fn medium(&self) -> (name: &'static str)
        ensures
            name@ == self.medium_name(),
    {
        match self {
            TransportKind::Lan => "UDP",
        }
    }
}

/// Why an operation on the network failed. Such a failure ends the
/// operation that met it and is handed to its caller.
#[derive(Debug, Clone, Copy, PartialEq, Eq, Structural)]
pub enum TransportError {
    /// The socket could not be bound or set up.
    Bind,
    /// The datagram or the message could not be sent.
    Send,
    /// Receiving failed for another reason than the end of the window.
    Receive,
    /// What was to be sent could not be written.
    Encode(EncodeError),
}

/// A device that answered a probe.
#[derive(Debug, PartialEq, Eq)]
pub struct DiscoveredDevice {
    pub id: String,
    pub name: String,
    /// The address that the answer came from, as text.
    pub addr: String,
    /// The time at which the answer arrived, in milliseconds since 1970.
    pub observed_at: u128,
}

/// Model of [`DiscoveredDevice`].
pub struct DiscoveredDeviceView {
    pub id: Seq<char>,
    pub name: Seq<char>,
    pub addr: Seq<char>,
    pub observed_at: u128,
}

impl View for DiscoveredDevice {
    type V = DiscoveredDeviceView;

    open spec fn view(&self) -> DiscoveredDeviceView {
        DiscoveredDeviceView {
            id: self.id@,
            name: self.name@,
            addr: self.addr@,
            observed_at: self.observed_at,
        }
    }
}

impl DiscoveredDevice {
    /// The device that an answer makes known: the one of its identity,
    /// where the answer is an identity packet.
    pub open spec fn of_answer(p: PacketView, addr: Seq<char>, observed_at: u128) -> Option<
        DiscoveredDeviceView,
    > {
        match p.body {
            BodyView::Identity(b) => Some(
                DiscoveredDeviceView { id: b.device_id, name: b.device_name, addr, observed_at },
            ),
            _ => None,
        }
    }

    /// The device that an answer makes known.
    pub fn from_answer(packet: &Packet, addr: &str, observed_at: u128) -> (r: Option<
        DiscoveredDevice,
    >)
        ensures
            match r {
                Some(d) => Self::of_answer(packet@, addr@, observed_at) == Some(d@),
                None => Self::of_answer(packet@, addr@, observed_at) is None,
            },
    {
        match &packet.body {
            PacketBody::Identity(b) => Some(
                DiscoveredDevice {
                    id: b.device_id.clone(),
                    name: b.device_name.clone(),
                    addr: addr.to_owned(),
                    observed_at,
                },
            ),
            _ => None,
        }
    }
}

} // verus!
