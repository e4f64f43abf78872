//! A device, as its identity packet describes it.

use crate::field::texts_view;
use crate::protocol::body::{BodyView, PacketBody};
use crate::protocol::packet::{Packet, PacketView};
use vstd::prelude::*;

verus! {

/// A device on the network: who it is and what it can do.
#[derive(Debug, PartialEq, Eq)]
pub struct Device {
    pub device_id: String,
    pub device_name: String,
    pub device_type: String,
    pub incoming_capabilities: Vec<String>,
    pub outgoing_capabilities: Vec<String>,
}

/// Model of [`Device`].
pub struct DeviceView {
    pub device_id: Seq<char>,
    pub device_name: Seq<char>,
    pub device_type: Seq<char>,
    pub incoming_capabilities: Seq<Seq<char>>,
    pub outgoing_capabilities: Seq<Seq<char>>,
}

impl View for Device {
    type V = DeviceView;

    open spec fn view(&self) -> DeviceView {
        DeviceView {
            device_id: self.device_id@,
            device_name: self.device_name@,
            device_type: self.device_type@,
            incoming_capabilities: texts_view(self.incoming_capabilities@),
            outgoing_capabilities: texts_view(self.outgoing_capabilities@),
        }
    }
}

/// Why a packet describes no device.
#[derive(Debug, Clone, Copy, PartialEq, Eq, Structural)]
pub enum DeviceError {
    /// Only an identity packet describes a device.
    NotAnIdentity,
}

impl Device {
    /// The device that a packet describes: the one of its identity, where
    /// the packet carries an identity.
    pub open spec fn of_packet(p: PacketView) -> Result<DeviceView, DeviceError> {
        match p.body {
            BodyView::Identity(b) => Ok(
                DeviceView {
                    device_id: b.device_id,
                    device_name: b.device_name,
                    device_type: b.device_type,
                    incoming_capabilities: b.incoming_capabilities,
                    outgoing_capabilities: b.outgoing_capabilities,
                },
            ),
            _ => Err(DeviceError::NotAnIdentity),
        }
    }

    /// The device that a packet describes. Any packet but an identity
    /// packet describes none.
    pub fn try_from(value: Packet) -> (r: Result<Device, DeviceError>)
        ensures
            match r {
                Ok(d) => Self::of_packet(value@) == Ok::<DeviceView, DeviceError>(d@),
                Err(e) => Self::of_packet(value@) == Err::<DeviceView, DeviceError>(e),
            },
    {
        match value.body {
            PacketBody::Identity(b) => Ok(
                Device {
                    device_id: b.device_id,
                    device_name: b.device_name,
                    device_type: b.device_type,
                    incoming_capabilities: b.incoming_capabilities,
                    outgoing_capabilities: b.outgoing_capabilities,
                },
            ),
            _ => Err(DeviceError::NotAnIdentity),
        }
    }
}

} // verus!
