//! The packets that devices exchange: the catalog of bodies, the identity
//! of a device, and the envelope.

pub mod body;
pub mod device;
pub mod identity;
pub mod packet;

pub use body::{PacketBody, PacketKind};
pub use identity::{DeviceType, Identity, LocalDevice, Pair};
pub use packet::{DecodeError, EncodeError, Packet};
