//! Companion devices on the local network: the packets that they exchange,
//! how devices are found, and which channels to them are live.
//!
//! A packet is an envelope around one body out of a closed catalog of
//! shapes. The envelope names the kind of its body by a tag, and the tag
//! alone decides how the body is read. On the wire a packet is JSON text;
//! between the text and the typed body stands an untyped value, and every
//! shape says how it is written into such a value and how it is read back.
//!
//! - [`value`] and [`numeral`] hold the untyped value and its numbers,
//!   [`wire`] turns values into text and text into values.
//! - [`field`] holds the rules by which the fields of a body are written
//!   and read, [`shape`] what every shape of body has to say of itself;
//!   [`plugins`] and [`protocol`] hold the shapes, the catalog and the
//!   packet.
//! - [`device`] decides who the local device is.
//! - [`transport`] decides what is sent to find devices, what is made of
//!   the answers, and what happens on a channel. Sockets, files and the
//!   clock of a running program belong to the caller.
//!
//! What the library claims is stated in the contracts of its functions and
//! proved; what it takes on trust about the crates it calls is stated where
//! they are called, and nowhere else.

pub mod device;
pub mod field;
pub mod numeral;
pub mod plugins;
pub mod protocol;
pub mod shape;
pub mod transport;
pub mod value;
pub mod wire;
