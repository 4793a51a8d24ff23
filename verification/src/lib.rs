//! Protocol core of a driver that polls electricity meters over a shared
//! serial line: frame codec, link model, device state and polling registry.

pub mod checksum;
pub mod codec;
pub mod device;
pub mod error;
pub mod link;
pub mod registry;
