//! Host-controller driver core for xHCI: ring structures, contexts,
//! register images and the per-device state machine, with proved contracts.
//!
//! The core touches neither registers nor memory. It keeps images of both,
//! decides, and records the writes that carry its decisions out; the host
//! makes those writes, in their order, and hands back what it reads.

pub mod bits;
pub mod trb;
pub mod ring;
pub mod command;
pub mod transfer;
pub mod registers;
pub mod event;
pub mod context;
pub mod descriptor;
pub mod port;
pub mod device;
pub mod controller;
pub mod bringup;
pub mod xecp;
pub mod hcd;

pub use crate::controller::{phys_to_virt, virt_to_phys, XhciController, XhciDriverOps, XhciInfo};
