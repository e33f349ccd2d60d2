//! Recognising a USB host controller among the functions of a PCI bus, and
//! finding its configuration space.

use vstd::prelude::*;

verus! {

/// The PCI class of serial bus controllers.
pub const PCI_CLASS_SERIAL_BUS: u8 = 0x0C;

/// The PCI subclass of USB host controllers.
pub const PCI_SUBCLASS_USB: u8 = 0x03;

/// The programming interface of an xHCI controller.
pub const PCI_PROG_IF_XHCI: u8 = 0x30;

/// The host controllers of a system.
pub struct HCD {}

/// Whether a PCI function of this class and subclass is a USB host
/// controller.
pub fn parse_hci(class: u8, subclass: u8) -> (r: bool)
    ensures
        r == (class == PCI_CLASS_SERIAL_BUS && subclass == PCI_SUBCLASS_USB),
{
    class == PCI_CLASS_SERIAL_BUS && subclass == PCI_SUBCLASS_USB
}

/// Whether a PCI function is an xHCI controller: a USB host controller
/// with the programming interface 0x30.
pub fn is_xhci(class: u8, subclass: u8, prog_if: u8) -> (r: bool)
    ensures
        r == (class == PCI_CLASS_SERIAL_BUS && subclass == PCI_SUBCLASS_USB && prog_if == PCI_PROG_IF_XHCI),
{
    parse_hci(class, subclass) && prog_if == PCI_PROG_IF_XHCI
}

/// The kind of USB host controller that a programming interface stands
/// for.
pub fn usb_type(prog_if: u8) -> (r: &'static str)
    ensures
        r@ == (if prog_if == 0x10 {
            "USB1"@
        } else if prog_if == 0x20 {
            "USB2"@
        } else if prog_if == 0x30 {
            "USB3"@
        } else {
            "UNKNOWN"@
        }),
{
    if prog_if == 0x10 {
        "USB1"
    } else if prog_if == 0x20 {
        "USB2"
    } else if prog_if == 0x30 {
        "USB3"
    } else {
        "UNKNOWN"
    }
}

} // verus!
