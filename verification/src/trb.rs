//! The Transfer Request Block: a 16-byte ring element of four 32-bit words,
//! with a type tag and a cycle bit in its control word.

use vstd::prelude::*;
use vstd::std_specs::convert::FromSpecImpl;
use crate::bits::{field_of32, with_field32, read_field32, write_field32, lemma_field_bound32};

verus! {

/// Shift of the type tag inside the control word.
pub const TRB_CONTROL_TRB_TYPE_SHIFT: u8 = 10;

/// Mask of the type tag inside the control word, in place.
pub const TRB_CONTROL_TRB_TYPE_MASK: u32 = 0x0000_FC00;

/// The type tag of a TRB. Values that name no transfer, command or event
/// TRB are `Reserved`.
#[derive(Clone, Copy, Debug, PartialEq, Eq, Structural)]
pub enum TrbType {
    Reserved,
    Normal,
    SetupStage,
    DataStage,
    StatusStage,
    Isoch,
    Link,
    EventData,
    NoOp,
    EnableSlot,
    DisableSlot,
    AddressDevice,
    ConfigureEndpoint,
    EvaluateContext,
    ResetEndpoint,
    StopEndpoint,
    SetTrDequeuePointer,
    ResetDevice,
    ForceEvent,
    NegotiateBandwidth,
    SetLatencyToleranceValue,
    GetPortBandwidth,
    ForceHeader,
    NoOpCmd,
    GetExtendedProperty,
    SetExtendedProperty,
    Transfer,
    CommandCompletion,
    PortStatusChange,
    Doorbell,
    HostController,
    DeviceNotification,
    MfindexWrap,
}

impl TrbType {
    /// The 6-bit tag that stands for this type in a control word.
    pub open spec fn spec_code(self) -> u8 {
        match self {
            TrbType::Reserved => 0,
            TrbType::Normal => 1,
            TrbType::SetupStage => 2,
            TrbType::DataStage => 3,
            TrbType::StatusStage => 4,
            TrbType::Isoch => 5,
            TrbType::Link => 6,
            TrbType::EventData => 7,
            TrbType::NoOp => 8,
            TrbType::EnableSlot => 9,
            TrbType::DisableSlot => 10,
            TrbType::AddressDevice => 11,
            TrbType::ConfigureEndpoint => 12,
            TrbType::EvaluateContext => 13,
            TrbType::ResetEndpoint => 14,
            TrbType::StopEndpoint => 15,
            TrbType::SetTrDequeuePointer => 16,
            TrbType::ResetDevice => 17,
            TrbType::ForceEvent => 18,
            TrbType::NegotiateBandwidth => 19,
            TrbType::SetLatencyToleranceValue => 20,
            TrbType::GetPortBandwidth => 21,
            TrbType::ForceHeader => 22,
            TrbType::NoOpCmd => 23,
            TrbType::GetExtendedProperty => 24,
            TrbType::SetExtendedProperty => 25,
            TrbType::Transfer => 32,
            TrbType::CommandCompletion => 33,
            TrbType::PortStatusChange => 34,
            TrbType::Doorbell => 36,
            TrbType::HostController => 37,
            TrbType::DeviceNotification => 38,
            TrbType::MfindexWrap => 39,
        }
    }

    /// The type that a tag decodes to.
    pub open spec fn spec_decode(value: u8) -> TrbType {
        match value {
            1 => TrbType::Normal,
            2 => TrbType::SetupStage,
            3 => TrbType::DataStage,
            4 => TrbType::StatusStage,
            5 => TrbType::Isoch,
            6 => TrbType::Link,
            7 => TrbType::EventData,
            8 => TrbType::NoOp,
            9 => TrbType::EnableSlot,
            10 => TrbType::DisableSlot,
            11 => TrbType::AddressDevice,
            12 => TrbType::ConfigureEndpoint,
            13 => TrbType::EvaluateContext,
            14 => TrbType::ResetEndpoint,
            15 => TrbType::StopEndpoint,
            16 => TrbType::SetTrDequeuePointer,
            17 => TrbType::ResetDevice,
            18 => TrbType::ForceEvent,
            19 => TrbType::NegotiateBandwidth,
            20 => TrbType::SetLatencyToleranceValue,
            21 => TrbType::GetPortBandwidth,
            22 => TrbType::ForceHeader,
            23 => TrbType::NoOpCmd,
            24 => TrbType::GetExtendedProperty,
            25 => TrbType::SetExtendedProperty,
            32 => TrbType::Transfer,
            33 => TrbType::CommandCompletion,
            34 => TrbType::PortStatusChange,
            36 => TrbType::Doorbell,
            37 => TrbType::HostController,
            38 => TrbType::DeviceNotification,
            39 => TrbType::MfindexWrap,
            _ => TrbType::Reserved,
        }
    }

    /// The tag of this type.
    pub fn code(&self) -> (r: u8)
        ensures
            r == self.spec_code(),
            r < 64,
    {
        match self {
            TrbType::Reserved => 0,
            TrbType::Normal => 1,
            TrbType::SetupStage => 2,
            TrbType::DataStage => 3,
            TrbType::StatusStage => 4,
            TrbType::Isoch => 5,
            TrbType::Link => 6,
            TrbType::EventData => 7,
            TrbType::NoOp => 8,
            TrbType::EnableSlot => 9,
            TrbType::DisableSlot => 10,
            TrbType::AddressDevice => 11,
            TrbType::ConfigureEndpoint => 12,
            TrbType::EvaluateContext => 13,
            TrbType::ResetEndpoint => 14,
            TrbType::StopEndpoint => 15,
            TrbType::SetTrDequeuePointer => 16,
            TrbType::ResetDevice => 17,
            TrbType::ForceEvent => 18,
            TrbType::NegotiateBandwidth => 19,
            TrbType::SetLatencyToleranceValue => 20,
            TrbType::GetPortBandwidth => 21,
            TrbType::ForceHeader => 22,
            TrbType::NoOpCmd => 23,
            TrbType::GetExtendedProperty => 24,
            TrbType::SetExtendedProperty => 25,
            TrbType::Transfer => 32,
            TrbType::CommandCompletion => 33,
            TrbType::PortStatusChange => 34,
            TrbType::Doorbell => 36,
            TrbType::HostController => 37,
            TrbType::DeviceNotification => 38,
            TrbType::MfindexWrap => 39,
        }
    }

    /// Decoding the tag of a type gives the type back.
    pub proof fn lemma_decode_code(t: TrbType)
        ensures
            TrbType::spec_decode(t.spec_code()) == t,
    {
    }
}

impl From<u8> for TrbType {
    fn from(value: u8) -> (r: TrbType) {
        match value {
            1 => TrbType::Normal,
            2 => TrbType::SetupStage,
            3 => TrbType::DataStage,
            4 => TrbType::StatusStage,
            5 => TrbType::Isoch,
            6 => TrbType::Link,
            7 => TrbType::EventData,
            8 => TrbType::NoOp,
            9 => TrbType::EnableSlot,
            10 => TrbType::DisableSlot,
            11 => TrbType::AddressDevice,
            12 => TrbType::ConfigureEndpoint,
            13 => TrbType::EvaluateContext,
            14 => TrbType::ResetEndpoint,
            15 => TrbType::StopEndpoint,
            16 => TrbType::SetTrDequeuePointer,
            17 => TrbType::ResetDevice,
            18 => TrbType::ForceEvent,
            19 => TrbType::NegotiateBandwidth,
            20 => TrbType::SetLatencyToleranceValue,
            21 => TrbType::GetPortBandwidth,
            22 => TrbType::ForceHeader,
            23 => TrbType::NoOpCmd,
            24 => TrbType::GetExtendedProperty,
            25 => TrbType::SetExtendedProperty,
            32 => TrbType::Transfer,
            33 => TrbType::CommandCompletion,
            34 => TrbType::PortStatusChange,
            36 => TrbType::Doorbell,
            37 => TrbType::HostController,
            38 => TrbType::DeviceNotification,
            39 => TrbType::MfindexWrap,
            _ => TrbType::Reserved,
        }
    }
}

impl FromSpecImpl<u8> for TrbType {
    open spec fn obeys_from_spec() -> bool {
        true
    }

    open spec fn from_spec(value: u8) -> TrbType {
        TrbType::spec_decode(value)
    }
}

/// The completion code of an event TRB.
#[derive(Clone, Copy, Debug, PartialEq, Eq, Structural)]
pub enum CompletionCode {
    Invalid,
    Success,
    DataBufferError,
    BabbleDetectedError,
    USBTransactionError,
    TRBError,
    StallError,
    ResourceError,
    BandwidthError,
    NoSlotsAvailableError,
    InvalidStreamTypeError,
    SlotNotEnabledError,
    EndpointNotEnabledError,
    ShortPacket,
    RingUnderrun,
    RingOverrun,
    VFEventRingFullError,
    ParameterError,
    BandwidthOverrunError,
    ContextStateError,
    NoPingResponseError,
    EventRingFullError,
    IncompatibleDeviceError,
    MissedServiceError,
    CommandRingStopped,
    CommandAborted,
    Stopped,
    StoppedLengthInvalid,
    StoppedShortPacket,
    MaxExitLatencyTooLargeError,
    Reserved,
    IsochBufferOverrun,
    EventLostError,
    UndefinedError,
    InvalidStreamIDError,
    SecondaryBandwidthError,
    SplitTransactionError,
    Reserved1,
}

impl CompletionCode {
    /// The code that a byte decodes to; every byte above 36 is reserved.
    pub open spec fn spec_decode(value: u8) -> CompletionCode {
        match value {
            0 => CompletionCode::Invalid,
            1 => CompletionCode::Success,
            2 => CompletionCode::DataBufferError,
            3 => CompletionCode::BabbleDetectedError,
            4 => CompletionCode::USBTransactionError,
            5 => CompletionCode::TRBError,
            6 => CompletionCode::StallError,
            7 => CompletionCode::ResourceError,
            8 => CompletionCode::BandwidthError,
            9 => CompletionCode::NoSlotsAvailableError,
            10 => CompletionCode::InvalidStreamTypeError,
            11 => CompletionCode::SlotNotEnabledError,
            12 => CompletionCode::EndpointNotEnabledError,
            13 => CompletionCode::ShortPacket,
            14 => CompletionCode::RingUnderrun,
            15 => CompletionCode::RingOverrun,
            16 => CompletionCode::VFEventRingFullError,
            17 => CompletionCode::ParameterError,
            18 => CompletionCode::BandwidthOverrunError,
            19 => CompletionCode::ContextStateError,
            20 => CompletionCode::NoPingResponseError,
            21 => CompletionCode::EventRingFullError,
            22 => CompletionCode::IncompatibleDeviceError,
            23 => CompletionCode::MissedServiceError,
            24 => CompletionCode::CommandRingStopped,
            25 => CompletionCode::CommandAborted,
            26 => CompletionCode::Stopped,
            27 => CompletionCode::StoppedLengthInvalid,
            28 => CompletionCode::StoppedShortPacket,
            29 => CompletionCode::MaxExitLatencyTooLargeError,
            30 => CompletionCode::Reserved,
            31 => CompletionCode::IsochBufferOverrun,
            32 => CompletionCode::EventLostError,
            33 => CompletionCode::UndefinedError,
            34 => CompletionCode::InvalidStreamIDError,
            35 => CompletionCode::SecondaryBandwidthError,
            36 => CompletionCode::SplitTransactionError,
            _ => CompletionCode::Reserved1,
        }
    }

    /// Whether a transfer that ended with this code delivered its data.
    pub open spec fn spec_is_success(self) -> bool {
        self == CompletionCode::Success || self == CompletionCode::ShortPacket
    }

    /// Whether a transfer that ended with this code delivered its data.
    pub fn is_success(&self) -> (r: bool)
        ensures
            r == self.spec_is_success(),
    {
        match self {
            CompletionCode::Success => true,
            CompletionCode::ShortPacket => true,
            _ => false,
        }
    }
}

impl From<u8> for CompletionCode {
    fn from(value: u8) -> (r: CompletionCode) {
        match value {
            0 => CompletionCode::Invalid,
            1 => CompletionCode::Success,
            2 => CompletionCode::DataBufferError,
            3 => CompletionCode::BabbleDetectedError,
            4 => CompletionCode::USBTransactionError,
            5 => CompletionCode::TRBError,
            6 => CompletionCode::StallError,
            7 => CompletionCode::ResourceError,
            8 => CompletionCode::BandwidthError,
            9 => CompletionCode::NoSlotsAvailableError,
            10 => CompletionCode::InvalidStreamTypeError,
            11 => CompletionCode::SlotNotEnabledError,
            12 => CompletionCode::EndpointNotEnabledError,
            13 => CompletionCode::ShortPacket,
            14 => CompletionCode::RingUnderrun,
            15 => CompletionCode::RingOverrun,
            16 => CompletionCode::VFEventRingFullError,
            17 => CompletionCode::ParameterError,
            18 => CompletionCode::BandwidthOverrunError,
            19 => CompletionCode::ContextStateError,
            20 => CompletionCode::NoPingResponseError,
            21 => CompletionCode::EventRingFullError,
            22 => CompletionCode::IncompatibleDeviceError,
            23 => CompletionCode::MissedServiceError,
            24 => CompletionCode::CommandRingStopped,
            25 => CompletionCode::CommandAborted,
            26 => CompletionCode::Stopped,
            27 => CompletionCode::StoppedLengthInvalid,
            28 => CompletionCode::StoppedShortPacket,
            29 => CompletionCode::MaxExitLatencyTooLargeError,
            30 => CompletionCode::Reserved,
            31 => CompletionCode::IsochBufferOverrun,
            32 => CompletionCode::EventLostError,
            33 => CompletionCode::UndefinedError,
            34 => CompletionCode::InvalidStreamIDError,
            35 => CompletionCode::SecondaryBandwidthError,
            36 => CompletionCode::SplitTransactionError,
            _ => CompletionCode::Reserved1,
        }
    }
}

impl FromSpecImpl<u8> for CompletionCode {
    open spec fn obeys_from_spec() -> bool {
        true
    }

    open spec fn from_spec(value: u8) -> CompletionCode {
        CompletionCode::spec_decode(value)
    }
}

/// A TRB of any type: parameter (low and high word), status and control.
#[derive(Clone, Copy, Debug, PartialEq, Eq, Structural)]
pub struct GenericTrb {
    pub data_low: u32,
    pub data_high: u32,
    pub status: u32,
    pub control: u32,
}

impl Default for GenericTrb {
    fn default() -> (r: GenericTrb)
        ensures
            r == GenericTrb::zero(),
    {
        GenericTrb { data_low: 0, data_high: 0, status: 0, control: 0 }
    }
}

impl GenericTrb {
    /// The TRB whose four words are zero.
    pub open spec fn zero() -> GenericTrb {
        GenericTrb { data_low: 0, data_high: 0, status: 0, control: 0 }
    }

    /// The 64-bit parameter: the low word below the high word.
    pub open spec fn parameter(self) -> u64 {
        (self.data_low as u64) | ((self.data_high as u64) << 32)
    }

    /// The type that the control word's tag decodes to.
    pub open spec fn spec_trb_type(self) -> TrbType {
        TrbType::spec_decode(field_of32(self.control, 0x3F, 10) as u8)
    }

    /// The cycle bit of the control word.
    pub open spec fn spec_pcs(self) -> bool {
        field_of32(self.control, 1, 0) == 1
    }

    /// The type of this TRB.
    pub fn trb_type(&self) -> (r: TrbType)
        ensures
            r == self.spec_trb_type(),
    {
        let tag: u32 = read_field32(self.control, 0x3F, 10);
        proof {
            lemma_field_bound32(self.control, 0x3F, 10);
        }
        TrbType::from(tag as u8)
    }

    /// Replaces the type tag; every other bit of the TRB stays.
    pub fn set_trb_type(&mut self, trb_type: TrbType)
        ensures
            final(self).control == with_field32(old(self).control, 0x3F, 10, trb_type.spec_code() as u32),
            final(self).data_low == old(self).data_low,
            final(self).data_high == old(self).data_high,
            final(self).status == old(self).status,
    {
        self.control = write_field32(self.control, 0x3F, 10, trb_type.code() as u32);
    }

    /// Replaces the slot id in the top byte of the control word.
    pub fn set_slot_id(&mut self, slot_id: u8)
        ensures
            final(self).control == with_field32(old(self).control, 0xFF, 24, slot_id as u32),
            final(self).data_low == old(self).data_low,
            final(self).data_high == old(self).data_high,
            final(self).status == old(self).status,
    {
        self.control = write_field32(self.control, 0xFF, 24, slot_id as u32);
    }

    /// Replaces the pointer in the parameter: bits 4 to 63 of `pointer`. The
    /// low four bits of the parameter stay.
    pub fn set_pointer(&mut self, pointer: u64)
        ensures
            final(self).data_low == with_field32(old(self).data_low, 0x0FFF_FFFF, 4, (pointer >> 4) as u32),
            final(self).data_high == (pointer >> 32) as u32,
            final(self).status == old(self).status,
            final(self).control == old(self).control,
    {
        self.data_low = write_field32(self.data_low, 0x0FFF_FFFF, 4, (pointer >> 4) as u32);
        self.data_high = (pointer >> 32) as u32;
    }

    /// The cycle bit.
    pub fn pcs(&self) -> (r: bool)
        ensures
            r == self.spec_pcs(),
    {
        read_field32(self.control, 1, 0) == 1
    }

    /// Replaces the cycle bit.
    pub fn set_pcs(&mut self, cycle: bool)
        ensures
            final(self).control == with_field32(old(self).control, 1, 0, if cycle { 1u32 } else { 0u32 }),
            final(self).data_low == old(self).data_low,
            final(self).data_high == old(self).data_high,
            final(self).status == old(self).status,
    {
        let bit: u32 = if cycle { 1 } else { 0 };
        self.control = write_field32(self.control, 1, 0, bit);
    }
}

/// A Link TRB: the last entry of a producer ring, which sends the
/// controller back to the ring's first entry.
pub struct LinkTrb(pub GenericTrb);

impl LinkTrb {
    /// The Link TRB that points to `addr`: type Link, the pointer in the
    /// parameter, everything else zero.
    pub open spec fn spec_new(addr: u64) -> GenericTrb {
        GenericTrb {
            data_low: with_field32(0, 0x0FFF_FFFF, 4, (addr >> 4) as u32),
            data_high: (addr >> 32) as u32,
            status: 0,
            control: with_field32(0, 0x3F, 10, 6),
        }
    }

    /// A Link TRB that points to the segment at physical address `addr`.
    pub fn new(addr: u64) -> (r: LinkTrb)
        ensures
            r.0 == LinkTrb::spec_new(addr),
    {
        let mut trb = GenericTrb::default();
        trb.set_trb_type(TrbType::Link);
        trb.set_pointer(addr);
        LinkTrb(trb)
    }

    /// The TRB as a ring stores it.
    pub fn cast_trb(self) -> (r: GenericTrb)
        ensures
            r == self.0,
    {
        self.0
    }

    /// Replaces the Toggle Cycle flag.
    pub fn set_tc(&mut self, toggle: bool)
        ensures
            final(self).0.control == with_field32(old(self).0.control, 1, 1, if toggle { 1u32 } else { 0u32 }),
            final(self).0.data_low == old(self).0.data_low,
            final(self).0.data_high == old(self).0.data_high,
            final(self).0.status == old(self).0.status,
    {
        let bit: u32 = if toggle { 1 } else { 0 };
        self.0.control = write_field32(self.0.control, 1, 1, bit);
    }
}

} // verus!
