//! xHCI transfer rings: the TRB wire format and the three ring kinds
//! (command ring, event ring, transfer ring) that share the cycle-bit
//! producer/consumer protocol.

use std::collections::VecDeque;

use vstd::prelude::*;

verus! {

/// TRB size in bytes.
pub const TRB_SIZE: usize = 16;

/// TRB types, as carried in bits 10..16 of the control word.
#[derive(Debug, Clone, Copy, PartialEq, Eq, Structural)]
pub enum TrbType {
    // Command TRBs
    EnableSlot,
    DisableSlot,
    AddressDevice,
    ConfigureEndpoint,
    EvaluateContext,
    ResetEndpoint,
    StopEndpoint,
    SetTrDequeue,
    ResetDevice,
    ForceEvent,
    NegotiateBandwidth,
    SetLatencyTolerance,
    GetPortBandwidth,
    ForceHeader,
    Noop,
    // Transfer TRBs
    Normal,
    SetupStage,
    DataStage,
    StatusStage,
    Isoch,
    Link,
    EventData,
    NoopTransfer,
    // Event TRBs
    TransferEvent,
    CommandCompletion,
    PortStatusChange,
    BandwidthRequest,
    Doorbell,
    HostController,
    DeviceNotification,
    MfindexWrap,
}

/// The 6-bit wire encoding of a TRB type.
pub open spec fn trb_type_u32(t: TrbType) -> u32 {
    match t {
        TrbType::Normal => 1,
        TrbType::SetupStage => 2,
        TrbType::DataStage => 3,
        TrbType::StatusStage => 4,
        TrbType::Isoch => 5,
        TrbType::Link => 6,
        TrbType::EventData => 7,
        TrbType::NoopTransfer => 8,
        TrbType::EnableSlot => 9,
        TrbType::DisableSlot => 10,
        TrbType::AddressDevice => 11,
        TrbType::ConfigureEndpoint => 12,
        TrbType::EvaluateContext => 13,
        TrbType::ResetEndpoint => 14,
        TrbType::StopEndpoint => 15,
        TrbType::SetTrDequeue => 16,
        TrbType::ResetDevice => 17,
        TrbType::ForceEvent => 18,
        TrbType::NegotiateBandwidth => 19,
        TrbType::SetLatencyTolerance => 20,
        TrbType::GetPortBandwidth => 21,
        TrbType::ForceHeader => 22,
        TrbType::Noop => 23,
        TrbType::TransferEvent => 32,
        TrbType::CommandCompletion => 33,
        TrbType::PortStatusChange => 34,
        TrbType::BandwidthRequest => 35,
        TrbType::Doorbell => 36,
        TrbType::HostController => 37,
        TrbType::DeviceNotification => 38,
        TrbType::MfindexWrap => 39,
    }
}

/// The TRB type a 6-bit wire value decodes to; unrecognized values are
/// rejected, never coerced.
pub open spec fn trb_type_of_u32(value: u32) -> Option<TrbType> {
    if value == 1 {
        Some(TrbType::Normal)
    } else if value == 2 {
        Some(TrbType::SetupStage)
    } else if value == 3 {
        Some(TrbType::DataStage)
    } else if value == 4 {
        Some(TrbType::StatusStage)
    } else if value == 5 {
        Some(TrbType::Isoch)
    } else if value == 6 {
        Some(TrbType::Link)
    } else if value == 7 {
        Some(TrbType::EventData)
    } else if value == 8 {
        Some(TrbType::NoopTransfer)
    } else if value == 9 {
        Some(TrbType::EnableSlot)
    } else if value == 10 {
        Some(TrbType::DisableSlot)
    } else if value == 11 {
        Some(TrbType::AddressDevice)
    } else if value == 12 {
        Some(TrbType::ConfigureEndpoint)
    } else if value == 13 {
        Some(TrbType::EvaluateContext)
    } else if value == 14 {
        Some(TrbType::ResetEndpoint)
    } else if value == 15 {
        Some(TrbType::StopEndpoint)
    } else if value == 16 {
        Some(TrbType::SetTrDequeue)
    } else if value == 17 {
        Some(TrbType::ResetDevice)
    } else if value == 18 {
        Some(TrbType::ForceEvent)
    } else if value == 19 {
        Some(TrbType::NegotiateBandwidth)
    } else if value == 20 {
        Some(TrbType::SetLatencyTolerance)
    } else if value == 21 {
        Some(TrbType::GetPortBandwidth)
    } else if value == 22 {
        Some(TrbType::ForceHeader)
    } else if value == 23 {
        Some(TrbType::Noop)
    } else if value == 32 {
        Some(TrbType::TransferEvent)
    } else if value == 33 {
        Some(TrbType::CommandCompletion)
    } else if value == 34 {
        Some(TrbType::PortStatusChange)
    } else if value == 35 {
        Some(TrbType::BandwidthRequest)
    } else if value == 36 {
        Some(TrbType::Doorbell)
    } else if value == 37 {
        Some(TrbType::HostController)
    } else if value == 38 {
        Some(TrbType::DeviceNotification)
    } else if value == 39 {
        Some(TrbType::MfindexWrap)
    } else {
        None
    }
}

/// Encoding then decoding a TRB type yields the type back.
pub proof fn lemma_trb_type_u32_round_trip(t: TrbType)
    ensures
        trb_type_of_u32(trb_type_u32(t)) == Some(t),
{
}

impl TrbType {
    /// The 6-bit wire value of this TRB type.
    pub fn as_u32(&self) -> (v: u32)
        ensures
            v == trb_type_u32(*self),
            v < 64,
    {
        match self {
            TrbType::Normal => 1,
            TrbType::SetupStage => 2,
            TrbType::DataStage => 3,
            TrbType::StatusStage => 4,
            TrbType::Isoch => 5,
            TrbType::Link => 6,
            TrbType::EventData => 7,
            TrbType::NoopTransfer => 8,
            TrbType::EnableSlot => 9,
            TrbType::DisableSlot => 10,
            TrbType::AddressDevice => 11,
            TrbType::ConfigureEndpoint => 12,
            TrbType::EvaluateContext => 13,
            TrbType::ResetEndpoint => 14,
            TrbType::StopEndpoint => 15,
            TrbType::SetTrDequeue => 16,
            TrbType::ResetDevice => 17,
            TrbType::ForceEvent => 18,
            TrbType::NegotiateBandwidth => 19,
            TrbType::SetLatencyTolerance => 20,
            TrbType::GetPortBandwidth => 21,
            TrbType::ForceHeader => 22,
            TrbType::Noop => 23,
            TrbType::TransferEvent => 32,
            TrbType::CommandCompletion => 33,
            TrbType::PortStatusChange => 34,
            TrbType::BandwidthRequest => 35,
            TrbType::Doorbell => 36,
            TrbType::HostController => 37,
            TrbType::DeviceNotification => 38,
            TrbType::MfindexWrap => 39,
        }
    }

    /// Decode a 6-bit wire value; unrecognized values are rejected.
    pub fn try_from(value: u32) -> (r: Result<TrbType, ()>)
        ensures
            r is Ok <==> trb_type_of_u32(value) is Some,
            r is Ok ==> trb_type_of_u32(value) == Some(r->Ok_0),
    {
        if 1 <= value && value <= 23 {
            match value {
                1 => Ok(TrbType::Normal),
                2 => Ok(TrbType::SetupStage),
                3 => Ok(TrbType::DataStage),
                4 => Ok(TrbType::StatusStage),
                5 => Ok(TrbType::Isoch),
                6 => Ok(TrbType::Link),
                7 => Ok(TrbType::EventData),
                8 => Ok(TrbType::NoopTransfer),
                9 => Ok(TrbType::EnableSlot),
                10 => Ok(TrbType::DisableSlot),
                11 => Ok(TrbType::AddressDevice),
                12 => Ok(TrbType::ConfigureEndpoint),
                13 => Ok(TrbType::EvaluateContext),
                14 => Ok(TrbType::ResetEndpoint),
                15 => Ok(TrbType::StopEndpoint),
                16 => Ok(TrbType::SetTrDequeue),
                17 => Ok(TrbType::ResetDevice),
                18 => Ok(TrbType::ForceEvent),
                19 => Ok(TrbType::NegotiateBandwidth),
                20 => Ok(TrbType::SetLatencyTolerance),
                21 => Ok(TrbType::GetPortBandwidth),
                22 => Ok(TrbType::ForceHeader),
                _ => Ok(TrbType::Noop),
            }
        } else if 32 <= value && value <= 39 {
            match value {
                32 => Ok(TrbType::TransferEvent),
                33 => Ok(TrbType::CommandCompletion),
                34 => Ok(TrbType::PortStatusChange),
                35 => Ok(TrbType::BandwidthRequest),
                36 => Ok(TrbType::Doorbell),
                37 => Ok(TrbType::HostController),
                38 => Ok(TrbType::DeviceNotification),
                _ => Ok(TrbType::MfindexWrap),
            }
        } else {
            Err(())
        }
    }
}

/// TRB completion codes.
#[derive(Debug, Clone, Copy, PartialEq, Eq, Structural)]
pub enum CompletionCode {
    Success,
    Pending,
    Error,
    Stalled,
    TrbError,
    ShortPacket,
    UndefinedError,
    ResourceError,
    BandwidthError,
    NoSlotsAvailable,
    InvalidStreamType,
    SlotNotEnabled,
    EndpointNotEnabled,
    RingUnderrun,
    RingOverrun,
    VfEventRingFull,
    ParameterError,
    BandwidthOverrun,
    ContextStateError,
    NoPingResponse,
    EventRingFull,
    IncompatibleDevice,
    MissedService,
    CommandRingStopped,
    CommandAborted,
    Stopped,
    StoppedLengthInvalid,
    StoppedShortPacket,
    ExitLatencyTooLarge,
    IsochBufferOverrun,
    EventLost,
    UndefinedError2,
    InvalidStreamId,
    SecondaryBandwidth,
    SplitTransaction,
}

/// The 8-bit wire encoding of a completion code.
pub open spec fn completion_code_u32(c: CompletionCode) -> u32 {
    match c {
        CompletionCode::Success => 1,
        CompletionCode::Pending => 2,
        CompletionCode::Error => 3,
        CompletionCode::UndefinedError => 4,
        CompletionCode::TrbError => 5,
        CompletionCode::Stalled => 6,
        CompletionCode::ResourceError => 7,
        CompletionCode::BandwidthError => 8,
        CompletionCode::NoSlotsAvailable => 9,
        CompletionCode::InvalidStreamType => 10,
        CompletionCode::SlotNotEnabled => 11,
        CompletionCode::EndpointNotEnabled => 12,
        CompletionCode::ShortPacket => 13,
        CompletionCode::RingUnderrun => 14,
        CompletionCode::RingOverrun => 15,
        CompletionCode::VfEventRingFull => 16,
        CompletionCode::ParameterError => 17,
        CompletionCode::BandwidthOverrun => 18,
        CompletionCode::ContextStateError => 19,
        CompletionCode::NoPingResponse => 20,
        CompletionCode::EventRingFull => 21,
        CompletionCode::IncompatibleDevice => 22,
        CompletionCode::MissedService => 23,
        CompletionCode::CommandRingStopped => 24,
        CompletionCode::CommandAborted => 25,
        CompletionCode::Stopped => 26,
        CompletionCode::StoppedLengthInvalid => 27,
        CompletionCode::StoppedShortPacket => 28,
        CompletionCode::ExitLatencyTooLarge => 29,
        CompletionCode::IsochBufferOverrun => 31,
        CompletionCode::EventLost => 32,
        CompletionCode::UndefinedError2 => 33,
        CompletionCode::InvalidStreamId => 34,
        CompletionCode::SecondaryBandwidth => 35,
        CompletionCode::SplitTransaction => 36,
    }
}

impl CompletionCode {
    /// The 8-bit wire value of this completion code.
    pub fn as_u32(&self) -> (v: u32)
        ensures
            v == completion_code_u32(*self),
            v < 256,
    {
        match self {
            CompletionCode::Success => 1,
            CompletionCode::Pending => 2,
            CompletionCode::Error => 3,
            CompletionCode::UndefinedError => 4,
            CompletionCode::TrbError => 5,
            CompletionCode::Stalled => 6,
            CompletionCode::ResourceError => 7,
            CompletionCode::BandwidthError => 8,
            CompletionCode::NoSlotsAvailable => 9,
            CompletionCode::InvalidStreamType => 10,
            CompletionCode::SlotNotEnabled => 11,
            CompletionCode::EndpointNotEnabled => 12,
            CompletionCode::ShortPacket => 13,
            CompletionCode::RingUnderrun => 14,
            CompletionCode::RingOverrun => 15,
            CompletionCode::VfEventRingFull => 16,
            CompletionCode::ParameterError => 17,
            CompletionCode::BandwidthOverrun => 18,
            CompletionCode::ContextStateError => 19,
            CompletionCode::NoPingResponse => 20,
            CompletionCode::EventRingFull => 21,
            CompletionCode::IncompatibleDevice => 22,
            CompletionCode::MissedService => 23,
            CompletionCode::CommandRingStopped => 24,
            CompletionCode::CommandAborted => 25,
            CompletionCode::Stopped => 26,
            CompletionCode::StoppedLengthInvalid => 27,
            CompletionCode::StoppedShortPacket => 28,
            CompletionCode::ExitLatencyTooLarge => 29,
            CompletionCode::IsochBufferOverrun => 31,
            CompletionCode::EventLost => 32,
            CompletionCode::UndefinedError2 => 33,
            CompletionCode::InvalidStreamId => 34,
            CompletionCode::SecondaryBandwidth => 35,
            CompletionCode::SplitTransaction => 36,
        }
    }
}

/// Transfer Request Block: the fixed 16-byte xHCI descriptor unit.
#[derive(Debug, Clone, Copy, PartialEq, Eq, Structural)]
pub struct Trb {
    /// Parameter (64-bit)
    pub parameter: u64,
    /// Status (32-bit): packs an 8-bit completion code (bits 24..32) and a
    /// 17-bit transfer length (bits 0..17).
    pub status: u32,
    /// Control (32-bit): packs the 6-bit type (bits 10..16), the cycle bit
    /// (bit 0) and the chain/IOC/immediate-data flags.
    pub control: u32,
}

impl Default for Trb {
    fn default() -> (r: Self)
        ensures
            r == (Trb { parameter: 0, status: 0, control: 0 }),
    {
        Trb { parameter: 0, status: 0, control: 0 }
    }
}

/// The 6-bit type field of a control word.
pub open spec fn control_type_bits(control: u32) -> u32 {
    (control >> 10) & 0x3F
}

/// The cycle bit of a control word.
pub open spec fn control_cycle_bit(control: u32) -> bool {
    control & 1 != 0
}

/// The 16 wire bytes of a TRB, little-endian: parameter, then status, then
/// control.
pub open spec fn trb_bytes(t: Trb) -> Seq<u8> {
    seq![
        (t.parameter & 0xFF) as u8,
        ((t.parameter >> 8) & 0xFF) as u8,
        ((t.parameter >> 16) & 0xFF) as u8,
        ((t.parameter >> 24) & 0xFF) as u8,
        ((t.parameter >> 32) & 0xFF) as u8,
        ((t.parameter >> 40) & 0xFF) as u8,
        ((t.parameter >> 48) & 0xFF) as u8,
        ((t.parameter >> 56) & 0xFF) as u8,
        (t.status & 0xFF) as u8,
        ((t.status >> 8) & 0xFF) as u8,
        ((t.status >> 16) & 0xFF) as u8,
        ((t.status >> 24) & 0xFF) as u8,
        (t.control & 0xFF) as u8,
        ((t.control >> 8) & 0xFF) as u8,
        ((t.control >> 16) & 0xFF) as u8,
        ((t.control >> 24) & 0xFF) as u8,
    ]
}

/// The TRB that 16 little-endian wire bytes decode to.
pub open spec fn trb_of_bytes(b: Seq<u8>) -> Trb
    recommends
        b.len() == 16,
{
    Trb {
        parameter: (b[0] as u64) | ((b[1] as u64) << 8) | ((b[2] as u64) << 16) | ((b[3] as u64)
            << 24) | ((b[4] as u64) << 32) | ((b[5] as u64) << 40) | ((b[6] as u64) << 48) | ((
        b[7] as u64) << 56),
        status: (b[8] as u32) | ((b[9] as u32) << 8) | ((b[10] as u32) << 16) | ((b[11] as u32)
            << 24),
        control: (b[12] as u32) | ((b[13] as u32) << 8) | ((b[14] as u32) << 16) | ((b[15] as u32)
            << 24),
    }
}

/// Reassembling a 64-bit value from its eight little-endian bytes yields the
/// value back.
proof fn lemma_u64_le_round_trip(x: u64)
    ensures
        (((x & 0xFF) as u8) as u64) | (((((x >> 8) & 0xFF) as u8) as u64) << 8) | (((((x >> 16)
            & 0xFF) as u8) as u64) << 16) | (((((x >> 24) & 0xFF) as u8) as u64) << 24) | (((((x
            >> 32) & 0xFF) as u8) as u64) << 32) | (((((x >> 40) & 0xFF) as u8) as u64) << 40) | ((
        (((x >> 48) & 0xFF) as u8) as u64) << 48) | (((((x >> 56) & 0xFF) as u8) as u64) << 56)
            == x,
{
    assert((((x & 0xFF) as u8) as u64) | (((((x >> 8) & 0xFF) as u8) as u64) << 8) | (((((x >> 16)
        & 0xFF) as u8) as u64) << 16) | (((((x >> 24) & 0xFF) as u8) as u64) << 24) | (((((x >> 32)
        & 0xFF) as u8) as u64) << 32) | (((((x >> 40) & 0xFF) as u8) as u64) << 40) | (((((x >> 48)
        & 0xFF) as u8) as u64) << 48) | (((((x >> 56) & 0xFF) as u8) as u64) << 56) == x)
        by (bit_vector);
}

/// Reassembling a 32-bit value from its four little-endian bytes yields the
/// value back.
proof fn lemma_u32_le_round_trip(x: u32)
    ensures
        (((x & 0xFF) as u8) as u32) | (((((x >> 8) & 0xFF) as u8) as u32) << 8) | (((((x >> 16)
            & 0xFF) as u8) as u32) << 16) | (((((x >> 24) & 0xFF) as u8) as u32) << 24) == x,
{
    assert((((x & 0xFF) as u8) as u32) | (((((x >> 8) & 0xFF) as u8) as u32) << 8) | (((((x >> 16)
        & 0xFF) as u8) as u32) << 16) | (((((x >> 24) & 0xFF) as u8) as u32) << 24) == x)
        by (bit_vector);
}

/// Rejection of 16 wire bytes whose type field holds an unrecognized
/// code.
#[derive(Debug, Clone, Copy, PartialEq, Eq, Structural)]
pub struct MalformedTrb;

/// Whether a TRB carries a recognized type code.
pub open spec fn trb_valid(t: Trb) -> bool {
    trb_type_of_u32(control_type_bits(t.control)) is Some
}

/// What decoding 16 wire bytes yields: the TRB they spell, or nothing
/// when its type code is unrecognized (rejected, never coerced).
pub open spec fn spec_decode(b: Seq<u8>) -> Option<Trb>
    recommends
        b.len() == 16,
{
    if trb_valid(trb_of_bytes(b)) {
        Some(trb_of_bytes(b))
    } else {
        None
    }
}

/// Law: decoding the encoding of any TRB yields the TRB itself.
pub proof fn lemma_trb_round_trip(t: Trb)
    ensures
        trb_of_bytes(trb_bytes(t)) == t,
{
    lemma_u64_le_round_trip(t.parameter);
    lemma_u32_le_round_trip(t.status);
    lemma_u32_le_round_trip(t.control);
    assert(trb_of_bytes(trb_bytes(t)).parameter == t.parameter);
    assert(trb_of_bytes(trb_bytes(t)).status == t.status);
    assert(trb_of_bytes(trb_bytes(t)).control == t.control);
}

/// Law: for every valid TRB (one whose type code is recognized),
/// decoding its encoding accepts and yields the TRB itself.
pub proof fn lemma_trb_decode_encode(t: Trb)
    requires
        trb_valid(t),
    ensures
        spec_decode(trb_bytes(t)) == Some(t),
{
    lemma_trb_round_trip(t);
}

impl Trb {
    /// Create a new TRB from its three raw words.
    pub fn new(parameter: u64, status: u32, control: u32) -> (r: Self)
        ensures
            r == (Trb { parameter, status, control }),
    {
        Self { parameter, status, control }
    }

    /// Get the TRB type, if the 6-bit type field holds a recognized value.
    pub fn trb_type(&self) -> (r: Option<TrbType>)
        ensures
            r == trb_type_of_u32(control_type_bits(self.control)),
    {
        let bits = (self.control >> 10) & 0x3F;
        match TrbType::try_from(bits) {
            Ok(t) => Some(t),
            Err(_) => None,
        }
    }

    /// Set the TRB type, leaving every other control bit unchanged.
    pub fn set_trb_type(&mut self, trb_type: TrbType)
        ensures
            final(self).control == (old(self).control & !(0x3Fu32 << 10)) | (trb_type_u32(trb_type)
                << 10),
            final(self).parameter == old(self).parameter,
            final(self).status == old(self).status,
            control_type_bits(final(self).control) == trb_type_u32(trb_type),
            control_cycle_bit(final(self).control) == control_cycle_bit(old(self).control),
    {
        let v = trb_type.as_u32();
        self.control = (self.control & !(0x3Fu32 << 10)) | (v << 10);
        proof {
            let c = old(self).control;
            assert(((c & !(0x3Fu32 << 10)) | (v << 10)) >> 10 & 0x3F == v && ((c & !(0x3Fu32
                << 10)) | (v << 10)) & 1 == c & 1) by (bit_vector)
                requires
                    v < 64,
            ;
        }
    }

    /// Check if this is the last TRB in a transfer descriptor (control bit 1).
    pub fn is_last(&self) -> (r: bool)
        ensures
            r == ((self.control >> 1) & 1 != 0),
    {
        (self.control >> 1) & 1 != 0
    }

    /// Set or clear the last-TRB flag (control bit 1).
    pub fn set_last(&mut self, last: bool)
        ensures
            final(self).control == if last {
                old(self).control | (1u32 << 1)
            } else {
                old(self).control & !(1u32 << 1)
            },
            final(self).parameter == old(self).parameter,
            final(self).status == old(self).status,
            ((final(self).control >> 1) & 1 != 0) == last,
    {
        if last {
            self.control = self.control | (1u32 << 1);
        } else {
            self.control = self.control & !(1u32 << 1);
        }
        proof {
            let c = old(self).control;
            assert((c | (1u32 << 1)) >> 1 & 1 == 1 && (c & !(1u32 << 1)) >> 1 & 1 == 0)
                by (bit_vector);
        }
    }

    /// Check if interrupt-on-completion is requested (control bit 5).
    pub fn is_interrupt_on_completion(&self) -> (r: bool)
        ensures
            r == ((self.control >> 5) & 1 != 0),
    {
        (self.control >> 5) & 1 != 0
    }

    /// Check if the TRB carries immediate data (control bit 6).
    pub fn is_immediate_data(&self) -> (r: bool)
        ensures
            r == ((self.control >> 6) & 1 != 0),
    {
        (self.control >> 6) & 1 != 0
    }

    /// Get the cycle bit (control bit 0).
    pub fn cycle_bit(&self) -> (r: bool)
        ensures
            r == control_cycle_bit(self.control),
    {
        self.control & 1 != 0
    }

    /// Set or clear the cycle bit (control bit 0).
    pub fn set_cycle_bit(&mut self, cycle: bool)
        ensures
            final(self).control == if cycle {
                old(self).control | 1u32
            } else {
                old(self).control & !1u32
            },
            final(self).parameter == old(self).parameter,
            final(self).status == old(self).status,
            control_cycle_bit(final(self).control) == cycle,
            control_type_bits(final(self).control) == control_type_bits(old(self).control),
    {
        if cycle {
            self.control = self.control | 1u32;
        } else {
            self.control = self.control & !1u32;
        }
        proof {
            let c = old(self).control;
            assert((c | 1u32) & 1 == 1 && (c & !1u32) & 1 == 0 && (c | 1u32) >> 10 & 0x3F == c
                >> 10 & 0x3F && (c & !1u32) >> 10 & 0x3F == c >> 10 & 0x3F) by (bit_vector);
        }
    }

    /// Get the 17-bit transfer length field (status bits 0..17).
    pub fn transfer_length(&self) -> (r: u32)
        ensures
            r == self.status & 0x1FFFF,
    {
        self.status & 0x1FFFF
    }

    /// Get the 8-bit completion code field (status bits 24..32).
    pub fn completion_code(&self) -> (r: u8)
        ensures
            r == (self.status >> 24) & 0xFF,
    {
        proof {
            let s = self.status;
            assert((s >> 24) & 0xFF < 256) by (bit_vector);
        }
        ((self.status >> 24) & 0xFF) as u8
    }

    /// Set the completion code field, leaving the other status bits unchanged.
    pub fn set_completion_code(&mut self, code: CompletionCode)
        ensures
            final(self).status == (old(self).status & !(0xFFu32 << 24)) | (completion_code_u32(code)
                << 24),
            final(self).parameter == old(self).parameter,
            final(self).control == old(self).control,
            (final(self).status >> 24) & 0xFF == completion_code_u32(code),
    {
        let v = code.as_u32();
        self.status = (self.status & !(0xFFu32 << 24)) | (v << 24);
        proof {
            let s = old(self).status;
            assert(((s & !(0xFFu32 << 24)) | (v << 24)) >> 24 & 0xFF == v) by (bit_vector)
                requires
                    v < 256,
            ;
        }
    }

    /// Encode to the 16-byte little-endian wire form.
    pub fn as_bytes(&self) -> (r: [u8; TRB_SIZE])
        ensures
            r@ == trb_bytes(*self),
    {
        let r: [u8; TRB_SIZE] = [
            (self.parameter & 0xFF) as u8,
            ((self.parameter >> 8) & 0xFF) as u8,
            ((self.parameter >> 16) & 0xFF) as u8,
            ((self.parameter >> 24) & 0xFF) as u8,
            ((self.parameter >> 32) & 0xFF) as u8,
            ((self.parameter >> 40) & 0xFF) as u8,
            ((self.parameter >> 48) & 0xFF) as u8,
            ((self.parameter >> 56) & 0xFF) as u8,
            (self.status & 0xFF) as u8,
            ((self.status >> 8) & 0xFF) as u8,
            ((self.status >> 16) & 0xFF) as u8,
            ((self.status >> 24) & 0xFF) as u8,
            (self.control & 0xFF) as u8,
            ((self.control >> 8) & 0xFF) as u8,
            ((self.control >> 16) & 0xFF) as u8,
            ((self.control >> 24) & 0xFF) as u8,
        ];
        proof {
            assert(r@ =~= trb_bytes(*self));
        }
        r
    }

    /// Encode to the 16-byte little-endian wire form; every TRB encodes.
    pub fn encode(&self) -> (r: [u8; TRB_SIZE])
        ensures
            r@ == trb_bytes(*self),
    {
        self.as_bytes()
    }

    /// Decode 16 little-endian wire bytes, rejecting a TRB whose 6-bit
    /// type code is unrecognized rather than coercing it.
    pub fn decode(bytes: &[u8; TRB_SIZE]) -> (r: Result<Self, MalformedTrb>)
        ensures
            r == (match spec_decode(bytes@) {
                Some(t) => Ok::<Trb, MalformedTrb>(t),
                None => Err(MalformedTrb),
            }),
    {
        let trb = Self::from_bytes(bytes);
        match trb.trb_type() {
            Some(_) => Ok(trb),
            None => Err(MalformedTrb),
        }
    }

    /// Decode from the 16-byte little-endian wire form.
    pub fn from_bytes(bytes: &[u8; TRB_SIZE]) -> (r: Self)
        ensures
            r == trb_of_bytes(bytes@),
    {
        Self {
            parameter: (bytes[0] as u64) | ((bytes[1] as u64) << 8) | ((bytes[2] as u64) << 16) | ((
            bytes[3] as u64) << 24) | ((bytes[4] as u64) << 32) | ((bytes[5] as u64) << 40) | ((
            bytes[6] as u64) << 48) | ((bytes[7] as u64) << 56),
            status: (bytes[8] as u32) | ((bytes[9] as u32) << 8) | ((bytes[10] as u32) << 16) | ((
            bytes[11] as u32) << 24),
            control: (bytes[12] as u32) | ((bytes[13] as u32) << 8) | ((bytes[14] as u32) << 16) | ((
            bytes[15] as u32) << 24),
        }
    }
}

/// Stamp a TRB with a producer cycle bit.
pub open spec fn with_cycle_bit(t: Trb, cycle: bool) -> Trb {
    Trb {
        control: if cycle {
            t.control | 1
        } else {
            t.control & !1
        },
        ..t
    }
}

/// Repeatedly queuing the TRBs of `ts`, in order, onto a ring whose pending
/// sequence is `pending`.
pub open spec fn queue_all(pending: Seq<Trb>, ts: Seq<Trb>) -> Seq<Trb>
    decreases ts.len(),
{
    if ts.len() == 0 {
        pending
    } else {
        queue_all(pending.push(ts[0]), ts.skip(1))
    }
}

/// Queuing a sequence of TRBs appends them, in order, to the pending
/// sequence.
pub proof fn lemma_queue_all_appends(pending: Seq<Trb>, ts: Seq<Trb>)
    ensures
        queue_all(pending, ts) == pending + ts,
    decreases ts.len(),
{
    if ts.len() == 0 {
        assert(queue_all(pending, ts) =~= pending + ts);
    } else {
        lemma_queue_all_appends(pending.push(ts[0]), ts.skip(1));
        assert(pending.push(ts[0]) + ts.skip(1) =~= pending + ts);
    }
}

/// The pending sequence after `k` calls of `next` on a ring whose pending
/// sequence was `pending`.
pub open spec fn after_nexts(pending: Seq<Trb>, k: int) -> Seq<Trb>
    recommends
        0 <= k <= pending.len(),
{
    pending.skip(k)
}

/// Ring FIFO law: queue the TRBs of `ts`, in order, onto an empty ring, and
/// the `k`-th following `next` (counting from zero) returns `ts[k]`; `next`
/// on an empty ring returns nothing (stated in `next`'s own contract).
pub proof fn lemma_ring_fifo(ts: Seq<Trb>, k: int)
    requires
        0 <= k < ts.len(),
    ensures
        queue_all(Seq::empty(), ts) == ts,
        after_nexts(ts, k).len() > 0,
        after_nexts(ts, k)[0] == ts[k],
{
    lemma_queue_all_appends(Seq::empty(), ts);
    assert(Seq::<Trb>::empty() + ts =~= ts);
}

// ============================================================================
// Command Ring
// ============================================================================

/// Command ring state.
#[derive(Debug, Clone, Copy, PartialEq, Eq, Structural)]
pub enum CommandRingState {
    Stopped,
    Running,
    Aborted,
}

/// The CommandCompletion event built for a consumed command: it carries the
/// command TRB's parameter (the sole correlation mechanism), the completion
/// code and slot id in its status word, and the cycle bit set.
pub open spec fn completion_event(command: Trb, slot_id: u8, code: CompletionCode) -> Trb {
    Trb {
        parameter: command.parameter,
        status: (completion_code_u32(code) << 24) | slot_id as u32,
        control: (33u32 << 10) | 1,
    }
}

/// Command ring: guest-produced, controller-consumed strict FIFO.
#[derive(Debug)]
pub struct CommandRing {
    /// Ring base address
    base: u64,
    /// Ring size in TRBs
    size: usize,
    /// Current enqueue pointer
    enqueue: u64,
    /// Current cycle bit
    cycle: bool,
    /// Ring state
    state: CommandRingState,
    /// Pending command queue
    pending: VecDeque<Trb>,
}

impl CommandRing {
    /// The ring base address.
    pub closed spec fn spec_base(&self) -> u64 {
        self.base
    }

    /// The ring size in TRBs.
    pub closed spec fn spec_size(&self) -> usize {
        self.size
    }

    /// The current enqueue pointer.
    pub closed spec fn spec_enqueue(&self) -> u64 {
        self.enqueue
    }

    /// The current cycle bit.
    pub closed spec fn spec_cycle(&self) -> bool {
        self.cycle
    }

    /// The ring state.
    pub closed spec fn spec_state(&self) -> CommandRingState {
        self.state
    }

    /// The commands queued and not yet consumed, oldest first.
    pub closed spec fn pending_trbs(&self) -> Seq<Trb> {
        self.pending@
    }

    /// Create a new command ring: stopped, empty, with a default size.
    pub fn new() -> (r: Self)
        ensures
            r.spec_base() == 0,
            r.spec_size() == 256,
            r.spec_enqueue() == 0,
            r.spec_cycle() == true,
            r.spec_state() == CommandRingState::Stopped,
            r.pending_trbs() == Seq::<Trb>::empty(),
    {
        Self {
            base: 0,
            size: 256,
            enqueue: 0,
            cycle: true,
            state: CommandRingState::Stopped,
            pending: VecDeque::new(),
        }
    }

    /// Initialize the ring: resets the cursor and cycle state and sets the
    /// ring running. A zero base or zero size is rejected and leaves the
    /// ring unchanged.
    pub fn init(&mut self, base: u64, size: usize) -> (accepted: bool)
        ensures
            accepted == (base != 0 && size != 0),
            accepted ==> final(self).spec_base() == base && final(self).spec_size() == size
                && final(self).spec_enqueue() == base && final(self).spec_cycle() == true && final(
            self).spec_state() == CommandRingState::Running,
            !accepted ==> *final(self) == *old(self),
            final(self).pending_trbs() == old(self).pending_trbs(),
    {
        if base == 0 || size == 0 {
            return false;
        }
        self.base = base;
        self.size = size;
        self.enqueue = base;
        self.cycle = true;
        self.state = CommandRingState::Running;
        true
    }

    /// Set the base address; the enqueue pointer follows it.
    pub fn set_base(&mut self, base: u64)
        ensures
            final(self).spec_base() == base,
            final(self).spec_enqueue() == base,
            final(self).spec_size() == old(self).spec_size(),
            final(self).spec_cycle() == old(self).spec_cycle(),
            final(self).spec_state() == old(self).spec_state(),
            final(self).pending_trbs() == old(self).pending_trbs(),
    {
        self.base = base;
        self.enqueue = base;
    }

    /// Get the enqueue pointer.
    pub fn enqueue_ptr(&self) -> (r: u64)
        ensures
            r == self.spec_enqueue(),
    {
        self.enqueue
    }

    /// Set the ring running.
    pub fn start(&mut self)
        ensures
            final(self).spec_state() == CommandRingState::Running,
            final(self).spec_base() == old(self).spec_base(),
            final(self).spec_size() == old(self).spec_size(),
            final(self).spec_enqueue() == old(self).spec_enqueue(),
            final(self).spec_cycle() == old(self).spec_cycle(),
            final(self).pending_trbs() == old(self).pending_trbs(),
    {
        self.state = CommandRingState::Running;
    }

    /// Stop the ring.
    pub fn stop(&mut self)
        ensures
            final(self).spec_state() == CommandRingState::Stopped,
            final(self).spec_base() == old(self).spec_base(),
            final(self).spec_size() == old(self).spec_size(),
            final(self).spec_enqueue() == old(self).spec_enqueue(),
            final(self).spec_cycle() == old(self).spec_cycle(),
            final(self).pending_trbs() == old(self).pending_trbs(),
    {
        self.state = CommandRingState::Stopped;
    }

    /// Abort the ring.
    pub fn abort(&mut self)
        ensures
            final(self).spec_state() == CommandRingState::Aborted,
            final(self).spec_base() == old(self).spec_base(),
            final(self).spec_size() == old(self).spec_size(),
            final(self).spec_enqueue() == old(self).spec_enqueue(),
            final(self).spec_cycle() == old(self).spec_cycle(),
            final(self).pending_trbs() == old(self).pending_trbs(),
    {
        self.state = CommandRingState::Aborted;
    }

    /// Check whether the ring is running.
    pub fn is_running(&self) -> (r: bool)
        ensures
            r == (self.spec_state() == CommandRingState::Running),
    {
        self.state == CommandRingState::Running
    }

    /// Queue a command TRB at the tail of the pending queue.
    pub fn queue(&mut self, trb: Trb)
        ensures
            final(self).pending_trbs() == old(self).pending_trbs().push(trb),
            final(self).spec_base() == old(self).spec_base(),
            final(self).spec_size() == old(self).spec_size(),
            final(self).spec_enqueue() == old(self).spec_enqueue(),
            final(self).spec_cycle() == old(self).spec_cycle(),
            final(self).spec_state() == old(self).spec_state(),
    {
        self.pending.push_back(trb);
    }

    /// Consume the oldest pending command; returns nothing on an empty ring.
    pub fn next(&mut self) -> (r: Option<Trb>)
        ensures
            old(self).pending_trbs().len() == 0 ==> r is None && final(self).pending_trbs() == old(self).pending_trbs(),
            old(self).pending_trbs().len() > 0 ==> r == Some(old(self).pending_trbs()[0]) && final(self).pending_trbs() == old(self).pending_trbs().skip(1),
            final(self).spec_base() == old(self).spec_base(),
            final(self).spec_size() == old(self).spec_size(),
            final(self).spec_enqueue() == old(self).spec_enqueue(),
            final(self).spec_cycle() == old(self).spec_cycle(),
            final(self).spec_state() == old(self).spec_state(),
    {
        let r = self.pending.pop_front();
        proof {
            if old(self).pending@.len() > 0 {
                assert(old(self).pending@.subrange(1, old(self).pending@.len() as int) =~= old(self).pending@.skip(1));
            }
        }
        r
    }

    /// Build the CommandCompletion event for a consumed command TRB.
    pub fn create_completion_event(&self, command: &Trb, slot_id: u8, code: CompletionCode) -> (r:
        Trb)
        ensures
            r == completion_event(*command, slot_id, code),
            control_type_bits(r.control) == trb_type_u32(TrbType::CommandCompletion),
            control_cycle_bit(r.control),
            (r.status >> 24) & 0xFF == completion_code_u32(code),
            r.status & 0xFF == slot_id,
    {
        let code_bits = code.as_u32();
        let type_bits = TrbType::CommandCompletion.as_u32();
        let r = Trb {
            parameter: command.parameter,
            status: (code_bits << 24) | slot_id as u32,
            control: (type_bits << 10) | 1,
        };
        proof {
            assert(((33u32 << 10) | 1) >> 10 & 0x3F == 33 && ((33u32 << 10) | 1) & 1 != 0)
                by (bit_vector);
            let c = code_bits;
            let sid = slot_id;
            assert(((c << 24) | (sid as u32)) >> 24 & 0xFF == c && ((c << 24) | (sid as u32))
                & 0xFF == sid as u32) by (bit_vector)
                requires
                    c < 256,
            ;
        }
        r
    }
}

impl Default for CommandRing {
    /// A default command ring is a fresh one.
    fn default() -> (r: Self)
        ensures
            r.spec_base() == 0,
            r.spec_size() == 256,
            r.spec_enqueue() == 0,
            r.spec_cycle() == true,
            r.spec_state() == CommandRingState::Stopped,
            r.pending_trbs() == Seq::<Trb>::empty(),
    {
        Self::new()
    }
}

// ============================================================================
// Event Ring
// ============================================================================

/// Event Ring Segment Table entry: one memory region of a multi-segment
/// event ring.
#[derive(Debug, Clone, Copy)]
pub struct EventRingSegment {
    /// Ring segment base address
    pub base: u64,
    /// Ring segment size in TRBs
    pub size: u16,
    /// Reserved wire bytes of the segment-table entry
    pub reserved: [u8; 6],
}

impl EventRingSegment {
    /// Create a new segment table entry.
    pub fn new(base: u64, size: u16) -> (r: Self)
        ensures
            r.base == base,
            r.size == size,
    {
        Self { base, size, reserved: [0; 6] }
    }
}

/// The producer cursor after one event is stamped into the current slot:
/// when the slot just filled was the segment's last, the cursor wraps to
/// slot zero of the next segment and the cycle bit flips; otherwise it
/// advances one slot. The result is (segment index, slot index, cycle).
pub open spec fn advanced_cursor(
    segment_count: int,
    segment_size: int,
    segment_idx: int,
    slot_idx: int,
    cycle: bool,
) -> (int, int, bool)
    recommends
        segment_count > 0,
{
    if slot_idx + 1 >= segment_size {
        ((segment_idx + 1) % segment_count, 0, !cycle)
    } else {
        (segment_idx, slot_idx + 1, cycle)
    }
}

/// The producer cursor of a fresh single-segment ring of `size` slots after
/// `k` events have been queued; the cursor starts at slot 0 with cycle `c`.
pub open spec fn single_segment_cursor_after(size: int, c: bool, k: nat) -> (int, int, bool)
    decreases k,
{
    if k == 0 {
        (0, 0, c)
    } else {
        let prev = single_segment_cursor_after(size, c, (k - 1) as nat);
        advanced_cursor(1, size, prev.0, prev.1, prev.2)
    }
}

/// Cycle-bit toggling law: on a fresh single-segment event ring of `size`
/// slots, the first `size - 1` queued events leave the producer cycle bit
/// unchanged; queuing the `size`-th event flips it exactly once, so the
/// following event carries the flipped bit.
pub proof fn lemma_single_segment_cycle_toggle(size: int, c: bool, k: nat)
    requires
        1 <= size,
        k <= size,
    ensures
        k < size ==> single_segment_cursor_after(size, c, k) == (0int, k as int, c),
        k == size ==> single_segment_cursor_after(size, c, k) == (0int, 0int, !c),
    decreases k,
{
    if k > 0 {
        lemma_single_segment_cycle_toggle(size, c, (k - 1) as nat);
    }
}

/// Event ring: controller-produced, multi-segment, guest-consumed.
#[derive(Debug)]
pub struct EventRing {
    /// Event ring segments
    segments: Vec<EventRingSegment>,
    /// Current segment index
    segment_idx: usize,
    /// Current slot index within the segment
    dequeue_idx: u16,
    /// Producer cycle state
    cycle: bool,
    /// Pending events
    pending: VecDeque<Trb>,
}

impl EventRing {
    /// The segment table.
    pub closed spec fn spec_segments(&self) -> Seq<EventRingSegment> {
        self.segments@
    }

    /// The current segment index of the producer cursor.
    pub closed spec fn spec_segment_idx(&self) -> usize {
        self.segment_idx
    }

    /// The current slot index of the producer cursor.
    pub closed spec fn spec_dequeue_idx(&self) -> u16 {
        self.dequeue_idx
    }

    /// The producer cycle state.
    pub closed spec fn spec_cycle(&self) -> bool {
        self.cycle
    }

    /// The events produced and not yet consumed, oldest first.
    pub closed spec fn pending_trbs(&self) -> Seq<Trb> {
        self.pending@
    }

    /// Create a new event ring with no segments.
    pub fn new() -> (r: Self)
        ensures
            r.spec_segments() == Seq::<EventRingSegment>::empty(),
            r.spec_segment_idx() == 0,
            r.spec_dequeue_idx() == 0,
            r.spec_cycle() == true,
            r.pending_trbs() == Seq::<Trb>::empty(),
    {
        Self { segments: Vec::new(), segment_idx: 0, dequeue_idx: 0, cycle: true, pending: VecDeque::new() }
    }

    /// Install a segment table and reset the cursor to the first segment.
    pub fn set_segments(&mut self, segments: Vec<EventRingSegment>)
        ensures
            final(self).spec_segments() == segments@,
            final(self).spec_segment_idx() == 0,
            final(self).spec_dequeue_idx() == 0,
            final(self).spec_cycle() == old(self).spec_cycle(),
            final(self).pending_trbs() == old(self).pending_trbs(),
    {
        self.segments = segments;
        self.segment_idx = 0;
        self.dequeue_idx = 0;
    }

    /// The flat guest address of the cursor slot, or 0 with no segments;
    /// the sum wraps at the top of the 64-bit address space.
    pub fn dequeue_ptr(&self) -> (r: u64)
        ensures
            self.spec_segment_idx() < self.spec_segments().len() ==> r == (
            self.spec_segments()[self.spec_segment_idx() as int].base + self.spec_dequeue_idx()
                * 16) % 0x1_0000_0000_0000_0000,
            self.spec_segment_idx() >= self.spec_segments().len() ==> r == 0,
    {
        if self.segment_idx < self.segments.len() {
            let segment = self.segments[self.segment_idx];
            segment.base.wrapping_add((self.dequeue_idx as u64) * 16)
        } else {
            0
        }
    }

    /// Resolve a flat address to (segment, slot) by linear search over the
    /// segment table; an address inside no segment leaves the cursor
    /// unchanged. The first containing segment wins.
    pub fn set_dequeue_ptr(&mut self, ptr: u64)
        ensures
            final(self).spec_segments() == old(self).spec_segments(),
            final(self).spec_cycle() == old(self).spec_cycle(),
            final(self).pending_trbs() == old(self).pending_trbs(),
            segment_containing(old(self).spec_segments(), ptr) is Some ==> {
                let idx = segment_containing(old(self).spec_segments(), ptr)->Some_0;
                final(self).spec_segment_idx() == idx && final(self).spec_dequeue_idx() == (ptr
                    - old(self).spec_segments()[idx].base) as u64 / 16
            },
            segment_containing(old(self).spec_segments(), ptr) is None ==> final(self).spec_segment_idx() == old(self).spec_segment_idx() && final(self).spec_dequeue_idx()
                == old(self).spec_dequeue_idx(),
    {
        let n = self.segments.len();
        let mut idx: usize = 0;
        while idx < n
            invariant
                n == self.segments@.len(),
                0 <= idx <= n,
                forall|j: int| 0 <= j < idx ==> !segment_contains(self.segments@[j], ptr),
                self == old(self),
            decreases n - idx,
        {
            let segment = self.segments[idx];
            if ptr >= segment.base && ptr - segment.base < (segment.size as u64) * 16 {
                proof {
                    lemma_segment_containing_first(self.segments@, ptr, idx as int);
                    assert((ptr - segment.base) / 16 < segment.size) by (nonlinear_arith)
                        requires
                            ptr >= segment.base,
                            ptr - segment.base < (segment.size as u64) * 16,
                    ;
                }
                self.segment_idx = idx;
                self.dequeue_idx = ((ptr - segment.base) / 16) as u16;
                return ;
            }
            idx = idx + 1;
        }
        proof {
            lemma_segment_containing_none(self.segments@, ptr);
        }
    }

    /// Queue an event: stamp it with the producer cycle bit, append it, and
    /// advance the producer cursor, wrapping to the next segment and
    /// flipping the cycle bit when the segment's last slot was just filled.
    pub fn queue(&mut self, event: Trb) -> (r: bool)
        ensures
            r == true,
            final(self).pending_trbs() == old(self).pending_trbs().push(
                with_cycle_bit(event, old(self).spec_cycle()),
            ),
            final(self).spec_segments() == old(self).spec_segments(),
            old(self).spec_segments().len() > 0 && old(self).spec_segment_idx() < old(self).spec_segments().len() ==> {
                let (seg, slot, cyc) = advanced_cursor(
                    old(self).spec_segments().len() as int,
                    old(self).spec_segments()[old(self).spec_segment_idx() as int].size as int,
                    old(self).spec_segment_idx() as int,
                    old(self).spec_dequeue_idx() as int,
                    old(self).spec_cycle(),
                );
                final(self).spec_segment_idx() == seg && final(self).spec_dequeue_idx() == slot
                    && final(self).spec_cycle() == cyc
            },
            !(old(self).spec_segments().len() > 0 && old(self).spec_segment_idx() < old(self).spec_segments().len()) ==> final(self).spec_segment_idx() == old(self).spec_segment_idx() && final(self).spec_dequeue_idx() == old(self).spec_dequeue_idx()
                && final(self).spec_cycle() == old(self).spec_cycle(),
    {
        let mut stamped = event;
        stamped.set_cycle_bit(self.cycle);
        self.pending.push_back(stamped);

        if self.segments.len() > 0 && self.segment_idx < self.segments.len() {
            let segment = self.segments[self.segment_idx];
            if self.dequeue_idx as usize + 1 >= segment.size as usize {
                self.dequeue_idx = 0;
                self.segment_idx = (self.segment_idx + 1) % self.segments.len();
                self.cycle = !self.cycle;
            } else {
                self.dequeue_idx = self.dequeue_idx + 1;
            }
        }
        true
    }

    /// Consume the oldest pending event; returns nothing when none is
    /// pending.
    pub fn next(&mut self) -> (r: Option<Trb>)
        ensures
            old(self).pending_trbs().len() == 0 ==> r is None && final(self).pending_trbs() == old(self).pending_trbs(),
            old(self).pending_trbs().len() > 0 ==> r == Some(old(self).pending_trbs()[0]) && final(self).pending_trbs() == old(self).pending_trbs().skip(1),
            final(self).spec_segments() == old(self).spec_segments(),
            final(self).spec_segment_idx() == old(self).spec_segment_idx(),
            final(self).spec_dequeue_idx() == old(self).spec_dequeue_idx(),
            final(self).spec_cycle() == old(self).spec_cycle(),
    {
        let r = self.pending.pop_front();
        proof {
            if old(self).pending@.len() > 0 {
                assert(old(self).pending@.subrange(1, old(self).pending@.len() as int) =~= old(self).pending@.skip(1));
            }
        }
        r
    }

    /// Check whether events are pending.
    pub fn has_pending(&self) -> (r: bool)
        ensures
            r == (self.pending_trbs().len() > 0),
    {
        self.pending.len() != 0
    }

    /// The number of pending events.
    pub fn pending_count(&self) -> (r: usize)
        ensures
            r == self.pending_trbs().len(),
    {
        self.pending.len()
    }
}

impl Default for EventRing {
    /// A default event ring is a fresh one.
    fn default() -> (r: Self)
        ensures
            r.spec_segments() == Seq::<EventRingSegment>::empty(),
            r.spec_segment_idx() == 0,
            r.spec_dequeue_idx() == 0,
            r.spec_cycle() == true,
            r.pending_trbs() == Seq::<Trb>::empty(),
    {
        Self::new()
    }
}

/// Whether a flat address falls inside a segment's slots.
pub open spec fn segment_contains(segment: EventRingSegment, ptr: u64) -> bool {
    ptr >= segment.base && ptr < segment.base + segment.size * 16
}

/// The index of the first segment whose slots contain `ptr`, if any.
pub open spec fn segment_containing(segments: Seq<EventRingSegment>, ptr: u64) -> Option<int>
    decreases segments.len(),
{
    if segments.len() == 0 {
        None
    } else if segment_contains(segments[0], ptr) {
        Some(0)
    } else {
        match segment_containing(segments.skip(1), ptr) {
            Some(i) => Some(i + 1),
            None => None,
        }
    }
}

/// If no segment before `idx` contains `ptr` and the segment at `idx` does,
/// then `idx` is the first containing segment.
proof fn lemma_segment_containing_first(segments: Seq<EventRingSegment>, ptr: u64, idx: int)
    requires
        0 <= idx < segments.len(),
        segment_contains(segments[idx], ptr),
        forall|j: int| 0 <= j < idx ==> !segment_contains(segments[j], ptr),
    ensures
        segment_containing(segments, ptr) == Some(idx),
    decreases idx,
{
    if idx == 0 {
    } else {
        lemma_segment_containing_first(segments.skip(1), ptr, idx - 1);
    }
}

/// If no segment contains `ptr`, the search finds none.
proof fn lemma_segment_containing_none(segments: Seq<EventRingSegment>, ptr: u64)
    requires
        forall|j: int| 0 <= j < segments.len() ==> !segment_contains(segments[j], ptr),
    ensures
        segment_containing(segments, ptr) is None,
    decreases segments.len(),
{
    if segments.len() > 0 {
        lemma_segment_containing_none(segments.skip(1), ptr);
    }
}

// ============================================================================
// Transfer Ring
// ============================================================================

/// The TransferEvent built for a drained transfer TRB: it carries the TRB's
/// parameter, the completion code in status bits 24..32, the residual
/// length masked to its 17-bit field, and the cycle bit set.
pub open spec fn transfer_event(trb: Trb, code: CompletionCode, length: u32) -> Trb {
    Trb {
        parameter: trb.parameter,
        status: (completion_code_u32(code) << 24) | (length & 0x1FFFF),
        control: (32u32 << 10) | 1,
    }
}

/// Transfer ring: one per endpoint, with producer (guest) and consumer
/// (controller) cycle state reconciled only through an explicit
/// dequeue-pointer command.
#[derive(Debug, Clone)]
pub struct TransferRing {
    /// Endpoint ID (1-31)
    ep_id: u8,
    /// Ring base address
    base: u64,
    /// Ring size in TRBs
    size: usize,
    /// Current enqueue pointer
    enqueue: u64,
    /// Current dequeue pointer
    dequeue: u64,
    /// Producer cycle state
    pcs: bool,
    /// Consumer cycle state
    ccs: bool,
    /// Transfer TRBs pending processing
    pending: VecDeque<Trb>,
}

impl TransferRing {
    /// The endpoint this ring belongs to.
    pub closed spec fn spec_ep_id(&self) -> u8 {
        self.ep_id
    }

    /// The ring base address.
    pub closed spec fn spec_base(&self) -> u64 {
        self.base
    }

    /// The ring size in TRBs.
    pub closed spec fn spec_size(&self) -> usize {
        self.size
    }

    /// The current enqueue pointer.
    pub closed spec fn spec_enqueue(&self) -> u64 {
        self.enqueue
    }

    /// The current dequeue pointer.
    pub closed spec fn spec_dequeue(&self) -> u64 {
        self.dequeue
    }

    /// The producer (guest) cycle state.
    pub closed spec fn spec_pcs(&self) -> bool {
        self.pcs
    }

    /// The consumer (controller) cycle state.
    pub closed spec fn spec_ccs(&self) -> bool {
        self.ccs
    }

    /// The transfers queued and not yet drained, oldest first.
    pub closed spec fn pending_trbs(&self) -> Seq<Trb> {
        self.pending@
    }

    /// Create a new transfer ring for an endpoint.
    pub fn new(ep_id: u8) -> (r: Self)
        ensures
            r.spec_ep_id() == ep_id,
            r.spec_base() == 0,
            r.spec_size() == 256,
            r.spec_enqueue() == 0,
            r.spec_dequeue() == 0,
            r.spec_pcs() == true,
            r.spec_ccs() == true,
            r.pending_trbs() == Seq::<Trb>::empty(),
    {
        Self {
            ep_id,
            base: 0,
            size: 256,
            enqueue: 0,
            dequeue: 0,
            pcs: true,
            ccs: true,
            pending: VecDeque::new(),
        }
    }

    /// Initialize the ring: resets both pointers and both cycle states. A
    /// zero base or zero size is rejected and leaves the ring unchanged.
    pub fn init(&mut self, base: u64, size: usize) -> (accepted: bool)
        ensures
            accepted == (base != 0 && size != 0),
            accepted ==> final(self).spec_base() == base && final(self).spec_size() == size
                && final(self).spec_enqueue() == base && final(self).spec_dequeue() == base
                && final(self).spec_pcs() == true && final(self).spec_ccs() == true,
            !accepted ==> *final(self) == *old(self),
            final(self).spec_ep_id() == old(self).spec_ep_id(),
            final(self).pending_trbs() == old(self).pending_trbs(),
    {
        if base == 0 || size == 0 {
            return false;
        }
        self.base = base;
        self.size = size;
        self.enqueue = base;
        self.dequeue = base;
        self.pcs = true;
        self.ccs = true;
        true
    }

    /// Get the enqueue pointer.
    pub fn enqueue_ptr(&self) -> (r: u64)
        ensures
            r == self.spec_enqueue(),
    {
        self.enqueue
    }

    /// Get the dequeue pointer.
    pub fn dequeue_ptr(&self) -> (r: u64)
        ensures
            r == self.spec_dequeue(),
    {
        self.dequeue
    }

    /// Resynchronize the controller-tracked dequeue pointer and consumer
    /// cycle state; the only path that does so, invoked by a SetTrDequeue
    /// command.
    pub fn set_dequeue_ptr(&mut self, ptr: u64, cycle: bool)
        ensures
            final(self).spec_dequeue() == ptr,
            final(self).spec_ccs() == cycle,
            final(self).spec_ep_id() == old(self).spec_ep_id(),
            final(self).spec_base() == old(self).spec_base(),
            final(self).spec_size() == old(self).spec_size(),
            final(self).spec_enqueue() == old(self).spec_enqueue(),
            final(self).spec_pcs() == old(self).spec_pcs(),
            final(self).pending_trbs() == old(self).pending_trbs(),
    {
        self.dequeue = ptr;
        self.ccs = cycle;
    }

    /// Queue a transfer TRB at the tail of the pending queue.
    pub fn queue(&mut self, trb: Trb)
        ensures
            final(self).pending_trbs() == old(self).pending_trbs().push(trb),
            final(self).spec_ep_id() == old(self).spec_ep_id(),
            final(self).spec_base() == old(self).spec_base(),
            final(self).spec_size() == old(self).spec_size(),
            final(self).spec_enqueue() == old(self).spec_enqueue(),
            final(self).spec_dequeue() == old(self).spec_dequeue(),
            final(self).spec_pcs() == old(self).spec_pcs(),
            final(self).spec_ccs() == old(self).spec_ccs(),
    {
        self.pending.push_back(trb);
    }

    /// Drain the oldest pending transfer TRB; returns nothing on an empty
    /// ring.
    pub fn next(&mut self) -> (r: Option<Trb>)
        ensures
            old(self).pending_trbs().len() == 0 ==> r is None && final(self).pending_trbs() == old(self).pending_trbs(),
            old(self).pending_trbs().len() > 0 ==> r == Some(old(self).pending_trbs()[0]) && final(self).pending_trbs() == old(self).pending_trbs().skip(1),
            final(self).spec_ep_id() == old(self).spec_ep_id(),
            final(self).spec_base() == old(self).spec_base(),
            final(self).spec_size() == old(self).spec_size(),
            final(self).spec_enqueue() == old(self).spec_enqueue(),
            final(self).spec_dequeue() == old(self).spec_dequeue(),
            final(self).spec_pcs() == old(self).spec_pcs(),
            final(self).spec_ccs() == old(self).spec_ccs(),
    {
        let r = self.pending.pop_front();
        proof {
            if old(self).pending@.len() > 0 {
                assert(old(self).pending@.subrange(1, old(self).pending@.len() as int) =~= old(self).pending@.skip(1));
            }
        }
        r
    }

    /// Check whether pending transfers exist.
    pub fn has_pending(&self) -> (r: bool)
        ensures
            r == (self.pending_trbs().len() > 0),
    {
        self.pending.len() != 0
    }

    /// Build the TransferEvent for a drained transfer TRB.
    pub fn create_transfer_event(&self, trb: &Trb, code: CompletionCode, length: u32) -> (r: Trb)
        ensures
            r == transfer_event(*trb, code, length),
            control_type_bits(r.control) == trb_type_u32(TrbType::TransferEvent),
            control_cycle_bit(r.control),
            (r.status >> 24) & 0xFF == completion_code_u32(code),
            r.status & 0x1FFFF == length & 0x1FFFF,
    {
        let code_bits = code.as_u32();
        let type_bits = TrbType::TransferEvent.as_u32();
        let r = Trb {
            parameter: trb.parameter,
            status: (code_bits << 24) | (length & 0x1FFFF),
            control: (type_bits << 10) | 1,
        };
        proof {
            assert(((32u32 << 10) | 1) >> 10 & 0x3F == 32 && ((32u32 << 10) | 1) & 1 != 0)
                by (bit_vector);
            let c = code_bits;
            let l = length;
            assert(((c << 24) | (l & 0x1FFFF)) >> 24 & 0xFF == c && ((c << 24) | (l & 0x1FFFF))
                & 0x1FFFF == l & 0x1FFFF) by (bit_vector)
                requires
                    c < 256,
            ;
        }
        r
    }
}

} // verus!
