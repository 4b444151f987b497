//! Flags parsed from fields

use vstd::prelude::*;

verus! {

/// A flag used by the bus controller to manage remote terminals on the bus.
///
/// Mode Codes are flags defined by the 1553 standard to provide the Bus
/// Controller (BC) with bus management and error handling/recovery capability.
/// They are divided into two groups- those with and those without an associated
/// data word.
///
/// Mode Codes are defined by bit times 15-19 (index 11-15) of the command word.
/// When a data word is associated with the mode code, the T/R bit determines if
/// the data word is transmitted or received by the remote terminal.
#[derive(Copy, Clone, Eq, PartialEq, Structural, Ord, PartialOrd, Hash, Debug)]
pub enum ModeCode {
    /// Dynamic Bus Control Mode Code is used to pass control of the data
    /// bus between terminals, thus supplying a "round robin" type of control.
    DynamicBusControl,
    /// Synchronize Mode Code is transmitted to an RT as a request that
    /// some predefined synchronization event occur.
    Synchronize,
    /// Transmit Status Word Mode Code requests that the RT transmit the
    /// status word associated with the previous message.
    TransmitStatusWord,
    /// Initiate Self Test Mode Code is used to take the receiving RT offline
    /// in order to perform internal testing.
    InitiateSelfTest,
    /// Transmitter Shutdown Mode Code is used by the BC to kill an RT
    /// which is continuously transmitting on the bus.
    TransmitterShutdown,
    /// Override Transmitter Shutdown Mode Code is used by the BC to restart
    /// an RT previously shutdown with the Transmitter Shutdown Mode Code.
    OverrideTransmitterShutdown,
    /// Inhibit Terminal Flag Bit Mode Code is used by the BC to request an RT
    /// set the Terminal Flag Bit in messages to 0, regardless of the true state.
    InhibitTerminalFlagBit,
    /// Override Inhibit Terminal Flag Bit is used by the BC to request an RT set
    /// the Terminal Flag Bit in messages based on the true state of the RT.
    OverrideInhibitTerminalFlagBit,
    /// Reset Remote Terminal Mode Code is used by the BC to request an RT set
    /// itself back to it's original state, as if it has just powered on.
    ResetRemoteTerminal,
    /// Transmit Vector Word Mode Code is used by the BC to request an RT transmit
    /// its current needs as a data word.
    TransmitVectorWord,
    /// Synchronize With Data Word Mode Code is the same as Synchronize, but with
    /// additional information included in a data word.
    SynchronizeWithDataWord,
    /// Transmit Last Command Word Mode Code is used by the BC to request that an RT
    /// transmit it's last received command word.
    TransmitLastCommandWord,
    /// Transmit Built-In-Test (BIT) Word Mode Code is used by the BC to request
    /// details of the BIT status of the RT.
    TransmitBITWord,
    /// Selected Transmitter Shutdown Mode Code is the same as TransmitterShutdown,
    /// but includes a specific bus (transmitter) in the data word.
    SelectedTransmitterShutdown,
    /// Override Selected Transmitter Shutdown Mode Code is the same as
    /// OverrideTransmitterShutdown but includes a specific bus (transmitter) in the data word.
    OverrideSelectedTransmitterShutdown,
    /// Unknown Mode Code is a catch-all for parsed mode codes that we don't
    /// recognize. This doesn't mean they are invalid, but they may be system-specific.
    UnknownModeCode(u8),
}

impl ModeCode {
    /// The mode code named by a 5-bit field value
    pub open spec fn spec_from_u8(value: u8) -> ModeCode {
        if value == 0b00000 {
            ModeCode::DynamicBusControl
        } else if value == 0b00001 {
            ModeCode::Synchronize
        } else if value == 0b00010 {
            ModeCode::TransmitStatusWord
        } else if value == 0b00011 {
            ModeCode::InitiateSelfTest
        } else if value == 0b00100 {
            ModeCode::TransmitterShutdown
        } else if value == 0b00101 {
            ModeCode::OverrideTransmitterShutdown
        } else if value == 0b00110 {
            ModeCode::InhibitTerminalFlagBit
        } else if value == 0b00111 {
            ModeCode::OverrideInhibitTerminalFlagBit
        } else if value == 0b01000 {
            ModeCode::ResetRemoteTerminal
        } else if value == 0b10000 {
            ModeCode::TransmitVectorWord
        } else if value == 0b10001 {
            ModeCode::SynchronizeWithDataWord
        } else if value == 0b10010 {
            ModeCode::TransmitLastCommandWord
        } else if value == 0b10011 {
            ModeCode::TransmitBITWord
        } else if value == 0b10100 {
            ModeCode::SelectedTransmitterShutdown
        } else if value == 0b10101 {
            ModeCode::OverrideSelectedTransmitterShutdown
        } else {
            ModeCode::UnknownModeCode(value)
        }
    }

    /// The numeric value of a mode code
    pub open spec fn spec_into_u8(self) -> u8 {
        match self {
            ModeCode::DynamicBusControl => 0b00000,
            ModeCode::Synchronize => 0b00001,
            ModeCode::TransmitStatusWord => 0b00010,
            ModeCode::InitiateSelfTest => 0b00011,
            ModeCode::TransmitterShutdown => 0b00100,
            ModeCode::OverrideTransmitterShutdown => 0b00101,
            ModeCode::InhibitTerminalFlagBit => 0b00110,
            ModeCode::OverrideInhibitTerminalFlagBit => 0b00111,
            ModeCode::ResetRemoteTerminal => 0b01000,
            ModeCode::TransmitVectorWord => 0b10000,
            ModeCode::SynchronizeWithDataWord => 0b10001,
            ModeCode::TransmitLastCommandWord => 0b10010,
            ModeCode::TransmitBITWord => 0b10011,
            ModeCode::SelectedTransmitterShutdown => 0b10100,
            ModeCode::OverrideSelectedTransmitterShutdown => 0b10101,
            ModeCode::UnknownModeCode(v) => v,
        }
    }

    /// The mode codes associated with transmit messages
    pub open spec fn spec_is_transmit(self) -> bool {
        match self {
            ModeCode::DynamicBusControl => true,
            ModeCode::SynchronizeWithDataWord => true,
            ModeCode::TransmitStatusWord => true,
            ModeCode::InitiateSelfTest => true,
            ModeCode::TransmitterShutdown => true,
            ModeCode::OverrideTransmitterShutdown => true,
            ModeCode::InhibitTerminalFlagBit => true,
            ModeCode::OverrideInhibitTerminalFlagBit => true,
            ModeCode::ResetRemoteTerminal => true,
            ModeCode::TransmitVectorWord => true,
            ModeCode::TransmitLastCommandWord => true,
            ModeCode::TransmitBITWord => true,
            _ => false,
        }
    }


    /// The mode codes associated with receive messages
    pub open spec fn spec_is_receive(self) -> bool {
        match self {
            ModeCode::Synchronize => true,
            ModeCode::SelectedTransmitterShutdown => true,
            ModeCode::OverrideSelectedTransmitterShutdown => true,
            _ => false,
        }
    }


    /// The mode codes that are followed by a data word
    pub open spec fn spec_has_data(self) -> bool {
        match self {
            ModeCode::TransmitVectorWord => true,
            ModeCode::Synchronize => true,
            ModeCode::TransmitLastCommandWord => true,
            ModeCode::TransmitBITWord => true,
            ModeCode::SelectedTransmitterShutdown => true,
            ModeCode::OverrideSelectedTransmitterShutdown => true,
            _ => false,
        }
    }


    /// The mode codes that may be sent to all terminals
    pub open spec fn spec_is_broadcast(self) -> bool {
        match self {
            ModeCode::SynchronizeWithDataWord => true,
            ModeCode::InitiateSelfTest => true,
            ModeCode::TransmitterShutdown => true,
            ModeCode::OverrideTransmitterShutdown => true,
            ModeCode::InhibitTerminalFlagBit => true,
            ModeCode::OverrideInhibitTerminalFlagBit => true,
            ModeCode::ResetRemoteTerminal => true,
            ModeCode::Synchronize => true,
            ModeCode::SelectedTransmitterShutdown => true,
            ModeCode::OverrideSelectedTransmitterShutdown => true,
            _ => false,
        }
    }

    /// Get the actual u8 value of the mode code
    pub fn value(&self) -> (r: u8)
        ensures
            r == self.spec_into_u8(),
    {
        u8::from(*self)
    }

    /// Check if mode code is associated with transmit messages
    ///
    /// If the TR bit is cleared, but this function returns true,
    /// then the message is illegal.
    pub fn is_transmit(&self) -> (r: bool)
        ensures
            r == self.spec_is_transmit(),
    {
        matches!(
            self,
            Self::DynamicBusControl
            | Self::SynchronizeWithDataWord
            | Self::TransmitStatusWord
            | Self::InitiateSelfTest
            | Self::TransmitterShutdown
            | Self::OverrideTransmitterShutdown
            | Self::InhibitTerminalFlagBit
            | Self::OverrideInhibitTerminalFlagBit
            | Self::ResetRemoteTerminal
            | Self::TransmitVectorWord
            | Self::TransmitLastCommandWord
            | Self::TransmitBITWord
        )
    }

    /// Check if mode code is associated with receive messages
    ///
    /// If the TR bit is set, but this function returns true,
    /// then the message is illegal.
    pub fn is_receive(&self) -> (r: bool)
        ensures
            r == self.spec_is_receive(),
    {
        matches!(
            self,
            Self::Synchronize
            | Self::SelectedTransmitterShutdown
            | Self::OverrideSelectedTransmitterShutdown
        )
    }

    /// Check if data is associated with the mode code
    pub fn has_data(&self) -> (r: bool)
        ensures
            r == self.spec_has_data(),
    {
        matches!(
            self,
            Self::TransmitVectorWord
            | Self::Synchronize
            | Self::TransmitLastCommandWord
            | Self::TransmitBITWord
            | Self::SelectedTransmitterShutdown
            | Self::OverrideSelectedTransmitterShutdown
        )
    }

    /// Check if mode code can be broadcast to all terminals
    ///
    /// Some mode codes can be sent to all receiving terminals
    /// (RTs) while for other codes, this would be nonsensical.
    pub fn is_broadcast(&self) -> (r: bool)
        ensures
            r == self.spec_is_broadcast(),
    {
        matches!(
            self,
            Self::SynchronizeWithDataWord
            | Self::InitiateSelfTest
            | Self::TransmitterShutdown
            | Self::OverrideTransmitterShutdown
            | Self::InhibitTerminalFlagBit
            | Self::OverrideInhibitTerminalFlagBit
            | Self::ResetRemoteTerminal
            | Self::Synchronize
            | Self::SelectedTransmitterShutdown
            | Self::OverrideSelectedTransmitterShutdown
        )
    }

    /// Check if the mode code is unrecognized
    pub fn is_unknown(&self) -> (r: bool)
        ensures
            r == (*self is UnknownModeCode),
    {
        matches!(self, Self::UnknownModeCode(_))
    }
}

impl From<u8> for ModeCode {
    fn from(value: u8) -> (r: Self) {
        match value {
            0b00000 => ModeCode::DynamicBusControl,
            0b00001 => ModeCode::Synchronize,
            0b00010 => ModeCode::TransmitStatusWord,
            0b00011 => ModeCode::InitiateSelfTest,
            0b00100 => ModeCode::TransmitterShutdown,
            0b00101 => ModeCode::OverrideTransmitterShutdown,
            0b00110 => ModeCode::InhibitTerminalFlagBit,
            0b00111 => ModeCode::OverrideInhibitTerminalFlagBit,
            0b01000 => ModeCode::ResetRemoteTerminal,
            0b10000 => ModeCode::TransmitVectorWord,
            0b10001 => ModeCode::SynchronizeWithDataWord,
            0b10010 => ModeCode::TransmitLastCommandWord,
            0b10011 => ModeCode::TransmitBITWord,
            0b10100 => ModeCode::SelectedTransmitterShutdown,
            0b10101 => ModeCode::OverrideSelectedTransmitterShutdown,
            v => ModeCode::UnknownModeCode(v),
        }
    }
}

impl vstd::std_specs::convert::FromSpecImpl<u8> for ModeCode {
    open spec fn obeys_from_spec() -> bool {
        true
    }

    open spec fn from_spec(v: u8) -> Self {
        ModeCode::spec_from_u8(v)
    }
}

impl From<ModeCode> for u8 {
    fn from(value: ModeCode) -> (r: Self) {
        match value {
            ModeCode::DynamicBusControl => 0b00000,
            ModeCode::Synchronize => 0b00001,
            ModeCode::TransmitStatusWord => 0b00010,
            ModeCode::InitiateSelfTest => 0b00011,
            ModeCode::TransmitterShutdown => 0b00100,
            ModeCode::OverrideTransmitterShutdown => 0b00101,
            ModeCode::InhibitTerminalFlagBit => 0b00110,
            ModeCode::OverrideInhibitTerminalFlagBit => 0b00111,
            ModeCode::ResetRemoteTerminal => 0b01000,
            ModeCode::TransmitVectorWord => 0b10000,
            ModeCode::SynchronizeWithDataWord => 0b10001,
            ModeCode::TransmitLastCommandWord => 0b10010,
            ModeCode::TransmitBITWord => 0b10011,
            ModeCode::SelectedTransmitterShutdown => 0b10100,
            ModeCode::OverrideSelectedTransmitterShutdown => 0b10101,
            ModeCode::UnknownModeCode(v) => v,
        }
    }
}

impl vstd::std_specs::convert::FromSpecImpl<ModeCode> for u8 {
    open spec fn obeys_from_spec() -> bool {
        true
    }

    open spec fn from_spec(v: ModeCode) -> Self {
        v.spec_into_u8()
    }
}

impl From<u16> for ModeCode {
    fn from(value: u16) -> (r: Self) {
        Self::from(value as u8)
    }
}

impl vstd::std_specs::convert::FromSpecImpl<u16> for ModeCode {
    open spec fn obeys_from_spec() -> bool {
        true
    }

    open spec fn from_spec(v: u16) -> Self {
        ModeCode::spec_from_u8(v as u8)
    }
}

impl From<ModeCode> for u16 {
    fn from(value: ModeCode) -> (r: Self) {
        u8::from(value) as u16
    }
}

impl vstd::std_specs::convert::FromSpecImpl<ModeCode> for u16 {
    open spec fn obeys_from_spec() -> bool {
        true
    }

    open spec fn from_spec(v: ModeCode) -> Self {
        v.spec_into_u8() as u16
    }
}

/// The direction of message transmission from the point of view of the remote terminal.
///
/// This flag is available in bit 9 (index 5). A transmit bit (logic 1)
/// indicates that the remote terminal is to transmit data, while a receive
/// command (logic 0) indicates that the remote terminal is going to receive
/// data. The only exceptions to this rule are associated with mode commands.
#[derive(Copy, Clone, Eq, PartialEq, Structural, Ord, PartialOrd, Hash, Debug)]
pub enum TransmitReceive {
    /// The remote terminal is receiving data
    Receive,
    /// The remote terminal is to transmit data
    Transmit,
}

impl TransmitReceive {
    /// The flag read from a field value: 0 is `Receive`, anything else is `Transmit`.
    pub open spec fn spec_from_u8(value: u8) -> Self {
        if value == 0 {
            TransmitReceive::Receive
        } else {
            TransmitReceive::Transmit
        }
    }

    /// The bit that stands for this flag.
    pub open spec fn spec_into_u8(self) -> u8 {
        match self {
            TransmitReceive::Receive => 0,
            TransmitReceive::Transmit => 1,
        }
    }

    /// Check if this enum is the Receive variant
    pub fn is_receive(&self) -> (r: bool)
        ensures
            r == (*self is Receive),
    {
        matches!(self, Self::Receive)
    }

    /// Check if this enum is the Transmit variant
    pub fn is_transmit(&self) -> (r: bool)
        ensures
            r == (*self is Transmit),
    {
        matches!(self, Self::Transmit)
    }
}

impl From<u8> for TransmitReceive {
    fn from(value: u8) -> (r: Self) {
        match value {
            0 => Self::Receive,
            _ => Self::Transmit,
        }
    }
}

impl vstd::std_specs::convert::FromSpecImpl<u8> for TransmitReceive {
    open spec fn obeys_from_spec() -> bool {
        true
    }

    open spec fn from_spec(v: u8) -> Self {
        TransmitReceive::spec_from_u8(v)
    }
}

impl From<TransmitReceive> for u8 {
    fn from(value: TransmitReceive) -> (r: Self) {
        match value {
            TransmitReceive::Receive => 0,
            TransmitReceive::Transmit => 1,
        }
    }
}

impl vstd::std_specs::convert::FromSpecImpl<TransmitReceive> for u8 {
    open spec fn obeys_from_spec() -> bool {
        true
    }

    open spec fn from_spec(v: TransmitReceive) -> Self {
        v.spec_into_u8()
    }
}

impl From<u16> for TransmitReceive {
    fn from(value: u16) -> (r: Self) {
        Self::from(value as u8)
    }
}

impl vstd::std_specs::convert::FromSpecImpl<u16> for TransmitReceive {
    open spec fn obeys_from_spec() -> bool {
        true
    }

    open spec fn from_spec(v: u16) -> Self {
        TransmitReceive::spec_from_u8(v as u8)
    }
}

impl From<TransmitReceive> for u16 {
    fn from(value: TransmitReceive) -> (r: Self) {
        u8::from(value) as u16
    }
}

impl vstd::std_specs::convert::FromSpecImpl<TransmitReceive> for u16 {
    open spec fn obeys_from_spec() -> bool {
        true
    }

    open spec fn from_spec(v: TransmitReceive) -> Self {
        v.spec_into_u8() as u16
    }
}

/// Used to differentiate between a command and status word.
///
/// The instrumentation bit in the status word is always set to a logic 0,
/// and if used, the same bit in a command word is set to logic 1.
///
/// **Most systems no longer use this flag, as the cost in reduced subaddress
/// range is too high**.
#[derive(Copy, Clone, Eq, PartialEq, Structural, Ord, PartialOrd, Hash, Debug)]
pub enum Instrumentation {
    /// The containing word is a status word
    Status,
    /// The containing word is a command word
    Command,
}

impl Instrumentation {
    /// The flag read from a field value: 0 is `Status`, anything else is `Command`.
    pub open spec fn spec_from_u8(value: u8) -> Self {
        if value == 0 {
            Instrumentation::Status
        } else {
            Instrumentation::Command
        }
    }

    /// The bit that stands for this flag.
    pub open spec fn spec_into_u8(self) -> u8 {
        match self {
            Instrumentation::Status => 0,
            Instrumentation::Command => 1,
        }
    }

    /// Check if this enum is the Status variant
    pub fn is_status(&self) -> (r: bool)
        ensures
            r == (*self is Status),
    {
        matches!(self, Self::Status)
    }

    /// Check if this enum is the Command variant
    pub fn is_command(&self) -> (r: bool)
        ensures
            r == (*self is Command),
    {
        matches!(self, Self::Command)
    }
}

impl From<u8> for Instrumentation {
    fn from(value: u8) -> (r: Self) {
        match value {
            0 => Self::Status,
            _ => Self::Command,
        }
    }
}

impl vstd::std_specs::convert::FromSpecImpl<u8> for Instrumentation {
    open spec fn obeys_from_spec() -> bool {
        true
    }

    open spec fn from_spec(v: u8) -> Self {
        Instrumentation::spec_from_u8(v)
    }
}

impl From<Instrumentation> for u8 {
    fn from(value: Instrumentation) -> (r: Self) {
        match value {
            Instrumentation::Status => 0,
            Instrumentation::Command => 1,
        }
    }
}

impl vstd::std_specs::convert::FromSpecImpl<Instrumentation> for u8 {
    open spec fn obeys_from_spec() -> bool {
        true
    }

    open spec fn from_spec(v: Instrumentation) -> Self {
        v.spec_into_u8()
    }
}

impl From<u16> for Instrumentation {
    fn from(value: u16) -> (r: Self) {
        Self::from(value as u8)
    }
}

impl vstd::std_specs::convert::FromSpecImpl<u16> for Instrumentation {
    open spec fn obeys_from_spec() -> bool {
        true
    }

    open spec fn from_spec(v: u16) -> Self {
        Instrumentation::spec_from_u8(v as u8)
    }
}

impl From<Instrumentation> for u16 {
    fn from(value: Instrumentation) -> (r: Self) {
        u8::from(value) as u16
    }
}

impl vstd::std_specs::convert::FromSpecImpl<Instrumentation> for u16 {
    open spec fn obeys_from_spec() -> bool {
        true
    }

    open spec fn from_spec(v: Instrumentation) -> Self {
        v.spec_into_u8() as u16
    }
}

/// Used by a remote terminal to tell the bus controller that it needs to be serviced.
///
/// This flag is located at bit time 11 (index 7) and is typically used when
/// the bus controller is polling terminals to determine if they require
/// processing.
#[derive(Copy, Clone, Eq, PartialEq, Structural, Ord, PartialOrd, Hash, Debug)]
pub enum ServiceRequest {
    /// This terminal does not require servicing
    NoService,
    /// This terminal requires servicing
    Service,
}

impl ServiceRequest {
    /// The flag read from a field value: 0 is `NoService`, anything else is `Service`.
    pub open spec fn spec_from_u8(value: u8) -> Self {
        if value == 0 {
            ServiceRequest::NoService
        } else {
            ServiceRequest::Service
        }
    }

    /// The bit that stands for this flag.
    pub open spec fn spec_into_u8(self) -> u8 {
        match self {
            ServiceRequest::NoService => 0,
            ServiceRequest::Service => 1,
        }
    }

    /// Check if this enum is the NoService variant
    pub fn is_noservice(&self) -> (r: bool)
        ensures
            r == (*self is NoService),
    {
        matches!(self, Self::NoService)
    }

    /// Check if this enum is the Service variant
    pub fn is_service(&self) -> (r: bool)
        ensures
            r == (*self is Service),
    {
        matches!(self, Self::Service)
    }
}

impl From<u8> for ServiceRequest {
    fn from(value: u8) -> (r: Self) {
        match value {
            0 => Self::NoService,
            _ => Self::Service,
        }
    }
}

impl vstd::std_specs::convert::FromSpecImpl<u8> for ServiceRequest {
    open spec fn obeys_from_spec() -> bool {
        true
    }

    open spec fn from_spec(v: u8) -> Self {
        ServiceRequest::spec_from_u8(v)
    }
}

impl From<ServiceRequest> for u8 {
    fn from(value: ServiceRequest) -> (r: Self) {
        match value {
            ServiceRequest::NoService => 0,
            ServiceRequest::Service => 1,
        }
    }
}

impl vstd::std_specs::convert::FromSpecImpl<ServiceRequest> for u8 {
    open spec fn obeys_from_spec() -> bool {
        true
    }

    open spec fn from_spec(v: ServiceRequest) -> Self {
        v.spec_into_u8()
    }
}

impl From<u16> for ServiceRequest {
    fn from(value: u16) -> (r: Self) {
        Self::from(value as u8)
    }
}

impl vstd::std_specs::convert::FromSpecImpl<u16> for ServiceRequest {
    open spec fn obeys_from_spec() -> bool {
        true
    }

    open spec fn from_spec(v: u16) -> Self {
        ServiceRequest::spec_from_u8(v as u8)
    }
}

impl From<ServiceRequest> for u16 {
    fn from(value: ServiceRequest) -> (r: Self) {
        u8::from(value) as u16
    }
}

impl vstd::std_specs::convert::FromSpecImpl<ServiceRequest> for u16 {
    open spec fn obeys_from_spec() -> bool {
        true
    }

    open spec fn from_spec(v: ServiceRequest) -> Self {
        v.spec_into_u8() as u16
    }
}

/// Indicates that the remote terminal has received a valid broadcast command.
///
/// On receiving such a command, the remote terminal sets this flag and
/// suppresses transmission of its status words.
#[derive(Copy, Clone, Eq, PartialEq, Structural, Ord, PartialOrd, Hash, Debug)]
pub enum BroadcastReceived {
    /// This terminal has not received a broadcast command
    NotReceived,
    /// This terminal received a broadcast command
    Received,
}

impl BroadcastReceived {
    /// The flag read from a field value: 0 is `NotReceived`, anything else is `Received`.
    pub open spec fn spec_from_u8(value: u8) -> Self {
        if value == 0 {
            BroadcastReceived::NotReceived
        } else {
            BroadcastReceived::Received
        }
    }

    /// The bit that stands for this flag.
    pub open spec fn spec_into_u8(self) -> u8 {
        match self {
            BroadcastReceived::NotReceived => 0,
            BroadcastReceived::Received => 1,
        }
    }

    /// Check if this enum is the NotReceived variant
    pub fn is_notreceived(&self) -> (r: bool)
        ensures
            r == (*self is NotReceived),
    {
        matches!(self, Self::NotReceived)
    }

    /// Check if this enum is the Received variant
    pub fn is_received(&self) -> (r: bool)
        ensures
            r == (*self is Received),
    {
        matches!(self, Self::Received)
    }
}

impl From<u8> for BroadcastReceived {
    fn from(value: u8) -> (r: Self) {
        match value {
            0 => Self::NotReceived,
            _ => Self::Received,
        }
    }
}

impl vstd::std_specs::convert::FromSpecImpl<u8> for BroadcastReceived {
    open spec fn obeys_from_spec() -> bool {
        true
    }

    open spec fn from_spec(v: u8) -> Self {
        BroadcastReceived::spec_from_u8(v)
    }
}

impl From<BroadcastReceived> for u8 {
    fn from(value: BroadcastReceived) -> (r: Self) {
        match value {
            BroadcastReceived::NotReceived => 0,
            BroadcastReceived::Received => 1,
        }
    }
}

impl vstd::std_specs::convert::FromSpecImpl<BroadcastReceived> for u8 {
    open spec fn obeys_from_spec() -> bool {
        true
    }

    open spec fn from_spec(v: BroadcastReceived) -> Self {
        v.spec_into_u8()
    }
}

impl From<u16> for BroadcastReceived {
    fn from(value: u16) -> (r: Self) {
        Self::from(value as u8)
    }
}

impl vstd::std_specs::convert::FromSpecImpl<u16> for BroadcastReceived {
    open spec fn obeys_from_spec() -> bool {
        true
    }

    open spec fn from_spec(v: u16) -> Self {
        BroadcastReceived::spec_from_u8(v as u8)
    }
}

impl From<BroadcastReceived> for u16 {
    fn from(value: BroadcastReceived) -> (r: Self) {
        u8::from(value) as u16
    }
}

impl vstd::std_specs::convert::FromSpecImpl<BroadcastReceived> for u16 {
    open spec fn obeys_from_spec() -> bool {
        true
    }

    open spec fn from_spec(v: BroadcastReceived) -> Self {
        v.spec_into_u8() as u16
    }
}

/// Indicates that the remote terminal is busy
///
/// The Busy bit, located at bit time 16 (index 12) is provided as
/// feedback to the bus controller when the remote terminal is unable to move
/// data between the remote terminal electronics and the subsystem.
#[derive(Copy, Clone, Eq, PartialEq, Structural, Ord, PartialOrd, Hash, Debug)]
pub enum TerminalBusy {
    /// This terminal is not busy
    NotBusy,
    /// This terminal is busy
    Busy,
}

impl TerminalBusy {
    /// The flag read from a field value: 0 is `NotBusy`, anything else is `Busy`.
    pub open spec fn spec_from_u8(value: u8) -> Self {
        if value == 0 {
            TerminalBusy::NotBusy
        } else {
            TerminalBusy::Busy
        }
    }

    /// The bit that stands for this flag.
    pub open spec fn spec_into_u8(self) -> u8 {
        match self {
            TerminalBusy::NotBusy => 0,
            TerminalBusy::Busy => 1,
        }
    }

    /// Check if this enum is the NotBusy variant
    pub fn is_notbusy(&self) -> (r: bool)
        ensures
            r == (*self is NotBusy),
    {
        matches!(self, Self::NotBusy)
    }

    /// Check if this enum is the Busy variant
    pub fn is_busy(&self) -> (r: bool)
        ensures
            r == (*self is Busy),
    {
        matches!(self, Self::Busy)
    }
}

impl From<u8> for TerminalBusy {
    fn from(value: u8) -> (r: Self) {
        match value {
            0 => Self::NotBusy,
            _ => Self::Busy,
        }
    }
}

impl vstd::std_specs::convert::FromSpecImpl<u8> for TerminalBusy {
    open spec fn obeys_from_spec() -> bool {
        true
    }

    open spec fn from_spec(v: u8) -> Self {
        TerminalBusy::spec_from_u8(v)
    }
}

impl From<TerminalBusy> for u8 {
    fn from(value: TerminalBusy) -> (r: Self) {
        match value {
            TerminalBusy::NotBusy => 0,
            TerminalBusy::Busy => 1,
        }
    }
}

impl vstd::std_specs::convert::FromSpecImpl<TerminalBusy> for u8 {
    open spec fn obeys_from_spec() -> bool {
        true
    }

    open spec fn from_spec(v: TerminalBusy) -> Self {
        v.spec_into_u8()
    }
}

impl From<u16> for TerminalBusy {
    fn from(value: u16) -> (r: Self) {
        Self::from(value as u8)
    }
}

impl vstd::std_specs::convert::FromSpecImpl<u16> for TerminalBusy {
    open spec fn obeys_from_spec() -> bool {
        true
    }

    open spec fn from_spec(v: u16) -> Self {
        TerminalBusy::spec_from_u8(v as u8)
    }
}

impl From<TerminalBusy> for u16 {
    fn from(value: TerminalBusy) -> (r: Self) {
        u8::from(value) as u16
    }
}

impl vstd::std_specs::convert::FromSpecImpl<TerminalBusy> for u16 {
    open spec fn obeys_from_spec() -> bool {
        true
    }

    open spec fn from_spec(v: TerminalBusy) -> Self {
        v.spec_into_u8() as u16
    }
}

/// Informs the bus controller that the terminal has accepted bus control.
///
/// This flag is set by remote terminals that have received the Dynamic Bus
/// Control Mode Code and have accepted control of the bus.
#[derive(Copy, Clone, Eq, PartialEq, Structural, Ord, PartialOrd, Hash, Debug)]
pub enum DynamicBusAcceptance {
    /// This terminal has refused control of the bus
    NotAccepted,
    /// This terminal has accepted control of the bus
    Accepted,
}

impl DynamicBusAcceptance {
    /// The flag read from a field value: 0 is `NotAccepted`, anything else is `Accepted`.
    pub open spec fn spec_from_u8(value: u8) -> Self {
        if value == 0 {
            DynamicBusAcceptance::NotAccepted
        } else {
            DynamicBusAcceptance::Accepted
        }
    }

    /// The bit that stands for this flag.
    pub open spec fn spec_into_u8(self) -> u8 {
        match self {
            DynamicBusAcceptance::NotAccepted => 0,
            DynamicBusAcceptance::Accepted => 1,
        }
    }

    /// Check if this enum is the NotAccepted variant
    pub fn is_notaccepted(&self) -> (r: bool)
        ensures
            r == (*self is NotAccepted),
    {
        matches!(self, Self::NotAccepted)
    }

    /// Check if this enum is the Accepted variant
    pub fn is_accepted(&self) -> (r: bool)
        ensures
            r == (*self is Accepted),
    {
        matches!(self, Self::Accepted)
    }
}

impl From<u8> for DynamicBusAcceptance {
    fn from(value: u8) -> (r: Self) {
        match value {
            0 => Self::NotAccepted,
            _ => Self::Accepted,
        }
    }
}

impl vstd::std_specs::convert::FromSpecImpl<u8> for DynamicBusAcceptance {
    open spec fn obeys_from_spec() -> bool {
        true
    }

    open spec fn from_spec(v: u8) -> Self {
        DynamicBusAcceptance::spec_from_u8(v)
    }
}

impl From<DynamicBusAcceptance> for u8 {
    fn from(value: DynamicBusAcceptance) -> (r: Self) {
        match value {
            DynamicBusAcceptance::NotAccepted => 0,
            DynamicBusAcceptance::Accepted => 1,
        }
    }
}

impl vstd::std_specs::convert::FromSpecImpl<DynamicBusAcceptance> for u8 {
    open spec fn obeys_from_spec() -> bool {
        true
    }

    open spec fn from_spec(v: DynamicBusAcceptance) -> Self {
        v.spec_into_u8()
    }
}

impl From<u16> for DynamicBusAcceptance {
    fn from(value: u16) -> (r: Self) {
        Self::from(value as u8)
    }
}

impl vstd::std_specs::convert::FromSpecImpl<u16> for DynamicBusAcceptance {
    open spec fn obeys_from_spec() -> bool {
        true
    }

    open spec fn from_spec(v: u16) -> Self {
        DynamicBusAcceptance::spec_from_u8(v as u8)
    }
}

impl From<DynamicBusAcceptance> for u16 {
    fn from(value: DynamicBusAcceptance) -> (r: Self) {
        u8::from(value) as u16
    }
}

impl vstd::std_specs::convert::FromSpecImpl<DynamicBusAcceptance> for u16 {
    open spec fn obeys_from_spec() -> bool {
        true
    }

    open spec fn from_spec(v: DynamicBusAcceptance) -> Self {
        v.spec_into_u8() as u16
    }
}

/// The address of a remote terminal
///
/// This 5-bit address is found in the Terminal Address (TA) field located at bit times 4-8
/// (index 0-4). A value of 0b11111 is reserved in the TA field as a broadcast address. If
/// a value larger than 0b11111 is parsed, it is truncated to 0b11111.
#[derive(Debug, Clone, Copy, PartialEq, Eq, Structural)]
pub enum Address {
    /// The address references a terminal
    Value(u8),
    /// The address is a reserved broadcast value
    Broadcast(u8),
}

impl Address {
    /// The address read from a field value
    pub open spec fn spec_from_u8(value: u8) -> Self {
        if value < 0b11111 {
            Address::Value(value)
        } else {
            Address::Broadcast(0b11111)
        }
    }

    /// The value held by the address
    pub open spec fn spec_into_u8(self) -> u8 {
        match self {
            Address::Value(k) => k,
            Address::Broadcast(k) => k,
        }
    }

    /// Check if this enum contains an address
    pub fn is_value(&self) -> (r: bool)
        ensures
            r == (*self is Value),
    {
        matches!(self, Self::Value(_))
    }

    /// Check if this address is a reserved value
    pub fn is_broadcast(&self) -> (r: bool)
        ensures
            r == (*self is Broadcast),
    {
        matches!(self, Self::Broadcast(_))
    }
}

impl From<u8> for Address {
    fn from(v: u8) -> (r: Address) {
        if v < 0b11111 {
            Address::Value(v)
        } else {
            Address::Broadcast(0b11111)
        }
    }
}

impl vstd::std_specs::convert::FromSpecImpl<u8> for Address {
    open spec fn obeys_from_spec() -> bool {
        true
    }

    open spec fn from_spec(v: u8) -> Self {
        Address::spec_from_u8(v)
    }
}

impl From<Address> for u8 {
    fn from(v: Address) -> (r: u8) {
        match v {
            Address::Value(k) => k,
            Address::Broadcast(k) => k,
        }
    }
}

impl vstd::std_specs::convert::FromSpecImpl<Address> for u8 {
    open spec fn obeys_from_spec() -> bool {
        true
    }

    open spec fn from_spec(v: Address) -> Self {
        v.spec_into_u8()
    }
}

impl From<u16> for Address {
    fn from(value: u16) -> (r: Self) {
        if value < 0b11111 {
            Address::Value(value as u8)
        } else {
            Address::Broadcast(0b11111)
        }
    }
}

impl vstd::std_specs::convert::FromSpecImpl<u16> for Address {
    open spec fn obeys_from_spec() -> bool {
        true
    }

    open spec fn from_spec(v: u16) -> Self {
        if v < 0b11111 {
            Address::Value(v as u8)
        } else {
            Address::Broadcast(0b11111)
        }
    }
}

impl From<Address> for u16 {
    fn from(value: Address) -> (r: Self) {
        u8::from(value) as u16
    }
}

impl vstd::std_specs::convert::FromSpecImpl<Address> for u16 {
    open spec fn obeys_from_spec() -> bool {
        true
    }

    open spec fn from_spec(v: Address) -> Self {
        v.spec_into_u8() as u16
    }
}

/// The address of a subsystem within a remote terminal.
///
/// This 5-bit address is found in the Subaddress (SA) field located at bit times
/// 10-14 (index 6-10). If the SA value is 0b00000 or 0b11111, then the field is
/// decoded as a Mode Code command.
#[derive(Debug, Clone, Copy, PartialEq, Eq, Structural)]
pub enum SubAddress {
    /// The address references a subsystem
    Value(u8),
    /// The address is a reserved mode code flag
    ModeCode(u8),
}

impl SubAddress {
    /// The address read from a field value
    pub open spec fn spec_from_u8(value: u8) -> Self {
        if value < 0b11111 && value > 0 {
            SubAddress::Value(value)
        } else {
            SubAddress::ModeCode(value & 0b11111)
        }
    }

    /// The value held by the address
    pub open spec fn spec_into_u8(self) -> u8 {
        match self {
            SubAddress::Value(k) => k,
            SubAddress::ModeCode(k) => k,
        }
    }

    /// Check if this enum contains an address
    pub fn is_value(&self) -> (r: bool)
        ensures
            r == (*self is Value),
    {
        matches!(self, Self::Value(_))
    }

    /// Check if this address is a reserved value
    pub fn is_mode_code(&self) -> (r: bool)
        ensures
            r == (*self is ModeCode),
    {
        matches!(self, Self::ModeCode(_))
    }
}

impl From<u8> for SubAddress {
    fn from(v: u8) -> (r: SubAddress) {
        if v < 0b11111 && v > 0 {
            SubAddress::Value(v)
        } else {
            SubAddress::ModeCode(v & 0b11111)
        }
    }
}

impl vstd::std_specs::convert::FromSpecImpl<u8> for SubAddress {
    open spec fn obeys_from_spec() -> bool {
        true
    }

    open spec fn from_spec(v: u8) -> Self {
        SubAddress::spec_from_u8(v)
    }
}

impl From<SubAddress> for u8 {
    fn from(v: SubAddress) -> (r: u8) {
        match v {
            SubAddress::Value(k) => k,
            SubAddress::ModeCode(k) => k,
        }
    }
}

impl vstd::std_specs::convert::FromSpecImpl<SubAddress> for u8 {
    open spec fn obeys_from_spec() -> bool {
        true
    }

    open spec fn from_spec(v: SubAddress) -> Self {
        v.spec_into_u8()
    }
}

impl From<u16> for SubAddress {
    fn from(value: u16) -> (r: Self) {
        Self::from(value as u8)
    }
}

impl vstd::std_specs::convert::FromSpecImpl<u16> for SubAddress {
    open spec fn obeys_from_spec() -> bool {
        true
    }

    open spec fn from_spec(v: u16) -> Self {
        SubAddress::spec_from_u8(v as u8)
    }
}

impl From<SubAddress> for u16 {
    fn from(value: SubAddress) -> (r: Self) {
        u8::from(value) as u16
    }
}

impl vstd::std_specs::convert::FromSpecImpl<SubAddress> for u16 {
    open spec fn obeys_from_spec() -> bool {
        true
    }

    open spec fn from_spec(v: SubAddress) -> Self {
        v.spec_into_u8() as u16
    }
}

/// Reserved bits that should always be zero
///
/// Bit times 12-14 (index 8-10) are reserved for future growth of the standard
/// and must be set to a logic "0". The bus controller should declare a message
/// in error if the remote terminal responds with any of these bits set in its
/// status word.
#[derive(Copy, Clone, Eq, PartialEq, Structural, Ord, PartialOrd, Hash, Debug)]
pub enum Reserved {
    /// The reserved bits are empty
    Empty,
    /// The reserved bits are not empty
    Value(u8),
}

impl Reserved {
    /// The reserved flag read from a field value
    pub open spec fn spec_from_u8(value: u8) -> Self {
        if value == 0 {
            Reserved::Empty
        } else {
            Reserved::Value(value)
        }
    }

    /// The value held by the reserved flag
    pub open spec fn spec_into_u8(self) -> u8 {
        match self {
            Reserved::Empty => 0,
            Reserved::Value(v) => v,
        }
    }

    /// Check if this enum is the Empty variant
    pub fn is_none(&self) -> (r: bool)
        ensures
            r == (*self is Empty),
    {
        matches!(self, Self::Empty)
    }

    /// Check if this enum is the Value variant
    pub fn is_value(&self) -> (r: bool)
        ensures
            r == (*self is Value),
    {
        matches!(self, Self::Value(_))
    }
}

impl From<u8> for Reserved {
    fn from(value: u8) -> (r: Self) {
        match value {
            0 => Self::Empty,
            v => Self::Value(v),
        }
    }
}

impl vstd::std_specs::convert::FromSpecImpl<u8> for Reserved {
    open spec fn obeys_from_spec() -> bool {
        true
    }

    open spec fn from_spec(v: u8) -> Self {
        Reserved::spec_from_u8(v)
    }
}

impl From<Reserved> for u8 {
    fn from(value: Reserved) -> (r: Self) {
        match value {
            Reserved::Empty => 0,
            Reserved::Value(v) => v,
        }
    }
}

impl vstd::std_specs::convert::FromSpecImpl<Reserved> for u8 {
    open spec fn obeys_from_spec() -> bool {
        true
    }

    open spec fn from_spec(v: Reserved) -> Self {
        v.spec_into_u8()
    }
}

impl From<u16> for Reserved {
    fn from(value: u16) -> (r: Self) {
        Self::from(value as u8)
    }
}

impl vstd::std_specs::convert::FromSpecImpl<u16> for Reserved {
    open spec fn obeys_from_spec() -> bool {
        true
    }

    open spec fn from_spec(v: u16) -> Self {
        Reserved::spec_from_u8(v as u8)
    }
}

impl From<Reserved> for u16 {
    fn from(value: Reserved) -> (r: Self) {
        u8::from(value) as u16
    }
}

impl vstd::std_specs::convert::FromSpecImpl<Reserved> for u16 {
    open spec fn obeys_from_spec() -> bool {
        true
    }

    open spec fn from_spec(v: Reserved) -> Self {
        v.spec_into_u8() as u16
    }
}


impl Address {
    /// An address that a five bit field can hold and read back unchanged:
    /// a terminal address below 31, or the broadcast address 31.
    pub open spec fn spec_is_canonical(self) -> bool {
        match self {
            Address::Value(k) => k < 0b11111,
            Address::Broadcast(k) => k == 0b11111,
        }
    }
}

impl SubAddress {
    /// A subaddress that a five bit field can hold and read back unchanged:
    /// a subsystem address from 1 to 30, or one of the mode code flags 0 and 31.
    pub open spec fn spec_is_canonical(self) -> bool {
        match self {
            SubAddress::Value(k) => 0 < k < 0b11111,
            SubAddress::ModeCode(k) => k == 0 || k == 0b11111,
        }
    }
}

impl ModeCode {
    /// A mode code that a five bit field can hold and read back unchanged:
    /// any named code, or an unknown code below 32 that names no other code.
    pub open spec fn spec_is_canonical(self) -> bool {
        match self {
            ModeCode::UnknownModeCode(k) => k < 32 && ModeCode::spec_from_u8(k) is UnknownModeCode,
            _ => true,
        }
    }
}

impl Reserved {
    /// A reserved value that the three reserved bits can hold and read back unchanged.
    pub open spec fn spec_is_canonical(self) -> bool {
        match self {
            Reserved::Empty => true,
            Reserved::Value(k) => 0 < k < 8,
        }
    }
}

/// Every byte is the value of the mode code read from it: converting a byte
/// to a mode code and back gives the byte.
pub proof fn law_mode_code_byte_roundtrip(value: u8)
    ensures
        ModeCode::spec_from_u8(value).spec_into_u8() == value,
{
}

/// Converting a mode code to its value and back gives the same mode code,
/// except for an unknown code whose value names a known one.
pub proof fn law_mode_code_value_roundtrip(code: ModeCode)
    requires
        !(code is UnknownModeCode) || ModeCode::spec_from_u8(code.spec_into_u8()) is UnknownModeCode,
    ensures
        ModeCode::spec_from_u8(code.spec_into_u8()) == code,
{
}

/// Converting an address to its value and back gives the same address
/// exactly when the address is canonical; converting a value to an address
/// and back keeps values below 31 and turns the others into 31.
pub proof fn law_address_roundtrip(address: Address, value: u8)
    ensures
        (Address::spec_from_u8(address.spec_into_u8()) == address) <==> address.spec_is_canonical(),
        Address::spec_from_u8(value).spec_into_u8() == if value < 0b11111 {
            value
        } else {
            0b11111
        },
{
}

/// Converting a subaddress to its value and back gives the same subaddress
/// exactly when the subaddress is canonical; converting a value to a
/// subaddress and back keeps values from 1 to 30 and keeps the low five bits
/// of the others.
pub proof fn law_subaddress_roundtrip(address: SubAddress, value: u8)
    ensures
        (SubAddress::spec_from_u8(address.spec_into_u8()) == address)
            <==> address.spec_is_canonical(),
        SubAddress::spec_from_u8(value).spec_into_u8() == if 0 < value < 0b11111 {
            value
        } else {
            value & 0b11111
        },
{
    if address is ModeCode {
        let k = address.spec_into_u8();
        assert((k == 0 || k >= 0b11111) ==> (k & 0b11111 == k <==> (k == 0 || k == 0b11111)))
            by (bit_vector);
    }
}

/// Converting a reserved flag to its value and back gives the same flag,
/// except a `Value(0)`, which reads back as `Empty`; every byte converts
/// to a reserved flag and back unchanged.
pub proof fn law_reserved_roundtrip(reserved: Reserved, value: u8)
    ensures
        (Reserved::spec_from_u8(reserved.spec_into_u8()) == reserved) <==> reserved != Reserved::Value(0),
        Reserved::spec_from_u8(value).spec_into_u8() == value,
{
}

/// Converting a transmit receive flag to its bit and back gives the same flag;
/// a value converts to `Receive` when it is 0 and to `Transmit` otherwise.
pub proof fn law_transmit_receive_roundtrip(flag: TransmitReceive, value: u8)
    ensures
        TransmitReceive::spec_from_u8(flag.spec_into_u8()) == flag,
        TransmitReceive::spec_from_u8(value) == if value == 0 {
            TransmitReceive::Receive
        } else {
            TransmitReceive::Transmit
        },
{
}

/// Converting a instrumentation flag to its bit and back gives the same flag;
/// a value converts to `Status` when it is 0 and to `Command` otherwise.
pub proof fn law_instrumentation_roundtrip(flag: Instrumentation, value: u8)
    ensures
        Instrumentation::spec_from_u8(flag.spec_into_u8()) == flag,
        Instrumentation::spec_from_u8(value) == if value == 0 {
            Instrumentation::Status
        } else {
            Instrumentation::Command
        },
{
}

/// Converting a service request flag to its bit and back gives the same flag;
/// a value converts to `NoService` when it is 0 and to `Service` otherwise.
pub proof fn law_service_request_roundtrip(flag: ServiceRequest, value: u8)
    ensures
        ServiceRequest::spec_from_u8(flag.spec_into_u8()) == flag,
        ServiceRequest::spec_from_u8(value) == if value == 0 {
            ServiceRequest::NoService
        } else {
            ServiceRequest::Service
        },
{
}

/// Converting a broadcast received flag to its bit and back gives the same flag;
/// a value converts to `NotReceived` when it is 0 and to `Received` otherwise.
pub proof fn law_broadcast_received_roundtrip(flag: BroadcastReceived, value: u8)
    ensures
        BroadcastReceived::spec_from_u8(flag.spec_into_u8()) == flag,
        BroadcastReceived::spec_from_u8(value) == if value == 0 {
            BroadcastReceived::NotReceived
        } else {
            BroadcastReceived::Received
        },
{
}

/// Converting a terminal busy flag to its bit and back gives the same flag;
/// a value converts to `NotBusy` when it is 0 and to `Busy` otherwise.
pub proof fn law_terminal_busy_roundtrip(flag: TerminalBusy, value: u8)
    ensures
        TerminalBusy::spec_from_u8(flag.spec_into_u8()) == flag,
        TerminalBusy::spec_from_u8(value) == if value == 0 {
            TerminalBusy::NotBusy
        } else {
            TerminalBusy::Busy
        },
{
}

/// Converting a dynamic bus acceptance flag to its bit and back gives the same flag;
/// a value converts to `NotAccepted` when it is 0 and to `Accepted` otherwise.
pub proof fn law_dynamic_bus_acceptance_roundtrip(flag: DynamicBusAcceptance, value: u8)
    ensures
        DynamicBusAcceptance::spec_from_u8(flag.spec_into_u8()) == flag,
        DynamicBusAcceptance::spec_from_u8(value) == if value == 0 {
            DynamicBusAcceptance::NotAccepted
        } else {
            DynamicBusAcceptance::Accepted
        },
{
}

} // verus!
