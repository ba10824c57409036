//! A typed front door to CAN and CAN-FD adapter channels: frame values with
//! checked construction, the driver status catalogue, bus identifiers, baud
//! rates, and socket types whose capabilities are fixed by the traits they
//! implement.

pub mod baud;
pub mod bus;
pub mod frame;
pub mod socket;
pub mod status;
pub mod timestamp;

pub use baud::Baudrate;
pub use bus::{DngBus, IsaBus, LanBus, PccBus, PciBus, ToHandle, UsbBus};
pub use frame::{
    CanFdFrame, CanFrame, FrameConstructionError, MessageType, EXTENDED_MASK, MESSAGE_EXTENDED,
    MESSAGE_STANDARD, STANDARD_MASK,
};
pub use socket::{
    CanSocket, Channel, ChannelGuard, DngCanSocket, HasBusOffAutoreset, HasCanRead, HasCanReadFd,
    HasCanWrite, HasCanWriteFd, HasFiveVoltsPower, HasInterframeDelay, HasListenOnly,
    HasSetBusOffAutoreset, HasSetFiveVoltsPower, HasSetInterframeDelay, HasSetListenOnly,
    IsaCanSocket, LanCanSocket, PccCanSocket, PciCanSocket, UsbCanSocket,
};
pub use status::{
    decode_status, decode_switch, switch_value, PcanError, PARAMETER_OFF, PARAMETER_ON, STATUS_OK,
};
pub use timestamp::Timestamp;
