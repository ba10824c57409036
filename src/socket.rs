use vstd::prelude::*;
use crate::bus::{DngBus, IsaBus, LanBus, PccBus, PciBus, ToHandle, UsbBus};
use crate::status::{decode_status, status_meaning, PcanError, STATUS_OK};

verus! {

/// An open adapter channel, known to the driver by a numeric handle.
pub trait Channel {
    /// The handle of the channel.
    spec fn spec_channel(&self) -> u16;

    fn channel(&self) -> (r: u16)
        ensures
            r == self.spec_channel(),
    ;
}

/// The channel can read classic frames.
pub trait HasCanRead: Channel {}

/// The channel can read FD frames.
pub trait HasCanReadFd: Channel {}

/// The channel can write classic frames.
pub trait HasCanWrite: Channel {}

/// The channel can write FD frames.
pub trait HasCanWriteFd: Channel {}

/// The adapter reports whether it powers the five-volt pin.
pub trait HasFiveVoltsPower: Channel {}

/// The adapter can switch the five-volt pin power.
pub trait HasSetFiveVoltsPower: Channel {}

/// The adapter reports whether it resets itself after bus-off.
pub trait HasBusOffAutoreset: Channel {}

/// The adapter can switch the bus-off autoreset.
pub trait HasSetBusOffAutoreset: Channel {}

/// The adapter reports whether it is in listen-only mode.
pub trait HasListenOnly: Channel {}

/// The adapter can switch listen-only mode.
pub trait HasSetListenOnly: Channel {}

/// The adapter reports its delay between transmitted frames.
pub trait HasInterframeDelay: Channel {}

/// The adapter can set its delay between transmitted frames.
pub trait HasSetInterframeDelay: Channel {}

/// What opening a channel on a bus yields, given the status code that the
/// driver's initialize call returned: a socket on the bus's handle on
/// success, else the decoded failure.
pub open spec fn open_outcome<S: Channel>(handle: u16, status: u32, r: Result<S, PcanError>) -> bool {
    &&& (r is Ok <==> status == STATUS_OK)
    &&& (r matches Ok(s) ==> s.spec_channel() == handle)
    &&& (r matches Err(e) ==> status_meaning(status) == Err::<(), PcanError>(e))
}

/// A channel opened on an ISA bus. It owns its handle: it is neither `Copy` nor `Clone`.
#[derive(Debug, PartialEq, Eq)]
pub struct IsaCanSocket {
    handle: u16,
}

impl IsaCanSocket {
    /// The socket that initializing `bus` yields, where `status` is the
    /// code that the driver's initialize call returned for it.
    pub fn new(bus: IsaBus, status: u32) -> (r: Result<IsaCanSocket, PcanError>)
        ensures
            open_outcome(bus.spec_handle(), status, r),
    {
        let handle = bus.handle();
        match decode_status(status) {
            Ok(()) => Ok(IsaCanSocket { handle }),
            Err(e) => Err(e),
        }
    }
}

impl Channel for IsaCanSocket {
    closed spec fn spec_channel(&self) -> u16 {
        self.handle
    }

    fn channel(&self) -> (r: u16) {
        self.handle
    }
}

impl HasCanRead for IsaCanSocket {}

impl HasCanReadFd for IsaCanSocket {}

impl HasCanWrite for IsaCanSocket {}

impl HasCanWriteFd for IsaCanSocket {}

/// A channel opened on a dongle bus. It owns its handle: it is neither `Copy` nor `Clone`.
#[derive(Debug, PartialEq, Eq)]
pub struct DngCanSocket {
    handle: u16,
}

impl DngCanSocket {
    /// The socket that initializing `bus` yields, where `status` is the
    /// code that the driver's initialize call returned for it.
    pub fn new(bus: DngBus, status: u32) -> (r: Result<DngCanSocket, PcanError>)
        ensures
            open_outcome(bus.spec_handle(), status, r),
    {
        let handle = bus.handle();
        match decode_status(status) {
            Ok(()) => Ok(DngCanSocket { handle }),
            Err(e) => Err(e),
        }
    }
}

impl Channel for DngCanSocket {
    closed spec fn spec_channel(&self) -> u16 {
        self.handle
    }

    fn channel(&self) -> (r: u16) {
        self.handle
    }
}

impl HasCanRead for DngCanSocket {}

impl HasCanReadFd for DngCanSocket {}

impl HasCanWrite for DngCanSocket {}

impl HasCanWriteFd for DngCanSocket {}

/// A channel opened on a PCI bus. It owns its handle: it is neither `Copy` nor `Clone`.
#[derive(Debug, PartialEq, Eq)]
pub struct PciCanSocket {
    handle: u16,
}

impl PciCanSocket {
    /// The socket that initializing `bus` yields, where `status` is the
    /// code that the driver's initialize call returned for it.
    pub fn new(bus: PciBus, status: u32) -> (r: Result<PciCanSocket, PcanError>)
        ensures
            open_outcome(bus.spec_handle(), status, r),
    {
        let handle = bus.handle();
        match decode_status(status) {
            Ok(()) => Ok(PciCanSocket { handle }),
            Err(e) => Err(e),
        }
    }
}

impl Channel for PciCanSocket {
    closed spec fn spec_channel(&self) -> u16 {
        self.handle
    }

    fn channel(&self) -> (r: u16) {
        self.handle
    }
}

impl HasCanRead for PciCanSocket {}

impl HasCanReadFd for PciCanSocket {}

impl HasCanWrite for PciCanSocket {}

impl HasCanWriteFd for PciCanSocket {}

/// A channel opened on a PC-card bus. It owns its handle: it is neither `Copy` nor `Clone`.
#[derive(Debug, PartialEq, Eq)]
pub struct PccCanSocket {
    handle: u16,
}

impl PccCanSocket {
    /// The socket that initializing `bus` yields, where `status` is the
    /// code that the driver's initialize call returned for it.
    pub fn new(bus: PccBus, status: u32) -> (r: Result<PccCanSocket, PcanError>)
        ensures
            open_outcome(bus.spec_handle(), status, r),
    {
        let handle = bus.handle();
        match decode_status(status) {
            Ok(()) => Ok(PccCanSocket { handle }),
            Err(e) => Err(e),
        }
    }
}

impl Channel for PccCanSocket {
    closed spec fn spec_channel(&self) -> u16 {
        self.handle
    }

    fn channel(&self) -> (r: u16) {
        self.handle
    }
}

impl HasCanRead for PccCanSocket {}

impl HasCanReadFd for PccCanSocket {}

impl HasCanWrite for PccCanSocket {}

impl HasCanWriteFd for PccCanSocket {}

/// A channel opened on a USB bus. It owns its handle: it is neither `Copy` nor `Clone`.
#[derive(Debug, PartialEq, Eq)]
pub struct UsbCanSocket {
    handle: u16,
}

impl UsbCanSocket {
    /// The socket that initializing `bus` yields, where `status` is the
    /// code that the driver's initialize call returned for it.
    pub fn new(bus: UsbBus, status: u32) -> (r: Result<UsbCanSocket, PcanError>)
        ensures
            open_outcome(bus.spec_handle(), status, r),
    {
        let handle = bus.handle();
        match decode_status(status) {
            Ok(()) => Ok(UsbCanSocket { handle }),
            Err(e) => Err(e),
        }
    }

    /// Same as `new`: the socket that initializing `bus` yields, given the
    /// initialize call's status code.
    pub fn open(bus: UsbBus, status: u32) -> (r: Result<UsbCanSocket, PcanError>)
        ensures
            open_outcome(bus.spec_handle(), status, r),
    {
        UsbCanSocket::new(bus, status)
    }
}

impl Channel for UsbCanSocket {
    closed spec fn spec_channel(&self) -> u16 {
        self.handle
    }

    fn channel(&self) -> (r: u16) {
        self.handle
    }
}

impl HasCanRead for UsbCanSocket {}

impl HasCanReadFd for UsbCanSocket {}

impl HasCanWrite for UsbCanSocket {}

impl HasCanWriteFd for UsbCanSocket {}

impl HasFiveVoltsPower for UsbCanSocket {}

impl HasSetFiveVoltsPower for UsbCanSocket {}

impl HasBusOffAutoreset for UsbCanSocket {}

impl HasSetBusOffAutoreset for UsbCanSocket {}

impl HasListenOnly for UsbCanSocket {}

impl HasSetListenOnly for UsbCanSocket {}

impl HasInterframeDelay for UsbCanSocket {}

impl HasSetInterframeDelay for UsbCanSocket {}

/// A channel opened on a LAN bus. It owns its handle: it is neither `Copy` nor `Clone`.
#[derive(Debug, PartialEq, Eq)]
pub struct LanCanSocket {
    handle: u16,
}

impl LanCanSocket {
    /// The socket that initializing `bus` yields, where `status` is the
    /// code that the driver's initialize call returned for it.
    pub fn new(bus: LanBus, status: u32) -> (r: Result<LanCanSocket, PcanError>)
        ensures
            open_outcome(bus.spec_handle(), status, r),
    {
        let handle = bus.handle();
        match decode_status(status) {
            Ok(()) => Ok(LanCanSocket { handle }),
            Err(e) => Err(e),
        }
    }
}

impl Channel for LanCanSocket {
    closed spec fn spec_channel(&self) -> u16 {
        self.handle
    }

    fn channel(&self) -> (r: u16) {
        self.handle
    }
}

impl HasCanRead for LanCanSocket {}

impl HasCanReadFd for LanCanSocket {}

impl HasCanWrite for LanCanSocket {}

impl HasCanWriteFd for LanCanSocket {}

/// A channel opened on any bus. It owns its handle: it is neither `Copy` nor `Clone`.
#[derive(Debug, PartialEq, Eq)]
pub struct CanSocket {
    handle: u16,
}

impl CanSocket {
    /// The socket that initializing `bus` yields, where `status` is the
    /// code that the driver's initialize call returned for it.
    pub fn new<T: ToHandle>(bus: T, status: u32) -> (r: Result<CanSocket, PcanError>)
        ensures
            open_outcome(bus.spec_handle(), status, r),
    {
        let handle = bus.handle();
        match decode_status(status) {
            Ok(()) => Ok(CanSocket { handle }),
            Err(e) => Err(e),
        }
    }
}

impl Channel for CanSocket {
    closed spec fn spec_channel(&self) -> u16 {
        self.handle
    }

    fn channel(&self) -> (r: u16) {
        self.handle
    }
}

impl HasCanRead for CanSocket {}

impl HasCanReadFd for CanSocket {}

impl HasCanWrite for CanSocket {}

impl HasCanWriteFd for CanSocket {}

/// One release step of a guard: afterwards it holds nothing, and the handle
/// to release is that of the socket it held before, if any.
pub open spec fn release_step<S: Channel>(before: Option<S>, after: Option<S>, handle: Option<u16>) -> bool {
    &&& after is None
    &&& handle == match before {
        Some(s) => Some(s.spec_channel()),
        None => None::<u16>,
    }
}

/// Holds an open socket until its channel is released; the handle is
/// handed out for release once, and never again.
pub struct ChannelGuard<S> {
    socket: Option<S>,
}

impl<S: Channel> ChannelGuard<S> {
    /// The socket still held, if any.
    pub closed spec fn held(&self) -> Option<S> {
        self.socket
    }

    /// Takes ownership of an open socket.
    pub fn new(socket: S) -> (r: ChannelGuard<S>)
        ensures
            r.held() == Some(socket),
    {
        ChannelGuard { socket: Some(socket) }
    }

    /// The socket, as long as it has not been released.
    pub fn socket(&self) -> (r: Option<&S>)
        ensures
            r is Some <==> self.held() is Some,
            r matches Some(s) ==> self.held() == Some(*s),
    {
        match &self.socket {
            Some(s) => Some(s),
            None => None,
        }
    }

    /// Gives up the socket: returns its handle for the driver to release,
    /// or nothing where it was released already.
    pub fn release(&mut self) -> (r: Option<u16>)
        ensures
            release_step(old(self).held(), final(self).held(), r),
    {
        match self.socket.take() {
            Some(s) => Some(s.channel()),
            None => None,
        }
    }
}

/// Released twice, a guard hands out a handle at most once: the first step
/// yields the held socket's handle, the second yields nothing.
pub proof fn lemma_single_release<S: Channel>(
    s0: Option<S>,
    s1: Option<S>,
    s2: Option<S>,
    h1: Option<u16>,
    h2: Option<u16>,
)
    requires
        release_step(s0, s1, h1),
        release_step(s1, s2, h2),
    ensures
        h1 is Some <==> s0 is Some,
        s0 matches Some(s) ==> h1 == Some(s.spec_channel()),
        h2 is None,
{
}

} // verus!
