use vstd::prelude::*;

verus! {

/// A bus identifier that the driver knows by a numeric channel handle.
pub trait ToHandle {
    /// The channel handle of this bus.
    spec fn spec_handle(&self) -> u16;

    fn handle(&self) -> (r: u16)
        ensures
            r == self.spec_handle(),
    ;
}

/// Channel handle of ISA channel `n`.
pub open spec fn isa_handle(n: u8) -> u16 {
    (0x20 + n as u16) as u16
}

/// An ISA bus: one of the ISA channels numbered 1 to 8.
#[derive(Debug, Clone, Copy, PartialEq, Eq)]
pub struct IsaBus {
    n: u8,
}

impl IsaBus {
    #[verifier::type_invariant]
    closed spec fn inv(&self) -> bool {
        1 <= self.n <= 8
    }

    /// The channel number.
    pub closed spec fn number(&self) -> u8 {
        self.n
    }

    /// The bus of channel `n`, if the family has such a channel.
    pub fn new(n: u8) -> (r: Option<IsaBus>)
        ensures
            r is Some <==> 1 <= n <= 8,
            r matches Some(b) ==> b.number() == n,
    {
        if 1 <= n && n <= 8 {
            Some(IsaBus { n })
        } else {
            None
        }
    }
}

impl ToHandle for IsaBus {
    open spec fn spec_handle(&self) -> u16 {
        isa_handle(self.number())
    }

    fn handle(&self) -> (r: u16) {
        proof {
            use_type_invariant(self);
        }
        let n = self.n;
        0x20 + (n as u16)
    }
}

/// Channel handle of dongle channel `n`.
pub open spec fn dng_handle(n: u8) -> u16 {
    (0x30 + n as u16) as u16
}

/// A dongle bus: the only dongle channel, numbered 1.
#[derive(Debug, Clone, Copy, PartialEq, Eq)]
pub struct DngBus {
    n: u8,
}

impl DngBus {
    #[verifier::type_invariant]
    closed spec fn inv(&self) -> bool {
        self.n == 1
    }

    /// The channel number.
    pub closed spec fn number(&self) -> u8 {
        self.n
    }

    /// The bus of channel `n`, if the family has such a channel.
    pub fn new(n: u8) -> (r: Option<DngBus>)
        ensures
            r is Some <==> n == 1,
            r matches Some(b) ==> b.number() == n,
    {
        if n == 1 {
            Some(DngBus { n })
        } else {
            None
        }
    }
}

impl ToHandle for DngBus {
    open spec fn spec_handle(&self) -> u16 {
        dng_handle(self.number())
    }

    fn handle(&self) -> (r: u16) {
        proof {
            use_type_invariant(self);
        }
        let n = self.n;
        0x30 + (n as u16)
    }
}

/// Channel handle of PCI channel `n`.
pub open spec fn pci_handle(n: u8) -> u16 {
    (if n <= 8 { 0x40 + n as u16 } else { 0x400 + n as u16 }) as u16
}

/// A PCI bus: one of the PCI channels numbered 1 to 16.
#[derive(Debug, Clone, Copy, PartialEq, Eq)]
pub struct PciBus {
    n: u8,
}

impl PciBus {
    #[verifier::type_invariant]
    closed spec fn inv(&self) -> bool {
        1 <= self.n <= 16
    }

    /// The channel number.
    pub closed spec fn number(&self) -> u8 {
        self.n
    }

    /// The bus of channel `n`, if the family has such a channel.
    pub fn new(n: u8) -> (r: Option<PciBus>)
        ensures
            r is Some <==> 1 <= n <= 16,
            r matches Some(b) ==> b.number() == n,
    {
        if 1 <= n && n <= 16 {
            Some(PciBus { n })
        } else {
            None
        }
    }
}

impl ToHandle for PciBus {
    open spec fn spec_handle(&self) -> u16 {
        pci_handle(self.number())
    }

    fn handle(&self) -> (r: u16) {
        proof {
            use_type_invariant(self);
        }
        let n = self.n;
        if n <= 8 { 0x40 + (n as u16) } else { 0x400 + (n as u16) }
    }
}

/// Channel handle of PC-card channel `n`.
pub open spec fn pcc_handle(n: u8) -> u16 {
    (0x60 + n as u16) as u16
}

/// A PC-card bus: one of the PC-card channels numbered 1 to 2.
#[derive(Debug, Clone, Copy, PartialEq, Eq)]
pub struct PccBus {
    n: u8,
}

impl PccBus {
    #[verifier::type_invariant]
    closed spec fn inv(&self) -> bool {
        1 <= self.n <= 2
    }

    /// The channel number.
    pub closed spec fn number(&self) -> u8 {
        self.n
    }

    /// The bus of channel `n`, if the family has such a channel.
    pub fn new(n: u8) -> (r: Option<PccBus>)
        ensures
            r is Some <==> 1 <= n <= 2,
            r matches Some(b) ==> b.number() == n,
    {
        if 1 <= n && n <= 2 {
            Some(PccBus { n })
        } else {
            None
        }
    }
}

impl ToHandle for PccBus {
    open spec fn spec_handle(&self) -> u16 {
        pcc_handle(self.number())
    }

    fn handle(&self) -> (r: u16) {
        proof {
            use_type_invariant(self);
        }
        let n = self.n;
        0x60 + (n as u16)
    }
}

/// Channel handle of USB channel `n`.
pub open spec fn usb_handle(n: u8) -> u16 {
    (if n <= 8 { 0x50 + n as u16 } else { 0x500 + n as u16 }) as u16
}

/// A USB bus: one of the USB channels numbered 1 to 16.
#[derive(Debug, Clone, Copy, PartialEq, Eq)]
pub struct UsbBus {
    n: u8,
}

impl UsbBus {
    #[verifier::type_invariant]
    closed spec fn inv(&self) -> bool {
        1 <= self.n <= 16
    }

    /// The channel number.
    pub closed spec fn number(&self) -> u8 {
        self.n
    }

    /// The bus of channel `n`, if the family has such a channel.
    pub fn new(n: u8) -> (r: Option<UsbBus>)
        ensures
            r is Some <==> 1 <= n <= 16,
            r matches Some(b) ==> b.number() == n,
    {
        if 1 <= n && n <= 16 {
            Some(UsbBus { n })
        } else {
            None
        }
    }
}

impl ToHandle for UsbBus {
    open spec fn spec_handle(&self) -> u16 {
        usb_handle(self.number())
    }

    fn handle(&self) -> (r: u16) {
        proof {
            use_type_invariant(self);
        }
        let n = self.n;
        if n <= 8 { 0x50 + (n as u16) } else { 0x500 + (n as u16) }
    }
}

/// Channel handle of LAN channel `n`.
pub open spec fn lan_handle(n: u8) -> u16 {
    (0x800 + n as u16) as u16
}

/// A LAN bus: one of the LAN channels numbered 1 to 16.
#[derive(Debug, Clone, Copy, PartialEq, Eq)]
pub struct LanBus {
    n: u8,
}

impl LanBus {
    #[verifier::type_invariant]
    closed spec fn inv(&self) -> bool {
        1 <= self.n <= 16
    }

    /// The channel number.
    pub closed spec fn number(&self) -> u8 {
        self.n
    }

    /// The bus of channel `n`, if the family has such a channel.
    pub fn new(n: u8) -> (r: Option<LanBus>)
        ensures
            r is Some <==> 1 <= n <= 16,
            r matches Some(b) ==> b.number() == n,
    {
        if 1 <= n && n <= 16 {
            Some(LanBus { n })
        } else {
            None
        }
    }
}

impl ToHandle for LanBus {
    open spec fn spec_handle(&self) -> u16 {
        lan_handle(self.number())
    }

    fn handle(&self) -> (r: u16) {
        proof {
            use_type_invariant(self);
        }
        let n = self.n;
        0x800 + (n as u16)
    }
}

} // verus!
