use vstd::prelude::*;
use vstd::std_specs::cmp::PartialEqSpec;
use crate::status::{decode_status, status_meaning, PcanError};

verus! {

/// Mask of an 11-bit standard identifier.
pub const STANDARD_MASK: u32 = 0x07FF;

/// Mask of a 29-bit extended identifier.
pub const EXTENDED_MASK: u32 = 0x1FFF_FFFF;

/// Message-type flags of a standard frame: the extended bit is clear.
pub const MESSAGE_STANDARD: u8 = 0x00;

/// Message-type flag bit of an extended frame.
pub const MESSAGE_EXTENDED: u8 = 0x02;

/// Addressing mode of a frame.
#[derive(Debug, PartialEq, Eq, Structural, Clone, Copy)]
pub enum MessageType {
    Standard,
    Extended,
}

/// Why a frame could not be built.
#[derive(Debug, PartialEq, Eq, Structural, Clone, Copy)]
pub enum FrameConstructionError {
    TooMuchData,
    CanIdMessageTypeMismatch,
}

/// The identifier mask of an addressing mode.
pub open spec fn mode_mask(mode: MessageType) -> u32 {
    match mode {
        MessageType::Standard => STANDARD_MASK,
        MessageType::Extended => EXTENDED_MASK,
    }
}

/// The message-type flags stored for an addressing mode.
pub open spec fn mode_flags(mode: MessageType) -> u8 {
    match mode {
        MessageType::Standard => MESSAGE_STANDARD,
        MessageType::Extended => MESSAGE_EXTENDED,
    }
}

/// Whether stored message-type flags mark an extended frame.
pub open spec fn flags_extended(flags: u8) -> bool {
    flags & MESSAGE_EXTENDED != 0
}

/// The identifier read back from a stored identifier and its flags: masked
/// by the mask of the mode that the flags mark.
pub open spec fn read_id(id: u32, flags: u8) -> u32 {
    if flags_extended(flags) {
        id & EXTENDED_MASK
    } else {
        id & STANDARD_MASK
    }
}

/// A classic CAN frame: identifier, message-type flags, and up to eight
/// payload bytes in a fixed buffer of which the first `len` are meaningful.
#[derive(Debug, Clone, Copy)]
pub struct CanFrame {
    id: u32,
    msg_type: u8,
    len: u8,
    data: [u8; 8],
}

impl CanFrame {
    /// Payload capacity of a classic frame.
    pub const MAX_DLC: usize = 8;

    /// The length never exceeds the capacity.
    #[verifier::type_invariant]
    pub closed spec fn inv(&self) -> bool {
        self.len <= 8
    }

    /// The identifier as stored.
    pub closed spec fn stored_id(&self) -> u32 {
        self.id
    }

    /// The message-type flags as stored.
    pub closed spec fn flags(&self) -> u8 {
        self.msg_type
    }

    /// The meaningful payload: the first `len` bytes of the buffer.
    pub closed spec fn payload(&self) -> Seq<u8> {
        self.data@.subrange(0, self.len as int)
    }

    /// The whole fixed buffer, padding included.
    pub closed spec fn buffer(&self) -> Seq<u8> {
        self.data@
    }

    /// Builds a frame. The identifier is masked by the mode's mask and the
    /// mode's flags are stored; more than eight bytes of payload is refused.
    pub fn new(can_id: u32, msg_type: MessageType, data: &[u8]) -> (r: Result<
        CanFrame,
        FrameConstructionError,
    >)
        ensures
            r is Err <==> data@.len() > 8,
            r is Err ==> r == Err::<CanFrame, FrameConstructionError>(
                FrameConstructionError::TooMuchData,
            ),
            r matches Ok(f) ==> {
                &&& f.stored_id() == can_id & mode_mask(msg_type)
                &&& f.flags() == mode_flags(msg_type)
                &&& f.payload() == data@
            },
    {
        if data.len() > Self::MAX_DLC {
            return Err(FrameConstructionError::TooMuchData);
        }
        let mut frame_data: [u8; 8] = [0u8; 8];
        let n: usize = data.len();
        let mut i: usize = 0;
        while i < n
            invariant
                n == data@.len(),
                n <= 8,
                i <= n,
                forall|k: int| 0 <= k < i ==> frame_data@[k] == data@[k],
            decreases n - i,
        {
            frame_data[i] = data[i];
            i = i + 1;
        }
        let (id, flags) = match msg_type {
            MessageType::Standard => (can_id & STANDARD_MASK, MESSAGE_STANDARD),
            MessageType::Extended => (can_id & EXTENDED_MASK, MESSAGE_EXTENDED),
        };
        let f = CanFrame { id, msg_type: flags, len: n as u8, data: frame_data };
        assert(f.payload() =~= data@);
        Ok(f)
    }

    /// Whether the stored flags mark a standard frame (extended bit clear).
    pub fn is_standard_frame(&self) -> (r: bool)
        ensures
            r == !flags_extended(self.flags()),
    {
        self.msg_type & MESSAGE_EXTENDED == 0
    }

    /// Whether the stored flags mark an extended frame.
    pub fn is_extended_frame(&self) -> (r: bool)
        ensures
            r == flags_extended(self.flags()),
    {
        self.msg_type & MESSAGE_EXTENDED != 0
    }

    /// The identifier, masked again by the mask of the mode that the stored
    /// flags mark.
    pub fn can_id(&self) -> (r: u32)
        ensures
            r == read_id(self.stored_id(), self.flags()),
    {
        if self.is_extended_frame() {
            self.id & EXTENDED_MASK
        } else {
            self.id & STANDARD_MASK
        }
    }

    /// Number of meaningful payload bytes.
    pub fn dlc(&self) -> (r: u8)
        ensures
            r as int == self.payload().len(),
            r <= 8,
    {
        proof {
            use_type_invariant(self);
        }
        self.len
    }

    /// The meaningful payload, never the padding behind it.
    pub fn data(&self) -> (r: &[u8])
        ensures
            r@ == self.payload(),
    {
        proof {
            use_type_invariant(self);
        }
        &self.data[0..self.len as usize]
    }

    /// The meaningful payload, for writing in place. The identifier, the
    /// flags, the length and the padding stay as they are.
    pub fn mut_data(&mut self) -> (r: &mut [u8])
        ensures
            r@ == old(self).payload(),
            final(self).buffer() == final(r)@ + old(self).buffer().subrange(
                old(self).payload().len() as int,
                8,
            ),
            final(r)@.len() == old(self).payload().len(),
            final(self).stored_id() == old(self).stored_id(),
            final(self).flags() == old(self).flags(),
            final(self).payload() == final(r)@,
            final(self).buffer().subrange(old(self).payload().len() as int, 8)
                == old(self).buffer().subrange(old(self).payload().len() as int, 8),
    {
        proof {
            use_type_invariant(&*self);
        }
        let n = self.len as usize;
        assert(self.data@.len() == 8 && n <= 8);
        let (head, _tail) = self.data.split_at_mut(n);
        head
    }

    /// Rebuilds a frame from the fields a driver fills in on a read. A
    /// length above the capacity is refused.
    pub fn from_raw(id: u32, msg_type: u8, len: u8, data: [u8; 8]) -> (r: Option<CanFrame>)
        ensures
            r is Some <==> len <= 8,
            r matches Some(f) ==> {
                &&& f.stored_id() == id
                &&& f.flags() == msg_type
                &&& f.payload().len() == len
                &&& f.buffer() == data@
            },
    {
        if len as usize > Self::MAX_DLC {
            None
        } else {
            Some(CanFrame { id, msg_type, len, data })
        }
    }

    /// What a driver read yields, given the status code it returned and the
    /// fields it filled in: the failure that the status names, else the
    /// frame, or `Unknown` where the driver reported a length above the
    /// capacity.
    pub fn from_driver(status: u32, id: u32, msg_type: u8, len: u8, data: [u8; 8]) -> (r: Result<
        CanFrame,
        PcanError,
    >)
        ensures
            status_meaning(status) matches Err(e) ==> r == Err::<CanFrame, PcanError>(e),
            status_meaning(status) is Ok && len > 8 ==> r == Err::<CanFrame, PcanError>(
                PcanError::Unknown,
            ),
            status_meaning(status) is Ok && len <= 8 ==> r is Ok,
            r matches Ok(f) ==> {
                &&& f.stored_id() == id
                &&& f.flags() == msg_type
                &&& f.payload().len() == len
                &&& f.buffer() == data@
            },
    {
        match decode_status(status) {
            Err(e) => Err(e),
            Ok(()) => match CanFrame::from_raw(id, msg_type, len, data) {
                Some(f) => Ok(f),
                None => Err(PcanError::Unknown),
            },
        }
    }

    /// The fields a driver takes on a write: stored identifier, flags,
    /// length and the whole buffer.
    pub fn to_raw(&self) -> (r: (u32, u8, u8, [u8; 8]))
        ensures
            r.0 == self.stored_id(),
            r.1 == self.flags(),
            r.2 as int == self.payload().len(),
            r.3@ == self.buffer(),
    {
        proof {
            use_type_invariant(self);
        }
        (self.id, self.msg_type, self.len, self.data)
    }
}

impl Default for CanFrame {
    /// An empty standard frame with identifier 0.
    fn default() -> (r: CanFrame)
        ensures
            r.stored_id() == 0,
            r.flags() == MESSAGE_STANDARD,
            r.payload().len() == 0,
    {
        let f = CanFrame { id: 0, msg_type: MESSAGE_STANDARD, len: 0, data: [0u8; 8] };
        assert(f.payload() =~= Seq::<u8>::empty());
        f
    }
}

impl PartialEq for CanFrame {
    /// Compares identifier, length, flags and the meaningful payload; the
    /// padding behind the payload is not compared.
    fn eq(&self, other: &CanFrame) -> (r: bool) {
        proof {
            use_type_invariant(self);
            use_type_invariant(other);
        }
        if self.id != other.id || self.len != other.len || self.msg_type != other.msg_type {
            assert(self.len != other.len ==> self.payload().len() != other.payload().len());
            return false;
        }
        let n: usize = self.len as usize;
        let mut i: usize = 0;
        while i < n
            invariant
                n == self.len,
                n == other.len,
                n <= 8,
                i <= n,
                forall|k: int| 0 <= k < i ==> self.data@[k] == other.data@[k],
            decreases n - i,
        {
            if self.data[i] != other.data[i] {
                assert(self.payload()[i as int] != other.payload()[i as int]);
                return false;
            }
            i = i + 1;
        }
        assert(self.payload() =~= other.payload());
        true
    }
}

impl vstd::std_specs::cmp::PartialEqSpecImpl for CanFrame {
    open spec fn obeys_eq_spec() -> bool {
        true
    }

    open spec fn eq_spec(&self, other: &CanFrame) -> bool {
        &&& self.stored_id() == other.stored_id()
        &&& self.flags() == other.flags()
        &&& self.payload() == other.payload()
    }
}

/// A CAN-FD frame: identifier, message-type flags, and up to 64 payload
/// bytes in a fixed buffer of which the first `len` are meaningful.
#[derive(Debug, Clone, Copy)]
pub struct CanFdFrame {
    id: u32,
    msg_type: u8,
    dlc: u8,
    data: [u8; 64],
}

impl CanFdFrame {
    /// Payload capacity of an FD frame.
    pub const MAX_DLC: usize = 64;

    /// The length never exceeds the capacity.
    #[verifier::type_invariant]
    pub closed spec fn inv(&self) -> bool {
        self.dlc <= 64
    }

    /// The identifier as stored.
    pub closed spec fn stored_id(&self) -> u32 {
        self.id
    }

    /// The message-type flags as stored.
    pub closed spec fn flags(&self) -> u8 {
        self.msg_type
    }

    /// The meaningful payload: the first `dlc` bytes of the buffer.
    pub closed spec fn payload(&self) -> Seq<u8> {
        self.data@.subrange(0, self.dlc as int)
    }

    /// The whole fixed buffer, padding included.
    pub closed spec fn buffer(&self) -> Seq<u8> {
        self.data@
    }

    /// Builds a frame. The identifier is masked by the mode's mask and the
    /// mode's flags are stored; more than 64 bytes of payload is refused.
    pub fn new(can_id: u32, msg_type: MessageType, data: &[u8]) -> (r: Result<
        CanFdFrame,
        FrameConstructionError,
    >)
        ensures
            r is Err <==> data@.len() > 64,
            r is Err ==> r == Err::<CanFdFrame, FrameConstructionError>(
                FrameConstructionError::TooMuchData,
            ),
            r matches Ok(f) ==> {
                &&& f.stored_id() == can_id & mode_mask(msg_type)
                &&& f.flags() == mode_flags(msg_type)
                &&& f.payload() == data@
            },
    {
        if data.len() > Self::MAX_DLC {
            return Err(FrameConstructionError::TooMuchData);
        }
        let mut frame_data: [u8; 64] = [0u8; 64];
        let n: usize = data.len();
        let mut i: usize = 0;
        while i < n
            invariant
                n == data@.len(),
                n <= 64,
                i <= n,
                forall|k: int| 0 <= k < i ==> frame_data@[k] == data@[k],
            decreases n - i,
        {
            frame_data[i] = data[i];
            i = i + 1;
        }
        let (id, flags) = match msg_type {
            MessageType::Standard => (can_id & STANDARD_MASK, MESSAGE_STANDARD),
            MessageType::Extended => (can_id & EXTENDED_MASK, MESSAGE_EXTENDED),
        };
        let f = CanFdFrame { id, msg_type: flags, dlc: n as u8, data: frame_data };
        assert(f.payload() =~= data@);
        Ok(f)
    }

    /// Whether the stored flags mark a standard frame (extended bit clear).
    pub fn is_standard_frame(&self) -> (r: bool)
        ensures
            r == !flags_extended(self.flags()),
    {
        self.msg_type & MESSAGE_EXTENDED == 0
    }

    /// Whether the stored flags mark an extended frame.
    pub fn is_extended_frame(&self) -> (r: bool)
        ensures
            r == flags_extended(self.flags()),
    {
        self.msg_type & MESSAGE_EXTENDED != 0
    }

    /// The identifier, masked again by the mask of the mode that the stored
    /// flags mark.
    pub fn can_id(&self) -> (r: u32)
        ensures
            r == read_id(self.stored_id(), self.flags()),
    {
        if self.is_extended_frame() {
            self.id & EXTENDED_MASK
        } else {
            self.id & STANDARD_MASK
        }
    }

    /// Number of meaningful payload bytes.
    pub fn dlc(&self) -> (r: u8)
        ensures
            r as int == self.payload().len(),
            r <= 64,
    {
        proof {
            use_type_invariant(self);
        }
        self.dlc
    }

    /// The meaningful payload, never the padding behind it.
    pub fn data(&self) -> (r: &[u8])
        ensures
            r@ == self.payload(),
    {
        proof {
            use_type_invariant(self);
        }
        &self.data[0..self.dlc as usize]
    }

    /// The meaningful payload, for writing in place. The identifier, the
    /// flags, the length and the padding stay as they are.
    pub fn mut_data(&mut self) -> (r: &mut [u8])
        ensures
            r@ == old(self).payload(),
            final(self).buffer() == final(r)@ + old(self).buffer().subrange(
                old(self).payload().len() as int,
                64,
            ),
            final(r)@.len() == old(self).payload().len(),
            final(self).stored_id() == old(self).stored_id(),
            final(self).flags() == old(self).flags(),
            final(self).payload() == final(r)@,
            final(self).buffer().subrange(old(self).payload().len() as int, 64)
                == old(self).buffer().subrange(old(self).payload().len() as int, 64),
    {
        proof {
            use_type_invariant(&*self);
        }
        let n = self.dlc as usize;
        assert(self.data@.len() == 64 && n <= 64);
        let (head, _tail) = self.data.split_at_mut(n);
        head
    }

    /// Rebuilds a frame from the fields a driver fills in on a read. A
    /// length above the capacity is refused.
    pub fn from_raw(id: u32, msg_type: u8, len: u8, data: [u8; 64]) -> (r: Option<CanFdFrame>)
        ensures
            r is Some <==> len <= 64,
            r matches Some(f) ==> {
                &&& f.stored_id() == id
                &&& f.flags() == msg_type
                &&& f.payload().len() == len
                &&& f.buffer() == data@
            },
    {
        if len as usize > Self::MAX_DLC {
            None
        } else {
            Some(CanFdFrame { id, msg_type, dlc: len, data })
        }
    }

    /// What a driver read yields, given the status code it returned and the
    /// fields it filled in: the failure that the status names, else the
    /// frame, or `Unknown` where the driver reported a length above the
    /// capacity.
    pub fn from_driver(status: u32, id: u32, msg_type: u8, len: u8, data: [u8; 64]) -> (r: Result<
        CanFdFrame,
        PcanError,
    >)
        ensures
            status_meaning(status) matches Err(e) ==> r == Err::<CanFdFrame, PcanError>(e),
            status_meaning(status) is Ok && len > 64 ==> r == Err::<CanFdFrame, PcanError>(
                PcanError::Unknown,
            ),
            status_meaning(status) is Ok && len <= 64 ==> r is Ok,
            r matches Ok(f) ==> {
                &&& f.stored_id() == id
                &&& f.flags() == msg_type
                &&& f.payload().len() == len
                &&& f.buffer() == data@
            },
    {
        match decode_status(status) {
            Err(e) => Err(e),
            Ok(()) => match CanFdFrame::from_raw(id, msg_type, len, data) {
                Some(f) => Ok(f),
                None => Err(PcanError::Unknown),
            },
        }
    }

    /// The fields a driver takes on a write: stored identifier, flags,
    /// length and the whole buffer.
    pub fn to_raw(&self) -> (r: (u32, u8, u8, [u8; 64]))
        ensures
            r.0 == self.stored_id(),
            r.1 == self.flags(),
            r.2 as int == self.payload().len(),
            r.3@ == self.buffer(),
    {
        proof {
            use_type_invariant(self);
        }
        (self.id, self.msg_type, self.dlc, self.data)
    }
}

impl Default for CanFdFrame {
    /// An empty standard frame with identifier 0.
    fn default() -> (r: CanFdFrame)
        ensures
            r.stored_id() == 0,
            r.flags() == MESSAGE_STANDARD,
            r.payload().len() == 0,
    {
        let f = CanFdFrame { id: 0, msg_type: MESSAGE_STANDARD, dlc: 0, data: [0u8; 64] };
        assert(f.payload() =~= Seq::<u8>::empty());
        f
    }
}

impl PartialEq for CanFdFrame {
    /// Compares identifier, length, flags and the meaningful payload; the
    /// padding behind the payload is not compared.
    fn eq(&self, other: &CanFdFrame) -> (r: bool) {
        proof {
            use_type_invariant(self);
            use_type_invariant(other);
        }
        if self.id != other.id || self.dlc != other.dlc || self.msg_type != other.msg_type {
            assert(self.dlc != other.dlc ==> self.payload().len() != other.payload().len());
            return false;
        }
        let n: usize = self.dlc as usize;
        let mut i: usize = 0;
        while i < n
            invariant
                n == self.dlc,
                n == other.dlc,
                n <= 64,
                i <= n,
                forall|k: int| 0 <= k < i ==> self.data@[k] == other.data@[k],
            decreases n - i,
        {
            if self.data[i] != other.data[i] {
                assert(self.payload()[i as int] != other.payload()[i as int]);
                return false;
            }
            i = i + 1;
        }
        assert(self.payload() =~= other.payload());
        true
    }
}

impl vstd::std_specs::cmp::PartialEqSpecImpl for CanFdFrame {
    open spec fn obeys_eq_spec() -> bool {
        true
    }

    open spec fn eq_spec(&self, other: &CanFdFrame) -> bool {
        &&& self.stored_id() == other.stored_id()
        &&& self.flags() == other.flags()
        &&& self.payload() == other.payload()
    }
}


/// Reading an identifier back is idempotent: masking the identifier that
/// `can_id` returns once more, by the same flags, changes nothing.
pub proof fn lemma_read_id_idempotent(id: u32, flags: u8)
    ensures
        read_id(read_id(id, flags), flags) == read_id(id, flags),
{
    assert((id & 0x1FFF_FFFFu32) & 0x1FFF_FFFFu32 == id & 0x1FFF_FFFFu32) by (bit_vector);
    assert((id & 0x07FFu32) & 0x07FFu32 == id & 0x07FFu32) by (bit_vector);
}

/// A frame built in a mode reads back the identifier masked by that mode's
/// mask: the stored flags select the same mask again.
pub proof fn lemma_read_id_of_built(id: u32, mode: MessageType)
    ensures
        read_id(id & mode_mask(mode), mode_flags(mode)) == id & mode_mask(mode),
{
    assert(0x00u8 & 0x02u8 == 0) by (bit_vector);
    assert(0x02u8 & 0x02u8 != 0) by (bit_vector);
    assert((id & 0x1FFF_FFFFu32) & 0x1FFF_FFFFu32 == id & 0x1FFF_FFFFu32) by (bit_vector);
    assert((id & 0x07FFu32) & 0x07FFu32 == id & 0x07FFu32) by (bit_vector);
}

/// Two classic frames that agree on identifier, flags, length and the
/// meaningful bytes are equal, whatever the padding behind the payload holds.
pub proof fn lemma_classic_eq_ignores_padding(a: CanFrame, b: CanFrame)
    requires
        a.inv(),
        b.inv(),
        a.stored_id() == b.stored_id(),
        a.flags() == b.flags(),
        a.payload().len() == b.payload().len(),
        forall|k: int| 0 <= k < a.payload().len() ==> a.buffer()[k] == b.buffer()[k],
    ensures
        a.eq_spec(&b),
{
    assert forall|k: int| 0 <= k < a.payload().len() implies a.payload()[k] == b.payload()[k] by {
        assert(a.buffer()[k] == b.buffer()[k]);
    }
    assert(a.payload() =~= b.payload());
}

/// Two FD frames that agree on identifier, flags, length and the meaningful
/// bytes are equal, whatever the padding behind the payload holds.
pub proof fn lemma_fd_eq_ignores_padding(a: CanFdFrame, b: CanFdFrame)
    requires
        a.inv(),
        b.inv(),
        a.stored_id() == b.stored_id(),
        a.flags() == b.flags(),
        a.payload().len() == b.payload().len(),
        forall|k: int| 0 <= k < a.payload().len() ==> a.buffer()[k] == b.buffer()[k],
    ensures
        a.eq_spec(&b),
{
    assert forall|k: int| 0 <= k < a.payload().len() implies a.payload()[k] == b.payload()[k] by {
        assert(a.buffer()[k] == b.buffer()[k]);
    }
    assert(a.payload() =~= b.payload());
}

} // verus!
