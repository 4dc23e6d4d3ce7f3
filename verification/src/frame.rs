//! One CAN message: identifier, declared length, up to 8 payload bytes and
//! the remote-request flag, together with the validated conversion to and
//! from the wire-format message struct that the native driver exchanges.
use vstd::prelude::*;

use crate::codes::{
    EXTENDED_ID_MAX, MESSAGE_EXTENDED, MESSAGE_RTR, MESSAGE_STANDARD, STANDARD_ID_MAX,
};
use crate::ident::Id;

verus! {

broadcast use vstd::array::group_array_axioms;

/// The unified wire-format message struct: the field layout every native
/// message variant shares in meaning, at one fixed width per field.
#[derive(Clone, Copy, Debug)]
pub struct Message {
    /// The raw identifier bits.
    pub id: u32,
    /// The message-type flag byte (standard/extended, remote-request).
    pub msgtype: u8,
    /// The declared data length, 0 to 8.
    pub len: u8,
    /// The payload buffer; only the first `len` bytes are meaningful.
    pub data: [u8; 8],
}

/// The mathematical content of a frame: its identifier, whether it is a
/// remote-transmission request, and the declared payload bytes.
#[verifier::ext_equal]
pub ghost struct FrameSpec {
    pub id: Id,
    pub remote: bool,
    pub payload: Seq<u8>,
}

/// A frame content that a well-formed frame can carry.
pub open spec fn frame_spec_valid(v: FrameSpec) -> bool {
    v.id.valid() && v.payload.len() <= 8
}

/// The flag byte for a frame of the given addressing width and
/// remote-request status.
pub open spec fn flags_of(extended: bool, remote: bool) -> u8 {
    if extended && remote {
        (MESSAGE_EXTENDED + MESSAGE_RTR) as u8
    } else if extended {
        MESSAGE_EXTENDED
    } else if remote {
        MESSAGE_RTR
    } else {
        MESSAGE_STANDARD
    }
}

/// Whether the flag byte of a wire message carries the extended bit.
pub open spec fn wire_extended(m: Message) -> bool {
    m.msgtype == MESSAGE_EXTENDED || m.msgtype == (MESSAGE_EXTENDED + MESSAGE_RTR) as u8
}

/// Whether the flag byte of a wire message carries the remote-request bit.
pub open spec fn wire_remote(m: Message) -> bool {
    m.msgtype == MESSAGE_RTR || m.msgtype == (MESSAGE_EXTENDED + MESSAGE_RTR) as u8
}

/// A wire message that decodes to a frame: a recognised flag byte, a
/// length within the 8-byte buffer, and an identifier that fits the
/// addressing width the flags announce.
pub open spec fn wire_valid(m: Message) -> bool {
    &&& m.len <= 8
    &&& {
        ||| m.msgtype == MESSAGE_STANDARD
        ||| m.msgtype == MESSAGE_RTR
        ||| m.msgtype == MESSAGE_EXTENDED
        ||| m.msgtype == (MESSAGE_EXTENDED + MESSAGE_RTR) as u8
    }
    &&& wire_extended(m) ==> m.id <= EXTENDED_ID_MAX
    &&& !wire_extended(m) ==> m.id <= STANDARD_ID_MAX as u32
}

/// The frame content a valid wire message carries.
pub open spec fn decode(m: Message) -> FrameSpec {
    FrameSpec {
        id: if wire_extended(m) {
            Id::Extended(m.id)
        } else {
            Id::Standard(m.id as u16)
        },
        remote: wire_remote(m),
        payload: m.data@.take(m.len as int),
    }
}

/// A wire message that carries the given frame content bit for bit, with
/// the unused tail of the payload buffer zeroed.
pub open spec fn encodes(m: Message, v: FrameSpec) -> bool {
    &&& m.msgtype == flags_of(v.id is Extended, v.remote)
    &&& m.id == v.id.raw_spec()
    &&& m.len == v.payload.len()
    &&& m.data@.take(v.payload.len() as int) == v.payload
    &&& forall|j: int| v.payload.len() <= j < 8 ==> m.data@[j] == 0u8
}

/// One CAN message, immutable once constructed. The identifier always
/// fits its declared addressing width, and the declared length never
/// exceeds the 8-byte buffer.
#[derive(Clone, Copy, Debug)]
pub struct Frame {
    id: Id,
    remote: bool,
    len: u8,
    data: [u8; 8],
}

impl View for Frame {
    type V = FrameSpec;

    closed spec fn view(&self) -> FrameSpec {
        FrameSpec {
            id: self.id,
            remote: self.remote,
            payload: self.data@.take(self.len as int),
        }
    }
}

impl Frame {
    /// Well-formedness: the declared length fits the buffer, the
    /// identifier fits its width, and the bytes past the declared length
    /// are zero, so the wire encoding is determined by the content alone.
    #[verifier::type_invariant]
    spec fn wf(self) -> bool {
        &&& self.len <= 8
        &&& self.id.valid()
        &&& forall|j: int| self.len <= j < 8 ==> self.data@[j] == 0u8
    }

    /// Builds a data frame; payloads longer than 8 bytes are rejected.
    /// A successful result carries exactly the given identifier and
    /// payload and is not a remote-request frame.
    pub fn new(id: Id, data: &[u8]) -> (r: Option<Frame>)
        requires
            id.valid(),
        ensures
            r is Some <==> data@.len() <= 8,
            r matches Some(f) ==> f@ == (FrameSpec { id, remote: false, payload: data@ }),
    {
        if data.len() > 8 {
            return None;
        }
        let n: usize = data.len();
        let mut buf: [u8; 8] = [0; 8];
        let mut i: usize = 0;
        while i < n
            invariant
                i <= n,
                n <= 8,
                n == data@.len(),
                forall|j: int| 0 <= j < i ==> buf@[j] == data@[j],
                forall|j: int| i <= j < 8 ==> buf@[j] == 0u8,
            decreases n - i,
        {
            buf[i] = data[i];
            i = i + 1;
        }
        let f = Frame { id, remote: false, len: n as u8, data: buf };
        proof {
            assert(f@.payload =~= data@);
            assert(f@ =~= (FrameSpec { id, remote: false, payload: data@ }));
        }
        Some(f)
    }

    /// Builds a remote-transmission-request frame that declares the given
    /// expected response length; lengths of 8 or more are rejected. The
    /// frame carries no payload bytes of its own.
    pub fn new_remote(id: Id, dlc: usize) -> (r: Option<Frame>)
        requires
            id.valid(),
        ensures
            r is Some <==> dlc < 8,
            r matches Some(f) ==> f@ == (FrameSpec {
                id,
                remote: true,
                payload: Seq::new(dlc as nat, |i: int| 0u8),
            }),
    {
        if dlc >= 8 {
            return None;
        }
        let f = Frame { id, remote: true, len: dlc as u8, data: [0; 8] };
        proof {
            assert(f@.payload =~= Seq::new(dlc as nat, |i: int| 0u8));
            assert(f@ =~= (FrameSpec {
                id,
                remote: true,
                payload: Seq::new(dlc as nat, |i: int| 0u8),
            }));
        }
        Some(f)
    }

    /// Whether the identifier uses the extended 29-bit space.
    pub fn is_extended(&self) -> (r: bool)
        ensures
            r == (self@.id is Extended),
    {
        match self.id {
            Id::Standard(_) => false,
            Id::Extended(_) => true,
        }
    }

    /// Whether the frame is a remote-transmission request.
    pub fn is_remote_frame(&self) -> (r: bool)
        ensures
            r == self@.remote,
    {
        self.remote
    }

    /// The identifier. Total: every frame holds an identifier already
    /// validated for its width when the frame was built.
    pub fn id(&self) -> (r: Id)
        ensures
            r == self@.id,
            r.valid(),
    {
        proof {
            use_type_invariant(&*self);
        }
        self.id
    }

    /// The declared data length.
    pub fn dlc(&self) -> (r: usize)
        ensures
            r == self@.payload.len(),
    {
        proof {
            use_type_invariant(&*self);
        }
        self.len as usize
    }

    /// The payload: exactly the first `dlc()` bytes of the buffer.
    pub fn data(&self) -> (r: Vec<u8>)
        ensures
            r@ == self@.payload,
    {
        proof {
            use_type_invariant(&*self);
        }
        let n: usize = self.len as usize;
        let mut out: Vec<u8> = Vec::new();
        let mut i: usize = 0;
        while i < n
            invariant
                i <= n,
                n <= 8,
                n == self@.payload.len(),
                self.wf(),
                n == self.len,
                out@ =~= self@.payload.take(i as int),
            decreases n - i,
        {
            let b: u8 = *vstd::array::array_index_get(&self.data, i);
            out.push(b);
            proof {
                assert(out@ =~= self@.payload.take(i + 1));
            }
            i = i + 1;
        }
        proof {
            assert(out@ =~= self@.payload);
        }
        out
    }

    /// Converts the frame to the wire-format struct handed to the native
    /// write call. The result encodes exactly this frame's content.
    pub fn to_message(&self) -> (r: Message)
        ensures
            encodes(r, self@),
            wire_valid(r),
    {
        proof {
            use_type_invariant(&*self);
        }
        let flags: u8 = match (self.id, self.remote) {
            (Id::Extended(_), true) => MESSAGE_EXTENDED + MESSAGE_RTR,
            (Id::Extended(_), false) => MESSAGE_EXTENDED,
            (Id::Standard(_), true) => MESSAGE_RTR,
            (Id::Standard(_), false) => MESSAGE_STANDARD,
        };
        let raw: u32 = match self.id {
            Id::Standard(v) => v as u32,
            Id::Extended(v) => v,
        };
        let m = Message { id: raw, msgtype: flags, len: self.len, data: self.data };
        proof {
            assert(m.data@.take(self@.payload.len() as int) =~= self@.payload);
        }
        m
    }

    /// The validated conversion from a wire message the native read call
    /// produced. Succeeds exactly on messages whose flags, length and
    /// identifier describe a CAN frame; the unused tail of the buffer is
    /// discarded rather than trusted.
    pub fn from_message(m: &Message) -> (r: Option<Frame>)
        ensures
            r is Some <==> wire_valid(*m),
            r matches Some(f) ==> f@ == decode(*m),
    {
        let extended: bool;
        let remote: bool;
        if m.msgtype == MESSAGE_STANDARD {
            extended = false;
            remote = false;
        } else if m.msgtype == MESSAGE_RTR {
            extended = false;
            remote = true;
        } else if m.msgtype == MESSAGE_EXTENDED {
            extended = true;
            remote = false;
        } else if m.msgtype == MESSAGE_EXTENDED + MESSAGE_RTR {
            extended = true;
            remote = true;
        } else {
            return None;
        }
        if m.len > 8 {
            return None;
        }
        let id: Id;
        if extended {
            if m.id > EXTENDED_ID_MAX {
                return None;
            }
            id = Id::Extended(m.id);
        } else {
            if m.id > STANDARD_ID_MAX as u32 {
                return None;
            }
            id = Id::Standard(m.id as u16);
        }
        let n: usize = m.len as usize;
        let mut buf: [u8; 8] = [0; 8];
        let mut i: usize = 0;
        while i < n
            invariant
                i <= n,
                n <= 8,
                n == m.len,
                forall|j: int| 0 <= j < i ==> buf@[j] == m.data@[j],
                forall|j: int| i <= j < 8 ==> buf@[j] == 0u8,
            decreases n - i,
        {
            buf[i] = *vstd::array::array_index_get(&m.data, i);
            i = i + 1;
        }
        let f = Frame { id, remote, len: m.len, data: buf };
        proof {
            assert(f@.payload =~= decode(*m).payload);
            assert(f@ =~= decode(*m));
        }
        Some(f)
    }
}

/// A frame written to the wire and read back is the same frame: any wire
/// message that encodes a well-formed frame content is valid and decodes
/// to exactly that content.
pub proof fn lemma_wire_round_trip(m: Message, v: FrameSpec)
    requires
        encodes(m, v),
        frame_spec_valid(v),
    ensures
        wire_valid(m),
        decode(m) == v,
{
    assert(decode(m).payload =~= v.payload);
    assert(decode(m) =~= v);
}

} // verus!
