use vstd::prelude::*;

use crate::bytes::write_bytes;
use crate::error::CodecError;
use crate::subtypes::ManagementFrameSubtype;

verus! {

/// Bytes of an action body's fixed part: its category.
pub const ACTION_FIXED_LEN: usize = 1;

/// Bytes of a beacon body's fixed part: timestamp, beacon interval and
/// capability information.
pub const BEACON_FIXED_LEN: usize = 12;

/// An action frame body, borrowed from the frame buffer: a category byte, then
/// the category's own payload up to the end of the frame.
#[derive(Clone, Copy, Debug, PartialEq, Eq)]
pub struct ActionFrameBody<'a> {
    pub bytes: &'a [u8],
}

/// A beacon frame body, borrowed from the frame buffer: timestamp, beacon
/// interval and capability information, then the elements up to the end of
/// the frame.
#[derive(Clone, Copy, Debug, PartialEq, Eq)]
pub struct BeaconFrameBody<'a> {
    pub bytes: &'a [u8],
}

/// The body of a management frame, tagged by its subtype.
#[derive(Clone, Copy, Debug, PartialEq, Eq)]
pub enum ManagementFrameBody<'a> {
    Action(ActionFrameBody<'a>),
    ActionNoAck(ActionFrameBody<'a>),
    Beacon(BeaconFrameBody<'a>),
    ATIM,
}

/// Whether the body dispatcher has a variant for a subtype.
pub open spec fn body_implemented(sub_type: ManagementFrameSubtype) -> bool {
    matches!(
        sub_type,
        ManagementFrameSubtype::Action
            | ManagementFrameSubtype::ActionNoAck
            | ManagementFrameSubtype::Beacon
            | ManagementFrameSubtype::ATIM
    )
}

/// The fewest bytes that a body of an implemented subtype takes.
pub open spec fn body_min_len(sub_type: ManagementFrameSubtype) -> nat {
    match sub_type {
        ManagementFrameSubtype::Action => 1,
        ManagementFrameSubtype::ActionNoAck => 1,
        ManagementFrameSubtype::Beacon => 12,
        _ => 0,
    }
}

impl<'a> ManagementFrameBody<'a> {
    pub open spec fn spec_sub_type(self) -> ManagementFrameSubtype {
        match self {
            ManagementFrameBody::Action(_) => ManagementFrameSubtype::Action,
            ManagementFrameBody::ActionNoAck(_) => ManagementFrameSubtype::ActionNoAck,
            ManagementFrameBody::Beacon(_) => ManagementFrameSubtype::Beacon,
            ManagementFrameBody::ATIM => ManagementFrameSubtype::ATIM,
        }
    }

    /// The bytes of the body on the wire.
    pub open spec fn spec_bytes(self) -> Seq<u8> {
        match self {
            ManagementFrameBody::Action(a) => a.bytes@,
            ManagementFrameBody::ActionNoAck(a) => a.bytes@,
            ManagementFrameBody::Beacon(b) => b.bytes@,
            ManagementFrameBody::ATIM => Seq::<u8>::empty(),
        }
    }

    pub open spec fn spec_length(self) -> nat {
        self.spec_bytes().len()
    }

    /// A body as the decoder produces it: at least its fixed part.
    pub open spec fn wf(self) -> bool {
        self.spec_length() >= body_min_len(self.spec_sub_type())
    }

    /// The subtype that the body variant stands for.
    pub fn get_sub_type(&self) -> (r: ManagementFrameSubtype)
        ensures
            r == self.spec_sub_type(),
    {
        match self {
            ManagementFrameBody::Action(_) => ManagementFrameSubtype::Action,
            ManagementFrameBody::ActionNoAck(_) => ManagementFrameSubtype::ActionNoAck,
            ManagementFrameBody::Beacon(_) => ManagementFrameSubtype::Beacon,
            ManagementFrameBody::ATIM => ManagementFrameSubtype::ATIM,
        }
    }

    /// Bytes that the body takes on the wire.
    pub fn length_in_bytes(&self) -> (r: usize)
        ensures
            r == self.spec_length(),
    {
        match self {
            ManagementFrameBody::Action(action) | ManagementFrameBody::ActionNoAck(action) => {
                action.bytes.len()
            },
            ManagementFrameBody::Beacon(beacon) => beacon.bytes.len(),
            ManagementFrameBody::ATIM => 0,
        }
    }

    /// Decode the body of a frame of subtype `sub_type` from `from`, which
    /// holds the frame from the end of the header on; returns the body,
    /// borrowed from `from`, and the bytes consumed.
    pub fn try_from_ctx(from: &'a [u8], sub_type: ManagementFrameSubtype) -> (r: Result<
        (Self, usize),
        CodecError,
    >)
        ensures
            (body_implemented(sub_type) && from@.len() >= body_min_len(sub_type)) <==> r is Ok,
            !body_implemented(sub_type) ==> r == Err::<(Self, usize), CodecError>(
                CodecError::UnimplementedSubtype { subtype: sub_type },
            ),
            body_implemented(sub_type) && from@.len() < body_min_len(sub_type) ==> r == Err::<
                (Self, usize),
                CodecError,
            >(
                CodecError::TruncatedInput {
                    needed: body_min_len(sub_type) as usize,
                    available: from@.len() as usize,
                },
            ),
            r matches Ok((b, n)) ==> {
                &&& b.wf()
                &&& b.spec_sub_type() == sub_type
                &&& n == b.spec_length()
                &&& b.spec_bytes() == from@.subrange(0, n as int)
                &&& sub_type != ManagementFrameSubtype::ATIM ==> n == from@.len()
            },
    {
        let len = from.len();
        match sub_type {
            ManagementFrameSubtype::Action => {
                if len < ACTION_FIXED_LEN {
                    return Err(CodecError::TruncatedInput { needed: ACTION_FIXED_LEN, available: len });
                }
                proof { assert(from@.subrange(0, len as int) =~= from@); }
                Ok((ManagementFrameBody::Action(ActionFrameBody { bytes: from }), len))
            },
            ManagementFrameSubtype::ActionNoAck => {
                if len < ACTION_FIXED_LEN {
                    return Err(CodecError::TruncatedInput { needed: ACTION_FIXED_LEN, available: len });
                }
                proof { assert(from@.subrange(0, len as int) =~= from@); }
                Ok((ManagementFrameBody::ActionNoAck(ActionFrameBody { bytes: from }), len))
            },
            ManagementFrameSubtype::Beacon => {
                if len < BEACON_FIXED_LEN {
                    return Err(CodecError::TruncatedInput { needed: BEACON_FIXED_LEN, available: len });
                }
                proof { assert(from@.subrange(0, len as int) =~= from@); }
                Ok((ManagementFrameBody::Beacon(BeaconFrameBody { bytes: from }), len))
            },
            ManagementFrameSubtype::ATIM => {
                proof { assert(from@.subrange(0, 0) =~= Seq::<u8>::empty()); }
                Ok((ManagementFrameBody::ATIM, 0))
            },
            _ => Err(CodecError::UnimplementedSubtype { subtype: sub_type }),
        }
    }

    /// Write the body's bytes into `buf` at `off`, leaving the other bytes as
    /// they were.
    pub(crate) fn encode_at(&self, buf: &mut [u8], off: usize)
        requires
            off + self.spec_length() <= old(buf)@.len(),
        ensures
            final(buf)@ == old(buf)@.subrange(0, off as int) + self.spec_bytes() + old(
                buf,
            )@.subrange(off + self.spec_length(), old(buf)@.len() as int),
    {
        match self {
            ManagementFrameBody::Action(action) | ManagementFrameBody::ActionNoAck(action) => {
                write_bytes(buf, off, action.bytes);
            },
            ManagementFrameBody::Beacon(beacon) => {
                write_bytes(buf, off, beacon.bytes);
            },
            ManagementFrameBody::ATIM => {
                assert(old(buf)@ =~= old(buf)@.subrange(0, off as int) + self.spec_bytes() + old(
                    buf,
                )@.subrange(off + self.spec_length(), old(buf)@.len() as int));
            },
        }
    }

    /// Encode the body at the start of `buf`; returns the bytes written. A
    /// refused call leaves `buf` as it was.
    pub fn try_into_ctx(self, buf: &mut [u8]) -> (r: Result<usize, CodecError>)
        ensures
            final(buf)@.len() == old(buf)@.len(),
            (old(buf)@.len() >= self.spec_length()) <==> r is Ok,
            r is Err ==> final(buf)@ == old(buf)@ && r == Err::<usize, CodecError>(
                CodecError::DestinationTooSmall {
                    needed: self.spec_length() as usize,
                    available: old(buf)@.len() as usize,
                },
            ),
            r matches Ok(n) ==> {
                &&& n == self.spec_length()
                &&& final(buf)@.subrange(0, n as int) == self.spec_bytes()
                &&& final(buf)@.subrange(n as int, final(buf)@.len() as int) == old(
                    buf,
                )@.subrange(n as int, old(buf)@.len() as int)
            },
    {
        let n = self.length_in_bytes();
        if buf.len() < n {
            return Err(CodecError::DestinationTooSmall { needed: n, available: buf.len() });
        }
        self.encode_at(buf, 0);
        proof {
            assert(buf@.subrange(0, n as int) =~= self.spec_bytes());
            assert(buf@.subrange(n as int, buf@.len() as int) =~= old(buf)@.subrange(
                n as int,
                old(buf)@.len() as int,
            ));
        }
        Ok(n)
    }
}

/// Decoding gives back what was encoded: a valid body `d` decoded with the
/// subtype of a valid body `b`, from a buffer that begins with `b`'s encoding
/// and holds nothing after it, is `b`.
pub proof fn lemma_body_round_trip(b: ManagementFrameBody, d: ManagementFrameBody, wire: Seq<u8>)
    requires
        b.wf(),
        d.wf(),
        d.spec_sub_type() == b.spec_sub_type(),
        wire == b.spec_bytes(),
        d.spec_bytes() == wire.subrange(0, d.spec_length() as int),
        d.spec_sub_type() != ManagementFrameSubtype::ATIM ==> d.spec_length() == wire.len(),
    ensures
        d == b,
        body_implemented(b.spec_sub_type()),
        wire.len() >= body_min_len(b.spec_sub_type()),
{
    match (b, d) {
        (ManagementFrameBody::Action(x), ManagementFrameBody::Action(y)) => {
            assert(x.bytes@ =~= y.bytes@);
            assert(x.bytes =~= y.bytes);
        },
        (ManagementFrameBody::ActionNoAck(x), ManagementFrameBody::ActionNoAck(y)) => {
            assert(x.bytes@ =~= y.bytes@);
            assert(x.bytes =~= y.bytes);
        },
        (ManagementFrameBody::Beacon(x), ManagementFrameBody::Beacon(y)) => {
            assert(x.bytes@ =~= y.bytes@);
            assert(x.bytes =~= y.bytes);
        },
        _ => {},
    }
}

} // verus!
