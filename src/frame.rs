use vstd::prelude::*;
use vstd::slice::slice_subrange;

use crate::body::{body_implemented, body_min_len, lemma_body_round_trip, ManagementFrameBody};
use crate::error::CodecError;
use crate::flags::FCFFlags;
use crate::header::{header_len_for, header_needed, lemma_header_bytes_len, lemma_header_round_trip, ManagementFrameHeader};
use crate::subtypes::{DataFrameSubtype, ManagementFrameSubtype};

verus! {

/// The type of a frame, with its subtype.
#[derive(Clone, Copy, Debug, PartialEq, Eq, Hash)]
pub enum FrameType {
    Management(ManagementFrameSubtype),
    Data(DataFrameSubtype),
}

/// The frame control field: protocol version, frame type with subtype, and
/// flags.
#[derive(Clone, Copy, Debug, PartialEq, Eq, Hash)]
pub struct FrameControlField {
    pub version: u8,
    pub frame_type: FrameType,
    pub flags: FCFFlags,
}

/// Why a frame failed to decode or encode: the stage, and the stage's error.
#[derive(Clone, Copy, Debug, PartialEq, Eq)]
pub enum FrameError {
    Header(CodecError),
    Body(CodecError),
}

/// A management frame: one header and one body.
#[derive(Clone, Copy, Debug, PartialEq, Eq)]
pub struct ManagementFrame<'a> {
    pub header: ManagementFrameHeader,
    pub body: ManagementFrameBody<'a>,
}

impl<'a> ManagementFrame<'a> {
    pub open spec fn wf(self) -> bool {
        self.header.wf() && self.body.wf()
    }

    pub open spec fn spec_length(self) -> nat {
        self.header.spec_length() + self.body.spec_length()
    }

    /// The bytes of the frame on the wire: the header, then the body.
    pub open spec fn spec_bytes(self) -> Seq<u8> {
        self.header.spec_bytes() + self.body.spec_bytes()
    }

    /// The frame control field, derived from the body's subtype and the
    /// header's flags.
    pub fn get_fcf(&self) -> (r: FrameControlField)
        ensures
            r == (FrameControlField {
                version: 0,
                frame_type: FrameType::Management(self.body.spec_sub_type()),
                flags: self.header.fcf_flags,
            }),
    {
        FrameControlField {
            version: 0,
            frame_type: FrameType::Management(self.body.get_sub_type()),
            flags: self.header.fcf_flags,
        }
    }

    /// Bytes that the frame takes on the wire.
    pub fn length_in_bytes(&self) -> (r: usize)
        requires
            self.spec_length() <= usize::MAX,
        ensures
            r == self.spec_length(),
    {
        self.header.length_in_bytes() + self.body.length_in_bytes()
    }

    /// Decode a frame of the subtype and flags decoded upstream from `from`:
    /// the header, then the body from the rest; returns the frame, whose body
    /// borrows from `from`, and the bytes consumed.
    pub fn try_from_ctx(
        from: &'a [u8],
        sub_type: ManagementFrameSubtype,
        fcf_flags: FCFFlags,
    ) -> (r: Result<(Self, usize), FrameError>)
        ensures
            ({
                let len = from@.len();
                let hl = header_len_for(fcf_flags);
                &&& len < hl ==> r == Err::<(Self, usize), FrameError>(
                    FrameError::Header(
                        CodecError::TruncatedInput {
                            needed: header_needed(len) as usize,
                            available: len as usize,
                        },
                    ),
                )
                &&& len >= hl && !body_implemented(sub_type) ==> r == Err::<
                    (Self, usize),
                    FrameError,
                >(FrameError::Body(CodecError::UnimplementedSubtype { subtype: sub_type }))
                &&& len >= hl && body_implemented(sub_type) && len - hl < body_min_len(sub_type)
                    ==> r == Err::<(Self, usize), FrameError>(
                    FrameError::Body(
                        CodecError::TruncatedInput {
                            needed: body_min_len(sub_type) as usize,
                            available: (len - hl) as usize,
                        },
                    ),
                )
                &&& (len >= hl && body_implemented(sub_type) && len - hl >= body_min_len(
                    sub_type,
                )) <==> r is Ok
            }),
            r matches Ok((f, n)) ==> {
                &&& f.wf()
                &&& f.header.fcf_flags == fcf_flags
                &&& f.body.spec_sub_type() == sub_type
                &&& n == f.spec_length()
                &&& f.spec_bytes() == from@.subrange(0, n as int)
                &&& sub_type != ManagementFrameSubtype::ATIM ==> n == from@.len()
            },
    {
        let (header, hl) = match ManagementFrameHeader::try_from_ctx(from, fcf_flags) {
            Ok(v) => v,
            Err(e) => {
                return Err(FrameError::Header(e));
            },
        };
        let rest = slice_subrange(from, hl, from.len());
        let (body, bl) = match ManagementFrameBody::try_from_ctx(rest, sub_type) {
            Ok(v) => v,
            Err(e) => {
                return Err(FrameError::Body(e));
            },
        };
        let f = ManagementFrame { header, body };
        proof {
            assert(f.spec_bytes() =~= from@.subrange(0, (hl + bl) as int));
        }
        Ok((f, hl + bl))
    }

    /// Encode the frame at the start of `buf`: the header, then the body;
    /// returns the bytes written. A refused call leaves `buf` as it was.
    pub fn try_into_ctx(self, buf: &mut [u8]) -> (r: Result<usize, FrameError>)
        ensures
            final(buf)@.len() == old(buf)@.len(),
            r is Err ==> final(buf)@ == old(buf)@,
            ({
                let len = old(buf)@.len();
                let hl = self.header.spec_length();
                let bl = self.body.spec_length();
                &&& !self.header.consistent() ==> r == Err::<usize, FrameError>(
                    FrameError::Header(CodecError::ControlFieldMismatch),
                )
                &&& self.header.consistent() && len < hl ==> r == Err::<usize, FrameError>(
                    FrameError::Header(
                        CodecError::DestinationTooSmall { needed: hl as usize, available: len as usize },
                    ),
                )
                &&& self.header.consistent() && len >= hl && len - hl < bl ==> r == Err::<
                    usize,
                    FrameError,
                >(
                    FrameError::Body(
                        CodecError::DestinationTooSmall {
                            needed: bl as usize,
                            available: (len - hl) as usize,
                        },
                    ),
                )
                &&& (self.header.consistent() && len >= hl + bl) <==> r is Ok
            }),
            r matches Ok(n) ==> {
                &&& n == self.spec_length()
                &&& final(buf)@.subrange(0, n as int) == self.spec_bytes()
                &&& final(buf)@.subrange(n as int, final(buf)@.len() as int) == old(
                    buf,
                )@.subrange(n as int, old(buf)@.len() as int)
            },
    {
        if self.header.fcf_flags.htc_plus_order != self.header.ht_control.is_some() {
            return Err(FrameError::Header(CodecError::ControlFieldMismatch));
        }
        let hl = self.header.length_in_bytes();
        let bl = self.body.length_in_bytes();
        let len = buf.len();
        if len < hl {
            return Err(FrameError::Header(CodecError::DestinationTooSmall { needed: hl, available: len }));
        }
        if len - hl < bl {
            return Err(FrameError::Body(CodecError::DestinationTooSmall { needed: bl, available: len - hl }));
        }
        let ghost start = buf@;
        let written = self.header.try_into_ctx(buf);
        let ghost mid = buf@;
        match written {
            Ok(_) => {},
            Err(e) => {
                return Err(FrameError::Header(e));
            },
        }
        self.body.encode_at(buf, hl);
        proof {
            assert(mid.subrange(0, hl as int) =~= buf@.subrange(0, hl as int));
            assert(buf@.subrange(0, (hl + bl) as int) =~= self.spec_bytes());
            assert(buf@.subrange((hl + bl) as int, buf@.len() as int) =~= mid.subrange(
                (hl + bl) as int,
                mid.len() as int,
            ));
            let a = mid.subrange(hl as int, mid.len() as int);
            assert(a == start.subrange(hl as int, start.len() as int));
            assert(mid.subrange((hl + bl) as int, mid.len() as int) =~= a.subrange(
                bl as int,
                a.len() as int,
            ));
            assert(mid.subrange((hl + bl) as int, mid.len() as int) =~= start.subrange(
                (hl + bl) as int,
                start.len() as int,
            ));
        }
        Ok(hl + bl)
    }
}

/// Decoding gives back what was encoded: a valid frame `d` decoded with the
/// subtype and flags of a valid frame `f`, from a buffer that holds exactly
/// `f`'s encoding, is `f`, and the bytes consumed are `f`'s length.
pub proof fn lemma_frame_round_trip(f: ManagementFrame, d: ManagementFrame, wire: Seq<u8>)
    requires
        f.wf(),
        d.wf(),
        d.header.fcf_flags == f.header.fcf_flags,
        d.body.spec_sub_type() == f.body.spec_sub_type(),
        wire == f.spec_bytes(),
        d.spec_length() <= wire.len(),
        d.spec_bytes() == wire.subrange(0, d.spec_length() as int),
        d.body.spec_sub_type() != ManagementFrameSubtype::ATIM ==> d.spec_length() == wire.len(),
    ensures
        d == f,
        f.spec_bytes().len() == f.spec_length(),
{
    let hl = f.header.spec_length();
    lemma_header_bytes_len(f.header);
    lemma_header_bytes_len(d.header);
    assert(d.header.spec_length() == hl);
    assert(d.header.spec_bytes() =~= d.spec_bytes().subrange(0, hl as int));
    assert(f.header.spec_bytes() =~= wire.subrange(0, hl as int));
    assert(header_len_for(f.header.fcf_flags) == hl);
    assert(d.spec_bytes().subrange(0, hl as int) =~= wire.subrange(0, hl as int));
    lemma_header_round_trip(f.header, d.header, wire);
    let bw = f.body.spec_bytes();
    assert(bw =~= wire.subrange(hl as int, wire.len() as int));
    assert(d.body.spec_bytes() =~= d.spec_bytes().subrange(hl as int, d.spec_length() as int));
    assert(d.body.spec_bytes() =~= bw.subrange(0, d.body.spec_length() as int));
    lemma_body_round_trip(f.body, d.body, bw);
}

} // verus!
