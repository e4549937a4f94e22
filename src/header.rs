use vstd::prelude::*;

use crate::bytes::{le16_bytes, le16_value, lemma_le16, lemma_le16_injective, read_array, read_u16_le, write_bytes, write_u16_le};
use crate::error::CodecError;
use crate::flags::{lemma_frag_seq_round_trip, FCFFlags, FragSeqInfo};

verus! {

/// Bytes of the fixed part of a header: duration, three addresses and the
/// fragment/sequence field.
pub const FIXED_HEADER_LEN: usize = 22;

/// Bytes of the optional trailing control block.
pub const HT_CONTROL_LEN: usize = 4;

/// A management frame header.
#[derive(Clone, Copy, Debug, PartialEq, Eq, Hash)]
pub struct ManagementFrameHeader {
    pub fcf_flags: FCFFlags,
    pub duration: u16,
    pub receiver_address: [u8; 6],
    pub transmitter_address: [u8; 6],
    pub bssid: [u8; 6],
    pub frag_seq_info: FragSeqInfo,
    pub ht_control: Option<[u8; 4]>,
}

/// The header length that a flag set calls for.
pub open spec fn header_len_for(flags: FCFFlags) -> nat {
    if flags.htc_plus_order {
        26
    } else {
        22
    }
}

/// The end of the first field that a buffer of `len` bytes does not hold in
/// full, for a buffer too short for the header.
pub open spec fn header_needed(len: nat) -> nat {
    if len < 2 {
        2
    } else if len < 8 {
        8
    } else if len < 14 {
        14
    } else if len < 20 {
        20
    } else if len < 22 {
        22
    } else {
        26
    }
}

impl ManagementFrameHeader {
    /// The control block is present exactly when the flags announce it.
    pub open spec fn consistent(self) -> bool {
        self.fcf_flags.htc_plus_order == self.ht_control is Some
    }

    /// A header as the decoder produces it.
    pub open spec fn wf(self) -> bool {
        self.consistent() && self.frag_seq_info.wf()
    }

    pub open spec fn spec_length(self) -> nat {
        if self.ht_control is Some {
            26
        } else {
            22
        }
    }

    /// The bytes of the header on the wire.
    pub open spec fn spec_bytes(self) -> Seq<u8> {
        le16_bytes(self.duration) + self.receiver_address@ + self.transmitter_address@
            + self.bssid@ + le16_bytes(self.frag_seq_info.spec_representation()) + match self.ht_control {
            Some(c) => c@,
            None => Seq::<u8>::empty(),
        }
    }

    /// Bytes that the header takes on the wire.
    pub fn length_in_bytes(&self) -> (r: usize)
        ensures
            r == self.spec_length(),
    {
        let mut size: usize = FIXED_HEADER_LEN;
        if self.ht_control.is_some() {
            size = size + HT_CONTROL_LEN;
        }
        size
    }

    /// Decode a header from the start of `from`, with the flags decoded
    /// upstream; returns the header and the bytes consumed.
    pub fn try_from_ctx(from: &[u8], fcf_flags: FCFFlags) -> (r: Result<(Self, usize), CodecError>)
        ensures
            (from@.len() >= header_len_for(fcf_flags)) <==> r is Ok,
            r matches Ok((h, n)) ==> {
                &&& h.wf()
                &&& h.fcf_flags == fcf_flags
                &&& n == h.spec_length() == header_len_for(fcf_flags)
                &&& h.spec_bytes() == from@.subrange(0, n as int)
            },
            from@.len() < header_len_for(fcf_flags) ==> r == Err::<(Self, usize), CodecError>(
                CodecError::TruncatedInput {
                    needed: header_needed(from@.len()) as usize,
                    available: from@.len() as usize,
                },
            ),
    {
        let len = from.len();
        if len < FIXED_HEADER_LEN || (fcf_flags.htc_plus_order && len < FIXED_HEADER_LEN
            + HT_CONTROL_LEN) {
            let needed: usize = if len < 2 {
                2
            } else if len < 8 {
                8
            } else if len < 14 {
                14
            } else if len < 20 {
                20
            } else if len < 22 {
                22
            } else {
                26
            };
            return Err(CodecError::TruncatedInput { needed, available: len });
        }
        let duration = read_u16_le(from, 0);
        let receiver_address: [u8; 6] = read_array(from, 2);
        let transmitter_address: [u8; 6] = read_array(from, 8);
        let bssid: [u8; 6] = read_array(from, 14);
        let rep = read_u16_le(from, 20);
        let frag_seq_info = FragSeqInfo::from_representation(rep);
        let ht_control: Option<[u8; 4]> = if fcf_flags.htc_plus_order {
            Some(read_array(from, 22))
        } else {
            None
        };
        let h = ManagementFrameHeader {
            fcf_flags,
            duration,
            receiver_address,
            transmitter_address,
            bssid,
            frag_seq_info,
            ht_control,
        };
        let n = h.length_in_bytes();
        proof {
            lemma_le16(0, from@[0], from@[1]);
            lemma_le16(0, from@[20], from@[21]);
            lemma_frag_seq_round_trip(rep, frag_seq_info);
            let f = from@;
            assert(le16_bytes(duration) =~= f.subrange(0, 2));
            assert(le16_bytes(frag_seq_info.spec_representation()) =~= f.subrange(20, 22));
            let tail = match ht_control {
                Some(c) => c@,
                None => Seq::<u8>::empty(),
            };
            assert(tail =~= f.subrange(22, n as int));
            assert(h.spec_bytes() =~= f.subrange(0, n as int));
        }
        Ok((h, n))
    }

    /// Encode the header at the start of `buf`; returns the bytes written.
    /// A header whose flags and control block disagree is refused, and a
    /// refused call leaves `buf` as it was.
    pub fn try_into_ctx(self, buf: &mut [u8]) -> (r: Result<usize, CodecError>)
        ensures
            final(buf)@.len() == old(buf)@.len(),
            !self.consistent() ==> r == Err::<usize, CodecError>(CodecError::ControlFieldMismatch),
            self.consistent() && old(buf)@.len() < self.spec_length() ==> r == Err::<
                usize,
                CodecError,
            >(
                CodecError::DestinationTooSmall {
                    needed: self.spec_length() as usize,
                    available: old(buf)@.len() as usize,
                },
            ),
            r is Err ==> final(buf)@ == old(buf)@,
            (self.consistent() && old(buf)@.len() >= self.spec_length()) <==> r is Ok,
            r matches Ok(n) ==> {
                &&& n == self.spec_length()
                &&& final(buf)@.subrange(0, n as int) == self.spec_bytes()
                &&& final(buf)@.subrange(n as int, final(buf)@.len() as int) == old(
                    buf,
                )@.subrange(n as int, old(buf)@.len() as int)
            },
    {
        if self.fcf_flags.htc_plus_order != self.ht_control.is_some() {
            return Err(CodecError::ControlFieldMismatch);
        }
        let n = self.length_in_bytes();
        if buf.len() < n {
            return Err(CodecError::DestinationTooSmall { needed: n, available: buf.len() });
        }
        let ghost start = buf@;
        write_u16_le(buf, 0, self.duration);
        write_bytes(buf, 2, &self.receiver_address);
        write_bytes(buf, 8, &self.transmitter_address);
        write_bytes(buf, 14, &self.bssid);
        write_u16_le(buf, 20, self.frag_seq_info.to_representation());
        match self.ht_control {
            Some(c) => {
                write_bytes(buf, 22, &c);
            },
            None => {},
        }
        proof {
            let tail = match self.ht_control {
                Some(c) => c@,
                None => Seq::<u8>::empty(),
            };
            assert(buf@.subrange(0, 2) =~= le16_bytes(self.duration));
            assert(buf@.subrange(2, 8) =~= self.receiver_address@);
            assert(buf@.subrange(8, 14) =~= self.transmitter_address@);
            assert(buf@.subrange(14, 20) =~= self.bssid@);
            assert(buf@.subrange(20, 22) =~= le16_bytes(self.frag_seq_info.spec_representation()));
            assert(buf@.subrange(22, n as int) =~= tail);
            assert(buf@.subrange(0, n as int) =~= self.spec_bytes());
            assert(buf@.subrange(n as int, buf@.len() as int) =~= start.subrange(
                n as int,
                start.len() as int,
            ));
        }
        Ok(n)
    }
}

/// A header's encoding is as long as the header says.
pub proof fn lemma_header_bytes_len(h: ManagementFrameHeader)
    ensures
        h.spec_bytes().len() == h.spec_length(),
{
}

/// Decoding gives back what was encoded: a valid header `d` with the flags of
/// a valid header `h`, whose encoding matches the first bytes of a buffer that
/// begins with `h`'s encoding, is `h`; and the bytes that decoding consumes are
/// exactly `h`'s length.
pub proof fn lemma_header_round_trip(h: ManagementFrameHeader, d: ManagementFrameHeader, wire: Seq<u8>)
    requires
        h.wf(),
        d.wf(),
        d.fcf_flags == h.fcf_flags,
        wire.len() >= h.spec_length(),
        wire.subrange(0, h.spec_length() as int) == h.spec_bytes(),
        d.spec_bytes() == wire.subrange(0, header_len_for(h.fcf_flags) as int),
    ensures
        d == h,
        h.spec_bytes().len() == h.spec_length() == header_len_for(h.fcf_flags),
{
    let hb = h.spec_bytes();
    let db = d.spec_bytes();
    assert(db == hb);
    lemma_le16_injective(h.duration, d.duration);
    lemma_le16_injective(
        h.frag_seq_info.spec_representation(),
        d.frag_seq_info.spec_representation(),
    );
    assert(le16_bytes(h.duration) =~= hb.subrange(0, 2));
    assert(le16_bytes(d.duration) =~= db.subrange(0, 2));
    assert(h.receiver_address@ =~= hb.subrange(2, 8));
    assert(d.receiver_address@ =~= db.subrange(2, 8));
    assert(h.transmitter_address@ =~= hb.subrange(8, 14));
    assert(d.transmitter_address@ =~= db.subrange(8, 14));
    assert(h.bssid@ =~= hb.subrange(14, 20));
    assert(d.bssid@ =~= db.subrange(14, 20));
    assert(le16_bytes(h.frag_seq_info.spec_representation()) =~= hb.subrange(20, 22));
    assert(le16_bytes(d.frag_seq_info.spec_representation()) =~= db.subrange(20, 22));
    lemma_frag_seq_round_trip(0, h.frag_seq_info);
    lemma_frag_seq_round_trip(0, d.frag_seq_info);
    assert(h.receiver_address =~= d.receiver_address);
    assert(h.transmitter_address =~= d.transmitter_address);
    assert(h.bssid =~= d.bssid);
    assert(h.frag_seq_info == d.frag_seq_info);
    match (h.ht_control, d.ht_control) {
        (Some(a), Some(b)) => {
            assert(a@ =~= hb.subrange(22, 26));
            assert(b@ =~= db.subrange(22, 26));
            assert(a =~= b);
        },
        _ => {},
    }
}

} // verus!
