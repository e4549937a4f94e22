use vstd::prelude::*;

verus! {

/// The flag bits of the frame control field, decoded upstream of the header.
#[derive(Clone, Copy, Debug, Default, PartialEq, Eq, Hash)]
pub struct FCFFlags {
    pub to_ds: bool,
    pub from_ds: bool,
    pub more_fragments: bool,
    pub retry: bool,
    pub pwr_mgmt: bool,
    pub more_data: bool,
    pub protected: bool,
    /// Set when the header carries the trailing 4-byte control block.
    pub htc_plus_order: bool,
}

/// The flag byte's value of one flag: `bit` when set, else nothing.
pub open spec fn flag_value(set: bool, bit: u8) -> u8 {
    if set {
        bit
    } else {
        0
    }
}

impl FCFFlags {
    /// The flag byte: bit 0 `to_ds` up to bit 7 `htc_plus_order`.
    pub open spec fn spec_bits(self) -> u8 {
        (flag_value(self.to_ds, 1) | flag_value(self.from_ds, 2) | flag_value(self.more_fragments, 4)
            | flag_value(self.retry, 8) | flag_value(self.pwr_mgmt, 16) | flag_value(
            self.more_data,
            32,
        ) | flag_value(self.protected, 64) | flag_value(self.htc_plus_order, 128)) as u8
    }

    /// Split a flag byte into its flags.
    pub fn from_bits(bits: u8) -> (r: Self)
        ensures
            r.to_ds == (bits & 1 != 0),
            r.from_ds == (bits & 2 != 0),
            r.more_fragments == (bits & 4 != 0),
            r.retry == (bits & 8 != 0),
            r.pwr_mgmt == (bits & 16 != 0),
            r.more_data == (bits & 32 != 0),
            r.protected == (bits & 64 != 0),
            r.htc_plus_order == (bits & 128 != 0),
    {
        FCFFlags {
            to_ds: bits & 1 != 0,
            from_ds: bits & 2 != 0,
            more_fragments: bits & 4 != 0,
            retry: bits & 8 != 0,
            pwr_mgmt: bits & 16 != 0,
            more_data: bits & 32 != 0,
            protected: bits & 64 != 0,
            htc_plus_order: bits & 128 != 0,
        }
    }

    /// Pack the flags into a flag byte.
    pub fn into_bits(self) -> (r: u8)
        ensures
            r == self.spec_bits(),
    {
        (if self.to_ds { 1u8 } else { 0u8 }) | (if self.from_ds { 2u8 } else { 0u8 }) | (
        if self.more_fragments { 4u8 } else { 0u8 }) | (if self.retry { 8u8 } else { 0u8 }) | (
        if self.pwr_mgmt { 16u8 } else { 0u8 }) | (if self.more_data { 32u8 } else { 0u8 }) | (
        if self.protected { 64u8 } else { 0u8 }) | (if self.htc_plus_order { 128u8 } else { 0u8 })
    }
}

/// Splitting a flag byte and packing the flags gives the byte back.
pub proof fn lemma_flags_round_trip(bits: u8)
    ensures
        (FCFFlags {
            to_ds: bits & 1 != 0,
            from_ds: bits & 2 != 0,
            more_fragments: bits & 4 != 0,
            retry: bits & 8 != 0,
            pwr_mgmt: bits & 16 != 0,
            more_data: bits & 32 != 0,
            protected: bits & 64 != 0,
            htc_plus_order: bits & 128 != 0,
        }).spec_bits() == bits,
{
    assert(bits == (flag_value(bits & 1 != 0, 1) | flag_value(bits & 2 != 0, 2) | flag_value(
        bits & 4 != 0,
        4,
    ) | flag_value(bits & 8 != 0, 8) | flag_value(bits & 16 != 0, 16) | flag_value(
        bits & 32 != 0,
        32,
    ) | flag_value(bits & 64 != 0, 64) | flag_value(bits & 128 != 0, 128))) by (bit_vector);
}

/// Packing flags into a byte and splitting it gives each flag back.
pub proof fn lemma_flags_bits_exact(f: FCFFlags)
    ensures
        (f.spec_bits() & 1 != 0) == f.to_ds,
        (f.spec_bits() & 2 != 0) == f.from_ds,
        (f.spec_bits() & 4 != 0) == f.more_fragments,
        (f.spec_bits() & 8 != 0) == f.retry,
        (f.spec_bits() & 16 != 0) == f.pwr_mgmt,
        (f.spec_bits() & 32 != 0) == f.more_data,
        (f.spec_bits() & 64 != 0) == f.protected,
        (f.spec_bits() & 128 != 0) == f.htc_plus_order,
{
    let (a, b, c, d, e, g, h, i) = (
        f.to_ds,
        f.from_ds,
        f.more_fragments,
        f.retry,
        f.pwr_mgmt,
        f.more_data,
        f.protected,
        f.htc_plus_order,
    );
    let x = f.spec_bits();
    assert(x == (flag_value(a, 1) | flag_value(b, 2) | flag_value(c, 4) | flag_value(d, 8)
        | flag_value(e, 16) | flag_value(g, 32) | flag_value(h, 64) | flag_value(i, 128)));
    assert({
        &&& (x & 1 != 0) == a
        &&& (x & 2 != 0) == b
        &&& (x & 4 != 0) == c
        &&& (x & 8 != 0) == d
        &&& (x & 16 != 0) == e
        &&& (x & 32 != 0) == g
        &&& (x & 64 != 0) == h
        &&& (x & 128 != 0) == i
    }) by (bit_vector)
        requires
            x == (flag_value(a, 1) | flag_value(b, 2) | flag_value(c, 4) | flag_value(d, 8)
                | flag_value(e, 16) | flag_value(g, 32) | flag_value(h, 64) | flag_value(i, 128)),
    ;
}

/// The fragment number (low 4 bits) and sequence number (high 12 bits) packed
/// into one 16-bit wire value.
#[derive(Clone, Copy, Debug, Default, PartialEq, Eq, Hash)]
pub struct FragSeqInfo {
    pub fragment_number: u8,
    pub sequence_number: u16,
}

impl FragSeqInfo {
    /// Both counters fit their bit widths.
    pub open spec fn wf(self) -> bool {
        self.fragment_number < 16 && self.sequence_number < 4096
    }

    /// The wire value: each counter reduced to its width, then packed.
    pub open spec fn spec_representation(self) -> u16 {
        ((self.sequence_number % 4096) * 16 + (self.fragment_number % 16)) as u16
    }

    /// Split a wire value into its two counters.
    pub fn from_representation(v: u16) -> (r: Self)
        ensures
            r.wf(),
            r.fragment_number == v % 16,
            r.sequence_number == v / 16,
    {
        FragSeqInfo { fragment_number: (v % 16) as u8, sequence_number: v / 16 }
    }

    /// Pack the two counters into a wire value.
    pub fn to_representation(&self) -> (r: u16)
        ensures
            r == self.spec_representation(),
    {
        let s: u16 = self.sequence_number % 4096;
        let f: u16 = (self.fragment_number % 16) as u16;
        assert(s * 16 + f <= u16::MAX) by (nonlinear_arith)
            requires
                s < 4096,
                f < 16,
        ;
        s * 16 + f
    }
}

/// Packing is lossless: every wire value splits into counters that pack back
/// to it, and every valid pair of counters packs into a value that splits
/// back into that pair.
pub proof fn lemma_frag_seq_round_trip(v: u16, f: FragSeqInfo)
    ensures
        (FragSeqInfo { fragment_number: (v % 16) as u8, sequence_number: v / 16 }).spec_representation()
            == v,
        f.wf() ==> f.spec_representation() % 16 == f.fragment_number as int
            && f.spec_representation() / 16 == f.sequence_number as int,
{
    let s = (v / 16) as int;
    let r = (v % 16) as int;
    assert(s % 4096 == s && (s % 4096) * 16 + r == v) by (nonlinear_arith)
        requires
            s == v as int / 16,
            r == v as int % 16,
            0 <= v <= u16::MAX,
    ;
    if f.wf() {
        let a = f.sequence_number as int;
        let b = f.fragment_number as int;
        assert((a * 16 + b) % 16 == b && (a * 16 + b) / 16 == a) by (nonlinear_arith)
            requires
                0 <= a < 4096,
                0 <= b < 16,
        ;
    }
}

} // verus!
