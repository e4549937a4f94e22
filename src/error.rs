use vstd::prelude::*;

use crate::subtypes::ManagementFrameSubtype;

verus! {

/// Why a decode or encode call failed.
#[derive(Clone, Copy, Debug, PartialEq, Eq)]
pub enum CodecError {
    /// The input ended before a field: `needed` bytes were required in all,
    /// `available` were present.
    TruncatedInput { needed: usize, available: usize },
    /// A subtype code that the registry does not assign.
    UnknownSubtype { code: u8 },
    /// A subtype that the registry knows but for which no body codec exists.
    UnimplementedSubtype { subtype: ManagementFrameSubtype },
    /// The output buffer cannot hold the `needed` bytes of the value.
    DestinationTooSmall { needed: usize, available: usize },
    /// A header whose extra-control flag disagrees with the presence of its
    /// control block.
    ControlFieldMismatch,
}

} // verus!
