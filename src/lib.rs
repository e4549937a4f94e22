//! Bit-exact codec for IEEE 802.11 management frame headers and bodies,
//! together with the subtype registry shared by data and management frames.

pub mod body;
mod bytes;
pub mod error;
pub mod flags;
pub mod frame;
pub mod header;
pub mod subtypes;

pub use body::{ActionFrameBody, BeaconFrameBody, ManagementFrameBody};
pub use error::CodecError;
pub use flags::{FCFFlags, FragSeqInfo};
pub use frame::{FrameControlField, FrameError, FrameType, ManagementFrame};
pub use header::ManagementFrameHeader;
pub use subtypes::{DataFrameSubtype, ManagementFrameSubtype};
