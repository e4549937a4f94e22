use vstd::prelude::*;

use crate::error::CodecError;

verus! {

/// The subtype of a data frame.
#[derive(Clone, Copy, Debug, PartialEq, Eq, Hash)]
pub enum DataFrameSubtype {
    Data,
    DataCFAck,
    DataCFPoll,
    DataCFAckCFPoll,
    Null,
    CFAck,
    CFPoll,
    CFAckCFPoll,
    QoSData,
    QoSDataCFAck,
    QoSDataCFPoll,
    QoSDataCFAckCFPoll,
    QoSNull,
    QoSCFPoll,
    QoSCFAckCFPoll,
}

impl DataFrameSubtype {
    /// The 4-bit code that the variant stands for on the wire.
    pub open spec fn code(self) -> u8 {
        match self {
            DataFrameSubtype::Data => 0b0000,
            DataFrameSubtype::DataCFAck => 0b0001,
            DataFrameSubtype::DataCFPoll => 0b0010,
            DataFrameSubtype::DataCFAckCFPoll => 0b0011,
            DataFrameSubtype::Null => 0b0100,
            DataFrameSubtype::CFAck => 0b0101,
            DataFrameSubtype::CFPoll => 0b0110,
            DataFrameSubtype::CFAckCFPoll => 0b0111,
            DataFrameSubtype::QoSData => 0b1000,
            DataFrameSubtype::QoSDataCFAck => 0b1001,
            DataFrameSubtype::QoSDataCFPoll => 0b1010,
            DataFrameSubtype::QoSDataCFAckCFPoll => 0b1011,
            DataFrameSubtype::QoSNull => 0b1100,
            DataFrameSubtype::QoSCFPoll => 0b1110,
            DataFrameSubtype::QoSCFAckCFPoll => 0b1111,
        }
    }

    /// Whether a code is assigned to a data subtype: every 4-bit code but `0b1101`.
    pub open spec fn is_assigned(code: u8) -> bool {
        code < 16 && code != 0b1101
    }

    /// QoS subtypes are exactly those whose code has the high bit set.
    pub open spec fn spec_is_qos(self) -> bool {
        self.code() >= 0b1000
    }

    /// Subtypes that carry a payload: the plain and QoS data variants,
    /// `0b0000` to `0b0011` and `0b1000` to `0b1011`.
    pub open spec fn spec_has_payload(self) -> bool {
        self.code() <= 0b0011 || (0b1000 <= self.code() && self.code() <= 0b1011)
    }

    /// Look up the variant that a 4-bit code stands for.
    pub fn from_bits(code: u8) -> (r: Result<Self, CodecError>)
        ensures
            Self::is_assigned(code) <==> r is Ok,
            r matches Ok(s) ==> s.code() == code,
            !Self::is_assigned(code) ==> r == Err::<Self, CodecError>(
                CodecError::UnknownSubtype { code },
            ),
    {
        match code {
            0b0000 => Ok(DataFrameSubtype::Data),
            0b0001 => Ok(DataFrameSubtype::DataCFAck),
            0b0010 => Ok(DataFrameSubtype::DataCFPoll),
            0b0011 => Ok(DataFrameSubtype::DataCFAckCFPoll),
            0b0100 => Ok(DataFrameSubtype::Null),
            0b0101 => Ok(DataFrameSubtype::CFAck),
            0b0110 => Ok(DataFrameSubtype::CFPoll),
            0b0111 => Ok(DataFrameSubtype::CFAckCFPoll),
            0b1000 => Ok(DataFrameSubtype::QoSData),
            0b1001 => Ok(DataFrameSubtype::QoSDataCFAck),
            0b1010 => Ok(DataFrameSubtype::QoSDataCFPoll),
            0b1011 => Ok(DataFrameSubtype::QoSDataCFAckCFPoll),
            0b1100 => Ok(DataFrameSubtype::QoSNull),
            0b1110 => Ok(DataFrameSubtype::QoSCFPoll),
            0b1111 => Ok(DataFrameSubtype::QoSCFAckCFPoll),
            _ => Err(CodecError::UnknownSubtype { code }),
        }
    }

    /// The 4-bit code of the variant.
    pub fn into_bits(self) -> (r: u8)
        ensures
            r == self.code(),
    {
        match self {
            DataFrameSubtype::Data => 0b0000,
            DataFrameSubtype::DataCFAck => 0b0001,
            DataFrameSubtype::DataCFPoll => 0b0010,
            DataFrameSubtype::DataCFAckCFPoll => 0b0011,
            DataFrameSubtype::Null => 0b0100,
            DataFrameSubtype::CFAck => 0b0101,
            DataFrameSubtype::CFPoll => 0b0110,
            DataFrameSubtype::CFAckCFPoll => 0b0111,
            DataFrameSubtype::QoSData => 0b1000,
            DataFrameSubtype::QoSDataCFAck => 0b1001,
            DataFrameSubtype::QoSDataCFPoll => 0b1010,
            DataFrameSubtype::QoSDataCFAckCFPoll => 0b1011,
            DataFrameSubtype::QoSNull => 0b1100,
            DataFrameSubtype::QoSCFPoll => 0b1110,
            DataFrameSubtype::QoSCFAckCFPoll => 0b1111,
        }
    }

    /// Check if the data frame is QoS.
    pub fn is_qos(&self) -> (r: bool)
        ensures
            r == self.spec_is_qos(),
    {
        match self {
            DataFrameSubtype::QoSData
            | DataFrameSubtype::QoSDataCFAck
            | DataFrameSubtype::QoSDataCFPoll
            | DataFrameSubtype::QoSDataCFAckCFPoll
            | DataFrameSubtype::QoSNull
            | DataFrameSubtype::QoSCFPoll
            | DataFrameSubtype::QoSCFAckCFPoll => true,
            DataFrameSubtype::Data
            | DataFrameSubtype::DataCFAck
            | DataFrameSubtype::DataCFPoll
            | DataFrameSubtype::DataCFAckCFPoll
            | DataFrameSubtype::Null
            | DataFrameSubtype::CFAck
            | DataFrameSubtype::CFPoll
            | DataFrameSubtype::CFAckCFPoll => false,
        }
    }

    /// Check if the data frame has a payload.
    pub fn has_payload(&self) -> (r: bool)
        ensures
            r == self.spec_has_payload(),
    {
        match self {
            DataFrameSubtype::Data
            | DataFrameSubtype::DataCFAck
            | DataFrameSubtype::DataCFPoll
            | DataFrameSubtype::DataCFAckCFPoll
            | DataFrameSubtype::QoSData
            | DataFrameSubtype::QoSDataCFAck
            | DataFrameSubtype::QoSDataCFPoll
            | DataFrameSubtype::QoSDataCFAckCFPoll => true,
            DataFrameSubtype::Null
            | DataFrameSubtype::CFAck
            | DataFrameSubtype::CFPoll
            | DataFrameSubtype::CFAckCFPoll
            | DataFrameSubtype::QoSNull
            | DataFrameSubtype::QoSCFPoll
            | DataFrameSubtype::QoSCFAckCFPoll => false,
        }
    }
}

impl Default for DataFrameSubtype {
    fn default() -> (r: Self)
        ensures
            r == DataFrameSubtype::Data,
    {
        DataFrameSubtype::Data
    }
}

/// The subtype of a management frame, by its standard assignment.
#[derive(Clone, Copy, Debug, PartialEq, Eq, Hash)]
pub enum ManagementFrameSubtype {
    AssociationRequest,
    AssociationResponse,
    ReassociationRequest,
    ReassociationResponse,
    ProbeRequest,
    ProbeResponse,
    TimingAdvertisement,
    Beacon,
    ATIM,
    Disassociation,
    Authentication,
    Deauthentication,
    Action,
    ActionNoAck,
}

impl ManagementFrameSubtype {
    /// The 4-bit code that the variant stands for on the wire.
    pub open spec fn code(self) -> u8 {
        match self {
            ManagementFrameSubtype::AssociationRequest => 0b0000,
            ManagementFrameSubtype::AssociationResponse => 0b0001,
            ManagementFrameSubtype::ReassociationRequest => 0b0010,
            ManagementFrameSubtype::ReassociationResponse => 0b0011,
            ManagementFrameSubtype::ProbeRequest => 0b0100,
            ManagementFrameSubtype::ProbeResponse => 0b0101,
            ManagementFrameSubtype::TimingAdvertisement => 0b0110,
            ManagementFrameSubtype::Beacon => 0b1000,
            ManagementFrameSubtype::ATIM => 0b1001,
            ManagementFrameSubtype::Disassociation => 0b1010,
            ManagementFrameSubtype::Authentication => 0b1011,
            ManagementFrameSubtype::Deauthentication => 0b1100,
            ManagementFrameSubtype::Action => 0b1101,
            ManagementFrameSubtype::ActionNoAck => 0b1110,
        }
    }

    /// Whether a code is assigned to a management subtype: every 4-bit code
    /// but the reserved `0b0111` and `0b1111`.
    pub open spec fn is_assigned(code: u8) -> bool {
        code < 16 && code != 0b0111 && code != 0b1111
    }

    /// Look up the variant that a 4-bit code stands for.
    pub fn from_bits(code: u8) -> (r: Result<Self, CodecError>)
        ensures
            Self::is_assigned(code) <==> r is Ok,
            r matches Ok(s) ==> s.code() == code,
            !Self::is_assigned(code) ==> r == Err::<Self, CodecError>(
                CodecError::UnknownSubtype { code },
            ),
    {
        match code {
            0b0000 => Ok(ManagementFrameSubtype::AssociationRequest),
            0b0001 => Ok(ManagementFrameSubtype::AssociationResponse),
            0b0010 => Ok(ManagementFrameSubtype::ReassociationRequest),
            0b0011 => Ok(ManagementFrameSubtype::ReassociationResponse),
            0b0100 => Ok(ManagementFrameSubtype::ProbeRequest),
            0b0101 => Ok(ManagementFrameSubtype::ProbeResponse),
            0b0110 => Ok(ManagementFrameSubtype::TimingAdvertisement),
            0b1000 => Ok(ManagementFrameSubtype::Beacon),
            0b1001 => Ok(ManagementFrameSubtype::ATIM),
            0b1010 => Ok(ManagementFrameSubtype::Disassociation),
            0b1011 => Ok(ManagementFrameSubtype::Authentication),
            0b1100 => Ok(ManagementFrameSubtype::Deauthentication),
            0b1101 => Ok(ManagementFrameSubtype::Action),
            0b1110 => Ok(ManagementFrameSubtype::ActionNoAck),
            _ => Err(CodecError::UnknownSubtype { code }),
        }
    }

    /// The 4-bit code of the variant.
    pub fn into_bits(self) -> (r: u8)
        ensures
            r == self.code(),
    {
        match self {
            ManagementFrameSubtype::AssociationRequest => 0b0000,
            ManagementFrameSubtype::AssociationResponse => 0b0001,
            ManagementFrameSubtype::ReassociationRequest => 0b0010,
            ManagementFrameSubtype::ReassociationResponse => 0b0011,
            ManagementFrameSubtype::ProbeRequest => 0b0100,
            ManagementFrameSubtype::ProbeResponse => 0b0101,
            ManagementFrameSubtype::TimingAdvertisement => 0b0110,
            ManagementFrameSubtype::Beacon => 0b1000,
            ManagementFrameSubtype::ATIM => 0b1001,
            ManagementFrameSubtype::Disassociation => 0b1010,
            ManagementFrameSubtype::Authentication => 0b1011,
            ManagementFrameSubtype::Deauthentication => 0b1100,
            ManagementFrameSubtype::Action => 0b1101,
            ManagementFrameSubtype::ActionNoAck => 0b1110,
        }
    }
}

/// Every assigned data code decodes to a variant that encodes back to the same
/// code, and every variant encodes to an assigned code that decodes back to it:
/// the code table is a bijection.
pub proof fn lemma_data_subtype_bijection(s: DataFrameSubtype, t: DataFrameSubtype)
    ensures
        DataFrameSubtype::is_assigned(s.code()),
        s.code() == t.code() ==> s == t,
{
}

/// The management code table is a bijection between the variants and the
/// assigned codes.
pub proof fn lemma_management_subtype_bijection(
    s: ManagementFrameSubtype,
    t: ManagementFrameSubtype,
)
    ensures
        ManagementFrameSubtype::is_assigned(s.code()),
        s.code() == t.code() ==> s == t,
{
}

/// Each data variant is classified by the QoS predicate and by the payload
/// predicate exactly as the subtype table lists it: the seven QoS variants,
/// and the eight variants that carry data.
pub proof fn lemma_data_subtype_predicates(s: DataFrameSubtype)
    ensures
        s.spec_is_qos() <==> matches!(s, DataFrameSubtype::QoSData
            | DataFrameSubtype::QoSDataCFAck
            | DataFrameSubtype::QoSDataCFPoll
            | DataFrameSubtype::QoSDataCFAckCFPoll
            | DataFrameSubtype::QoSNull
            | DataFrameSubtype::QoSCFPoll
            | DataFrameSubtype::QoSCFAckCFPoll),
        s.spec_has_payload() <==> matches!(s, DataFrameSubtype::Data
            | DataFrameSubtype::DataCFAck
            | DataFrameSubtype::DataCFPoll
            | DataFrameSubtype::DataCFAckCFPoll
            | DataFrameSubtype::QoSData
            | DataFrameSubtype::QoSDataCFAck
            | DataFrameSubtype::QoSDataCFPoll
            | DataFrameSubtype::QoSDataCFAckCFPoll),
{
}

} // verus!
