//! Structured errors returned by constructors and setters of the codec types.

use vstd::prelude::*;

verus! {

/// Everything a constructor or setter of this library can reject.
///
/// Each variant names one bound of the protocol; the functions' contracts say
/// exactly on which inputs each variant is returned.
#[derive(Copy, Clone, PartialEq, Eq, Structural, Debug)]
pub enum GtpError {
    /// A v2 IE instance value above 0xF.
    InstanceTooLarge,
    /// An NSAPI above 0xF.
    NsapiTooLarge,
    /// An EPS bearer id above 0xF.
    EbiTooLarge,
    /// A priority-level value above 0xF.
    PriorityLevelTooLarge,
    /// A bitrate above 10,000,000 kbit/s.
    BitrateTooLarge,
    /// A PDCP PDU number above 0x3FFFF.
    PdcpPduNumberTooLarge,
    /// A sequence number above 0xFFFFFF.
    SequenceNumberTooLarge,
    /// A message priority above 0xF.
    MessagePriorityTooLarge,
    /// An E-UTRAN cell identifier above 0xFFFFFFF.
    EciTooLarge,
    /// A macro eNodeB identifier above 0xFFFFF.
    MenbidTooLarge,
    /// An extended macro eNodeB identifier above 0x1FFFFF.
    EmenbidTooLarge,
    /// An IMSI that is not exactly 15 digits long.
    ImsiWrongLength,
    /// An IMSI holding a character that is not a decimal digit.
    ImsiBadDigit,
    /// An MSISDN holding a character that is not a decimal digit.
    MsisdnBadDigit,
    /// A T-PDU longer than 0xFFFF octets.
    PacketTooLarge,
    /// An IPv4 address is required by the chosen PDN type but missing.
    Ipv4AddressMissing,
    /// An IPv6 address is required by the chosen PDN type but missing.
    Ipv6AddressMissing,
    /// An address was supplied although the PDN type carries none.
    AddressNotAllowed,
    /// An APN that is empty, holds an empty label, a non-ASCII octet, or a
    /// label longer than 63 octets.
    ApnMalformed,
}

impl GtpError {
    /// A fixed description of the error, phrased as the rejecting check reads.
    pub fn describe(&self) -> (r: &'static str)
        ensures
            self is ImsiWrongLength ==> r@ == "IMSI is not the correct number of digits"@,
            self is ImsiBadDigit ==> r@ == "Could not parse IMSI"@,
            self is MsisdnBadDigit ==> r@ == "Could not parse MSISDN"@,
    {
        match self {
            GtpError::InstanceTooLarge => "Instance is > 0xF",
            GtpError::NsapiTooLarge => "NSAPI is out of range",
            GtpError::EbiTooLarge => "EPS Bearer ID is > 0xF",
            GtpError::PriorityLevelTooLarge => "PL is > 0xF",
            GtpError::BitrateTooLarge => "Bitrate is > 10,000,000",
            GtpError::PdcpPduNumberTooLarge => "PDCP Number can not be > 0x3FFFF",
            GtpError::SequenceNumberTooLarge => "Sequence number too large.",
            GtpError::MessagePriorityTooLarge => "Message Priority too large.",
            GtpError::EciTooLarge => "ECI must be <= 0xFFFFFFF",
            GtpError::MenbidTooLarge => "Macro eNodeB ID must be <= 0xFFFFF",
            GtpError::EmenbidTooLarge => "Extended Macro eNodeB ID must be <= 0x1FFFFF",
            GtpError::ImsiWrongLength => "IMSI is not the correct number of digits",
            GtpError::ImsiBadDigit => "Could not parse IMSI",
            GtpError::MsisdnBadDigit => "Could not parse MSISDN",
            GtpError::PacketTooLarge => "Packet too large.",
            GtpError::Ipv4AddressMissing => "ipv4_address must be defined for this PDN type.",
            GtpError::Ipv6AddressMissing => "ipv6_address must be defined for this PDN type.",
            GtpError::AddressNotAllowed => "no address may be defined for this PDN type.",
            GtpError::ApnMalformed => "APN is malformed",
        }
    }
}

} // verus!
