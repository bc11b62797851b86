//! Cause information element: the cause code, a flag octet naming the
//! erring side and whether a bearer-context or PDN-connection IE was at
//! fault, and optionally the type, zero length and instance of the offending
//! element.

use vstd::prelude::*;

use crate::bytes::val16;
use crate::errors::GtpError;

use super::{
    InformationElementTraits,
    InformationElementType,
    ie_header,
    write_ie_header,
    read_ie_header,
};

verus! {

/// Which side of the exchange the cause originates from.
#[derive(Copy, Clone, PartialEq, Eq, Structural, Debug)]
pub enum CauseSource {
    LocalNode,
    RemoteNode,
}

impl CauseSource {
    /// The wire value this variant stands for.
    pub open spec fn spec_value(self) -> u8 {
        match self {
            CauseSource::LocalNode => 0,
            CauseSource::RemoteNode => 1,
        }
    }

    /// The variant a wire value stands for, if any.
    pub open spec fn spec_from_u8(v: u8) -> Option<CauseSource> {
        if v == 0 {
            Some(CauseSource::LocalNode)
        } else if v == 1 {
            Some(CauseSource::RemoteNode)
        } else {
            None
        }
    }

    pub fn value(&self) -> (r: u8)
        ensures
            r == self.spec_value(),
    {
        match self {
            CauseSource::LocalNode => 0,
            CauseSource::RemoteNode => 1,
        }
    }

    pub fn try_from_u8(v: u8) -> (r: Option<CauseSource>)
        ensures
            r == Self::spec_from_u8(v),
    {
        if v == 0 {
            Some(CauseSource::LocalNode)
        } else if v == 1 {
            Some(CauseSource::RemoteNode)
        } else {
            None
        }
    }
}
/// The cause codes this library knows.
#[derive(Copy, Clone, PartialEq, Eq, Structural, Debug)]
pub enum CauseCode {
    Reserved,
    LocalDetach,
    CompleteDetach,
    RATChangedfrom3GPPtoNon3GPP,
    ISRDeactivation,
    ErrorIndicationReceivedfromRNCeNodeBS4SGSNMME,
    IMSIDetachOnly,
    ReactivationRequest,
    PDNReconnectiontothisAPNDisallowed,
    AccessChangedfroNon3GPPto3GPP,
    PDNConnectionInactivityTimerExpires,
    PGWNotResponding,
    NetworkFailure,
    QoSParameterMismatch,
    EPSto5GSMobility,
    RequestAccepted,
    RequestAcceptedPartially,
    NewPDNTypeDuetoNetworkPerformance,
    NewPDNTypeDuetoSingleAddressBearerOnly,
    ContextNotFound,
    InvalidMessageFormat,
    VersionNotSupportedByNextPeer,
    InvalidLength,
    ServiceNotSupported,
    MandatoryIEIncorrect,
    MandatoryIEMissing,
    SystemFailure,
    NoResourcesAvailable,
    SemanticErrorintheTFTOperation,
    SyntacticErrorintheTFTOperation,
    SemanticErrorsinthePacketFilters,
    SyntacticErrorsinthePacketFilters,
    MissingOrUnknownAPN,
    GREKeyNotFound,
    RelocationFailure,
    DeniedinRAT,
    PreferredPDNTypeNotSupported,
    AllDynamicAddressesAreOccupied,
    UEContextWithoutTFTAlreadyActivated,
    ProtocolTypeNotSupported,
    UENotResponding,
    UERefuses,
    ServiceDenied,
    UnableToPageUE,
    NoMemoryAvailable,
    UserAuthenticationFailed,
    APNAccessDeniedNoSubscription,
    RequestRejectedReasonNotSpecified,
    PTMSISignatureMismatch,
    IMSIorIMEINotKnown,
    SemanticErrorintheTADOperation,
    SyntacticErrorintheTADOperation,
    RemotePeerNotResponding,
    CollisionWithNetworkInitiatedRequest,
    UnableToPageUEDueToSuspension,
    ConditionalIEMissing,
    APNRestrictiontypeIncompatibleWithCurrentlyActivePDNConnection,
    InvalidOverallLengthOfTheTriggeredResponseMessageAndAPiggybackedInitialMessage,
    DataForwardingNotSupported,
    InvalidReplyFromRemotePeer,
    FallbackToGTPv1,
    InvalidPeer,
    TemporarilyRejectedDueToHandoverOrTAUorRAUProcedureInProgress,
    ModificationsNotLimitedToS1UBearers,
    RequestRejectedForAPMIPv6Reason,
    APNCongestion,
    BearerHandlingNotSupported,
    UEAlreadyReAttached,
    MultiplePDNConnectionsForAGivenAPNNotAllowed,
    TargetAccessRestrictedForTheSubscriber,
    MMESGSNRefusesDueToVPLMNPolicy,
    CTPCEntityCongestion,
    LateOverlappingRequest,
    TimedOutRequest,
    UEIsTemporarilyNotReachableDueToPowerSaving,
    RelocationFailureDueToNASMessageRedirection,
    UENotAuthorisedByOCSOrExternalAAAServer,
    MultipleAccessesToAPDNConnectionNotAllowed,
    RequestRejectedDueToUECapability,
    S1UPathFailure,
    FiveGCNotAllowed,
}

impl CauseCode {
    /// The wire value this variant stands for.
    pub open spec fn spec_value(self) -> u8 {
        match self {
            CauseCode::Reserved => 1,
            CauseCode::LocalDetach => 2,
            CauseCode::CompleteDetach => 3,
            CauseCode::RATChangedfrom3GPPtoNon3GPP => 4,
            CauseCode::ISRDeactivation => 5,
            CauseCode::ErrorIndicationReceivedfromRNCeNodeBS4SGSNMME => 6,
            CauseCode::IMSIDetachOnly => 7,
            CauseCode::ReactivationRequest => 8,
            CauseCode::PDNReconnectiontothisAPNDisallowed => 9,
            CauseCode::AccessChangedfroNon3GPPto3GPP => 10,
            CauseCode::PDNConnectionInactivityTimerExpires => 11,
            CauseCode::PGWNotResponding => 12,
            CauseCode::NetworkFailure => 13,
            CauseCode::QoSParameterMismatch => 14,
            CauseCode::EPSto5GSMobility => 15,
            CauseCode::RequestAccepted => 16,
            CauseCode::RequestAcceptedPartially => 17,
            CauseCode::NewPDNTypeDuetoNetworkPerformance => 18,
            CauseCode::NewPDNTypeDuetoSingleAddressBearerOnly => 19,
            CauseCode::ContextNotFound => 64,
            CauseCode::InvalidMessageFormat => 65,
            CauseCode::VersionNotSupportedByNextPeer => 66,
            CauseCode::InvalidLength => 67,
            CauseCode::ServiceNotSupported => 68,
            CauseCode::MandatoryIEIncorrect => 69,
            CauseCode::MandatoryIEMissing => 70,
            CauseCode::SystemFailure => 72,
            CauseCode::NoResourcesAvailable => 73,
            CauseCode::SemanticErrorintheTFTOperation => 74,
            CauseCode::SyntacticErrorintheTFTOperation => 75,
            CauseCode::SemanticErrorsinthePacketFilters => 76,
            CauseCode::SyntacticErrorsinthePacketFilters => 77,
            CauseCode::MissingOrUnknownAPN => 78,
            CauseCode::GREKeyNotFound => 80,
            CauseCode::RelocationFailure => 81,
            CauseCode::DeniedinRAT => 82,
            CauseCode::PreferredPDNTypeNotSupported => 83,
            CauseCode::AllDynamicAddressesAreOccupied => 84,
            CauseCode::UEContextWithoutTFTAlreadyActivated => 85,
            CauseCode::ProtocolTypeNotSupported => 86,
            CauseCode::UENotResponding => 87,
            CauseCode::UERefuses => 88,
            CauseCode::ServiceDenied => 89,
            CauseCode::UnableToPageUE => 90,
            CauseCode::NoMemoryAvailable => 91,
            CauseCode::UserAuthenticationFailed => 92,
            CauseCode::APNAccessDeniedNoSubscription => 93,
            CauseCode::RequestRejectedReasonNotSpecified => 94,
            CauseCode::PTMSISignatureMismatch => 95,
            CauseCode::IMSIorIMEINotKnown => 96,
            CauseCode::SemanticErrorintheTADOperation => 97,
            CauseCode::SyntacticErrorintheTADOperation => 98,
            CauseCode::RemotePeerNotResponding => 100,
            CauseCode::CollisionWithNetworkInitiatedRequest => 101,
            CauseCode::UnableToPageUEDueToSuspension => 102,
            CauseCode::ConditionalIEMissing => 103,
            CauseCode::APNRestrictiontypeIncompatibleWithCurrentlyActivePDNConnection => 104,
            CauseCode::InvalidOverallLengthOfTheTriggeredResponseMessageAndAPiggybackedInitialMessage => 105,
            CauseCode::DataForwardingNotSupported => 106,
            CauseCode::InvalidReplyFromRemotePeer => 107,
            CauseCode::FallbackToGTPv1 => 108,
            CauseCode::InvalidPeer => 109,
            CauseCode::TemporarilyRejectedDueToHandoverOrTAUorRAUProcedureInProgress => 110,
            CauseCode::ModificationsNotLimitedToS1UBearers => 111,
            CauseCode::RequestRejectedForAPMIPv6Reason => 112,
            CauseCode::APNCongestion => 113,
            CauseCode::BearerHandlingNotSupported => 114,
            CauseCode::UEAlreadyReAttached => 115,
            CauseCode::MultiplePDNConnectionsForAGivenAPNNotAllowed => 116,
            CauseCode::TargetAccessRestrictedForTheSubscriber => 117,
            CauseCode::MMESGSNRefusesDueToVPLMNPolicy => 119,
            CauseCode::CTPCEntityCongestion => 120,
            CauseCode::LateOverlappingRequest => 121,
            CauseCode::TimedOutRequest => 122,
            CauseCode::UEIsTemporarilyNotReachableDueToPowerSaving => 123,
            CauseCode::RelocationFailureDueToNASMessageRedirection => 124,
            CauseCode::UENotAuthorisedByOCSOrExternalAAAServer => 125,
            CauseCode::MultipleAccessesToAPDNConnectionNotAllowed => 126,
            CauseCode::RequestRejectedDueToUECapability => 127,
            CauseCode::S1UPathFailure => 128,
            CauseCode::FiveGCNotAllowed => 129,
        }
    }

    /// The variant a wire value stands for, if any.
    pub open spec fn spec_from_u8(v: u8) -> Option<CauseCode> {
        if v == 1 {
            Some(CauseCode::Reserved)
        } else if v == 2 {
            Some(CauseCode::LocalDetach)
        } else if v == 3 {
            Some(CauseCode::CompleteDetach)
        } else if v == 4 {
            Some(CauseCode::RATChangedfrom3GPPtoNon3GPP)
        } else if v == 5 {
            Some(CauseCode::ISRDeactivation)
        } else if v == 6 {
            Some(CauseCode::ErrorIndicationReceivedfromRNCeNodeBS4SGSNMME)
        } else if v == 7 {
            Some(CauseCode::IMSIDetachOnly)
        } else if v == 8 {
            Some(CauseCode::ReactivationRequest)
        } else if v == 9 {
            Some(CauseCode::PDNReconnectiontothisAPNDisallowed)
        } else if v == 10 {
            Some(CauseCode::AccessChangedfroNon3GPPto3GPP)
        } else if v == 11 {
            Some(CauseCode::PDNConnectionInactivityTimerExpires)
        } else if v == 12 {
            Some(CauseCode::PGWNotResponding)
        } else if v == 13 {
            Some(CauseCode::NetworkFailure)
        } else if v == 14 {
            Some(CauseCode::QoSParameterMismatch)
        } else if v == 15 {
            Some(CauseCode::EPSto5GSMobility)
        } else if v == 16 {
            Some(CauseCode::RequestAccepted)
        } else if v == 17 {
            Some(CauseCode::RequestAcceptedPartially)
        } else if v == 18 {
            Some(CauseCode::NewPDNTypeDuetoNetworkPerformance)
        } else if v == 19 {
            Some(CauseCode::NewPDNTypeDuetoSingleAddressBearerOnly)
        } else if v == 64 {
            Some(CauseCode::ContextNotFound)
        } else if v == 65 {
            Some(CauseCode::InvalidMessageFormat)
        } else if v == 66 {
            Some(CauseCode::VersionNotSupportedByNextPeer)
        } else if v == 67 {
            Some(CauseCode::InvalidLength)
        } else if v == 68 {
            Some(CauseCode::ServiceNotSupported)
        } else if v == 69 {
            Some(CauseCode::MandatoryIEIncorrect)
        } else if v == 70 {
            Some(CauseCode::MandatoryIEMissing)
        } else if v == 72 {
            Some(CauseCode::SystemFailure)
        } else if v == 73 {
            Some(CauseCode::NoResourcesAvailable)
        } else if v == 74 {
            Some(CauseCode::SemanticErrorintheTFTOperation)
        } else if v == 75 {
            Some(CauseCode::SyntacticErrorintheTFTOperation)
        } else if v == 76 {
            Some(CauseCode::SemanticErrorsinthePacketFilters)
        } else if v == 77 {
            Some(CauseCode::SyntacticErrorsinthePacketFilters)
        } else if v == 78 {
            Some(CauseCode::MissingOrUnknownAPN)
        } else if v == 80 {
            Some(CauseCode::GREKeyNotFound)
        } else if v == 81 {
            Some(CauseCode::RelocationFailure)
        } else if v == 82 {
            Some(CauseCode::DeniedinRAT)
        } else if v == 83 {
            Some(CauseCode::PreferredPDNTypeNotSupported)
        } else if v == 84 {
            Some(CauseCode::AllDynamicAddressesAreOccupied)
        } else if v == 85 {
            Some(CauseCode::UEContextWithoutTFTAlreadyActivated)
        } else if v == 86 {
            Some(CauseCode::ProtocolTypeNotSupported)
        } else if v == 87 {
            Some(CauseCode::UENotResponding)
        } else if v == 88 {
            Some(CauseCode::UERefuses)
        } else if v == 89 {
            Some(CauseCode::ServiceDenied)
        } else if v == 90 {
            Some(CauseCode::UnableToPageUE)
        } else if v == 91 {
            Some(CauseCode::NoMemoryAvailable)
        } else if v == 92 {
            Some(CauseCode::UserAuthenticationFailed)
        } else if v == 93 {
            Some(CauseCode::APNAccessDeniedNoSubscription)
        } else if v == 94 {
            Some(CauseCode::RequestRejectedReasonNotSpecified)
        } else if v == 95 {
            Some(CauseCode::PTMSISignatureMismatch)
        } else if v == 96 {
            Some(CauseCode::IMSIorIMEINotKnown)
        } else if v == 97 {
            Some(CauseCode::SemanticErrorintheTADOperation)
        } else if v == 98 {
            Some(CauseCode::SyntacticErrorintheTADOperation)
        } else if v == 100 {
            Some(CauseCode::RemotePeerNotResponding)
        } else if v == 101 {
            Some(CauseCode::CollisionWithNetworkInitiatedRequest)
        } else if v == 102 {
            Some(CauseCode::UnableToPageUEDueToSuspension)
        } else if v == 103 {
            Some(CauseCode::ConditionalIEMissing)
        } else if v == 104 {
            Some(CauseCode::APNRestrictiontypeIncompatibleWithCurrentlyActivePDNConnection)
        } else if v == 105 {
            Some(CauseCode::InvalidOverallLengthOfTheTriggeredResponseMessageAndAPiggybackedInitialMessage)
        } else if v == 106 {
            Some(CauseCode::DataForwardingNotSupported)
        } else if v == 107 {
            Some(CauseCode::InvalidReplyFromRemotePeer)
        } else if v == 108 {
            Some(CauseCode::FallbackToGTPv1)
        } else if v == 109 {
            Some(CauseCode::InvalidPeer)
        } else if v == 110 {
            Some(CauseCode::TemporarilyRejectedDueToHandoverOrTAUorRAUProcedureInProgress)
        } else if v == 111 {
            Some(CauseCode::ModificationsNotLimitedToS1UBearers)
        } else if v == 112 {
            Some(CauseCode::RequestRejectedForAPMIPv6Reason)
        } else if v == 113 {
            Some(CauseCode::APNCongestion)
        } else if v == 114 {
            Some(CauseCode::BearerHandlingNotSupported)
        } else if v == 115 {
            Some(CauseCode::UEAlreadyReAttached)
        } else if v == 116 {
            Some(CauseCode::MultiplePDNConnectionsForAGivenAPNNotAllowed)
        } else if v == 117 {
            Some(CauseCode::TargetAccessRestrictedForTheSubscriber)
        } else if v == 119 {
            Some(CauseCode::MMESGSNRefusesDueToVPLMNPolicy)
        } else if v == 120 {
            Some(CauseCode::CTPCEntityCongestion)
        } else if v == 121 {
            Some(CauseCode::LateOverlappingRequest)
        } else if v == 122 {
            Some(CauseCode::TimedOutRequest)
        } else if v == 123 {
            Some(CauseCode::UEIsTemporarilyNotReachableDueToPowerSaving)
        } else if v == 124 {
            Some(CauseCode::RelocationFailureDueToNASMessageRedirection)
        } else if v == 125 {
            Some(CauseCode::UENotAuthorisedByOCSOrExternalAAAServer)
        } else if v == 126 {
            Some(CauseCode::MultipleAccessesToAPDNConnectionNotAllowed)
        } else if v == 127 {
            Some(CauseCode::RequestRejectedDueToUECapability)
        } else if v == 128 {
            Some(CauseCode::S1UPathFailure)
        } else if v == 129 {
            Some(CauseCode::FiveGCNotAllowed)
        } else {
            None
        }
    }

    pub fn value(&self) -> (r: u8)
        ensures
            r == self.spec_value(),
    {
        match self {
            CauseCode::Reserved => 1,
            CauseCode::LocalDetach => 2,
            CauseCode::CompleteDetach => 3,
            CauseCode::RATChangedfrom3GPPtoNon3GPP => 4,
            CauseCode::ISRDeactivation => 5,
            CauseCode::ErrorIndicationReceivedfromRNCeNodeBS4SGSNMME => 6,
            CauseCode::IMSIDetachOnly => 7,
            CauseCode::ReactivationRequest => 8,
            CauseCode::PDNReconnectiontothisAPNDisallowed => 9,
            CauseCode::AccessChangedfroNon3GPPto3GPP => 10,
            CauseCode::PDNConnectionInactivityTimerExpires => 11,
            CauseCode::PGWNotResponding => 12,
            CauseCode::NetworkFailure => 13,
            CauseCode::QoSParameterMismatch => 14,
            CauseCode::EPSto5GSMobility => 15,
            CauseCode::RequestAccepted => 16,
            CauseCode::RequestAcceptedPartially => 17,
            CauseCode::NewPDNTypeDuetoNetworkPerformance => 18,
            CauseCode::NewPDNTypeDuetoSingleAddressBearerOnly => 19,
            CauseCode::ContextNotFound => 64,
            CauseCode::InvalidMessageFormat => 65,
            CauseCode::VersionNotSupportedByNextPeer => 66,
            CauseCode::InvalidLength => 67,
            CauseCode::ServiceNotSupported => 68,
            CauseCode::MandatoryIEIncorrect => 69,
            CauseCode::MandatoryIEMissing => 70,
            CauseCode::SystemFailure => 72,
            CauseCode::NoResourcesAvailable => 73,
            CauseCode::SemanticErrorintheTFTOperation => 74,
            CauseCode::SyntacticErrorintheTFTOperation => 75,
            CauseCode::SemanticErrorsinthePacketFilters => 76,
            CauseCode::SyntacticErrorsinthePacketFilters => 77,
            CauseCode::MissingOrUnknownAPN => 78,
            CauseCode::GREKeyNotFound => 80,
            CauseCode::RelocationFailure => 81,
            CauseCode::DeniedinRAT => 82,
            CauseCode::PreferredPDNTypeNotSupported => 83,
            CauseCode::AllDynamicAddressesAreOccupied => 84,
            CauseCode::UEContextWithoutTFTAlreadyActivated => 85,
            CauseCode::ProtocolTypeNotSupported => 86,
            CauseCode::UENotResponding => 87,
            CauseCode::UERefuses => 88,
            CauseCode::ServiceDenied => 89,
            CauseCode::UnableToPageUE => 90,
            CauseCode::NoMemoryAvailable => 91,
            CauseCode::UserAuthenticationFailed => 92,
            CauseCode::APNAccessDeniedNoSubscription => 93,
            CauseCode::RequestRejectedReasonNotSpecified => 94,
            CauseCode::PTMSISignatureMismatch => 95,
            CauseCode::IMSIorIMEINotKnown => 96,
            CauseCode::SemanticErrorintheTADOperation => 97,
            CauseCode::SyntacticErrorintheTADOperation => 98,
            CauseCode::RemotePeerNotResponding => 100,
            CauseCode::CollisionWithNetworkInitiatedRequest => 101,
            CauseCode::UnableToPageUEDueToSuspension => 102,
            CauseCode::ConditionalIEMissing => 103,
            CauseCode::APNRestrictiontypeIncompatibleWithCurrentlyActivePDNConnection => 104,
            CauseCode::InvalidOverallLengthOfTheTriggeredResponseMessageAndAPiggybackedInitialMessage => 105,
            CauseCode::DataForwardingNotSupported => 106,
            CauseCode::InvalidReplyFromRemotePeer => 107,
            CauseCode::FallbackToGTPv1 => 108,
            CauseCode::InvalidPeer => 109,
            CauseCode::TemporarilyRejectedDueToHandoverOrTAUorRAUProcedureInProgress => 110,
            CauseCode::ModificationsNotLimitedToS1UBearers => 111,
            CauseCode::RequestRejectedForAPMIPv6Reason => 112,
            CauseCode::APNCongestion => 113,
            CauseCode::BearerHandlingNotSupported => 114,
            CauseCode::UEAlreadyReAttached => 115,
            CauseCode::MultiplePDNConnectionsForAGivenAPNNotAllowed => 116,
            CauseCode::TargetAccessRestrictedForTheSubscriber => 117,
            CauseCode::MMESGSNRefusesDueToVPLMNPolicy => 119,
            CauseCode::CTPCEntityCongestion => 120,
            CauseCode::LateOverlappingRequest => 121,
            CauseCode::TimedOutRequest => 122,
            CauseCode::UEIsTemporarilyNotReachableDueToPowerSaving => 123,
            CauseCode::RelocationFailureDueToNASMessageRedirection => 124,
            CauseCode::UENotAuthorisedByOCSOrExternalAAAServer => 125,
            CauseCode::MultipleAccessesToAPDNConnectionNotAllowed => 126,
            CauseCode::RequestRejectedDueToUECapability => 127,
            CauseCode::S1UPathFailure => 128,
            CauseCode::FiveGCNotAllowed => 129,
        }
    }

    pub fn try_from_u8(v: u8) -> (r: Option<CauseCode>)
        ensures
            r == Self::spec_from_u8(v),
    {
        if v == 1 {
            Some(CauseCode::Reserved)
        } else if v == 2 {
            Some(CauseCode::LocalDetach)
        } else if v == 3 {
            Some(CauseCode::CompleteDetach)
        } else if v == 4 {
            Some(CauseCode::RATChangedfrom3GPPtoNon3GPP)
        } else if v == 5 {
            Some(CauseCode::ISRDeactivation)
        } else if v == 6 {
            Some(CauseCode::ErrorIndicationReceivedfromRNCeNodeBS4SGSNMME)
        } else if v == 7 {
            Some(CauseCode::IMSIDetachOnly)
        } else if v == 8 {
            Some(CauseCode::ReactivationRequest)
        } else if v == 9 {
            Some(CauseCode::PDNReconnectiontothisAPNDisallowed)
        } else if v == 10 {
            Some(CauseCode::AccessChangedfroNon3GPPto3GPP)
        } else if v == 11 {
            Some(CauseCode::PDNConnectionInactivityTimerExpires)
        } else if v == 12 {
            Some(CauseCode::PGWNotResponding)
        } else if v == 13 {
            Some(CauseCode::NetworkFailure)
        } else if v == 14 {
            Some(CauseCode::QoSParameterMismatch)
        } else if v == 15 {
            Some(CauseCode::EPSto5GSMobility)
        } else if v == 16 {
            Some(CauseCode::RequestAccepted)
        } else if v == 17 {
            Some(CauseCode::RequestAcceptedPartially)
        } else if v == 18 {
            Some(CauseCode::NewPDNTypeDuetoNetworkPerformance)
        } else if v == 19 {
            Some(CauseCode::NewPDNTypeDuetoSingleAddressBearerOnly)
        } else if v == 64 {
            Some(CauseCode::ContextNotFound)
        } else if v == 65 {
            Some(CauseCode::InvalidMessageFormat)
        } else if v == 66 {
            Some(CauseCode::VersionNotSupportedByNextPeer)
        } else if v == 67 {
            Some(CauseCode::InvalidLength)
        } else if v == 68 {
            Some(CauseCode::ServiceNotSupported)
        } else if v == 69 {
            Some(CauseCode::MandatoryIEIncorrect)
        } else if v == 70 {
            Some(CauseCode::MandatoryIEMissing)
        } else if v == 72 {
            Some(CauseCode::SystemFailure)
        } else if v == 73 {
            Some(CauseCode::NoResourcesAvailable)
        } else if v == 74 {
            Some(CauseCode::SemanticErrorintheTFTOperation)
        } else if v == 75 {
            Some(CauseCode::SyntacticErrorintheTFTOperation)
        } else if v == 76 {
            Some(CauseCode::SemanticErrorsinthePacketFilters)
        } else if v == 77 {
            Some(CauseCode::SyntacticErrorsinthePacketFilters)
        } else if v == 78 {
            Some(CauseCode::MissingOrUnknownAPN)
        } else if v == 80 {
            Some(CauseCode::GREKeyNotFound)
        } else if v == 81 {
            Some(CauseCode::RelocationFailure)
        } else if v == 82 {
            Some(CauseCode::DeniedinRAT)
        } else if v == 83 {
            Some(CauseCode::PreferredPDNTypeNotSupported)
        } else if v == 84 {
            Some(CauseCode::AllDynamicAddressesAreOccupied)
        } else if v == 85 {
            Some(CauseCode::UEContextWithoutTFTAlreadyActivated)
        } else if v == 86 {
            Some(CauseCode::ProtocolTypeNotSupported)
        } else if v == 87 {
            Some(CauseCode::UENotResponding)
        } else if v == 88 {
            Some(CauseCode::UERefuses)
        } else if v == 89 {
            Some(CauseCode::ServiceDenied)
        } else if v == 90 {
            Some(CauseCode::UnableToPageUE)
        } else if v == 91 {
            Some(CauseCode::NoMemoryAvailable)
        } else if v == 92 {
            Some(CauseCode::UserAuthenticationFailed)
        } else if v == 93 {
            Some(CauseCode::APNAccessDeniedNoSubscription)
        } else if v == 94 {
            Some(CauseCode::RequestRejectedReasonNotSpecified)
        } else if v == 95 {
            Some(CauseCode::PTMSISignatureMismatch)
        } else if v == 96 {
            Some(CauseCode::IMSIorIMEINotKnown)
        } else if v == 97 {
            Some(CauseCode::SemanticErrorintheTADOperation)
        } else if v == 98 {
            Some(CauseCode::SyntacticErrorintheTADOperation)
        } else if v == 100 {
            Some(CauseCode::RemotePeerNotResponding)
        } else if v == 101 {
            Some(CauseCode::CollisionWithNetworkInitiatedRequest)
        } else if v == 102 {
            Some(CauseCode::UnableToPageUEDueToSuspension)
        } else if v == 103 {
            Some(CauseCode::ConditionalIEMissing)
        } else if v == 104 {
            Some(CauseCode::APNRestrictiontypeIncompatibleWithCurrentlyActivePDNConnection)
        } else if v == 105 {
            Some(CauseCode::InvalidOverallLengthOfTheTriggeredResponseMessageAndAPiggybackedInitialMessage)
        } else if v == 106 {
            Some(CauseCode::DataForwardingNotSupported)
        } else if v == 107 {
            Some(CauseCode::InvalidReplyFromRemotePeer)
        } else if v == 108 {
            Some(CauseCode::FallbackToGTPv1)
        } else if v == 109 {
            Some(CauseCode::InvalidPeer)
        } else if v == 110 {
            Some(CauseCode::TemporarilyRejectedDueToHandoverOrTAUorRAUProcedureInProgress)
        } else if v == 111 {
            Some(CauseCode::ModificationsNotLimitedToS1UBearers)
        } else if v == 112 {
            Some(CauseCode::RequestRejectedForAPMIPv6Reason)
        } else if v == 113 {
            Some(CauseCode::APNCongestion)
        } else if v == 114 {
            Some(CauseCode::BearerHandlingNotSupported)
        } else if v == 115 {
            Some(CauseCode::UEAlreadyReAttached)
        } else if v == 116 {
            Some(CauseCode::MultiplePDNConnectionsForAGivenAPNNotAllowed)
        } else if v == 117 {
            Some(CauseCode::TargetAccessRestrictedForTheSubscriber)
        } else if v == 119 {
            Some(CauseCode::MMESGSNRefusesDueToVPLMNPolicy)
        } else if v == 120 {
            Some(CauseCode::CTPCEntityCongestion)
        } else if v == 121 {
            Some(CauseCode::LateOverlappingRequest)
        } else if v == 122 {
            Some(CauseCode::TimedOutRequest)
        } else if v == 123 {
            Some(CauseCode::UEIsTemporarilyNotReachableDueToPowerSaving)
        } else if v == 124 {
            Some(CauseCode::RelocationFailureDueToNASMessageRedirection)
        } else if v == 125 {
            Some(CauseCode::UENotAuthorisedByOCSOrExternalAAAServer)
        } else if v == 126 {
            Some(CauseCode::MultipleAccessesToAPDNConnectionNotAllowed)
        } else if v == 127 {
            Some(CauseCode::RequestRejectedDueToUECapability)
        } else if v == 128 {
            Some(CauseCode::S1UPathFailure)
        } else if v == 129 {
            Some(CauseCode::FiveGCNotAllowed)
        } else {
            None
        }
    }
}
/// The inputs `parse` accepts: the element header is satisfied, the body is
/// two or six octets, the cause code is in the catalog, and so is the
/// offending element's type when one is reported.
pub open spec fn parse_ok(b: Seq<u8>) -> bool {
    &&& b.len() >= 4
    &&& b[0] == 2
    &&& 4 + val16(b, 1) <= b.len()
    &&& (val16(b, 1) == 2 || val16(b, 1) == 6)
    &&& CauseCode::spec_from_u8(b[4]) is Some
    &&& (val16(b, 1) == 6 ==> InformationElementType::spec_from_u8(b[6]) is Some)
}

/// Cause information element.
pub struct InformationElement {
    /// At most 0xF.
    pub instance: u8,
    pub cause_code: CauseCode,
    pub cause_source: CauseSource,
    pub bearer_context_ie_error: bool,
    pub pdn_connection_ie_error: bool,
    /// The type and instance of the offending element, if one is reported.
    pub offending_ie: Option<(InformationElementType, u8)>,
}

impl InformationElement {
    /// The flag octet: PCE, BCE and CS, highest to lowest.
    pub closed spec fn flags_octet(&self) -> u8 {
        ((if self.pdn_connection_ie_error {
            4int
        } else {
            0int
        }) + (if self.bearer_context_ie_error {
            2int
        } else {
            0int
        }) + self.cause_source.spec_value() % 2) as u8
    }

    /// The body: two octets, or six with the offending element's type, zero
    /// length and instance appended.
    pub closed spec fn body(&self) -> Seq<u8> {
        seq![self.cause_code.spec_value(), self.flags_octet()] + (match self.offending_ie {
            Some((t, i)) => seq![t.spec_value(), 0u8, 0u8, (i % 16) as u8],
            None => Seq::empty(),
        })
    }

    pub fn new(
        cause_code: CauseCode,
        cause_source: CauseSource,
        bearer_context_ie_error: bool,
        pdn_connection_ie_error: bool,
        offending_ie: Option<(InformationElementType, u8)>,
        instance: u8,
    ) -> (r: Result<Self, GtpError>)
        ensures
            instance > 0xF ==> r == Err::<Self, GtpError>(GtpError::InstanceTooLarge),
            instance <= 0xF ==> (r matches Ok(ie) && ie == (InformationElement {
                instance,
                cause_code,
                cause_source,
                bearer_context_ie_error,
                pdn_connection_ie_error,
                offending_ie,
            })),
    {
        if instance > 0xF {
            return Err(GtpError::InstanceTooLarge);
        }
        Ok(
            InformationElement {
                instance,
                cause_code,
                cause_source,
                bearer_context_ie_error,
                pdn_connection_ie_error,
                offending_ie,
            },
        )
    }

    /// Reads one element: a declared length of two carries no offending
    /// element, six carries one; anything else is refused, as are a cause
    /// code or an offending type outside their catalogs.
    pub fn parse(buffer: &[u8]) -> (r: Option<(Self, usize)>)
        ensures
            r is Some <==> parse_ok(buffer@),
            r matches Some((ie, n)) ==> {
                &&& buffer@.len() >= 6
                &&& buffer@[0] == 2
                &&& (val16(buffer@, 1) == 2 || val16(buffer@, 1) == 6)
                &&& n == 4 + val16(buffer@, 1)
                &&& n <= buffer@.len()
                &&& ie.wf()
                &&& ie.encoding().len() <= n
                &&& ie.instance == buffer@[3] % 16
                &&& Some(ie.cause_code) == CauseCode::spec_from_u8(buffer@[4])
                &&& ie.cause_source.spec_value() == buffer@[5] % 2
                &&& ie.bearer_context_ie_error == ((buffer@[5] / 2) % 2 == 1)
                &&& ie.pdn_connection_ie_error == ((buffer@[5] / 4) % 2 == 1)
                &&& (ie.offending_ie is Some <==> val16(buffer@, 1) == 6)
            },
    {
        let (length, instance, total) = match read_ie_header(buffer, 2) {
            Some(h) => h,
            None => { return None },
        };
        if length != 2 && length != 6 {
            return None;
        }
        let cause_code = match CauseCode::try_from_u8(buffer[4]) {
            Some(c) => c,
            None => { return None },
        };
        let flags = buffer[5];
        let cause_source = if flags % 2 == 1 {
            CauseSource::RemoteNode
        } else {
            CauseSource::LocalNode
        };
        let bearer_context_ie_error = (flags / 2) % 2 == 1;
        let pdn_connection_ie_error = (flags / 4) % 2 == 1;
        let offending_ie: Option<(InformationElementType, u8)> = if length == 6 {
            match InformationElementType::try_from_u8(buffer[6]) {
                Some(t) => Some((t, buffer[9] % 16)),
                None => { return None },
            }
        } else {
            None
        };
        Some(
            (
                InformationElement {
                    instance,
                    cause_code,
                    cause_source,
                    bearer_context_ie_error,
                    pdn_connection_ie_error,
                    offending_ie,
                },
                total,
            ),
        )
    }
}

impl InformationElement {
    /// The element's image is six octets, or ten with an offending element.
    pub proof fn lemma_encoding_len(&self)
        ensures
            self.encoding().len() == 6 + (if self.offending_ie is Some {
                4int
            } else {
                0int
            }),
            self.encoding().len() <= 10,
    {
    }
}

impl InformationElementTraits for InformationElement {
    open spec fn encoding(&self) -> Seq<u8> {
        ie_header(2, self.body().len() as int, self.instance) + self.body()
    }

    open spec fn spec_type(&self) -> InformationElementType {
        InformationElementType::Cause
    }

    open spec fn spec_instance(&self) -> u8 {
        self.instance
    }

    open spec fn with_instance(&self, instance: u8) -> Self {
        InformationElement { instance, ..*self }
    }

    open spec fn wf(&self) -> bool {
        self.instance <= 0xF
    }

    fn information_element_type(&self) -> (r: InformationElementType) {
        InformationElementType::Cause
    }

    fn instance(&self) -> (r: u8) {
        self.instance
    }

    fn set_instance(&mut self, instance: u8) -> (r: Result<u8, GtpError>) {
        if instance > 0xF {
            Err(GtpError::InstanceTooLarge)
        } else {
            self.instance = instance;
            Ok(instance)
        }
    }

    fn length(&self) -> (r: u16) {
        if self.offending_ie.is_some() {
            4 + 6
        } else {
            4 + 2
        }
    }

    fn generate(&self, buffer: &mut Vec<u8>) -> (n: usize) {
        let body_len: u16 = if self.offending_ie.is_some() {
            6
        } else {
            2
        };
        write_ie_header(buffer, 2, body_len, self.instance);
        buffer.push(self.cause_code.value());
        let flags: u8 = (if self.pdn_connection_ie_error {
            4
        } else {
            0
        }) + (if self.bearer_context_ie_error {
            2
        } else {
            0
        }) + self.cause_source.value() % 2;
        buffer.push(flags);
        match &self.offending_ie {
            Some((t, i)) => {
                buffer.push(t.value());
                buffer.push(0);
                buffer.push(0);
                buffer.push(i % 16);
            },
            None => {},
        }
        assert(buffer@ =~= old(buffer)@ + self.encoding());
        4 + body_len as usize
    }
}

} // verus!
