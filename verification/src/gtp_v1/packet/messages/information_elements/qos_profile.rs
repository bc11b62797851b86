//! Quality of Service Profile information element: the type octet, a
//! two-octet length, and the mandatory prefix of the profile (allocation/
//! retention priority, delay and reliability classes, peak throughput and
//! precedence, mean throughput).  The remaining octets of the 3GPP table are
//! carried as typed optional fields but are not generated.

use vstd::prelude::*;

use crate::bytes::{be16, val16, write_u16_be, read_u16_be};

use super::{InformationElementTraits, InformationElementType};

verus! {

#[derive(Copy, Clone, PartialEq, Eq, Structural, Debug)]
pub enum ReliabilityClass {
    SubscribedOrReserved,
    Unused,
    UnAckGTPAckLLCAckRLCProtectedData,
    UnAckGTPUnAckLLCAckRLCProtectedData,
    UnAckGTPUnAckLLCUnAckRLCProtectedData,
    UnAckGTPUnAckLLCUnAckRLCUnProtectedData,
    Reserved,
}

impl ReliabilityClass {
    /// The wire value this variant stands for.
    pub open spec fn spec_value(self) -> u8 {
        match self {
            ReliabilityClass::SubscribedOrReserved => 0,
            ReliabilityClass::Unused => 1,
            ReliabilityClass::UnAckGTPAckLLCAckRLCProtectedData => 2,
            ReliabilityClass::UnAckGTPUnAckLLCAckRLCProtectedData => 3,
            ReliabilityClass::UnAckGTPUnAckLLCUnAckRLCProtectedData => 4,
            ReliabilityClass::UnAckGTPUnAckLLCUnAckRLCUnProtectedData => 5,
            ReliabilityClass::Reserved => 7,
        }
    }

    pub fn value(&self) -> (r: u8)
        ensures
            r == self.spec_value(),
    {
        match self {
            ReliabilityClass::SubscribedOrReserved => 0,
            ReliabilityClass::Unused => 1,
            ReliabilityClass::UnAckGTPAckLLCAckRLCProtectedData => 2,
            ReliabilityClass::UnAckGTPUnAckLLCAckRLCProtectedData => 3,
            ReliabilityClass::UnAckGTPUnAckLLCUnAckRLCProtectedData => 4,
            ReliabilityClass::UnAckGTPUnAckLLCUnAckRLCUnProtectedData => 5,
            ReliabilityClass::Reserved => 7,
        }
    }

    /// The variant a wire value stands for, if any.
    pub open spec fn spec_from_u8(v: u8) -> Option<ReliabilityClass> {
        if v == 0 {
            Some(ReliabilityClass::SubscribedOrReserved)
        } else if v == 1 {
            Some(ReliabilityClass::Unused)
        } else if v == 2 {
            Some(ReliabilityClass::UnAckGTPAckLLCAckRLCProtectedData)
        } else if v == 3 {
            Some(ReliabilityClass::UnAckGTPUnAckLLCAckRLCProtectedData)
        } else if v == 4 {
            Some(ReliabilityClass::UnAckGTPUnAckLLCUnAckRLCProtectedData)
        } else if v == 5 {
            Some(ReliabilityClass::UnAckGTPUnAckLLCUnAckRLCUnProtectedData)
        } else if v == 7 {
            Some(ReliabilityClass::Reserved)
        } else {
            None
        }
    }

    pub fn try_from_u8(v: u8) -> (r: Option<ReliabilityClass>)
        ensures
            r == Self::spec_from_u8(v),
    {
        if v == 0 {
            Some(ReliabilityClass::SubscribedOrReserved)
        } else if v == 1 {
            Some(ReliabilityClass::Unused)
        } else if v == 2 {
            Some(ReliabilityClass::UnAckGTPAckLLCAckRLCProtectedData)
        } else if v == 3 {
            Some(ReliabilityClass::UnAckGTPUnAckLLCAckRLCProtectedData)
        } else if v == 4 {
            Some(ReliabilityClass::UnAckGTPUnAckLLCUnAckRLCProtectedData)
        } else if v == 5 {
            Some(ReliabilityClass::UnAckGTPUnAckLLCUnAckRLCUnProtectedData)
        } else if v == 7 {
            Some(ReliabilityClass::Reserved)
        } else {
            None
        }
    }
}

#[derive(Copy, Clone, PartialEq, Eq, Structural, Debug)]
pub enum DelayClass {
    SubscribedOrReserved,
    DelayClass1,
    DelayClass2,
    DelayClass3,
    BestEffort,
    Reserved,
}

impl DelayClass {
    /// The wire value this variant stands for.
    pub open spec fn spec_value(self) -> u8 {
        match self {
            DelayClass::SubscribedOrReserved => 0,
            DelayClass::DelayClass1 => 1,
            DelayClass::DelayClass2 => 2,
            DelayClass::DelayClass3 => 3,
            DelayClass::BestEffort => 4,
            DelayClass::Reserved => 7,
        }
    }

    pub fn value(&self) -> (r: u8)
        ensures
            r == self.spec_value(),
    {
        match self {
            DelayClass::SubscribedOrReserved => 0,
            DelayClass::DelayClass1 => 1,
            DelayClass::DelayClass2 => 2,
            DelayClass::DelayClass3 => 3,
            DelayClass::BestEffort => 4,
            DelayClass::Reserved => 7,
        }
    }

    /// The variant a wire value stands for, if any.
    pub open spec fn spec_from_u8(v: u8) -> Option<DelayClass> {
        if v == 0 {
            Some(DelayClass::SubscribedOrReserved)
        } else if v == 1 {
            Some(DelayClass::DelayClass1)
        } else if v == 2 {
            Some(DelayClass::DelayClass2)
        } else if v == 3 {
            Some(DelayClass::DelayClass3)
        } else if v == 4 {
            Some(DelayClass::BestEffort)
        } else if v == 7 {
            Some(DelayClass::Reserved)
        } else {
            None
        }
    }

    pub fn try_from_u8(v: u8) -> (r: Option<DelayClass>)
        ensures
            r == Self::spec_from_u8(v),
    {
        if v == 0 {
            Some(DelayClass::SubscribedOrReserved)
        } else if v == 1 {
            Some(DelayClass::DelayClass1)
        } else if v == 2 {
            Some(DelayClass::DelayClass2)
        } else if v == 3 {
            Some(DelayClass::DelayClass3)
        } else if v == 4 {
            Some(DelayClass::BestEffort)
        } else if v == 7 {
            Some(DelayClass::Reserved)
        } else {
            None
        }
    }
}

#[derive(Copy, Clone, PartialEq, Eq, Structural, Debug)]
pub enum PrecedenceClass {
    SubscribedOrReserved,
    HighPriority,
    NormalPriority,
    LowPriority,
    Reserved,
}

impl PrecedenceClass {
    /// The wire value this variant stands for.
    pub open spec fn spec_value(self) -> u8 {
        match self {
            PrecedenceClass::SubscribedOrReserved => 0,
            PrecedenceClass::HighPriority => 1,
            PrecedenceClass::NormalPriority => 2,
            PrecedenceClass::LowPriority => 3,
            PrecedenceClass::Reserved => 7,
        }
    }

    pub fn value(&self) -> (r: u8)
        ensures
            r == self.spec_value(),
    {
        match self {
            PrecedenceClass::SubscribedOrReserved => 0,
            PrecedenceClass::HighPriority => 1,
            PrecedenceClass::NormalPriority => 2,
            PrecedenceClass::LowPriority => 3,
            PrecedenceClass::Reserved => 7,
        }
    }

    /// The variant a wire value stands for, if any.
    pub open spec fn spec_from_u8(v: u8) -> Option<PrecedenceClass> {
        if v == 0 {
            Some(PrecedenceClass::SubscribedOrReserved)
        } else if v == 1 {
            Some(PrecedenceClass::HighPriority)
        } else if v == 2 {
            Some(PrecedenceClass::NormalPriority)
        } else if v == 3 {
            Some(PrecedenceClass::LowPriority)
        } else if v == 7 {
            Some(PrecedenceClass::Reserved)
        } else {
            None
        }
    }

    pub fn try_from_u8(v: u8) -> (r: Option<PrecedenceClass>)
        ensures
            r == Self::spec_from_u8(v),
    {
        if v == 0 {
            Some(PrecedenceClass::SubscribedOrReserved)
        } else if v == 1 {
            Some(PrecedenceClass::HighPriority)
        } else if v == 2 {
            Some(PrecedenceClass::NormalPriority)
        } else if v == 3 {
            Some(PrecedenceClass::LowPriority)
        } else if v == 7 {
            Some(PrecedenceClass::Reserved)
        } else {
            None
        }
    }
}

#[derive(Copy, Clone, PartialEq, Eq, Structural, Debug)]
pub enum PeakThroughput {
    SubscribedOrReserved,
    UpTo1000OctetsPerSecond,
    UpTo2000OctetsPerSecond,
    UpTo4000OctetsPerSecond,
    UpTo8000OctetsPerSecond,
    UpTo16000OctetsPerSecond,
    UpTo32000OctetsPerSecond,
    UpTo64000OctetsPerSecond,
    UpTo128000OctetsPerSecond,
    UpTo256000OctetsPerSecond,
    Reserved,
}

impl PeakThroughput {
    /// The wire value this variant stands for.
    pub open spec fn spec_value(self) -> u8 {
        match self {
            PeakThroughput::SubscribedOrReserved => 0,
            PeakThroughput::UpTo1000OctetsPerSecond => 1,
            PeakThroughput::UpTo2000OctetsPerSecond => 2,
            PeakThroughput::UpTo4000OctetsPerSecond => 3,
            PeakThroughput::UpTo8000OctetsPerSecond => 4,
            PeakThroughput::UpTo16000OctetsPerSecond => 5,
            PeakThroughput::UpTo32000OctetsPerSecond => 6,
            PeakThroughput::UpTo64000OctetsPerSecond => 7,
            PeakThroughput::UpTo128000OctetsPerSecond => 8,
            PeakThroughput::UpTo256000OctetsPerSecond => 9,
            PeakThroughput::Reserved => 255,
        }
    }

    pub fn value(&self) -> (r: u8)
        ensures
            r == self.spec_value(),
    {
        match self {
            PeakThroughput::SubscribedOrReserved => 0,
            PeakThroughput::UpTo1000OctetsPerSecond => 1,
            PeakThroughput::UpTo2000OctetsPerSecond => 2,
            PeakThroughput::UpTo4000OctetsPerSecond => 3,
            PeakThroughput::UpTo8000OctetsPerSecond => 4,
            PeakThroughput::UpTo16000OctetsPerSecond => 5,
            PeakThroughput::UpTo32000OctetsPerSecond => 6,
            PeakThroughput::UpTo64000OctetsPerSecond => 7,
            PeakThroughput::UpTo128000OctetsPerSecond => 8,
            PeakThroughput::UpTo256000OctetsPerSecond => 9,
            PeakThroughput::Reserved => 255,
        }
    }

    /// The variant a wire value stands for, if any.
    pub open spec fn spec_from_u8(v: u8) -> Option<PeakThroughput> {
        if v == 0 {
            Some(PeakThroughput::SubscribedOrReserved)
        } else if v == 1 {
            Some(PeakThroughput::UpTo1000OctetsPerSecond)
        } else if v == 2 {
            Some(PeakThroughput::UpTo2000OctetsPerSecond)
        } else if v == 3 {
            Some(PeakThroughput::UpTo4000OctetsPerSecond)
        } else if v == 4 {
            Some(PeakThroughput::UpTo8000OctetsPerSecond)
        } else if v == 5 {
            Some(PeakThroughput::UpTo16000OctetsPerSecond)
        } else if v == 6 {
            Some(PeakThroughput::UpTo32000OctetsPerSecond)
        } else if v == 7 {
            Some(PeakThroughput::UpTo64000OctetsPerSecond)
        } else if v == 8 {
            Some(PeakThroughput::UpTo128000OctetsPerSecond)
        } else if v == 9 {
            Some(PeakThroughput::UpTo256000OctetsPerSecond)
        } else if v == 255 {
            Some(PeakThroughput::Reserved)
        } else {
            None
        }
    }

    pub fn try_from_u8(v: u8) -> (r: Option<PeakThroughput>)
        ensures
            r == Self::spec_from_u8(v),
    {
        if v == 0 {
            Some(PeakThroughput::SubscribedOrReserved)
        } else if v == 1 {
            Some(PeakThroughput::UpTo1000OctetsPerSecond)
        } else if v == 2 {
            Some(PeakThroughput::UpTo2000OctetsPerSecond)
        } else if v == 3 {
            Some(PeakThroughput::UpTo4000OctetsPerSecond)
        } else if v == 4 {
            Some(PeakThroughput::UpTo8000OctetsPerSecond)
        } else if v == 5 {
            Some(PeakThroughput::UpTo16000OctetsPerSecond)
        } else if v == 6 {
            Some(PeakThroughput::UpTo32000OctetsPerSecond)
        } else if v == 7 {
            Some(PeakThroughput::UpTo64000OctetsPerSecond)
        } else if v == 8 {
            Some(PeakThroughput::UpTo128000OctetsPerSecond)
        } else if v == 9 {
            Some(PeakThroughput::UpTo256000OctetsPerSecond)
        } else if v == 255 {
            Some(PeakThroughput::Reserved)
        } else {
            None
        }
    }
}

#[derive(Copy, Clone, PartialEq, Eq, Structural, Debug)]
pub enum MeanThroughput {
    SubscribedOrReserved,
    OctetsPerHour100,
    OctetsPerHour200,
    OctetsPerHour500,
    OctetsPerHour1000,
    OctetsPerHour2000,
    OctetsPerHour5000,
    OctetsPerHour10000,
    OctetsPerHour20000,
    OctetsPerHour50000,
    OctetsPerHour100000,
    OctetsPerHour200000,
    OctetsPerHour500000,
    OctetsPerHour1000000,
    OctetsPerHour2000000,
    OctetsPerHour5000000,
    OctetsPerHour10000000,
    OctetsPerHour20000000,
    OctetsPerHour50000000,
    Reserved,
    BestEffort,
}

impl MeanThroughput {
    /// The wire value this variant stands for.
    pub open spec fn spec_value(self) -> u8 {
        match self {
            MeanThroughput::SubscribedOrReserved => 0,
            MeanThroughput::OctetsPerHour100 => 1,
            MeanThroughput::OctetsPerHour200 => 2,
            MeanThroughput::OctetsPerHour500 => 3,
            MeanThroughput::OctetsPerHour1000 => 4,
            MeanThroughput::OctetsPerHour2000 => 5,
            MeanThroughput::OctetsPerHour5000 => 6,
            MeanThroughput::OctetsPerHour10000 => 7,
            MeanThroughput::OctetsPerHour20000 => 8,
            MeanThroughput::OctetsPerHour50000 => 9,
            MeanThroughput::OctetsPerHour100000 => 10,
            MeanThroughput::OctetsPerHour200000 => 11,
            MeanThroughput::OctetsPerHour500000 => 12,
            MeanThroughput::OctetsPerHour1000000 => 13,
            MeanThroughput::OctetsPerHour2000000 => 14,
            MeanThroughput::OctetsPerHour5000000 => 15,
            MeanThroughput::OctetsPerHour10000000 => 16,
            MeanThroughput::OctetsPerHour20000000 => 17,
            MeanThroughput::OctetsPerHour50000000 => 18,
            MeanThroughput::Reserved => 30,
            MeanThroughput::BestEffort => 31,
        }
    }

    pub fn value(&self) -> (r: u8)
        ensures
            r == self.spec_value(),
    {
        match self {
            MeanThroughput::SubscribedOrReserved => 0,
            MeanThroughput::OctetsPerHour100 => 1,
            MeanThroughput::OctetsPerHour200 => 2,
            MeanThroughput::OctetsPerHour500 => 3,
            MeanThroughput::OctetsPerHour1000 => 4,
            MeanThroughput::OctetsPerHour2000 => 5,
            MeanThroughput::OctetsPerHour5000 => 6,
            MeanThroughput::OctetsPerHour10000 => 7,
            MeanThroughput::OctetsPerHour20000 => 8,
            MeanThroughput::OctetsPerHour50000 => 9,
            MeanThroughput::OctetsPerHour100000 => 10,
            MeanThroughput::OctetsPerHour200000 => 11,
            MeanThroughput::OctetsPerHour500000 => 12,
            MeanThroughput::OctetsPerHour1000000 => 13,
            MeanThroughput::OctetsPerHour2000000 => 14,
            MeanThroughput::OctetsPerHour5000000 => 15,
            MeanThroughput::OctetsPerHour10000000 => 16,
            MeanThroughput::OctetsPerHour20000000 => 17,
            MeanThroughput::OctetsPerHour50000000 => 18,
            MeanThroughput::Reserved => 30,
            MeanThroughput::BestEffort => 31,
        }
    }

    /// The variant a wire value stands for, if any.
    pub open spec fn spec_from_u8(v: u8) -> Option<MeanThroughput> {
        if v == 0 {
            Some(MeanThroughput::SubscribedOrReserved)
        } else if v == 1 {
            Some(MeanThroughput::OctetsPerHour100)
        } else if v == 2 {
            Some(MeanThroughput::OctetsPerHour200)
        } else if v == 3 {
            Some(MeanThroughput::OctetsPerHour500)
        } else if v == 4 {
            Some(MeanThroughput::OctetsPerHour1000)
        } else if v == 5 {
            Some(MeanThroughput::OctetsPerHour2000)
        } else if v == 6 {
            Some(MeanThroughput::OctetsPerHour5000)
        } else if v == 7 {
            Some(MeanThroughput::OctetsPerHour10000)
        } else if v == 8 {
            Some(MeanThroughput::OctetsPerHour20000)
        } else if v == 9 {
            Some(MeanThroughput::OctetsPerHour50000)
        } else if v == 10 {
            Some(MeanThroughput::OctetsPerHour100000)
        } else if v == 11 {
            Some(MeanThroughput::OctetsPerHour200000)
        } else if v == 12 {
            Some(MeanThroughput::OctetsPerHour500000)
        } else if v == 13 {
            Some(MeanThroughput::OctetsPerHour1000000)
        } else if v == 14 {
            Some(MeanThroughput::OctetsPerHour2000000)
        } else if v == 15 {
            Some(MeanThroughput::OctetsPerHour5000000)
        } else if v == 16 {
            Some(MeanThroughput::OctetsPerHour10000000)
        } else if v == 17 {
            Some(MeanThroughput::OctetsPerHour20000000)
        } else if v == 18 {
            Some(MeanThroughput::OctetsPerHour50000000)
        } else if v == 30 {
            Some(MeanThroughput::Reserved)
        } else if v == 31 {
            Some(MeanThroughput::BestEffort)
        } else {
            None
        }
    }

    pub fn try_from_u8(v: u8) -> (r: Option<MeanThroughput>)
        ensures
            r == Self::spec_from_u8(v),
    {
        if v == 0 {
            Some(MeanThroughput::SubscribedOrReserved)
        } else if v == 1 {
            Some(MeanThroughput::OctetsPerHour100)
        } else if v == 2 {
            Some(MeanThroughput::OctetsPerHour200)
        } else if v == 3 {
            Some(MeanThroughput::OctetsPerHour500)
        } else if v == 4 {
            Some(MeanThroughput::OctetsPerHour1000)
        } else if v == 5 {
            Some(MeanThroughput::OctetsPerHour2000)
        } else if v == 6 {
            Some(MeanThroughput::OctetsPerHour5000)
        } else if v == 7 {
            Some(MeanThroughput::OctetsPerHour10000)
        } else if v == 8 {
            Some(MeanThroughput::OctetsPerHour20000)
        } else if v == 9 {
            Some(MeanThroughput::OctetsPerHour50000)
        } else if v == 10 {
            Some(MeanThroughput::OctetsPerHour100000)
        } else if v == 11 {
            Some(MeanThroughput::OctetsPerHour200000)
        } else if v == 12 {
            Some(MeanThroughput::OctetsPerHour500000)
        } else if v == 13 {
            Some(MeanThroughput::OctetsPerHour1000000)
        } else if v == 14 {
            Some(MeanThroughput::OctetsPerHour2000000)
        } else if v == 15 {
            Some(MeanThroughput::OctetsPerHour5000000)
        } else if v == 16 {
            Some(MeanThroughput::OctetsPerHour10000000)
        } else if v == 17 {
            Some(MeanThroughput::OctetsPerHour20000000)
        } else if v == 18 {
            Some(MeanThroughput::OctetsPerHour50000000)
        } else if v == 30 {
            Some(MeanThroughput::Reserved)
        } else if v == 31 {
            Some(MeanThroughput::BestEffort)
        } else {
            None
        }
    }
}

#[derive(Copy, Clone, PartialEq, Eq, Structural, Debug)]
pub enum DeliveryOfErroneusSDUs {
    SubscribedOrReserved,
    NoDetect,
    Yes,
    No,
    Reserved,
}

impl DeliveryOfErroneusSDUs {
    /// The wire value this variant stands for.
    pub open spec fn spec_value(self) -> u8 {
        match self {
            DeliveryOfErroneusSDUs::SubscribedOrReserved => 0,
            DeliveryOfErroneusSDUs::NoDetect => 1,
            DeliveryOfErroneusSDUs::Yes => 2,
            DeliveryOfErroneusSDUs::No => 3,
            DeliveryOfErroneusSDUs::Reserved => 7,
        }
    }

    pub fn value(&self) -> (r: u8)
        ensures
            r == self.spec_value(),
    {
        match self {
            DeliveryOfErroneusSDUs::SubscribedOrReserved => 0,
            DeliveryOfErroneusSDUs::NoDetect => 1,
            DeliveryOfErroneusSDUs::Yes => 2,
            DeliveryOfErroneusSDUs::No => 3,
            DeliveryOfErroneusSDUs::Reserved => 7,
        }
    }
}

#[derive(Copy, Clone, PartialEq, Eq, Structural, Debug)]
pub enum DeliveryOrder {
    SubscribedOrReserved,
    NoDetect,
    Yes,
    No,
    Reserved,
}

impl DeliveryOrder {
    /// The wire value this variant stands for.
    pub open spec fn spec_value(self) -> u8 {
        match self {
            DeliveryOrder::SubscribedOrReserved => 0,
            DeliveryOrder::NoDetect => 1,
            DeliveryOrder::Yes => 2,
            DeliveryOrder::No => 3,
            DeliveryOrder::Reserved => 7,
        }
    }

    pub fn value(&self) -> (r: u8)
        ensures
            r == self.spec_value(),
    {
        match self {
            DeliveryOrder::SubscribedOrReserved => 0,
            DeliveryOrder::NoDetect => 1,
            DeliveryOrder::Yes => 2,
            DeliveryOrder::No => 3,
            DeliveryOrder::Reserved => 7,
        }
    }
}

#[derive(Copy, Clone, PartialEq, Eq, Structural, Debug)]
pub enum TrafficClass {
    SubscribedOrReserved,
    Conversational,
    Streaming,
    Interactive,
    Background,
    Reserved,
}

impl TrafficClass {
    /// The wire value this variant stands for.
    pub open spec fn spec_value(self) -> u8 {
        match self {
            TrafficClass::SubscribedOrReserved => 0,
            TrafficClass::Conversational => 1,
            TrafficClass::Streaming => 2,
            TrafficClass::Interactive => 3,
            TrafficClass::Background => 4,
            TrafficClass::Reserved => 7,
        }
    }

    pub fn value(&self) -> (r: u8)
        ensures
            r == self.spec_value(),
    {
        match self {
            TrafficClass::SubscribedOrReserved => 0,
            TrafficClass::Conversational => 1,
            TrafficClass::Streaming => 2,
            TrafficClass::Interactive => 3,
            TrafficClass::Background => 4,
            TrafficClass::Reserved => 7,
        }
    }
}

#[derive(Copy, Clone, PartialEq, Eq, Structural, Debug)]
pub enum ResidualBitErrorRate {
    SubscribedOrReserved,
    BER5x10POWn2,
    BER1x10POWn2,
    BER5x10POWn3,
    BER4x10POWn3,
    BER1x10POWn3,
    BER1x10POWn4,
    BER1x10POWn5,
    BER1x10POWn6,
    BER1x10POWn8,
    Reserved,
}

impl ResidualBitErrorRate {
    /// The wire value this variant stands for.
    pub open spec fn spec_value(self) -> u8 {
        match self {
            ResidualBitErrorRate::SubscribedOrReserved => 0,
            ResidualBitErrorRate::BER5x10POWn2 => 1,
            ResidualBitErrorRate::BER1x10POWn2 => 2,
            ResidualBitErrorRate::BER5x10POWn3 => 3,
            ResidualBitErrorRate::BER4x10POWn3 => 4,
            ResidualBitErrorRate::BER1x10POWn3 => 5,
            ResidualBitErrorRate::BER1x10POWn4 => 6,
            ResidualBitErrorRate::BER1x10POWn5 => 7,
            ResidualBitErrorRate::BER1x10POWn6 => 8,
            ResidualBitErrorRate::BER1x10POWn8 => 9,
            ResidualBitErrorRate::Reserved => 255,
        }
    }

    pub fn value(&self) -> (r: u8)
        ensures
            r == self.spec_value(),
    {
        match self {
            ResidualBitErrorRate::SubscribedOrReserved => 0,
            ResidualBitErrorRate::BER5x10POWn2 => 1,
            ResidualBitErrorRate::BER1x10POWn2 => 2,
            ResidualBitErrorRate::BER5x10POWn3 => 3,
            ResidualBitErrorRate::BER4x10POWn3 => 4,
            ResidualBitErrorRate::BER1x10POWn3 => 5,
            ResidualBitErrorRate::BER1x10POWn4 => 6,
            ResidualBitErrorRate::BER1x10POWn5 => 7,
            ResidualBitErrorRate::BER1x10POWn6 => 8,
            ResidualBitErrorRate::BER1x10POWn8 => 9,
            ResidualBitErrorRate::Reserved => 255,
        }
    }
}

#[derive(Copy, Clone, PartialEq, Eq, Structural, Debug)]
pub enum SDUErrorRatio {
    SubscribedOrReserved,
    SDUER1x10POWn2,
    SDUER7x10POWn3,
    SDUER1x10POWn3,
    SDUER1x10POWn4,
    SDUER1x10POWn5,
    SDUER1x10POWn6,
    SDUER1x10POWn1,
    Reserved,
}

impl SDUErrorRatio {
    /// The wire value this variant stands for.
    pub open spec fn spec_value(self) -> u8 {
        match self {
            SDUErrorRatio::SubscribedOrReserved => 0,
            SDUErrorRatio::SDUER1x10POWn2 => 1,
            SDUErrorRatio::SDUER7x10POWn3 => 2,
            SDUErrorRatio::SDUER1x10POWn3 => 3,
            SDUErrorRatio::SDUER1x10POWn4 => 4,
            SDUErrorRatio::SDUER1x10POWn5 => 5,
            SDUErrorRatio::SDUER1x10POWn6 => 6,
            SDUErrorRatio::SDUER1x10POWn1 => 7,
            SDUErrorRatio::Reserved => 255,
        }
    }

    pub fn value(&self) -> (r: u8)
        ensures
            r == self.spec_value(),
    {
        match self {
            SDUErrorRatio::SubscribedOrReserved => 0,
            SDUErrorRatio::SDUER1x10POWn2 => 1,
            SDUErrorRatio::SDUER7x10POWn3 => 2,
            SDUErrorRatio::SDUER1x10POWn3 => 3,
            SDUErrorRatio::SDUER1x10POWn4 => 4,
            SDUErrorRatio::SDUER1x10POWn5 => 5,
            SDUErrorRatio::SDUER1x10POWn6 => 6,
            SDUErrorRatio::SDUER1x10POWn1 => 7,
            SDUErrorRatio::Reserved => 255,
        }
    }
}

#[derive(Copy, Clone, PartialEq, Eq, Structural, Debug)]
pub enum TrafficHandlingPriority {
    SubscribedOrReserved,
    PriorityLevel1,
    PriorityLevel2,
    PriorityLevel3,
}

impl TrafficHandlingPriority {
    /// The wire value this variant stands for.
    pub open spec fn spec_value(self) -> u8 {
        match self {
            TrafficHandlingPriority::SubscribedOrReserved => 0,
            TrafficHandlingPriority::PriorityLevel1 => 1,
            TrafficHandlingPriority::PriorityLevel2 => 2,
            TrafficHandlingPriority::PriorityLevel3 => 3,
        }
    }

    pub fn value(&self) -> (r: u8)
        ensures
            r == self.spec_value(),
    {
        match self {
            TrafficHandlingPriority::SubscribedOrReserved => 0,
            TrafficHandlingPriority::PriorityLevel1 => 1,
            TrafficHandlingPriority::PriorityLevel2 => 2,
            TrafficHandlingPriority::PriorityLevel3 => 3,
        }
    }
}

#[derive(Copy, Clone, PartialEq, Eq, Structural, Debug)]
pub enum SourceStatisticsDescriptor {
    UnknownOrSpare,
    Speech,
}

impl SourceStatisticsDescriptor {
    /// The wire value this variant stands for.
    pub open spec fn spec_value(self) -> u8 {
        match self {
            SourceStatisticsDescriptor::UnknownOrSpare => 0,
            SourceStatisticsDescriptor::Speech => 1,
        }
    }

    pub fn value(&self) -> (r: u8)
        ensures
            r == self.spec_value(),
    {
        match self {
            SourceStatisticsDescriptor::UnknownOrSpare => 0,
            SourceStatisticsDescriptor::Speech => 1,
        }
    }
}

#[derive(Copy, Clone, PartialEq, Eq, Structural, Debug)]
pub enum SignallingIndication {
    NotOptimisedForSignallingTraffic,
    OptimisedForSignallingTraffic,
}

impl SignallingIndication {
    /// The wire value this variant stands for.
    pub open spec fn spec_value(self) -> u8 {
        match self {
            SignallingIndication::NotOptimisedForSignallingTraffic => 0,
            SignallingIndication::OptimisedForSignallingTraffic => 1,
        }
    }

    pub fn value(&self) -> (r: u8)
        ensures
            r == self.spec_value(),
    {
        match self {
            SignallingIndication::NotOptimisedForSignallingTraffic => 0,
            SignallingIndication::OptimisedForSignallingTraffic => 1,
        }
    }
}
/// The inputs `parse` accepts: the type octet, a length field of at least
/// four that the buffer covers, and class values inside their catalogs.
pub open spec fn parse_ok(b: Seq<u8>) -> bool {
    &&& b.len() >= 7
    &&& b[0] == 135
    &&& val16(b, 1) >= 4
    &&& 3 + val16(b, 1) <= b.len()
    &&& DelayClass::spec_from_u8(((b[4] / 8) % 8) as u8) is Some
    &&& ReliabilityClass::spec_from_u8((b[4] % 8) as u8) is Some
    &&& (b[5] / 16 == 15 || PeakThroughput::spec_from_u8((b[5] / 16) as u8) is Some)
    &&& PrecedenceClass::spec_from_u8((b[5] % 8) as u8) is Some
    &&& MeanThroughput::spec_from_u8((b[6] % 32) as u8) is Some
}

/// Quality of Service Profile information element.
pub struct InformationElement {
    pub arp: u8,
    pub delay_class: DelayClass,
    pub reliability_class: ReliabilityClass,
    pub peak_throughput: PeakThroughput,
    pub precedence_class: PrecedenceClass,
    pub mean_throughput: MeanThroughput,
    pub traffic_class: Option<TrafficClass>,
    pub delivery_order: Option<DeliveryOrder>,
    pub delivery_of_erroneus_sdus: Option<DeliveryOfErroneusSDUs>,
    pub maximum_sdu_size: Option<u8>,
    pub maximum_uplink_bitrate: Option<u32>,
    pub maximum_downlink_bitrate: Option<u32>,
    pub residual_ber: Option<ResidualBitErrorRate>,
    pub sdu_error_ratio: Option<SDUErrorRatio>,
    pub transfer_delay: Option<u32>,
    pub traffic_handling_priority: Option<TrafficHandlingPriority>,
    pub guaranteed_uplink_bitrate: Option<u32>,
    pub guaranteed_downlink_bitrate: Option<u32>,
}

impl InformationElement {
    pub fn new(
        arp: u8,
        delay_class: DelayClass,
        reliability_class: ReliabilityClass,
        peak_throughput: PeakThroughput,
        precedence_class: PrecedenceClass,
        mean_throughput: MeanThroughput,
    ) -> (r: Self)
        ensures
            r.arp == arp,
            r.delay_class == delay_class,
            r.reliability_class == reliability_class,
            r.peak_throughput == peak_throughput,
            r.precedence_class == precedence_class,
            r.mean_throughput == mean_throughput,
            r.traffic_class is None,
    {
        InformationElement {
            arp,
            delay_class,
            reliability_class,
            peak_throughput,
            precedence_class,
            mean_throughput,
            traffic_class: None,
            delivery_order: None,
            delivery_of_erroneus_sdus: None,
            maximum_sdu_size: None,
            maximum_uplink_bitrate: None,
            maximum_downlink_bitrate: None,
            residual_ber: None,
            sdu_error_ratio: None,
            transfer_delay: None,
            traffic_handling_priority: None,
            guaranteed_uplink_bitrate: None,
            guaranteed_downlink_bitrate: None,
        }
    }

    /// Reads one element: the mandatory prefix; any further declared octets
    /// are consumed unread.  It fails exactly on a short buffer, a wrong type
    /// octet, a declared length under four, or a class value outside its
    /// catalog.
    pub fn parse(buffer: &[u8]) -> (r: Option<(Self, usize)>)
        ensures
            r is Some <==> parse_ok(buffer@),
            r matches Some((ie, n)) ==> {
                &&& buffer@.len() >= 7
                &&& buffer@[0] == 135
                &&& val16(buffer@, 1) >= 4
                &&& n == 3 + val16(buffer@, 1)
                &&& n <= buffer@.len()
                &&& ie.encoding().len() == 7
                &&& ie.arp == buffer@[3]
                &&& Some(ie.delay_class) == DelayClass::spec_from_u8(
                    ((buffer@[4] / 8) % 8) as u8,
                )
                &&& Some(ie.reliability_class) == ReliabilityClass::spec_from_u8(
                    (buffer@[4] % 8) as u8,
                )
                &&& Some(ie.precedence_class) == PrecedenceClass::spec_from_u8(
                    (buffer@[5] % 8) as u8,
                )
                &&& Some(ie.mean_throughput) == MeanThroughput::spec_from_u8(
                    (buffer@[6] % 32) as u8,
                )
            },
            buffer@.len() < 7 ==> r is None,
    {
        if buffer.len() < 7 || buffer[0] != 135 {
            return None;
        }
        let length = read_u16_be(buffer, 1);
        if length < 4 {
            return None;
        }
        let total = 3 + length as usize;
        if buffer.len() < total {
            return None;
        }
        let arp = buffer[3];
        let delay_class = match DelayClass::try_from_u8((buffer[4] / 8) % 8) {
            Some(v) => v,
            None => { return None },
        };
        let reliability_class = match ReliabilityClass::try_from_u8(buffer[4] % 8) {
            Some(v) => v,
            None => { return None },
        };
        let pt_nibble = buffer[5] / 16;
        let peak_throughput = if pt_nibble == 15 {
            PeakThroughput::Reserved
        } else {
            match PeakThroughput::try_from_u8(pt_nibble) {
                Some(v) => v,
                None => { return None },
            }
        };
        let precedence_class = match PrecedenceClass::try_from_u8(buffer[5] % 8) {
            Some(v) => v,
            None => { return None },
        };
        let mean_throughput = match MeanThroughput::try_from_u8(buffer[6] % 32) {
            Some(v) => v,
            None => { return None },
        };
        Some(
            (
                Self::new(
                    arp,
                    delay_class,
                    reliability_class,
                    peak_throughput,
                    precedence_class,
                    mean_throughput,
                ),
                total,
            ),
        )
    }
}

impl InformationElementTraits for InformationElement {
    open spec fn encoding(&self) -> Seq<u8> {
        seq![135u8] + be16(4) + seq![
            self.arp,
            (self.delay_class.spec_value() * 8 + self.reliability_class.spec_value()) as u8,
            ((self.peak_throughput.spec_value() % 16) * 16
                + self.precedence_class.spec_value()) as u8,
            self.mean_throughput.spec_value(),
        ]
    }

    open spec fn spec_type(&self) -> InformationElementType {
        InformationElementType::QoSProfile
    }

    open spec fn wf(&self) -> bool {
        true
    }

    fn information_element_type(&self) -> (r: InformationElementType) {
        InformationElementType::QoSProfile
    }

    fn length(&self) -> (r: u16) {
        4 + 3
    }

    fn generate(&self, buffer: &mut Vec<u8>) -> (n: usize) {
        buffer.push(135);
        write_u16_be(buffer, 4);
        buffer.push(self.arp);
        buffer.push(self.delay_class.value() * 8 + self.reliability_class.value());
        buffer.push((self.peak_throughput.value() % 16) * 16 + self.precedence_class.value());
        buffer.push(self.mean_throughput.value());
        assert(buffer@ =~= old(buffer)@ + self.encoding());
        7
    }
}

} // verus!
