//! Bearer Context information element: a container of inner elements under
//! its own four-octet header.  The EPS bearer id and the bearer-level QoS
//! are mandatory; up to eight F-TEIDs are keyed purely by their instance
//! nibble, one per interface role.

use vstd::prelude::*;

use crate::bytes::val16;
use crate::errors::GtpError;
use crate::net::{Ipv4Address, Ipv6Address};

use super::{
    InformationElement as IEEnum,
    InformationElementTraits,
    InformationElementType,
    ie_header,
    write_ie_header,
    read_ie_header,
    element_ok,
    segments_ok,
    found,
    lemma_scan_step,
    lemma_scan_dead,
    lemma_scan_empty,
};
use super::{ebi, bearer_qos, f_teid};
use super::f_teid::InterfaceType;

verus! {

/// The image of an optional inner F-TEID: its encoding if present, nothing
/// if not.
pub open spec fn opt_fteid(v: Option<f_teid::InformationElement>) -> Seq<u8> {
    match v {
        Some(ie) => ie.encoding(),
        None => Seq::empty(),
    }
}

/// The inputs `parse` accepts: the element header is satisfied, the declared
/// body scans to its end, and the scan meets an EPS bearer id and a bearer
/// QoS the inner decoders accept.
pub open spec fn parse_ok(b: Seq<u8>) -> bool
    decreases b.len(), 1int,
{
    if b.len() < 4 || b[0] != 93 {
        false
    } else if 4 + val16(b, 1) > b.len() {
        false
    } else {
        let inner = b.subrange(4, 4 + val16(b, 1));
        segments_ok(inner) && found(inner, 73, None) && found(inner, 80, None)
    }
}

/// The combined image length of a set of optional inner elements, as the
/// decoder accumulates them.
pub open spec fn slots_len(
    e: Option<ebi::InformationElement>,
    q: Option<bearer_qos::InformationElement>,
    f0: Option<f_teid::InformationElement>,
    f1: Option<f_teid::InformationElement>,
    f2: Option<f_teid::InformationElement>,
    f3: Option<f_teid::InformationElement>,
    f4: Option<f_teid::InformationElement>,
    f5: Option<f_teid::InformationElement>,
    f6: Option<f_teid::InformationElement>,
    f7: Option<f_teid::InformationElement>,
) -> int {
    (match e {
        Some(x) => x.encoding().len() as int,
        None => 0int,
    }) + (match q {
        Some(x) => x.encoding().len() as int,
        None => 0int,
    }) + opt_fteid(f0).len() + opt_fteid(f1).len() + opt_fteid(f2).len() + opt_fteid(f3).len()
        + opt_fteid(f4).len() + opt_fteid(f5).len() + opt_fteid(f6).len() + opt_fteid(f7).len()
}

/// The inner-element slots, as the decoder accumulates them.
struct Slots {
    eps_bearer_id: Option<ebi::InformationElement>,
    bearer_level_qos: Option<bearer_qos::InformationElement>,
    s1_u_enodeb_f_teid: Option<f_teid::InformationElement>,
    s4_u_sgsn_f_teid: Option<f_teid::InformationElement>,
    s5_s8_u_sgw_f_teid: Option<f_teid::InformationElement>,
    s5_s8_u_pgw_f_teid: Option<f_teid::InformationElement>,
    s12_rnc_f_teid: Option<f_teid::InformationElement>,
    s2b_u_epdg_f_teid: Option<f_teid::InformationElement>,
    s2a_u_twan_f_teid: Option<f_teid::InformationElement>,
    s11_u_mme_f_teid: Option<f_teid::InformationElement>,
}

impl Slots {
    /// The combined image length of the filled slots.
    spec fn stored_len(&self) -> int {
        slots_len(
            self.eps_bearer_id,
            self.bearer_level_qos,
            self.s1_u_enodeb_f_teid,
            self.s4_u_sgsn_f_teid,
            self.s5_s8_u_sgw_f_teid,
            self.s5_s8_u_pgw_f_teid,
            self.s12_rnc_f_teid,
            self.s2b_u_epdg_f_teid,
            self.s2a_u_twan_f_teid,
            self.s11_u_mme_f_teid,
        )
    }

    /// Every filled slot is sound.
    spec fn stored_wf(&self) -> bool {
        &&& (self.eps_bearer_id matches Some(x) ==> x.wf())
        &&& (self.bearer_level_qos matches Some(x) ==> x.wf())
        &&& (self.s1_u_enodeb_f_teid matches Some(x) ==> x.wf())
        &&& (self.s4_u_sgsn_f_teid matches Some(x) ==> x.wf())
        &&& (self.s5_s8_u_sgw_f_teid matches Some(x) ==> x.wf())
        &&& (self.s5_s8_u_pgw_f_teid matches Some(x) ==> x.wf())
        &&& (self.s12_rnc_f_teid matches Some(x) ==> x.wf())
        &&& (self.s2b_u_epdg_f_teid matches Some(x) ==> x.wf())
        &&& (self.s2a_u_twan_f_teid matches Some(x) ==> x.wf())
        &&& (self.s11_u_mme_f_teid matches Some(x) ==> x.wf())
    }

    /// The F-TEID slots hold only elements whose instance names the slot.
    spec fn routed(&self) -> bool {
        &&& (self.s1_u_enodeb_f_teid matches Some(x) ==> x.spec_instance() == 0)
        &&& (self.s4_u_sgsn_f_teid matches Some(x) ==> x.spec_instance() == 1)
        &&& (self.s5_s8_u_sgw_f_teid matches Some(x) ==> x.spec_instance() == 2)
        &&& (self.s5_s8_u_pgw_f_teid matches Some(x) ==> x.spec_instance() == 3)
        &&& (self.s12_rnc_f_teid matches Some(x) ==> x.spec_instance() == 4)
        &&& (self.s2b_u_epdg_f_teid matches Some(x) ==> x.spec_instance() == 5)
        &&& (self.s2a_u_twan_f_teid matches Some(x) ==> x.spec_instance() == 6)
        &&& (self.s11_u_mme_f_teid matches Some(x) ==> x.spec_instance() == 7)
    }

    /// Stores one decoded inner element into the slot its kind and instance
    /// name; anything else is discarded.
    #[verifier::rlimit(100)]
    fn stash(&mut self, ie: IEEnum, ghost_budget: Ghost<int>)
        requires
            old(self).stored_wf(),
            old(self).stored_len() <= ghost_budget@ - ie.encoding().len(),
            ie.wf(),
            old(self).routed(),
        ensures
            final(self).stored_wf(),
            final(self).stored_len() <= ghost_budget@,
            final(self).routed(),
            final(self).eps_bearer_id is Some <==> (old(self).eps_bearer_id is Some || ie is EBI),
            final(self).bearer_level_qos is Some <==> (old(self).bearer_level_qos is Some || ie
                is BearerQoS),
            final(self).s1_u_enodeb_f_teid is Some <==> (old(self).s1_u_enodeb_f_teid is Some || (
            ie matches IEEnum::FTEID(x) && x.spec_instance() == 0)),
            final(self).s4_u_sgsn_f_teid is Some <==> (old(self).s4_u_sgsn_f_teid is Some || (ie
                matches IEEnum::FTEID(x) && x.spec_instance() == 1)),
            final(self).s5_s8_u_sgw_f_teid is Some <==> (old(self).s5_s8_u_sgw_f_teid is Some || (
            ie matches IEEnum::FTEID(x) && x.spec_instance() == 2)),
            final(self).s5_s8_u_pgw_f_teid is Some <==> (old(self).s5_s8_u_pgw_f_teid is Some || (
            ie matches IEEnum::FTEID(x) && x.spec_instance() == 3)),
            final(self).s12_rnc_f_teid is Some <==> (old(self).s12_rnc_f_teid is Some || (ie
                matches IEEnum::FTEID(x) && x.spec_instance() == 4)),
            final(self).s2b_u_epdg_f_teid is Some <==> (old(self).s2b_u_epdg_f_teid is Some || (ie
                matches IEEnum::FTEID(x) && x.spec_instance() == 5)),
            final(self).s2a_u_twan_f_teid is Some <==> (old(self).s2a_u_twan_f_teid is Some || (ie
                matches IEEnum::FTEID(x) && x.spec_instance() == 6)),
            final(self).s11_u_mme_f_teid is Some <==> (old(self).s11_u_mme_f_teid is Some || (ie
                matches IEEnum::FTEID(x) && x.spec_instance() == 7)),
    {
        match ie {
            IEEnum::EBI(inner) => {
                self.eps_bearer_id = Some(inner);
            },
            IEEnum::BearerQoS(inner) => {
                self.bearer_level_qos = Some(inner);
            },
            IEEnum::FTEID(inner) => {
                let inner_instance = inner.instance();
                if inner_instance == 0 {
                    self.s1_u_enodeb_f_teid = Some(inner);
                } else if inner_instance == 1 {
                    self.s4_u_sgsn_f_teid = Some(inner);
                } else if inner_instance == 2 {
                    self.s5_s8_u_sgw_f_teid = Some(inner);
                } else if inner_instance == 3 {
                    self.s5_s8_u_pgw_f_teid = Some(inner);
                } else if inner_instance == 4 {
                    self.s12_rnc_f_teid = Some(inner);
                } else if inner_instance == 5 {
                    self.s2b_u_epdg_f_teid = Some(inner);
                } else if inner_instance == 6 {
                    self.s2a_u_twan_f_teid = Some(inner);
                } else if inner_instance == 7 {
                    self.s11_u_mme_f_teid = Some(inner);
                }
            },
            _ => {},
        }
    }
}

/// Bearer Context information element.
pub struct InformationElement {
    /// At most 0xF.
    pub instance: u8,
    pub eps_bearer_id: ebi::InformationElement,
    pub s1_u_enodeb_f_teid: Option<f_teid::InformationElement>,
    pub s4_u_sgsn_f_teid: Option<f_teid::InformationElement>,
    pub s5_s8_u_sgw_f_teid: Option<f_teid::InformationElement>,
    pub s5_s8_u_pgw_f_teid: Option<f_teid::InformationElement>,
    pub s12_rnc_f_teid: Option<f_teid::InformationElement>,
    pub s2b_u_epdg_f_teid: Option<f_teid::InformationElement>,
    pub s2a_u_twan_f_teid: Option<f_teid::InformationElement>,
    pub s11_u_mme_f_teid: Option<f_teid::InformationElement>,
    pub bearer_level_qos: bearer_qos::InformationElement,
}

impl InformationElement {
    /// The bearer id and the first seven F-TEID slots, in generate order.
    pub closed spec fn body_front(&self) -> Seq<u8> {
        self.eps_bearer_id.encoding() + opt_fteid(self.s1_u_enodeb_f_teid) + opt_fteid(
            self.s4_u_sgsn_f_teid,
        ) + opt_fteid(self.s5_s8_u_sgw_f_teid) + opt_fteid(self.s5_s8_u_pgw_f_teid) + opt_fteid(
            self.s12_rnc_f_teid,
        ) + opt_fteid(self.s2b_u_epdg_f_teid) + opt_fteid(self.s2a_u_twan_f_teid)
    }

    /// The inner elements in generate order: the bearer id, seven F-TEIDs,
    /// the QoS, and the S11-U MME F-TEID last.
    pub closed spec fn body(&self) -> Seq<u8> {
        self.body_front() + self.bearer_level_qos.encoding() + opt_fteid(self.s11_u_mme_f_teid)
    }

    /// Writes the bearer id and the first seven F-TEID slots.
    #[verifier::rlimit(100)]
    fn generate_body_front(&self, buffer: &mut Vec<u8>) -> (n: usize)
        requires
            self.wf(),
        ensures
            final(buffer)@ == old(buffer)@ + self.body_front(),
            n == self.body_front().len(),
    {
        let start = buffer.len();
        let ghost o = buffer@;
        self.eps_bearer_id.generate(buffer);
        proof {
            assert(buffer@ =~= o + self.eps_bearer_id.encoding());
        }
        if let Some(ie) = &self.s1_u_enodeb_f_teid {
            ie.generate(buffer);
        }
        proof {
            assert(buffer@ =~= o + self.eps_bearer_id.encoding() + opt_fteid(self.s1_u_enodeb_f_teid));
        }
        if let Some(ie) = &self.s4_u_sgsn_f_teid {
            ie.generate(buffer);
        }
        proof {
            assert(buffer@ =~= o + self.eps_bearer_id.encoding() + opt_fteid(self.s1_u_enodeb_f_teid) + opt_fteid(self.s4_u_sgsn_f_teid));
        }
        if let Some(ie) = &self.s5_s8_u_sgw_f_teid {
            ie.generate(buffer);
        }
        proof {
            assert(buffer@ =~= o + self.eps_bearer_id.encoding() + opt_fteid(self.s1_u_enodeb_f_teid) + opt_fteid(self.s4_u_sgsn_f_teid) + opt_fteid(self.s5_s8_u_sgw_f_teid));
        }
        if let Some(ie) = &self.s5_s8_u_pgw_f_teid {
            ie.generate(buffer);
        }
        proof {
            assert(buffer@ =~= o + self.eps_bearer_id.encoding() + opt_fteid(self.s1_u_enodeb_f_teid) + opt_fteid(self.s4_u_sgsn_f_teid) + opt_fteid(self.s5_s8_u_sgw_f_teid) + opt_fteid(self.s5_s8_u_pgw_f_teid));
        }
        if let Some(ie) = &self.s12_rnc_f_teid {
            ie.generate(buffer);
        }
        proof {
            assert(buffer@ =~= o + self.eps_bearer_id.encoding() + opt_fteid(self.s1_u_enodeb_f_teid) + opt_fteid(self.s4_u_sgsn_f_teid) + opt_fteid(self.s5_s8_u_sgw_f_teid) + opt_fteid(self.s5_s8_u_pgw_f_teid) + opt_fteid(self.s12_rnc_f_teid));
        }
        if let Some(ie) = &self.s2b_u_epdg_f_teid {
            ie.generate(buffer);
        }
        proof {
            assert(buffer@ =~= o + self.eps_bearer_id.encoding() + opt_fteid(self.s1_u_enodeb_f_teid) + opt_fteid(self.s4_u_sgsn_f_teid) + opt_fteid(self.s5_s8_u_sgw_f_teid) + opt_fteid(self.s5_s8_u_pgw_f_teid) + opt_fteid(self.s12_rnc_f_teid) + opt_fteid(self.s2b_u_epdg_f_teid));
        }
        if let Some(ie) = &self.s2a_u_twan_f_teid {
            ie.generate(buffer);
        }
        proof {
            assert(buffer@ =~= o + self.eps_bearer_id.encoding() + opt_fteid(self.s1_u_enodeb_f_teid) + opt_fteid(self.s4_u_sgsn_f_teid) + opt_fteid(self.s5_s8_u_sgw_f_teid) + opt_fteid(self.s5_s8_u_pgw_f_teid) + opt_fteid(self.s12_rnc_f_teid) + opt_fteid(self.s2b_u_epdg_f_teid) + opt_fteid(self.s2a_u_twan_f_teid));
        }
        proof {
            vstd::seq_lib::lemma_concat_associative(o, self.eps_bearer_id.encoding(), opt_fteid(self.s1_u_enodeb_f_teid));
            vstd::seq_lib::lemma_concat_associative(o, self.eps_bearer_id.encoding() + opt_fteid(self.s1_u_enodeb_f_teid), opt_fteid(self.s4_u_sgsn_f_teid));
            vstd::seq_lib::lemma_concat_associative(o, self.eps_bearer_id.encoding() + opt_fteid(self.s1_u_enodeb_f_teid) + opt_fteid(self.s4_u_sgsn_f_teid), opt_fteid(self.s5_s8_u_sgw_f_teid));
            vstd::seq_lib::lemma_concat_associative(o, self.eps_bearer_id.encoding() + opt_fteid(self.s1_u_enodeb_f_teid) + opt_fteid(self.s4_u_sgsn_f_teid) + opt_fteid(self.s5_s8_u_sgw_f_teid), opt_fteid(self.s5_s8_u_pgw_f_teid));
            vstd::seq_lib::lemma_concat_associative(o, self.eps_bearer_id.encoding() + opt_fteid(self.s1_u_enodeb_f_teid) + opt_fteid(self.s4_u_sgsn_f_teid) + opt_fteid(self.s5_s8_u_sgw_f_teid) + opt_fteid(self.s5_s8_u_pgw_f_teid), opt_fteid(self.s12_rnc_f_teid));
            vstd::seq_lib::lemma_concat_associative(o, self.eps_bearer_id.encoding() + opt_fteid(self.s1_u_enodeb_f_teid) + opt_fteid(self.s4_u_sgsn_f_teid) + opt_fteid(self.s5_s8_u_sgw_f_teid) + opt_fteid(self.s5_s8_u_pgw_f_teid) + opt_fteid(self.s12_rnc_f_teid), opt_fteid(self.s2b_u_epdg_f_teid));
            vstd::seq_lib::lemma_concat_associative(o, self.eps_bearer_id.encoding() + opt_fteid(self.s1_u_enodeb_f_teid) + opt_fteid(self.s4_u_sgsn_f_teid) + opt_fteid(self.s5_s8_u_sgw_f_teid) + opt_fteid(self.s5_s8_u_pgw_f_teid) + opt_fteid(self.s12_rnc_f_teid) + opt_fteid(self.s2b_u_epdg_f_teid), opt_fteid(self.s2a_u_twan_f_teid));
            assert(buffer@ == o + self.body_front());
        }
        buffer.len() - start
    }

    /// Sums the lengths of the bearer id and the first seven F-TEID slots.
    #[verifier::rlimit(100)]
    fn body_front_length(&self) -> (r: u16)
        requires
            self.wf(),
        ensures
            r == self.body_front().len(),
    {
        proof {
            self.lemma_front_slots_len();
        }
        let mut length: u16 = self.eps_bearer_id.length();
        if let Some(ie) = &self.s1_u_enodeb_f_teid {
            length = length + ie.length();
        }
        if let Some(ie) = &self.s4_u_sgsn_f_teid {
            length = length + ie.length();
        }
        if let Some(ie) = &self.s5_s8_u_sgw_f_teid {
            length = length + ie.length();
        }
        if let Some(ie) = &self.s5_s8_u_pgw_f_teid {
            length = length + ie.length();
        }
        if let Some(ie) = &self.s12_rnc_f_teid {
            length = length + ie.length();
        }
        if let Some(ie) = &self.s2b_u_epdg_f_teid {
            length = length + ie.length();
        }
        if let Some(ie) = &self.s2a_u_twan_f_teid {
            length = length + ie.length();
        }
        length
    }

    /// Every F-TEID slot's image is at most 29 octets, so the front of the
    /// body is at most 208.
    #[verifier::rlimit(100)]
    proof fn lemma_front_slots_len(&self)
        ensures
            self.body_front().len() <= 208,
            opt_fteid(self.s1_u_enodeb_f_teid).len() <= 29,
            opt_fteid(self.s4_u_sgsn_f_teid).len() <= 29,
            opt_fteid(self.s5_s8_u_sgw_f_teid).len() <= 29,
            opt_fteid(self.s5_s8_u_pgw_f_teid).len() <= 29,
            opt_fteid(self.s12_rnc_f_teid).len() <= 29,
            opt_fteid(self.s2b_u_epdg_f_teid).len() <= 29,
            opt_fteid(self.s2a_u_twan_f_teid).len() <= 29,
            opt_fteid(self.s11_u_mme_f_teid).len() <= 29,
    {
        if let Some(ie) = self.s1_u_enodeb_f_teid {
            ie.lemma_encoding_len();
        }
        if let Some(ie) = self.s4_u_sgsn_f_teid {
            ie.lemma_encoding_len();
        }
        if let Some(ie) = self.s5_s8_u_sgw_f_teid {
            ie.lemma_encoding_len();
        }
        if let Some(ie) = self.s5_s8_u_pgw_f_teid {
            ie.lemma_encoding_len();
        }
        if let Some(ie) = self.s12_rnc_f_teid {
            ie.lemma_encoding_len();
        }
        if let Some(ie) = self.s2b_u_epdg_f_teid {
            ie.lemma_encoding_len();
        }
        if let Some(ie) = self.s2a_u_twan_f_teid {
            ie.lemma_encoding_len();
        }
        if let Some(ie) = self.s11_u_mme_f_teid {
            ie.lemma_encoding_len();
        }
    }

    /// The element's image is at most 273 octets.
    pub proof fn lemma_encoding_len(&self)
        ensures
            self.encoding().len() <= 273,
    {
        self.lemma_front_slots_len();
        self.bearer_level_qos.lemma_encoding_len();
    }

    pub fn new(
        eps_bearer_id: ebi::InformationElement,
        bearer_level_qos: bearer_qos::InformationElement,
        instance: u8,
    ) -> (r: Result<Self, GtpError>)
        ensures
            instance > 0xF ==> r == Err::<Self, GtpError>(GtpError::InstanceTooLarge),
            instance <= 0xF ==> (r matches Ok(ie) && ie.instance == instance && ie.eps_bearer_id
                == eps_bearer_id && ie.bearer_level_qos == bearer_level_qos
                && ie.s1_u_enodeb_f_teid is None && ie.s4_u_sgsn_f_teid is None
                && ie.s5_s8_u_sgw_f_teid is None && ie.s5_s8_u_pgw_f_teid is None
                && ie.s12_rnc_f_teid is None && ie.s2b_u_epdg_f_teid is None
                && ie.s2a_u_twan_f_teid is None && ie.s11_u_mme_f_teid is None),
    {
        if instance > 0xF {
            return Err(GtpError::InstanceTooLarge);
        }
        Ok(
            InformationElement {
                instance,
                eps_bearer_id,
                bearer_level_qos,
                s1_u_enodeb_f_teid: None,
                s4_u_sgsn_f_teid: None,
                s5_s8_u_sgw_f_teid: None,
                s5_s8_u_pgw_f_teid: None,
                s12_rnc_f_teid: None,
                s2b_u_epdg_f_teid: None,
                s2a_u_twan_f_teid: None,
                s11_u_mme_f_teid: None,
            },
        )
    }

    #[verifier::rlimit(100)]
    /// Reads one element: the declared body is scanned like a sub-message,
    /// inner F-TEIDs land in the slot their instance nibble names, unknown
    /// or foreign elements are skipped by their declared length.  It fails
    /// exactly when the header cannot be satisfied, an inner element
    /// overruns the body, or a mandatory inner element is missing.
    pub fn parse(buffer: &[u8]) -> (r: Option<(Self, usize)>)
        ensures
            r is Some <==> parse_ok(buffer@),
            r matches Some((ie, n)) ==> {
                &&& buffer@.len() >= 4
                &&& buffer@[0] == 93
                &&& n == 4 + val16(buffer@, 1)
                &&& n <= buffer@.len()
                &&& ie.wf()
                &&& ie.encoding().len() <= n
                &&& ie.instance == buffer@[3] % 16
                &&& (ie.s1_u_enodeb_f_teid matches Some(x) ==> x.spec_instance() == 0)
                &&& (ie.s4_u_sgsn_f_teid matches Some(x) ==> x.spec_instance() == 1)
                &&& (ie.s5_s8_u_sgw_f_teid matches Some(x) ==> x.spec_instance() == 2)
                &&& (ie.s5_s8_u_pgw_f_teid matches Some(x) ==> x.spec_instance() == 3)
                &&& (ie.s12_rnc_f_teid matches Some(x) ==> x.spec_instance() == 4)
                &&& (ie.s2b_u_epdg_f_teid matches Some(x) ==> x.spec_instance() == 5)
                &&& (ie.s2a_u_twan_f_teid matches Some(x) ==> x.spec_instance() == 6)
                &&& (ie.s11_u_mme_f_teid matches Some(x) ==> x.spec_instance() == 7)
                &&& (ie.s1_u_enodeb_f_teid is Some <==> found(
                    buffer@.subrange(4, n as int),
                    87,
                    Some(0),
                ))
                &&& (ie.s4_u_sgsn_f_teid is Some <==> found(
                    buffer@.subrange(4, n as int),
                    87,
                    Some(1),
                ))
                &&& (ie.s5_s8_u_sgw_f_teid is Some <==> found(
                    buffer@.subrange(4, n as int),
                    87,
                    Some(2),
                ))
                &&& (ie.s5_s8_u_pgw_f_teid is Some <==> found(
                    buffer@.subrange(4, n as int),
                    87,
                    Some(3),
                ))
                &&& (ie.s12_rnc_f_teid is Some <==> found(
                    buffer@.subrange(4, n as int),
                    87,
                    Some(4),
                ))
                &&& (ie.s2b_u_epdg_f_teid is Some <==> found(
                    buffer@.subrange(4, n as int),
                    87,
                    Some(5),
                ))
                &&& (ie.s2a_u_twan_f_teid is Some <==> found(
                    buffer@.subrange(4, n as int),
                    87,
                    Some(6),
                ))
                &&& (ie.s11_u_mme_f_teid is Some <==> found(
                    buffer@.subrange(4, n as int),
                    87,
                    Some(7),
                ))
            },
        decreases buffer@.len(), 0int,
    {
        let (length, instance, total) = match read_ie_header(buffer, 93) {
            Some(h) => h,
            None => { return None },
        };
        let ghost inner = buffer@.subrange(4, total as int);
        proof {
            assert(inner.skip(0int) =~= inner);
        }
        let mut slots = Slots {
            eps_bearer_id: None,
            bearer_level_qos: None,
            s1_u_enodeb_f_teid: None,
            s4_u_sgsn_f_teid: None,
            s5_s8_u_sgw_f_teid: None,
            s5_s8_u_pgw_f_teid: None,
            s12_rnc_f_teid: None,
            s2b_u_epdg_f_teid: None,
            s2a_u_twan_f_teid: None,
            s11_u_mme_f_teid: None,
        };
        let mut pos: usize = 4;
        while pos < total
            invariant
                buffer@.len() >= total,
                4 <= pos <= total,
                total == 4 + length,
                buffer@.len() >= 4,
                buffer@[0] == 93,
                length == val16(buffer@, 1),
                inner == buffer@.subrange(4, total as int),
                slots.stored_len() <= pos - 4,
                slots.stored_wf(),
                slots.routed(),
                segments_ok(inner) == segments_ok(inner.skip(pos - 4)),
                found(inner, 73, None) == (slots.eps_bearer_id is Some || found(
                    inner.skip(pos - 4),
                    73,
                    None,
                )),
                found(inner, 80, None) == (slots.bearer_level_qos is Some || found(
                    inner.skip(pos - 4),
                    80,
                    None,
                )),
                found(inner, 87, Some(0)) == (slots.s1_u_enodeb_f_teid is Some || found(
                    inner.skip(pos - 4),
                    87,
                    Some(0),
                )),
                found(inner, 87, Some(1)) == (slots.s4_u_sgsn_f_teid is Some || found(
                    inner.skip(pos - 4),
                    87,
                    Some(1),
                )),
                found(inner, 87, Some(2)) == (slots.s5_s8_u_sgw_f_teid is Some || found(
                    inner.skip(pos - 4),
                    87,
                    Some(2),
                )),
                found(inner, 87, Some(3)) == (slots.s5_s8_u_pgw_f_teid is Some || found(
                    inner.skip(pos - 4),
                    87,
                    Some(3),
                )),
                found(inner, 87, Some(4)) == (slots.s12_rnc_f_teid is Some || found(
                    inner.skip(pos - 4),
                    87,
                    Some(4),
                )),
                found(inner, 87, Some(5)) == (slots.s2b_u_epdg_f_teid is Some || found(
                    inner.skip(pos - 4),
                    87,
                    Some(5),
                )),
                found(inner, 87, Some(6)) == (slots.s2a_u_twan_f_teid is Some || found(
                    inner.skip(pos - 4),
                    87,
                    Some(6),
                )),
                found(inner, 87, Some(7)) == (slots.s11_u_mme_f_teid is Some || found(
                    inner.skip(pos - 4),
                    87,
                    Some(7),
                )),
            decreases total - pos,
        {
            let ghost s = inner.skip(pos - 4);
            proof {
                assert(s =~= buffer@.subrange(pos as int, total as int));
            }
            match IEEnum::parse(&buffer[pos..total]) {
                Some((ie, ie_pos)) => {
                    proof {
                        lemma_scan_step(s);
                        assert(inner.skip(pos - 4).skip(4 + val16(s, 1)) =~= inner.skip(
                            pos + ie_pos - 4,
                        ));
                    }
                    slots.stash(ie, Ghost((pos + ie_pos - 4) as int));
                    pos = pos + ie_pos;
                },
                None => {
                    if total - pos < 3 {
                        proof {
                            lemma_scan_dead(s);
                        }
                        return None;
                    }
                    let skip = IEEnum::skip_parsing(&buffer[pos..total]);
                    if skip > total - pos {
                        proof {
                            lemma_scan_dead(s);
                        }
                        return None;
                    }
                    proof {
                        lemma_scan_step(s);
                        assert(inner.skip(pos - 4).skip(4 + val16(s, 1)) =~= inner.skip(
                            pos + skip - 4,
                        ));
                    }
                    pos = pos + skip;
                },
            }
        }
        proof {
            lemma_scan_empty(inner.skip(pos - 4));
        }
        let eps_bearer_id = slots.eps_bearer_id;
        let bearer_level_qos = slots.bearer_level_qos;
        let s1_u_enodeb_f_teid = slots.s1_u_enodeb_f_teid;
        let s4_u_sgsn_f_teid = slots.s4_u_sgsn_f_teid;
        let s5_s8_u_sgw_f_teid = slots.s5_s8_u_sgw_f_teid;
        let s5_s8_u_pgw_f_teid = slots.s5_s8_u_pgw_f_teid;
        let s12_rnc_f_teid = slots.s12_rnc_f_teid;
        let s2b_u_epdg_f_teid = slots.s2b_u_epdg_f_teid;
        let s2a_u_twan_f_teid = slots.s2a_u_twan_f_teid;
        let s11_u_mme_f_teid = slots.s11_u_mme_f_teid;
        match (eps_bearer_id, bearer_level_qos) {
            (Some(eps_bearer_id), Some(bearer_level_qos)) => Some(
                (
                    InformationElement {
                        instance,
                        eps_bearer_id,
                        bearer_level_qos,
                        s1_u_enodeb_f_teid,
                        s4_u_sgsn_f_teid,
                        s5_s8_u_sgw_f_teid,
                        s5_s8_u_pgw_f_teid,
                        s12_rnc_f_teid,
                        s2b_u_epdg_f_teid,
                        s2a_u_twan_f_teid,
                        s11_u_mme_f_teid,
                    },
                    total,
                ),
            ),
            _ => None,
        }
    }

    pub fn set_s1_u_enodeb_f_teid(
        &mut self,
        teid: u32,
        ipv4_address: Option<Ipv4Address>,
        ipv6_address: Option<Ipv6Address>,
    )
        ensures
            *final(self) == (InformationElement {
                s1_u_enodeb_f_teid: final(self).s1_u_enodeb_f_teid,
                ..*old(self)
            }),
            final(self).s1_u_enodeb_f_teid matches Some(ie) && ie == (f_teid::InformationElement {
                instance: 0u8,
                interface_type: InterfaceType::S1UENodeBGtpU,
                teid,
                ipv4_address,
                ipv6_address,
            }),
    {
        self.s1_u_enodeb_f_teid = Some(
            f_teid::InformationElement {
                instance: 0,
                interface_type: InterfaceType::S1UENodeBGtpU,
                teid,
                ipv4_address,
                ipv6_address,
            },
        );
    }

    pub fn unset_s1_u_enodeb_f_teid(&mut self)
        ensures
            *final(self) == (InformationElement { s1_u_enodeb_f_teid: None, ..*old(self) }),
    {
        self.s1_u_enodeb_f_teid = None;
    }

    pub fn set_s4_u_sgsn_f_teid(
        &mut self,
        teid: u32,
        ipv4_address: Option<Ipv4Address>,
        ipv6_address: Option<Ipv6Address>,
    )
        ensures
            *final(self) == (InformationElement {
                s4_u_sgsn_f_teid: final(self).s4_u_sgsn_f_teid,
                ..*old(self)
            }),
            final(self).s4_u_sgsn_f_teid matches Some(ie) && ie == (f_teid::InformationElement {
                instance: 1u8,
                interface_type: InterfaceType::S4SgsnGtpU,
                teid,
                ipv4_address,
                ipv6_address,
            }),
    {
        self.s4_u_sgsn_f_teid = Some(
            f_teid::InformationElement {
                instance: 1,
                interface_type: InterfaceType::S4SgsnGtpU,
                teid,
                ipv4_address,
                ipv6_address,
            },
        );
    }

    pub fn unset_s4_u_sgsn_f_teid(&mut self)
        ensures
            *final(self) == (InformationElement { s4_u_sgsn_f_teid: None, ..*old(self) }),
    {
        self.s4_u_sgsn_f_teid = None;
    }

    pub fn set_s5_s8_u_sgw_f_teid(
        &mut self,
        teid: u32,
        ipv4_address: Option<Ipv4Address>,
        ipv6_address: Option<Ipv6Address>,
    )
        ensures
            *final(self) == (InformationElement {
                s5_s8_u_sgw_f_teid: final(self).s5_s8_u_sgw_f_teid,
                ..*old(self)
            }),
            final(self).s5_s8_u_sgw_f_teid matches Some(ie) && ie == (f_teid::InformationElement {
                instance: 2u8,
                interface_type: InterfaceType::S5S8SgwGtpU,
                teid,
                ipv4_address,
                ipv6_address,
            }),
    {
        self.s5_s8_u_sgw_f_teid = Some(
            f_teid::InformationElement {
                instance: 2,
                interface_type: InterfaceType::S5S8SgwGtpU,
                teid,
                ipv4_address,
                ipv6_address,
            },
        );
    }

    pub fn unset_s5_s8_u_sgw_f_teid(&mut self)
        ensures
            *final(self) == (InformationElement { s5_s8_u_sgw_f_teid: None, ..*old(self) }),
    {
        self.s5_s8_u_sgw_f_teid = None;
    }

    pub fn set_s5_s8_u_pgw_f_teid(
        &mut self,
        teid: u32,
        ipv4_address: Option<Ipv4Address>,
        ipv6_address: Option<Ipv6Address>,
    )
        ensures
            *final(self) == (InformationElement {
                s5_s8_u_pgw_f_teid: final(self).s5_s8_u_pgw_f_teid,
                ..*old(self)
            }),
            final(self).s5_s8_u_pgw_f_teid matches Some(ie) && ie == (f_teid::InformationElement {
                instance: 3u8,
                interface_type: InterfaceType::S5S8PgwGtpU,
                teid,
                ipv4_address,
                ipv6_address,
            }),
    {
        self.s5_s8_u_pgw_f_teid = Some(
            f_teid::InformationElement {
                instance: 3,
                interface_type: InterfaceType::S5S8PgwGtpU,
                teid,
                ipv4_address,
                ipv6_address,
            },
        );
    }

    pub fn unset_s5_s8_u_pgw_f_teid(&mut self)
        ensures
            *final(self) == (InformationElement { s5_s8_u_pgw_f_teid: None, ..*old(self) }),
    {
        self.s5_s8_u_pgw_f_teid = None;
    }

    pub fn set_s12_rnc_f_teid(
        &mut self,
        teid: u32,
        ipv4_address: Option<Ipv4Address>,
        ipv6_address: Option<Ipv6Address>,
    )
        ensures
            *final(self) == (InformationElement {
                s12_rnc_f_teid: final(self).s12_rnc_f_teid,
                ..*old(self)
            }),
            final(self).s12_rnc_f_teid matches Some(ie) && ie == (f_teid::InformationElement {
                instance: 4u8,
                interface_type: InterfaceType::S12RncGtpU,
                teid,
                ipv4_address,
                ipv6_address,
            }),
    {
        self.s12_rnc_f_teid = Some(
            f_teid::InformationElement {
                instance: 4,
                interface_type: InterfaceType::S12RncGtpU,
                teid,
                ipv4_address,
                ipv6_address,
            },
        );
    }

    pub fn unset_s12_rnc_f_teid(&mut self)
        ensures
            *final(self) == (InformationElement { s12_rnc_f_teid: None, ..*old(self) }),
    {
        self.s12_rnc_f_teid = None;
    }

    pub fn set_s2b_u_epdg_f_teid(
        &mut self,
        teid: u32,
        ipv4_address: Option<Ipv4Address>,
        ipv6_address: Option<Ipv6Address>,
    )
        ensures
            *final(self) == (InformationElement {
                s2b_u_epdg_f_teid: final(self).s2b_u_epdg_f_teid,
                ..*old(self)
            }),
            final(self).s2b_u_epdg_f_teid matches Some(ie) && ie == (f_teid::InformationElement {
                instance: 5u8,
                interface_type: InterfaceType::S2bUEPdgGtpU,
                teid,
                ipv4_address,
                ipv6_address,
            }),
    {
        self.s2b_u_epdg_f_teid = Some(
            f_teid::InformationElement {
                instance: 5,
                interface_type: InterfaceType::S2bUEPdgGtpU,
                teid,
                ipv4_address,
                ipv6_address,
            },
        );
    }

    pub fn unset_s2b_u_epdg_f_teid(&mut self)
        ensures
            *final(self) == (InformationElement { s2b_u_epdg_f_teid: None, ..*old(self) }),
    {
        self.s2b_u_epdg_f_teid = None;
    }

    pub fn set_s2a_u_twan_f_teid(
        &mut self,
        teid: u32,
        ipv4_address: Option<Ipv4Address>,
        ipv6_address: Option<Ipv6Address>,
    )
        ensures
            *final(self) == (InformationElement {
                s2a_u_twan_f_teid: final(self).s2a_u_twan_f_teid,
                ..*old(self)
            }),
            final(self).s2a_u_twan_f_teid matches Some(ie) && ie == (f_teid::InformationElement {
                instance: 6u8,
                interface_type: InterfaceType::S2aTwanGtpU,
                teid,
                ipv4_address,
                ipv6_address,
            }),
    {
        self.s2a_u_twan_f_teid = Some(
            f_teid::InformationElement {
                instance: 6,
                interface_type: InterfaceType::S2aTwanGtpU,
                teid,
                ipv4_address,
                ipv6_address,
            },
        );
    }

    pub fn unset_s2a_u_twan_f_teid(&mut self)
        ensures
            *final(self) == (InformationElement { s2a_u_twan_f_teid: None, ..*old(self) }),
    {
        self.s2a_u_twan_f_teid = None;
    }

    pub fn set_s11_u_mme_f_teid(
        &mut self,
        teid: u32,
        ipv4_address: Option<Ipv4Address>,
        ipv6_address: Option<Ipv6Address>,
    )
        ensures
            *final(self) == (InformationElement {
                s11_u_mme_f_teid: final(self).s11_u_mme_f_teid,
                ..*old(self)
            }),
            final(self).s11_u_mme_f_teid matches Some(ie) && ie == (f_teid::InformationElement {
                instance: 7u8,
                interface_type: InterfaceType::S11MmeGtpU,
                teid,
                ipv4_address,
                ipv6_address,
            }),
    {
        self.s11_u_mme_f_teid = Some(
            f_teid::InformationElement {
                instance: 7,
                interface_type: InterfaceType::S11MmeGtpU,
                teid,
                ipv4_address,
                ipv6_address,
            },
        );
    }

    pub fn unset_s11_u_mme_f_teid(&mut self)
        ensures
            *final(self) == (InformationElement { s11_u_mme_f_teid: None, ..*old(self) }),
    {
        self.s11_u_mme_f_teid = None;
    }
}

impl InformationElementTraits for InformationElement {
    open spec fn encoding(&self) -> Seq<u8> {
        ie_header(93, self.body().len() as int, self.instance) + self.body()
    }

    open spec fn spec_type(&self) -> InformationElementType {
        InformationElementType::BearerContext
    }

    open spec fn spec_instance(&self) -> u8 {
        self.instance
    }

    open spec fn with_instance(&self, instance: u8) -> Self {
        InformationElement { instance, ..*self }
    }

    open spec fn wf(&self) -> bool {
        &&& self.instance <= 0xF
        &&& self.eps_bearer_id.wf()
        &&& self.bearer_level_qos.wf()
        &&& (self.s1_u_enodeb_f_teid matches Some(ie) ==> ie.wf())
        &&& (self.s4_u_sgsn_f_teid matches Some(ie) ==> ie.wf())
        &&& (self.s5_s8_u_sgw_f_teid matches Some(ie) ==> ie.wf())
        &&& (self.s5_s8_u_pgw_f_teid matches Some(ie) ==> ie.wf())
        &&& (self.s12_rnc_f_teid matches Some(ie) ==> ie.wf())
        &&& (self.s2b_u_epdg_f_teid matches Some(ie) ==> ie.wf())
        &&& (self.s2a_u_twan_f_teid matches Some(ie) ==> ie.wf())
        &&& (self.s11_u_mme_f_teid matches Some(ie) ==> ie.wf())
    }

    fn information_element_type(&self) -> (r: InformationElementType) {
        InformationElementType::BearerContext
    }

    fn instance(&self) -> (r: u8) {
        self.instance
    }

    fn set_instance(&mut self, instance: u8) -> (r: Result<u8, GtpError>) {
        if instance > 0xF {
            Err(GtpError::InstanceTooLarge)
        } else {
            self.instance = instance;
            Ok(instance)
        }
    }

    #[verifier::rlimit(100)]
    fn length(&self) -> (r: u16) {
        proof {
            self.lemma_front_slots_len();
            self.bearer_level_qos.lemma_encoding_len();
        }
        let mut length: u16 = 4 + self.body_front_length();
        length = length + self.bearer_level_qos.length();
        if let Some(ie) = &self.s11_u_mme_f_teid {
            length = length + ie.length();
        }
        length
    }

    #[verifier::rlimit(100)]
    fn generate(&self, buffer: &mut Vec<u8>) -> (n: usize) {
        let body_len = self.length() - 4;
        write_ie_header(buffer, 93, body_len, self.instance);
        let mut pos: usize = 4;
        pos = pos + self.generate_body_front(buffer);
        pos = pos + self.bearer_level_qos.generate(buffer);
        if let Some(ie) = &self.s11_u_mme_f_teid {
            pos = pos + ie.generate(buffer);
        }
        assert(buffer@ =~= old(buffer)@ + self.encoding());
        pos
    }
}

} // verus!
