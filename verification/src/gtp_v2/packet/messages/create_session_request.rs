//! Create Session Request message (GTPv2): typed required fields (RAT type,
//! sender F-TEID for the control plane, APN, at least one bearer context to
//! be created) and optional elements, generated in the order the catalog
//! mandates.  F-TEIDs and bearer contexts are told apart by their instance:
//! 0 is the sender (or a context to be created), 1 the PGW S5/S8 control
//! address (or a context to be removed).

use vstd::prelude::*;

use crate::bytes::cat_bytes;
use crate::errors::GtpError;
use crate::net::{Ipv4Address, Ipv6Address};

use super::{MessageTraits, MessageType};
use crate::bytes::val16;
use super::information_elements::{
    InformationElement,
    InformationElementTraits,
    InformationElementType,
    found,
    lemma_scan_dead,
    lemma_scan_empty,
    lemma_scan_step,
    segments_ok,
    opt_enc,
    opt_wf,
    apn,
    bearer_context,
    f_teid,
    rat_type,
    imsi,
    pdn_type,
    pdn_address_allocation,
    msisdn,
    user_location_information,
    mei,
    serving_network,
    selection_mode,
    apn_restriction,
    ambr,
    ue_time_zone,
    charging_characteristics,
};
use super::information_elements::f_teid::InterfaceType;

verus! {

/// The inputs `parse` accepts: a buffer a length field could declare, whose
/// element scan runs to the end and meets the four mandatory elements: a RAT
/// type, a sender F-TEID (instance 0), an APN, and a bearer context to be
/// created (instance 0).
pub open spec fn parse_ok(b: Seq<u8>) -> bool {
    &&& b.len() <= 0xFFFF
    &&& segments_ok(b)
    &&& found(b, 82, None)
    &&& found(b, 87, Some(0))
    &&& found(b, 71, None)
    &&& found(b, 93, Some(0))
}

/// The concatenated images of a list of bearer contexts.
pub open spec fn bcs_encoding(s: Seq<bearer_context::InformationElement>) -> Seq<u8> {
    cat_bytes(s, |ie: bearer_context::InformationElement| ie.encoding())
}

/// One more context appends its image.
pub proof fn lemma_bcs_encoding_take_step(s: Seq<bearer_context::InformationElement>, i: int)
    requires
        0 <= i < s.len(),
    ensures
        bcs_encoding(s.take(i + 1)) == bcs_encoding(s.take(i)) + s[i].encoding(),
{
    assert(s.take(i + 1).drop_last() =~= s.take(i));
    assert(s.take(i + 1).last() == s[i]);
}

/// A prefix's image is no longer than the whole list's.
pub proof fn lemma_bcs_encoding_take_len(s: Seq<bearer_context::InformationElement>, i: int)
    requires
        0 <= i <= s.len(),
    ensures
        bcs_encoding(s.take(i)).len() <= bcs_encoding(s).len(),
    decreases s.len() - i,
{
    if i == s.len() {
        assert(s.take(i) =~= s);
    } else {
        lemma_bcs_encoding_take_step(s, i);
        lemma_bcs_encoding_take_len(s, i + 1);
    }
}

/// Appending a context appends its image.
pub proof fn lemma_bcs_encoding_push(
    s: Seq<bearer_context::InformationElement>,
    x: bearer_context::InformationElement,
)
    ensures
        bcs_encoding(s.push(x)) == bcs_encoding(s) + x.encoding(),
{
    assert(s.push(x).drop_last() =~= s);
    assert(s.push(x).last() == x);
}

/// Every context in the list is sound.
pub open spec fn bcs_wf(s: Seq<bearer_context::InformationElement>) -> bool {
    forall|i: int| 0 <= i < s.len() ==> (#[trigger] s[i]).wf()
}

/// Sums the lengths of a list of bearer contexts.
pub fn bcs_length(v: &Vec<bearer_context::InformationElement>) -> (r: u16)
    requires
        bcs_wf(v@),
        bcs_encoding(v@).len() <= 0xFFFF,
    ensures
        r == bcs_encoding(v@).len(),
{
    let ghost s = v@;
    let mut length: u16 = 0;
    let n = v.len();
    let mut i: usize = 0;
    while i < n
        invariant
            bcs_wf(s),
            bcs_encoding(s).len() <= 0xFFFF,
            s == v@,
            n == s.len(),
            i <= n,
            length == bcs_encoding(s.take(i as int)).len(),
        decreases n - i,
    {
        proof {
            lemma_bcs_encoding_take_step(s, i as int);
            lemma_bcs_encoding_take_len(s, i + 1);
        }
        let ie_len = v[i].length();
        length = length + ie_len;
        i = i + 1;
    }
    proof {
        assert(s.take(n as int) =~= s);
    }
    length
}

/// Writes a list of bearer contexts.
#[verifier::rlimit(100)]
pub fn bcs_generate(v: &Vec<bearer_context::InformationElement>, buffer: &mut Vec<u8>) -> (n: usize)
    requires
        bcs_wf(v@),
        bcs_encoding(v@).len() <= 0xFFFF,
    ensures
        final(buffer)@ == old(buffer)@ + bcs_encoding(v@),
        n == bcs_encoding(v@).len(),
{
    let ghost s = v@;
    let count = v.len();
    let mut pos: usize = 0;
    let mut i: usize = 0;
    while i < count
        invariant
            bcs_wf(s),
            bcs_encoding(s).len() <= 0xFFFF,
            s == v@,
            count == s.len(),
            i <= count,
            pos == bcs_encoding(s.take(i as int)).len(),
            buffer@ =~= old(buffer)@ + bcs_encoding(s.take(i as int)),
        decreases count - i,
    {
        proof {
            lemma_bcs_encoding_take_step(s, i as int);
            lemma_bcs_encoding_take_len(s, i + 1);
        }
        let ie_size = v[i].generate(buffer);
        pos = pos + ie_size;
        i = i + 1;
    }
    proof {
        assert(s.take(count as int) =~= s);
    }
    pos
}


struct Slots {
    imsi: Option<imsi::InformationElement>,
    msisdn: Option<msisdn::InformationElement>,
    mei: Option<mei::InformationElement>,
    uli: Option<user_location_information::InformationElement>,
    serving_network: Option<serving_network::InformationElement>,
    rat_type: Option<rat_type::InformationElement>,
    sender_f_teid_for_control_plane: Option<f_teid::InformationElement>,
    pgw_s5_s8_for_control_plane: Option<f_teid::InformationElement>,
    apn: Option<apn::InformationElement>,
    selection_mode: Option<selection_mode::InformationElement>,
    pdn_type: Option<pdn_type::InformationElement>,
    pdn_address_allocation: Option<pdn_address_allocation::InformationElement>,
    maximum_apn_restriction: Option<apn_restriction::InformationElement>,
    apn_ambr: Option<ambr::InformationElement>,
    bearer_contexts_to_be_created: Vec<bearer_context::InformationElement>,
    bearer_contexts_to_be_removed: Vec<bearer_context::InformationElement>,
    ue_time_zone: Option<ue_time_zone::InformationElement>,
    charging_characteristics: Option<charging_characteristics::InformationElement>,
}

impl Slots {
    /// The combined image length of the filled slots.
    spec fn stored_len(&self) -> int {
        0int + opt_enc(self.imsi).len() + opt_enc(self.msisdn).len() + opt_enc(self.mei).len() + opt_enc(
            self.uli,
        ).len() + opt_enc(self.serving_network).len() + opt_enc(self.rat_type).len() + opt_enc(
            self.sender_f_teid_for_control_plane,
        ).len() + opt_enc(self.pgw_s5_s8_for_control_plane).len() + opt_enc(self.apn).len()
            + opt_enc(self.selection_mode).len() + opt_enc(self.pdn_type).len() + opt_enc(
            self.pdn_address_allocation,
        ).len() + opt_enc(self.maximum_apn_restriction).len() + opt_enc(self.apn_ambr).len()
            + bcs_encoding(self.bearer_contexts_to_be_created@).len() + bcs_encoding(
            self.bearer_contexts_to_be_removed@,
        ).len() + opt_enc(self.ue_time_zone).len() + opt_enc(self.charging_characteristics).len()
    }

    /// Every filled slot is sound.
    spec fn stored_wf(&self) -> bool {
        &&& opt_wf(self.imsi)
        &&& opt_wf(self.msisdn)
        &&& opt_wf(self.mei)
        &&& opt_wf(self.uli)
        &&& opt_wf(self.serving_network)
        &&& opt_wf(self.rat_type)
        &&& opt_wf(self.sender_f_teid_for_control_plane)
        &&& opt_wf(self.pgw_s5_s8_for_control_plane)
        &&& opt_wf(self.apn)
        &&& opt_wf(self.selection_mode)
        &&& opt_wf(self.pdn_type)
        &&& opt_wf(self.pdn_address_allocation)
        &&& opt_wf(self.maximum_apn_restriction)
        &&& opt_wf(self.apn_ambr)
        &&& bcs_wf(self.bearer_contexts_to_be_created@)
        &&& bcs_wf(self.bearer_contexts_to_be_removed@)
        &&& opt_wf(self.ue_time_zone)
        &&& opt_wf(self.charging_characteristics)
    }

    /// The instance-keyed slots hold only elements whose instance names the
    /// slot.
    spec fn routed(&self) -> bool {
        &&& (self.sender_f_teid_for_control_plane matches Some(x) ==> x.spec_instance() == 0)
        &&& (self.pgw_s5_s8_for_control_plane matches Some(x) ==> x.spec_instance() == 1)
        &&& (forall|i: int|
            0 <= i < self.bearer_contexts_to_be_created@.len() ==> (
            #[trigger] self.bearer_contexts_to_be_created@[i]).spec_instance() == 0)
        &&& (forall|i: int|
            0 <= i < self.bearer_contexts_to_be_removed@.len() ==> (
            #[trigger] self.bearer_contexts_to_be_removed@[i]).spec_instance() == 1)
    }

    /// Stores one decoded element into the slot its kind and instance name;
    /// anything else is discarded.
    #[verifier::rlimit(100)]
    fn stash(&mut self, ie: InformationElement, ghost_budget: Ghost<int>, ghost_type: Ghost<u8>, ghost_inst: Ghost<u8>)
        requires
            old(self).stored_wf(),
            old(self).stored_len() <= ghost_budget@ - ie.encoding().len(),
            ie.wf(),
            old(self).routed(),
            Some(ie.spec_type()) == InformationElementType::spec_from_u8(ghost_type@),
            ie.spec_instance() == ghost_inst@,
        ensures
            final(self).stored_wf(),
            final(self).stored_len() <= ghost_budget@,
            final(self).routed(),
            final(self).imsi is Some <==> (old(self).imsi is Some || ghost_type@ == 1),
            final(self).msisdn is Some <==> (old(self).msisdn is Some || ghost_type@ == 76),
            final(self).mei is Some <==> (old(self).mei is Some || ghost_type@ == 75),
            final(self).uli is Some <==> (old(self).uli is Some || ghost_type@ == 86),
            final(self).serving_network is Some <==> (old(self).serving_network is Some
                || ghost_type@ == 83),
            final(self).rat_type is Some <==> (old(self).rat_type is Some || ghost_type@ == 82),
            final(self).apn is Some <==> (old(self).apn is Some || ghost_type@ == 71),
            final(self).selection_mode is Some <==> (old(self).selection_mode is Some
                || ghost_type@ == 128),
            final(self).pdn_type is Some <==> (old(self).pdn_type is Some || ghost_type@ == 99),
            final(self).pdn_address_allocation is Some <==> (old(self).pdn_address_allocation
                is Some || ghost_type@ == 79),
            final(self).maximum_apn_restriction is Some <==> (old(self).maximum_apn_restriction
                is Some || ghost_type@ == 127),
            final(self).apn_ambr is Some <==> (old(self).apn_ambr is Some || ghost_type@ == 72),
            final(self).ue_time_zone is Some <==> (old(self).ue_time_zone is Some || ghost_type@
                == 114),
            final(self).charging_characteristics is Some <==> (old(self).charging_characteristics
                is Some || ghost_type@ == 95),
            final(self).sender_f_teid_for_control_plane is Some <==> (old(
                self,
            ).sender_f_teid_for_control_plane is Some || (ghost_type@ == 87 && ghost_inst@ == 0)),
            final(self).pgw_s5_s8_for_control_plane is Some <==> (old(
                self,
            ).pgw_s5_s8_for_control_plane is Some || (ghost_type@ == 87 && ghost_inst@ == 1)),
            final(self).bearer_contexts_to_be_created@.len() > 0 <==> (old(
                self,
            ).bearer_contexts_to_be_created@.len() > 0 || (ghost_type@ == 93 && ghost_inst@
                == 0)),
            final(self).bearer_contexts_to_be_removed@.len() > 0 <==> (old(
                self,
            ).bearer_contexts_to_be_removed@.len() > 0 || (ghost_type@ == 93 && ghost_inst@
                == 1)),
    {
        let t = ie.information_element_type();
        match t {
            InformationElementType::IMSI
            | InformationElementType::MSISDN
            | InformationElementType::MEI
            | InformationElementType::UserLocationInformation
            | InformationElementType::ServingNetwork
            | InformationElementType::RATType
            | InformationElementType::APN
            | InformationElementType::SelectionMode
            | InformationElementType::UETimeZone => self.stash_subscriber(
                ie,
                ghost_budget,
                ghost_type,
                ghost_inst,
            ),
            InformationElementType::BearerContext => self.stash_bearer(
                ie,
                ghost_budget,
                ghost_type,
                ghost_inst,
            ),
            InformationElementType::FTEID => self.stash_fteid(
                ie,
                ghost_budget,
                ghost_type,
                ghost_inst,
            ),
            InformationElementType::PDNType | InformationElementType::PDNAddressAllocation => self
                .stash_pdn(ie, ghost_budget, ghost_type, ghost_inst),
            InformationElementType::APNRestriction
            | InformationElementType::AMBR
            | InformationElementType::ChargingCharacteristics => self.stash_charging(
                ie,
                ghost_budget,
                ghost_type,
                ghost_inst,
            ),
            _ => self.stash_discard(ie, ghost_budget, ghost_type, ghost_inst),
        }
    }

    /// Stores one of the subscriber-identity, location and selection
    /// elements.
    #[verifier::rlimit(100)]
    fn stash_subscriber(&mut self, ie: InformationElement, ghost_budget: Ghost<int>, ghost_type: Ghost<u8>, ghost_inst: Ghost<u8>)
        requires
            old(self).stored_wf(),
            old(self).stored_len() <= ghost_budget@ - ie.encoding().len(),
            ie.wf(),
            old(self).routed(),
            Some(ie.spec_type()) == InformationElementType::spec_from_u8(ghost_type@),
            ie.spec_instance() == ghost_inst@,
            ie is IMSI || ie is MSISDN || ie is MEI || ie is ULI || ie is ServingNetwork || ie
                is RATType || ie is APN || ie is SelectionMode || ie is UETimeZone,
        ensures
            final(self).stored_wf(),
            final(self).stored_len() <= ghost_budget@,
            final(self).routed(),
            final(self).imsi is Some <==> (old(self).imsi is Some || ghost_type@ == 1),
            final(self).msisdn is Some <==> (old(self).msisdn is Some || ghost_type@ == 76),
            final(self).mei is Some <==> (old(self).mei is Some || ghost_type@ == 75),
            final(self).uli is Some <==> (old(self).uli is Some || ghost_type@ == 86),
            final(self).serving_network is Some <==> (old(self).serving_network is Some
                || ghost_type@ == 83),
            final(self).rat_type is Some <==> (old(self).rat_type is Some || ghost_type@ == 82),
            final(self).apn is Some <==> (old(self).apn is Some || ghost_type@ == 71),
            final(self).selection_mode is Some <==> (old(self).selection_mode is Some
                || ghost_type@ == 128),
            final(self).pdn_type is Some <==> (old(self).pdn_type is Some || ghost_type@ == 99),
            final(self).pdn_address_allocation is Some <==> (old(self).pdn_address_allocation
                is Some || ghost_type@ == 79),
            final(self).maximum_apn_restriction is Some <==> (old(self).maximum_apn_restriction
                is Some || ghost_type@ == 127),
            final(self).apn_ambr is Some <==> (old(self).apn_ambr is Some || ghost_type@ == 72),
            final(self).ue_time_zone is Some <==> (old(self).ue_time_zone is Some || ghost_type@
                == 114),
            final(self).charging_characteristics is Some <==> (old(self).charging_characteristics
                is Some || ghost_type@ == 95),
            final(self).sender_f_teid_for_control_plane is Some <==> (old(
                self,
            ).sender_f_teid_for_control_plane is Some || (ghost_type@ == 87 && ghost_inst@ == 0)),
            final(self).pgw_s5_s8_for_control_plane is Some <==> (old(
                self,
            ).pgw_s5_s8_for_control_plane is Some || (ghost_type@ == 87 && ghost_inst@ == 1)),
            final(self).bearer_contexts_to_be_created@.len() > 0 <==> (old(
                self,
            ).bearer_contexts_to_be_created@.len() > 0 || (ghost_type@ == 93 && ghost_inst@
                == 0)),
            final(self).bearer_contexts_to_be_removed@.len() > 0 <==> (old(
                self,
            ).bearer_contexts_to_be_removed@.len() > 0 || (ghost_type@ == 93 && ghost_inst@
                == 1)),
    {
        match ie {
            InformationElement::IMSI(inner) => {
                self.imsi = Some(inner);
            },
            InformationElement::MSISDN(inner) => {
                self.msisdn = Some(inner);
            },
            InformationElement::MEI(inner) => {
                self.mei = Some(inner);
            },
            InformationElement::ULI(inner) => {
                self.uli = Some(inner);
            },
            InformationElement::ServingNetwork(inner) => {
                self.serving_network = Some(inner);
            },
            InformationElement::RATType(inner) => {
                self.rat_type = Some(inner);
            },
            InformationElement::APN(inner) => {
                self.apn = Some(inner);
            },
            InformationElement::SelectionMode(inner) => {
                self.selection_mode = Some(inner);
            },
            InformationElement::UETimeZone(inner) => {
                self.ue_time_zone = Some(inner);
            },
            _ => {},
        }
    }

    /// Stores a bearer context in the list its instance names.
    #[verifier::rlimit(100)]
    fn stash_bearer(&mut self, ie: InformationElement, ghost_budget: Ghost<int>, ghost_type: Ghost<u8>, ghost_inst: Ghost<u8>)
        requires
            old(self).stored_wf(),
            old(self).stored_len() <= ghost_budget@ - ie.encoding().len(),
            ie.wf(),
            old(self).routed(),
            Some(ie.spec_type()) == InformationElementType::spec_from_u8(ghost_type@),
            ie.spec_instance() == ghost_inst@,
            ie is BearerContext,
        ensures
            final(self).stored_wf(),
            final(self).stored_len() <= ghost_budget@,
            final(self).routed(),
            final(self).imsi is Some <==> (old(self).imsi is Some || ghost_type@ == 1),
            final(self).msisdn is Some <==> (old(self).msisdn is Some || ghost_type@ == 76),
            final(self).mei is Some <==> (old(self).mei is Some || ghost_type@ == 75),
            final(self).uli is Some <==> (old(self).uli is Some || ghost_type@ == 86),
            final(self).serving_network is Some <==> (old(self).serving_network is Some
                || ghost_type@ == 83),
            final(self).rat_type is Some <==> (old(self).rat_type is Some || ghost_type@ == 82),
            final(self).apn is Some <==> (old(self).apn is Some || ghost_type@ == 71),
            final(self).selection_mode is Some <==> (old(self).selection_mode is Some
                || ghost_type@ == 128),
            final(self).pdn_type is Some <==> (old(self).pdn_type is Some || ghost_type@ == 99),
            final(self).pdn_address_allocation is Some <==> (old(self).pdn_address_allocation
                is Some || ghost_type@ == 79),
            final(self).maximum_apn_restriction is Some <==> (old(self).maximum_apn_restriction
                is Some || ghost_type@ == 127),
            final(self).apn_ambr is Some <==> (old(self).apn_ambr is Some || ghost_type@ == 72),
            final(self).ue_time_zone is Some <==> (old(self).ue_time_zone is Some || ghost_type@
                == 114),
            final(self).charging_characteristics is Some <==> (old(self).charging_characteristics
                is Some || ghost_type@ == 95),
            final(self).sender_f_teid_for_control_plane is Some <==> (old(
                self,
            ).sender_f_teid_for_control_plane is Some || (ghost_type@ == 87 && ghost_inst@ == 0)),
            final(self).pgw_s5_s8_for_control_plane is Some <==> (old(
                self,
            ).pgw_s5_s8_for_control_plane is Some || (ghost_type@ == 87 && ghost_inst@ == 1)),
            final(self).bearer_contexts_to_be_created@.len() > 0 <==> (old(
                self,
            ).bearer_contexts_to_be_created@.len() > 0 || (ghost_type@ == 93 && ghost_inst@
                == 0)),
            final(self).bearer_contexts_to_be_removed@.len() > 0 <==> (old(
                self,
            ).bearer_contexts_to_be_removed@.len() > 0 || (ghost_type@ == 93 && ghost_inst@
                == 1)),
    {
        match ie {
            InformationElement::BearerContext(inner) => {
                let ghost olds = self.bearer_contexts_to_be_created@;
                let ghost oldr = self.bearer_contexts_to_be_removed@;
                let inner_instance = inner.instance();
                if inner_instance == 0 {
                    self.bearer_contexts_to_be_created.push(inner);
                    proof {
                        lemma_bcs_encoding_push(olds, inner);
                    }
                } else if inner_instance == 1 {
                    self.bearer_contexts_to_be_removed.push(inner);
                    proof {
                        lemma_bcs_encoding_push(oldr, inner);
                    }
                }
            },
            _ => {},
        }
    }

    /// Stores an F-TEID in the slot its instance names.
    #[verifier::rlimit(100)]
    fn stash_fteid(&mut self, ie: InformationElement, ghost_budget: Ghost<int>, ghost_type: Ghost<u8>, ghost_inst: Ghost<u8>)
        requires
            old(self).stored_wf(),
            old(self).stored_len() <= ghost_budget@ - ie.encoding().len(),
            ie.wf(),
            old(self).routed(),
            Some(ie.spec_type()) == InformationElementType::spec_from_u8(ghost_type@),
            ie.spec_instance() == ghost_inst@,
            ie is FTEID,
        ensures
            final(self).stored_wf(),
            final(self).stored_len() <= ghost_budget@,
            final(self).routed(),
            final(self).imsi is Some <==> (old(self).imsi is Some || ghost_type@ == 1),
            final(self).msisdn is Some <==> (old(self).msisdn is Some || ghost_type@ == 76),
            final(self).mei is Some <==> (old(self).mei is Some || ghost_type@ == 75),
            final(self).uli is Some <==> (old(self).uli is Some || ghost_type@ == 86),
            final(self).serving_network is Some <==> (old(self).serving_network is Some
                || ghost_type@ == 83),
            final(self).rat_type is Some <==> (old(self).rat_type is Some || ghost_type@ == 82),
            final(self).apn is Some <==> (old(self).apn is Some || ghost_type@ == 71),
            final(self).selection_mode is Some <==> (old(self).selection_mode is Some
                || ghost_type@ == 128),
            final(self).pdn_type is Some <==> (old(self).pdn_type is Some || ghost_type@ == 99),
            final(self).pdn_address_allocation is Some <==> (old(self).pdn_address_allocation
                is Some || ghost_type@ == 79),
            final(self).maximum_apn_restriction is Some <==> (old(self).maximum_apn_restriction
                is Some || ghost_type@ == 127),
            final(self).apn_ambr is Some <==> (old(self).apn_ambr is Some || ghost_type@ == 72),
            final(self).ue_time_zone is Some <==> (old(self).ue_time_zone is Some || ghost_type@
                == 114),
            final(self).charging_characteristics is Some <==> (old(self).charging_characteristics
                is Some || ghost_type@ == 95),
            final(self).sender_f_teid_for_control_plane is Some <==> (old(
                self,
            ).sender_f_teid_for_control_plane is Some || (ghost_type@ == 87 && ghost_inst@ == 0)),
            final(self).pgw_s5_s8_for_control_plane is Some <==> (old(
                self,
            ).pgw_s5_s8_for_control_plane is Some || (ghost_type@ == 87 && ghost_inst@ == 1)),
            final(self).bearer_contexts_to_be_created@.len() > 0 <==> (old(
                self,
            ).bearer_contexts_to_be_created@.len() > 0 || (ghost_type@ == 93 && ghost_inst@
                == 0)),
            final(self).bearer_contexts_to_be_removed@.len() > 0 <==> (old(
                self,
            ).bearer_contexts_to_be_removed@.len() > 0 || (ghost_type@ == 93 && ghost_inst@
                == 1)),
    {
        match ie {
            InformationElement::FTEID(inner) => {
                let inner_instance = inner.instance();
                if inner_instance == 0 {
                    self.sender_f_teid_for_control_plane = Some(inner);
                } else if inner_instance == 1 {
                    self.pgw_s5_s8_for_control_plane = Some(inner);
                }
            },
            _ => {},
        }
    }

    /// Stores one of the PDN-shape and charging elements; kinds this message
    /// does not carry are discarded.
    #[verifier::rlimit(100)]
    fn stash_pdn(&mut self, ie: InformationElement, ghost_budget: Ghost<int>, ghost_type: Ghost<u8>, ghost_inst: Ghost<u8>)
        requires
            old(self).stored_wf(),
            old(self).stored_len() <= ghost_budget@ - ie.encoding().len(),
            ie.wf(),
            old(self).routed(),
            Some(ie.spec_type()) == InformationElementType::spec_from_u8(ghost_type@),
            ie.spec_instance() == ghost_inst@,
            ie is PDNType || ie is PDNAddressAllocation,
        ensures
            final(self).stored_wf(),
            final(self).stored_len() <= ghost_budget@,
            final(self).routed(),
            final(self).imsi is Some <==> (old(self).imsi is Some || ghost_type@ == 1),
            final(self).msisdn is Some <==> (old(self).msisdn is Some || ghost_type@ == 76),
            final(self).mei is Some <==> (old(self).mei is Some || ghost_type@ == 75),
            final(self).uli is Some <==> (old(self).uli is Some || ghost_type@ == 86),
            final(self).serving_network is Some <==> (old(self).serving_network is Some
                || ghost_type@ == 83),
            final(self).rat_type is Some <==> (old(self).rat_type is Some || ghost_type@ == 82),
            final(self).apn is Some <==> (old(self).apn is Some || ghost_type@ == 71),
            final(self).selection_mode is Some <==> (old(self).selection_mode is Some
                || ghost_type@ == 128),
            final(self).pdn_type is Some <==> (old(self).pdn_type is Some || ghost_type@ == 99),
            final(self).pdn_address_allocation is Some <==> (old(self).pdn_address_allocation
                is Some || ghost_type@ == 79),
            final(self).maximum_apn_restriction is Some <==> (old(self).maximum_apn_restriction
                is Some || ghost_type@ == 127),
            final(self).apn_ambr is Some <==> (old(self).apn_ambr is Some || ghost_type@ == 72),
            final(self).ue_time_zone is Some <==> (old(self).ue_time_zone is Some || ghost_type@
                == 114),
            final(self).charging_characteristics is Some <==> (old(self).charging_characteristics
                is Some || ghost_type@ == 95),
            final(self).sender_f_teid_for_control_plane is Some <==> (old(
                self,
            ).sender_f_teid_for_control_plane is Some || (ghost_type@ == 87 && ghost_inst@ == 0)),
            final(self).pgw_s5_s8_for_control_plane is Some <==> (old(
                self,
            ).pgw_s5_s8_for_control_plane is Some || (ghost_type@ == 87 && ghost_inst@ == 1)),
            final(self).bearer_contexts_to_be_created@.len() > 0 <==> (old(
                self,
            ).bearer_contexts_to_be_created@.len() > 0 || (ghost_type@ == 93 && ghost_inst@
                == 0)),
            final(self).bearer_contexts_to_be_removed@.len() > 0 <==> (old(
                self,
            ).bearer_contexts_to_be_removed@.len() > 0 || (ghost_type@ == 93 && ghost_inst@
                == 1)),
    {
        match ie {
            InformationElement::PDNType(inner) => {
                self.pdn_type = Some(inner);
            },
            InformationElement::PDNAddressAllocation(inner) => {
                self.pdn_address_allocation = Some(inner);
            },
            _ => {},
        }
    }

    /// Stores a restriction, aggregate-rate or charging element; kinds this
    /// message does not carry are discarded.
    #[verifier::rlimit(100)]
    fn stash_charging(&mut self, ie: InformationElement, ghost_budget: Ghost<int>, ghost_type: Ghost<u8>, ghost_inst: Ghost<u8>)
        requires
            old(self).stored_wf(),
            old(self).stored_len() <= ghost_budget@ - ie.encoding().len(),
            ie.wf(),
            old(self).routed(),
            Some(ie.spec_type()) == InformationElementType::spec_from_u8(ghost_type@),
            ie.spec_instance() == ghost_inst@,
            ie is APNRestriction || ie is AMBR || ie is ChargingCharacteristics,
        ensures
            final(self).stored_wf(),
            final(self).stored_len() <= ghost_budget@,
            final(self).routed(),
            final(self).imsi is Some <==> (old(self).imsi is Some || ghost_type@ == 1),
            final(self).msisdn is Some <==> (old(self).msisdn is Some || ghost_type@ == 76),
            final(self).mei is Some <==> (old(self).mei is Some || ghost_type@ == 75),
            final(self).uli is Some <==> (old(self).uli is Some || ghost_type@ == 86),
            final(self).serving_network is Some <==> (old(self).serving_network is Some
                || ghost_type@ == 83),
            final(self).rat_type is Some <==> (old(self).rat_type is Some || ghost_type@ == 82),
            final(self).apn is Some <==> (old(self).apn is Some || ghost_type@ == 71),
            final(self).selection_mode is Some <==> (old(self).selection_mode is Some
                || ghost_type@ == 128),
            final(self).pdn_type is Some <==> (old(self).pdn_type is Some || ghost_type@ == 99),
            final(self).pdn_address_allocation is Some <==> (old(self).pdn_address_allocation
                is Some || ghost_type@ == 79),
            final(self).maximum_apn_restriction is Some <==> (old(self).maximum_apn_restriction
                is Some || ghost_type@ == 127),
            final(self).apn_ambr is Some <==> (old(self).apn_ambr is Some || ghost_type@ == 72),
            final(self).ue_time_zone is Some <==> (old(self).ue_time_zone is Some || ghost_type@
                == 114),
            final(self).charging_characteristics is Some <==> (old(self).charging_characteristics
                is Some || ghost_type@ == 95),
            final(self).sender_f_teid_for_control_plane is Some <==> (old(
                self,
            ).sender_f_teid_for_control_plane is Some || (ghost_type@ == 87 && ghost_inst@ == 0)),
            final(self).pgw_s5_s8_for_control_plane is Some <==> (old(
                self,
            ).pgw_s5_s8_for_control_plane is Some || (ghost_type@ == 87 && ghost_inst@ == 1)),
            final(self).bearer_contexts_to_be_created@.len() > 0 <==> (old(
                self,
            ).bearer_contexts_to_be_created@.len() > 0 || (ghost_type@ == 93 && ghost_inst@
                == 0)),
            final(self).bearer_contexts_to_be_removed@.len() > 0 <==> (old(
                self,
            ).bearer_contexts_to_be_removed@.len() > 0 || (ghost_type@ == 93 && ghost_inst@
                == 1)),
    {
        match ie {
            InformationElement::APNRestriction(inner) => {
                self.maximum_apn_restriction = Some(inner);
            },
            InformationElement::AMBR(inner) => {
                self.apn_ambr = Some(inner);
            },
            InformationElement::ChargingCharacteristics(inner) => {
                self.charging_characteristics = Some(inner);
            },
            _ => {},
        }
    }

    /// Discards an element kind this message does not carry.
    #[verifier::rlimit(100)]
    fn stash_discard(&mut self, ie: InformationElement, ghost_budget: Ghost<int>, ghost_type: Ghost<u8>, ghost_inst: Ghost<u8>)
        requires
            old(self).stored_wf(),
            old(self).stored_len() <= ghost_budget@ - ie.encoding().len(),
            ie.wf(),
            old(self).routed(),
            Some(ie.spec_type()) == InformationElementType::spec_from_u8(ghost_type@),
            ie.spec_instance() == ghost_inst@,
            ie is Cause || ie is Recovery || ie is EBI || ie is BearerQoS,
        ensures
            final(self).stored_wf(),
            final(self).stored_len() <= ghost_budget@,
            final(self).routed(),
            final(self).imsi is Some <==> (old(self).imsi is Some || ghost_type@ == 1),
            final(self).msisdn is Some <==> (old(self).msisdn is Some || ghost_type@ == 76),
            final(self).mei is Some <==> (old(self).mei is Some || ghost_type@ == 75),
            final(self).uli is Some <==> (old(self).uli is Some || ghost_type@ == 86),
            final(self).serving_network is Some <==> (old(self).serving_network is Some
                || ghost_type@ == 83),
            final(self).rat_type is Some <==> (old(self).rat_type is Some || ghost_type@ == 82),
            final(self).apn is Some <==> (old(self).apn is Some || ghost_type@ == 71),
            final(self).selection_mode is Some <==> (old(self).selection_mode is Some
                || ghost_type@ == 128),
            final(self).pdn_type is Some <==> (old(self).pdn_type is Some || ghost_type@ == 99),
            final(self).pdn_address_allocation is Some <==> (old(self).pdn_address_allocation
                is Some || ghost_type@ == 79),
            final(self).maximum_apn_restriction is Some <==> (old(self).maximum_apn_restriction
                is Some || ghost_type@ == 127),
            final(self).apn_ambr is Some <==> (old(self).apn_ambr is Some || ghost_type@ == 72),
            final(self).ue_time_zone is Some <==> (old(self).ue_time_zone is Some || ghost_type@
                == 114),
            final(self).charging_characteristics is Some <==> (old(self).charging_characteristics
                is Some || ghost_type@ == 95),
            final(self).sender_f_teid_for_control_plane is Some <==> (old(
                self,
            ).sender_f_teid_for_control_plane is Some || (ghost_type@ == 87 && ghost_inst@ == 0)),
            final(self).pgw_s5_s8_for_control_plane is Some <==> (old(
                self,
            ).pgw_s5_s8_for_control_plane is Some || (ghost_type@ == 87 && ghost_inst@ == 1)),
            final(self).bearer_contexts_to_be_created@.len() > 0 <==> (old(
                self,
            ).bearer_contexts_to_be_created@.len() > 0 || (ghost_type@ == 93 && ghost_inst@
                == 0)),
            final(self).bearer_contexts_to_be_removed@.len() > 0 <==> (old(
                self,
            ).bearer_contexts_to_be_removed@.len() > 0 || (ghost_type@ == 93 && ghost_inst@
                == 1)),
    {
    }
}

/// The scan's per-slot bookkeeping: each tracked element kind is in the
/// whole buffer exactly when its slot is already filled or the unread
/// remainder still holds one.
#[verifier::opaque]
spec fn tracks(b: Seq<u8>, pos: int, slots: Slots) -> bool {
    &&& found(b, 82, None) == (slots.rat_type is Some || found(b.skip(pos), 82, None))
    &&& found(b, 87, Some(0)) == (slots.sender_f_teid_for_control_plane is Some || found(
        b.skip(pos),
        87,
        Some(0),
    ))
    &&& found(b, 71, None) == (slots.apn is Some || found(b.skip(pos), 71, None))
    &&& found(b, 93, Some(0)) == (slots.bearer_contexts_to_be_created@.len() > 0 || found(
        b.skip(pos),
        93,
        Some(0),
    ))
    &&& found(b, 93, Some(1)) == (slots.bearer_contexts_to_be_removed@.len() > 0 || found(
        b.skip(pos),
        93,
        Some(1),
    ))
    &&& found(b, 1, None) == (slots.imsi is Some || found(b.skip(pos), 1, None))
    &&& found(b, 76, None) == (slots.msisdn is Some || found(b.skip(pos), 76, None))
    &&& found(b, 75, None) == (slots.mei is Some || found(b.skip(pos), 75, None))
    &&& found(b, 86, None) == (slots.uli is Some || found(b.skip(pos), 86, None))
    &&& found(b, 83, None) == (slots.serving_network is Some || found(b.skip(pos), 83, None))
    &&& found(b, 87, Some(1)) == (slots.pgw_s5_s8_for_control_plane is Some || found(
        b.skip(pos),
        87,
        Some(1),
    ))
    &&& found(b, 128, None) == (slots.selection_mode is Some || found(b.skip(pos), 128, None))
    &&& found(b, 99, None) == (slots.pdn_type is Some || found(b.skip(pos), 99, None))
    &&& found(b, 79, None) == (slots.pdn_address_allocation is Some || found(
        b.skip(pos),
        79,
        None,
    ))
    &&& found(b, 127, None) == (slots.maximum_apn_restriction is Some || found(
        b.skip(pos),
        127,
        None,
    ))
    &&& found(b, 72, None) == (slots.apn_ambr is Some || found(b.skip(pos), 72, None))
    &&& found(b, 114, None) == (slots.ue_time_zone is Some || found(b.skip(pos), 114, None))
    &&& found(b, 95, None) == (slots.charging_characteristics is Some || found(
        b.skip(pos),
        95,
        None,
    ))
}

/// One scan step over a decoded element keeps the bookkeeping: the element
/// lands in the slot its kind and instance name, and the remainder shrinks
/// by the element's size.
#[verifier::rlimit(100)]
proof fn lemma_tracks_step(
    b: Seq<u8>,
    pos: int,
    m: int,
    old_slots: Slots,
    new_slots: Slots,
    t0: u8,
    i0: u8,
)
    requires
        0 <= pos,
        pos + m <= b.len(),
        tracks(b, pos, old_slots),
        b.skip(pos).len() >= 3,
        m == 4 + val16(b.skip(pos), 1),
        super::information_elements::element_ok(b.skip(pos)),
        t0 == b.skip(pos)[0],
        i0 == b.skip(pos)[3] % 16,
        new_slots.imsi is Some <==> (old_slots.imsi is Some || t0 == 1),
        new_slots.msisdn is Some <==> (old_slots.msisdn is Some || t0 == 76),
        new_slots.mei is Some <==> (old_slots.mei is Some || t0 == 75),
        new_slots.uli is Some <==> (old_slots.uli is Some || t0 == 86),
        new_slots.serving_network is Some <==> (old_slots.serving_network is Some || t0 == 83),
        new_slots.rat_type is Some <==> (old_slots.rat_type is Some || t0 == 82),
        new_slots.apn is Some <==> (old_slots.apn is Some || t0 == 71),
        new_slots.selection_mode is Some <==> (old_slots.selection_mode is Some || t0 == 128),
        new_slots.pdn_type is Some <==> (old_slots.pdn_type is Some || t0 == 99),
        new_slots.pdn_address_allocation is Some <==> (old_slots.pdn_address_allocation is Some
            || t0 == 79),
        new_slots.maximum_apn_restriction is Some <==> (old_slots.maximum_apn_restriction is Some
            || t0 == 127),
        new_slots.apn_ambr is Some <==> (old_slots.apn_ambr is Some || t0 == 72),
        new_slots.ue_time_zone is Some <==> (old_slots.ue_time_zone is Some || t0 == 114),
        new_slots.charging_characteristics is Some <==> (old_slots.charging_characteristics
            is Some || t0 == 95),
        new_slots.sender_f_teid_for_control_plane is Some <==> (
        old_slots.sender_f_teid_for_control_plane is Some || (t0 == 87 && i0 == 0)),
        new_slots.pgw_s5_s8_for_control_plane is Some <==> (old_slots.pgw_s5_s8_for_control_plane
            is Some || (t0 == 87 && i0 == 1)),
        new_slots.bearer_contexts_to_be_created@.len() > 0 <==> (
        old_slots.bearer_contexts_to_be_created@.len() > 0 || (t0 == 93 && i0 == 0)),
        new_slots.bearer_contexts_to_be_removed@.len() > 0 <==> (
        old_slots.bearer_contexts_to_be_removed@.len() > 0 || (t0 == 93 && i0 == 1)),
    ensures
        tracks(b, pos + m, new_slots),
{
    reveal(tracks);
    let s = b.skip(pos);
    lemma_scan_step(s);
    assert(s.skip(m) =~= b.skip(pos + m));
}

/// Skipping an element the catalog refuses keeps the bookkeeping: such a
/// segment satisfies no tracked kind.
#[verifier::rlimit(100)]
proof fn lemma_tracks_skip(b: Seq<u8>, pos: int, m: int, slots: Slots)
    requires
        0 <= pos,
        pos + m <= b.len(),
        tracks(b, pos, slots),
        b.skip(pos).len() >= 3,
        m == 4 + val16(b.skip(pos), 1),
        !super::information_elements::element_ok(b.skip(pos)),
    ensures
        tracks(b, pos + m, slots),
{
    reveal(tracks);
    let s = b.skip(pos);
    lemma_scan_step(s);
    assert(s.skip(m) =~= b.skip(pos + m));
}

/// Before anything is read, nothing is stored and the whole buffer is the
/// remainder.
proof fn lemma_tracks_start(b: Seq<u8>, slots: Slots)
    requires
        slots.imsi is None,
        slots.msisdn is None,
        slots.mei is None,
        slots.uli is None,
        slots.serving_network is None,
        slots.rat_type is None,
        slots.sender_f_teid_for_control_plane is None,
        slots.pgw_s5_s8_for_control_plane is None,
        slots.apn is None,
        slots.selection_mode is None,
        slots.pdn_type is None,
        slots.pdn_address_allocation is None,
        slots.maximum_apn_restriction is None,
        slots.apn_ambr is None,
        slots.bearer_contexts_to_be_created@.len() == 0,
        slots.bearer_contexts_to_be_removed@.len() == 0,
        slots.ue_time_zone is None,
        slots.charging_characteristics is None,
    ensures
        tracks(b, 0, slots),
{
    reveal(tracks);
    assert(b.skip(0int) =~= b);
}

/// Once the scan is through, each tracked element kind was in the buffer
/// exactly when its slot is filled.
proof fn lemma_tracks_end(b: Seq<u8>, pos: int, slots: Slots)
    requires
        tracks(b, pos, slots),
        pos == b.len(),
    ensures
        found(b, 82, None) == slots.rat_type is Some,
        found(b, 87, Some(0)) == slots.sender_f_teid_for_control_plane is Some,
        found(b, 71, None) == slots.apn is Some,
        found(b, 93, Some(0)) == (slots.bearer_contexts_to_be_created@.len() > 0),
        found(b, 93, Some(1)) == (slots.bearer_contexts_to_be_removed@.len() > 0),
        found(b, 1, None) == slots.imsi is Some,
        found(b, 76, None) == slots.msisdn is Some,
        found(b, 75, None) == slots.mei is Some,
        found(b, 86, None) == slots.uli is Some,
        found(b, 83, None) == slots.serving_network is Some,
        found(b, 87, Some(1)) == slots.pgw_s5_s8_for_control_plane is Some,
        found(b, 128, None) == slots.selection_mode is Some,
        found(b, 99, None) == slots.pdn_type is Some,
        found(b, 79, None) == slots.pdn_address_allocation is Some,
        found(b, 127, None) == slots.maximum_apn_restriction is Some,
        found(b, 72, None) == slots.apn_ambr is Some,
        found(b, 114, None) == slots.ue_time_zone is Some,
        found(b, 95, None) == slots.charging_characteristics is Some,
{
    reveal(tracks);
    lemma_scan_empty(b.skip(pos));
}

/// Create Session Request message body.
pub struct Message {
    pub imsi: Option<imsi::InformationElement>,
    pub msisdn: Option<msisdn::InformationElement>,
    pub mei: Option<mei::InformationElement>,
    pub uli: Option<user_location_information::InformationElement>,
    pub serving_network: Option<serving_network::InformationElement>,
    pub rat_type: rat_type::InformationElement,
    pub sender_f_teid_for_control_plane: f_teid::InformationElement,
    pub pgw_s5_s8_for_control_plane: Option<f_teid::InformationElement>,
    pub apn: apn::InformationElement,
    pub selection_mode: Option<selection_mode::InformationElement>,
    pub pdn_type: Option<pdn_type::InformationElement>,
    pub pdn_address_allocation: Option<pdn_address_allocation::InformationElement>,
    pub maximum_apn_restriction: Option<apn_restriction::InformationElement>,
    pub apn_ambr: Option<ambr::InformationElement>,
    pub bearer_contexts_to_be_created: Vec<bearer_context::InformationElement>,
    pub bearer_contexts_to_be_removed: Vec<bearer_context::InformationElement>,
    pub ue_time_zone: Option<ue_time_zone::InformationElement>,
    pub charging_characteristics: Option<charging_characteristics::InformationElement>,
}

impl Message {
    /// A message around the mandatory elements; the given bearer context is
    /// stamped with instance 0 and becomes the first context to be created.
    pub fn new(
        rat_type: rat_type::InformationElement,
        sender_f_teid_for_control_plane: f_teid::InformationElement,
        bearer_context_to_be_created: bearer_context::InformationElement,
        apn: apn::InformationElement,
    ) -> (r: Message)
        ensures
            r.rat_type == rat_type,
            r.sender_f_teid_for_control_plane == sender_f_teid_for_control_plane,
            r.apn == apn,
            r.bearer_contexts_to_be_created@ == seq![
                bearer_context_to_be_created.with_instance(0),
            ],
            r.bearer_contexts_to_be_removed@.len() == 0,
            r.imsi is None && r.msisdn is None && r.mei is None && r.uli is None
                && r.serving_network is None && r.pgw_s5_s8_for_control_plane is None
                && r.selection_mode is None && r.pdn_type is None && r.pdn_address_allocation
                is None && r.maximum_apn_restriction is None && r.apn_ambr is None
                && r.ue_time_zone is None && r.charging_characteristics is None,
    {
        let mut m = Message {
            rat_type,
            sender_f_teid_for_control_plane,
            pgw_s5_s8_for_control_plane: None,
            bearer_contexts_to_be_created: Vec::new(),
            bearer_contexts_to_be_removed: Vec::new(),
            apn,
            imsi: None,
            pdn_type: None,
            pdn_address_allocation: None,
            msisdn: None,
            uli: None,
            mei: None,
            serving_network: None,
            selection_mode: None,
            maximum_apn_restriction: None,
            apn_ambr: None,
            ue_time_zone: None,
            charging_characteristics: None,
        };
        m.push_bearer_context_to_be_created(bearer_context_to_be_created);
        m
    }

    /// Stamps the PGW S5/S8 control-plane F-TEID (instance 1) from its
    /// parts.
    pub fn set_pgw_s5_s8_for_control_plane(
        &mut self,
        teid: u32,
        ipv4_address: Option<Ipv4Address>,
        ipv6_address: Option<Ipv6Address>,
    )
        ensures
            *final(self) == (Message {
                pgw_s5_s8_for_control_plane: final(self).pgw_s5_s8_for_control_plane,
                ..*old(self)
            }),
            final(self).pgw_s5_s8_for_control_plane == Some(
                f_teid::InformationElement {
                    instance: 1u8,
                    interface_type: InterfaceType::S5S8PgwGtpC,
                    teid,
                    ipv4_address,
                    ipv6_address,
                },
            ),
    {
        self.pgw_s5_s8_for_control_plane = Some(
            f_teid::InformationElement {
                instance: 1,
                interface_type: InterfaceType::S5S8PgwGtpC,
                teid,
                ipv4_address,
                ipv6_address,
            },
        );
    }

    pub fn unset_pgw_s5_s8_for_control_plane(&mut self)
        ensures
            *final(self) == (Message { pgw_s5_s8_for_control_plane: None, ..*old(self) }),
    {
        self.pgw_s5_s8_for_control_plane = None;
    }

    /// Appends a context to be created, stamped with instance 0.
    pub fn push_bearer_context_to_be_created(
        &mut self,
        bearer_context: bearer_context::InformationElement,
    )
        ensures
            *final(self) == (Message {
                bearer_contexts_to_be_created: final(self).bearer_contexts_to_be_created,
                ..*old(self)
            }),
            final(self).bearer_contexts_to_be_created@ == old(
                self,
            ).bearer_contexts_to_be_created@.push(bearer_context.with_instance(0)),
    {
        let mut bearer_context = bearer_context;
        let _ = bearer_context.set_instance(0);
        self.bearer_contexts_to_be_created.push(bearer_context);
    }

    /// Appends a context to be removed, stamped with instance 1.
    pub fn push_bearer_context_to_be_removed(
        &mut self,
        bearer_context: bearer_context::InformationElement,
    )
        ensures
            *final(self) == (Message {
                bearer_contexts_to_be_removed: final(self).bearer_contexts_to_be_removed,
                ..*old(self)
            }),
            final(self).bearer_contexts_to_be_removed@ == old(
                self,
            ).bearer_contexts_to_be_removed@.push(bearer_context.with_instance(1)),
    {
        let mut bearer_context = bearer_context;
        let _ = bearer_context.set_instance(1);
        self.bearer_contexts_to_be_removed.push(bearer_context);
    }

    /// Reads the body: elements are scanned over the whole buffer, each
    /// landing in the slot its type and instance name, unknown elements
    /// skipped by their declared length.  It fails exactly when a mandatory
    /// element (RAT type, sender F-TEID, a context to be created, APN) is
    /// missing, an element overruns the buffer, or the buffer is longer than
    /// a length field could have declared.
    #[verifier::rlimit(100)]
    pub fn parse(buffer: &[u8]) -> (r: Option<(Self, usize)>)
        ensures
            r is Some <==> parse_ok(buffer@),
            r matches Some((m, n)) ==> {
                &&& n == buffer@.len()
                &&& m.wf()
                &&& (m.imsi is Some <==> found(buffer@, 1, None))
                &&& (m.msisdn is Some <==> found(buffer@, 76, None))
                &&& (m.mei is Some <==> found(buffer@, 75, None))
                &&& (m.uli is Some <==> found(buffer@, 86, None))
                &&& (m.serving_network is Some <==> found(buffer@, 83, None))
                &&& (m.pgw_s5_s8_for_control_plane is Some <==> found(buffer@, 87, Some(1)))
                &&& (m.selection_mode is Some <==> found(buffer@, 128, None))
                &&& (m.pdn_type is Some <==> found(buffer@, 99, None))
                &&& (m.pdn_address_allocation is Some <==> found(buffer@, 79, None))
                &&& (m.maximum_apn_restriction is Some <==> found(buffer@, 127, None))
                &&& (m.apn_ambr is Some <==> found(buffer@, 72, None))
                &&& (m.ue_time_zone is Some <==> found(buffer@, 114, None))
                &&& (m.charging_characteristics is Some <==> found(buffer@, 95, None))
                &&& m.bearer_contexts_to_be_created@.len() > 0
                &&& (m.bearer_contexts_to_be_removed@.len() > 0 <==> found(buffer@, 93, Some(1)))
                &&& m.sender_f_teid_for_control_plane.spec_instance() == 0
                &&& (m.pgw_s5_s8_for_control_plane matches Some(x) ==> x.spec_instance() == 1)
                &&& (forall|i: int|
                    0 <= i < m.bearer_contexts_to_be_created@.len() ==> (
                    #[trigger] m.bearer_contexts_to_be_created@[i]).spec_instance() == 0)
                &&& (forall|i: int|
                    0 <= i < m.bearer_contexts_to_be_removed@.len() ==> (
                    #[trigger] m.bearer_contexts_to_be_removed@[i]).spec_instance() == 1)
            },
    {
        let n = buffer.len();
        if n > 0xFFFF {
            return None;
        }
        let ghost b = buffer@;
        proof {
            assert(b.skip(0int) =~= b);
        }
        let mut slots = Slots {
            imsi: None,
            msisdn: None,
            mei: None,
            uli: None,
            serving_network: None,
            rat_type: None,
            sender_f_teid_for_control_plane: None,
            pgw_s5_s8_for_control_plane: None,
            apn: None,
            selection_mode: None,
            pdn_type: None,
            pdn_address_allocation: None,
            maximum_apn_restriction: None,
            apn_ambr: None,
            bearer_contexts_to_be_created: Vec::new(),
            bearer_contexts_to_be_removed: Vec::new(),
            ue_time_zone: None,
            charging_characteristics: None,
        };
        let mut pos: usize = 0;
        proof {
            lemma_tracks_start(b, slots);
        }
        while pos < n
            invariant
                b == buffer@,
                n == buffer@.len() <= 0xFFFF,
                pos <= n,
                segments_ok(b) == segments_ok(b.skip(pos as int)),
                tracks(b, pos as int, slots),
                slots.stored_len() <= pos,
                slots.stored_wf(),
                slots.routed(),
            decreases n - pos,
        {
            let ghost s = b.skip(pos as int);
            proof {
                assert(s =~= buffer@.subrange(pos as int, n as int));
            }
            match InformationElement::parse(&buffer[pos..n]) {
                Some((ie, ie_pos)) => {
                    proof {
                        lemma_scan_step(s);
                        assert(b.skip(pos as int).skip(4 + val16(s, 1)) =~= b.skip(pos + ie_pos));
                    }
                    let ghost old_slots = slots;
                    slots.stash(ie, Ghost((pos + ie_pos) as int), Ghost(s[0]), Ghost(s[3] % 16));
                    proof {
                        lemma_tracks_step(
                            b,
                            pos as int,
                            ie_pos as int,
                            old_slots,
                            slots,
                            s[0],
                            s[3] % 16,
                        );
                    }
                    pos = pos + ie_pos;
                },
                None => {
                    if n - pos < 3 {
                        proof {
                            lemma_scan_dead(s);
                        }
                        return None;
                    }
                    let skip = InformationElement::skip_parsing(&buffer[pos..n]);
                    if skip > n - pos {
                        proof {
                            lemma_scan_dead(s);
                        }
                        return None;
                    }
                    proof {
                        lemma_scan_step(s);
                        assert(b.skip(pos as int).skip(4 + val16(s, 1)) =~= b.skip(pos + skip));
                        lemma_tracks_skip(b, pos as int, skip as int, slots);
                    }
                    pos = pos + skip;
                },
            }
        }
        proof {
            lemma_scan_empty(b.skip(pos as int));
            lemma_tracks_end(b, pos as int, slots);
        }
        if slots.bearer_contexts_to_be_created.len() < 1 {
            return None;
        }
        let bearer_contexts_to_be_created = slots.bearer_contexts_to_be_created;
        let bearer_contexts_to_be_removed = slots.bearer_contexts_to_be_removed;
        match (slots.rat_type, slots.sender_f_teid_for_control_plane, slots.apn) {
            (Some(rat_type), Some(sender_f_teid_for_control_plane), Some(apn)) => Some(
                (
                    Message {
                        rat_type,
                        sender_f_teid_for_control_plane,
                        bearer_contexts_to_be_created,
                        bearer_contexts_to_be_removed,
                        apn,
                        pgw_s5_s8_for_control_plane: slots.pgw_s5_s8_for_control_plane,
                        imsi: slots.imsi,
                        pdn_type: slots.pdn_type,
                        pdn_address_allocation: slots.pdn_address_allocation,
                        msisdn: slots.msisdn,
                        uli: slots.uli,
                        mei: slots.mei,
                        serving_network: slots.serving_network,
                        selection_mode: slots.selection_mode,
                        maximum_apn_restriction: slots.maximum_apn_restriction,
                        apn_ambr: slots.apn_ambr,
                        ue_time_zone: slots.ue_time_zone,
                        charging_characteristics: slots.charging_characteristics,
                    },
                    pos,
                ),
            ),
            _ => None,
        }
    }
}

impl Message {
    /// The subscriber-identity and location elements, in generate order.
    pub open spec fn head_encoding(&self) -> Seq<u8> {
        opt_enc(self.imsi) + opt_enc(self.msisdn) + opt_enc(self.mei) + opt_enc(self.uli)
            + opt_enc(self.serving_network)
    }

    /// The trailing optional elements, in generate order.
    pub open spec fn tail_encoding(&self) -> Seq<u8> {
        opt_enc(self.pdn_type) + opt_enc(self.pdn_address_allocation) + opt_enc(
            self.maximum_apn_restriction,
        ) + opt_enc(self.apn_ambr) + opt_enc(self.ue_time_zone) + opt_enc(
            self.charging_characteristics,
        )
    }

    /// Writes the subscriber-identity and location elements.
    #[verifier::rlimit(100)]
    fn generate_head(&self, buffer: &mut Vec<u8>) -> (n: usize)
        requires
            self.wf(),
        ensures
            final(buffer)@ == old(buffer)@ + self.head_encoding(),
            n == self.head_encoding().len(),
    {
        let start = buffer.len();
        let ghost o = buffer@;
        if let Some(ie) = &self.imsi {
            ie.generate(buffer);
        }
        proof {
            assert(buffer@ =~= o + opt_enc(self.imsi));
        }
        if let Some(ie) = &self.msisdn {
            ie.generate(buffer);
        }
        proof {
            assert(buffer@ =~= o + opt_enc(self.imsi) + opt_enc(self.msisdn));
        }
        if let Some(ie) = &self.mei {
            ie.generate(buffer);
        }
        proof {
            assert(buffer@ =~= o + opt_enc(self.imsi) + opt_enc(self.msisdn) + opt_enc(self.mei));
        }
        if let Some(ie) = &self.uli {
            ie.generate(buffer);
        }
        proof {
            assert(buffer@ =~= o + opt_enc(self.imsi) + opt_enc(self.msisdn) + opt_enc(self.mei) + opt_enc(self.uli));
        }
        if let Some(ie) = &self.serving_network {
            ie.generate(buffer);
        }
        proof {
            assert(buffer@ =~= o + opt_enc(self.imsi) + opt_enc(self.msisdn) + opt_enc(self.mei) + opt_enc(self.uli) + opt_enc(self.serving_network));
        }
        proof {
            vstd::seq_lib::lemma_concat_associative(o, opt_enc(self.imsi), opt_enc(self.msisdn));
            vstd::seq_lib::lemma_concat_associative(o, opt_enc(self.imsi) + opt_enc(self.msisdn), opt_enc(self.mei));
            vstd::seq_lib::lemma_concat_associative(o, opt_enc(self.imsi) + opt_enc(self.msisdn) + opt_enc(self.mei), opt_enc(self.uli));
            vstd::seq_lib::lemma_concat_associative(o, opt_enc(self.imsi) + opt_enc(self.msisdn) + opt_enc(self.mei) + opt_enc(self.uli), opt_enc(self.serving_network));
            assert(buffer@ == o + self.head_encoding());
        }
        buffer.len() - start
    }

    /// Writes the trailing optional elements.
    #[verifier::rlimit(100)]
    fn generate_tail(&self, buffer: &mut Vec<u8>) -> (n: usize)
        requires
            self.wf(),
        ensures
            final(buffer)@ == old(buffer)@ + self.tail_encoding(),
            n == self.tail_encoding().len(),
    {
        let start = buffer.len();
        let ghost o = buffer@;
        if let Some(ie) = &self.pdn_type {
            ie.generate(buffer);
        }
        proof {
            assert(buffer@ =~= o + opt_enc(self.pdn_type));
        }
        if let Some(ie) = &self.pdn_address_allocation {
            ie.generate(buffer);
        }
        proof {
            assert(buffer@ =~= o + opt_enc(self.pdn_type) + opt_enc(self.pdn_address_allocation));
        }
        if let Some(ie) = &self.maximum_apn_restriction {
            ie.generate(buffer);
        }
        proof {
            assert(buffer@ =~= o + opt_enc(self.pdn_type) + opt_enc(self.pdn_address_allocation) + opt_enc(self.maximum_apn_restriction));
        }
        if let Some(ie) = &self.apn_ambr {
            ie.generate(buffer);
        }
        proof {
            assert(buffer@ =~= o + opt_enc(self.pdn_type) + opt_enc(self.pdn_address_allocation) + opt_enc(self.maximum_apn_restriction) + opt_enc(self.apn_ambr));
        }
        if let Some(ie) = &self.ue_time_zone {
            ie.generate(buffer);
        }
        proof {
            assert(buffer@ =~= o + opt_enc(self.pdn_type) + opt_enc(self.pdn_address_allocation) + opt_enc(self.maximum_apn_restriction) + opt_enc(self.apn_ambr) + opt_enc(self.ue_time_zone));
        }
        if let Some(ie) = &self.charging_characteristics {
            ie.generate(buffer);
        }
        proof {
            assert(buffer@ =~= o + opt_enc(self.pdn_type) + opt_enc(self.pdn_address_allocation) + opt_enc(self.maximum_apn_restriction) + opt_enc(self.apn_ambr) + opt_enc(self.ue_time_zone) + opt_enc(self.charging_characteristics));
        }
        proof {
            vstd::seq_lib::lemma_concat_associative(o, opt_enc(self.pdn_type), opt_enc(self.pdn_address_allocation));
            vstd::seq_lib::lemma_concat_associative(o, opt_enc(self.pdn_type) + opt_enc(self.pdn_address_allocation), opt_enc(self.maximum_apn_restriction));
            vstd::seq_lib::lemma_concat_associative(o, opt_enc(self.pdn_type) + opt_enc(self.pdn_address_allocation) + opt_enc(self.maximum_apn_restriction), opt_enc(self.apn_ambr));
            vstd::seq_lib::lemma_concat_associative(o, opt_enc(self.pdn_type) + opt_enc(self.pdn_address_allocation) + opt_enc(self.maximum_apn_restriction) + opt_enc(self.apn_ambr), opt_enc(self.ue_time_zone));
            vstd::seq_lib::lemma_concat_associative(o, opt_enc(self.pdn_type) + opt_enc(self.pdn_address_allocation) + opt_enc(self.maximum_apn_restriction) + opt_enc(self.apn_ambr) + opt_enc(self.ue_time_zone), opt_enc(self.charging_characteristics));
            assert(buffer@ == o + self.tail_encoding());
        }
        buffer.len() - start
    }

    /// Sums the lengths of the subscriber-identity and location elements.
    #[verifier::rlimit(100)]
    fn head_length(&self) -> (r: u16)
        requires
            self.wf(),
            self.head_encoding().len() <= 0xFFFF,
        ensures
            r == self.head_encoding().len(),
    {
        let mut length: u32 = 0;
        if let Some(ie) = &self.imsi {
            length = length + ie.length() as u32;
        }
        if let Some(ie) = &self.msisdn {
            length = length + ie.length() as u32;
        }
        if let Some(ie) = &self.mei {
            length = length + ie.length() as u32;
        }
        if let Some(ie) = &self.uli {
            length = length + ie.length() as u32;
        }
        if let Some(ie) = &self.serving_network {
            length = length + ie.length() as u32;
        }
        length as u16
    }

    /// Sums the lengths of the trailing optional elements.
    #[verifier::rlimit(100)]
    fn tail_length(&self) -> (r: u16)
        requires
            self.wf(),
        ensures
            r == self.tail_encoding().len(),
    {
        let mut length: u16 = 0;
        if let Some(ie) = &self.pdn_type {
            length = length + ie.length();
        }
        if let Some(ie) = &self.pdn_address_allocation {
            length = length + ie.length();
        }
        if let Some(ie) = &self.maximum_apn_restriction {
            length = length + ie.length();
        }
        if let Some(ie) = &self.apn_ambr {
            length = length + ie.length();
        }
        if let Some(ie) = &self.ue_time_zone {
            length = length + ie.length();
        }
        if let Some(ie) = &self.charging_characteristics {
            length = length + ie.length();
        }
        length
    }
}

impl MessageTraits for Message {
    open spec fn encoding(&self) -> Seq<u8> {
        self.head_encoding() + self.rat_type.encoding()
            + self.sender_f_teid_for_control_plane.encoding() + opt_enc(
            self.pgw_s5_s8_for_control_plane,
        ) + self.apn.encoding() + opt_enc(self.selection_mode) + bcs_encoding(
            self.bearer_contexts_to_be_created@,
        ) + bcs_encoding(self.bearer_contexts_to_be_removed@) + self.tail_encoding()
    }

    open spec fn spec_type(&self) -> MessageType {
        MessageType::CreateSessionRequest
    }

    open spec fn wf(&self) -> bool {
        &&& opt_wf(self.imsi)
        &&& opt_wf(self.msisdn)
        &&& opt_wf(self.mei)
        &&& opt_wf(self.uli)
        &&& opt_wf(self.serving_network)
        &&& self.rat_type.wf()
        &&& self.sender_f_teid_for_control_plane.wf()
        &&& opt_wf(self.pgw_s5_s8_for_control_plane)
        &&& self.apn.wf()
        &&& opt_wf(self.selection_mode)
        &&& bcs_wf(self.bearer_contexts_to_be_created@)
        &&& bcs_wf(self.bearer_contexts_to_be_removed@)
        &&& opt_wf(self.pdn_type)
        &&& opt_wf(self.pdn_address_allocation)
        &&& opt_wf(self.maximum_apn_restriction)
        &&& opt_wf(self.apn_ambr)
        &&& opt_wf(self.ue_time_zone)
        &&& opt_wf(self.charging_characteristics)
        &&& self.encoding().len() <= 0xFFFF
    }

    fn message_type(&self) -> (r: MessageType) {
        MessageType::CreateSessionRequest
    }

    #[verifier::rlimit(100)]
    fn length(&self) -> (r: u16) {
        let mut length: u32 = self.head_length() as u32;
        length = length + self.rat_type.length() as u32;
        length = length + self.sender_f_teid_for_control_plane.length() as u32;
        if let Some(ie) = &self.pgw_s5_s8_for_control_plane {
            length = length + ie.length() as u32;
        }
        length = length + self.apn.length() as u32;
        if let Some(ie) = &self.selection_mode {
            length = length + ie.length() as u32;
        }
        length = length + bcs_length(&self.bearer_contexts_to_be_created) as u32;
        length = length + bcs_length(&self.bearer_contexts_to_be_removed) as u32;
        length = length + self.tail_length() as u32;
        length as u16
    }

    #[verifier::rlimit(100)]
    fn generate(&self, buffer: &mut Vec<u8>) -> (n: usize) {
        let start = buffer.len();
        let ghost o = buffer@;
        self.generate_head(buffer);
        proof {
            assert(buffer@ =~= o + self.head_encoding());
        }
        self.rat_type.generate(buffer);
        proof {
            assert(buffer@ =~= o + self.head_encoding() + self.rat_type.encoding());
        }
        self.sender_f_teid_for_control_plane.generate(buffer);
        proof {
            assert(buffer@ =~= o + self.head_encoding() + self.rat_type.encoding() + self.sender_f_teid_for_control_plane.encoding());
        }
        if let Some(ie) = &self.pgw_s5_s8_for_control_plane {
            ie.generate(buffer);
        }
        proof {
            assert(buffer@ =~= o + self.head_encoding() + self.rat_type.encoding() + self.sender_f_teid_for_control_plane.encoding() + opt_enc(self.pgw_s5_s8_for_control_plane));
        }
        self.apn.generate(buffer);
        proof {
            assert(buffer@ =~= o + self.head_encoding() + self.rat_type.encoding() + self.sender_f_teid_for_control_plane.encoding() + opt_enc(self.pgw_s5_s8_for_control_plane) + self.apn.encoding());
        }
        if let Some(ie) = &self.selection_mode {
            ie.generate(buffer);
        }
        proof {
            assert(buffer@ =~= o + self.head_encoding() + self.rat_type.encoding() + self.sender_f_teid_for_control_plane.encoding() + opt_enc(self.pgw_s5_s8_for_control_plane) + self.apn.encoding() + opt_enc(self.selection_mode));
        }
        bcs_generate(&self.bearer_contexts_to_be_created, buffer);
        proof {
            assert(buffer@ =~= o + self.head_encoding() + self.rat_type.encoding() + self.sender_f_teid_for_control_plane.encoding() + opt_enc(self.pgw_s5_s8_for_control_plane) + self.apn.encoding() + opt_enc(self.selection_mode) + bcs_encoding(self.bearer_contexts_to_be_created@));
        }
        bcs_generate(&self.bearer_contexts_to_be_removed, buffer);
        proof {
            assert(buffer@ =~= o + self.head_encoding() + self.rat_type.encoding() + self.sender_f_teid_for_control_plane.encoding() + opt_enc(self.pgw_s5_s8_for_control_plane) + self.apn.encoding() + opt_enc(self.selection_mode) + bcs_encoding(self.bearer_contexts_to_be_created@) + bcs_encoding(self.bearer_contexts_to_be_removed@));
        }
        self.generate_tail(buffer);
        proof {
            assert(buffer@ =~= o + self.head_encoding() + self.rat_type.encoding() + self.sender_f_teid_for_control_plane.encoding() + opt_enc(self.pgw_s5_s8_for_control_plane) + self.apn.encoding() + opt_enc(self.selection_mode) + bcs_encoding(self.bearer_contexts_to_be_created@) + bcs_encoding(self.bearer_contexts_to_be_removed@) + self.tail_encoding());
        }
        proof {
            vstd::seq_lib::lemma_concat_associative(o, self.head_encoding(), self.rat_type.encoding());
            vstd::seq_lib::lemma_concat_associative(o, self.head_encoding() + self.rat_type.encoding(), self.sender_f_teid_for_control_plane.encoding());
            vstd::seq_lib::lemma_concat_associative(o, self.head_encoding() + self.rat_type.encoding() + self.sender_f_teid_for_control_plane.encoding(), opt_enc(self.pgw_s5_s8_for_control_plane));
            vstd::seq_lib::lemma_concat_associative(o, self.head_encoding() + self.rat_type.encoding() + self.sender_f_teid_for_control_plane.encoding() + opt_enc(self.pgw_s5_s8_for_control_plane), self.apn.encoding());
            vstd::seq_lib::lemma_concat_associative(o, self.head_encoding() + self.rat_type.encoding() + self.sender_f_teid_for_control_plane.encoding() + opt_enc(self.pgw_s5_s8_for_control_plane) + self.apn.encoding(), opt_enc(self.selection_mode));
            vstd::seq_lib::lemma_concat_associative(o, self.head_encoding() + self.rat_type.encoding() + self.sender_f_teid_for_control_plane.encoding() + opt_enc(self.pgw_s5_s8_for_control_plane) + self.apn.encoding() + opt_enc(self.selection_mode), bcs_encoding(self.bearer_contexts_to_be_created@));
            vstd::seq_lib::lemma_concat_associative(o, self.head_encoding() + self.rat_type.encoding() + self.sender_f_teid_for_control_plane.encoding() + opt_enc(self.pgw_s5_s8_for_control_plane) + self.apn.encoding() + opt_enc(self.selection_mode) + bcs_encoding(self.bearer_contexts_to_be_created@), bcs_encoding(self.bearer_contexts_to_be_removed@));
            vstd::seq_lib::lemma_concat_associative(o, self.head_encoding() + self.rat_type.encoding() + self.sender_f_teid_for_control_plane.encoding() + opt_enc(self.pgw_s5_s8_for_control_plane) + self.apn.encoding() + opt_enc(self.selection_mode) + bcs_encoding(self.bearer_contexts_to_be_created@) + bcs_encoding(self.bearer_contexts_to_be_removed@), self.tail_encoding());
            assert(buffer@ == o + self.encoding());
        }
        buffer.len() - start
    }
}

} // verus!
