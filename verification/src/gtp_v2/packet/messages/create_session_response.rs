//! Create Session Response message (GTPv2): the mandatory cause and created
//! bearer contexts, with optional control-plane F-TEIDs, address allocation,
//! APN restriction and AMBR.  Bearer contexts are told apart by their
//! instance: 0 created, 1 marked for removal; F-TEIDs: 0 the sender, 1 the
//! PGW S5/S8 control address.

use vstd::prelude::*;

use crate::errors::GtpError;
use crate::net::{Ipv4Address, Ipv6Address};

use super::{MessageTraits, MessageType};
use crate::bytes::val16;
use super::create_session_request::{
    bcs_encoding,
    bcs_wf,
    lemma_bcs_encoding_push,
};
use super::information_elements::{
    found,
    lemma_scan_dead,
    lemma_scan_empty,
    lemma_scan_step,
    segments_ok,
};
use super::information_elements::{
    InformationElement,
    InformationElementTraits,
    InformationElementType,
    opt_enc,
    opt_wf,
    cause,
    bearer_context,
    f_teid,
    pdn_address_allocation,
    apn_restriction,
    ambr,
};
use super::information_elements::f_teid::InterfaceType;

verus! {

/// The inputs `parse` accepts: a buffer a length field could declare, whose
/// element scan runs to the end and meets the two mandatory elements: a
/// cause and a created bearer context (instance 0).
pub open spec fn parse_ok(b: Seq<u8>) -> bool {
    &&& b.len() <= 0xFFFF
    &&& segments_ok(b)
    &&& found(b, 2, None)
    &&& found(b, 93, Some(0))
}


struct Slots {
    cause: Option<cause::InformationElement>,
    sender_f_teid_for_control_plane: Option<f_teid::InformationElement>,
    pgw_s5_s8_for_control_plane: Option<f_teid::InformationElement>,
    pdn_address_allocation: Option<pdn_address_allocation::InformationElement>,
    apn_restriction: Option<apn_restriction::InformationElement>,
    apn_ambr: Option<ambr::InformationElement>,
    bearer_contexts_created: Vec<bearer_context::InformationElement>,
    bearer_contexts_marked_for_removal: Vec<bearer_context::InformationElement>,
}

impl Slots {
    /// The combined image length of the filled slots.
    spec fn stored_len(&self) -> int {
        0int + opt_enc(self.cause).len() + opt_enc(self.sender_f_teid_for_control_plane).len()
            + opt_enc(self.pgw_s5_s8_for_control_plane).len() + opt_enc(
            self.pdn_address_allocation,
        ).len() + opt_enc(self.apn_restriction).len() + opt_enc(self.apn_ambr).len()
            + bcs_encoding(self.bearer_contexts_created@).len() + bcs_encoding(
            self.bearer_contexts_marked_for_removal@,
        ).len()
    }

    /// Every filled slot is sound.
    spec fn stored_wf(&self) -> bool {
        &&& opt_wf(self.cause)
        &&& opt_wf(self.sender_f_teid_for_control_plane)
        &&& opt_wf(self.pgw_s5_s8_for_control_plane)
        &&& opt_wf(self.pdn_address_allocation)
        &&& opt_wf(self.apn_restriction)
        &&& opt_wf(self.apn_ambr)
        &&& bcs_wf(self.bearer_contexts_created@)
        &&& bcs_wf(self.bearer_contexts_marked_for_removal@)
    }

    /// The instance-keyed slots hold only elements whose instance names the
    /// slot.
    spec fn routed(&self) -> bool {
        &&& (self.sender_f_teid_for_control_plane matches Some(x) ==> x.spec_instance() == 0)
        &&& (self.pgw_s5_s8_for_control_plane matches Some(x) ==> x.spec_instance() == 1)
        &&& (forall|i: int|
            0 <= i < self.bearer_contexts_created@.len() ==> (
            #[trigger] self.bearer_contexts_created@[i]).spec_instance() == 0)
        &&& (forall|i: int|
            0 <= i < self.bearer_contexts_marked_for_removal@.len() ==> (
            #[trigger] self.bearer_contexts_marked_for_removal@[i]).spec_instance() == 1)
    }

    /// Stores one decoded element into the slot its kind and instance name;
    /// anything else is discarded.
    #[verifier::rlimit(100)]
    fn stash(&mut self, ie: InformationElement, ghost_budget: Ghost<int>, ghost_type: Ghost<u8>, ghost_inst: Ghost<u8>)
        requires
            old(self).stored_wf(),
            old(self).stored_len() <= ghost_budget@ - ie.encoding().len(),
            ie.wf(),
            old(self).routed(),
            Some(ie.spec_type()) == InformationElementType::spec_from_u8(ghost_type@),
            ie.spec_instance() == ghost_inst@,
        ensures
            final(self).stored_wf(),
            final(self).stored_len() <= ghost_budget@,
            final(self).routed(),
            final(self).cause is Some <==> (old(self).cause is Some || ghost_type@ == 2),
            final(self).sender_f_teid_for_control_plane is Some <==> (old(
                self,
            ).sender_f_teid_for_control_plane is Some || (ghost_type@ == 87 && ghost_inst@ == 0)),
            final(self).pgw_s5_s8_for_control_plane is Some <==> (old(
                self,
            ).pgw_s5_s8_for_control_plane is Some || (ghost_type@ == 87 && ghost_inst@ == 1)),
            final(self).pdn_address_allocation is Some <==> (old(self).pdn_address_allocation
                is Some || ghost_type@ == 79),
            final(self).apn_restriction is Some <==> (old(self).apn_restriction is Some
                || ghost_type@ == 127),
            final(self).apn_ambr is Some <==> (old(self).apn_ambr is Some || ghost_type@ == 72),
            final(self).bearer_contexts_created@.len() > 0 <==> (old(
                self,
            ).bearer_contexts_created@.len() > 0 || (ghost_type@ == 93 && ghost_inst@ == 0)),
            final(self).bearer_contexts_marked_for_removal@.len() > 0 <==> (old(
                self,
            ).bearer_contexts_marked_for_removal@.len() > 0 || (ghost_type@ == 93 && ghost_inst@
                == 1)),
    {
        match ie {
            InformationElement::BearerContext(inner) => {
                let ghost oldc = self.bearer_contexts_created@;
                let ghost oldr = self.bearer_contexts_marked_for_removal@;
                let inner_instance = inner.instance();
                if inner_instance == 0 {
                    self.bearer_contexts_created.push(inner);
                    proof {
                        lemma_bcs_encoding_push(oldc, inner);
                    }
                } else if inner_instance == 1 {
                    self.bearer_contexts_marked_for_removal.push(inner);
                    proof {
                        lemma_bcs_encoding_push(oldr, inner);
                    }
                }
            },
            InformationElement::FTEID(inner) => {
                let inner_instance = inner.instance();
                if inner_instance == 0 {
                    self.sender_f_teid_for_control_plane = Some(inner);
                } else if inner_instance == 1 {
                    self.pgw_s5_s8_for_control_plane = Some(inner);
                }
            },
            InformationElement::PDNAddressAllocation(inner) => {
                self.pdn_address_allocation = Some(inner);
            },
            InformationElement::APNRestriction(inner) => {
                self.apn_restriction = Some(inner);
            },
            InformationElement::AMBR(inner) => {
                self.apn_ambr = Some(inner);
            },
            InformationElement::Cause(inner) => {
                self.cause = Some(inner);
            },
            _ => {},
        }
    }
}

/// Create Session Response message body.
pub struct Message {
    pub cause: cause::InformationElement,
    pub sender_f_teid_for_control_plane: Option<f_teid::InformationElement>,
    pub pgw_s5_s8_for_control_plane: Option<f_teid::InformationElement>,
    pub pdn_address_allocation: Option<pdn_address_allocation::InformationElement>,
    pub apn_restriction: Option<apn_restriction::InformationElement>,
    pub apn_ambr: Option<ambr::InformationElement>,
    pub bearer_contexts_created: Vec<bearer_context::InformationElement>,
    pub bearer_contexts_marked_for_removal: Vec<bearer_context::InformationElement>,
}

impl Message {
    /// A message around the mandatory elements; each given context is
    /// stamped with instance 0 and becomes a created context.
    pub fn new(
        cause: cause::InformationElement,
        bearer_contexts_created: Vec<bearer_context::InformationElement>,
    ) -> (r: Message)
        ensures
            r.cause == cause,
            r.bearer_contexts_created@.len() == bearer_contexts_created@.len(),
            forall|i: int|
                0 <= i < bearer_contexts_created@.len() ==> r.bearer_contexts_created@[i] == (
                #[trigger] bearer_contexts_created@[i]).with_instance(0),
            r.bearer_contexts_marked_for_removal@.len() == 0,
            r.sender_f_teid_for_control_plane is None && r.pgw_s5_s8_for_control_plane is None
                && r.pdn_address_allocation is None && r.apn_restriction is None && r.apn_ambr
                is None,
    {
        let mut m = Message {
            cause,
            sender_f_teid_for_control_plane: None,
            pgw_s5_s8_for_control_plane: None,
            pdn_address_allocation: None,
            apn_restriction: None,
            apn_ambr: None,
            bearer_contexts_created: Vec::new(),
            bearer_contexts_marked_for_removal: Vec::new(),
        };
        let count = bearer_contexts_created.len();
        let mut bcs = bearer_contexts_created;
        let ghost given = bcs@;
        let mut i: usize = 0;
        proof {
            assert(bcs@ =~= given.skip(0int));
        }
        while i < count
            invariant
                count == given.len(),
                bcs@ =~= given.skip(i as int),
                i <= count,
                m.bearer_contexts_created@.len() == i,
                forall|k: int|
                    0 <= k < i ==> m.bearer_contexts_created@[k] == (
                    #[trigger] given[k]).with_instance(0),
                m.cause == cause,
                m.bearer_contexts_marked_for_removal@.len() == 0,
                m.sender_f_teid_for_control_plane is None,
                m.pgw_s5_s8_for_control_plane is None,
                m.pdn_address_allocation is None,
                m.apn_restriction is None,
                m.apn_ambr is None,
            decreases count - i,
        {
            let ghost before_removal = bcs@;
            let mut bc = bcs.remove(0);
            proof {
                assert(before_removal[0] == given.skip(i as int)[0]);
                assert(bc == given[i as int]);
                assert(bcs@ =~= before_removal.skip(1));
                assert(given.skip(i as int).skip(1) =~= given.skip(i + 1));
            }
            let _ = bc.set_instance(0);
            m.bearer_contexts_created.push(bc);
            i = i + 1;
        }
        m
    }

    /// Stamps the sender's control-plane F-TEID (instance 0) from its parts.
    pub fn set_sender_f_teid_for_control_plane(
        &mut self,
        teid: u32,
        ipv4_address: Option<Ipv4Address>,
        ipv6_address: Option<Ipv6Address>,
    )
        ensures
            *final(self) == (Message {
                sender_f_teid_for_control_plane: final(self).sender_f_teid_for_control_plane,
                ..*old(self)
            }),
            final(self).sender_f_teid_for_control_plane == Some(
                f_teid::InformationElement {
                    instance: 0u8,
                    interface_type: InterfaceType::S11S4SgwGtpC,
                    teid,
                    ipv4_address,
                    ipv6_address,
                },
            ),
    {
        self.sender_f_teid_for_control_plane = Some(
            f_teid::InformationElement {
                instance: 0,
                interface_type: InterfaceType::S11S4SgwGtpC,
                teid,
                ipv4_address,
                ipv6_address,
            },
        );
    }

    pub fn unset_sender_f_teid_for_control_plane(&mut self)
        ensures
            *final(self) == (Message { sender_f_teid_for_control_plane: None, ..*old(self) }),
    {
        self.sender_f_teid_for_control_plane = None;
    }

    /// Stamps the PGW S5/S8 control-plane F-TEID (instance 1) from its
    /// parts.
    pub fn set_pgw_s5_s8_for_control_plane(
        &mut self,
        teid: u32,
        ipv4_address: Option<Ipv4Address>,
        ipv6_address: Option<Ipv6Address>,
    )
        ensures
            *final(self) == (Message {
                pgw_s5_s8_for_control_plane: final(self).pgw_s5_s8_for_control_plane,
                ..*old(self)
            }),
            final(self).pgw_s5_s8_for_control_plane == Some(
                f_teid::InformationElement {
                    instance: 1u8,
                    interface_type: InterfaceType::S5S8PgwGtpC,
                    teid,
                    ipv4_address,
                    ipv6_address,
                },
            ),
    {
        self.pgw_s5_s8_for_control_plane = Some(
            f_teid::InformationElement {
                instance: 1,
                interface_type: InterfaceType::S5S8PgwGtpC,
                teid,
                ipv4_address,
                ipv6_address,
            },
        );
    }

    pub fn unset_pgw_s5_s8_for_control_plane(&mut self)
        ensures
            *final(self) == (Message { pgw_s5_s8_for_control_plane: None, ..*old(self) }),
    {
        self.pgw_s5_s8_for_control_plane = None;
    }

    /// Appends a created context, stamped with instance 0.
    pub fn push_bearer_context_created(
        &mut self,
        bearer_context: bearer_context::InformationElement,
    )
        ensures
            *final(self) == (Message {
                bearer_contexts_created: final(self).bearer_contexts_created,
                ..*old(self)
            }),
            final(self).bearer_contexts_created@ == old(self).bearer_contexts_created@.push(
                bearer_context.with_instance(0),
            ),
    {
        let mut bearer_context = bearer_context;
        let _ = bearer_context.set_instance(0);
        self.bearer_contexts_created.push(bearer_context);
    }

    /// Appends a context marked for removal, stamped with instance 1.
    pub fn push_bearer_context_marked_for_removal(
        &mut self,
        bearer_context: bearer_context::InformationElement,
    )
        ensures
            *final(self) == (Message {
                bearer_contexts_marked_for_removal: final(self).bearer_contexts_marked_for_removal,
                ..*old(self)
            }),
            final(self).bearer_contexts_marked_for_removal@ == old(
                self,
            ).bearer_contexts_marked_for_removal@.push(bearer_context.with_instance(1)),
    {
        let mut bearer_context = bearer_context;
        let _ = bearer_context.set_instance(1);
        self.bearer_contexts_marked_for_removal.push(bearer_context);
    }

    /// Reads the body: elements are scanned over the whole buffer, each
    /// landing in the slot its type and instance name, unknown elements
    /// skipped by their declared length.  It fails exactly when a mandatory
    /// element (the cause, a created context) is missing, an element
    /// overruns the buffer, or the buffer is longer than a length field
    /// could have declared.
    #[verifier::rlimit(100)]
    pub fn parse(buffer: &[u8]) -> (r: Option<(Self, usize)>)
        ensures
            r is Some <==> parse_ok(buffer@),
            r matches Some((m, n)) ==> {
                &&& n == buffer@.len()
                &&& m.wf()
                &&& (m.sender_f_teid_for_control_plane is Some <==> found(buffer@, 87, Some(0)))
                &&& (m.pgw_s5_s8_for_control_plane is Some <==> found(buffer@, 87, Some(1)))
                &&& (m.pdn_address_allocation is Some <==> found(buffer@, 79, None))
                &&& (m.apn_restriction is Some <==> found(buffer@, 127, None))
                &&& (m.apn_ambr is Some <==> found(buffer@, 72, None))
                &&& m.bearer_contexts_created@.len() > 0
                &&& (m.bearer_contexts_marked_for_removal@.len() > 0 <==> found(
                    buffer@,
                    93,
                    Some(1),
                ))
                &&& (m.sender_f_teid_for_control_plane matches Some(x) ==> x.spec_instance() == 0)
                &&& (m.pgw_s5_s8_for_control_plane matches Some(x) ==> x.spec_instance() == 1)
                &&& (forall|i: int|
                    0 <= i < m.bearer_contexts_created@.len() ==> (
                    #[trigger] m.bearer_contexts_created@[i]).spec_instance() == 0)
                &&& (forall|i: int|
                    0 <= i < m.bearer_contexts_marked_for_removal@.len() ==> (
                    #[trigger] m.bearer_contexts_marked_for_removal@[i]).spec_instance() == 1)
            },
    {
        let n = buffer.len();
        if n > 0xFFFF {
            return None;
        }
        let ghost b = buffer@;
        proof {
            assert(b.skip(0int) =~= b);
        }
        let mut slots = Slots {
            cause: None,
            sender_f_teid_for_control_plane: None,
            pgw_s5_s8_for_control_plane: None,
            pdn_address_allocation: None,
            apn_restriction: None,
            apn_ambr: None,
            bearer_contexts_created: Vec::new(),
            bearer_contexts_marked_for_removal: Vec::new(),
        };
        let mut pos: usize = 0;
        while pos < n
            invariant
                b == buffer@,
                n == buffer@.len() <= 0xFFFF,
                pos <= n,
                segments_ok(b) == segments_ok(b.skip(pos as int)),
                found(b, 2, None) == (slots.cause is Some || found(b.skip(pos as int), 2, None)),
                found(b, 93, Some(0)) == (slots.bearer_contexts_created@.len() > 0 || found(
                    b.skip(pos as int),
                    93,
                    Some(0),
                )),
                found(b, 93, Some(1)) == (slots.bearer_contexts_marked_for_removal@.len() > 0
                    || found(
                    b.skip(pos as int),
                    93,
                    Some(1),
                )),
                found(b, 87, Some(0)) == (slots.sender_f_teid_for_control_plane is Some || found(
                    b.skip(pos as int),
                    87,
                    Some(0),
                )),
                found(b, 87, Some(1)) == (slots.pgw_s5_s8_for_control_plane is Some || found(
                    b.skip(pos as int),
                    87,
                    Some(1),
                )),
                found(b, 79, None) == (slots.pdn_address_allocation is Some || found(
                    b.skip(pos as int),
                    79,
                    None,
                )),
                found(b, 127, None) == (slots.apn_restriction is Some || found(
                    b.skip(pos as int),
                    127,
                    None,
                )),
                found(b, 72, None) == (slots.apn_ambr is Some || found(b.skip(pos as int), 72, None)),
                slots.routed(),
                slots.stored_len() <= pos,
                slots.stored_wf(),
            decreases n - pos,
        {
            let ghost s = b.skip(pos as int);
            proof {
                assert(s =~= buffer@.subrange(pos as int, n as int));
            }
            match InformationElement::parse(&buffer[pos..n]) {
                Some((ie, ie_pos)) => {
                    proof {
                        lemma_scan_step(s);
                        assert(b.skip(pos as int).skip(4 + val16(s, 1)) =~= b.skip(pos + ie_pos));
                    }
                    slots.stash(ie, Ghost((pos + ie_pos) as int), Ghost(s[0]), Ghost(s[3] % 16));
                    pos = pos + ie_pos;
                },
                None => {
                    if n - pos < 3 {
                        proof {
                            lemma_scan_dead(s);
                        }
                        return None;
                    }
                    let skip = InformationElement::skip_parsing(&buffer[pos..n]);
                    if skip > n - pos {
                        proof {
                            lemma_scan_dead(s);
                        }
                        return None;
                    }
                    proof {
                        lemma_scan_step(s);
                        assert(b.skip(pos as int).skip(4 + val16(s, 1)) =~= b.skip(pos + skip));
                    }
                    pos = pos + skip;
                },
            }
        }
        proof {
            lemma_scan_empty(b.skip(pos as int));
        }
        if slots.bearer_contexts_created.len() < 1 {
            return None;
        }
        let bearer_contexts_created = slots.bearer_contexts_created;
        let bearer_contexts_marked_for_removal = slots.bearer_contexts_marked_for_removal;
        match slots.cause {
            Some(cause) => Some(
                (
                    Message {
                        cause,
                        sender_f_teid_for_control_plane: slots.sender_f_teid_for_control_plane,
                        pgw_s5_s8_for_control_plane: slots.pgw_s5_s8_for_control_plane,
                        pdn_address_allocation: slots.pdn_address_allocation,
                        apn_restriction: slots.apn_restriction,
                        apn_ambr: slots.apn_ambr,
                        bearer_contexts_created,
                        bearer_contexts_marked_for_removal,
                    },
                    pos,
                ),
            ),
            None => None,
        }
    }
}

impl Message {
    /// The trailing optional elements, in generate order.
    pub open spec fn tail_encoding(&self) -> Seq<u8> {
        opt_enc(self.pdn_address_allocation) + opt_enc(self.apn_restriction) + opt_enc(
            self.apn_ambr,
        )
    }

    /// Writes the trailing optional elements.
    #[verifier::rlimit(100)]
    fn generate_tail(&self, buffer: &mut Vec<u8>) -> (n: usize)
        requires
            self.wf(),
        ensures
            final(buffer)@ == old(buffer)@ + self.tail_encoding(),
            n == self.tail_encoding().len(),
    {
        let start = buffer.len();
        if let Some(ie) = &self.pdn_address_allocation {
            ie.generate(buffer);
        }
        if let Some(ie) = &self.apn_restriction {
            ie.generate(buffer);
        }
        if let Some(ie) = &self.apn_ambr {
            ie.generate(buffer);
        }
        proof {
            assert(buffer@ =~= old(buffer)@ + self.tail_encoding());
        }
        buffer.len() - start
    }
}

impl MessageTraits for Message {
    open spec fn encoding(&self) -> Seq<u8> {
        self.cause.encoding() + opt_enc(self.sender_f_teid_for_control_plane) + opt_enc(
            self.pgw_s5_s8_for_control_plane,
        ) + bcs_encoding(self.bearer_contexts_created@) + bcs_encoding(
            self.bearer_contexts_marked_for_removal@,
        ) + self.tail_encoding()
    }

    open spec fn spec_type(&self) -> MessageType {
        MessageType::CreateSessionResponse
    }

    open spec fn wf(&self) -> bool {
        &&& self.cause.wf()
        &&& opt_wf(self.sender_f_teid_for_control_plane)
        &&& opt_wf(self.pgw_s5_s8_for_control_plane)
        &&& bcs_wf(self.bearer_contexts_created@)
        &&& bcs_wf(self.bearer_contexts_marked_for_removal@)
        &&& opt_wf(self.pdn_address_allocation)
        &&& opt_wf(self.apn_restriction)
        &&& opt_wf(self.apn_ambr)
        &&& self.encoding().len() <= 0xFFFF
    }

    fn message_type(&self) -> (r: MessageType) {
        MessageType::CreateSessionResponse
    }

    #[verifier::rlimit(100)]
    fn length(&self) -> (r: u16) {
        let mut length: u32 = self.cause.length() as u32;
        if let Some(ie) = &self.sender_f_teid_for_control_plane {
            length = length + ie.length() as u32;
        }
        if let Some(ie) = &self.pgw_s5_s8_for_control_plane {
            length = length + ie.length() as u32;
        }
        length = length + super::create_session_request::bcs_length(
            &self.bearer_contexts_created,
        ) as u32;
        length = length + super::create_session_request::bcs_length(
            &self.bearer_contexts_marked_for_removal,
        ) as u32;
        if let Some(ie) = &self.pdn_address_allocation {
            length = length + ie.length() as u32;
        }
        if let Some(ie) = &self.apn_restriction {
            length = length + ie.length() as u32;
        }
        if let Some(ie) = &self.apn_ambr {
            length = length + ie.length() as u32;
        }
        length as u16
    }

    #[verifier::rlimit(100)]
    fn generate(&self, buffer: &mut Vec<u8>) -> (n: usize) {
        let start = buffer.len();
        self.cause.generate(buffer);
        if let Some(ie) = &self.sender_f_teid_for_control_plane {
            ie.generate(buffer);
        }
        if let Some(ie) = &self.pgw_s5_s8_for_control_plane {
            ie.generate(buffer);
        }
        super::create_session_request::bcs_generate(&self.bearer_contexts_created, buffer);
        super::create_session_request::bcs_generate(
            &self.bearer_contexts_marked_for_removal,
            buffer,
        );
        self.generate_tail(buffer);
        proof {
            assert(buffer@ =~= old(buffer)@ + self.encoding());
        }
        buffer.len() - start
    }
}

} // verus!
