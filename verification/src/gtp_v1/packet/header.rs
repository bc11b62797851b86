//! GTPv1 header: the eight mandatory octets (flags, message type, length,
//! TEID), the optional sequence number, N-PDU number and next-extension-type
//! octets controlled by the S, PN and E flags, and the extension-header chain.

use vstd::prelude::*;

pub mod extension_headers;

use crate::bytes::{
    be16,
    be32,
    val16,
    val24,
    val32,
    cat_bytes,
    write_u16_be,
    write_u32_be,
    read_u16_be,
    read_u32_be,
};

use super::messages::MessageType;

use extension_headers::{ExtensionHeader, ExtensionHeaderTraits, ExtensionHeaderType};

verus! {

/// The concatenated images of a chain of extension headers.
pub open spec fn exts_encoding(s: Seq<ExtensionHeader>) -> Seq<u8> {
    cat_bytes(s, |eh: ExtensionHeader| eh.encoding())
}

/// One more record appends its image.
pub proof fn lemma_exts_encoding_take_step(s: Seq<ExtensionHeader>, i: int)
    requires
        0 <= i < s.len(),
    ensures
        exts_encoding(s.take(i + 1)) == exts_encoding(s.take(i)) + s[i].encoding(),
{
    assert(s.take(i + 1).drop_last() =~= s.take(i));
    assert(s.take(i + 1).last() == s[i]);
}

/// A prefix's image is no longer than the whole chain's.
pub proof fn lemma_exts_encoding_take_len(s: Seq<ExtensionHeader>, i: int)
    requires
        0 <= i <= s.len(),
    ensures
        exts_encoding(s.take(i)).len() <= exts_encoding(s).len(),
    decreases s.len() - i,
{
    if i == s.len() {
        assert(s.take(i) =~= s);
    } else {
        lemma_exts_encoding_take_step(s, i);
        lemma_exts_encoding_take_len(s, i + 1);
    }
}

/// Every interior record of the chain names its successor's type.
pub open spec fn chain_linked(s: Seq<ExtensionHeader>) -> bool {
    forall|i: int| 0 <= i < s.len() - 1 ==> (#[trigger] s[i].spec_next()) == s[i + 1].spec_type()
}

/// The chain's links are sound: every interior record names its successor's
/// type, and the tail names `NoMore`.
pub open spec fn chain_wf(s: Seq<ExtensionHeader>) -> bool {
    &&& chain_linked(s)
    &&& s.len() > 0 ==> s.last().spec_next() == ExtensionHeaderType::NoMore
}

/// The octets an extension record of type octet `t` occupies.
pub open spec fn ext_size(t: u8) -> int {
    if t == 0x82 {
        8int
    } else {
        4int
    }
}

/// Whether the chain decode starting at `pos` with announced type octet `t`
/// runs to its `NoMore` terminator: each record fits the buffer and names a
/// known successor.
pub open spec fn chain_ok(b: Seq<u8>, pos: int, t: u8) -> bool
    decreases b.len() - pos,
    when 0 <= pos <= b.len()
{
    if t == 0 {
        true
    } else if pos + ext_size(t) > b.len() {
        false
    } else if ExtensionHeaderType::spec_from_u8(b[pos + ext_size(t) - 1]) is None {
        false
    } else {
        chain_ok(b, pos + ext_size(t), b[pos + ext_size(t) - 1])
    }
}

/// The position after the chain decode starting at `pos` with announced type
/// octet `t`, when the decode runs to its terminator.
pub open spec fn chain_end(b: Seq<u8>, pos: int, t: u8) -> int
    decreases b.len() - pos,
    when 0 <= pos <= b.len()
{
    if t == 0 {
        pos
    } else if pos + ext_size(t) > b.len() {
        pos
    } else if ExtensionHeaderType::spec_from_u8(b[pos + ext_size(t) - 1]) is None {
        pos
    } else {
        chain_end(b, pos + ext_size(t), b[pos + ext_size(t) - 1])
    }
}

/// The type octets of the chain decode starting at `pos` with announced type
/// octet `t`, in order.
pub open spec fn chain_types(b: Seq<u8>, pos: int, t: u8) -> Seq<u8>
    decreases b.len() - pos,
    when 0 <= pos <= b.len()
{
    if t == 0 {
        Seq::empty()
    } else if pos + ext_size(t) > b.len() {
        Seq::empty()
    } else if ExtensionHeaderType::spec_from_u8(b[pos + ext_size(t) - 1]) is None {
        Seq::empty()
    } else {
        seq![t] + chain_types(b, pos + ext_size(t), b[pos + ext_size(t) - 1])
    }
}

/// The type octets of a chain of records, in order.
pub open spec fn chain_type_values(s: Seq<ExtensionHeader>) -> Seq<u8> {
    Seq::new(s.len(), |i: int| s[i].spec_type().spec_value())
}

/// The payload number the record at `pos` with type octet `t` announces: the
/// 24-bit number of a long PDCP record, the 16-bit number of a PDCP or
/// UDP-port record, and nothing for the marker records.
pub open spec fn ext_value(b: Seq<u8>, pos: int, t: u8) -> int {
    if t == 0x82 {
        val24(b, pos + 1)
    } else if t == 0x40 || t == 0xC0 {
        val16(b, pos + 1)
    } else {
        0int
    }
}

/// The payload numbers of the chain decode starting at `pos` with announced
/// type octet `t`, in order.
pub open spec fn chain_values(b: Seq<u8>, pos: int, t: u8) -> Seq<int>
    decreases b.len() - pos,
    when 0 <= pos <= b.len()
{
    if t == 0 {
        Seq::empty()
    } else if pos + ext_size(t) > b.len() {
        Seq::empty()
    } else if ExtensionHeaderType::spec_from_u8(b[pos + ext_size(t) - 1]) is None {
        Seq::empty()
    } else {
        seq![ext_value(b, pos, t)] + chain_values(b, pos + ext_size(t), b[pos + ext_size(t) - 1])
    }
}

/// The payload numbers a list of records carries, in order.
pub open spec fn chain_payload_values(s: Seq<ExtensionHeader>) -> Seq<int> {
    Seq::new(s.len(), |i: int| s[i].payload_value())
}

/// The inputs `Header::parse` accepts: version 1, protocol type GTP, a known
/// message type, a buffer covering what the flags announce, and, when the E
/// flag is set, a known first extension type whose chain decode runs to its
/// terminator.
pub open spec fn parse_ok(b: Seq<u8>) -> bool {
    let s = ((b[0] / 2) % 2) as int;
    let pn = (b[0] % 2) as int;
    let e = ((b[0] / 4) % 2) as int;
    let opt_end = 8 + 2 * s + pn;
    &&& b.len() >= 8
    &&& b[0] / 32 == 1
    &&& (b[0] / 16) % 2 == 1
    &&& MessageType::spec_from_u8(b[1]) is Some
    &&& b.len() >= opt_end + e
    &&& (e == 1 ==> ExtensionHeaderType::spec_from_u8(b[opt_end]) is Some && chain_ok(
        b,
        opt_end + 1,
        b[opt_end],
    ))
}

/// The octets `Header::parse` consumes: the eight mandatory octets, the
/// optional octets the flags announce, and the extension chain.
pub open spec fn consumed(b: Seq<u8>) -> int {
    let s = ((b[0] / 2) % 2) as int;
    let pn = (b[0] % 2) as int;
    let e = ((b[0] / 4) % 2) as int;
    let opt_end = 8 + 2 * s + pn;
    if e == 1 {
        chain_end(b, opt_end + 1, b[opt_end])
    } else {
        opt_end
    }
}

/// GTPv1 header.
pub struct Header {
    /// Always 1.
    pub version: u8,
    pub message_type: MessageType,
    /// Protocol type: 1 for GTP (GTP' is not supported).
    pub pt: u8,
    /// Extension-header flag: 1 exactly when the chain is non-empty.
    pub e: u8,
    /// Sequence-number flag.
    pub s: u8,
    /// N-PDU-number flag.
    pub pn: u8,
    pub teid: u32,
    /// Length of the message that follows the header; the header's own
    /// optional part is added on top of it by `length`.
    pub payload_length: u16,
    pub sequence_number: u16,
    pub n_pdu_number: u8,
    pub extension_headers: Vec<ExtensionHeader>,
}

impl Header {
    /// The flags, E flag and chain are consistent.
    pub open spec fn wf(&self) -> bool {
        &&& self.version == 1
        &&& self.pt == 1
        &&& self.e <= 1
        &&& self.s <= 1
        &&& self.pn <= 1
        &&& (self.e == 1 <==> self.extension_headers@.len() > 0)
        &&& chain_wf(self.extension_headers@)
    }

    /// The value of the wire length field: everything after the mandatory
    /// eight octets.  Two octets for the sequence number if S is set, one for
    /// the N-PDU number if PN is set, one for the next-extension-type octet if
    /// E is set, the extension records themselves, and the message.
    pub open spec fn length_field(&self) -> int {
        self.payload_length + (if self.s == 1 {
            2int
        } else {
            0int
        }) + (if self.pn == 1 {
            1int
        } else {
            0int
        }) + (if self.e == 1 {
            1int
        } else {
            0int
        }) + exts_encoding(self.extension_headers@).len()
    }

    /// The first octet: version, protocol type and the three flags.
    pub open spec fn flags_value(&self) -> u8 {
        (self.version * 32 + self.pt * 16 + self.e * 4 + self.s * 2 + self.pn) as u8
    }

    /// The on-wire image of the header alone (the message is not included).
    pub open spec fn encoding(&self) -> Seq<u8> {
        seq![self.flags_value(), self.message_type.spec_value()] + be16(self.length_field() as u16)
            + be32(self.teid) + (if self.s == 1 {
            be16(self.sequence_number)
        } else {
            Seq::empty()
        }) + (if self.pn == 1 {
            seq![self.n_pdu_number]
        } else {
            Seq::empty()
        }) + (if self.e == 1 {
            seq![
                if self.extension_headers@.len() > 0 {
                    self.extension_headers@[0].spec_type().spec_value()
                } else {
                    0u8
                },
            ] + exts_encoding(self.extension_headers@)
        } else {
            Seq::empty()
        })
    }

    pub fn new(message_type: MessageType) -> (r: Self)
        ensures
            r == (Header {
                version: 1u8,
                message_type,
                pt: 1u8,
                e: 0u8,
                s: 0u8,
                pn: 0u8,
                teid: 0u32,
                payload_length: 0u16,
                sequence_number: 0u16,
                n_pdu_number: 0u8,
                extension_headers: r.extension_headers,
            }),
            r.extension_headers@.len() == 0,
            r.wf(),
    {
        Header {
            version: 1,
            message_type,
            payload_length: 0,
            pt: 1,
            e: 0,
            s: 0,
            pn: 0,
            teid: 0,
            sequence_number: 0,
            n_pdu_number: 0,
            extension_headers: Vec::new(),
        }
    }

    pub fn message_type(&self) -> (r: MessageType)
        ensures
            r == self.message_type,
    {
        self.message_type
    }

    /// The wire length field: the payload length plus two octets when S is
    /// set, one when PN is set, one when E is set, and four per unit of each
    /// extension record's own length field.
    pub fn length(&self) -> (r: u16)
        requires
            self.length_field() <= 0xFFFF,
        ensures
            r == self.length_field(),
    {
        let ghost s = self.extension_headers@;
        let mut length: u16 = self.payload_length;
        if self.s == 1 {
            length = length + 2;
        }
        if self.pn == 1 {
            length = length + 1;
        }
        if self.e == 1 {
            length = length + 1;
        }
        let n = self.extension_headers.len();
        let mut i: usize = 0;
        proof {
            assert(exts_encoding(s.take(0int)) =~= Seq::<u8>::empty());
        }
        while i < n
            invariant
                self.length_field() <= 0xFFFF,
                s == self.extension_headers@,
                n == s.len(),
                i <= n,
                length == self.length_field() - exts_encoding(s).len() + exts_encoding(
                    s.take(i as int),
                ).len(),
            decreases n - i,
        {
            proof {
                lemma_exts_encoding_take_step(s, i as int);
                lemma_exts_encoding_take_len(s, i + 1);
            }
            let eh_len = self.extension_headers[i].length();
            length = length + eh_len as u16;
            i = i + 1;
        }
        proof {
            assert(s.take(n as int) =~= s);
        }
        length
    }

    pub fn set_teid(&mut self, teid: u32)
        ensures
            *final(self) == (Header { teid, ..*old(self) }),
    {
        self.teid = teid;
    }

    pub fn teid(&self) -> (r: u32)
        ensures
            r == self.teid,
    {
        self.teid
    }

    pub fn enable_sequence_number(&mut self)
        ensures
            *final(self) == (Header { s: 1u8, ..*old(self) }),
    {
        self.s = 1;
    }

    pub fn disable_sequence_number(&mut self)
        ensures
            *final(self) == (Header { s: 0u8, ..*old(self) }),
    {
        self.s = 0;
    }

    pub fn set_sequence_number(&mut self, sequence_number: u16)
        ensures
            *final(self) == (Header { sequence_number, ..*old(self) }),
    {
        self.sequence_number = sequence_number;
    }

    pub fn sequence_number(&self) -> (r: u16)
        ensures
            r == self.sequence_number,
    {
        self.sequence_number
    }

    pub fn enable_n_pdu_number(&mut self)
        ensures
            *final(self) == (Header { pn: 1u8, ..*old(self) }),
    {
        self.pn = 1;
    }

    pub fn disable_n_pdu_number(&mut self)
        ensures
            *final(self) == (Header { pn: 0u8, ..*old(self) }),
    {
        self.pn = 0;
    }

    pub fn set_n_pdu_number(&mut self, n_pdu_number: u8)
        ensures
            *final(self) == (Header { n_pdu_number, ..*old(self) }),
    {
        self.n_pdu_number = n_pdu_number;
    }

    pub fn n_pdu_number(&self) -> (r: u8)
        ensures
            r == self.n_pdu_number,
    {
        self.n_pdu_number
    }

    pub fn set_payload_length(&mut self, payload_length: u16)
        ensures
            *final(self) == (Header { payload_length, ..*old(self) }),
    {
        self.payload_length = payload_length;
    }

    /// Appends a record to the chain: the previous tail is relinked to the
    /// newcomer's type, the E flag is raised, and the chain stays sound.
    pub fn push_extension_header(&mut self, extension_header: ExtensionHeader)
        requires
            old(self).wf(),
            extension_header.spec_next() == ExtensionHeaderType::NoMore,
        ensures
            final(self).wf(),
            final(self).e == 1,
            final(self).extension_headers@.len() == old(self).extension_headers@.len() + 1,
            final(self).extension_headers@.last() == extension_header,
            old(self).extension_headers@.len() > 0 ==> final(self).extension_headers@
                =~= old(self).extension_headers@.update(
                old(self).extension_headers@.len() - 1,
                old(self).extension_headers@.last().with_next(extension_header.spec_type()),
            ).push(extension_header),
            old(self).extension_headers@.len() == 0 ==> final(self).extension_headers@
                =~= seq![extension_header],
            final(self).message_type == old(self).message_type,
            final(self).teid == old(self).teid,
            final(self).s == old(self).s,
            final(self).pn == old(self).pn,
            final(self).sequence_number == old(self).sequence_number,
            final(self).n_pdu_number == old(self).n_pdu_number,
            final(self).payload_length == old(self).payload_length,
    {
        let ghost olds = self.extension_headers@;
        let len = self.extension_headers.len();
        if len > 0 {
            let new_type = extension_header.extension_header_type();
            let mut tail = self.extension_headers.pop().unwrap();
            tail.set_next_extension_header_type(new_type);
            self.extension_headers.push(tail);
            proof {
                assert(self.extension_headers@ =~= olds.update(
                    olds.len() - 1,
                    olds.last().with_next(extension_header.spec_type()),
                ));
                olds.last().lemma_encoding_shape();
            }
        }
        self.e = 1;
        self.extension_headers.push(extension_header);
        proof {
            let news = self.extension_headers@;
            assert forall|i: int| 0 <= i < news.len() - 1 implies (#[trigger] news[i].spec_next())
                == news[i + 1].spec_type() by {
                if i < olds.len() - 1 {
                    assert(olds[i].spec_next() == olds[i + 1].spec_type());
                } else {
                    olds.last().lemma_encoding_shape();
                }
            }
        }
    }

    /// Removes the tail of the chain: the new tail, if any, is relinked to
    /// `NoMore`; an emptied chain lowers the E flag.  The chain stays sound.
    pub fn pop_extension_header(&mut self) -> (r: Option<ExtensionHeader>)
        requires
            old(self).wf(),
        ensures
            final(self).wf(),
            old(self).extension_headers@.len() == 0 ==> {
                &&& r is None
                &&& final(self).extension_headers@ == old(self).extension_headers@
                &&& final(self).e == old(self).e
                &&& final(self).n_pdu_number == old(self).n_pdu_number
            },
            old(self).extension_headers@.len() > 0 ==> {
                &&& r == Some(old(self).extension_headers@.last())
                &&& final(self).extension_headers@.len() == old(self).extension_headers@.len() - 1
                &&& (final(self).e == 1 <==> final(self).extension_headers@.len() > 0)
            },
            old(self).extension_headers@.len() == 1 ==> final(self).extension_headers@ =~= Seq::<
                ExtensionHeader,
            >::empty(),
            old(self).extension_headers@.len() > 1 ==> final(self).extension_headers@ =~= old(
                self,
            ).extension_headers@.take(old(self).extension_headers@.len() - 1).update(
                old(self).extension_headers@.len() - 2,
                old(self).extension_headers@[old(self).extension_headers@.len() - 2].with_next(
                    ExtensionHeaderType::NoMore,
                ),
            ),
            final(self).message_type == old(self).message_type,
            final(self).teid == old(self).teid,
            final(self).s == old(self).s,
            final(self).pn == old(self).pn,
            final(self).sequence_number == old(self).sequence_number,
            final(self).n_pdu_number == old(self).n_pdu_number,
            final(self).payload_length == old(self).payload_length,
    {
        let ghost olds = self.extension_headers@;
        let extension_header = self.extension_headers.pop();
        if extension_header.is_some() {
            let len = self.extension_headers.len();
            if len > 0 {
                let mut tail = self.extension_headers.pop().unwrap();
                tail.set_next_extension_header_type(ExtensionHeaderType::NoMore);
                self.extension_headers.push(tail);
                proof {
                    let news = self.extension_headers@;
                    olds[olds.len() - 2].lemma_encoding_shape();
                    assert forall|i: int| 0 <= i < news.len() - 1 implies (
                    #[trigger] news[i].spec_next()) == news[i + 1].spec_type() by {
                        assert(news[i] == olds[i]);
                        assert(news[i + 1] == olds.drop_last().update(
                            olds.len() - 2,
                            olds[olds.len() - 2].with_next(ExtensionHeaderType::NoMore),
                        )[i + 1]);
                        if i + 1 < news.len() - 1 {
                            olds[i + 1].lemma_encoding_shape();
                        }
                    }
                }
            } else {
                self.e = 0;
            }
        }
        extension_header
    }

    /// Writes the header: the flags octet, the message type, the length
    /// field, the TEID, then the optional octets that the S, PN and E flags
    /// announce, and the extension chain.
    #[verifier::rlimit(100)]
    pub fn generate(&self, buffer: &mut Vec<u8>) -> (n: usize)
        requires
            self.wf(),
            self.length_field() <= 0xFFFF,
        ensures
            final(buffer)@ == old(buffer)@ + self.encoding(),
            n == self.encoding().len(),
    {
        let ghost s = self.extension_headers@;
        let start = buffer.len();
        buffer.push(self.version * 32 + self.pt * 16 + self.e * 4 + self.s * 2 + self.pn);
        buffer.push(self.message_type.value());
        write_u16_be(buffer, self.length());
        write_u32_be(buffer, self.teid);
        let mut pos: usize = 8;
        if self.s == 1 {
            write_u16_be(buffer, self.sequence_number);
            pos = pos + 2;
        }
        if self.pn == 1 {
            buffer.push(self.n_pdu_number);
            pos = pos + 1;
        }
        if self.e == 1 {
            if self.extension_headers.len() > 0 {
                buffer.push(self.extension_headers[0].extension_header_type().value());
            } else {
                buffer.push(ExtensionHeaderType::NoMore.value());
            }
            pos = pos + 1;
            let ghost mid = buffer@;
            let n = self.extension_headers.len();
            let mut i: usize = 0;
            proof {
                assert(exts_encoding(s.take(0int)) =~= Seq::<u8>::empty());
                assert(mid =~= mid + exts_encoding(s.take(0int)));
                lemma_exts_encoding_take_len(s, 0int);
                assert(s.take(n as int) =~= s);
            }
            while i < n
                invariant
                    self.wf(),
                    self.length_field() <= 0xFFFF,
                    s == self.extension_headers@,
                    n == s.len(),
                    i <= n,
                    pos <= 12,
                    buffer@ =~= mid + exts_encoding(s.take(i as int)),
                decreases n - i,
            {
                proof {
                    lemma_exts_encoding_take_step(s, i as int);
                }
                let eh_size = self.extension_headers[i].generate(buffer);
                i = i + 1;
            }
            proof {
                assert(s.take(n as int) =~= s);
            }
            assert(buffer@ =~= old(buffer)@ + self.encoding());
            return buffer.len() - start;
        }
        assert(buffer@ =~= old(buffer)@ + self.encoding());
        buffer.len() - start
    }

    /// Reads a header.  Version must be 1 and protocol type GTP; an unknown
    /// message type or extension type, or a buffer too short for what the
    /// flags announce, is fatal.  Returns the header, the wire length field,
    /// and the octets consumed.
    #[verifier::rlimit(100)]
    pub fn parse(buffer: &[u8]) -> (r: Option<(Self, u16, usize)>)
        ensures
            r is Some <==> parse_ok(buffer@),
            buffer@.len() < 8 ==> r is None,
            r matches Some((h, length, n)) ==> {
                &&& h.wf()
                &&& 8 <= n <= buffer@.len()
                &&& n == consumed(buffer@)
                &&& h.version == 1 && h.pt == 1
                &&& buffer@[0] / 32 == 1 && (buffer@[0] / 16) % 2 == 1
                &&& (h.e == 1 ==> (buffer@[0] / 4) % 2 == 1)
                &&& h.s == (buffer@[0] / 2) % 2 && h.pn == buffer@[0] % 2
                &&& Some(h.message_type) == MessageType::spec_from_u8(buffer@[1])
                &&& length == val16(buffer@, 2)
                &&& h.teid == val32(buffer@, 4)
                &&& h.payload_length == 0
                &&& (h.s == 1 ==> h.sequence_number == val16(buffer@, 8))
                &&& (h.s == 0 ==> h.sequence_number == 0)
                &&& (h.pn == 1 ==> h.n_pdu_number == buffer@[8 + 2 * (((buffer@[0] / 2) % 2) as int)])
                &&& (h.pn == 0 ==> h.n_pdu_number == 0)
                &&& ((buffer@[0] / 4) % 2 == 1 ==> chain_type_values(h.extension_headers@)
                    =~= chain_types(
                    buffer@,
                    9 + 2 * (((buffer@[0] / 2) % 2) as int) + ((buffer@[0] % 2) as int),
                    buffer@[8 + 2 * (((buffer@[0] / 2) % 2) as int) + ((buffer@[0] % 2) as int)],
                ))
                &&& ((buffer@[0] / 4) % 2 == 1 ==> chain_payload_values(h.extension_headers@)
                    =~= chain_values(
                    buffer@,
                    9 + 2 * (((buffer@[0] / 2) % 2) as int) + ((buffer@[0] % 2) as int),
                    buffer@[8 + 2 * (((buffer@[0] / 2) % 2) as int) + ((buffer@[0] % 2) as int)],
                ))
                &&& ((buffer@[0] / 4) % 2 == 0 ==> h.extension_headers@.len() == 0)
            },
    {
        if buffer.len() < 8 {
            return None;
        }
        let ghost b = buffer@;
        let flags = buffer[0];
        let version = flags / 32;
        let pt = (flags / 16) % 2;
        let e = (flags / 4) % 2;
        let s = (flags / 2) % 2;
        let pn = flags % 2;
        if version != 1 {
            return None;
        }
        if pt != 1 {
            return None;
        }
        let message_type = match MessageType::try_from_u8(buffer[1]) {
            Some(t) => t,
            None => { return None },
        };
        let length = read_u16_be(buffer, 2);
        let teid = read_u32_be(buffer, 4);
        let mut h = Self::new(message_type);
        h.set_teid(teid);
        let mut pos: usize = 8;
        if s == 1 {
            if buffer.len() < pos + 2 {
                return None;
            }
            let sequence_number = read_u16_be(buffer, pos);
            pos = pos + 2;
            h.set_sequence_number(sequence_number);
            h.enable_sequence_number();
        }
        if pn == 1 {
            if buffer.len() < pos + 1 {
                return None;
            }
            h.set_n_pdu_number(buffer[pos]);
            pos = pos + 1;
            h.enable_n_pdu_number();
        }
        if e == 1 {
            if buffer.len() < pos + 1 {
                return None;
            }
            let ghost oe = pos as int;
            let mut next_type = match ExtensionHeaderType::try_from_u8(buffer[pos]) {
                Some(t) => t,
                None => { return None },
            };
            proof {
                extension_headers::lemma_ext_type_value(b[oe]);
                assert(chain_type_values(h.extension_headers@) =~= Seq::<u8>::empty());
                assert(chain_payload_values(h.extension_headers@) =~= Seq::<int>::empty());
            }
            pos = pos + 1;
            loop
                invariant
                    b == buffer@,
                    b.len() >= 8,
                    b[0] / 32 == 1 && (b[0] / 16) % 2 == 1,
                    e == (b[0] / 4) % 2 && s == (b[0] / 2) % 2 && pn == b[0] % 2,
                    e == 1,
                    MessageType::spec_from_u8(b[1]) is Some,
                    oe == 8 + 2 * (s as int) + (pn as int),
                    b.len() >= oe + 1,
                    ExtensionHeaderType::spec_from_u8(b[oe]) is Some,
                    h.version == 1 && h.pt == 1,
                    h.e <= 1 && h.s <= 1 && h.pn <= 1,
                    h.s == s && h.pn == pn,
                    (h.e == 1 <==> h.extension_headers@.len() > 0),
                    chain_linked(h.extension_headers@),
                    h.extension_headers@.len() > 0 ==> h.extension_headers@.last().spec_next()
                        == next_type,
                    h.message_type == message_type,
                    Some(message_type) == MessageType::spec_from_u8(b[1]),
                    h.teid == teid,
                    h.payload_length == 0,
                    s == 1 ==> h.sequence_number == val16(b, 8),
                    s == 0 ==> h.sequence_number == 0,
                    pn == 1 ==> h.n_pdu_number == b[8 + 2 * (s as int)],
                    pn == 0 ==> h.n_pdu_number == 0,
                    8 <= pos <= b.len() <= usize::MAX,
                    chain_ok(b, oe + 1, b[oe]) == chain_ok(b, pos as int, next_type.spec_value()),
                    chain_ok(b, pos as int, next_type.spec_value()) ==> chain_end(b, oe + 1, b[oe])
                        == chain_end(b, pos as int, next_type.spec_value()),
                    chain_ok(b, pos as int, next_type.spec_value()) ==> chain_types(b, oe + 1, b[oe])
                        =~= chain_type_values(h.extension_headers@) + chain_types(
                        b,
                        pos as int,
                        next_type.spec_value(),
                    ),
                    chain_ok(b, pos as int, next_type.spec_value()) ==> chain_values(b, oe + 1, b[oe])
                        =~= chain_payload_values(h.extension_headers@) + chain_values(
                        b,
                        pos as int,
                        next_type.spec_value(),
                    ),
                ensures
                    h.wf(),
                    h.version == 1 && h.pt == 1,
                    h.s == s && h.pn == pn,
                    h.message_type == message_type,
                    h.teid == teid,
                    h.payload_length == 0,
                    s == 1 ==> h.sequence_number == val16(b, 8),
                    s == 0 ==> h.sequence_number == 0,
                    pn == 1 ==> h.n_pdu_number == b[8 + 2 * (s as int)],
                    pn == 0 ==> h.n_pdu_number == 0,
                    8 <= pos <= b.len(),
                    chain_ok(b, oe + 1, b[oe]),
                    pos == chain_end(b, oe + 1, b[oe]),
                    chain_type_values(h.extension_headers@) =~= chain_types(b, oe + 1, b[oe]),
                    chain_payload_values(h.extension_headers@) =~= chain_values(b, oe + 1, b[oe]),
                decreases b.len() - pos + 1,
            {
                match next_type {
                    ExtensionHeaderType::NoMore => {
                        break ;
                    },
                    _ => {
                    },
                }
                let parsed = parse_one_extension(next_type, buffer, pos);
                match parsed {
                    Some((eh, eh_pos)) => {
                        proof {
                            eh.lemma_encoding_shape();
                            extension_headers::lemma_ext_type_value(
                                b[pos + ext_size(next_type.spec_value()) - 1],
                            );
                        }
                        let ghost old_chain = h.extension_headers@;
                        next_type = eh.next_extension_header_type();
                        h.push_extension_chain_tail(eh);
                        proof {
                            assert(chain_type_values(h.extension_headers@) =~= chain_type_values(
                                old_chain,
                            ).push(eh.spec_type().spec_value()));
                            assert(chain_payload_values(h.extension_headers@)
                                =~= chain_payload_values(old_chain).push(eh.payload_value()));
                        }
                        pos = pos + eh_pos;
                    },
                    None => {
                        return None;
                    },
                }
            }
        }
        Some((h, length, pos))
    }

    /// Appends a record whose successor link is already correct, as the
    /// decoder reads them off the wire in chain order.
    fn push_extension_chain_tail(&mut self, extension_header: ExtensionHeader)
        requires
            chain_linked(old(self).extension_headers@),
            old(self).extension_headers@.len() > 0 ==> old(
                self,
            ).extension_headers@.last().spec_next() == extension_header.spec_type(),
        ensures
            *final(self) == (Header {
                e: 1u8,
                extension_headers: final(self).extension_headers,
                ..*old(self)
            }),
            final(self).extension_headers@ == old(self).extension_headers@.push(extension_header),
            final(self).e == 1,
            chain_linked(final(self).extension_headers@),
    {
        let ghost olds = self.extension_headers@;
        self.e = 1;
        self.extension_headers.push(extension_header);
        proof {
            let news = self.extension_headers@;
            assert forall|i: int| 0 <= i < news.len() - 1 implies (#[trigger] news[i].spec_next())
                == news[i + 1].spec_type() by {
                if i < olds.len() - 1 {
                    assert(olds[i].spec_next() == olds[i + 1].spec_type());
                }
            }
        }
    }
}

/// Reads one extension record of the announced type at `pos`.
fn parse_one_extension(next_type: ExtensionHeaderType, buffer: &[u8], pos: usize) -> (r: Option<
    (ExtensionHeader, usize),
>)
    requires
        pos <= buffer@.len(),
        !(next_type is NoMore),
    ensures
        r is Some <==> pos + ext_size(next_type.spec_value()) <= buffer@.len()
            && ExtensionHeaderType::spec_from_u8(
            buffer@[pos + ext_size(next_type.spec_value()) - 1],
        ) is Some,
        r matches Some((eh, n)) ==> {
            &&& eh.spec_type() == next_type
            &&& n == ext_size(next_type.spec_value())
            &&& 0 < n <= buffer@.len() - pos
            &&& Some(eh.spec_next()) == ExtensionHeaderType::spec_from_u8(buffer@[pos + n - 1])
            &&& eh.payload_value() == ext_value(buffer@, pos as int, next_type.spec_value())
        },
{
    let rest = &buffer[pos..buffer.len()];
    match next_type {
        ExtensionHeaderType::NoMore => None,
        ExtensionHeaderType::MbmsSi => {
            match extension_headers::mbms_support_indication::ExtensionHeader::parse(rest) {
                Some((eh, n)) => Some((ExtensionHeader::MbmsSi(eh), n)),
                None => None,
            }
        },
        ExtensionHeaderType::MsInfoChange => {
            match extension_headers::ms_info_change_reporting_support_indication::ExtensionHeader::parse(
                rest,
            ) {
                Some((eh, n)) => Some((ExtensionHeader::MsInfoChange(eh), n)),
                None => None,
            }
        },
        ExtensionHeaderType::UDPPort => {
            match extension_headers::udp_port::ExtensionHeader::parse(rest) {
                Some((eh, n)) => Some((ExtensionHeader::UDPPort(eh), n)),
                None => None,
            }
        },
        ExtensionHeaderType::LongPdcpPduNumber => {
            match extension_headers::long_pdcp_pdu_number::ExtensionHeader::parse(rest) {
                Some((eh, n)) => Some((ExtensionHeader::LongPdcpPduNumber(eh), n)),
                None => None,
            }
        },
        ExtensionHeaderType::PdcpPduNum => {
            match extension_headers::pdcp_pdu_number::ExtensionHeader::parse(rest) {
                Some((eh, n)) => Some((ExtensionHeader::PdcpPduNum(eh), n)),
                None => None,
            }
        },
        ExtensionHeaderType::SuspendReq => {
            match extension_headers::suspend_request::ExtensionHeader::parse(rest) {
                Some((eh, n)) => Some((ExtensionHeader::SuspendReq(eh), n)),
                None => None,
            }
        },
        ExtensionHeaderType::SuspendRes => {
            match extension_headers::suspend_response::ExtensionHeader::parse(rest) {
                Some((eh, n)) => Some((ExtensionHeader::SuspendRes(eh), n)),
                None => None,
            }
        },
    }
}

} // verus!
