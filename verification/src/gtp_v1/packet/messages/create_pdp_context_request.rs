//! Create PDP Context Request message (GTPv1): a list of information
//! elements, generated in the order they were pushed.

use vstd::prelude::*;

use crate::bytes::cat_bytes;

use super::{MessageTraits, MessageType};
use super::information_elements::{
    InformationElement,
    InformationElementTraits,
    element_ok,
    element_size,
    lemma_v1_scan_dead,
    lemma_v1_scan_step,
    lemma_v1_type_count_step,
    scan_ok,
    type_count,
};

verus! {

/// The inputs `parse` accepts: a buffer a length field could declare, read
/// as element after element to the very end, that carries every mandatory
/// element: a TEID Data I, an NSAPI, a GSN address each for signalling and
/// for user traffic, and a quality-of-service profile.
pub open spec fn parse_ok(b: Seq<u8>) -> bool {
    &&& b.len() <= 0xFFFF
    &&& scan_ok(b)
    &&& type_count(b, 16) >= 1
    &&& type_count(b, 20) >= 1
    &&& type_count(b, 133) >= 2
    &&& type_count(b, 135) >= 1
}

/// The concatenated images of a list of information elements.
pub open spec fn ies_encoding(s: Seq<InformationElement>) -> Seq<u8> {
    cat_bytes(s, |ie: InformationElement| ie.encoding())
}

/// One more element appends its image.
pub proof fn lemma_ies_encoding_take_step(s: Seq<InformationElement>, i: int)
    requires
        0 <= i < s.len(),
    ensures
        ies_encoding(s.take(i + 1)) == ies_encoding(s.take(i)) + s[i].encoding(),
{
    assert(s.take(i + 1).drop_last() =~= s.take(i));
    assert(s.take(i + 1).last() == s[i]);
}

/// A prefix's image is no longer than the whole list's.
pub proof fn lemma_ies_encoding_take_len(s: Seq<InformationElement>, i: int)
    requires
        0 <= i <= s.len(),
    ensures
        ies_encoding(s.take(i)).len() <= ies_encoding(s).len(),
    decreases s.len() - i,
{
    if i == s.len() {
        assert(s.take(i) =~= s);
    } else {
        lemma_ies_encoding_take_step(s, i);
        lemma_ies_encoding_take_len(s, i + 1);
    }
}

/// Create PDP Context Request message body.
pub struct Message {
    pub information_elements: Vec<InformationElement>,
}

impl Message {
    pub fn new() -> (r: Self)
        ensures
            r.information_elements@.len() == 0,
    {
        Message { information_elements: Vec::new() }
    }

    /// Reads information elements until the buffer is exhausted, then checks
    /// that every mandatory element was met: a TEID Data I, an NSAPI, two GSN
    /// addresses (signalling and user traffic) and a QoS profile.  An element
    /// the catalog does not know is fatal: GTPv1 elements do not carry a
    /// self-describing length, so there is no skip path.  A buffer longer
    /// than the sixteen-bit length field could have declared is refused.
    #[verifier::rlimit(100)]
    pub fn parse(buffer: &[u8]) -> (r: Option<(Self, usize)>)
        ensures
            r is Some <==> parse_ok(buffer@),
            r matches Some((m, n)) ==> n == buffer@.len() && m.wf(),
    {
        let mut ies: Vec<InformationElement> = Vec::new();
        let mut pos: usize = 0;
        let mut teid_count: usize = 0;
        let mut nsapi_count: usize = 0;
        let mut gsn_count: usize = 0;
        let mut qos_count: usize = 0;
        let n = buffer.len();
        if n > 0xFFFF {
            return None;
        }
        let ghost b = buffer@;
        proof {
            assert(b.skip(0int) =~= b);
        }
        while pos < n
            invariant
                b == buffer@,
                n == buffer@.len() <= 0xFFFF,
                pos <= n,
                scan_ok(b) == scan_ok(b.skip(pos as int)),
                teid_count <= pos && nsapi_count <= pos && gsn_count <= pos && qos_count <= pos,
                type_count(b, 16) == teid_count + type_count(b.skip(pos as int), 16),
                type_count(b, 20) == nsapi_count + type_count(b.skip(pos as int), 20),
                type_count(b, 133) == gsn_count + type_count(b.skip(pos as int), 133),
                type_count(b, 135) == qos_count + type_count(b.skip(pos as int), 135),
                forall|i: int| 0 <= i < ies@.len() ==> (#[trigger] ies@[i]).wf(),
                ies_encoding(ies@).len() <= pos,
            decreases n - pos,
        {
            let ghost olds = ies@;
            let ghost s = b.skip(pos as int);
            proof {
                assert(s =~= buffer@.subrange(pos as int, n as int));
            }
            match InformationElement::parse(&buffer[pos..n]) {
                Some((ie, ie_pos)) => {
                    proof {
                        lemma_v1_scan_step(s);
                        lemma_v1_type_count_step(s);
                        assert(b.skip(pos as int).skip(element_size(s)) =~= b.skip(pos + ie_pos));
                    }
                    let t0 = buffer[pos];
                    if t0 == 16 {
                        teid_count = teid_count + 1;
                    } else if t0 == 20 {
                        nsapi_count = nsapi_count + 1;
                    } else if t0 == 133 {
                        gsn_count = gsn_count + 1;
                    } else if t0 == 135 {
                        qos_count = qos_count + 1;
                    }
                    ies.push(ie);
                    proof {
                        assert(ies@.drop_last() =~= olds);
                        assert(ies_encoding(ies@) == ies_encoding(olds) + ie.encoding());
                    }
                    pos = pos + ie_pos;
                },
                None => {
                    proof {
                        lemma_v1_scan_dead(s);
                    }
                    return None;
                },
            }
        }
        proof {
            assert(b.skip(n as int) =~= Seq::<u8>::empty());
        }
        if teid_count < 1 || nsapi_count < 1 || gsn_count < 2 || qos_count < 1 {
            return None;
        }
        Some((Message { information_elements: ies }, pos))
    }
}

impl MessageTraits for Message {
    open spec fn encoding(&self) -> Seq<u8> {
        ies_encoding(self.information_elements@)
    }

    open spec fn ies(&self) -> Seq<InformationElement> {
        self.information_elements@
    }

    open spec fn spec_type(&self) -> MessageType {
        MessageType::CreatePDPContextRequest
    }

    open spec fn wf(&self) -> bool {
        &&& forall|i: int|
            0 <= i < self.information_elements@.len()
                ==> (#[trigger] self.information_elements@[i]).wf()
        &&& self.encoding().len() <= 0xFFFF
    }

    fn message_type(&self) -> (r: MessageType) {
        MessageType::CreatePDPContextRequest
    }

    fn length(&self) -> (r: u16) {
        let ghost s = self.information_elements@;
        let mut length: u16 = 0;
        let n = self.information_elements.len();
        let mut i: usize = 0;
        while i < n
            invariant
                self.wf(),
                s == self.information_elements@,
                n == s.len(),
                i <= n,
                length == ies_encoding(s.take(i as int)).len(),
            decreases n - i,
        {
            proof {
                lemma_ies_encoding_take_step(s, i as int);
                lemma_ies_encoding_take_len(s, i + 1);
            }
            let ie_len = self.information_elements[i].length();
            length = length + ie_len;
            i = i + 1;
        }
        proof {
            assert(s.take(n as int) =~= s);
        }
        length
    }

    fn generate(&self, buffer: &mut Vec<u8>) -> (n: usize) {
        let ghost s = self.information_elements@;
        let count = self.information_elements.len();
        let mut pos: usize = 0;
        let mut i: usize = 0;
        while i < count
            invariant
                self.wf(),
                s == self.information_elements@,
                count == s.len(),
                i <= count,
                pos == ies_encoding(s.take(i as int)).len(),
                buffer@ =~= old(buffer)@ + ies_encoding(s.take(i as int)),
            decreases count - i,
        {
            proof {
                lemma_ies_encoding_take_step(s, i as int);
                lemma_ies_encoding_take_len(s, i + 1);
            }
            let ie_size = self.information_elements[i].generate(buffer);
            pos = pos + ie_size;
            i = i + 1;
        }
        proof {
            assert(s.take(count as int) =~= s);
        }
        pos
    }

    fn push_ie(&mut self, ie: InformationElement) {
        self.information_elements.push(ie);
    }

    fn pop_ie(&mut self) -> (r: Option<InformationElement>) {
        self.information_elements.pop()
    }
}

} // verus!
