//! Echo Request message (GTPv2): its one mandatory information element is
//! the Recovery (restart counter) of the sender.

use vstd::prelude::*;

use crate::bytes::val16;

use super::{MessageTraits, MessageType};
use super::information_elements::{
    InformationElement,
    InformationElementTraits,
    found,
    lemma_scan_dead,
    lemma_scan_empty,
    lemma_scan_step,
    recovery,
    segments_ok,
};

verus! {

/// The inputs `parse` accepts: a buffer a length field could declare, whose
/// element scan runs to the end and meets a Recovery element.
pub open spec fn parse_ok(b: Seq<u8>) -> bool {
    b.len() <= 0xFFFF && segments_ok(b) && found(b, 3, None)
}

/// Echo Request message body.
pub struct Message {
    pub recovery: recovery::InformationElement,
}

impl Message {
    pub fn new(recovery: recovery::InformationElement) -> (r: Message)
        ensures
            r.recovery == recovery,
    {
        Message { recovery }
    }

    /// Reads the body: elements are scanned over the whole buffer, the last
    /// Recovery wins, anything else is skipped.  It fails exactly when no
    /// Recovery is found, an element overruns the buffer, or the buffer is
    /// longer than a length field could have declared.
    #[verifier::rlimit(100)]
    pub fn parse(buffer: &[u8]) -> (r: Option<(Self, usize)>)
        ensures
            r is Some <==> parse_ok(buffer@),
            r matches Some((m, n)) ==> n == buffer@.len() && m.wf(),
    {
        let n = buffer.len();
        if n > 0xFFFF {
            return None;
        }
        let ghost b = buffer@;
        proof {
            assert(b.skip(0int) =~= b);
        }
        let mut recovery: Option<recovery::InformationElement> = None;
        let mut pos: usize = 0;
        while pos < n
            invariant
                b == buffer@,
                n == buffer@.len() <= 0xFFFF,
                pos <= n,
                recovery matches Some(ie) ==> ie.wf(),
                segments_ok(b) == segments_ok(b.skip(pos as int)),
                found(b, 3, None) == (recovery is Some || found(b.skip(pos as int), 3, None)),
            decreases n - pos,
        {
            let ghost s = b.skip(pos as int);
            proof {
                assert(s =~= buffer@.subrange(pos as int, n as int));
            }
            match InformationElement::parse(&buffer[pos..n]) {
                Some((ie, ie_pos)) => {
                    proof {
                        lemma_scan_step(s);
                        assert(b.skip(pos as int).skip(4 + val16(s, 1)) =~= b.skip(
                            pos + ie_pos,
                        ));
                    }
                    match ie {
                        InformationElement::Recovery(inner) => {
                            recovery = Some(inner);
                        },
                        _ => {},
                    }
                    pos = pos + ie_pos;
                },
                None => {
                    if n - pos < 3 {
                        proof {
                            lemma_scan_dead(s);
                        }
                        return None;
                    }
                    let skip = InformationElement::skip_parsing(&buffer[pos..n]);
                    if skip > n - pos {
                        proof {
                            lemma_scan_dead(s);
                        }
                        return None;
                    }
                    proof {
                        lemma_scan_step(s);
                        assert(b.skip(pos as int).skip(4 + val16(s, 1)) =~= b.skip(pos + skip));
                    }
                    pos = pos + skip;
                },
            }
        }
        proof {
            lemma_scan_empty(b.skip(pos as int));
        }
        match recovery {
            Some(recovery) => Some((Message { recovery }, pos)),
            None => None,
        }
    }
}

impl MessageTraits for Message {
    open spec fn encoding(&self) -> Seq<u8> {
        self.recovery.encoding()
    }

    open spec fn spec_type(&self) -> MessageType {
        MessageType::EchoRequest
    }

    open spec fn wf(&self) -> bool {
        self.recovery.wf()
    }

    fn message_type(&self) -> (r: MessageType) {
        MessageType::EchoRequest
    }

    fn length(&self) -> (r: u16) {
        self.recovery.length()
    }

    fn generate(&self, buffer: &mut Vec<u8>) -> (n: usize) {
        self.recovery.generate(buffer)
    }
}

} // verus!
