//! Access Point Name information element: the dotted ASCII name, encoded as
//! a DNS-style label sequence (a length octet before each label, no
//! terminating zero label).

use vstd::prelude::*;
use vstd::string::StringSliceAdditionalSpecFns;

use crate::bytes::val16;
use crate::errors::GtpError;

use super::{
    InformationElementTraits,
    InformationElementType,
    ie_header,
    write_ie_header,
    read_ie_header,
};

verus! {

/// The position of the first dot of `s` at or after `i`, or the end.
pub open spec fn next_dot(s: Seq<u8>, i: int) -> int
    decreases s.len() - i,
    when i <= s.len()
{
    if i >= s.len() {
        s.len() as int
    } else if s[i] == 46 {
        i
    } else {
        next_dot(s, i + 1)
    }
}

/// The next dot lies between `i` and the end, and nothing before it is a
/// dot.
pub proof fn lemma_next_dot(s: Seq<u8>, i: int)
    requires
        0 <= i <= s.len(),
    ensures
        i <= next_dot(s, i) <= s.len(),
        forall|k: int| i <= k < next_dot(s, i) ==> s[k] != 46,
        next_dot(s, i) < s.len() ==> s[next_dot(s, i)] == 46,
    decreases s.len() - i,
{
    if i < s.len() && s[i] != 46 {
        lemma_next_dot(s, i + 1);
    }
}

/// A dotted name this element can encode: non-empty, at most 255 octets,
/// ASCII, with no empty labels.
pub open spec fn apn_wf(s: Seq<u8>) -> bool {
    &&& 1 <= s.len() <= 255
    &&& forall|i: int| 0 <= i < s.len() ==> #[trigger] s[i] < 128
    &&& s[0] != 46
    &&& s[s.len() - 1] != 46
    &&& forall|i: int| 0 <= i < s.len() - 1 ==> !(#[trigger] s[i] == 46 && s[i + 1] == 46)
}

/// The label-sequence image of a dotted name: the first label's length, then
/// the name with each dot replaced by the length of the label that follows
/// it.
pub closed spec fn labels_encoding(s: Seq<u8>) -> Seq<u8> {
    seq![next_dot(s, 0) as u8] + Seq::new(
        s.len(),
        |i: int|
            if s[i] == 46 {
                (next_dot(s, i + 1) - i - 1) as u8
            } else {
                s[i]
            },
    )
}

/// Whether `b` holds a well-formed label sequence from `pos` up to exactly
/// `total`: each length octet introduces a non-empty label of ASCII,
/// non-dot, non-zero octets.
pub open spec fn labels_ok(b: Seq<u8>, pos: int, total: int) -> bool
    decreases total - pos,
    when pos <= total
{
    if pos >= total {
        true
    } else if pos >= b.len() {
        false
    } else {
        let l = b[pos] as int;
        &&& l >= 1
        &&& pos + 1 + l <= total
        &&& (forall|k: int| pos + 1 <= k < pos + 1 + l ==> 0 < #[trigger] b[k] < 128 && b[k] != 46)
        &&& labels_ok(b, pos + 1 + l, total)
    }
}

/// The dotted name a label sequence denotes: the labels between `pos` and
/// `total`, joined with dots.  A label that overruns `total` is cut there.
pub open spec fn recovered_name(b: Seq<u8>, pos: int, total: int) -> Seq<u8>
    decreases total - pos,
    when pos <= total && total <= b.len()
{
    if pos >= total {
        Seq::empty()
    } else {
        let l = b[pos] as int;
        if pos + 1 + l >= total {
            b.subrange(pos + 1, total)
        } else {
            b.subrange(pos + 1, pos + 1 + l) + seq![46u8] + recovered_name(b, pos + 1 + l, total)
        }
    }
}

/// The inputs `parse` accepts: the element header is satisfied, the declared
/// body is 2 to 256 octets, and it holds a well-formed label sequence.
pub open spec fn parse_ok(b: Seq<u8>) -> bool {
    b.len() >= 4 && b[0] == 71 && 4 + val16(b, 1) <= b.len() && 2 <= val16(b, 1) <= 256
        && labels_ok(b, 4, 4 + val16(b, 1))
}

/// APN information element.
pub struct InformationElement {
    /// At most 0xF.
    pub instance: u8,
    /// The dotted ASCII name, one octet per character.
    pub apn: Vec<u8>,
}

impl InformationElement {
    /// Accepts exactly a dotted name of one to 255 ASCII octets with no
    /// empty labels, under a four-bit instance.
    #[verifier::loop_isolation(false)]
    pub fn new(apn: &str, instance: u8) -> (r: Result<Self, GtpError>)
        ensures
            instance > 0xF ==> r == Err::<Self, GtpError>(GtpError::InstanceTooLarge),
            instance <= 0xF ==> {
                &&& (r is Ok <==> apn_wf(apn.spec_bytes()))
                &&& (r matches Ok(ie) ==> ie.apn@ == apn.spec_bytes() && ie.instance == instance
                    && ie.wf())
            },
    {
        if instance > 0xF {
            return Err(GtpError::InstanceTooLarge);
        }
        let bytes = apn.as_bytes();
        let n = bytes.len();
        if n < 1 || n > 255 {
            return Err(GtpError::ApnMalformed);
        }
        if bytes[0] == 46 || bytes[n - 1] == 46 {
            return Err(GtpError::ApnMalformed);
        }
        let mut i: usize = 0;
        while i < n
            invariant
                n == bytes@.len(),
                i <= n,
                forall|k: int| 0 <= k < i ==> #[trigger] bytes@[k] < 128,
                forall|k: int| 0 <= k < i - 1 ==> !(#[trigger] bytes@[k] == 46 && bytes@[k + 1] == 46),
            decreases n - i,
        {
            if bytes[i] >= 128 {
                return Err(GtpError::ApnMalformed);
            }
            if i > 0 {
                if bytes[i] == 46 && bytes[i - 1] == 46 {
                    return Err(GtpError::ApnMalformed);
                }
            }
            i = i + 1;
        }
        let stored = vstd::slice::slice_to_vec(bytes);
        Ok(InformationElement { instance, apn: stored })
    }

    /// Reads one element: each length octet introduces a label; labels are
    /// joined with dots.  It fails exactly on a header the buffer cannot
    /// satisfy, or on a label sequence that is empty, holds an empty label,
    /// overruns its declared length, exceeds 256 octets in all, or holds a
    /// non-ASCII or dot octet.
    #[verifier::rlimit(100)]
    #[verifier::loop_isolation(false)]
    pub fn parse(buffer: &[u8]) -> (r: Option<(Self, usize)>)
        ensures
            r is Some <==> parse_ok(buffer@),
            r matches Some((ie, n)) ==> {
                &&& buffer@.len() >= 4
                &&& buffer@[0] == 71
                &&& n == 4 + val16(buffer@, 1)
                &&& n <= buffer@.len()
                &&& ie.wf()
                &&& ie.encoding().len() <= n
                &&& ie.instance == buffer@[3] % 16
                &&& ie.apn@ == recovered_name(buffer@, 4, n as int)
            },
    {
        let (length, instance, total) = match read_ie_header(buffer, 71) {
            Some(h) => h,
            None => { return None },
        };
        if length < 2 || length > 256 {
            return None;
        }
        let mut apn: Vec<u8> = Vec::new();
        let mut pos: usize = 4;
        while pos < total
            invariant
                buffer@.len() >= total,
                4 <= pos <= total,
                total == 4 + length,
                2 <= length <= 256,
                labels_ok(buffer@, 4, total as int) == labels_ok(buffer@, pos as int, total as int),
                apn@.len() <= pos - 4,
                apn@.len() > 0 ==> pos > 4 && apn@.len() == pos - 5,
                apn@.len() == 0 ==> pos == 4,
                forall|k: int| 0 <= k < apn@.len() ==> #[trigger] apn@[k] < 128,
                apn@.len() > 0 ==> apn@[0] != 46,
                apn@.len() > 0 ==> apn@[apn@.len() - 1] != 46,
                forall|k: int|
                    0 <= k < apn@.len() - 1 ==> !(#[trigger] apn@[k] == 46 && apn@[k + 1] == 46),
                apn@.len() == 0 ==> recovered_name(buffer@, 4, total as int) == recovered_name(
                    buffer@,
                    pos as int,
                    total as int,
                ),
                apn@.len() > 0 && pos < total ==> recovered_name(buffer@, 4, total as int) == apn@
                    + seq![46u8] + recovered_name(buffer@, pos as int, total as int),
                apn@.len() > 0 && pos == total ==> recovered_name(buffer@, 4, total as int) == apn@,
            decreases total - pos,
        {
            let label_length = buffer[pos] as usize;
            if label_length == 0 {
                return None;
            }
            if pos + 1 + label_length > total {
                return None;
            }
            let ghost prior = apn@;
            if apn.len() > 0 {
                apn.push(46);
            }
            let mut j: usize = 0;
            let ghost before = apn@;
            proof {
                assert(apn@ =~= before + buffer@.subrange(pos + 1, pos + 1));
            }
            while j < label_length
                invariant
                    buffer@.len() >= total,
                    pos + 1 + label_length <= total,
                    j <= label_length,
                    apn@.len() == before.len() + j,
                    forall|k: int| 0 <= k < before.len() ==> apn@[k] == before[k],
                    forall|k: int|
                        before.len() <= k < apn@.len() ==> 0 < #[trigger] apn@[k] < 128 && apn@[k]
                            != 46,
                    forall|k: int| 0 <= k < before.len() ==> #[trigger] before[k] < 128,
                    before.len() > 0 ==> before[0] != 46,
                    forall|k: int|
                        0 <= k < before.len() - 1 ==> !(#[trigger] before[k] == 46 && before[k + 1]
                            == 46),
                    before.len() > 0 ==> apn@[0] != 46,
                    before.len() == 0 && j > 0 ==> apn@[0] != 46,
                    forall|k: int|
                        pos + 1 <= k < pos + 1 + j ==> 0 < #[trigger] buffer@[k] < 128 && buffer@[k]
                            != 46,
                    apn@ == before + buffer@.subrange(pos + 1, pos + 1 + j as int),
                decreases label_length - j,
            {
                let b = buffer[pos + 1 + j];
                if b == 0 || b >= 128 || b == 46 {
                    proof {
                        assert(!labels_ok(buffer@, pos as int, total as int));
                    }
                    return None;
                }
                apn.push(b);
                proof {
                    assert(apn@ =~= before + buffer@.subrange(pos + 1, pos + 1 + j + 1));
                }
                j = j + 1;
            }
            proof {
                assert forall|k: int| 0 <= k < apn@.len() implies #[trigger] apn@[k] < 128 by {
                    if k < before.len() {
                        assert(apn@[k] == before[k]);
                    }
                }
                assert forall|k: int| 0 <= k < apn@.len() - 1 implies !(#[trigger] apn@[k] == 46
                    && apn@[k + 1] == 46) by {
                    if k + 1 < before.len() {
                        assert(apn@[k] == before[k] && apn@[k + 1] == before[k + 1]);
                    } else {
                        assert(apn@[k + 1] != 46);
                    }
                }
            }
            proof {
                assert(labels_ok(buffer@, pos as int, total as int) == labels_ok(
                    buffer@,
                    pos + 1 + label_length,
                    total as int,
                ));
            }
            proof {
                let b = buffer@;
                let t = total as int;
                let p = pos as int;
                let l = label_length as int;
                let label = b.subrange(p + 1, p + 1 + l);
                if p + 1 + l == t {
                    assert(label =~= b.subrange(p + 1, t));
                    assert(recovered_name(b, p, t) == label);
                    if prior.len() == 0 {
                        assert(recovered_name(b, 4, t) =~= apn@);
                    } else {
                        assert(apn@ =~= prior + seq![46u8] + label);
                        assert(recovered_name(b, 4, t) =~= apn@);
                    }
                } else {
                    assert(recovered_name(b, p, t) == label + seq![46u8] + recovered_name(
                        b,
                        p + 1 + l,
                        t,
                    ));
                    if prior.len() == 0 {
                        assert(apn@ =~= label);
                        assert(recovered_name(b, 4, t) =~= apn@ + seq![46u8] + recovered_name(
                            b,
                            p + 1 + l,
                            t,
                        ));
                    } else {
                        assert(apn@ =~= prior + seq![46u8] + label);
                        assert(recovered_name(b, 4, t) =~= apn@ + seq![46u8] + recovered_name(
                            b,
                            p + 1 + l,
                            t,
                        ));
                    }
                }
            }
            pos = pos + 1 + label_length;
        }
        if apn.len() < 1 || apn.len() > 255 {
            return None;
        }
        Some((InformationElement { instance, apn }, total))
    }

    /// The position of the first dot of the stored name at or after `from`.
    fn find_dot(&self, from: usize) -> (r: usize)
        requires
            from <= self.apn@.len(),
        ensures
            r == next_dot(self.apn@, from as int),
    {
        let n = self.apn.len();
        let mut j = from;
        while j < n
            invariant
                from <= j <= n,
                n == self.apn@.len(),
                next_dot(self.apn@, from as int) == next_dot(self.apn@, j as int),
            decreases n - j,
        {
            if self.apn[j] == 46 {
                return j;
            }
            j = j + 1;
        }
        n
    }
}

impl InformationElement {
    /// The element's image is the name's length plus five octets.
    pub proof fn lemma_encoding_len(&self)
        ensures
            self.encoding().len() == self.apn@.len() + 5,
    {
    }
}

impl InformationElementTraits for InformationElement {
    open spec fn encoding(&self) -> Seq<u8> {
        ie_header(71, self.apn@.len() + 1int, self.instance) + labels_encoding(self.apn@)
    }

    open spec fn spec_type(&self) -> InformationElementType {
        InformationElementType::APN
    }

    open spec fn spec_instance(&self) -> u8 {
        self.instance
    }

    open spec fn with_instance(&self, instance: u8) -> Self {
        InformationElement { instance, apn: self.apn }
    }

    open spec fn wf(&self) -> bool {
        self.instance <= 0xF && apn_wf(self.apn@)
    }

    fn information_element_type(&self) -> (r: InformationElementType) {
        InformationElementType::APN
    }

    fn instance(&self) -> (r: u8) {
        self.instance
    }

    fn set_instance(&mut self, instance: u8) -> (r: Result<u8, GtpError>) {
        if instance > 0xF {
            Err(GtpError::InstanceTooLarge)
        } else {
            self.instance = instance;
            Ok(instance)
        }
    }

    fn length(&self) -> (r: u16) {
        4 + self.apn.len() as u16 + 1
    }

    fn generate(&self, buffer: &mut Vec<u8>) -> (n: usize) {
        let ghost s = self.apn@;
        let count = self.apn.len();
        write_ie_header(buffer, 71, count as u16 + 1, self.instance);
        let first = self.find_dot(0);
        proof {
            lemma_next_dot(s, 0);
        }
        buffer.push(first as u8);
        let ghost mid = buffer@;
        let ghost body = Seq::new(
            s.len(),
            |i: int|
                if s[i] == 46 {
                    (next_dot(s, i + 1) - i - 1) as u8
                } else {
                    s[i]
                },
        );
        let mut i: usize = 0;
        while i < count
            invariant
                self.wf(),
                s == self.apn@,
                count == s.len(),
                i <= count,
                body == Seq::new(
                    s.len(),
                    |k: int|
                        if s[k] == 46 {
                            (next_dot(s, k + 1) - k - 1) as u8
                        } else {
                            s[k]
                        },
                ),
                buffer@ =~= mid + body.take(i as int),
            decreases count - i,
        {
            let b = self.apn[i];
            if b == 46 {
                let nd = self.find_dot(i + 1);
                proof {
                    lemma_next_dot(s, i + 1);
                }
                buffer.push((nd - i - 1) as u8);
            } else {
                buffer.push(b);
            }
            proof {
                assert(buffer@ =~= mid + body.take(i + 1));
            }
            i = i + 1;
        }
        proof {
            assert(body.take(count as int) =~= body);
            assert(buffer@ =~= old(buffer)@ + self.encoding());
        }
        count + 5
    }
}

} // verus!
