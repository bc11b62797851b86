//! Field primitives: big-endian byte images of the unsigned integers the wire
//! formats carry, exec writers that append them to a buffer, and exec readers
//! that recover them.  These are the only places octet order is handled.

use vstd::prelude::*;
use vstd::string::StringSliceAdditionalSpecFns;

verus! {

/// The two-octet big-endian image of `v`.
pub open spec fn be16(v: u16) -> Seq<u8> {
    seq![(v / 0x100) as u8, (v % 0x100) as u8]
}

/// The three-octet big-endian image of the low 24 bits of `v`.
pub open spec fn be24(v: u32) -> Seq<u8> {
    seq![((v / 0x10000) % 0x100) as u8, ((v / 0x100) % 0x100) as u8, (v % 0x100) as u8]
}

/// The four-octet big-endian image of `v`.
pub open spec fn be32(v: u32) -> Seq<u8> {
    seq![
        (v / 0x1000000) as u8,
        ((v / 0x10000) % 0x100) as u8,
        ((v / 0x100) % 0x100) as u8,
        (v % 0x100) as u8,
    ]
}

/// The five-octet big-endian image of the low 40 bits of `v`.
pub open spec fn be40(v: u64) -> Seq<u8> {
    seq![
        ((v / 0x100000000) % 0x100) as u8,
        ((v / 0x1000000) % 0x100) as u8,
        ((v / 0x10000) % 0x100) as u8,
        ((v / 0x100) % 0x100) as u8,
        (v % 0x100) as u8,
    ]
}

/// The value read big-endian from the two octets of `b` at `i`.
pub open spec fn val16(b: Seq<u8>, i: int) -> int {
    b[i] * 0x100 + b[i + 1]
}

/// The value read big-endian from the three octets of `b` at `i`.
pub open spec fn val24(b: Seq<u8>, i: int) -> int {
    b[i] * 0x10000 + b[i + 1] * 0x100 + b[i + 2]
}

/// The value read big-endian from the four octets of `b` at `i`.
pub open spec fn val32(b: Seq<u8>, i: int) -> int {
    b[i] * 0x1000000 + b[i + 1] * 0x10000 + b[i + 2] * 0x100 + b[i + 3]
}

/// The value read big-endian from the five octets of `b` at `i`.
pub open spec fn val40(b: Seq<u8>, i: int) -> int {
    b[i] * 0x100000000 + b[i + 1] * 0x1000000 + b[i + 2] * 0x10000 + b[i + 3] * 0x100 + b[i + 4]
}

/// Reading back the written image recovers the value.
pub proof fn lemma_be16_val(v: u16)
    ensures
        val16(be16(v), 0) == v,
{
}

/// Reading back the written image recovers the value.
pub proof fn lemma_be24_val(v: u32)
    requires
        v <= 0xFFFFFF,
    ensures
        val24(be24(v), 0) == v,
{
    assert(((v / 0x10000) % 0x100) * 0x10000 + ((v / 0x100) % 0x100) * 0x100 + (v % 0x100) == v)
        by (bit_vector)
        requires
            v <= 0xFFFFFF,
    ;
}

/// Reading back the written image recovers the value.
pub proof fn lemma_be32_val(v: u32)
    ensures
        val32(be32(v), 0) == v,
{
    assert((v / 0x1000000) * 0x1000000 + ((v / 0x10000) % 0x100) * 0x10000 + ((v / 0x100) % 0x100)
        * 0x100 + (v % 0x100) == v) by (bit_vector);
}

/// Reading back the written image recovers the value.
pub proof fn lemma_be40_val(v: u64)
    requires
        v <= 0xFF_FFFF_FFFF,
    ensures
        val40(be40(v), 0) == v,
{
    assert(((v / 0x100000000) % 0x100) * 0x100000000 + ((v / 0x1000000) % 0x100) * 0x1000000 + ((v
        / 0x10000) % 0x100) * 0x10000 + ((v / 0x100) % 0x100) * 0x100 + (v % 0x100) == v)
        by (bit_vector)
        requires
            v <= 0xFF_FFFF_FFFF,
    ;
}

/// Appends the two-octet big-endian image of `v`.
pub fn write_u16_be(buffer: &mut Vec<u8>, v: u16)
    ensures
        final(buffer)@ == old(buffer)@ + be16(v),
{
    buffer.push((v / 0x100) as u8);
    buffer.push((v % 0x100) as u8);
    assert(buffer@ =~= old(buffer)@ + be16(v));
}

/// Appends the three-octet big-endian image of the low 24 bits of `v`.
pub fn write_u24_be(buffer: &mut Vec<u8>, v: u32)
    ensures
        final(buffer)@ == old(buffer)@ + be24(v),
{
    buffer.push(((v / 0x10000) % 0x100) as u8);
    buffer.push(((v / 0x100) % 0x100) as u8);
    buffer.push((v % 0x100) as u8);
    assert(buffer@ =~= old(buffer)@ + be24(v));
}

/// Appends the four-octet big-endian image of `v`.
pub fn write_u32_be(buffer: &mut Vec<u8>, v: u32)
    ensures
        final(buffer)@ == old(buffer)@ + be32(v),
{
    buffer.push((v / 0x1000000) as u8);
    buffer.push(((v / 0x10000) % 0x100) as u8);
    buffer.push(((v / 0x100) % 0x100) as u8);
    buffer.push((v % 0x100) as u8);
    assert(buffer@ =~= old(buffer)@ + be32(v));
}

/// Appends the five-octet big-endian image of the low 40 bits of `v`.
pub fn write_u40_be(buffer: &mut Vec<u8>, v: u64)
    ensures
        final(buffer)@ == old(buffer)@ + be40(v),
{
    buffer.push(((v / 0x100000000) % 0x100) as u8);
    buffer.push(((v / 0x1000000) % 0x100) as u8);
    buffer.push(((v / 0x10000) % 0x100) as u8);
    buffer.push(((v / 0x100) % 0x100) as u8);
    buffer.push((v % 0x100) as u8);
    assert(buffer@ =~= old(buffer)@ + be40(v));
}

/// All entries of `d` fit one nibble.
pub open spec fn all_nibbles(d: Seq<u8>) -> bool {
    forall|i: int| 0 <= i < d.len() ==> #[trigger] d[i] <= 0xF
}

/// All entries of `d` are decimal digits.
pub open spec fn all_digits(d: Seq<u8>) -> bool {
    forall|i: int| 0 <= i < d.len() ==> #[trigger] d[i] <= 9
}

/// TBCD packing of a digit string: digit `2k` lands in the low nibble of
/// octet `k` and digit `2k+1` in its high nibble; an odd length fills the
/// final high nibble with 0xF.
pub open spec fn tbcd(d: Seq<u8>) -> Seq<u8> {
    Seq::new(
        ((d.len() + 1) / 2) as nat,
        |k: int|
            if 2 * k + 1 < d.len() {
                (d[2 * k + 1] * 16 + d[2 * k]) as u8
            } else {
                (0xF0 + d[2 * k]) as u8
            },
    )
}

/// TBCD unpacking: each octet contributes its low nibble and, unless it is
/// the 0xF filler, its high nibble.
pub open spec fn untbcd(b: Seq<u8>) -> Seq<u8>
    decreases b.len(),
{
    if b.len() == 0 {
        Seq::empty()
    } else {
        (if b[0] / 16 == 0xF {
            seq![(b[0] % 16) as u8]
        } else {
            seq![(b[0] % 16) as u8, (b[0] / 16) as u8]
        }) + untbcd(b.drop_first())
    }
}

/// One more octet contributes its one or two digits.
pub proof fn lemma_untbcd_step(b: Seq<u8>, k: int)
    requires
        0 <= k < b.len(),
    ensures
        untbcd(b.take(k + 1)) == untbcd(b.take(k)) + (if b[k] / 16 == 0xF {
            seq![(b[k] % 16) as u8]
        } else {
            seq![(b[k] % 16) as u8, (b[k] / 16) as u8]
        }),
    decreases k,
{
    if k == 0 {
        let t = b.take(1int);
        assert(t.len() == 1 && t[0] == b[0]);
        assert(t.drop_first() =~= Seq::<u8>::empty());
        assert(untbcd(t) == (if t[0] / 16 == 0xF {
            seq![(t[0] % 16) as u8]
        } else {
            seq![(t[0] % 16) as u8, (t[0] / 16) as u8]
        }) + untbcd(t.drop_first()));
        assert(untbcd(Seq::<u8>::empty()) =~= Seq::<u8>::empty());
        assert(untbcd(b.take(0int)) =~= Seq::<u8>::empty());
        assert(untbcd(t) =~= untbcd(b.take(0int)) + (if b[0] / 16 == 0xF {
            seq![(b[0] % 16) as u8]
        } else {
            seq![(b[0] % 16) as u8, (b[0] / 16) as u8]
        }));
    } else {
        lemma_untbcd_step(b.drop_first(), k - 1);
        assert(b.take(k + 1).drop_first() =~= b.drop_first().take(k));
        assert(b.take(k).drop_first() =~= b.drop_first().take(k - 1));
        assert(b.drop_first()[k - 1] == b[k]);
        assert(b.take(k + 1)[0] == b[0] && b.take(k)[0] == b[0]);
    }
}

/// Every digit unpacked from a byte string is a nibble.
pub proof fn lemma_untbcd_nibbles(b: Seq<u8>)
    ensures
        all_nibbles(untbcd(b)),
        untbcd(b).len() <= 2 * b.len(),
    decreases b.len(),
{
    if b.len() > 0 {
        lemma_untbcd_nibbles(b.drop_first());
    }
}

/// Unpacking a packed digit string gives the digits back: the 0xF filler of
/// an odd length is discarded.
pub proof fn lemma_tbcd_roundtrip(d: Seq<u8>)
    requires
        all_digits(d),
    ensures
        untbcd(tbcd(d)) =~= d,
    decreases d.len(),
{
    if d.len() == 0 {
    } else if d.len() == 1 {
        assert(d[0] <= 9);
        let b = tbcd(d);
        assert(b =~= seq![(0xF0 + d[0]) as u8]);
        assert(b.len() == 1);
        assert(b[0] / 16 == 0xF && b[0] % 16 == d[0]);
        assert(untbcd(b) == seq![(b[0] % 16) as u8] + untbcd(b.drop_first()));
        assert(b.drop_first() =~= Seq::<u8>::empty());
        assert(untbcd(b.drop_first()) =~= Seq::<u8>::empty());
        assert(untbcd(b) =~= seq![d[0]]);
    } else {
        let rest = d.skip(2);
        assert(all_digits(rest)) by {
            assert(forall|i: int| 0 <= i < rest.len() ==> rest[i] == d[i + 2]);
        }
        lemma_tbcd_roundtrip(rest);
        assert(d[0] <= 9 && d[1] <= 9);
        let o = (d[1] * 16 + d[0]) as u8;
        assert(o / 16 == d[1] && o % 16 == d[0]);
        assert(tbcd(d)[0] == o);
        assert(tbcd(d).drop_first() =~= tbcd(rest));
        assert(untbcd(tbcd(d)) =~= seq![d[0], d[1]] + untbcd(tbcd(rest)));
    }
}

/// Appends the TBCD packing of `digits`.
pub fn write_tbcd(buffer: &mut Vec<u8>, digits: &Vec<u8>)
    requires
        forall|i: int| 0 <= i < digits@.len() ==> #[trigger] digits@[i] <= 0xF,
    ensures
        final(buffer)@ == old(buffer)@ + tbcd(digits@),
{
    let n = digits.len();
    let octets = n / 2 + n % 2;
    assert(octets == (n + 1) / 2);
    let mut k: usize = 0;
    while k < octets
        invariant
            n == digits@.len(),
            octets == (digits@.len() + 1) / 2,
            k <= octets,
            forall|i: int| 0 <= i < digits@.len() ==> #[trigger] digits@[i] <= 0xF,
            buffer@ =~= old(buffer)@ + tbcd(digits@).take(k as int),
        decreases octets - k,
    {
        let o: u8 = if 2 * k + 1 < n {
            digits[2 * k + 1] * 16 + digits[2 * k]
        } else {
            0xF0 + digits[2 * k]
        };
        assert(o == tbcd(digits@)[k as int]);
        buffer.push(o);
        assert(buffer@ =~= old(buffer)@ + tbcd(digits@).take(k + 1));
        k = k + 1;
    }
    assert(tbcd(digits@).take(octets as int) =~= tbcd(digits@));
}

/// The concatenation of the byte images of the elements of `s`, in order,
/// `f` giving each element's image.
pub open spec fn cat_bytes<T>(s: Seq<T>, f: spec_fn(T) -> Seq<u8>) -> Seq<u8>
    decreases s.len(),
{
    if s.len() == 0 {
        Seq::empty()
    } else {
        cat_bytes(s.drop_last(), f) + f(s.last())
    }
}

/// The byte string holds only ASCII decimal digits.
pub open spec fn all_digit_bytes(b: Seq<u8>) -> bool {
    forall|i: int| 0 <= i < b.len() ==> 48 <= #[trigger] b[i] <= 57
}

/// The digit values of an ASCII digit string.
pub open spec fn digits_of(b: Seq<u8>) -> Seq<u8> {
    Seq::new(b.len(), |i: int| (b[i] - 48) as u8)
}

/// Reads the digit values of `s`.  It fails exactly when `s` holds anything
/// but ASCII decimal digits.
pub fn parse_digits(s: &str) -> (r: Option<Vec<u8>>)
    ensures
        r is Some <==> all_digit_bytes(s.spec_bytes()),
        r matches Some(d) ==> d@ == digits_of(s.spec_bytes()) && all_digits(d@),
{
    let bytes = s.as_bytes();
    let n = bytes.len();
    let mut out: Vec<u8> = Vec::new();
    let mut i: usize = 0;
    while i < n
        invariant
            n == bytes@.len(),
            bytes@ == s.spec_bytes(),
            i <= n,
            forall|j: int| 0 <= j < i ==> 48 <= #[trigger] bytes@[j] <= 57,
            out@ =~= digits_of(bytes@).take(i as int),
        decreases n - i,
    {
        let b = bytes[i];
        if b < 48 || b > 57 {
            return None;
        }
        out.push(b - 48);
        assert(out@ =~= digits_of(bytes@).take(i + 1));
        i = i + 1;
    }
    assert(out@ =~= digits_of(s.spec_bytes()));
    Some(out)
}

/// Appends all of `data`.
pub fn write_bytes(buffer: &mut Vec<u8>, data: &[u8])
    ensures
        final(buffer)@ == old(buffer)@ + data@,
{
    let n = data.len();
    let mut i: usize = 0;
    while i < n
        invariant
            n == data@.len(),
            i <= n,
            buffer@ =~= old(buffer)@ + data@.take(i as int),
        decreases n - i,
    {
        buffer.push(data[i]);
        assert(buffer@ =~= old(buffer)@ + data@.take(i + 1));
        i = i + 1;
    }
    assert(buffer@ =~= old(buffer)@ + data@);
}

/// Reads the two-octet big-endian value at `pos`.
pub fn read_u16_be(buffer: &[u8], pos: usize) -> (r: u16)
    requires
        pos + 2 <= buffer@.len(),
    ensures
        r == val16(buffer@, pos as int),
{
    buffer[pos] as u16 * 0x100 + buffer[pos + 1] as u16
}

/// Reads the three-octet big-endian value at `pos`.
pub fn read_u24_be(buffer: &[u8], pos: usize) -> (r: u32)
    requires
        pos + 3 <= buffer@.len(),
    ensures
        r == val24(buffer@, pos as int),
{
    buffer[pos] as u32 * 0x10000 + buffer[pos + 1] as u32 * 0x100 + buffer[pos + 2] as u32
}

/// Reads the four-octet big-endian value at `pos`.
pub fn read_u32_be(buffer: &[u8], pos: usize) -> (r: u32)
    requires
        pos + 4 <= buffer@.len(),
    ensures
        r == val32(buffer@, pos as int),
{
    buffer[pos] as u32 * 0x1000000 + buffer[pos + 1] as u32 * 0x10000 + buffer[pos + 2] as u32
        * 0x100 + buffer[pos + 3] as u32
}

/// Reads the five-octet big-endian value at `pos`.
pub fn read_u40_be(buffer: &[u8], pos: usize) -> (r: u64)
    requires
        pos + 5 <= buffer@.len(),
    ensures
        r == val40(buffer@, pos as int),
{
    buffer[pos] as u64 * 0x100000000 + buffer[pos + 1] as u64 * 0x1000000 + buffer[pos + 2] as u64
        * 0x10000 + buffer[pos + 3] as u64 * 0x100 + buffer[pos + 4] as u64
}

} // verus!
