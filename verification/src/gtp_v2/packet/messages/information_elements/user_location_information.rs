//! User Location Information element (GTPv2): a flag octet selecting which
//! of eight location sub-structures follow, each carrying a PLMN and an
//! identifier, emitted in a fixed canonical order (CGI first, EMeNBID last).

use vstd::prelude::*;

use crate::bytes::val16;
use crate::errors::GtpError;

use super::{
    InformationElementTraits,
    InformationElementType,
    ie_header,
    write_ie_header,
    read_ie_header,
};

pub mod locations;

pub use locations::{PLMN, CGI, SAI, RAI, TAI, ECGI, LAI, MeNBID, EMeNBID};

verus! {

/// The flag octet announcing which sub-structures are present, one bit per
/// kind, CGI lowest.
pub open spec fn uli_flags(
    cgi: Option<CGI>,
    sai: Option<SAI>,
    rai: Option<RAI>,
    tai: Option<TAI>,
    ecgi: Option<ECGI>,
    lai: Option<LAI>,
    menbid: Option<MeNBID>,
    emenbid: Option<EMeNBID>,
) -> u8 {
    ((if cgi is Some { 1int } else { 0int }) + (if sai is Some { 2int } else { 0int }) + (if rai
        is Some { 4int } else { 0int }) + (if tai is Some { 8int } else { 0int }) + (if ecgi
        is Some { 16int } else { 0int }) + (if lai is Some { 32int } else { 0int }) + (if menbid
        is Some { 64int } else { 0int }) + (if emenbid is Some { 128int } else { 0int })) as u8
}

/// The image of an optional part: its encoding if present, nothing if not.
pub open spec fn opt_encoding<T>(v: Option<T>, f: spec_fn(T) -> Seq<u8>) -> Seq<u8> {
    match v {
        Some(x) => f(x),
        None => Seq::empty(),
    }
}

/// The combined size of the sub-structures a flag octet announces.
pub open spec fn flag_sizes(f: u8) -> int {
    (f % 2) * 7 + ((f / 2) % 2) * 7 + ((f / 4) % 2) * 7 + ((f / 8) % 2) * 5 + ((f / 16) % 2) * 7 + (
    (f / 32) % 2) * 5 + ((f / 64) % 2) * 6 + (f / 128) * 6
}

/// The inputs `parse` accepts: the element header is satisfied and the
/// declared body holds the flag octet and every announced sub-structure.
pub open spec fn parse_ok(b: Seq<u8>) -> bool {
    b.len() >= 4 && b[0] == 86 && 4 + val16(b, 1) <= b.len() && val16(b, 1) >= 1 && 1 + flag_sizes(
        b[4],
    ) <= val16(b, 1)
}

/// Reads the first four sub-structure kinds the flag octet announces.
#[verifier::rlimit(100)]
fn parse_body_head(buffer: &[u8], flags: u8, start: usize, limit: usize) -> (r: Option<
    (Option<CGI>, Option<SAI>, Option<RAI>, Option<TAI>, usize),
>)
    requires
        start <= limit <= buffer@.len(),
    ensures
        r is Some <==> start + (flags % 2) * 7 + ((flags / 2) % 2) * 7 + ((flags / 4) % 2) * 7 + ((
        flags / 8) % 2) * 5 <= limit,
        r matches Some((cgi, sai, rai, tai, end)) ==> {
            &&& start <= end <= limit
            &&& (cgi is Some <==> flags % 2 == 1)
            &&& (sai is Some <==> (flags / 2) % 2 == 1)
            &&& (rai is Some <==> (flags / 4) % 2 == 1)
            &&& (tai is Some <==> (flags / 8) % 2 == 1)
            &&& end - start == (if cgi is Some {
                7int
            } else {
                0int
            }) + (if sai is Some {
                7int
            } else {
                0int
            }) + (if rai is Some {
                7int
            } else {
                0int
            }) + (if tai is Some {
                5int
            } else {
                0int
            })
        },
{
    let mut pos = start;
    let mut cgi: Option<CGI> = None;
    let mut sai: Option<SAI> = None;
    let mut rai: Option<RAI> = None;
    let mut tai: Option<TAI> = None;
    if flags % 2 == 1 {
        if limit - pos < 7 {
            return None;
        }
        let (v, n) = CGI::parse(&buffer[pos..limit]).unwrap();
        cgi = Some(v);
        pos = pos + n;
    }
    if (flags / 2) % 2 == 1 {
        if limit - pos < 7 {
            return None;
        }
        let (v, n) = SAI::parse(&buffer[pos..limit]).unwrap();
        sai = Some(v);
        pos = pos + n;
    }
    if (flags / 4) % 2 == 1 {
        if limit - pos < 7 {
            return None;
        }
        let (v, n) = RAI::parse(&buffer[pos..limit]).unwrap();
        rai = Some(v);
        pos = pos + n;
    }
    if (flags / 8) % 2 == 1 {
        if limit - pos < 5 {
            return None;
        }
        let (v, n) = TAI::parse(&buffer[pos..limit]).unwrap();
        tai = Some(v);
        pos = pos + n;
    }
    Some((cgi, sai, rai, tai, pos))
}

/// Reads the last four sub-structure kinds the flag octet announces.
#[verifier::rlimit(100)]
fn parse_body_tail(buffer: &[u8], flags: u8, start: usize, limit: usize) -> (r: Option<
    (Option<ECGI>, Option<LAI>, Option<MeNBID>, Option<EMeNBID>, usize),
>)
    requires
        start <= limit <= buffer@.len(),
    ensures
        r is Some <==> start + ((flags / 16) % 2) * 7 + ((flags / 32) % 2) * 5 + ((flags / 64) % 2)
            * 6 + (flags / 128) * 6 <= limit,
        r matches Some((ecgi, lai, menbid, emenbid, end)) ==> {
            &&& start <= end <= limit
            &&& (ecgi is Some <==> (flags / 16) % 2 == 1)
            &&& (lai is Some <==> (flags / 32) % 2 == 1)
            &&& (menbid is Some <==> (flags / 64) % 2 == 1)
            &&& (emenbid is Some <==> flags / 128 == 1)
            &&& (ecgi matches Some(v) ==> v.wf())
            &&& (emenbid matches Some(v) ==> v.wf())
            &&& end - start == (if ecgi is Some {
                7int
            } else {
                0int
            }) + (if lai is Some {
                5int
            } else {
                0int
            }) + (if menbid is Some {
                6int
            } else {
                0int
            }) + (if emenbid is Some {
                6int
            } else {
                0int
            })
        },
{
    let mut pos = start;
    let mut ecgi: Option<ECGI> = None;
    let mut lai: Option<LAI> = None;
    let mut menbid: Option<MeNBID> = None;
    let mut emenbid: Option<EMeNBID> = None;
    if (flags / 16) % 2 == 1 {
        if limit - pos < 7 {
            return None;
        }
        let (v, n) = ECGI::parse(&buffer[pos..limit]).unwrap();
        ecgi = Some(v);
        pos = pos + n;
    }
    if (flags / 32) % 2 == 1 {
        if limit - pos < 5 {
            return None;
        }
        let (v, n) = LAI::parse(&buffer[pos..limit]).unwrap();
        lai = Some(v);
        pos = pos + n;
    }
    if (flags / 64) % 2 == 1 {
        if limit - pos < 6 {
            return None;
        }
        let (v, n) = MeNBID::parse(&buffer[pos..limit]).unwrap();
        menbid = Some(v);
        pos = pos + n;
    }
    if flags / 128 == 1 {
        if limit - pos < 6 {
            return None;
        }
        let (v, n) = EMeNBID::parse(&buffer[pos..limit]).unwrap();
        emenbid = Some(v);
        pos = pos + n;
    }
    Some((ecgi, lai, menbid, emenbid, pos))
}

/// User Location Information element.
pub struct InformationElement {
    /// At most 0xF.
    pub instance: u8,
    pub cgi: Option<CGI>,
    pub sai: Option<SAI>,
    pub rai: Option<RAI>,
    pub tai: Option<TAI>,
    pub ecgi: Option<ECGI>,
    pub lai: Option<LAI>,
    pub menbid: Option<MeNBID>,
    pub emenbid: Option<EMeNBID>,
}

impl InformationElement {
    /// The first four sub-structure kinds' images, in canonical order.
    pub closed spec fn locations_front(&self) -> Seq<u8> {
        opt_encoding(self.cgi, |v: CGI| v.encoding()) + opt_encoding(self.sai, |v: SAI| v.encoding())
            + opt_encoding(self.rai, |v: RAI| v.encoding()) + opt_encoding(
            self.tai,
            |v: TAI| v.encoding(),
        )
    }

    /// The last four sub-structure kinds' images, in canonical order.
    pub closed spec fn locations_back(&self) -> Seq<u8> {
        opt_encoding(self.ecgi, |v: ECGI| v.encoding()) + opt_encoding(
            self.lai,
            |v: LAI| v.encoding(),
        ) + opt_encoding(self.menbid, |v: MeNBID| v.encoding()) + opt_encoding(
            self.emenbid,
            |v: EMeNBID| v.encoding(),
        )
    }

    /// The sub-structures' images in canonical order.
    pub closed spec fn locations_encoding(&self) -> Seq<u8> {
        self.locations_front() + self.locations_back()
    }

    /// Writes the first four sub-structure kinds.
    #[verifier::rlimit(100)]
    fn generate_locations_front(&self, buffer: &mut Vec<u8>) -> (n: usize)
        requires
            self.wf(),
        ensures
            final(buffer)@ == old(buffer)@ + self.locations_front(),
            n == self.locations_front().len(),
    {
        let start = buffer.len();
        let ghost o = buffer@;
        if let Some(li) = &self.cgi {
            li.generate(buffer);
        }
        proof {
            assert(buffer@ =~= o + opt_encoding(self.cgi, |v: CGI| v.encoding()));
        }
        if let Some(li) = &self.sai {
            li.generate(buffer);
        }
        proof {
            assert(buffer@ =~= o + opt_encoding(self.cgi, |v: CGI| v.encoding()) + opt_encoding(
                self.sai,
                |v: SAI| v.encoding(),
            ));
        }
        if let Some(li) = &self.rai {
            li.generate(buffer);
        }
        proof {
            assert(buffer@ =~= o + opt_encoding(self.cgi, |v: CGI| v.encoding()) + opt_encoding(
                self.sai,
                |v: SAI| v.encoding(),
            ) + opt_encoding(self.rai, |v: RAI| v.encoding()));
        }
        if let Some(li) = &self.tai {
            li.generate(buffer);
        }
        proof {
            assert(buffer@ =~= o + opt_encoding(self.cgi, |v: CGI| v.encoding()) + opt_encoding(
                self.sai,
                |v: SAI| v.encoding(),
            ) + opt_encoding(self.rai, |v: RAI| v.encoding()) + opt_encoding(
                self.tai,
                |v: TAI| v.encoding(),
            ));
            vstd::seq_lib::lemma_concat_associative(
                o,
                opt_encoding(self.cgi, |v: CGI| v.encoding()),
                opt_encoding(self.sai, |v: SAI| v.encoding()),
            );
            vstd::seq_lib::lemma_concat_associative(
                o,
                opt_encoding(self.cgi, |v: CGI| v.encoding()) + opt_encoding(
                    self.sai,
                    |v: SAI| v.encoding(),
                ),
                opt_encoding(self.rai, |v: RAI| v.encoding()),
            );
            vstd::seq_lib::lemma_concat_associative(
                o,
                opt_encoding(self.cgi, |v: CGI| v.encoding()) + opt_encoding(
                    self.sai,
                    |v: SAI| v.encoding(),
                ) + opt_encoding(self.rai, |v: RAI| v.encoding()),
                opt_encoding(self.tai, |v: TAI| v.encoding()),
            );
            assert(buffer@ == o + self.locations_front());
        }
        buffer.len() - start
    }

    /// Writes the last four sub-structure kinds.
    #[verifier::rlimit(100)]
    fn generate_locations_back(&self, buffer: &mut Vec<u8>) -> (n: usize)
        requires
            self.wf(),
        ensures
            final(buffer)@ == old(buffer)@ + self.locations_back(),
            n == self.locations_back().len(),
    {
        let start = buffer.len();
        let ghost o = buffer@;
        if let Some(li) = &self.ecgi {
            li.generate(buffer);
        }
        proof {
            assert(buffer@ =~= o + opt_encoding(self.ecgi, |v: ECGI| v.encoding()));
        }
        if let Some(li) = &self.lai {
            li.generate(buffer);
        }
        proof {
            assert(buffer@ =~= o + opt_encoding(self.ecgi, |v: ECGI| v.encoding()) + opt_encoding(
                self.lai,
                |v: LAI| v.encoding(),
            ));
        }
        if let Some(li) = &self.menbid {
            li.generate(buffer);
        }
        proof {
            assert(buffer@ =~= o + opt_encoding(self.ecgi, |v: ECGI| v.encoding()) + opt_encoding(
                self.lai,
                |v: LAI| v.encoding(),
            ) + opt_encoding(self.menbid, |v: MeNBID| v.encoding()));
        }
        if let Some(li) = &self.emenbid {
            li.generate(buffer);
        }
        proof {
            assert(buffer@ =~= o + opt_encoding(self.ecgi, |v: ECGI| v.encoding()) + opt_encoding(
                self.lai,
                |v: LAI| v.encoding(),
            ) + opt_encoding(self.menbid, |v: MeNBID| v.encoding()) + opt_encoding(
                self.emenbid,
                |v: EMeNBID| v.encoding(),
            ));
            vstd::seq_lib::lemma_concat_associative(
                o,
                opt_encoding(self.ecgi, |v: ECGI| v.encoding()),
                opt_encoding(self.lai, |v: LAI| v.encoding()),
            );
            vstd::seq_lib::lemma_concat_associative(
                o,
                opt_encoding(self.ecgi, |v: ECGI| v.encoding()) + opt_encoding(
                    self.lai,
                    |v: LAI| v.encoding(),
                ),
                opt_encoding(self.menbid, |v: MeNBID| v.encoding()),
            );
            vstd::seq_lib::lemma_concat_associative(
                o,
                opt_encoding(self.ecgi, |v: ECGI| v.encoding()) + opt_encoding(
                    self.lai,
                    |v: LAI| v.encoding(),
                ) + opt_encoding(self.menbid, |v: MeNBID| v.encoding()),
                opt_encoding(self.emenbid, |v: EMeNBID| v.encoding()),
            );
            assert(buffer@ == o + self.locations_back());
        }
        buffer.len() - start
    }

    /// The body: the flag octet, then the sub-structures in canonical order.
    pub open spec fn body(&self) -> Seq<u8> {
        seq![
            uli_flags(
                self.cgi,
                self.sai,
                self.rai,
                self.tai,
                self.ecgi,
                self.lai,
                self.menbid,
                self.emenbid,
            ),
        ] + self.locations_encoding()
    }

    /// Writes the sub-structures in canonical order.
    fn generate_locations(&self, buffer: &mut Vec<u8>) -> (n: usize)
        requires
            self.wf(),
        ensures
            final(buffer)@ == old(buffer)@ + self.locations_encoding(),
            n == self.locations_encoding().len(),
    {
        let start = buffer.len();
        let ghost o = buffer@;
        self.generate_locations_front(buffer);
        self.generate_locations_back(buffer);
        proof {
            vstd::seq_lib::lemma_concat_associative(
                o,
                self.locations_front(),
                self.locations_back(),
            );
        }
        buffer.len() - start
    }

    /// The element's image is five octets plus each present sub-structure's
    /// size.
    #[verifier::rlimit(100)]
    pub proof fn lemma_encoding_len(&self)
        ensures
            self.encoding().len() == 5 + (if self.cgi is Some {
                7int
            } else {
                0int
            }) + (if self.sai is Some {
                7int
            } else {
                0int
            }) + (if self.rai is Some {
                7int
            } else {
                0int
            }) + (if self.tai is Some {
                5int
            } else {
                0int
            }) + (if self.ecgi is Some {
                7int
            } else {
                0int
            }) + (if self.lai is Some {
                5int
            } else {
                0int
            }) + (if self.menbid is Some {
                6int
            } else {
                0int
            }) + (if self.emenbid is Some {
                6int
            } else {
                0int
            }),
            self.encoding().len() <= 55,
    {
        if let Some(v) = self.cgi {
            v.lemma_encoding_len();
        }
        if let Some(v) = self.sai {
            v.lemma_encoding_len();
        }
        if let Some(v) = self.rai {
            v.lemma_encoding_len();
        }
        if let Some(v) = self.tai {
            v.lemma_encoding_len();
        }
        if let Some(v) = self.ecgi {
            v.lemma_encoding_len();
        }
        if let Some(v) = self.lai {
            v.lemma_encoding_len();
        }
        if let Some(v) = self.menbid {
            v.lemma_encoding_len();
        }
        if let Some(v) = self.emenbid {
            v.lemma_encoding_len();
        }
    }

    pub fn new(
        cgi: Option<CGI>,
        sai: Option<SAI>,
        rai: Option<RAI>,
        tai: Option<TAI>,
        ecgi: Option<ECGI>,
        lai: Option<LAI>,
        menbid: Option<MeNBID>,
        emenbid: Option<EMeNBID>,
        instance: u8,
    ) -> (r: Result<Self, GtpError>)
        ensures
            instance > 0xF ==> r == Err::<Self, GtpError>(GtpError::InstanceTooLarge),
            instance <= 0xF ==> (r matches Ok(ie) && ie == (InformationElement {
                instance,
                cgi,
                sai,
                rai,
                tai,
                ecgi,
                lai,
                menbid,
                emenbid,
            })),
    {
        if instance > 0xF {
            return Err(GtpError::InstanceTooLarge);
        }
        Ok(InformationElement { instance, cgi, sai, rai, tai, ecgi, lai, menbid, emenbid })
    }

    /// Reads one element: the flag octet, then each announced sub-structure
    /// in canonical order.  It fails exactly on a header the element's own
    /// four octets cannot satisfy or a sub-structure the declared length
    /// cannot hold.
    /// Reads one element: the flag octet, then each announced sub-structure
    /// in canonical order.  It fails exactly on a header the element's own
    /// four octets cannot satisfy or a sub-structure the declared length
    /// cannot hold.
    #[verifier::rlimit(100)]
    pub fn parse(buffer: &[u8]) -> (r: Option<(Self, usize)>)
        ensures
            r is Some <==> parse_ok(buffer@),
            r matches Some((ie, n)) ==> {
                &&& buffer@.len() >= 5
                &&& buffer@[0] == 86
                &&& n == 4 + val16(buffer@, 1)
                &&& n <= buffer@.len()
                &&& ie.wf()
                &&& ie.encoding().len() <= n
                &&& ie.instance == buffer@[3] % 16
                &&& (ie.cgi is Some <==> buffer@[4] % 2 == 1)
                &&& (ie.sai is Some <==> (buffer@[4] / 2) % 2 == 1)
                &&& (ie.rai is Some <==> (buffer@[4] / 4) % 2 == 1)
                &&& (ie.tai is Some <==> (buffer@[4] / 8) % 2 == 1)
                &&& (ie.ecgi is Some <==> (buffer@[4] / 16) % 2 == 1)
                &&& (ie.lai is Some <==> (buffer@[4] / 32) % 2 == 1)
                &&& (ie.menbid is Some <==> (buffer@[4] / 64) % 2 == 1)
                &&& (ie.emenbid is Some <==> buffer@[4] / 128 == 1)
            },
    {
        let (length, instance, total) = match read_ie_header(buffer, 86) {
            Some(h) => h,
            None => { return None },
        };
        if length < 1 {
            return None;
        }
        let flags = buffer[4];
        let (cgi, sai, rai, tai, mid) = match parse_body_head(buffer, flags, 5, total) {
            Some(h) => h,
            None => { return None },
        };
        let (ecgi, lai, menbid, emenbid, _end) = match parse_body_tail(buffer, flags, mid, total) {
            Some(h) => h,
            None => { return None },
        };
        let ie = InformationElement { instance, cgi, sai, rai, tai, ecgi, lai, menbid, emenbid };
        proof {
            ie.lemma_encoding_len();
        }
        Some((ie, total))
    }
}

impl InformationElementTraits for InformationElement {
    open spec fn encoding(&self) -> Seq<u8> {
        ie_header(86, self.body().len() as int, self.instance) + self.body()
    }

    open spec fn spec_type(&self) -> InformationElementType {
        InformationElementType::UserLocationInformation
    }

    open spec fn spec_instance(&self) -> u8 {
        self.instance
    }

    open spec fn with_instance(&self, instance: u8) -> Self {
        InformationElement { instance, ..*self }
    }

    open spec fn wf(&self) -> bool {
        &&& self.instance <= 0xF
        &&& (self.ecgi matches Some(v) ==> v.wf())
        &&& (self.emenbid matches Some(v) ==> v.wf())
    }

    fn information_element_type(&self) -> (r: InformationElementType) {
        InformationElementType::UserLocationInformation
    }

    fn instance(&self) -> (r: u8) {
        self.instance
    }

    fn set_instance(&mut self, instance: u8) -> (r: Result<u8, GtpError>) {
        if instance > 0xF {
            Err(GtpError::InstanceTooLarge)
        } else {
            self.instance = instance;
            Ok(instance)
        }
    }

    #[verifier::rlimit(100)]
    fn length(&self) -> (r: u16) {
        proof {
            self.lemma_encoding_len();
        }
        let mut length: u16 = 4 + 1;
        if let Some(li) = &self.cgi {
            length = length + li.length();
        }
        if let Some(li) = &self.sai {
            length = length + li.length();
        }
        if let Some(li) = &self.rai {
            length = length + li.length();
        }
        if let Some(li) = &self.tai {
            length = length + li.length();
        }
        if let Some(li) = &self.ecgi {
            length = length + li.length();
        }
        if let Some(li) = &self.lai {
            length = length + li.length();
        }
        if let Some(li) = &self.menbid {
            length = length + li.length();
        }
        if let Some(li) = &self.emenbid {
            length = length + li.length();
        }
        length
    }

    #[verifier::rlimit(100)]
    fn generate(&self, buffer: &mut Vec<u8>) -> (n: usize) {
        let body_len = self.length() - 4;
        write_ie_header(buffer, 86, body_len, self.instance);
        let mut flags: u8 = 0;
        if self.cgi.is_some() {
            flags = flags + 1;
        }
        if self.sai.is_some() {
            flags = flags + 2;
        }
        if self.rai.is_some() {
            flags = flags + 4;
        }
        if self.tai.is_some() {
            flags = flags + 8;
        }
        if self.ecgi.is_some() {
            flags = flags + 16;
        }
        if self.lai.is_some() {
            flags = flags + 32;
        }
        if self.menbid.is_some() {
            flags = flags + 64;
        }
        if self.emenbid.is_some() {
            flags = flags + 128;
        }
        buffer.push(flags);
        let tail = self.generate_locations(buffer);
        assert(buffer@ =~= old(buffer)@ + self.encoding());
        5 + tail
    }
}

} // verus!