//! DCAP quotes: the header, the report body of an SGX enclave or a TDX trust
//! domain, and the signature data, read from their little-endian wire format.
use vstd::prelude::*;
use vstd::slice::slice_subrange;

verus! {

pub const SGX_TEE_TYPE: u32 = 0x00000000;

pub const TDX_TEE_TYPE: u32 = 0x00000081;

pub const QUOTE_HEADER_LEN: usize = 48;

pub const ENCLAVE_REPORT_LEN: usize = 384;

pub const TD10_REPORT_LEN: usize = 584;

pub const TD15_REPORT_LEN: usize = 648;

/// The little-endian `u16` at byte `i` of `s`.
pub open spec fn le16(s: Seq<u8>, i: int) -> u16 {
    (s[i] as int + s[i + 1] as int * 0x100) as u16
}

/// The little-endian `u32` at byte `i` of `s`.
pub open spec fn le32(s: Seq<u8>, i: int) -> u32 {
    (s[i] as int + s[i + 1] as int * 0x100 + s[i + 2] as int * 0x10000 + s[i + 3] as int
        * 0x1000000) as u32
}

fn le16_at(s: &[u8], i: usize) -> (r: u16)
    requires
        i + 2 <= s.len(),
    ensures
        r == le16(s@, i as int),
{
    s[i] as u16 + s[i + 1] as u16 * 0x100
}

fn le32_at(s: &[u8], i: usize) -> (r: u32)
    requires
        i + 4 <= s.len(),
    ensures
        r == le32(s@, i as int),
{
    s[i] as u32 + s[i + 1] as u32 * 0x100 + s[i + 2] as u32 * 0x10000 + s[i + 3] as u32
        * 0x1000000
}

fn array_at<const N: usize>(s: &[u8], i: usize) -> (r: [u8; N])
    requires
        i + N <= s.len(),
    ensures
        r@ == s@.subrange(i as int, i + N),
{
    let mut out = [0u8; N];
    let mut k: usize = 0;
    while k < N
        invariant
            k <= N,
            i + N <= s.len(),
            out@.len() == N,
            forall|j: int| 0 <= j < k ==> out@[j] == s@[i + j],
        decreases N - k,
    {
        out[k] = s[i + k];
        k = k + 1;
    }
    assert(out@ =~= s@.subrange(i as int, i + N));
    out
}

/// The 48-byte header of a quote.
#[derive(Debug, Clone, Copy, PartialEq, Eq)]
pub struct QuoteHeader {
    pub version: u16,
    pub attestation_key_type: u16,
    pub tee_type: u32,
    pub qe_svn: u16,
    pub pce_svn: u16,
    pub qe_vendor_id: [u8; 16],
    pub user_data: [u8; 20],
}

/// `h` is the header written in the first 48 bytes of `s`.
pub open spec fn header_of(h: QuoteHeader, s: Seq<u8>) -> bool {
    &&& h.version == le16(s, 0)
    &&& h.attestation_key_type == le16(s, 2)
    &&& h.tee_type == le32(s, 4)
    &&& h.qe_svn == le16(s, 8)
    &&& h.pce_svn == le16(s, 10)
    &&& h.qe_vendor_id@ == s.subrange(12, 28)
    &&& h.user_data@ == s.subrange(28, 48)
}

impl QuoteHeader {
    fn read_at(s: &[u8], i: usize) -> (h: QuoteHeader)
        requires
            i + QUOTE_HEADER_LEN <= s.len(),
        ensures
            header_of(h, s@.skip(i as int)),
    {
        let h = QuoteHeader {
            version: le16_at(s, i),
            attestation_key_type: le16_at(s, i + 2),
            tee_type: le32_at(s, i + 4),
            qe_svn: le16_at(s, i + 8),
            pce_svn: le16_at(s, i + 10),
            qe_vendor_id: array_at::<16>(s, i + 12),
            user_data: array_at::<20>(s, i + 28),
        };
        let ghost t = s@.skip(i as int);
        assert(h.qe_vendor_id@ =~= t.subrange(12, 28));
        assert(h.user_data@ =~= t.subrange(28, 48));
        h
    }
}

/// The 384-byte report of an SGX enclave.
#[derive(Debug, Clone, Copy, PartialEq, Eq)]
pub struct EnclaveReportBody {
    pub raw: [u8; 384],
}

/// The 584-byte report of a TDX 1.0 trust domain.
#[derive(Debug, Clone, Copy, PartialEq, Eq)]
pub struct Td10ReportBody {
    pub raw: [u8; 584],
}

/// The 648-byte report of a TDX 1.5 trust domain.
#[derive(Debug, Clone, Copy, PartialEq, Eq)]
pub struct Td15ReportBody {
    pub raw: [u8; 648],
}

/// The report that a quote attests.
#[derive(Debug, Clone, Copy, PartialEq, Eq)]
pub enum QuoteBody {
    SgxQuoteBody(EnclaveReportBody),
    Td10QuoteBody(Td10ReportBody),
    Td15QuoteBody(Td15ReportBody),
}

impl QuoteBody {
    /// The bytes of the report.
    pub open spec fn spec_bytes(self) -> Seq<u8> {
        match self {
            QuoteBody::SgxQuoteBody(b) => b.raw@,
            QuoteBody::Td10QuoteBody(b) => b.raw@,
            QuoteBody::Td15QuoteBody(b) => b.raw@,
        }
    }

    /// The body type code of the report: 1 for SGX, 2 for TDX 1.0, 3 for
    /// TDX 1.5.
    pub open spec fn spec_type(self) -> u16 {
        match self {
            QuoteBody::SgxQuoteBody(_) => 1,
            QuoteBody::Td10QuoteBody(_) => 2,
            QuoteBody::Td15QuoteBody(_) => 3,
        }
    }

    pub fn as_bytes(&self) -> (r: &[u8])
        ensures
            r@ == self.spec_bytes(),
    {
        match self {
            QuoteBody::SgxQuoteBody(b) => b.raw.as_slice(),
            QuoteBody::Td10QuoteBody(b) => b.raw.as_slice(),
            QuoteBody::Td15QuoteBody(b) => b.raw.as_slice(),
        }
    }
}

/// Typed certification data: a type code and the data.
#[derive(Debug, Clone, Copy, PartialEq, Eq)]
pub struct CertificationData<'a> {
    pub cert_data_type: u16,
    pub data: &'a [u8],
}

/// The signature data of a quote: the ECDSA signature over header and body,
/// the attestation key, the report of the quoting enclave with its signature
/// and authentication data, and the certification data of the PCK chain.
#[derive(Debug, Clone, Copy, PartialEq, Eq)]
pub struct QuoteSignatureData<'a> {
    pub isv_signature: [u8; 64],
    pub attestation_pub_key: [u8; 64],
    pub qe_report_body: EnclaveReportBody,
    pub qe_report_signature: [u8; 64],
    pub qe_auth_data: &'a [u8],
    pub pck_cert_chain_data: CertificationData<'a>,
}

/// The length of the QE authentication data at the start of `x`, the QE
/// report data.
pub open spec fn qe_auth_len(x: Seq<u8>) -> int {
    le16(x, 448) as int
}

/// Why the QE report data `x` is malformed: it holds the QE report (384
/// bytes), its signature (64), the length of the authentication data (2)
/// and that data, then typed certification data: type (2), size (4), data.
pub open spec fn qe_data_error(x: Seq<u8>) -> Option<&'static str> {
    if x.len() < 450 {
        Some("underflow reading QE report")
    } else if x.len() < 450 + qe_auth_len(x) {
        Some("underflow reading QE authentication data")
    } else if x.len() < 456 + qe_auth_len(x) {
        Some("underflow reading certification data header")
    } else if x.len() < 456 + qe_auth_len(x) + le32(x, 452 + qe_auth_len(x)) {
        Some("underflow reading certification data")
    } else {
        None
    }
}

/// `q` holds the QE report data written in `x`.
pub open spec fn qe_data_of(q: QuoteSignatureData, x: Seq<u8>) -> bool {
    let a = qe_auth_len(x);
    &&& q.qe_report_body.raw@ == x.subrange(0, 384)
    &&& q.qe_report_signature@ == x.subrange(384, 448)
    &&& q.qe_auth_data@ == x.subrange(450, 450 + a)
    &&& q.pck_cert_chain_data.cert_data_type == le16(x, 450 + a)
    &&& q.pck_cert_chain_data.data@ == x.subrange(456 + a, 456 + a + le32(x, 452 + a))
}

/// Where the QE report data stands in a signature region `r`: right after
/// the signature and key in version 3; in version 4 and later, as the data
/// of certification data of type 6 that follows them.
pub open spec fn qe_region(r: Seq<u8>, version: u16) -> Seq<u8> {
    if version <= 3 {
        r.skip(128)
    } else {
        r.subrange(134, 134 + le32(r, 130))
    }
}

/// Why a signature region `r` of the given quote version is malformed.
pub open spec fn signature_region_error(r: Seq<u8>, version: u16) -> Option<&'static str> {
    if r.len() < 128 {
        Some("underflow reading quote signature")
    } else if version <= 3 {
        qe_data_error(r.skip(128))
    } else if r.len() < 134 {
        Some("underflow reading certification data header")
    } else if le16(r, 128) != 6 {
        Some("unsupported certification data type")
    } else if r.len() < 134 + le32(r, 130) {
        Some("underflow reading certification data")
    } else {
        qe_data_error(qe_region(r, version))
    }
}

/// The signature region that follows its four-byte length in `s`.
pub open spec fn signature_region(s: Seq<u8>) -> Seq<u8> {
    s.subrange(4, 4 + le32(s, 0))
}

/// Why the signature data at the start of `s` is malformed.
pub open spec fn signature_error(s: Seq<u8>, version: u16) -> Option<&'static str> {
    if s.len() < 4 {
        Some("underflow reading quote signature length")
    } else if s.len() < 4 + le32(s, 0) {
        Some("quote signature shorter than its length")
    } else {
        signature_region_error(signature_region(s), version)
    }
}

/// The number of bytes that the signature data at the start of `s` takes.
pub open spec fn signature_len(s: Seq<u8>) -> int {
    4 + le32(s, 0)
}

/// `q` holds the signature data written at the start of `s`.
pub open spec fn signature_of(q: QuoteSignatureData, s: Seq<u8>, version: u16) -> bool {
    let r = signature_region(s);
    &&& q.isv_signature@ == r.subrange(0, 64)
    &&& q.attestation_pub_key@ == r.subrange(64, 128)
    &&& qe_data_of(q, qe_region(r, version))
}

fn qe_data_at<'a>(
    s: &'a [u8],
    start: usize,
    end: usize,
    isv_signature: [u8; 64],
    attestation_pub_key: [u8; 64],
) -> (r: Result<QuoteSignatureData<'a>, &'static str>)
    requires
        start <= end <= s.len(),
    ensures
        r matches Ok(q) ==> qe_data_error(s@.subrange(start as int, end as int)) is None
            && qe_data_of(q, s@.subrange(start as int, end as int)) && q.isv_signature
            == isv_signature && q.attestation_pub_key == attestation_pub_key,
        r matches Err(e) ==> qe_data_error(s@.subrange(start as int, end as int)) == Some(e),
{
    let ghost x = s@.subrange(start as int, end as int);
    let len = end - start;
    if len < 450 {
        return Err("underflow reading QE report");
    }
    let report = EnclaveReportBody { raw: array_at::<384>(s, start) };
    let sig = array_at::<64>(s, start + 384);
    let auth_len = le16_at(s, start + 448) as usize;
    assert(auth_len == qe_auth_len(x));
    if len - 450 < auth_len {
        return Err("underflow reading QE authentication data");
    }
    let auth = slice_subrange(s, start + 450, start + 450 + auth_len);
    if len - 450 - auth_len < 6 {
        return Err("underflow reading certification data header");
    }
    let cert_type = le16_at(s, start + 450 + auth_len);
    let cert_size = le32_at(s, start + 452 + auth_len) as usize;
    assert(cert_type == le16(x, 450 + qe_auth_len(x)));
    assert(cert_size == le32(x, 452 + qe_auth_len(x)));
    if len - 456 - auth_len < cert_size {
        return Err("underflow reading certification data");
    }
    let data = slice_subrange(s, start + 456 + auth_len, start + 456 + auth_len + cert_size);
    assert(report.raw@ =~= x.subrange(0, 384));
    assert(sig@ =~= x.subrange(384, 448));
    assert(auth@ =~= x.subrange(450, 450 + qe_auth_len(x)));
    assert(data@ =~= x.subrange(
        456 + qe_auth_len(x),
        456 + qe_auth_len(x) + le32(x, 452 + qe_auth_len(x)),
    ));
    Ok(
        QuoteSignatureData {
            isv_signature,
            attestation_pub_key,
            qe_report_body: report,
            qe_report_signature: sig,
            qe_auth_data: auth,
            pck_cert_chain_data: CertificationData { cert_data_type: cert_type, data },
        },
    )
}

/// Where the QE report data of the signature region `s[start..end]` stands.
fn qe_region_at(s: &[u8], start: usize, end: usize, version: u16) -> (r: Result<
    (usize, usize),
    &'static str,
>)
    requires
        start <= end <= s.len(),
        end - start >= 128,
    ensures
        r matches Ok((a, b)) ==> start <= a <= b <= end && s@.subrange(a as int, b as int)
            == qe_region(s@.subrange(start as int, end as int), version)
            && signature_region_error(s@.subrange(start as int, end as int), version)
            == qe_data_error(s@.subrange(a as int, b as int)),
        r matches Err(e) ==> signature_region_error(s@.subrange(start as int, end as int), version)
            == Some(e),
{
    let ghost region = s@.subrange(start as int, end as int);
    if version <= 3 {
        assert(region.skip(128) =~= s@.subrange(start + 128, end as int));
        Ok((start + 128, end))
    } else {
        if end - start < 134 {
            return Err("underflow reading certification data header");
        }
        let cert_type = le16_at(s, start + 128);
        assert(cert_type == le16(region, 128));
        if cert_type != 6 {
            return Err("unsupported certification data type");
        }
        let size = le32_at(s, start + 130) as usize;
        assert(size == le32(region, 130));
        if end - start - 134 < size {
            return Err("underflow reading certification data");
        }
        assert(qe_region(region, version) =~= s@.subrange(start + 134, start + 134 + size));
        Ok((start + 134, start + 134 + size))
    }
}

fn signature_at<'a>(s: &'a [u8], pos: usize, version: u16) -> (r: Result<
    QuoteSignatureData<'a>,
    &'static str,
>)
    requires
        pos <= s.len(),
    ensures
        r matches Ok(q) ==> signature_error(s@.skip(pos as int), version) is None && signature_of(
            q,
            s@.skip(pos as int),
            version,
        ) && pos + signature_len(s@.skip(pos as int)) <= s.len(),
        r matches Err(e) ==> signature_error(s@.skip(pos as int), version) == Some(e),
{
    let ghost t = s@.skip(pos as int);
    if s.len() - pos < 4 {
        return Err("underflow reading quote signature length");
    }
    let sig_len = le32_at(s, pos) as usize;
    assert(sig_len == le32(t, 0));
    if s.len() - pos - 4 < sig_len {
        return Err("quote signature shorter than its length");
    }
    let start = pos + 4;
    let end = start + sig_len;
    let ghost region = signature_region(t);
    assert(region =~= s@.subrange(start as int, end as int));
    if sig_len < 128 {
        return Err("underflow reading quote signature");
    }
    let isv_signature = array_at::<64>(s, start);
    let attestation_pub_key = array_at::<64>(s, start + 64);
    assert(isv_signature@ =~= region.subrange(0, 64));
    assert(attestation_pub_key@ =~= region.subrange(64, 128));
    let (qe_start, qe_end) = qe_region_at(s, start, end, version)?;
    qe_data_at(s, qe_start, qe_end, isv_signature, attestation_pub_key)
}

impl<'a> QuoteSignatureData<'a> {
    /// Reads the signature data of a quote of the given version from the
    /// front of `bytes` and moves `bytes` past it; on an error `bytes` is
    /// left as it was.
    pub fn read(bytes: &mut &'a [u8], version: u16) -> (r: Result<Self, &'static str>)
        ensures
            r matches Ok(q) ==> signature_error((*old(bytes))@, version) is None && signature_of(
                q,
                (*old(bytes))@,
                version,
            ) && (*final(bytes))@ == (*old(bytes))@.skip(signature_len((*old(bytes))@)),
            r matches Err(e) ==> signature_error((*old(bytes))@, version) == Some(e)
                && (*final(bytes))@ == (*old(bytes))@,
    {
        let s: &'a [u8] = *bytes;
        assert(s@.skip(0) =~= s@);
        let q = signature_at(s, 0, version)?;
        let n = 4 + le32_at(s, 0) as usize;
        *bytes = slice_subrange(s, n, s.len());
        assert((*bytes)@ =~= s@.skip(n as int));
        Ok(q)
    }
}

/// Where a quote's report body stands and what its type and size are.
pub struct BodyInfo {
    pub body_type: u16,
    pub body_size: u32,
    pub start: int,
    pub len: int,
}

/// The report body that the header of the quote `s` announces: versions up to
/// 4 take the body kind from the TEE type; later versions write the body type
/// and size after the header, and these must agree with the TEE type.
pub open spec fn quote_body_info(s: Seq<u8>) -> Result<BodyInfo, &'static str> {
    let version = le16(s, 0);
    let tee_type = le32(s, 4);
    if version <= 4 {
        if tee_type == SGX_TEE_TYPE {
            Ok(BodyInfo { body_type: 1, body_size: 384, start: 48, len: 384 })
        } else if tee_type == TDX_TEE_TYPE {
            Ok(BodyInfo { body_type: 2, body_size: 584, start: 48, len: 584 })
        } else {
            Err("unsupported TEE type")
        }
    } else {
        let body_type = le16(s, 48);
        let body_size = le32(s, 50);
        if body_type == 1 {
            if tee_type != SGX_TEE_TYPE {
                Err("Quote body type 1 must be SGX TEE type")
            } else if body_size != 384 {
                Err("Quote body size mismatch for SGX TEE type")
            } else {
                Ok(BodyInfo { body_type, body_size, start: 54, len: 384 })
            }
        } else if body_type == 2 {
            if tee_type != TDX_TEE_TYPE {
                Err("Quote body type 2 must be TDX TEE type")
            } else if body_size != 584 {
                Err("Quote body size mismatch for TDX TEE type")
            } else {
                Ok(BodyInfo { body_type, body_size, start: 54, len: 584 })
            }
        } else if body_type == 3 {
            if tee_type != TDX_TEE_TYPE {
                Err("Quote body type 3 must be TDX TEE type")
            } else if body_size != 648 {
                Err("Quote body size mismatch for TDX TEE type")
            } else {
                Ok(BodyInfo { body_type, body_size, start: 54, len: 648 })
            }
        } else {
            Err("unsupported quote body type")
        }
    }
}

/// The error of reading a report body of the given type past the end.
pub open spec fn body_underflow_error(body_type: u16) -> &'static str {
    if body_type == 1 {
        "underflow reading enclave report body"
    } else if body_type == 2 {
        "underflow reading td10 report body"
    } else {
        "underflow reading td15 report body"
    }
}

/// What reading a quote asks of its bytes: a quote of version 5 or later has
/// the six bytes of its body type and size after the header.
pub open spec fn quote_read_allowed(s: Seq<u8>) -> bool {
    s.len() >= 48 && le16(s, 0) > 4 ==> s.len() >= 54
}

/// Why the bytes `s` do not start with a quote.
pub open spec fn quote_error(s: Seq<u8>) -> Option<&'static str> {
    if s.len() < 48 {
        Some("incorrect buffer size")
    } else {
        match quote_body_info(s) {
            Err(e) => Some(e),
            Ok(b) => if s.len() < b.start + b.len {
                Some(body_underflow_error(b.body_type))
            } else {
                signature_error(s.skip(b.start + b.len), le16(s, 0))
            },
        }
    }
}

/// How many bytes reading a quote from `s` has consumed when it fails.
pub open spec fn quote_error_pos(s: Seq<u8>) -> int {
    if s.len() < 48 {
        0
    } else {
        match quote_body_info(s) {
            Err(_) => if le16(s, 0) <= 4 {
                48
            } else {
                54
            },
            Ok(b) => if s.len() < b.start + b.len {
                b.start
            } else {
                b.start + b.len
            },
        }
    }
}

/// The length of the quote at the start of `s`.
pub open spec fn quote_len(s: Seq<u8>) -> int {
    let b = quote_body_info(s)->Ok_0;
    b.start + b.len + signature_len(s.skip(b.start + b.len))
}

/// `q` is the quote written at the start of `s`.
pub open spec fn quote_of(q: Quote, s: Seq<u8>) -> bool {
    let b = quote_body_info(s)->Ok_0;
    &&& header_of(q.header, s)
    &&& q.body_type == b.body_type
    &&& q.body_size == b.body_size
    &&& q.body.spec_type() == b.body_type
    &&& q.body.spec_bytes() == s.subrange(b.start, b.start + b.len)
    &&& signature_of(q.signature, s.skip(b.start + b.len), q.header.version)
}

/// A DCAP quote.
#[derive(Debug, Clone, Copy, PartialEq, Eq)]
pub struct Quote<'a> {
    pub header: QuoteHeader,
    pub body_type: u16,
    pub body_size: u32,
    pub body: QuoteBody,
    pub signature: QuoteSignatureData<'a>,
}

impl<'a> Quote<'a> {
    /// Reads a quote from the front of `bytes` and moves `bytes` past what it
    /// has read.
    pub fn read(bytes: &mut &'a [u8]) -> (r: Result<Self, &'static str>)
        requires
            quote_read_allowed((*old(bytes))@),
        ensures
            r matches Ok(q) ==> quote_error((*old(bytes))@) is None && quote_of(q, (*old(bytes))@)
                && (*final(bytes))@ == (*old(bytes))@.skip(quote_len((*old(bytes))@)),
            r matches Err(e) ==> quote_error((*old(bytes))@) == Some(e) && (*final(bytes))@
                == (*old(bytes))@.skip(quote_error_pos((*old(bytes))@)),
    {
        let s: &'a [u8] = *bytes;
        if s.len() < QUOTE_HEADER_LEN {
            assert(s@.skip(0) =~= s@);
            return Err("incorrect buffer size");
        }
        let quote_header = QuoteHeader::read_at(s, 0);
        assert(s@.skip(0) =~= s@);
        *bytes = slice_subrange(s, QUOTE_HEADER_LEN, s.len());
        let quote_body_type: u16;
        let quote_body_size: u32;
        let body_start: usize;
        let quote_body = if quote_header.version <= 4 {
            body_start = QUOTE_HEADER_LEN;
            if quote_header.tee_type == SGX_TEE_TYPE {
                quote_body_type = 1;
                quote_body_size = ENCLAVE_REPORT_LEN as u32;
                if s.len() - body_start < ENCLAVE_REPORT_LEN {
                    assert((*bytes)@ =~= s@.skip(48));
                    return Err("underflow reading enclave report body");
                }
                QuoteBody::SgxQuoteBody(EnclaveReportBody { raw: array_at::<384>(s, body_start) })
            } else if quote_header.tee_type == TDX_TEE_TYPE {
                quote_body_type = 2;
                quote_body_size = TD10_REPORT_LEN as u32;
                if s.len() - body_start < TD10_REPORT_LEN {
                    assert((*bytes)@ =~= s@.skip(48));
                    return Err("underflow reading td10 report body");
                }
                QuoteBody::Td10QuoteBody(Td10ReportBody { raw: array_at::<584>(s, body_start) })
            } else {
                assert((*bytes)@ =~= s@.skip(48));
                return Err("unsupported TEE type");
            }
        } else {
            quote_body_type = le16_at(s, 48);
            quote_body_size = le32_at(s, 50);
            body_start = 54;
            *bytes = slice_subrange(s, body_start, s.len());
            assert((*bytes)@ =~= s@.skip(54));
            if quote_body_type == 1 {
                if quote_header.tee_type != SGX_TEE_TYPE {
                    return Err("Quote body type 1 must be SGX TEE type");
                }
                if quote_body_size as usize != ENCLAVE_REPORT_LEN {
                    return Err("Quote body size mismatch for SGX TEE type");
                }
                if s.len() - body_start < ENCLAVE_REPORT_LEN {
                    return Err("underflow reading enclave report body");
                }
                QuoteBody::SgxQuoteBody(EnclaveReportBody { raw: array_at::<384>(s, body_start) })
            } else if quote_body_type == 2 {
                if quote_header.tee_type != TDX_TEE_TYPE {
                    return Err("Quote body type 2 must be TDX TEE type");
                }
                if quote_body_size as usize != TD10_REPORT_LEN {
                    return Err("Quote body size mismatch for TDX TEE type");
                }
                if s.len() - body_start < TD10_REPORT_LEN {
                    return Err("underflow reading td10 report body");
                }
                QuoteBody::Td10QuoteBody(Td10ReportBody { raw: array_at::<584>(s, body_start) })
            } else if quote_body_type == 3 {
                if quote_header.tee_type != TDX_TEE_TYPE {
                    return Err("Quote body type 3 must be TDX TEE type");
                }
                if quote_body_size as usize != TD15_REPORT_LEN {
                    return Err("Quote body size mismatch for TDX TEE type");
                }
                if s.len() - body_start < TD15_REPORT_LEN {
                    return Err("underflow reading td15 report body");
                }
                QuoteBody::Td15QuoteBody(Td15ReportBody { raw: array_at::<648>(s, body_start) })
            } else {
                return Err("unsupported quote body type");
            }
        };
        let body_end = body_start + quote_body_size as usize;
        let ghost info = quote_body_info(s@)->Ok_0;
        assert(body_start == info.start && body_end == info.start + info.len);
        assert(quote_body.spec_bytes() =~= s@.subrange(info.start, info.start + info.len));
        *bytes = slice_subrange(s, body_end, s.len());
        assert((*bytes)@ =~= s@.skip(body_end as int));
        let quote_signature = QuoteSignatureData::read(bytes, quote_header.version)?;
        assert((*bytes)@ =~= s@.skip(quote_len(s@)));
        Ok(
            Quote {
                header: quote_header,
                body_type: quote_body_type,
                body_size: quote_body_size,
                body: quote_body,
                signature: quote_signature,
            },
        )
    }
}


/// A quote that is read successfully carries a report body that agrees with
/// its TEE type: an SGX enclave report for the SGX TEE type, a TD report for
/// the TDX TEE type; and its body size is the length of that report.
pub proof fn quote_body_agrees_with_tee_type(q: Quote, s: Seq<u8>)
    requires
        quote_error(s) is None,
        quote_of(q, s),
    ensures
        q.body.spec_type() == 1 ==> q.header.tee_type == SGX_TEE_TYPE,
        q.body.spec_type() != 1 ==> q.header.tee_type == TDX_TEE_TYPE,
        q.body_size as int == q.body.spec_bytes().len(),
{
}

/// The little-endian number in the bytes `s[i..i + 2]`.
pub open spec fn bytes_le16(s: Seq<u8>, i: int) -> int {
    s[i] as int + s[i + 1] as int * 0x100
}

/// The little-endian number in the bytes `s[i..i + 4]`.
pub open spec fn bytes_le32(s: Seq<u8>, i: int) -> int {
    s[i] as int + s[i + 1] as int * 0x100 + s[i + 2] as int * 0x10000 + s[i + 3] as int
        * 0x1000000
}

/// Where the report body of the quote `s` begins: right after the 48-byte
/// header up to version 4, after the header and the six bytes of body type
/// and size from version 5 on.
pub open spec fn body_offset(version: u16) -> int {
    if version <= 4 {
        48
    } else {
        54
    }
}

/// The header of a quote read from `s` holds the first 48 bytes of `s`, field
/// after field: version, attestation key type, TEE type, QE SVN and PCE SVN
/// as little-endian numbers in bytes 0 to 11, the QE vendor ID in bytes 12 to
/// 27 and the user data in bytes 28 to 47. The body is the bytes that follow
/// the header (and, from version 5, the body type and size written there);
/// its kind is the one the TEE type names, or, from version 5, the one the
/// body type names.
pub proof fn quote_header_and_body_from_bytes(q: Quote, s: Seq<u8>)
    requires
        quote_error(s) is None,
        quote_of(q, s),
    ensures
        q.header.version as int == s[0] as int + s[1] as int * 0x100,
        q.header.attestation_key_type as int == s[2] as int + s[3] as int * 0x100,
        q.header.tee_type as int == s[4] as int + s[5] as int * 0x100 + s[6] as int * 0x10000
            + s[7] as int * 0x1000000,
        q.header.qe_svn as int == s[8] as int + s[9] as int * 0x100,
        q.header.pce_svn as int == s[10] as int + s[11] as int * 0x100,
        q.header.qe_vendor_id@ == s.subrange(12, 28),
        q.header.user_data@ == s.subrange(28, 48),
        q.header.qe_vendor_id@ + q.header.user_data@ == s.subrange(12, 48),
        q.body.spec_bytes() == s.subrange(
            body_offset(q.header.version),
            body_offset(q.header.version) + q.body.spec_bytes().len(),
        ),
        q.header.version <= 4 ==> (q.body is SgxQuoteBody <==> q.header.tee_type == SGX_TEE_TYPE),
        q.header.version <= 4 ==> !(q.body is Td15QuoteBody),
        q.header.version > 4 ==> q.body_type as int == s[48] as int + s[49] as int * 0x100
            && q.body_size as int == s[50] as int + s[51] as int * 0x100 + s[52] as int
            * 0x10000 + s[53] as int * 0x1000000,
        q.body_type == q.body.spec_type(),
        q.body_size as int == q.body.spec_bytes().len(),
{
    assert(s.subrange(12, 48) =~= s.subrange(12, 28) + s.subrange(28, 48));
}

/// The signature data of a quote read from `s` follows the body: a
/// four-byte length, the ISV signature (64 bytes) and the attestation key
/// (64 bytes); then, in version 3, the QE report data itself, and from
/// version 4 on, a certification-data header of type 6 and size, and the QE
/// report data as its data. The QE report data holds the QE report (384
/// bytes), its signature (64), the two-byte length of the authentication
/// data and that data, then the type (2 bytes), size (4) and bytes of the
/// PCK certification data. The quote ends where the signature data does:
/// four bytes and the length they hold after the body.
pub proof fn quote_signature_from_bytes(q: Quote, s: Seq<u8>)
    requires
        quote_error(s) is None,
        quote_of(q, s),
    ensures
        ({
            let t = body_offset(q.header.version) + q.body.spec_bytes().len();
            let x = if q.header.version <= 3 {
                t + 132
            } else {
                t + 138
            };
            let a = bytes_le16(s, x + 448);
            &&& quote_len(s) == t + 4 + bytes_le32(s, t)
            &&& q.signature.isv_signature@ == s.subrange(t + 4, t + 68)
            &&& q.signature.attestation_pub_key@ == s.subrange(t + 68, t + 132)
            &&& q.header.version > 3 ==> bytes_le16(s, t + 132) == 6
            &&& q.signature.qe_report_body.raw@ == s.subrange(x, x + 384)
            &&& q.signature.qe_report_signature@ == s.subrange(x + 384, x + 448)
            &&& q.signature.qe_auth_data@ == s.subrange(x + 450, x + 450 + a)
            &&& q.signature.pck_cert_chain_data.cert_data_type as int == bytes_le16(s, x + 450 + a)
            &&& q.signature.pck_cert_chain_data.data@ == s.subrange(
                x + 456 + a,
                x + 456 + a + bytes_le32(s, x + 452 + a),
            )
        }),
{
    let b = quote_body_info(s)->Ok_0;
    let t = b.start + b.len;
    assert(t == body_offset(q.header.version) + q.body.spec_bytes().len());
    let u = s.skip(t);
    let r = signature_region(u);
    let v = q.header.version;
    assert(le32(u, 0) as int == bytes_le32(s, t));
    assert(r =~= s.subrange(t + 4, t + 4 + le32(u, 0)));
    assert(r.subrange(0, 64) =~= s.subrange(t + 4, t + 68));
    assert(r.subrange(64, 128) =~= s.subrange(t + 68, t + 132));
    let x = if v <= 3 {
        t + 132
    } else {
        t + 138
    };
    let xr = qe_region(r, v);
    if v <= 3 {
        assert(xr =~= s.subrange(t + 132, t + 4 + le32(u, 0)));
    } else {
        assert(le16(r, 128) == le16(s, t + 132));
        assert(le32(r, 130) == le32(s, t + 134));
        assert(xr =~= s.subrange(t + 138, t + 138 + le32(s, t + 134)));
    }
    let a = qe_auth_len(xr);
    assert(a == bytes_le16(s, x + 448));
    assert(xr.subrange(0, 384) =~= s.subrange(x, x + 384));
    assert(xr.subrange(384, 448) =~= s.subrange(x + 384, x + 448));
    assert(xr.subrange(450, 450 + a) =~= s.subrange(x + 450, x + 450 + a));
    assert(le16(xr, 450 + a) as int == bytes_le16(s, x + 450 + a));
    assert(le32(xr, 452 + a) as int == bytes_le32(s, x + 452 + a));
    assert(xr.subrange(456 + a, 456 + a + le32(xr, 452 + a)) =~= s.subrange(
        x + 456 + a,
        x + 456 + a + bytes_le32(s, x + 452 + a),
    ));
}

} // verus!
