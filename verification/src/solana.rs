use vstd::prelude::*;
use vstd::utf8::{decode_utf8, encode_utf8, encode_utf8_decode_utf8};

use crate::trusted::{find_program_address, program_address};

verus! {

/// The kinds of enclave identity that the PCCS program stores.
#[derive(Debug, Clone, Copy, PartialEq, Eq, Structural)]
pub enum EnclaveIdentityType {
    QE,
    QVE,
    TdQe,
}

impl EnclaveIdentityType {
    /// The numeric tag of each kind in the on-chain encoding.
    pub open spec fn spec_tag(self) -> u8 {
        match self {
            EnclaveIdentityType::QE => 0,
            EnclaveIdentityType::QVE => 1,
            EnclaveIdentityType::TdQe => 2,
        }
    }

    /// The name under which the identity is published.
    pub open spec fn spec_common_name(self) -> Seq<char> {
        match self {
            EnclaveIdentityType::QE => "QE"@,
            EnclaveIdentityType::QVE => "QVE"@,
            EnclaveIdentityType::TdQe => "TD_QE"@,
        }
    }

    pub fn common_name(&self) -> (name: &'static str)
        ensures
            name@ == self.spec_common_name(),
    {
        match self {
            EnclaveIdentityType::QE => "QE",
            EnclaveIdentityType::QVE => "QVE",
            EnclaveIdentityType::TdQe => "TD_QE",
        }
    }

    /// The kind with a given tag, if any.
    pub open spec fn spec_from_tag(value: u8) -> Option<Self> {
        match value {
            0 => Some(EnclaveIdentityType::QE),
            1 => Some(EnclaveIdentityType::QVE),
            2 => Some(EnclaveIdentityType::TdQe),
            _ => None,
        }
    }

    pub fn from_u8(value: u8) -> (r: Option<Self>)
        ensures
            r == Self::spec_from_tag(value),
            r is None <==> value > 2,
    {
        match value {
            0 => Some(EnclaveIdentityType::QE),
            1 => Some(EnclaveIdentityType::QVE),
            2 => Some(EnclaveIdentityType::TdQe),
            _ => None,
        }
    }
}


/// The certificate authorities whose certificates the PCCS program stores.
#[derive(Debug, Clone, Copy, PartialEq, Eq, Structural)]
pub enum CertificateAuthority {
    ROOT,
    PLATFORM,
    PROCESSOR,
    SIGNING,
}

impl CertificateAuthority {
    /// The numeric tag of each authority in the on-chain encoding.
    pub open spec fn spec_tag(self) -> u8 {
        match self {
            CertificateAuthority::ROOT => 0,
            CertificateAuthority::PLATFORM => 1,
            CertificateAuthority::PROCESSOR => 2,
            CertificateAuthority::SIGNING => 3,
        }
    }

    /// The common name of the authority's certificate.
    pub open spec fn spec_common_name(self) -> Seq<char> {
        match self {
            CertificateAuthority::ROOT => "Intel SGX Root CA"@,
            CertificateAuthority::PLATFORM => "Intel SGX Platform CA"@,
            CertificateAuthority::PROCESSOR => "Intel SGX Processor CA"@,
            CertificateAuthority::SIGNING => "Intel SGX TCB Signing CA"@,
        }
    }

    pub fn common_name(&self) -> (name: &'static str)
        ensures
            name@ == self.spec_common_name(),
    {
        match self {
            CertificateAuthority::ROOT => "Intel SGX Root CA",
            CertificateAuthority::PLATFORM => "Intel SGX Platform CA",
            CertificateAuthority::PROCESSOR => "Intel SGX Processor CA",
            CertificateAuthority::SIGNING => "Intel SGX TCB Signing CA",
        }
    }

    /// The authority with a given tag, if any.
    pub open spec fn spec_from_tag(value: u8) -> Option<Self> {
        match value {
            0 => Some(CertificateAuthority::ROOT),
            1 => Some(CertificateAuthority::PLATFORM),
            2 => Some(CertificateAuthority::PROCESSOR),
            3 => Some(CertificateAuthority::SIGNING),
            _ => None,
        }
    }

    pub fn from_u8(value: u8) -> (r: Option<Self>)
        ensures
            r == Self::spec_from_tag(value),
            r is None <==> value > 3,
    {
        match value {
            0 => Some(CertificateAuthority::ROOT),
            1 => Some(CertificateAuthority::PLATFORM),
            2 => Some(CertificateAuthority::PROCESSOR),
            3 => Some(CertificateAuthority::SIGNING),
            _ => None,
        }
    }
}

/// Reading the tag of a kind of enclave identity gives the kind back, and a
/// tag that reads as a kind is that kind's tag: tags and kinds correspond one
/// to one.
pub proof fn enclave_identity_type_tag_roundtrip(t: EnclaveIdentityType, value: u8)
    ensures
        EnclaveIdentityType::spec_from_tag(t.spec_tag()) == Some(t),
        EnclaveIdentityType::spec_from_tag(value) matches Some(u) ==> u.spec_tag() == value,
{
}

/// Reading the tag of a certificate authority gives the authority back, and
/// a tag that reads as an authority is that authority's tag.
pub proof fn certificate_authority_tag_roundtrip(t: CertificateAuthority, value: u8)
    ensures
        CertificateAuthority::spec_from_tag(t.spec_tag()) == Some(t),
        CertificateAuthority::spec_from_tag(value) matches Some(u) ==> u.spec_tag() == value,
{
}

/// The seeds of the program account that holds the identity of an enclave:
/// the word `enclave_identity`, the enclave's name, and the version byte.
pub open spec fn enclave_identity_seeds(enclave_id: Seq<char>, version: u8) -> Seq<Seq<u8>> {
    seq![encode_utf8("enclave_identity"@), encode_utf8(enclave_id), seq![version]]
}

/// The seeds of the program account that holds the certificate of an
/// authority: the word `pcs_cert` and the authority's common name.
pub open spec fn pcs_certificate_seeds(ca_type: CertificateAuthority) -> Seq<Seq<u8>> {
    seq![encode_utf8("pcs_cert"@), encode_utf8(ca_type.spec_common_name())]
}

/// The address of the program account that holds the identity of an
/// enclave, or `None` where no program address can be derived from its seeds.
pub fn enclave_identity_address(enclave_id: &str, version: u8, program_id: &[u8; 32]) -> (r: Option<
    [u8; 32],
>)
    ensures
        r is Some <==> program_address(enclave_identity_seeds(enclave_id@, version), program_id@)
            is Some,
        r matches Some(a) ==> (program_address(
            enclave_identity_seeds(enclave_id@, version),
            program_id@,
        ) matches Some((b, _)) && a@ == b),
{
    let version_bytes = [version];
    let seeds: [&[u8]; 3] = ["enclave_identity".as_bytes(), enclave_id.as_bytes(), version_bytes.as_slice()];
    proof {
        assert(version_bytes@ =~= seq![version]);
        assert(seeds@.map_values(|s: &[u8]| s@) =~= enclave_identity_seeds(enclave_id@, version));
    }
    match find_program_address(seeds.as_slice(), program_id) {
        Some((address, _bump)) => Some(address),
        None => None,
    }
}

/// The address of the program account that holds the certificate of an
/// authority, or `None` where no program address can be derived from its
/// seeds.
pub fn pcs_certificate_address(ca_type: CertificateAuthority, program_id: &[u8; 32]) -> (r: Option<
    [u8; 32],
>)
    ensures
        r is Some <==> program_address(pcs_certificate_seeds(ca_type), program_id@) is Some,
        r matches Some(a) ==> (program_address(pcs_certificate_seeds(ca_type), program_id@) matches Some(
            (b, _),
        ) && a@ == b),
{
    let seeds: [&[u8]; 2] = ["pcs_cert".as_bytes(), ca_type.common_name().as_bytes()];
    proof {
        assert(seeds@.map_values(|s: &[u8]| s@) =~= pcs_certificate_seeds(ca_type));
    }
    match find_program_address(seeds.as_slice(), program_id) {
        Some((address, _bump)) => Some(address),
        None => None,
    }
}

/// The common name of each certificate authority, as Intel's certificates
/// carry it; distinct authorities have distinct names.
pub proof fn certificate_authority_common_names(ca: CertificateAuthority, other: CertificateAuthority)
    ensures
        ca == CertificateAuthority::ROOT ==> ca.spec_common_name() == "Intel SGX Root CA"@,
        ca == CertificateAuthority::PLATFORM ==> ca.spec_common_name() == "Intel SGX Platform CA"@,
        ca == CertificateAuthority::PROCESSOR ==> ca.spec_common_name()
            == "Intel SGX Processor CA"@,
        ca == CertificateAuthority::SIGNING ==> ca.spec_common_name()
            == "Intel SGX TCB Signing CA"@,
        ca != other ==> ca.spec_common_name() != other.spec_common_name(),
{
    reveal_strlit("Intel SGX Root CA");
    reveal_strlit("Intel SGX Platform CA");
    reveal_strlit("Intel SGX Processor CA");
    reveal_strlit("Intel SGX TCB Signing CA");
    assert("Intel SGX Root CA"@.len() == 17);
    assert("Intel SGX Platform CA"@.len() == 21);
    assert("Intel SGX Processor CA"@.len() == 22);
    assert("Intel SGX TCB Signing CA"@.len() == 24);
}

/// The account of a certificate authority is found under the word
/// `pcs_cert` and the authority's own common name, so distinct authorities
/// have distinct seeds.
pub proof fn pcs_certificate_seeds_name_the_authority(
    ca: CertificateAuthority,
    other: CertificateAuthority,
)
    ensures
        pcs_certificate_seeds(ca).len() == 2,
        pcs_certificate_seeds(ca)[0] == encode_utf8("pcs_cert"@),
        pcs_certificate_seeds(ca)[1] == encode_utf8(ca.spec_common_name()),
        decode_utf8(pcs_certificate_seeds(ca)[1]) == ca.spec_common_name(),
        ca != other ==> pcs_certificate_seeds(ca) != pcs_certificate_seeds(other),
{
    certificate_authority_common_names(ca, other);
    encode_utf8_decode_utf8(ca.spec_common_name());
    encode_utf8_decode_utf8(other.spec_common_name());
    if ca != other && pcs_certificate_seeds(ca) == pcs_certificate_seeds(other) {
        assert(pcs_certificate_seeds(ca)[1] == pcs_certificate_seeds(other)[1]);
    }
}

/// The account of an enclave identity is found under the word
/// `enclave_identity`, the enclave's name and the version byte, so distinct
/// names or versions have distinct seeds.
pub proof fn enclave_identity_seeds_name_the_enclave(
    enclave_id: Seq<char>,
    version: u8,
    other_id: Seq<char>,
    other_version: u8,
)
    ensures
        enclave_identity_seeds(enclave_id, version).len() == 3,
        enclave_identity_seeds(enclave_id, version)[0] == encode_utf8("enclave_identity"@),
        enclave_identity_seeds(enclave_id, version)[1] == encode_utf8(enclave_id),
        enclave_identity_seeds(enclave_id, version)[2] == seq![version],
        (enclave_id != other_id || version != other_version) ==> enclave_identity_seeds(
            enclave_id,
            version,
        ) != enclave_identity_seeds(other_id, other_version),
{
    encode_utf8_decode_utf8(enclave_id);
    encode_utf8_decode_utf8(other_id);
    let a = enclave_identity_seeds(enclave_id, version);
    let b = enclave_identity_seeds(other_id, other_version);
    if a == b {
        assert(a[1] == b[1]);
        assert(a[2] == b[2]);
        assert(a[2][0] == version);
        assert(b[2][0] == other_version);
    }
}

/// The name under which each kind of enclave identity is published;
/// distinct kinds have distinct names.
pub proof fn enclave_identity_type_common_names(t: EnclaveIdentityType, other: EnclaveIdentityType)
    ensures
        t == EnclaveIdentityType::QE ==> t.spec_common_name() == "QE"@,
        t == EnclaveIdentityType::QVE ==> t.spec_common_name() == "QVE"@,
        t == EnclaveIdentityType::TdQe ==> t.spec_common_name() == "TD_QE"@,
        t != other ==> t.spec_common_name() != other.spec_common_name(),
{
    reveal_strlit("QE");
    reveal_strlit("QVE");
    reveal_strlit("TD_QE");
    assert("QE"@.len() == 2);
    assert("QVE"@.len() == 3);
    assert("TD_QE"@.len() == 5);
}

/// The tag of each kind of enclave identity in the on-chain encoding: QE 0,
/// QVE 1, TD_QE 2.
pub proof fn enclave_identity_type_tags(t: EnclaveIdentityType)
    ensures
        t == EnclaveIdentityType::QE <==> t.spec_tag() == 0,
        t == EnclaveIdentityType::QVE <==> t.spec_tag() == 1,
        t == EnclaveIdentityType::TdQe <==> t.spec_tag() == 2,
{
}

/// The tag of each certificate authority in the on-chain encoding: root 0,
/// platform 1, processor 2, signing 3.
pub proof fn certificate_authority_tags(ca: CertificateAuthority)
    ensures
        ca == CertificateAuthority::ROOT <==> ca.spec_tag() == 0,
        ca == CertificateAuthority::PLATFORM <==> ca.spec_tag() == 1,
        ca == CertificateAuthority::PROCESSOR <==> ca.spec_tag() == 2,
        ca == CertificateAuthority::SIGNING <==> ca.spec_tag() == 3,
{
}

} // verus!
