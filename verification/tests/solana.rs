use dcap_rs::solana::{
    enclave_identity_address, pcs_certificate_address, CertificateAuthority, EnclaveIdentityType,
};
use solana_program::pubkey::Pubkey;

#[test]
fn enclave_identity_type_names_and_tags() {
    assert_eq!(EnclaveIdentityType::QE.common_name(), "QE");
    assert_eq!(EnclaveIdentityType::QVE.common_name(), "QVE");
    assert_eq!(EnclaveIdentityType::TdQe.common_name(), "TD_QE");
    assert_eq!(EnclaveIdentityType::from_u8(0), Some(EnclaveIdentityType::QE));
    assert_eq!(EnclaveIdentityType::from_u8(1), Some(EnclaveIdentityType::QVE));
    assert_eq!(EnclaveIdentityType::from_u8(2), Some(EnclaveIdentityType::TdQe));
    assert_eq!(EnclaveIdentityType::from_u8(3), None);
    assert_eq!(EnclaveIdentityType::from_u8(255), None);
}

#[test]
fn certificate_authority_names_and_tags() {
    assert_eq!(CertificateAuthority::ROOT.common_name(), "Intel SGX Root CA");
    assert_eq!(CertificateAuthority::PLATFORM.common_name(), "Intel SGX Platform CA");
    assert_eq!(CertificateAuthority::PROCESSOR.common_name(), "Intel SGX Processor CA");
    assert_eq!(CertificateAuthority::SIGNING.common_name(), "Intel SGX TCB Signing CA");
    assert_eq!(CertificateAuthority::from_u8(0), Some(CertificateAuthority::ROOT));
    assert_eq!(CertificateAuthority::from_u8(1), Some(CertificateAuthority::PLATFORM));
    assert_eq!(CertificateAuthority::from_u8(2), Some(CertificateAuthority::PROCESSOR));
    assert_eq!(CertificateAuthority::from_u8(3), Some(CertificateAuthority::SIGNING));
    assert_eq!(CertificateAuthority::from_u8(4), None);
}

const PROGRAM_ID: [u8; 32] = [
    0xf3, 0x28, 0x6e, 0x3b, 0x9b, 0x0c, 0x4a, 0x50, 0x11, 0x7e, 0x5a, 0x3d, 0x20, 0x61, 0x02, 0x88,
    0x4b, 0x90, 0xc7, 0x33, 0x6d, 0x1a, 0x2f, 0x49, 0x05, 0xe8, 0x77, 0x14, 0xaa, 0x3c, 0x61, 0x0d,
];

#[test]
fn enclave_identity_account_address() {
    let program = Pubkey::new_from_array(PROGRAM_ID);
    let (expected, _) =
        Pubkey::find_program_address(&[b"enclave_identity", b"TD_QE", &[2u8]], &program);
    let address = enclave_identity_address("TD_QE", 2, &PROGRAM_ID).unwrap();
    assert_eq!(address, expected.to_bytes());
    assert_ne!(address, PROGRAM_ID);
    assert_ne!(address, enclave_identity_address("TD_QE", 3, &PROGRAM_ID).unwrap());
    // A seed longer than 32 bytes gives no address.
    assert_eq!(enclave_identity_address(&"Q".repeat(33), 2, &PROGRAM_ID), None);
}

#[test]
fn pcs_certificate_account_address() {
    let program = Pubkey::new_from_array(PROGRAM_ID);
    let (expected, _) =
        Pubkey::find_program_address(&[b"pcs_cert", b"Intel SGX TCB Signing CA"], &program);
    let address = pcs_certificate_address(CertificateAuthority::SIGNING, &PROGRAM_ID).unwrap();
    assert_eq!(address, expected.to_bytes());
    assert_ne!(address, pcs_certificate_address(CertificateAuthority::ROOT, &PROGRAM_ID).unwrap());
}
