use dcap_rs::types::quote::{EnclaveReportBody, QuoteBody, Td10ReportBody};
use dcap_rs::types::VerifiedOutput;

fn output(advisory_ids: Option<Vec<String>>) -> VerifiedOutput {
    VerifiedOutput {
        quote_version: 0x0304,
        tee_type: 0x00000081,
        tcb_status: 2,
        fmspc: [0x90, 0xC0, 0x6F, 0x00, 0x00, 0x00],
        quote_body: QuoteBody::Td10QuoteBody(Td10ReportBody { raw: [0x5A; 584] }),
        advisory_ids,
    }
}

#[test]
fn to_vec_without_advisory_ids() {
    let bytes = output(None).to_vec();
    assert_eq!(bytes.len(), 13 + 584);
    assert_eq!(&bytes[..13], &[0x03, 0x04, 0x81, 0, 0, 0, 2, 0x90, 0xC0, 0x6F, 0, 0, 0]);
    assert!(bytes[13..].iter().all(|&b| b == 0x5A));
}

#[test]
fn to_vec_with_advisory_ids() {
    let ids = vec!["INTEL-SA-00334".to_string(), "INTEL-SA-00615".to_string()];
    let bytes = output(Some(ids.clone())).to_vec();
    let tail = &bytes[13 + 584..];
    let expected = alloy_sol_types::SolValue::abi_encode(&ids);
    assert_eq!(tail, &expected[..]);
    // Head offset, array length, two element offsets, and each string as a
    // length word and one padded data word.
    assert_eq!(tail.len(), 32 * 8);
    assert_eq!(tail[31], 0x20);
    assert_eq!(tail[63], 2);
    assert_eq!(&tail[32 * 5..32 * 5 + 14], b"INTEL-SA-00334");
}

#[test]
fn to_vec_of_sgx_body() {
    let out = VerifiedOutput {
        quote_version: 3,
        tee_type: 0,
        tcb_status: 0,
        fmspc: [0; 6],
        quote_body: QuoteBody::SgxQuoteBody(EnclaveReportBody { raw: [1; 384] }),
        advisory_ids: Some(vec![]),
    };
    let bytes = out.to_vec();
    assert_eq!(&bytes[..2], &[0, 3]);
    assert_eq!(bytes.len() - 13 - 384, alloy_sol_types::SolValue::abi_encode(&Vec::<String>::new()).len());
}
