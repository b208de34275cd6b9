use dcap_rs::types::pod::tcb_info_impl::{
    tdx_module_identities_has_data, tdx_module_identity_is_empty, tdx_module_is_empty,
};
use dcap_rs::types::pod::{
    TcbInfoPod, TcbLevelPod, TcbPod, TdxModuleIdentityPod, TdxModulePod, TdxTcbLevelPod,
};
use dcap_rs::types::tcb_info::{
    Tcb, TcbComponentV3, TcbInfo, TcbInfoAndSignature, TcbInfoVersion, TcbLevel, TcbStatus,
    TcbTdx, TcbV2, TcbV3, TdxModule, TdxModuleIdentity, TdxTcbLevel,
};

const ISSUE: i64 = 1724962800;
const NEXT: i64 = 1727554800;

fn component(svn: u8, category: Option<&str>, component_type: Option<&str>) -> TcbComponentV3 {
    TcbComponentV3 {
        svn,
        category: category.map(|c| c.to_string()),
        component_type: component_type.map(|t| t.to_string()),
    }
}

fn v2_tcb(first: u8, pcesvn: u16) -> TcbV2 {
    TcbV2 {
        sgxtcbcomp01svn: first,
        sgxtcbcomp02svn: first,
        sgxtcbcomp03svn: 2,
        sgxtcbcomp04svn: 4,
        sgxtcbcomp05svn: 1,
        sgxtcbcomp06svn: 128,
        sgxtcbcomp07svn: 0,
        sgxtcbcomp08svn: 0,
        sgxtcbcomp09svn: 0,
        sgxtcbcomp10svn: 0,
        sgxtcbcomp11svn: 0,
        sgxtcbcomp12svn: 0,
        sgxtcbcomp13svn: 0,
        sgxtcbcomp14svn: 0,
        sgxtcbcomp15svn: 0,
        sgxtcbcomp16svn: 0,
        pcesvn,
    }
}

fn v2_info() -> TcbInfo {
    TcbInfo {
        id: None,
        version: TcbInfoVersion::V2,
        issue_date: ISSUE,
        next_update: NEXT,
        fmspc: "00906ED50000".to_string(),
        pce_id: "0000".to_string(),
        tcb_type: 0,
        tcb_evaluation_data_number: 16,
        tdx_module: None,
        tdx_module_identities: None,
        tcb_levels: vec![
            TcbLevel {
                tcb: Tcb::V2(v2_tcb(17, 13)),
                tcb_date: 1691539200,
                tcb_status: TcbStatus::UpToDate,
                advisory_ids: None,
            },
            TcbLevel {
                tcb: Tcb::V2(v2_tcb(15, 11)),
                tcb_date: 1675296000,
                tcb_status: TcbStatus::OutOfDate,
                advisory_ids: None,
            },
        ],
    }
}

fn sgx_components(first: u8) -> Vec<TcbComponentV3> {
    let mut v = vec![
        component(first, Some("BIOS"), Some("Early Microcode Update")),
        component(first, Some("OS/VMM"), Some("SGX Late Microcode Update")),
        component(2, None, Some("TXT SINIT")),
        component(4, Some("BIOS"), None),
    ];
    while v.len() < 16 {
        v.push(component(0, None, None));
    }
    v
}

fn tdx_components() -> Vec<TcbComponentV3> {
    let mut v = vec![
        component(5, Some("OS/VMM"), Some("TDX Module")),
        component(0, Some("OS/VMM"), Some("TDX Module")),
        component(2, Some("OS/VMM"), Some("TDX Late Microcode Update")),
    ];
    while v.len() < 16 {
        v.push(component(0, None, None));
    }
    v
}

fn v3_sgx_info() -> TcbInfo {
    TcbInfo {
        id: Some("SGX".to_string()),
        version: TcbInfoVersion::V3,
        issue_date: ISSUE,
        next_update: NEXT,
        fmspc: "00606A000000".to_string(),
        pce_id: "0000".to_string(),
        tcb_type: 0,
        tcb_evaluation_data_number: 17,
        tdx_module: None,
        tdx_module_identities: None,
        tcb_levels: vec![
            TcbLevel {
                tcb: Tcb::V3(TcbV3 {
                    sgxtcbcomponents: sgx_components(14),
                    pcesvn: 13,
                    tdxtcbcomponents: None,
                }),
                tcb_date: 1691539200,
                tcb_status: TcbStatus::SWHardeningNeeded,
                advisory_ids: Some(vec!["INTEL-SA-00334".to_string(), "INTEL-SA-00615".to_string()]),
            },
            TcbLevel {
                tcb: Tcb::V3(TcbV3 {
                    sgxtcbcomponents: sgx_components(12),
                    pcesvn: 11,
                    tdxtcbcomponents: None,
                }),
                tcb_date: 1649721600,
                tcb_status: TcbStatus::OutOfDate,
                advisory_ids: Some(vec!["INTEL-SA-00586".to_string()]),
            },
        ],
    }
}

fn tdx_tcb_level(isvsvn: u8, date: i64, status: TcbStatus, ids: Option<Vec<&str>>) -> TdxTcbLevel {
    TdxTcbLevel {
        tcb: TcbTdx { isvsvn },
        tcb_date: date,
        tcb_status: status,
        advisory_ids: ids.map(|v| v.into_iter().map(|s| s.to_string()).collect()),
    }
}

fn v3_tdx_info() -> TcbInfo {
    TcbInfo {
        id: Some("TDX".to_string()),
        version: TcbInfoVersion::V3,
        issue_date: ISSUE,
        next_update: NEXT,
        fmspc: "90C06F000000".to_string(),
        pce_id: "0000".to_string(),
        tcb_type: 0,
        tcb_evaluation_data_number: 17,
        tdx_module: Some(TdxModule {
            mrsigner: "000000000000000000000000000000000000000000000000".to_string(),
            attributes: "0000000000000000".to_string(),
            attributes_mask: "FFFFFFFFFFFFFFFF".to_string(),
        }),
        tdx_module_identities: Some(vec![
            TdxModuleIdentity {
                id: "TDX_03".to_string(),
                mrsigner: "000000000000000000000000000000000000000000000000".to_string(),
                attributes: "0000000000000000".to_string(),
                attributes_mask: "FFFFFFFFFFFFFFFF".to_string(),
                tcb_levels: vec![tdx_tcb_level(3, 1691539200, TcbStatus::UpToDate, None)],
            },
            TdxModuleIdentity {
                id: "TDX_01".to_string(),
                mrsigner: "000000000000000000000000000000000000000000000000".to_string(),
                attributes: "0000000000000000".to_string(),
                attributes_mask: "FFFFFFFFFFFFFFFF".to_string(),
                tcb_levels: vec![
                    tdx_tcb_level(4, 1691539200, TcbStatus::UpToDate, None),
                    tdx_tcb_level(2, 1675296000, TcbStatus::OutOfDate, Some(vec!["INTEL-SA-00837"])),
                ],
            },
        ]),
        tcb_levels: vec![TcbLevel {
            tcb: Tcb::V3(TcbV3 {
                sgxtcbcomponents: sgx_components(2),
                pcesvn: 13,
                tdxtcbcomponents: Some(tdx_components()),
            }),
            tcb_date: 1691539200,
            tcb_status: TcbStatus::UpToDate,
            advisory_ids: None,
        }],
    }
}

fn roundtrip(info: TcbInfo) -> TcbInfo {
    let pod = TcbInfoPod::try_from(info.clone()).unwrap();
    TcbInfo::try_from(pod).unwrap()
}

#[test]
fn test_pod_tcb_info_v2() {
    let info = v2_info();
    assert_eq!(roundtrip(info.clone()), info);
}

#[test]
fn test_pod_tcb_info_v3_sgx() {
    let info = v3_sgx_info();
    assert_eq!(roundtrip(info.clone()), info);
}

#[test]
fn test_pod_tcb_info_v3_tdx() {
    let info = v3_tdx_info();
    assert_eq!(roundtrip(info.clone()), info);
}

#[test]
fn pod_layout_of_v3_tdx_info() {
    let pod = TcbInfoPod::try_from(v3_tdx_info()).unwrap();
    assert_eq!(&pod.pceid_hex, b"0000");
    assert_eq!(&pod.id, b"TDX\0\0\0");
    assert_eq!(&pod.fmspc_hex, b"90C06F000000");
    assert_eq!(pod.version, 3);
    assert_eq!(pod.issued_timestamp, ISSUE as u64);
    assert_eq!(pod.next_update_timestamp, NEXT as u64);
    assert_eq!(&pod.tdx_module.attributes_mask_hex, b"FFFFFFFFFFFFFFFF");
    assert_eq!(&pod.tdx_module_identities[1].id[..7], b"TDX_01\0");
    assert_eq!(pod.tdx_module_identities[1].tcb_levels[1].tcb_isvsvn, 2);
    assert_eq!(pod.tdx_module_identities[1].tcb_levels[1].tcb_status, 4);
    assert_eq!(&pod.tdx_module_identities[1].tcb_levels[1].advisory_ids[0][..15], b"INTEL-SA-00837\0");
    assert!(tdx_module_identity_is_empty(&pod.tdx_module_identities[2]));
    assert!(tdx_module_identity_is_empty(&pod.tdx_module_identities[3]));
    let level = &pod.tcb_levels[0];
    assert_eq!(level.pce_svn, 13);
    assert_eq!(level.tcb_date, 1691539200);
    assert_eq!(level.sgx_tcb_components[0].cpusvn, 2);
    assert_eq!(&level.sgx_tcb_components[0].category[..5], b"BIOS\0");
    assert_eq!(level.tdx_tcb_components[2].cpusvn, 2);
    assert_eq!(pod.tcb_levels[1].tcb_date, 0);
}

#[test]
fn pod_layout_of_v2_level() {
    let pod = TcbInfoPod::try_from(v2_info()).unwrap();
    assert_eq!(pod.id, [0u8; 6]);
    assert_eq!(pod.version, 2);
    let level = &pod.tcb_levels[0];
    assert_eq!(level.sgx_tcb_components[0].cpusvn, 17);
    assert_eq!(level.sgx_tcb_components[5].cpusvn, 128);
    assert_eq!(level.sgx_tcb_components[0].category, [0u8; 16]);
    assert_eq!(level.tdx_tcb_components[0].cpusvn, 0);
    assert_eq!(level.pce_svn, 13);
    assert!(tdx_module_is_empty(&pod.tdx_module));
    assert!(!tdx_module_identities_has_data(&pod.tdx_module_identities));
}

#[test]
fn tcb_pod_keeps_signature() {
    let signature: Vec<u8> = (0u8..64).collect();
    let signed = TcbInfoAndSignature { tcb_info: v3_sgx_info(), signature: signature.clone() };
    let pod = TcbPod::try_from(signed).unwrap();
    assert_eq!(pod.signature.to_vec(), signature);
    assert_eq!(TcbInfo::try_from(pod.tcb_info).unwrap(), v3_sgx_info());
}

#[test]
fn pce_id_too_long() {
    let mut info = v2_info();
    info.pce_id = "00000".to_string();
    assert_eq!(TcbInfoPod::try_from(info).unwrap_err(), "PCE ID too long for fixed-size array");
}

#[test]
fn fmspc_too_long() {
    let mut info = v2_info();
    info.fmspc = "00906ED500000".to_string();
    assert_eq!(TcbInfoPod::try_from(info).unwrap_err(), "FMSPC too long for fixed-size array");
}

#[test]
fn too_many_tcb_levels() {
    let mut info = v2_info();
    while info.tcb_levels.len() < 16 {
        info.tcb_levels.push(info.tcb_levels[0].clone());
    }
    assert_eq!(TcbInfoPod::try_from(info).unwrap_err(), "TCB Levels exceeded TCB_MAX_LEVEL_SIZE");
}

#[test]
fn fifteen_tcb_levels_fit() {
    let mut info = v2_info();
    while info.tcb_levels.len() < 15 {
        info.tcb_levels.push(info.tcb_levels[1].clone());
    }
    assert_eq!(roundtrip(info.clone()), info);
}

#[test]
fn too_many_tdx_module_identities() {
    let mut info = v3_tdx_info();
    let ids = info.tdx_module_identities.as_mut().unwrap();
    while ids.len() < 5 {
        ids.push(ids[0].clone());
    }
    assert_eq!(
        TcbInfoPod::try_from(info).unwrap_err(),
        "TDX Module Identities exceeded TDX_MODULE_TCB_MAX_LEVEL_SIZE"
    );
}

#[test]
fn tdx_module_field_too_long() {
    let mut info = v3_tdx_info();
    info.tdx_module.as_mut().unwrap().attributes = "00000000000000000".to_string();
    assert_eq!(TcbInfoPod::try_from(info).unwrap_err(), "attributes too long for fixed-size array");
    let mut info = v3_tdx_info();
    info.tdx_module.as_mut().unwrap().mrsigner = "0".repeat(97);
    assert_eq!(TcbInfoPod::try_from(info).unwrap_err(), "mrsigner too long for fixed-size array");
    let mut info = v3_tdx_info();
    info.tdx_module.as_mut().unwrap().attributes_mask = "F".repeat(17);
    assert_eq!(
        TcbInfoPod::try_from(info).unwrap_err(),
        "attributes_mask too long for fixed-size array"
    );
}

#[test]
fn tdx_module_identity_errors() {
    let mut info = v3_tdx_info();
    info.tdx_module_identities.as_mut().unwrap()[0].id = "TDX_0123456789".to_string();
    assert_eq!(TcbInfoPod::try_from(info).unwrap_err(), "id too long for fixed-size array");
    let mut info = v3_tdx_info();
    let levels = &mut info.tdx_module_identities.as_mut().unwrap()[1].tcb_levels;
    while levels.len() < 5 {
        levels.push(levels[0].clone());
    }
    assert_eq!(
        TcbInfoPod::try_from(info).unwrap_err(),
        "TCB Levels exceeded TDX_MODULE_TCB_MAX_LEVEL_SIZE"
    );
}

#[test]
fn advisory_id_errors() {
    let mut info = v3_sgx_info();
    info.tcb_levels[0].advisory_ids = Some((0..17).map(|i| format!("INTEL-SA-{:05}", i)).collect());
    assert_eq!(
        TcbInfoPod::try_from(info).unwrap_err(),
        "Advisory IDs exceeded MAX_ADVISORY_IDS_SIZE"
    );
    let mut info = v3_sgx_info();
    info.tcb_levels[1].advisory_ids = Some(vec!["A".repeat(33)]);
    assert_eq!(
        TcbInfoPod::try_from(info).unwrap_err(),
        "Advisory ID too long for fixed-size array"
    );
    let mut info = v3_sgx_info();
    info.tcb_levels[1].advisory_ids = Some(vec!["A".repeat(32)]);
    assert_eq!(roundtrip(info.clone()), info);
}

#[test]
fn component_errors() {
    let mut info = v3_sgx_info();
    if let Tcb::V3(v3) = &mut info.tcb_levels[0].tcb {
        v3.sgxtcbcomponents[3].category = Some("C".repeat(17));
    }
    assert_eq!(
        TcbInfoPod::try_from(info).unwrap_err(),
        "Category too long for fixed-size array"
    );
    let mut info = v3_tdx_info();
    if let Tcb::V3(v3) = &mut info.tcb_levels[0].tcb {
        v3.tdxtcbcomponents.as_mut().unwrap()[0].component_type = Some("T".repeat(65));
    }
    assert_eq!(
        TcbInfoPod::try_from(info).unwrap_err(),
        "Component type too long for fixed-size array"
    );
}

#[test]
fn reading_skips_what_the_layout_cannot_hold() {
    // A level dated at the epoch is dropped; an empty list of advisory IDs
    // reads as none; a version 2 TCB keeps no advisory IDs.
    let mut info = v2_info();
    info.tcb_levels[0].advisory_ids = Some(vec!["INTEL-SA-00001".to_string()]);
    info.tcb_levels[1].tcb_date = 0;
    let back = roundtrip(info);
    assert_eq!(back.tcb_levels.len(), 1);
    assert_eq!(back.tcb_levels[0].advisory_ids, None);

    let mut info = v3_sgx_info();
    info.tcb_levels[1].advisory_ids = Some(vec![]);
    assert_eq!(roundtrip(info).tcb_levels[1].advisory_ids, None);
}

#[test]
fn v3_level_without_categories_reads_as_v2() {
    let mut info = v3_sgx_info();
    info.tcb_levels.truncate(1);
    if let Tcb::V3(v3) = &mut info.tcb_levels[0].tcb {
        for c in v3.sgxtcbcomponents.iter_mut() {
            c.category = None;
            c.component_type = None;
        }
    }
    let back = roundtrip(info);
    match &back.tcb_levels[0].tcb {
        Tcb::V2(v2) => {
            assert_eq!(v2.sgxtcbcomp01svn, 14);
            assert_eq!(v2.pcesvn, 13);
        }
        Tcb::V3(_) => panic!("expected a version 2 TCB"),
    }
}

fn zero_level_pod() -> TcbLevelPod {
    let info = v2_info();
    let pod = TcbInfoPod::try_from(info).unwrap();
    pod.tcb_levels[14]
}

#[test]
fn reading_invalid_layouts() {
    let mut pod = TcbInfoPod::try_from(v3_tdx_info()).unwrap();
    pod.pceid_hex = [0xff, 0, 0, 0];
    assert_eq!(TcbInfo::try_from(pod).unwrap_err(), "Invalid UTF-8 in PCE ID");

    let mut pod = TcbInfoPod::try_from(v3_tdx_info()).unwrap();
    pod.id = [b'T', 0xc3, 0, 0, 0, 0];
    assert_eq!(TcbInfo::try_from(pod).unwrap_err(), "Invalid UTF-8 in ID");

    let mut pod = TcbInfoPod::try_from(v3_tdx_info()).unwrap();
    pod.fmspc_hex[3] = 0x80;
    assert_eq!(TcbInfo::try_from(pod).unwrap_err(), "Invalid UTF-8 in FMSPC");

    let mut pod = TcbInfoPod::try_from(v3_tdx_info()).unwrap();
    pod.version = 4;
    assert_eq!(TcbInfo::try_from(pod).unwrap_err(), "Invalid TCB Info version");

    let mut pod = TcbInfoPod::try_from(v3_tdx_info()).unwrap();
    pod.issued_timestamp = i64::MAX as u64;
    assert_eq!(TcbInfo::try_from(pod).unwrap_err(), "Invalid issue date timestamp");

    let mut pod = TcbInfoPod::try_from(v3_tdx_info()).unwrap();
    pod.next_update_timestamp = i64::MAX as u64;
    assert_eq!(TcbInfo::try_from(pod).unwrap_err(), "Invalid next update timestamp");

    let mut pod = TcbInfoPod::try_from(v3_tdx_info()).unwrap();
    pod.tdx_module.mrsigner_hex[0] = 0xff;
    assert_eq!(TcbInfo::try_from(pod).unwrap_err(), "Invalid UTF-8 in mrsigner");

    let mut pod = TcbInfoPod::try_from(v3_tdx_info()).unwrap();
    pod.tdx_module_identities[0].id[0] = 0xff;
    assert_eq!(TcbInfo::try_from(pod).unwrap_err(), "Invalid UTF-8 in id");

    let mut pod = TcbInfoPod::try_from(v3_tdx_info()).unwrap();
    pod.tcb_levels[0].tcb_status = 9;
    assert_eq!(TcbInfo::try_from(pod).unwrap_err(), "Invalid TCB status");

    let mut pod = TcbInfoPod::try_from(v3_tdx_info()).unwrap();
    pod.tcb_levels[0].tcb_date = i64::MAX as u64;
    assert_eq!(TcbInfo::try_from(pod).unwrap_err(), "Invalid tcb_date timestamp");

    let mut pod = TcbInfoPod::try_from(v3_tdx_info()).unwrap();
    pod.tcb_levels[0].sgx_tcb_components[1].category[0] = 0xfe;
    assert_eq!(TcbInfo::try_from(pod).unwrap_err(), "Invalid UTF-8 in category");

    let mut pod = TcbInfoPod::try_from(v3_tdx_info()).unwrap();
    pod.tcb_levels[0].tdx_tcb_components[1].component_type[0] = 0xfe;
    assert_eq!(TcbInfo::try_from(pod).unwrap_err(), "Invalid UTF-8 in component_type");

    let mut pod = TcbInfoPod::try_from(v3_tdx_info()).unwrap();
    pod.tdx_module_identities[1].tcb_levels[1].advisory_ids[0][1] = 0xc0;
    assert_eq!(TcbInfo::try_from(pod).unwrap_err(), "Invalid UTF-8 in advisory ID");
}

#[test]
fn level_layout_conversions() {
    let level = v3_sgx_info().tcb_levels[0].clone();
    let pod = TcbLevelPod::try_from(level.clone()).unwrap();
    assert_eq!(pod.tcb_status, 1);
    assert_eq!(TcbLevel::try_from(pod).unwrap(), level);
    assert_eq!(TcbLevel::try_from(zero_level_pod()).unwrap().tcb_date, 0);

    let tdx_level = tdx_tcb_level(7, 1691539200, TcbStatus::Revoked, Some(vec!["INTEL-SA-00960"]));
    let pod = TdxTcbLevelPod::try_from(tdx_level.clone()).unwrap();
    assert_eq!(pod.tcb_status, 6);
    assert_eq!(TdxTcbLevel::try_from(pod).unwrap(), tdx_level);

    let module = v3_tdx_info().tdx_module.unwrap();
    let pod = TdxModulePod::try_from(module.clone()).unwrap();
    assert!(!tdx_module_is_empty(&pod));
    assert_eq!(TdxModule::try_from(pod).unwrap(), module);

    let identity = v3_tdx_info().tdx_module_identities.unwrap()[1].clone();
    let pod = TdxModuleIdentityPod::try_from(identity.clone()).unwrap();
    assert!(!tdx_module_identity_is_empty(&pod));
    assert_eq!(TdxModuleIdentity::try_from(pod).unwrap(), identity);
}

#[test]
fn status_and_version_codes() {
    let statuses = [
        TcbStatus::UpToDate,
        TcbStatus::SWHardeningNeeded,
        TcbStatus::ConfigurationAndSWHardeningNeeded,
        TcbStatus::ConfigurationNeeded,
        TcbStatus::OutOfDate,
        TcbStatus::OutOfDateConfigurationNeeded,
        TcbStatus::Revoked,
    ];
    for (i, s) in statuses.iter().enumerate() {
        assert_eq!(s.code(), i as u8);
        assert_eq!(TcbStatus::try_from(i as u8), Ok(*s));
    }
    assert_eq!(TcbStatus::try_from(7), Err("Invalid TCB status"));
    assert_eq!(TcbInfoVersion::V2.number(), 2);
    assert_eq!(TcbInfoVersion::try_from(3), Ok(TcbInfoVersion::V3));
    assert_eq!(TcbInfoVersion::try_from(1), Err("Invalid TCB Info version"));
}

#[test]
fn dates_at_the_edge_of_the_calendar() {
    // 23:59:59 on December 31 of the year 262142 is the last second a date
    // can hold; the second after it is refused.
    let last: u64 = 8210266876799;
    let mut pod = TcbInfoPod::try_from(v3_tdx_info()).unwrap();
    pod.next_update_timestamp = last;
    assert_eq!(TcbInfo::try_from(pod).unwrap().next_update, last as i64);

    let mut pod = TcbInfoPod::try_from(v3_tdx_info()).unwrap();
    pod.next_update_timestamp = last + 1;
    assert_eq!(TcbInfo::try_from(pod).unwrap_err(), "Invalid next update timestamp");

    // A stored count read as a negative number of seconds reaches back to
    // January 1 of the year -262143 and no further.
    let first: i64 = -8334601228800;
    let mut pod = TcbInfoPod::try_from(v3_tdx_info()).unwrap();
    pod.issued_timestamp = first as u64;
    assert_eq!(TcbInfo::try_from(pod).unwrap().issue_date, first);

    let mut pod = TcbInfoPod::try_from(v3_tdx_info()).unwrap();
    pod.issued_timestamp = (first - 1) as u64;
    assert_eq!(TcbInfo::try_from(pod).unwrap_err(), "Invalid issue date timestamp");

    let mut pod = TcbInfoPod::try_from(v3_tdx_info()).unwrap();
    pod.tcb_levels[0].tcb_date = last + 1;
    assert_eq!(TcbInfo::try_from(pod).unwrap_err(), "Invalid tcb_date timestamp");
}
