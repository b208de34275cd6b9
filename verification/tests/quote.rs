use dcap_rs::types::quote::{Quote, QuoteBody, QuoteSignatureData, SGX_TEE_TYPE, TDX_TEE_TYPE};

fn header(version: u16, tee_type: u32) -> Vec<u8> {
    let mut h = Vec::new();
    h.extend_from_slice(&version.to_le_bytes());
    h.extend_from_slice(&2u16.to_le_bytes());
    h.extend_from_slice(&tee_type.to_le_bytes());
    h.extend_from_slice(&7u16.to_le_bytes());
    h.extend_from_slice(&13u16.to_le_bytes());
    h.extend_from_slice(&[0x93; 16]);
    h.extend_from_slice(&[0x11; 20]);
    assert_eq!(h.len(), 48);
    h
}

fn body(len: usize, fill: u8) -> Vec<u8> {
    (0..len).map(|i| fill.wrapping_add(i as u8)).collect()
}

/// QE report data: report, signature, authentication data, certification data.
fn qe_data(auth: &[u8], cert_type: u16, cert: &[u8]) -> Vec<u8> {
    let mut v = body(384, 0x40);
    v.extend_from_slice(&[0x55; 64]);
    v.extend_from_slice(&(auth.len() as u16).to_le_bytes());
    v.extend_from_slice(auth);
    v.extend_from_slice(&cert_type.to_le_bytes());
    v.extend_from_slice(&(cert.len() as u32).to_le_bytes());
    v.extend_from_slice(cert);
    v
}

fn signature_v3(auth: &[u8], cert: &[u8]) -> Vec<u8> {
    let mut region = vec![0xAA; 64];
    region.extend_from_slice(&[0xBB; 64]);
    region.extend_from_slice(&qe_data(auth, 5, cert));
    let mut v = (region.len() as u32).to_le_bytes().to_vec();
    v.extend_from_slice(&region);
    v
}

fn signature_v4(auth: &[u8], cert: &[u8]) -> Vec<u8> {
    let inner = qe_data(auth, 5, cert);
    let mut region = vec![0xAA; 64];
    region.extend_from_slice(&[0xBB; 64]);
    region.extend_from_slice(&6u16.to_le_bytes());
    region.extend_from_slice(&(inner.len() as u32).to_le_bytes());
    region.extend_from_slice(&inner);
    let mut v = (region.len() as u32).to_le_bytes().to_vec();
    v.extend_from_slice(&region);
    v
}

const CERT: &[u8] = b"-----BEGIN CERTIFICATE-----\nMIIB\n-----END CERTIFICATE-----\n";

#[test]
fn read_v3_sgx_quote() {
    let mut bytes = header(3, SGX_TEE_TYPE);
    bytes.extend_from_slice(&body(384, 1));
    bytes.extend_from_slice(&signature_v3(&[1, 2, 3], CERT));
    bytes.extend_from_slice(&[9, 9]);
    let mut cursor: &[u8] = &bytes;
    let quote = Quote::read(&mut cursor).unwrap();
    assert_eq!(cursor, &[9, 9]);
    assert_eq!(quote.header.version, 3);
    assert_eq!(quote.header.attestation_key_type, 2);
    assert_eq!(quote.header.qe_svn, 7);
    assert_eq!(quote.header.pce_svn, 13);
    assert_eq!(quote.header.qe_vendor_id, [0x93; 16]);
    assert_eq!(quote.body_type, 1);
    assert_eq!(quote.body_size, 384);
    assert!(matches!(quote.body, QuoteBody::SgxQuoteBody(_)));
    assert_eq!(quote.body.as_bytes(), &body(384, 1)[..]);
    assert_eq!(quote.signature.isv_signature, [0xAA; 64]);
    assert_eq!(quote.signature.attestation_pub_key, [0xBB; 64]);
    assert_eq!(quote.signature.qe_report_body.raw.to_vec(), body(384, 0x40));
    assert_eq!(quote.signature.qe_report_signature, [0x55; 64]);
    assert_eq!(quote.signature.qe_auth_data, &[1, 2, 3]);
    assert_eq!(quote.signature.pck_cert_chain_data.cert_data_type, 5);
    assert_eq!(quote.signature.pck_cert_chain_data.data, CERT);
}

#[test]
fn parse_tdx_v4_quote() {
    let mut bytes = header(4, TDX_TEE_TYPE);
    bytes.extend_from_slice(&body(584, 2));
    bytes.extend_from_slice(&signature_v4(&[0x20; 32], CERT));
    let mut cursor: &[u8] = &bytes;
    let quote = Quote::read(&mut cursor).unwrap();
    assert!(cursor.is_empty());
    assert_eq!(quote.header.tee_type, TDX_TEE_TYPE);
    assert_eq!(quote.body_type, 2);
    assert_eq!(quote.body_size, 584);
    assert!(matches!(quote.body, QuoteBody::Td10QuoteBody(_)));
    assert_eq!(quote.body.as_bytes(), &body(584, 2)[..]);
    assert_eq!(quote.signature.qe_auth_data, &[0x20; 32]);
    assert_eq!(quote.signature.pck_cert_chain_data.data, CERT);
}

#[test]
fn parse_tdx_v5_quote() {
    let mut bytes = header(5, TDX_TEE_TYPE);
    bytes.extend_from_slice(&3u16.to_le_bytes());
    bytes.extend_from_slice(&648u32.to_le_bytes());
    bytes.extend_from_slice(&body(648, 3));
    bytes.extend_from_slice(&signature_v4(&[], CERT));
    let mut cursor: &[u8] = &bytes;
    let quote = Quote::read(&mut cursor).unwrap();
    assert!(cursor.is_empty());
    assert_eq!(quote.body_type, 3);
    assert_eq!(quote.body_size, 648);
    assert!(matches!(quote.body, QuoteBody::Td15QuoteBody(_)));
    assert_eq!(quote.body.as_bytes(), &body(648, 3)[..]);
    assert!(quote.signature.qe_auth_data.is_empty());
}

#[test]
fn read_v5_sgx_quote() {
    let mut bytes = header(5, SGX_TEE_TYPE);
    bytes.extend_from_slice(&1u16.to_le_bytes());
    bytes.extend_from_slice(&384u32.to_le_bytes());
    bytes.extend_from_slice(&body(384, 4));
    bytes.extend_from_slice(&signature_v4(&[5], CERT));
    let quote = Quote::read(&mut bytes.as_slice()).unwrap();
    assert_eq!(quote.body_type, 1);
    assert!(matches!(quote.body, QuoteBody::SgxQuoteBody(_)));
}

fn read_err(bytes: &[u8]) -> (&'static str, usize) {
    let mut cursor: &[u8] = bytes;
    let e = Quote::read(&mut cursor).unwrap_err();
    (e, bytes.len() - cursor.len())
}

#[test]
fn quote_header_errors() {
    assert_eq!(read_err(&header(3, SGX_TEE_TYPE)[..47]), ("incorrect buffer size", 0));
    assert_eq!(read_err(&header(3, 0x42)), ("unsupported TEE type", 48));
    assert_eq!(read_err(&header(4, SGX_TEE_TYPE)), ("underflow reading enclave report body", 48));
    assert_eq!(read_err(&header(4, TDX_TEE_TYPE)), ("underflow reading td10 report body", 48));
}

fn v5(tee_type: u32, body_type: u16, body_size: u32) -> Vec<u8> {
    let mut bytes = header(5, tee_type);
    bytes.extend_from_slice(&body_type.to_le_bytes());
    bytes.extend_from_slice(&body_size.to_le_bytes());
    bytes
}

#[test]
fn quote_v5_body_errors() {
    assert_eq!(read_err(&v5(TDX_TEE_TYPE, 1, 384)), ("Quote body type 1 must be SGX TEE type", 54));
    assert_eq!(read_err(&v5(SGX_TEE_TYPE, 1, 385)), ("Quote body size mismatch for SGX TEE type", 54));
    assert_eq!(read_err(&v5(SGX_TEE_TYPE, 2, 584)), ("Quote body type 2 must be TDX TEE type", 54));
    assert_eq!(read_err(&v5(TDX_TEE_TYPE, 2, 648)), ("Quote body size mismatch for TDX TEE type", 54));
    assert_eq!(read_err(&v5(SGX_TEE_TYPE, 3, 648)), ("Quote body type 3 must be TDX TEE type", 54));
    assert_eq!(read_err(&v5(TDX_TEE_TYPE, 3, 584)), ("Quote body size mismatch for TDX TEE type", 54));
    assert_eq!(read_err(&v5(TDX_TEE_TYPE, 4, 584)), ("unsupported quote body type", 54));
    assert_eq!(read_err(&v5(TDX_TEE_TYPE, 3, 648)), ("underflow reading td15 report body", 54));
}

#[test]
fn quote_signature_errors() {
    let mut bytes = header(3, SGX_TEE_TYPE);
    bytes.extend_from_slice(&body(384, 1));
    assert_eq!(read_err(&bytes), ("underflow reading quote signature length", 432));
    let mut short = bytes.clone();
    short.extend_from_slice(&100u32.to_le_bytes());
    short.extend_from_slice(&[0; 99]);
    assert_eq!(read_err(&short), ("quote signature shorter than its length", 432));
    let mut tiny = bytes.clone();
    tiny.extend_from_slice(&10u32.to_le_bytes());
    tiny.extend_from_slice(&[0; 10]);
    assert_eq!(read_err(&tiny), ("underflow reading quote signature", 432));
    let mut cut = bytes.clone();
    let sig = signature_v3(&[1, 2, 3], CERT);
    let region_len = sig.len() - 4 - 10;
    cut.extend_from_slice(&(region_len as u32).to_le_bytes());
    cut.extend_from_slice(&sig[4..4 + region_len]);
    assert_eq!(read_err(&cut), ("underflow reading certification data", 432));
}

#[test]
fn signature_data_read() {
    let sig = signature_v4(&[7, 7], CERT);
    let mut with_rest = sig.clone();
    with_rest.push(0xEE);
    let mut cursor: &[u8] = &with_rest;
    let data = QuoteSignatureData::read(&mut cursor, 4).unwrap();
    assert_eq!(cursor, &[0xEE]);
    assert_eq!(data.qe_auth_data, &[7, 7]);

    // A version 4 signature must wrap the QE report data in certification
    // data of type 6.
    let mut wrong = signature_v3(&[7, 7], CERT);
    wrong[4 + 128] = 5;
    let mut cursor: &[u8] = &wrong;
    assert_eq!(
        QuoteSignatureData::read(&mut cursor, 4).unwrap_err(),
        "unsupported certification data type"
    );
    assert_eq!(cursor.len(), wrong.len());
}

/// A version 3 SGX quote as a platform produced it, written in hexadecimal.
const RECORDED_V3_SGX_QUOTE: &[&str] = &[
    "03000200000000000a000f00939a7233f79c4ca9940a0db3957f0607ce48836fd48a951172fe155220a719bd00000000",
    "141402070180010000000000000000000000000000000000000000000000000000000000000000000000000000000000",
    "05000000000000000700000000000000dc43f8c42d8e5f52c8bbd68f426242153f0be10630ff8cca255129a3ca03d273",
    "00000000000000000000000000000000000000000000000000000000000000001cf2e52911410fbf3f199056a98d5879",
    "5a559a2e800933f7fcd13d048462271c0000000000000000000000000000000000000000000000000000000000000000",
    "000000000000000000000000000000000000000000000000000000000000000000000000000000000000000000000000",
    "000000000000000000000000000000000000000000000000000000000000000000000000000000000000000000000000",
    "00000000000000000000000000000000000000000000000000000000000000009113b0be77ed5d0d68680ec77206b8d5",
    "87ed40679b71321ccdd5405e4d54a6820000000000000000000000000000000000000000000000000000000000000000",
    "44100000d6be1afe26464a3eeb6d5ade46b24ab38ad339821cacc9a923e2e3335e73fab8a89617a1ada00d4c8a0e1ff2",
    "315ede22c49a98bc83907056ce6121c1b10d2e3abe6177e039634cfbca4739ac246fda7df8c312a98f30f57b63f3c892",
    "1fce51d90a93031f97f769637be9b028e7b007a4e458d4fa717befbd81b0690508258013141402070180010000000000",
    "000000000000000000000000000000000000000000000000000000000000000000000000150000000000000007000000",
    "0000000096b347a64e5a045e27369c26e6dcda51fd7c850e9b3a3a79e718f43261dee1e4000000000000000000000000",
    "00000000000000000000000000000000000000008c4f5775d796503e96137f77c68a829a0056ac8ded70140b081b0944",
    "90c57bff0000000000000000000000000000000000000000000000000000000000000000000000000000000000000000",
    "000000000000000000000000000000000000000000000000000000000000000000000000000000000000000000000000",
    "0000000001000a0000000000000000000000000000000000000000000000000000000000000000000000000000000000",
    "0000000000000000000000000000000000000000b0f056c5355f6c770413938c2a41ed1b5c34ecb35f85fa539f16cca7",
    "a30d6da90000000000000000000000000000000000000000000000000000000000000000a67269ee80d0dfc26e9bbcf5",
    "525ec6a7bf3f4a4092e0a6dd1bf2053962dbb49c59af50a49e784ea3c7e57cd669a9c0e6bc51e04dcc5582393c639316",
    "8846cf7e2000000102030405060708090a0b0c0d0e0f101112131415161718191a1b1c1d1e1f0500dc0d00002d2d2d2d",
    "2d424547494e2043455254494649434154452d2d2d2d2d0a4d4949456a544343424453674177494241674956414a5172",
    "493559365a78484836785034424941715a4e6b326e4c7a594d416f4743437147534d343942414d430a4d484578497a41",
    "6842674e5642414d4d476b6c756447567349464e48574342515130736755484a765932567a6332397949454e424d526f",
    "77474159445651514b0a4442464a626e526c6243424462334a7762334a6864476c76626a45554d424947413155454277",
    "774c553246756447456751327868636d4578437a414a42674e560a4241674d416b4e424d517377435159445651514745",
    "774a56557a4165467730794d7a45784d5441784e7a45334d4452614677307a4d4445784d5441784e7a45330a4d445261",
    "4d484178496a416742674e5642414d4d47556c756447567349464e4857434251513073675132567964476c6d61574e68",
    "64475578476a415942674e560a42416f4d45556c756447567349454e76636e4276636d4630615739754d525177456759",
    "4456515148444174545957353059534244624746795954454c4d416b470a413155454341774351304578437a414a4267",
    "4e5642415954416c56544d466b77457759484b6f5a497a6a3043415159494b6f5a497a6a304441516344516741450a77",
    "625468574d583134443163657835317875614958456771517a69636e744b7a48454a32536f31336e384a427050314a67",
    "383673764263462f7070715a554e710a68524b4642667469584c6d4f536c614955784e6e51364f434171677767674b6b",
    "4d42384741315564497751594d426141464e446f71747031312f6b75535265590a504873555a644456386c6c4e4d4777",
    "47413155644877526c4d474d77596142666f463247573268306448427a4f693876595842704c6e527964584e305a5752",
    "7a0a5a584a3261574e6c63793570626e526c6243356a62323076633264344c324e6c636e52705a6d6c6a595852706232",
    "3476646a517663474e7259334a7350324e680a5058427962324e6c63334e7663695a6c626d4e765a476c755a7a316b5a",
    "584977485159445652304f42425945464a57566e41395a63736f3753356b6a2f647a4a0a594f3034534175644d413447",
    "41315564447745422f775145417749477744414d42674e5648524d4241663845416a41414d4949423141594a4b6f5a49",
    "6876684e0a415130424249494278544343416345774867594b4b6f5a496876684e41513042415151514d6d5867725757",
    "774c59554164456d6c766c366153444343415751470a43697147534962345451454e41514977676746554d4241474379",
    "7147534962345451454e41514942416745554d42414743797147534962345451454e415149430a416745554d42414743",
    "797147534962345451454e41514944416745434d42414743797147534962345451454e41514945416745454d42414743",
    "797147534962340a5451454e41514946416745424d42454743797147534962345451454e415149474167494167444151",
    "42677371686b69472b4530424451454342774942414441510a42677371686b69472b4530424451454343414942414441",
    "5142677371686b69472b45304244514543435149424144415142677371686b69472b453042445145430a436749424144",
    "415142677371686b69472b45304244514543437749424144415142677371686b69472b45304244514543444149424144",
    "415142677371686b69470a2b45304244514543445149424144415142677371686b69472b453042445145434467494241",
    "44415142677371686b69472b4530424451454344774942414441510a42677371686b69472b4530424451454345414942",
    "4144415142677371686b69472b45304244514543455149424454416642677371686b69472b453042445145430a456751",
    "5146425143424147414141414141414141414141414144415142676f71686b69472b4530424451454442414941414441",
    "5542676f71686b69472b4530420a44514545424159416b473668414141774477594b4b6f5a496876684e415130424251",
    "6f424144414b42676771686b6a4f5051514441674e4841444245416942560a6e584667364277466a6945474230417162",
    "424e702b4b56734a477245744f4f49666e6f365450387031414967536c4430574e39595261575968346534656835330a",
    "314637434537664964724f55414c5177757632735948513d0a2d2d2d2d2d454e442043455254494649434154452d2d2d",
    "2d2d0a2d2d2d2d2d424547494e2043455254494649434154452d2d2d2d2d0a4d4949436d444343416a36674177494241",
    "674956414e446f71747031312f6b7553526559504873555a644456386c6c4e4d416f4743437147534d343942414d430a",
    "4d476778476a415942674e5642414d4d45556c756447567349464e48574342536232393049454e424d526f7747415944",
    "5651514b4442464a626e526c624342440a62334a7762334a6864476c76626a45554d424947413155454277774c553246",
    "756447456751327868636d4578437a414a42674e564241674d416b4e424d5173770a435159445651514745774a56557a",
    "4165467730784f4441314d6a45784d4455774d5442614677307a4d7a41314d6a45784d4455774d5442614d484578497a",
    "41680a42674e5642414d4d476b6c756447567349464e48574342515130736755484a765932567a6332397949454e424d",
    "526f77474159445651514b4442464a626e526c0a6243424462334a7762334a6864476c76626a45554d42494741315545",
    "4277774c553246756447456751327868636d4578437a414a42674e564241674d416b4e420a4d51737743515944565151",
    "4745774a56557a425a4d424d4742797147534d34394167454743437147534d34394177454841304941424c39712b4e4d",
    "7032494f670a74646c31626b2f75575a352b5447516d38614369387a373866732b664b435133642b75447a586e565441",
    "54325a68444369667949754a77764e33774e427039690a484253534d4a4d4a72424f6a67627377676267774877594456",
    "52306a42426777466f4155496d554d316c71644e496e7a6737535655723951477a6b6e427177770a5567594456523066",
    "42457377535442486f45576751345a426148523063484d364c79396a5a584a3061575a70593246305a584d7564484a31",
    "6333526c5a484e6c0a636e5a705932567a4c6d6c75644756734c6d4e766253394a626e526c62464e4857464a76623352",
    "445153356b5a584977485159445652304f42425945464e446f0a71747031312f6b7553526559504873555a644456386c",
    "6c4e4d41344741315564447745422f77514541774942426a415342674e5648524d4241663845434441470a4151482f41",
    "6745414d416f4743437147534d343942414d43413067414d4555434951434a6754627456714f795a316d336a71694158",
    "4d365159613672357357530a34792f4737793875494a4778647749675271507642534b7a7a516167424c517135733541",
    "373070646f6961524a387a2f3075447a344e675639316b3d0a2d2d2d2d2d454e442043455254494649434154452d2d2d",
    "2d2d0a2d2d2d2d2d424547494e2043455254494649434154452d2d2d2d2d0a4d4949436a7a4343416a53674177494241",
    "674955496d554d316c71644e496e7a6737535655723951477a6b6e42717777436759494b6f5a497a6a3045417749770a",
    "614445614d4267474131554541777752535735305a5777675530645949464a766233516751304578476a415942674e56",
    "42416f4d45556c756447567349454e760a636e4276636d4630615739754d525177456759445651514844417454595735",
    "3059534244624746795954454c4d416b47413155454341774351304578437a414a0a42674e5642415954416c56544d42",
    "3458445445344d4455794d5445774e4455784d466f58445451354d54497a4d54497a4e546b314f566f77614445614d42",
    "67470a4131554541777752535735305a5777675530645949464a766233516751304578476a415942674e5642416f4d45",
    "556c756447567349454e76636e4276636d46300a615739754d5251774567594456515148444174545957353059534244",
    "624746795954454c4d416b47413155454341774351304578437a414a42674e56424159540a416c56544d466b77457759",
    "484b6f5a497a6a3043415159494b6f5a497a6a3044415163445167414543366e45774d4449595a4f6a2f69505773437a",
    "61454b69370a314f694f534c52466857476a626e42564a66566e6b59347533496a6b4459594c304d784f346d71737959",
    "6a6c42616c54565978465032734a424b357a6c4b4f420a757a43427544416642674e5648534d4547444157674251695a",
    "517a575770303069664f44744a5653763141624f5363477244425342674e5648523845537a424a0a4d45656752614244",
    "686b466f64485277637a6f764c324e6c636e52705a6d6c6a5958526c63793530636e567a6447566b63325679646d6c6a",
    "5a584d75615735300a5a577775593239744c306c756447567355306459556d397664454e424c6d526c636a416442674e",
    "564851344546675155496d554d316c71644e496e7a673753560a55723951477a6b6e4271777744675944565230504151",
    "482f42415144416745474d42494741315564457745422f7751494d4159424166384341514577436759490a4b6f5a497a",
    "6a3045417749445351417752674968414f572f35516b522b533943695344634e6f6f774c7550524c735747662f596937",
    "47535839344267775477670a41694541344a306c72486f4d732b586f356f2f7358364f39515778485241765a55474f64",
    "52513763767152586171493d0a2d2d2d2d2d454e442043455254494649434154452d2d2d2d2d0a00",
];

#[test]
fn parse_sgx_quote() {
    let bytes = hex::decode(RECORDED_V3_SGX_QUOTE.concat()).unwrap();
    assert_eq!(bytes.len(), 4600);
    let mut cursor: &[u8] = &bytes;
    let quote = Quote::read(&mut cursor).unwrap();
    assert!(cursor.is_empty());
    assert_eq!(quote.header.version, 3);
    assert_eq!(quote.header.attestation_key_type, 2);
    assert_eq!(quote.header.tee_type, SGX_TEE_TYPE);
    assert_eq!(quote.header.qe_svn, 10);
    assert_eq!(quote.header.pce_svn, 15);
    assert!(matches!(quote.body, QuoteBody::SgxQuoteBody(_)));
    assert_eq!(&quote.body.as_bytes()[..16], &bytes[48..64]);
    assert_eq!(quote.signature.isv_signature[..], bytes[436..500]);
    assert_eq!(quote.signature.attestation_pub_key[..], bytes[500..564]);
    let auth: Vec<u8> = (0u8..32).collect();
    assert_eq!(quote.signature.qe_auth_data, &auth[..]);
    assert_eq!(quote.signature.pck_cert_chain_data.cert_data_type, 5);
    assert_eq!(quote.signature.pck_cert_chain_data.data.len(), 3548);
    assert!(quote.signature.pck_cert_chain_data.data.starts_with(b"-----BEGIN CERTIFICATE-----"));
}
