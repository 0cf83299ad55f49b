//! Certificate chains, server names and handshake signatures, with real keys.
//!
//! All certificates are valid from the start of 2021 to the end of 2049.  The
//! servers are called `example.com`, 192.0.2.7 and 2001:db8::7.  `SERVER_P256`
//! and `CLIENT` are issued by `INTERMEDIATE`, all others by the root.
use rustls_verify::anchors::{OwnedTrustAnchor, RootCertStore};
use rustls_verify::client::{
    AllowAnyAnonymousOrAuthenticatedClient, AllowAnyAuthenticatedClient, ClientCertVerifier,
    NoClientAuth,
};
use rustls_verify::enums::SignatureScheme;
use rustls_verify::error::{CertificateError, PeerMisbehaved, TlsError};
use rustls_verify::handshake::{
    convert_scheme, verify_sig_using_any_alg, verify_signed_struct, verify_tls13,
};
use rustls_verify::key::{Certificate, ParsedCertificate};
use rustls_verify::markers::{ClientCertVerified, ServerCertVerified};
use rustls_verify::pki::{PkiAlgorithm, PkiError};
use rustls_verify::server::{
    intermediate_chain, verify_server_cert_signed_by_trust_anchor, verify_server_name,
    ServerCertVerifier, WebPkiVerifier,
};
use rustls_verify::server_name::{DnsName, IpAddr, ServerName};
use rustls_verify::signed_struct::DigitallySignedStruct;
use std::time::{Duration, SystemTime, UNIX_EPOCH};

const MESSAGE: &[u8] = b"the signed message";

const INTERMEDIATE: &str = "30820230308201b6a003020102021424bd13a369f13b29e46af6a8db98c37a252c494a300a06082a8648ce3d\
    04030330143112301006035504030c095465737420526f6f74301e170d3231303130313030303030305a170d\
    3439313233313030303030305a301c311a301806035504030c115465737420496e7465726d65646961746530\
    820122300d06092a864886f70d01010105000382010f003082010a028201010088dd2d2018b5ab52b61badf2\
    91f59c2bf683b5397da3fd98b28c6c060824954dd31a0bde92c8fcb0303e808b6b52f91a0069c299caefdcd0\
    efed4c13cb3263bbd8d26186429f1b4e6154d7c4f9e342d0561718d3575c724677bd0fd66157f1b2c94684c5\
    1f91cb4e90a34993dcd27d159f4abe51bbe9398cf08876dc735c1bacbd10d5e6c1ee4940b9223adc32748a46\
    d2eb3cb54fe24a218f637ef060ada0cf7f1e555f383d2d0bbb5a9cc95f56fa9be43a6c9ffebce10f4f775d90\
    da7e17cf077681704d369d5131180488fefd10b0940d41dfc74bbbe28592d1102c72c4f0b54cc3e8ceb90b11\
    e1123d14a26135333a2de28d2cfec1c8254cdceb012a5fe10203010001a3133011300f0603551d130101ff04\
    0530030101ff300a06082a8648ce3d04030303680030650231008a1636ef42ba5205d5b4a0c8a0d3f3f7670a\
    8d17b09b3719ab378092336e8014cdf3cfda5d8d8aa88ace4670bcf3fe1502300b0aa9e94c8558f3e690f9d1\
    5c04c597560fd86b595d03b6794b65eafa5d329bc5e59e5c2d88f807f13e26a8a02c6568";

const SERVER_P256: &str = "3082023c30820124a0030201020214190d83cbd51cdfd91b9085f44547cba493c9a19e300d06092a864886f7\
    0d01010b0500301c311a301806035504030c115465737420496e7465726d656469617465301e170d32313031\
    30313030303030305a170d3439313233313030303030305a30163114301206035504030c0b70323536207365\
    727665723059301306072a8648ce3d020106082a8648ce3d0301070342000422aaac5223e58eaf7bc91eae03\
    f979ff57152e514df95ac9e1750efb7f63bc78018ef306dcb2642fcf73778161cb06d6ec38c9571228662264\
    0202aed7c77eb2a347304530130603551d25040c300a06082b06010505070301302e0603551d110427302582\
    0b6578616d706c652e636f6d8704c0000207871020010db8000000000000000000000007300d06092a864886\
    f70d01010b0500038201010055ca10f36a87e4ad612f0bbd93e9b15e2695d8da4707c647cd330a5aad9672eb\
    d2e8da2402bfcb0fe318bc81875e5c69ec428c764efb4c78ca3604436c6c7c096b32c88795896c59a2807170\
    063d08e0585908caa6bd7e8f37fbd9a32efa2ff5d2a0f24f5c197c2c5828546c1e0a73bb62e68b70aa0d88d5\
    ed44e864958c2f8c2b7a366ac9c44118316c65761f7e6ae613d0654ff6f54902c231ac6d571156115907c16a\
    327f9ea6242248f2066ce4e6f607a985fe8b650cf4cb7463c4a0a6f5412775df51210c712bbef4a21bf46e46\
    824b311ccb3498659d266e589b52a784fa7f078d6fcac5f6f5279330ad09b3cc24750a7ac22c8d6d4462ac03\
    757423d7";

const SERVER_P384: &str = "308201b030820136a003020102021457bbf2056302294f03451b4f33792342ab341167300a06082a8648ce3d\
    04030230143112301006035504030c095465737420526f6f74301e170d3231303130313030303030305a170d\
    3439313233313030303030305a30163114301206035504030c0b70333834207365727665723076301006072a\
    8648ce3d020106052b810400220362000422de4045792adaed31bab9c4e658e39ae28ad3b66285cc243b16a2\
    e8a503b95d38c0a5a9d5968c33f61a3570198cb32eb2b43f12e7c721bceb1185bcd56631af058fe6170f2be4\
    c53f380c23771ef8b4c9ae982062f235b3f8bbb23b5d7cf150a347304530130603551d25040c300a06082b06\
    010505070301302e0603551d1104273025820b6578616d706c652e636f6d8704c0000207871020010db80000\
    00000000000000000007300a06082a8648ce3d0403020368003065023100ce1730bc22452aee8055650f5837\
    e066db8d325ee9639e963f15a852d7eaa4e95af63c87dd6b4ccd25a76dcd1ff66f88023057a6e794602743fd\
    de56df31c2fdf5b5d1672e28651ceebed755feb84918e8f75446acd13dc3fd319db95c4bc8113f0f";

const SERVER_ED25519: &str = "308201663081eda0030201020214237e27a30bf2fd681a70e125b4b5e325cf1a5de3300a06082a8648ce3d04\
    030330143112301006035504030c095465737420526f6f74301e170d3231303130313030303030305a170d34\
    39313233313030303030305a30193117301506035504030c0e6564323535313920736572766572302a300506\
    032b6570032100d269f385a3f328a786e0b63fc00afa2ea818c4ac7d2f651e72244a7ee0a63bafa347304530\
    130603551d25040c300a06082b06010505070301302e0603551d1104273025820b6578616d706c652e636f6d\
    8704c0000207871020010db8000000000000000000000007300a06082a8648ce3d0403030368003065023004\
    3f833e49e4fbc57400c43d251ce3270b8eb52f619a33e16d51df73036e43ca706e0453e295afc3e3fd5db625\
    333fb7023100e88d312b0ebf39dacf2bf252511f106f94d2fa977c5b9428553527b47ba07356a65b257d7406\
    4583fc1329617ddb64de";

const SERVER_RSA: &str = "3082025c308201e3a0030201020214590ecc7ae910b37a6cf056217143f95f4c2a0337300a06082a8648ce3d\
    04030330143112301006035504030c095465737420526f6f74301e170d3231303130313030303030305a170d\
    3439313233313030303030305a30153113301106035504030c0a7273612073657276657230820122300d0609\
    2a864886f70d01010105000382010f003082010a02820101009634f177ea4d8775201557928362893b35a979\
    7a317cd9bd777511eb5041906d4ac43a9810147aee91e92fe55d03870f7e1c2d2f5fe045607c1ca73b4d22ac\
    3de653fd6390c55ce217307c3b2d026c67cb6b34620f59e57560af70503ab63e8b7b388e1f647a062778f1dc\
    343d8273b23c877f9a0b00d38f2553aeb98770ea240141632f977656f14ab873e653ba555aeb8478e62bb1fc\
    242b6a0c7b7417286ad14459fe6f31e890b7b4aafa3a1467e23699a704da4ba77c1a321b503e93a624236ed3\
    8cb3df675d3eb47e112e94ce5c5080dcd53ee94e8295b55e2e7c2f7199fac838556a0bd1ed537510ce44aeb3\
    1fe2a3b4e40f77f84675e36ad48a6a62d50203010001a347304530130603551d25040c300a06082b06010505\
    070301302e0603551d1104273025820b6578616d706c652e636f6d8704c0000207871020010db80000000000\
    00000000000007300a06082a8648ce3d0403030367003064023051e90cb737919ebf5e4ddb64bb499d08e1b4\
    393b7377649940631500c9a08ba085d8f1196ceeda3f76c6d770e6b0d8d302300bfefaf9dca413e2da67467c\
    17451dcbac7e81a8b8f8af7104b97dceefae90482bd5bc96c99c4ef8a43af59a026d6924";

const CLIENT: &str = "308201d73081c0a0030201020214383ca8788e12f49bfa29126f37f2ab1b2e1c17ad300d06092a864886f70d\
    01010d0500301c311a301806035504030c115465737420496e7465726d656469617465301e170d3231303130\
    313030303030305a170d3439313233313030303030305a3011310f300d06035504030c06636c69656e74302a\
    300506032b65700321001f521a703f5ec1ba85e7bd6492221299a653df4ec1561ceb40b1d0493396eb3da317\
    301530130603551d25040c300a06082b06010505070302300d06092a864886f70d01010d0500038201010043\
    394c10ffb99e31cb1695726f0f5d6929615b4271f5444dc75c6bf1b9492f03322adaf315ebb772e0877b6e12\
    f4790b7447d33fd865e84f6edbea408194516198f4d091b486153e11cdca1edc7023ca285c3455904581e4f4\
    9a0685a38a66ce824edb620457009baf534b2731723d36d40575a934c2c35496024f4ac5753ac7fd4f5276ef\
    ba4de047934600600ba0a5feaa7c5a424c841cdf07f42b0eb759a30d29d9bb9cd8aaae6a4658e3127df92c3f\
    f6ee27c768ddbff2c549970c86525b62454a86852cd7895b11ddd27174b7b20ddde76d46a994bd289e7f88a7\
    16dafb9476a4cc29d7a8334ba99fa829d4be2cac10aea2fc017a243fcfeb4eff219918";

const ROOT_SUBJECT: &str = "3112301006035504030c095465737420526f6f74";

const ROOT_SPKI: &str = "301006072a8648ce3d020106052b8104002203620004dffcd8a3ead48af1a35e3d1f9d1b1d15f7f5328cb770\
    48d8912f95ccf9110cf87dc2d8c5d91e041f61d61623ba8b56dd5d5547b6276133f66418f53d8e3b18cd379f\
    ec2f04891cc826d4aa235fb3457ad9966cf6a920b21c11965635bc78561e";

const OTHER_SPKI: &str = "301006072a8648ce3d020106052b810400220362000422de4045792adaed31bab9c4e658e39ae28ad3b66285\
    cc243b16a2e8a503b95d38c0a5a9d5968c33f61a3570198cb32eb2b43f12e7c721bceb1185bcd56631af058f\
    e6170f2be4c53f380c23771ef8b4c9ae982062f235b3f8bbb23b5d7cf150";

const SIG_P256_SHA256: &str = "304502205414d0f3ffa2a172bc2879e7383f74cde54f1ca4edbd92cd5650eb7014285f7802210082d0e618ab\
    fecac70d75a82e9a46f9ab3f076d505077a80e515b73a1ba7cec2d";

const SIG_P256_SHA384: &str = "3045022026b25ccc829b55c95fc2cff9c6ea6487d59f68e2f8f6f8cf97138435b7bc6b87022100edef3c81c7\
    3bf76959c534c19878718990240456b84d2be0a9e17f902c1a4e98";

const SIG_P384_SHA256: &str = "306502302fae9dd95ac5509f0e5ff8cc0033912aea7440c5b934553cb85e2883339dc6d4e8f6f30d11e76418\
    aa899f15dffaaf7502310083494f6d7b38eab3054d7fd4e0e00a13da17f86e3891176b24d1da613e51c5d571\
    51b86804166caccc9ddac42cbb70cc";

const SIG_P384_SHA384: &str = "30640230661cd10c7452f7552ea524617c40a23bb944ae7c8ca5b7e03d74bc26b2ec3d9ebf4286eceb45dff6\
    601a46d1d7d2369302303cc8733ca3bd70518f655539181e970f34d6377530f3da578a165e79857adda3e398\
    86dd52c0d959ae5439b914b2a0f0";

const SIG_ED25519: &str = "e60b4af0ad56fd7f53c175e7a4e354938021a8a59d1f284fd5e238ce307b991f8d5654f500e344337a82cb94\
    a48713057398c07e419cb95d63afa2e95e88ff09";

const SIG_PKCS1_SHA256: &str = "0d6133f112dbd8f8d871e89a3a24c45cb6a3602cca13f2b7380173a40dd371b285282ec81a1729fa7568cea2\
    56b8a65607db294234fa930ff16fc6685f9b284eb9f89eca0ff473a204b71f78a1ec6a76ce5fbc6acfd5aade\
    8f90eba64de2071aa3589b8d823f78052031dc7c795d9d4a7450ce7fc197572ebd2a7ff26468d646c8271275\
    de892986f5b442a7338308f369e3daa1d61b76d9c96f1221ce229dbd46d4c27152dd263634758ea534c4afaf\
    faba14e50fa416edc31ec0ad2d86c53c108150a22a87bcba43ef5f2ed37b45bda282ba4347ac54f6791efdc0\
    97aa4f05e4eaf6c0478f6521c9902b1aacafc588ec956b82f2f59e35aa51464a15669302";

const SIG_PSS_SHA256: &str = "1aab775311f5b2ab56ccd57ad44f1118414bf151c4ccc0bc8a78d93e2775d421379a3d9aaf852cd26a9af8b9\
    c1c811516b66ffcec7ffd490b658df7e776f4cd1e0f4f9cc25b909d7ed1ae7cd7e7ad55ea5dbf5c3e5a6ad8b\
    a179e12505187627a7c372a856e9a2274ab287292efb86c5ec345f769800c31bb46822e3c304812d02bea29c\
    123fddff4689e19fdd19ed6bdef078d3ec61d7a102772830d06e982cc2760f04c6577fe01fd14a5ff0ed5abd\
    f1f37aa662aae1548a847d36b2d1d194ef1726b22b9579b8d94d1ac5ebcea34cf8b4e5dc8c9e0c2ab8cbadfd\
    c67bbfac0970fa0286ee0a514aa505344db5e3e88feef6bfc1380a80f92e6ef994231089";

const SIG_PKCS1_SHA384: &str = "951bd8086570e7a24b5c9568c47e7763201a79a34809b54194427fbaa28d3049fc89ad8326f222e4c5b62ccd\
    063a799c567a73697f808c9bc56458745b24fcf4eaaf32165533762b91cfa3e4edfde2e0a2827e371919a022\
    ebbd2cf578c3312e221c738aa7e61bc050169753a5ca20f4b97577b17ba63e19dcb3fc8410a372519c6019e0\
    bfb79c8423d8b23b055f0d8f3ce02bfdf786847893e3580405d0d284050a693efd66688de80b364bdb3c3fef\
    f66153fc94232cfe9b7b340ca0fd680a9f610d39509bcb31f059301c5b0bf1b6d5bcf5279070bc960624cf12\
    7551fa10116142231288f738fb4eea98302f62a9ed061112480ece382f58c4ad7d51be7e";

const SIG_PSS_SHA384: &str = "77f445688ebeb76df87bcbc61cf329aaf1f504b7aef2e36299dd50aa7b02b7630f37a6d8b752425901b103de\
    cafad5defd4a48f3011a233fbb36b8577cfb280a3a3f4898ea75a382841acb333338cf0f6aa06347bde7291c\
    46355e637604daccf2f3c6d03bd4427d18cf1d190bf03f041b0d1a8e5dd82b28b55d71da021161b385123490\
    22cf224323e5f44267c451a635dbd71a85fabefacc88f82fb60310ff8b78eab4be14222144500a118bc17b96\
    a565d08717dce019916e5f39258358f4397d03ad279f5307a5c64291f1356dbb7ff586f3ea2e84d7561bde86\
    a6231764599ddf245f4afa248bbf46d84c4c58d9ef8ae213dfed323c28bf2ba12adaf350";

const SIG_PKCS1_SHA512: &str = "2296ed1b00da42076d6d7e3d1f6bae065480e4d0f75b34f4b43e5da151596e20524016a1684b7688c05fdfcd\
    7b030e7fac24cabdeba9c37689ad611f3eef74324791f786c027b5d2eb1a06b273280394837c4aaf00e3335a\
    3512bc021f67532c72b9606b0745a492fa7087fc9e1ec54e7b82705cde94ba3bef1bd7887ab15b7127b4e0c9\
    5a08c86912764904b3170eeb024510582e6eaa09942c3839b3106e46e9236f1aced03b36c4f590cc14db7034\
    077d0ebfba1b6520ba689e91bd3c8f7a033a82b1af2794a8f8e70eac62ffe5eb286337ae7806517ae222761d\
    8021be4e124dc70fdec1f5eff09cee5057ab694ec44c5013a895d348a6804f15e8fededf";

const SIG_PSS_SHA512: &str = "2d3c8b939a89fd400c9224a64eec0988126ac83af0ad74649d13d002a0ede7776fe2e18bc0bc551a089cfcf2\
    a73648716bae0def596563322f04dfe93d5ae6e36e2e204f6096cab69837fed38a0829acb5f6a765c67acfe0\
    9d0fed906b8bcea628f592ede5486ac2af9dc6112919e4178857c8155fced0148bdc32f9615a3b32091c8365\
    a044bc4fad0f9cef36937cc3b204b2e8d82e45dacf7906a5ad692942384c490a78940d3ccc4daef7db7f9127\
    43fa44cb38ac5278d4a3efae24ebd9a4de2d0cb4c5a3e1e63e563f44662bafa84966ca8f5bbfa957ac7dec4b\
    4afb09b6763a3812fe9eda395395c7278748d5abe8c692e91f35059940e90b7b068b63ef";

fn unhex(text: &str) -> Vec<u8> {
    let digits: Vec<u8> = text
        .bytes()
        .map(|b| if b <= b'9' { b - b'0' } else { b - b'a' + 10 })
        .collect();
    digits.chunks(2).map(|pair| pair[0] * 16 + pair[1]).collect()
}

fn cert(text: &str) -> Certificate {
    Certificate(unhex(text))
}

fn at(seconds: u64) -> SystemTime {
    UNIX_EPOCH + Duration::from_secs(seconds)
}

/// In November 2023.
fn now() -> SystemTime {
    at(1_700_000_000)
}

/// One second before the epoch.
fn before_epoch() -> SystemTime {
    UNIX_EPOCH - Duration::from_secs(1)
}

fn store(spki: &str, name_constraints: Option<Vec<u8>>) -> RootCertStore {
    RootCertStore {
        roots: vec![OwnedTrustAnchor::from_subject_spki_name_constraints(
            unhex(ROOT_SUBJECT),
            unhex(spki),
            name_constraints,
        )],
    }
}

fn roots() -> RootCertStore {
    store(ROOT_SPKI, None)
}

fn dns(name: &str) -> ServerName {
    ServerName::DnsName(DnsName(name.to_string()))
}

fn dss(scheme: SignatureScheme, sig: &str) -> DigitallySignedStruct {
    DigitallySignedStruct::new(scheme, unhex(sig))
}

fn invalid(error: CertificateError) -> TlsError {
    TlsError::InvalidCertificate(error)
}

fn unadvertised() -> TlsError {
    TlsError::PeerMisbehaved(PeerMisbehaved::SignedHandshakeWithUnadvertisedSigScheme)
}

fn check_server(
    end_entity: &str,
    intermediates: &[Certificate],
    name: &ServerName,
    time: SystemTime,
) -> Result<ServerCertVerified, TlsError> {
    WebPkiVerifier::new(roots()).verify_server_cert(&cert(end_entity), intermediates, name, &[], time)
}

fn check_client(
    end_entity: &str,
    intermediates: &[Certificate],
    time: SystemTime,
) -> Result<ClientCertVerified, TlsError> {
    AllowAnyAuthenticatedClient::new(roots()).verify_client_cert(
        &cert(end_entity),
        intermediates,
        time,
    )
}

// Servers.

#[test]
fn server_certs_are_accepted() {
    let name = dns("example.com");
    assert!(check_server(SERVER_P384, &[], &name, now()).is_ok());
    assert!(check_server(SERVER_ED25519, &[], &name, now()).is_ok());
    assert!(check_server(SERVER_RSA, &[], &name, now()).is_ok());
    assert!(check_server(SERVER_P256, &[cert(INTERMEDIATE)], &name, now()).is_ok());
}

#[test]
fn the_intermediate_is_found_wherever_it_stands() {
    let name = dns("example.com");
    let chain = [cert(SERVER_RSA), cert(INTERMEDIATE), cert(CLIENT)];
    assert!(check_server(SERVER_P256, &chain, &name, now()).is_ok());
}

#[test]
fn missing_intermediate_is_an_unknown_issuer() {
    let result = check_server(SERVER_P256, &[], &dns("example.com"), now());
    assert_eq!(result.unwrap_err(), invalid(CertificateError::UnknownIssuer));
}

#[test]
fn no_roots_is_an_unknown_issuer() {
    let verifier = WebPkiVerifier::new(RootCertStore { roots: vec![] });
    let result =
        verifier.verify_server_cert(&cert(SERVER_P384), &[], &dns("example.com"), &[], now());
    assert_eq!(result.unwrap_err(), invalid(CertificateError::UnknownIssuer));
}

#[test]
fn second_root_is_found() {
    let mut store = roots();
    store.roots.insert(
        0,
        OwnedTrustAnchor::from_subject_spki_name_constraints(vec![1], vec![2], None),
    );
    let verifier = WebPkiVerifier::new(store);
    let result =
        verifier.verify_server_cert(&cert(SERVER_P384), &[], &dns("example.com"), &[], now());
    assert!(result.is_ok());
}

#[test]
fn wrong_root_key_finds_no_issuer() {
    let parsed = cert(SERVER_P384);
    let parsed = ParsedCertificate::try_from(&parsed).unwrap();
    let result = verify_server_cert_signed_by_trust_anchor(
        &parsed,
        &store(OTHER_SPKI, None),
        &[],
        now(),
    );
    // With no intermediates left to try, path building reports that no issuer
    // was found.
    assert_eq!(result.unwrap_err(), invalid(CertificateError::UnknownIssuer));
}

#[test]
fn root_name_constraints_are_handed_over() {
    let parsed = cert(SERVER_P384);
    let parsed = ParsedCertificate::try_from(&parsed).unwrap();
    let verdict = |excluded: [u8; 8]| {
        let mut constraints = vec![0xa1, 0x0c, 0x30, 0x0a, 0x87, 0x08];
        constraints.extend_from_slice(&excluded);
        let roots = store(ROOT_SPKI, Some(constraints));
        verify_server_cert_signed_by_trust_anchor(&parsed, &roots, &[], now())
    };
    assert_eq!(verdict([198, 51, 100, 0, 255, 255, 255, 0]), Ok(()));
    assert_eq!(
        verdict([192, 0, 2, 0, 255, 255, 255, 0]),
        Err(invalid(CertificateError::UnknownIssuer))
    );
}

#[test]
fn server_cert_time_is_checked() {
    let name = dns("example.com");
    // 2021-01-01T00:00:00Z
    let start: u64 = 1_609_459_200;
    // 2049-12-31T00:00:00Z
    let end: u64 = 2_524_521_600;
    assert_eq!(
        check_server(SERVER_P384, &[], &name, at(start - 1)).unwrap_err(),
        invalid(CertificateError::NotValidYet)
    );
    assert!(check_server(SERVER_P384, &[], &name, at(start)).is_ok());
    assert!(check_server(SERVER_P384, &[], &name, at(end)).is_ok());
    // Less than a whole second does not count.
    let almost = at(end) + Duration::from_millis(999);
    assert!(check_server(SERVER_P384, &[], &name, almost).is_ok());
    assert_eq!(
        check_server(SERVER_P384, &[], &name, at(end + 1)).unwrap_err(),
        invalid(CertificateError::Expired)
    );
}

#[test]
fn times_before_the_epoch_are_refused() {
    assert_eq!(
        check_server(SERVER_P384, &[], &dns("example.com"), before_epoch()).unwrap_err(),
        TlsError::FailedToGetCurrentTime
    );
    assert_eq!(
        check_client(CLIENT, &[cert(INTERMEDIATE)], before_epoch()).unwrap_err(),
        TlsError::FailedToGetCurrentTime
    );
    // The encoding is looked at first.
    assert_eq!(
        check_server("00", &[], &dns("example.com"), before_epoch()).unwrap_err(),
        invalid(CertificateError::BadEncoding)
    );
    assert_eq!(
        check_client("00", &[], before_epoch()).unwrap_err(),
        invalid(CertificateError::BadEncoding)
    );
    // The epoch itself is a time like any other.
    assert_eq!(
        check_server(SERVER_P384, &[], &dns("example.com"), UNIX_EPOCH).unwrap_err(),
        invalid(CertificateError::NotValidYet)
    );
}

#[test]
fn chain_failures_come_before_name_failures() {
    assert_eq!(
        check_server(SERVER_P256, &[], &dns("example.org"), now()).unwrap_err(),
        invalid(CertificateError::UnknownIssuer)
    );
    assert_eq!(
        check_server(SERVER_P384, &[], &dns("example.org"), now()).unwrap_err(),
        invalid(CertificateError::NotValidForName)
    );
}

#[test]
fn client_cert_does_not_do_for_a_server() {
    assert_eq!(
        check_server(CLIENT, &[cert(INTERMEDIATE)], &dns("example.com"), now()).unwrap_err(),
        invalid(CertificateError::Other(webpki::Error::RequiredEkuNotFound))
    );
}

#[test]
fn ocsp_response_is_not_looked_at() {
    let verifier = WebPkiVerifier::new(roots());
    let good = cert(SERVER_P384);
    let name = dns("example.com");
    assert!(verifier.verify_server_cert(&good, &[], &name, b"anything", now()).is_ok());
    let other = dns("example.org");
    assert_eq!(
        verifier.verify_server_cert(&good, &[], &other, b"anything", now()).unwrap_err(),
        verifier.verify_server_cert(&good, &[], &other, &[], now()).unwrap_err()
    );
}

#[test]
fn server_names() {
    let good = cert(SERVER_P384);
    let good = ParsedCertificate::try_from(&good).unwrap();
    let verdict = |name: ServerName| verify_server_name(&good, &name);
    assert_eq!(verdict(dns("example.com")), Ok(()));
    assert_eq!(verdict(dns("EXAMPLE.com")), Ok(()));
    assert_eq!(verdict(dns("www.example.com")), Err(invalid(CertificateError::NotValidForName)));
    assert_eq!(verdict(dns("not a name")), Err(invalid(CertificateError::BadEncoding)));
    assert_eq!(verdict(dns("")), Err(invalid(CertificateError::BadEncoding)));
    assert_eq!(verdict(ServerName::IpAddress(IpAddr::V4([192, 0, 2, 7]))), Ok(()));
    assert_eq!(
        verdict(ServerName::IpAddress(IpAddr::V4([192, 0, 2, 8]))),
        Err(invalid(CertificateError::NotValidForName))
    );
    let mut octets = [0u8; 16];
    octets[0] = 0x20;
    octets[1] = 0x01;
    octets[2] = 0x0d;
    octets[3] = 0xb8;
    octets[15] = 7;
    assert_eq!(verdict(ServerName::IpAddress(IpAddr::V6(octets))), Ok(()));
    octets[15] = 8;
    assert_eq!(
        verdict(ServerName::IpAddress(IpAddr::V6(octets))),
        Err(invalid(CertificateError::NotValidForName))
    );
}

#[test]
fn intermediate_chain_keeps_bytes_and_order() {
    let certs = [Certificate(vec![1, 2]), Certificate(vec![]), Certificate(vec![3])];
    assert_eq!(intermediate_chain(&certs), vec![&[1u8, 2][..], &[][..], &[3][..]]);
    assert!(intermediate_chain(&[]).is_empty());
}

#[test]
fn malformed_certificates_do_not_parse() {
    let empty = Certificate(vec![]);
    assert_eq!(
        ParsedCertificate::try_from(&empty).err(),
        Some(invalid(CertificateError::BadEncoding))
    );
    let mut trailing = unhex(SERVER_P384);
    trailing.push(0);
    let trailing = Certificate(trailing);
    assert_eq!(
        ParsedCertificate::try_from(&trailing).err(),
        Some(invalid(CertificateError::BadEncoding))
    );
}

// Clients.

#[test]
fn client_certs_are_accepted() {
    assert!(check_client(CLIENT, &[cert(INTERMEDIATE)], now()).is_ok());
}

#[test]
fn client_cert_failures() {
    assert_eq!(
        check_client(CLIENT, &[], now()).unwrap_err(),
        invalid(CertificateError::UnknownIssuer)
    );
    assert_eq!(
        check_client(SERVER_P384, &[], now()).unwrap_err(),
        invalid(CertificateError::Other(webpki::Error::RequiredEkuNotFound))
    );
    assert_eq!(
        check_client(CLIENT, &[cert(INTERMEDIATE)], at(0)).unwrap_err(),
        invalid(CertificateError::NotValidYet)
    );
    assert_eq!(
        check_client(CLIENT, &[cert(INTERMEDIATE)], at(3_000_000_000)).unwrap_err(),
        invalid(CertificateError::Expired)
    );
    assert_eq!(
        check_client("3000", &[], now()).unwrap_err(),
        invalid(CertificateError::BadEncoding)
    );
    let trusts_nobody = AllowAnyAuthenticatedClient::new(RootCertStore { roots: vec![] });
    assert!(trusts_nobody.client_auth_root_subjects().is_empty());
    assert_eq!(
        trusts_nobody.verify_client_cert(&cert(CLIENT), &[cert(INTERMEDIATE)], now()).unwrap_err(),
        invalid(CertificateError::UnknownIssuer)
    );
}

#[test]
fn anonymous_or_authenticated_acts_like_authenticated_on_a_cert() {
    let optional = AllowAnyAnonymousOrAuthenticatedClient::new(roots());
    let mandatory = AllowAnyAuthenticatedClient::new(roots());
    let chain = [cert(INTERMEDIATE)];
    for (text, time) in [
        (CLIENT, now()),
        (CLIENT, at(0)),
        (CLIENT, before_epoch()),
        (SERVER_P384, now()),
        ("00", now()),
    ] {
        let end_entity = cert(text);
        assert_eq!(
            optional.verify_client_cert(&end_entity, &chain, time).err(),
            mandatory.verify_client_cert(&end_entity, &chain, time).err()
        );
    }
}

#[test]
fn who_has_to_authenticate() {
    let mandatory = AllowAnyAuthenticatedClient::new(roots());
    assert!(mandatory.offer_client_auth());
    assert!(mandatory.client_auth_mandatory());
    let optional = AllowAnyAnonymousOrAuthenticatedClient::new(roots());
    assert!(optional.offer_client_auth());
    assert!(!optional.client_auth_mandatory());
    assert!(!NoClientAuth.offer_client_auth());
    assert!(!NoClientAuth.client_auth_mandatory());
}

#[test]
fn root_subjects_are_distinguished_names() {
    let two = || RootCertStore {
        roots: vec![
            OwnedTrustAnchor::from_subject_spki_name_constraints(vec![7, 8], vec![], None),
            OwnedTrustAnchor::from_subject_spki_name_constraints(unhex(ROOT_SUBJECT), vec![], None),
        ],
    };
    let mut root_name = vec![0x30, 20];
    root_name.extend_from_slice(&unhex(ROOT_SUBJECT));
    let expected = vec![vec![0x30, 2, 7, 8], root_name];
    let names = |subjects: &[rustls_verify::anchors::DistinguishedName]| -> Vec<Vec<u8>> {
        subjects.iter().map(|name| name.0.clone()).collect()
    };
    assert_eq!(
        names(AllowAnyAuthenticatedClient::new(two()).client_auth_root_subjects()),
        expected
    );
    assert_eq!(
        names(AllowAnyAnonymousOrAuthenticatedClient::new(two()).client_auth_root_subjects()),
        expected
    );
}

#[test]
fn shared_verifiers_act_like_what_was_shared() {
    let chain = [cert(INTERMEDIATE)];
    let mandatory = AllowAnyAuthenticatedClient::new(roots()).boxed().verifier;
    assert!(mandatory.offer_client_auth());
    assert!(mandatory.client_auth_mandatory());
    assert_eq!(mandatory.client_auth_root_subjects().len(), 1);
    assert!(mandatory.verify_client_cert(&cert(CLIENT), &chain, now()).is_ok());
    assert!(mandatory.verify_client_cert(&cert(CLIENT), &[], now()).is_err());

    let optional = AllowAnyAnonymousOrAuthenticatedClient::new(roots()).boxed().verifier;
    assert!(optional.offer_client_auth());
    assert!(!optional.client_auth_mandatory());
    assert_eq!(optional.client_auth_root_subjects().len(), 1);
    assert!(optional.verify_client_cert(&cert(CLIENT), &chain, now()).is_ok());

    let off = NoClientAuth::boxed().verifier;
    assert!(!off.offer_client_auth());
    assert!(!off.client_auth_mandatory());
    assert_eq!(off.supported_verify_schemes(), WebPkiVerifier::verification_schemes());
    assert!(off
        .verify_tls12_signature(
            MESSAGE,
            &cert(SERVER_ED25519),
            &dss(SignatureScheme::ED25519, SIG_ED25519)
        )
        .is_ok());
    assert!(off
        .verify_tls13_signature(
            MESSAGE,
            &cert(SERVER_ED25519),
            &dss(SignatureScheme::ED25519, SIG_ED25519)
        )
        .is_ok());
}

// Handshake signatures.

#[test]
fn tls12_signatures_verify_under_every_scheme() {
    for (server, scheme, sig) in [
        (SERVER_P256, SignatureScheme::ECDSA_NISTP256_SHA256, SIG_P256_SHA256),
        (SERVER_P384, SignatureScheme::ECDSA_NISTP256_SHA256, SIG_P384_SHA256),
        (SERVER_P256, SignatureScheme::ECDSA_NISTP384_SHA384, SIG_P256_SHA384),
        (SERVER_P384, SignatureScheme::ECDSA_NISTP384_SHA384, SIG_P384_SHA384),
        (SERVER_ED25519, SignatureScheme::ED25519, SIG_ED25519),
        (SERVER_RSA, SignatureScheme::RSA_PKCS1_SHA256, SIG_PKCS1_SHA256),
        (SERVER_RSA, SignatureScheme::RSA_PKCS1_SHA384, SIG_PKCS1_SHA384),
        (SERVER_RSA, SignatureScheme::RSA_PKCS1_SHA512, SIG_PKCS1_SHA512),
        (SERVER_RSA, SignatureScheme::RSA_PSS_SHA256, SIG_PSS_SHA256),
        (SERVER_RSA, SignatureScheme::RSA_PSS_SHA384, SIG_PSS_SHA384),
        (SERVER_RSA, SignatureScheme::RSA_PSS_SHA512, SIG_PSS_SHA512),
    ] {
        let certificate = cert(server);
        assert!(verify_signed_struct(MESSAGE, &certificate, &dss(scheme, sig)).is_ok());
        assert_eq!(
            verify_signed_struct(b"another message", &certificate, &dss(scheme, sig)).unwrap_err(),
            invalid(CertificateError::BadSignature)
        );
    }
}

#[test]
fn tls13_signatures_verify_under_every_scheme() {
    for (server, scheme, sig) in [
        (SERVER_P256, SignatureScheme::ECDSA_NISTP256_SHA256, SIG_P256_SHA256),
        (SERVER_P384, SignatureScheme::ECDSA_NISTP384_SHA384, SIG_P384_SHA384),
        (SERVER_ED25519, SignatureScheme::ED25519, SIG_ED25519),
        (SERVER_RSA, SignatureScheme::RSA_PSS_SHA256, SIG_PSS_SHA256),
        (SERVER_RSA, SignatureScheme::RSA_PSS_SHA384, SIG_PSS_SHA384),
        (SERVER_RSA, SignatureScheme::RSA_PSS_SHA512, SIG_PSS_SHA512),
    ] {
        let certificate = cert(server);
        assert!(verify_tls13(MESSAGE, &certificate, &dss(scheme, sig)).is_ok());
        assert_eq!(
            verify_tls13(b"another message", &certificate, &dss(scheme, sig)).unwrap_err(),
            invalid(CertificateError::BadSignature)
        );
    }
}

#[test]
fn tls13_fixes_the_curve_and_tls12_does_not() {
    let p384 = cert(SERVER_P384);
    let crossed = dss(SignatureScheme::ECDSA_NISTP256_SHA256, SIG_P384_SHA256);
    assert!(verify_signed_struct(MESSAGE, &p384, &crossed).is_ok());
    assert_eq!(
        verify_tls13(MESSAGE, &p384, &crossed).unwrap_err(),
        invalid(CertificateError::BadSignature)
    );
    let p256 = cert(SERVER_P256);
    let crossed = dss(SignatureScheme::ECDSA_NISTP384_SHA384, SIG_P256_SHA384);
    assert!(verify_signed_struct(MESSAGE, &p256, &crossed).is_ok());
    assert_eq!(
        verify_tls13(MESSAGE, &p256, &crossed).unwrap_err(),
        invalid(CertificateError::BadSignature)
    );
}

#[test]
fn schemes_that_are_not_offered_are_misbehaviour() {
    let rsa = cert(SERVER_RSA);
    for scheme in [
        SignatureScheme::RSA_PKCS1_SHA1,
        SignatureScheme::ECDSA_SHA1_Legacy,
        SignatureScheme::ECDSA_NISTP521_SHA512,
        SignatureScheme::ED448,
        SignatureScheme::Unknown(0x1234),
    ] {
        let signed = dss(scheme, SIG_PKCS1_SHA256);
        assert_eq!(verify_signed_struct(MESSAGE, &rsa, &signed).unwrap_err(), unadvertised());
        assert_eq!(verify_tls13(MESSAGE, &rsa, &signed).unwrap_err(), unadvertised());
        // Whatever else is wrong.
        let broken = Certificate(vec![]);
        assert_eq!(verify_signed_struct(MESSAGE, &broken, &signed).unwrap_err(), unadvertised());
        assert_eq!(verify_tls13(MESSAGE, &broken, &signed).unwrap_err(), unadvertised());
    }
    let pkcs1 = dss(SignatureScheme::RSA_PKCS1_SHA256, SIG_PKCS1_SHA256);
    assert!(verify_signed_struct(MESSAGE, &rsa, &pkcs1).is_ok());
    assert_eq!(verify_tls13(MESSAGE, &rsa, &pkcs1).unwrap_err(), unadvertised());
}

#[test]
fn signatures_need_a_cert_that_parses() {
    let broken = Certificate(vec![0x30]);
    let signed = dss(SignatureScheme::ED25519, SIG_ED25519);
    assert_eq!(
        verify_signed_struct(MESSAGE, &broken, &signed).unwrap_err(),
        invalid(CertificateError::BadEncoding)
    );
    assert_eq!(
        verify_tls13(MESSAGE, &broken, &signed).unwrap_err(),
        invalid(CertificateError::BadEncoding)
    );
}

#[test]
fn single_mechanism_schemes_agree_between_versions() {
    for server in [SERVER_ED25519, SERVER_RSA, SERVER_P256] {
        for (scheme, sig) in [
            (SignatureScheme::ED25519, SIG_ED25519),
            (SignatureScheme::RSA_PSS_SHA256, SIG_PSS_SHA256),
        ] {
            let certificate = cert(server);
            let signed = dss(scheme, sig);
            assert_eq!(
                verify_signed_struct(MESSAGE, &certificate, &signed).err(),
                verify_tls13(MESSAGE, &certificate, &signed).err()
            );
        }
    }
}

#[test]
fn first_mechanism_that_applies_decides() {
    let certificate = cert(SERVER_P384);
    let parsed = ParsedCertificate::try_from(&certificate).unwrap();
    let sig = unhex(SIG_P384_SHA256);
    let verify = |algorithms: &[PkiAlgorithm]| {
        verify_sig_using_any_alg(&parsed, algorithms, MESSAGE, &sig)
    };
    assert_eq!(verify(&[PkiAlgorithm::ECDSA_P384_SHA256]), Ok(()));
    assert_eq!(
        verify(&[PkiAlgorithm::ED25519, PkiAlgorithm::ECDSA_P384_SHA256]),
        Ok(())
    );
    assert_eq!(
        verify(&[PkiAlgorithm::ECDSA_P384_SHA384, PkiAlgorithm::ECDSA_P384_SHA256]),
        Err(PkiError::InvalidSignatureForPublicKey)
    );
    assert_eq!(
        verify(&[PkiAlgorithm::ED25519, PkiAlgorithm::RSA_PKCS1_3072_8192_SHA384]),
        Err(PkiError::UnsupportedSignatureAlgorithmForPublicKey)
    );
    assert_eq!(verify(&[]), Err(PkiError::UnsupportedSignatureAlgorithmForPublicKey));
    let algorithms = convert_scheme(SignatureScheme::ECDSA_NISTP256_SHA256).unwrap();
    assert_eq!(verify(&algorithms), Ok(()));
}

// Default methods of the traits.

struct OwnServerVerifier;

impl ServerCertVerifier for OwnServerVerifier {
    fn verify_server_cert(
        &self,
        _end_entity: &Certificate,
        _intermediates: &[Certificate],
        _server_name: &ServerName,
        _ocsp_response: &[u8],
        _now: SystemTime,
    ) -> Result<ServerCertVerified, TlsError> {
        Ok(ServerCertVerified::assertion())
    }
}

struct OwnClientVerifier;

impl ClientCertVerifier for OwnClientVerifier {
    fn client_auth_root_subjects(&self) -> &[rustls_verify::anchors::DistinguishedName] {
        &[]
    }

    fn verify_client_cert(
        &self,
        _end_entity: &Certificate,
        _intermediates: &[Certificate],
        _now: SystemTime,
    ) -> Result<ClientCertVerified, TlsError> {
        Ok(ClientCertVerified::assertion())
    }
}

#[test]
fn default_methods_verify_signatures() {
    let ed25519 = cert(SERVER_ED25519);
    let signed = dss(SignatureScheme::ED25519, SIG_ED25519);
    let forged = dss(SignatureScheme::ED25519, SIG_P256_SHA256);
    assert!(OwnServerVerifier.verify_tls12_signature(MESSAGE, &ed25519, &signed).is_ok());
    assert!(OwnServerVerifier.verify_tls13_signature(MESSAGE, &ed25519, &signed).is_ok());
    assert!(OwnServerVerifier.verify_tls12_signature(MESSAGE, &ed25519, &forged).is_err());
    assert!(OwnServerVerifier.verify_tls13_signature(MESSAGE, &ed25519, &forged).is_err());
    assert!(OwnClientVerifier.verify_tls12_signature(MESSAGE, &ed25519, &signed).is_ok());
    assert!(OwnClientVerifier.verify_tls13_signature(MESSAGE, &ed25519, &signed).is_ok());
    assert!(OwnClientVerifier.verify_tls12_signature(MESSAGE, &ed25519, &forged).is_err());
    assert!(OwnClientVerifier.verify_tls13_signature(MESSAGE, &ed25519, &forged).is_err());
}

#[test]
fn default_methods_offer_and_demand_client_auth() {
    assert!(OwnClientVerifier.offer_client_auth());
    assert!(OwnClientVerifier.client_auth_mandatory());
    let schemes = WebPkiVerifier::verification_schemes();
    assert_eq!(OwnClientVerifier.supported_verify_schemes(), schemes);
    assert_eq!(OwnServerVerifier.supported_verify_schemes(), schemes);
}
