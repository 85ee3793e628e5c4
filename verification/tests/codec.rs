use pyblst::blst_p1_add_or_double;
use pyblst::blst_p1_uncompress;
use pyblst::blst_p2_add_or_double;
use pyblst::blst_p2_uncompress;
use pyblst::BlstErrorCode;
use pyblst::Compressable;
use pyblst::Error;

const G1_GENERATOR_HEX: &str = "97f1d3a73197d7942695638c4fa9ac0fc3688c4f9774b905a14e3a3f171bac586c55e83ff97a1aeffb3af00adb22c6bb";

const G1_GENERATOR_DOUBLED_HEX: &str = "a572cbea904d67468808c8eb50a9450c9721db309128012543902d0ac358a62ae28f75bb8f1c7c42c39a8c5529bf0f4e";

const G2_GENERATOR_HEX: &str = "93e02b6052719f607dacd3a088274f65596bd0d09920b61ab5da61bbdc7f5049334cf11213945d57e5ac7d055d042b7e024aa2b2f08f0a91260805272dc51051c6e47ad4fa403b02b4510b647ae3d1770bac0326a805bbefd48056c8c121bdb8";

fn hex_bytes(s: &str) -> Vec<u8> {
    let nibbles: Vec<u8> = s
        .bytes()
        .map(|c| match c {
            b'0'..=b'9' => c - b'0',
            b'a'..=b'f' => c - b'a' + 10,
            b'A'..=b'F' => c - b'A' + 10,
            _ => panic!("not a hex digit"),
        })
        .collect();
    nibbles.chunks(2).map(|p| p[0] * 16 + p[1]).collect()
}

fn to_hex(b: &[u8]) -> String {
    let digits = b"0123456789abcdef";
    let mut s = String::new();
    for &x in b {
        s.push(digits[(x >> 4) as usize] as char);
        s.push(digits[(x & 15) as usize] as char);
    }
    s
}

fn g1_identity_bytes() -> Vec<u8> {
    let mut b = vec![0u8; 48];
    b[0] = 0xc0;
    b
}

fn g2_identity_bytes() -> Vec<u8> {
    let mut b = vec![0u8; 96];
    b[0] = 0xc0;
    b
}

#[test]
fn g1_identity_scenario() {
    let bytes = g1_identity_bytes();
    let id = blst_p1_uncompress(&bytes).expect("identity encoding must decompress");
    assert_eq!(id.compress(), bytes);
    let sum = blst_p1_add_or_double(id.clone(), id);
    assert_eq!(sum.compress(), bytes);
}

#[test]
fn g1_length_gate() {
    let expected = Error::Blst(BlstErrorCode::BadEncoding);
    assert_eq!(blst_p1_uncompress(&[0u8; 47]).err().unwrap(), expected);
    assert_eq!(blst_p1_uncompress(&[0u8; 49]).err().unwrap(), expected);
    let mut with_flags = vec![0u8; 47];
    with_flags[0] = 0xc0;
    assert_eq!(blst_p1_uncompress(&with_flags).err().unwrap(), expected);
    let mut long_with_flags = vec![0u8; 49];
    long_with_flags[0] = 0xc0;
    assert_eq!(blst_p1_uncompress(&long_with_flags).err().unwrap(), expected);
    assert_eq!(blst_p1_uncompress(&[]).err().unwrap(), expected);
    assert_eq!(blst_p1_uncompress(&g2_identity_bytes()).err().unwrap(), expected);
}

#[test]
fn g1_generator_round_trip() {
    let bytes = hex_bytes(G1_GENERATOR_HEX);
    let gen = blst_p1_uncompress(&bytes).expect("generator must decompress");
    assert_eq!(to_hex(&gen.compress()), G1_GENERATOR_HEX);
}

#[test]
fn g1_add_identity() {
    let gen = blst_p1_uncompress(&hex_bytes(G1_GENERATOR_HEX)).unwrap();
    let id = blst_p1_uncompress(&g1_identity_bytes()).unwrap();
    let left = blst_p1_add_or_double(id.clone(), gen.clone());
    assert_eq!(to_hex(&left.compress()), G1_GENERATOR_HEX);
    let right = blst_p1_add_or_double(gen, id);
    assert_eq!(to_hex(&right.compress()), G1_GENERATOR_HEX);
}

#[test]
fn g1_doubling() {
    let gen = blst_p1_uncompress(&hex_bytes(G1_GENERATOR_HEX)).unwrap();
    let doubled = blst_p1_add_or_double(gen.clone(), gen);
    assert_eq!(to_hex(&doubled.compress()), G1_GENERATOR_DOUBLED_HEX);
}

#[test]
fn g1_closure_round_trip() {
    let gen = blst_p1_uncompress(&hex_bytes(G1_GENERATOR_HEX)).unwrap();
    let doubled = blst_p1_add_or_double(gen.clone(), gen.clone());
    let sum = blst_p1_add_or_double(gen, doubled);
    let bytes = sum.compress();
    let back = blst_p1_uncompress(&bytes).expect("sum of valid elements must round-trip");
    assert_eq!(back.compress(), bytes);
}

#[test]
fn g1_clone_preserves_encoding() {
    let gen = blst_p1_uncompress(&hex_bytes(G1_GENERATOR_HEX)).unwrap();
    assert_eq!(to_hex(&gen.clone().compress()), G1_GENERATOR_HEX);
}

#[test]
fn g1_bad_encoding_missing_flag() {
    // 48 bytes without the compression bit are rejected before any curve math.
    assert_eq!(
        blst_p1_uncompress(&[0u8; 48]).err().unwrap(),
        Error::Blst(BlstErrorCode::BadEncoding)
    );
}

#[test]
fn g1_subgroup_gate() {
    // Points with small x-coordinates lie on the curve with fair probability
    // but in the prime-order subgroup only with negligible probability, so a
    // scan of small x values must produce subgroup failures and no success.
    let mut not_in_group = 0;
    let mut not_on_curve = 0;
    for x in 0u8..=40 {
        let mut bytes = vec![0u8; 48];
        bytes[0] = 0x80;
        bytes[47] = x;
        match blst_p1_uncompress(&bytes) {
            Ok(_) => panic!("a small-x point slipped past the subgroup gate"),
            Err(Error::Blst(BlstErrorCode::PointNotInGroup)) => not_in_group += 1,
            Err(Error::Blst(BlstErrorCode::PointNotOnCurve)) => not_on_curve += 1,
            Err(other) => panic!("unexpected error {:?}", other),
        }
    }
    assert!(not_in_group > 0);
    assert!(not_on_curve > 0);
}

#[test]
fn g2_identity_scenario() {
    let bytes = g2_identity_bytes();
    let id = blst_p2_uncompress(&bytes).expect("identity encoding must decompress");
    assert_eq!(id.compress(), bytes);
    let sum = blst_p2_add_or_double(id.clone(), id);
    assert_eq!(sum.compress(), bytes);
}

#[test]
fn g2_length_gate() {
    let expected = Error::Blst(BlstErrorCode::BadEncoding);
    assert_eq!(blst_p2_uncompress(&[0u8; 95]).err().unwrap(), expected);
    assert_eq!(blst_p2_uncompress(&[0u8; 97]).err().unwrap(), expected);
    assert_eq!(blst_p2_uncompress(&[]).err().unwrap(), expected);
    assert_eq!(blst_p2_uncompress(&g1_identity_bytes()).err().unwrap(), expected);
}

#[test]
fn g2_generator_round_trip() {
    let bytes = hex_bytes(G2_GENERATOR_HEX);
    let gen = blst_p2_uncompress(&bytes).expect("generator must decompress");
    assert_eq!(to_hex(&gen.compress()), G2_GENERATOR_HEX);
}

#[test]
fn g2_add_identity() {
    let gen = blst_p2_uncompress(&hex_bytes(G2_GENERATOR_HEX)).unwrap();
    let id = blst_p2_uncompress(&g2_identity_bytes()).unwrap();
    let left = blst_p2_add_or_double(id.clone(), gen.clone());
    assert_eq!(to_hex(&left.compress()), G2_GENERATOR_HEX);
    let right = blst_p2_add_or_double(gen, id);
    assert_eq!(to_hex(&right.compress()), G2_GENERATOR_HEX);
}

#[test]
fn g2_closure_round_trip() {
    let gen = blst_p2_uncompress(&hex_bytes(G2_GENERATOR_HEX)).unwrap();
    let doubled = blst_p2_add_or_double(gen.clone(), gen.clone());
    let sum = blst_p2_add_or_double(gen, doubled);
    let bytes = sum.compress();
    let back = blst_p2_uncompress(&bytes).expect("sum of valid elements must round-trip");
    assert_eq!(back.compress(), bytes);
}

#[test]
fn g2_bad_encoding_missing_flag() {
    assert_eq!(
        blst_p2_uncompress(&[0u8; 96]).err().unwrap(),
        Error::Blst(BlstErrorCode::BadEncoding)
    );
}

#[test]
fn g2_subgroup_gate() {
    let mut not_in_group = 0;
    for x in 0u8..=40 {
        let mut bytes = vec![0u8; 96];
        bytes[0] = 0x80;
        bytes[95] = x;
        match blst_p2_uncompress(&bytes) {
            Ok(_) => panic!("a small-x point slipped past the subgroup gate"),
            Err(Error::Blst(BlstErrorCode::PointNotInGroup)) => not_in_group += 1,
            Err(Error::Blst(BlstErrorCode::PointNotOnCurve)) => (),
            Err(other) => panic!("unexpected error {:?}", other),
        }
    }
    assert!(not_in_group > 0);
}
