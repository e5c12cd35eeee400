use field_math::kilt::{
    claim_bytes, digest_head, digest_tail, message_bytes, salted_head, salted_preimage_bytes,
    salted_tail,
};
use field_math::{khash_a, khash_b, kvalid_a, kvalid_b};

fn hex_of(bytes: &[u8]) -> String {
    let mut s = String::new();
    for b in bytes {
        s.push_str(&format!("{:02x}", b));
    }
    s
}

fn bytes_of(hex: &str) -> Vec<u8> {
    (0..hex.len() / 2).map(|i| u8::from_str_radix(&hex[2 * i..2 * i + 2], 16).unwrap()).collect()
}

const CTYPE_1: u128 = 0x0123456789abcdef0123456789abcdef;
const CTYPE_2: u128 = 0xfedcba9876543210fedcba9876543210;
const NAME: u128 = 0x6e616d65;

#[test]
fn claim_text_layout() {
    let text = claim_bytes(42, CTYPE_1, CTYPE_2, NAME);
    assert_eq!(
        String::from_utf8(text).unwrap(),
        "{\"kilt:ctype:0x0123456789abcdef0123456789abcdeffedcba9876543210fedcba9876543210#name\":42}"
    );
    let text = claim_bytes(0, 0, 1, 0x416765);
    assert_eq!(
        String::from_utf8(text).unwrap(),
        "{\"kilt:ctype:0x0000000000000000000000000000000000000000000000000000000000000001#Age\":0}"
    );
    let text = claim_bytes(u128::MAX, u128::MAX, 0, 0xc3a9);
    assert_eq!(
        String::from_utf8(text).unwrap(),
        "{\"kilt:ctype:0xffffffffffffffffffffffffffffffff00000000000000000000000000000000#\u{e9}\":340282366920938463463374607431768211455}"
    );
}

#[test]
fn message_text_layout() {
    let digest = bytes_of("3613c8f35b2c3dc164e2ced751a0c038a22638a86318fc405f091eb8324826e0");
    let text = message_bytes(0x12345678, 0xabc, 0x1, 0xdef0, 0x123456789abc, &digest);
    assert_eq!(
        String::from_utf8(text).unwrap(),
        "12345678-0abc-0001-def0-123456789abc0x3613c8f35b2c3dc164e2ced751a0c038a22638a86318fc405f091eb8324826e0"
    );
    // odd digit counts are padded to even, then to the group's width
    let text = message_bytes(0, 5, 0x12345, 0x1234, 0xfff, &[0xab]);
    assert_eq!(String::from_utf8(text).unwrap(), "00000000-0005-012345-1234-000000000fff0xab");
    let text = message_bytes(u128::MAX, 0, 0, 0, 0, &[]);
    assert_eq!(
        String::from_utf8(text).unwrap(),
        "ffffffffffffffffffffffffffffffff-0000-0000-0000-0000000000000x"
    );
}

#[test]
fn digest_halves() {
    let digest = bytes_of("0e5751c026e543b2e8ab2eb06099daa1d1e5df47778f7787faab45cdf12fe3a8");
    assert_eq!(0x0e5751c026e543b2e8ab2eb06099daa1, digest_head(&digest));
    assert_eq!(0xd1e5df47778f7787faab45cdf12fe3a8, digest_tail(&digest));
}

#[test]
fn claim_hash_values() {
    let args = (0x12345678u128, 0xabcu128, 0x1u128, 0xdef0u128, 0x123456789abcu128);
    let a = kvalid_a(args.0, args.1, args.2, args.3, args.4, 42, CTYPE_1, CTYPE_2, NAME);
    let b = kvalid_b(args.0, args.1, args.2, args.3, args.4, 42, CTYPE_1, CTYPE_2, NAME);
    assert_eq!(227131364840250798382156637963863859388, a);
    assert_eq!(255259451002368393544993696192280970392, b);

    let a = kvalid_a(0, 5, 0x12345, 0x1234, 0xfff, 0, 0, 1, 0x416765);
    let b = kvalid_b(0, 5, 0x12345, 0x1234, 0xfff, 0, 0, 1, 0x416765);
    assert_eq!(316030011152637903294887874024370094683, a);
    assert_eq!(296015148614828486959486225097301805647, b);
}

#[test]
fn claim_hash_depends_on_content() {
    let a1 = kvalid_a(1, 2, 3, 4, 5, 42, CTYPE_1, CTYPE_2, NAME);
    let a2 = kvalid_a(1, 2, 3, 4, 5, 43, CTYPE_1, CTYPE_2, NAME);
    assert_ne!(a1, a2);
    assert_eq!(a1, kvalid_a(1, 2, 3, 4, 5, 42, CTYPE_1, CTYPE_2, NAME));
}

#[test]
fn salted_preimage_is_sorted() {
    let values: Vec<u128> = vec![3, 4, 1, 2, u128::MAX, 7];
    let preimage = salted_preimage_bytes(&values, 3);
    assert_eq!(
        hex_of(&preimage),
        "00000000000000000000000000000001000000000000000000000000000000020000000000000000000000000000000300000000000000000000000000000004ffffffffffffffffffffffffffffffff00000000000000000000000000000007"
    );
    // an odd trailing element is left out
    let values: Vec<u128> = vec![5, 6, 9];
    assert_eq!(
        hex_of(&salted_preimage_bytes(&values, 1)),
        "0000000000000000000000000000000500000000000000000000000000000006"
    );
    assert!(salted_preimage_bytes(&Vec::new(), 0).is_empty());
}

#[test]
fn salted_digest_halves() {
    let hex = "0E5751C026E543B2E8AB2EB06099DAA1D1E5DF47778F7787FAAB45CDF12FE3A8";
    assert_eq!(0x0e5751c026e543b2e8ab2eb06099daa1, salted_head(hex));
    assert_eq!(0xd1e5df47778f7787faab45cdf12fe3a8, salted_tail(hex));
    let lower = "0e5751c026e543b2e8ab2eb06099daa1d1e5df47778f7787faab45cdf12fe3a8";
    assert_eq!(0x0e5751c026e543b2e8ab2eb06099daa1, salted_head(lower));
}

#[test]
fn salted_hash_values() {
    let values: Vec<u128> = vec![3, 4, 1, 2, u128::MAX, 7];
    assert_eq!(322229481024871607115226845351730466072, khash_a(&values, 3));
    assert_eq!(304334364772264323508293179414646563954, khash_b(&values, 3));

    let values: Vec<u128> = vec![5, 6, 9];
    assert_eq!(172659382785673872861955393023778565081, khash_a(&values, 1));
    assert_eq!(173696236163295622346489857333487708124, khash_b(&values, 1));

    let empty: Vec<u128> = Vec::new();
    assert_eq!(19062579866704044833135815164325124769, khash_a(&empty, 0));
    assert_eq!(279002215739195202830031142706759066536, khash_b(&empty, 0));
}

#[test]
fn salted_hash_ignores_entry_order() {
    let v1: Vec<u128> = vec![3, 4, 1, 2, u128::MAX, 7];
    let v2: Vec<u128> = vec![u128::MAX, 7, 1, 2, 3, 4];
    assert_eq!(khash_a(&v1, 3), khash_a(&v2, 3));
    assert_eq!(khash_b(&v1, 3), khash_b(&v2, 3));
    // swapping the two halves of an entry does change it
    let v3: Vec<u128> = vec![4, 3, 1, 2, u128::MAX, 7];
    assert_ne!(khash_a(&v1, 3), khash_a(&v3, 3));
}

#[test]
fn digest_halves_join() {
    let args = (0x12345678u128, 0xabcu128, 0x1u128, 0xdef0u128, 0x123456789abcu128);
    let a = kvalid_a(args.0, args.1, args.2, args.3, args.4, 42, CTYPE_1, CTYPE_2, NAME);
    let b = kvalid_b(args.0, args.1, args.2, args.3, args.4, 42, CTYPE_1, CTYPE_2, NAME);
    assert_eq!(
        format!("{:032x}{:032x}", a, b),
        "aadfe8e126c3de4423839e8f2a6a20bcc0092e9957d8a4537ac399c083b0c498"
    );
    let empty: Vec<u128> = Vec::new();
    assert_eq!(
        format!("{:032x}{:032x}", khash_a(&empty, 0), khash_b(&empty, 0)),
        "0e5751c026e543b2e8ab2eb06099daa1d1e5df47778f7787faab45cdf12fe3a8"
    );
}
