use hackathon::checksum::Checksum;
use sha2::Digest;

fn sha(name: &str) -> Vec<u8> {
    sha2::Sha256::digest(name.as_bytes()).to_vec()
}

fn xor(a: &[u8], b: &[u8]) -> Vec<u8> {
    a.iter().zip(b.iter()).map(|(x, y)| x ^ y).collect()
}

fn hex(bytes: &[u8]) -> String {
    let mut s = String::new();
    for b in bytes {
        s += &format!("{:02x}", b);
    }
    s
}

#[test]
fn sha256_digest_matches_the_known_value() {
    // The SHA-256 digest of "abc" is a published test vector.
    let c = Checksum::with_sha256("abc");
    assert_eq!(
        c.to_hex(),
        "ba7816bf8f01cfea414140de5dae2223b00361a396177a9cb410ff61f20015ad"
    );
}

#[test]
fn default_is_the_identity() {
    let zero = Checksum::default();
    assert_eq!(zero.to_hex(), "0".repeat(64));
    let x = Checksum::with_sha256("left-pad");
    let merged = zero.combine(&x);
    assert!(merged == x);
    let merged_other_way = x.combine(&zero);
    assert!(merged_other_way == x);
}

#[test]
fn update_order_does_not_matter() {
    let names = ["left-pad", "is-even", "left-pad", "chalk", "express"];
    let mut forward = Checksum::default();
    for n in &names {
        forward.update(Checksum::with_sha256(n));
    }
    let mut backward = Checksum::default();
    for n in names.iter().rev() {
        backward.update(Checksum::with_sha256(n));
    }
    assert!(forward == backward);
    let permuted_names = ["is-even", "chalk", "express", "left-pad", "left-pad"];
    let mut permuted = Checksum::default();
    for n in &permuted_names {
        permuted.update(Checksum::with_sha256(n));
    }
    assert!(forward == permuted);
}

#[test]
fn combine_merges_partial_accumulators() {
    let mut left = Checksum::default();
    left.update(Checksum::with_sha256("App for Students"));
    let mut right = Checksum::default();
    right.update(Checksum::with_sha256("Bot for Farmers"));
    let merged = left.combine(&right);
    let expected = xor(&sha("App for Students"), &sha("Bot for Farmers"));
    assert_eq!(merged.to_hex(), hex(&expected));
}

#[test]
fn update_folds_by_exclusive_or() {
    let mut c = Checksum::default();
    c.update(Checksum::with_sha256("left-pad"));
    assert_eq!(c.to_hex(), hex(&sha("left-pad")));
    c.update(Checksum::with_sha256("left-pad"));
    // Folding the same digest twice cancels out.
    assert_eq!(c.to_hex(), "0".repeat(64));
}

#[test]
fn equality_is_by_value() {
    let a = Checksum::with_sha256("is-even");
    let b = Checksum::with_sha256("is-even");
    let c = Checksum::with_sha256("is-odd");
    assert!(a == b);
    assert!(a != c);
    assert!(a == a.clone());
}
