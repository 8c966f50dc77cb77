use access_gate::address::Address;
use access_gate::helpers::ZkAccessHelper;
use access_gate::points::{G1Point, G2Point};
use access_gate::Proof;

fn hex(bytes: &[u8]) -> String {
    let mut out = String::new();
    for b in bytes {
        out.push_str(&format!("{:02x}", b));
    }
    out
}

fn zero_proof() -> Proof {
    Proof {
        a: G1Point { x: [0; 32], y: [0; 32] },
        b: G2Point { x: ([0; 32], [0; 32]), y: ([0; 32], [0; 32]) },
        c: G1Point { x: [0; 32], y: [0; 32] },
    }
}

fn sample_proof() -> Proof {
    Proof {
        a: G1Point { x: [1; 32], y: [2; 32] },
        b: G2Point { x: ([3; 32], [4; 32]), y: ([5; 32], [6; 32]) },
        c: G1Point { x: [7; 32], y: [8; 32] },
    }
}

fn sample_inputs() -> Vec<[u8; 32]> {
    vec![[9; 32], [10; 32]]
}

fn fixed_user() -> Address {
    Address::from_bytes(b"GDQP2KPQGKIHYJGXNUIYOMHARUARCA7DJT5FO2FFOOKY3B2WSQHG4W37".to_vec())
}

fn alice() -> Address {
    Address::from_bytes(b"alice".to_vec())
}

const BASE: &str = "8f8f922b3447eb4dc2534affa6e4344b6d2e5b690f4bd5f8bd6865e73cb82bcb";

#[test]
fn zero_proof_has_the_expected_nullifier() {
    let digest =
        ZkAccessHelper::compute_nullifier(&zero_proof(), &Vec::new(), &fixed_user(), &[1; 32]);
    assert_eq!(
        hex(&digest),
        "443f2be4994c933cd074c0b34c92ffd977299cb67d0ce6668342115865d714b0"
    );
}

#[test]
fn repeated_calls_return_the_same_nullifier() {
    let first =
        ZkAccessHelper::compute_nullifier(&zero_proof(), &Vec::new(), &fixed_user(), &[1; 32]);
    let second =
        ZkAccessHelper::compute_nullifier(&zero_proof(), &Vec::new(), &fixed_user(), &[1; 32]);
    assert_eq!(first, second);
    let third = ZkAccessHelper::compute_nullifier(
        &sample_proof(),
        &sample_inputs(),
        &alice(),
        &[11; 32],
    );
    let fourth = ZkAccessHelper::compute_nullifier(
        &sample_proof(),
        &sample_inputs(),
        &Address::from_bytes(vec![b'a', b'l', b'i', b'c', b'e']),
        &[11; 32],
    );
    assert_eq!(third, fourth);
}

#[test]
fn another_resource_has_another_nullifier() {
    let d = ZkAccessHelper::compute_nullifier(&zero_proof(), &Vec::new(), &fixed_user(), &[1; 32]);
    let d2 =
        ZkAccessHelper::compute_nullifier(&zero_proof(), &Vec::new(), &fixed_user(), &[2; 32]);
    assert_ne!(d, d2);
    assert_eq!(
        hex(&d2),
        "371a7608520831f76edfd8c8b7a70bf0ff581be3bfee1d98e9329d7d0119a5c5"
    );
}

#[test]
fn sample_context_has_the_expected_nullifier() {
    let digest = ZkAccessHelper::compute_nullifier(
        &sample_proof(),
        &sample_inputs(),
        &alice(),
        &[11; 32],
    );
    assert_eq!(hex(&digest), BASE);
}

#[test]
fn flipping_a_bit_of_the_first_coordinate_changes_the_nullifier() {
    let mut proof = sample_proof();
    proof.a.x[0] ^= 1;
    let digest =
        ZkAccessHelper::compute_nullifier(&proof, &sample_inputs(), &alice(), &[11; 32]);
    assert_ne!(hex(&digest), BASE);
    assert_eq!(
        hex(&digest),
        "c0c0fdd409052eb984a2e9c37eeae36431690c4417e00686e3968d4aae84b15a"
    );
}

#[test]
fn flipping_a_bit_of_the_second_point_changes_the_nullifier() {
    let mut proof = sample_proof();
    proof.b.y.1[31] ^= 0x80;
    let digest =
        ZkAccessHelper::compute_nullifier(&proof, &sample_inputs(), &alice(), &[11; 32]);
    assert_ne!(hex(&digest), BASE);
    assert_eq!(
        hex(&digest),
        "bb37a30543c46d5621054c57d1bdf25652ebb45e77ff72da3e57566ee5afc238"
    );
}

#[test]
fn flipping_a_bit_of_the_last_coordinate_changes_the_nullifier() {
    let mut proof = sample_proof();
    proof.c.y[16] ^= 1;
    let digest =
        ZkAccessHelper::compute_nullifier(&proof, &sample_inputs(), &alice(), &[11; 32]);
    assert_ne!(hex(&digest), BASE);
    assert_eq!(
        hex(&digest),
        "fae24c137d81dd7946097bdc4c6255cd0c317b3e827a5ecee7943e67ef49f970"
    );
}

#[test]
fn flipping_a_bit_of_a_public_input_changes_the_nullifier() {
    let mut inputs = sample_inputs();
    inputs[1][5] ^= 1;
    let digest =
        ZkAccessHelper::compute_nullifier(&sample_proof(), &inputs, &alice(), &[11; 32]);
    assert_ne!(hex(&digest), BASE);
    assert_eq!(
        hex(&digest),
        "88d5cf9ab276ec48ab6b3813cb3f357667f074e4ba3526e54d5d679b9ea59948"
    );
}

#[test]
fn flipping_a_bit_of_the_user_changes_the_nullifier() {
    let user = Address::from_bytes(vec![b'a' ^ 1, b'l', b'i', b'c', b'e']);
    let digest =
        ZkAccessHelper::compute_nullifier(&sample_proof(), &sample_inputs(), &user, &[11; 32]);
    assert_ne!(hex(&digest), BASE);
    assert_eq!(
        hex(&digest),
        "85426a5f989333fe78254f2a3a385fa81f417760857d6c2d4c73746197b39c83"
    );
}

#[test]
fn flipping_a_bit_of_the_resource_id_changes_the_nullifier() {
    let mut resource_id = [11u8; 32];
    resource_id[31] ^= 1;
    let digest = ZkAccessHelper::compute_nullifier(
        &sample_proof(),
        &sample_inputs(),
        &alice(),
        &resource_id,
    );
    assert_ne!(hex(&digest), BASE);
    assert_eq!(
        hex(&digest),
        "e0bf286bfacaf092303236a25f895ce5c5c87120d0bee23561b7b322e55699c2"
    );
}

#[test]
fn the_order_of_the_public_inputs_matters() {
    let swapped: Vec<[u8; 32]> = vec![[10; 32], [9; 32]];
    let digest =
        ZkAccessHelper::compute_nullifier(&sample_proof(), &swapped, &alice(), &[11; 32]);
    assert_ne!(hex(&digest), BASE);
    assert_eq!(
        hex(&digest),
        "e2357717bdb3c493166608fbd34015de0374e4b19520681972ca71c3b8e9d8a5"
    );
}

#[test]
fn the_nullifier_is_not_the_preimage() {
    let buf = ZkAccessHelper::preimage(&zero_proof(), &Vec::new(), &fixed_user(), &[1; 32]);
    let digest =
        ZkAccessHelper::compute_nullifier(&zero_proof(), &Vec::new(), &fixed_user(), &[1; 32]);
    assert_eq!(digest.len(), 32);
    assert_ne!(&digest[..], &buf[..32]);
    assert_ne!(&digest[..], &buf[buf.len() - 32..]);
}

#[test]
fn preimage_lays_the_fields_out_in_order() {
    let buf = ZkAccessHelper::preimage(&sample_proof(), &sample_inputs(), &alice(), &[11; 32]);
    let mut expected: Vec<u8> = Vec::new();
    for value in 1u8..=10 {
        expected.extend_from_slice(&[value; 32]);
    }
    expected.extend_from_slice(b"alice");
    expected.extend_from_slice(&[11; 32]);
    assert_eq!(buf.len(), 357);
    assert_eq!(buf, expected);
}

#[test]
fn preimage_without_inputs_is_proof_user_resource() {
    let buf = ZkAccessHelper::preimage(&zero_proof(), &Vec::new(), &fixed_user(), &[1; 32]);
    assert_eq!(buf.len(), 256 + 56 + 32);
    assert_eq!(&buf[..256], &[0u8; 256][..]);
    assert_eq!(
        &buf[256..312],
        &b"GDQP2KPQGKIHYJGXNUIYOMHARUARCA7DJT5FO2FFOOKY3B2WSQHG4W37"[..]
    );
    assert_eq!(&buf[312..], &[1u8; 32][..]);
}

#[test]
fn preimage_with_an_empty_user() {
    let user = Address::from_bytes(Vec::new());
    let buf = ZkAccessHelper::preimage(&zero_proof(), &vec![[0xff; 32]], &user, &[0x22; 32]);
    assert_eq!(buf.len(), 256 + 32 + 32);
    assert_eq!(&buf[256..288], &[0xffu8; 32][..]);
    assert_eq!(&buf[288..], &[0x22u8; 32][..]);
}

#[test]
fn small_contexts_fit_the_host() {
    assert!(ZkAccessHelper::preimage_fits(&Vec::new(), &Address::from_bytes(Vec::new())));
    assert!(ZkAccessHelper::preimage_fits(&sample_inputs(), &alice()));
    assert!(ZkAccessHelper::preimage_fits(&vec![[0u8; 32]; 1000], &fixed_user()));
}

fn places_that_differ(a: &[u8], b: &[u8]) -> Vec<usize> {
    assert_eq!(a.len(), b.len());
    (0..a.len()).filter(|i| a[*i] != b[*i]).collect()
}

#[test]
fn a_changed_proof_byte_shows_at_its_place_only() {
    let base = ZkAccessHelper::preimage(&sample_proof(), &sample_inputs(), &alice(), &[11; 32]);
    let mut proof = sample_proof();
    proof.b.y.1[31] ^= 0x80;
    let changed = ZkAccessHelper::preimage(&proof, &sample_inputs(), &alice(), &[11; 32]);
    assert_eq!(places_that_differ(&base, &changed), vec![32 * 5 + 31]);
    let mut proof = sample_proof();
    proof.a.x[0] ^= 1;
    let changed = ZkAccessHelper::preimage(&proof, &sample_inputs(), &alice(), &[11; 32]);
    assert_eq!(places_that_differ(&base, &changed), vec![0]);
}

#[test]
fn a_changed_input_byte_shows_at_its_place_only() {
    let base = ZkAccessHelper::preimage(&sample_proof(), &sample_inputs(), &alice(), &[11; 32]);
    let mut inputs = sample_inputs();
    inputs[1][5] ^= 1;
    let changed = ZkAccessHelper::preimage(&sample_proof(), &inputs, &alice(), &[11; 32]);
    assert_eq!(places_that_differ(&base, &changed), vec![256 + 32 + 5]);
}

#[test]
fn a_changed_user_byte_shows_at_its_place_only() {
    let base = ZkAccessHelper::preimage(&sample_proof(), &sample_inputs(), &alice(), &[11; 32]);
    let user = Address::from_bytes(b"alicf".to_vec());
    let changed = ZkAccessHelper::preimage(&sample_proof(), &sample_inputs(), &user, &[11; 32]);
    assert_eq!(places_that_differ(&base, &changed), vec![256 + 64 + 4]);
}

#[test]
fn a_changed_resource_byte_shows_at_its_place_only() {
    let base = ZkAccessHelper::preimage(&sample_proof(), &sample_inputs(), &alice(), &[11; 32]);
    let mut resource_id = [11u8; 32];
    resource_id[7] = 0;
    let changed =
        ZkAccessHelper::preimage(&sample_proof(), &sample_inputs(), &alice(), &resource_id);
    assert_eq!(places_that_differ(&base, &changed), vec![base.len() - 32 + 7]);
}
