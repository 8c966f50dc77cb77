use access_gate::address::Address;
use access_gate::error::AccessError;
use access_gate::helpers::ZkAccessHelper;
use soroban_sdk::testutils::{EnvTestConfig, Ledger};
use soroban_sdk::Env;

fn quiet_env() -> Env {
    Env::new_with_config(EnvTestConfig {
        capture_snapshot_at_drop: false,
    })
}

fn counting<const N: usize>(start: u8) -> [u8; N] {
    let mut buf = [0u8; N];
    for (i, b) in buf.iter_mut().enumerate() {
        *b = start.wrapping_add(i as u8);
    }
    buf
}

#[test]
fn to_bytesn32_copies_thirty_two_bytes() {
    let bytes: Vec<u8> = (0u8..32).collect();
    let out = ZkAccessHelper::to_bytesn32(&bytes);
    assert_eq!(out, Ok(counting::<32>(0)));
}

#[test]
fn to_bytesn32_rejects_a_short_buffer() {
    assert_eq!(
        ZkAccessHelper::to_bytesn32(&[1u8; 31]),
        Err(AccessError::MalformedInput)
    );
}

#[test]
fn to_bytesn32_rejects_a_long_buffer() {
    assert_eq!(
        ZkAccessHelper::to_bytesn32(&[1u8; 33]),
        Err(AccessError::MalformedInput)
    );
}

#[test]
fn to_bytesn32_rejects_an_empty_buffer() {
    assert_eq!(
        ZkAccessHelper::to_bytesn32(&[]),
        Err(AccessError::MalformedInput)
    );
}

#[test]
fn request_splits_the_buffers_into_coordinates() {
    let proof_a: [u8; 64] = counting(0);
    let proof_b: [u8; 128] = counting(64);
    let proof_c: [u8; 64] = counting(192);
    let first = [0xa1u8; 32];
    let second = [0xb2u8; 32];
    let request = ZkAccessHelper::create_request(
        Address::from_bytes(b"alice".to_vec()),
        [7; 32],
        proof_a,
        proof_b,
        proof_c,
        &[&first, &second],
        1_700_000_000,
    );
    assert_eq!(request.user.as_bytes(), b"alice");
    assert_eq!(request.resource_id, [7u8; 32]);
    assert_eq!(request.proof.a.x, counting::<32>(0));
    assert_eq!(request.proof.a.y, counting::<32>(32));
    assert_eq!(request.proof.b.x.0, counting::<32>(64));
    assert_eq!(request.proof.b.x.1, counting::<32>(96));
    assert_eq!(request.proof.b.y.0, counting::<32>(128));
    assert_eq!(request.proof.b.y.1, counting::<32>(160));
    assert_eq!(request.proof.c.x, counting::<32>(192));
    assert_eq!(request.proof.c.y, counting::<32>(224));
    assert_eq!(request.public_inputs, vec![first, second]);
    assert_eq!(request.nonce, 0);
    assert_eq!(request.timestamp, 1_700_000_000);
}

#[test]
fn request_without_public_inputs() {
    let request = ZkAccessHelper::create_request(
        Address::from_bytes(Vec::new()),
        [0; 32],
        [0; 64],
        [0; 128],
        [0; 64],
        &[],
        u64::MAX,
    );
    assert!(request.public_inputs.is_empty());
    assert_eq!(request.user.as_bytes(), b"");
    assert_eq!(request.nonce, 0);
    assert_eq!(request.timestamp, u64::MAX);
}

#[test]
fn create_request_keeps_the_time_it_is_given() {
    let input = [3u8; 32];
    for timestamp in [0u64, 1, 1_712_345_678, u64::MAX - 1, u64::MAX] {
        let request = ZkAccessHelper::create_request(
            Address::from_bytes(b"bob".to_vec()),
            [9; 32],
            counting(1),
            counting(2),
            counting(3),
            &[&input],
            timestamp,
        );
        assert_eq!(request.timestamp, timestamp);
        assert_eq!(request.nonce, 0);
        assert_eq!(request.proof.a.x, counting::<32>(1));
        assert_eq!(request.proof.b.y.1, counting::<32>(98));
        assert_eq!(request.proof.c.y, counting::<32>(35));
    }
}

#[test]
fn create_request_with_the_time_of_a_ledger() {
    let env = quiet_env();
    env.ledger().set_timestamp(10);
    let early = ZkAccessHelper::create_request(
        Address::from_bytes(b"bob".to_vec()),
        [0; 32],
        [0; 64],
        [0; 128],
        [0; 64],
        &[],
        env.ledger().timestamp(),
    );
    env.ledger().set_timestamp(20);
    let late = ZkAccessHelper::create_request(
        Address::from_bytes(b"bob".to_vec()),
        [0; 32],
        [0; 64],
        [0; 128],
        [0; 64],
        &[],
        env.ledger().timestamp(),
    );
    assert_eq!(early.timestamp, 10);
    assert_eq!(late.timestamp, 20);
}

#[test]
fn create_request_on_a_ledger_at_the_end_of_time_with_no_budget() {
    let env = quiet_env();
    env.ledger().set_timestamp(u64::MAX);
    env.cost_estimate().budget().reset_limits(0, 0);
    // Read from the ledger header itself: on this host the metered read
    // has no budget to make a host value of so large a time.
    let now = env.ledger().get().timestamp;
    let input = [3u8; 32];
    let request = ZkAccessHelper::create_request(
        Address::from_bytes(b"bob".to_vec()),
        [9; 32],
        counting(1),
        counting(2),
        counting(3),
        &[&input],
        now,
    );
    assert_eq!(request.timestamp, u64::MAX);
    assert_eq!(request.nonce, 0);
    assert_eq!(request.user.as_bytes(), b"bob");
    assert_eq!(request.resource_id, [9u8; 32]);
    assert_eq!(request.proof.a.y, counting::<32>(33));
    assert_eq!(request.public_inputs, vec![input]);
}

#[test]
fn a_cloned_request_keeps_every_field() {
    let input = [5u8; 32];
    let request = ZkAccessHelper::create_request(
        Address::from_bytes(b"carol".to_vec()),
        [1; 32],
        counting(0),
        counting(0),
        counting(0),
        &[&input, &input],
        42,
    );
    let copy = request.clone();
    assert_eq!(copy.user.as_bytes(), request.user.as_bytes());
    assert_eq!(copy.resource_id, request.resource_id);
    assert_eq!(copy.proof, request.proof);
    assert_eq!(copy.public_inputs, request.public_inputs);
    assert_eq!(copy.nonce, request.nonce);
    assert_eq!(copy.timestamp, request.timestamp);
}

#[test]
fn the_preimage_of_a_request_starts_with_its_buffers() {
    let proof_a: [u8; 64] = counting(10);
    let proof_b: [u8; 128] = counting(20);
    let proof_c: [u8; 64] = counting(30);
    let input = [0x77u8; 32];
    let request = ZkAccessHelper::create_request(
        Address::from_bytes(b"dave".to_vec()),
        [8; 32],
        proof_a,
        proof_b,
        proof_c,
        &[&input],
        5,
    );
    let buf = ZkAccessHelper::preimage(
        &request.proof,
        &request.public_inputs,
        &request.user,
        &request.resource_id,
    );
    let mut expected: Vec<u8> = Vec::new();
    expected.extend_from_slice(&proof_a);
    expected.extend_from_slice(&proof_b);
    expected.extend_from_slice(&proof_c);
    expected.extend_from_slice(&input);
    expected.extend_from_slice(b"dave");
    expected.extend_from_slice(&[8; 32]);
    assert_eq!(buf, expected);
}
