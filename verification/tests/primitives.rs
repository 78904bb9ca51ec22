use scrt_finance::constants::{INC_TOKEN_SCALE, RESPONSE_BLOCK_SIZE, REWARD_DUST, REWARD_SCALE};
use scrt_finance::error::{enforce_admin, ContractError};
use scrt_finance::padding::{pad_response, pad_to_block};
use scrt_finance::store::Store;
use scrt_finance::text::{decimal, hex_encode};
use scrt_finance::types::Env;
use scrt_finance::viewing_key::{ct_slice_compare, ViewingKey, VIEWING_KEY_SIZE};

#[test]
fn constants_have_their_values() {
    assert_eq!(INC_TOKEN_SCALE, 10u128.pow(12));
    assert_eq!(REWARD_SCALE, 10u128.pow(12));
    assert_eq!(REWARD_DUST, 10u128.pow(6));
    assert_eq!(RESPONSE_BLOCK_SIZE, 256);
}

#[test]
fn padding_fills_the_last_block_with_zeros() {
    let mut message = b"abc".to_vec();
    pad_to_block(&mut message, 8);
    assert_eq!(message, vec![b'a', b'b', b'c', 0, 0, 0, 0, 0]);
    pad_to_block(&mut message, 8);
    assert_eq!(message.len(), 8);
    pad_to_block(&mut message, 3);
    assert_eq!(message.len(), 9);
    assert_eq!(message[8], 0);

    let mut empty: Vec<u8> = vec![];
    pad_to_block(&mut empty, 4);
    assert!(empty.is_empty());

    let mut response = b"{\"redeem\":{\"status\":\"success\"}}".to_vec();
    let len = response.len();
    pad_response(&mut response);
    assert_eq!(response.len(), 256);
    assert_eq!(&response[..len], b"{\"redeem\":{\"status\":\"success\"}}");
    assert!(response[len..].iter().all(|byte| *byte == 0));
    let mut long = vec![1u8; 257];
    pad_response(&mut long);
    assert_eq!(long.len(), 512);
}

#[test]
fn viewing_key_is_stored_as_its_sha_256() {
    let key = ViewingKey("test".to_string());
    let expected: [u8; 32] = [
        159, 134, 208, 129, 136, 76, 125, 101, 154, 47, 234, 160, 197, 90, 208, 21, 163, 191, 79,
        27, 43, 11, 130, 44, 209, 93, 108, 21, 176, 240, 10, 8,
    ];
    assert_eq!(key.to_hashed(), expected.to_vec());
    assert_eq!(key.to_hashed().len(), VIEWING_KEY_SIZE);
    assert!(key.check_viewing_key(&expected));
    assert!(!key.check_viewing_key(&[0u8; 32]));
    assert!(!key.check_viewing_key(&expected[..31]));
    assert!(!ViewingKey("tesu".to_string()).check_viewing_key(&expected));
}

#[test]
fn new_viewing_keys_depend_on_everything_they_are_made_from() {
    let env = Env {
        sender: "addr".to_string(),
        block_height: 5,
        block_time: 6,
        contract_address: "pool".to_string(),
        contract_code_hash: "".to_string(),
    };
    let key = ViewingKey::new(&env, b"seed", "entropy");
    assert_eq!(key, ViewingKey::new(&env, b"seed", "entropy"));
    assert_eq!(key.0.len(), 64);
    // The digest of "seed", the two numbers in little-endian, "addr" and "entropy".
    let mut material = b"seed".to_vec();
    material.extend_from_slice(&5u64.to_le_bytes());
    material.extend_from_slice(&6u64.to_le_bytes());
    material.extend_from_slice(b"addr");
    material.extend_from_slice(b"entropy");
    let digest = ViewingKey(String::from_utf8(material).unwrap()).to_hashed();
    assert_eq!(key.0, hex_encode(&digest));

    assert_ne!(key, ViewingKey::new(&env, b"seed2", "entropy"));
    assert_ne!(key, ViewingKey::new(&env, b"seed", "entropy2"));
    assert_ne!(key, ViewingKey::new(&Env { block_height: 7, ..env }, b"seed", "entropy"));
}

#[test]
fn slices_compare_by_content() {
    assert!(ct_slice_compare(b"", b""));
    assert!(ct_slice_compare(b"abc", b"abc"));
    assert!(!ct_slice_compare(b"abc", b"abd"));
    assert!(!ct_slice_compare(b"abc", b"bbc"));
    assert!(!ct_slice_compare(b"abc", b"ab"));
    assert!(!ct_slice_compare(&[0x0f], &[0xf0]));
}

#[test]
fn numbers_and_bytes_as_text() {
    assert_eq!(decimal(0), "0");
    assert_eq!(decimal(7), "7");
    assert_eq!(decimal(10), "10");
    assert_eq!(decimal(10000001), "10000001");
    assert_eq!(decimal(u128::MAX), "340282366920938463463374607431768211455");
    assert_eq!(hex_encode(&[]), "");
    assert_eq!(hex_encode(&[0x00, 0x0f, 0xa5, 0xff]), "000fa5ff");
}

#[test]
fn admin_is_enforced_by_address() {
    assert_eq!(enforce_admin(&"admin".to_string(), &"admin".to_string()), Ok(()));
    assert_eq!(
        enforce_admin(&"admin".to_string(), &"Admin".to_string()),
        Err(ContractError::NotAdmin { sender: "Admin".to_string() })
    );
}

#[test]
fn store_keeps_one_record_per_address() {
    let mut store: Store<u64> = Store::new();
    assert_eq!(store.len(), 0);
    assert_eq!(store.get(&"a".to_string()), None);
    store.insert("a".to_string(), 1);
    store.insert("b".to_string(), 2);
    store.insert("a".to_string(), 3);
    assert_eq!(store.len(), 2);
    assert_eq!(store.get(&"a".to_string()), Some(&3));
    assert_eq!(store.get(&"b".to_string()), Some(&2));
    assert_eq!(store.find(&"b".to_string()), Some(1));
    assert_eq!(store.find(&"c".to_string()), None);
    assert_eq!(store.entry_at(0).key, "a");
    assert_eq!(store.entry_at(0).value, 3);

    store.remove(&"c".to_string());
    assert_eq!(store.len(), 2);

    let mut copy = store.duplicate();
    copy.insert("c".to_string(), 4);
    assert_eq!(copy.len(), 3);
    assert_eq!(store.len(), 2);
    assert_eq!(copy.get(&"a".to_string()), Some(&3));
    copy.remove(&"a".to_string());
    assert_eq!(copy.len(), 2);
    assert_eq!(copy.get(&"a".to_string()), None);
    assert_eq!(copy.get(&"b".to_string()), Some(&2));
    assert_eq!(copy.get(&"c".to_string()), Some(&4));
}
