//! Tests for the hash and ECDSA blocks, run against the real outside
//! libraries.

use flowblocks::binding::ParamValue;
use flowblocks::context::ExecContext;
use flowblocks::ecdsa::{EcdsaPubKeyBlock, EcdsaSignBlock};
use flowblocks::error::ErrorKind;
use flowblocks::hash::{HashAlgo, HashBlock};
use flowblocks::value::TaggedValue;

fn digest_of(algo: HashAlgo, input: &TaggedValue) -> Vec<u8> {
    let mut block = HashBlock::new(algo);
    let out = block.activate(input).unwrap();
    out.as_bytes().unwrap().clone()
}

#[test]
fn sha2_256_known_vectors() {
    let empty = digest_of(HashAlgo::Sha2_256, &TaggedValue::Bytes(vec![]));
    assert_eq!(
        empty,
        hex::decode("e3b0c44298fc1c149afbf4c8996fb92427ae41e4649b934ca495991b7852b855").unwrap()
    );
    let abc = digest_of(HashAlgo::Sha2_256, &TaggedValue::Str("abc".to_string()));
    assert_eq!(
        abc,
        hex::decode("ba7816bf8f01cfea414140de5dae2223b00361a396177a9cb410ff61f20015ad").unwrap()
    );
}

#[test]
fn keccak_256_known_vector() {
    let empty = digest_of(HashAlgo::Keccak256, &TaggedValue::Bytes(vec![]));
    assert_eq!(
        empty,
        hex::decode("c5d2460186f7233c927e7db2dcc703c0e500b653ca82273b7bfad8045d85a470").unwrap()
    );
}

#[test]
fn digest_lengths_match_the_algorithms() {
    let input = TaggedValue::Bytes(vec![1, 2, 3]);
    assert_eq!(digest_of(HashAlgo::Keccak256, &input).len(), 32);
    assert_eq!(digest_of(HashAlgo::Keccak512, &input).len(), 64);
    assert_eq!(digest_of(HashAlgo::Sha3_256, &input).len(), 32);
    assert_eq!(digest_of(HashAlgo::Sha3_512, &input).len(), 64);
    assert_eq!(digest_of(HashAlgo::Sha2_256, &input).len(), 32);
    assert_eq!(digest_of(HashAlgo::Sha2_512, &input).len(), 64);
}

#[test]
fn distinct_algorithms_disagree() {
    let input = TaggedValue::Bytes(vec![1, 2, 3]);
    assert_ne!(
        digest_of(HashAlgo::Keccak256, &input),
        digest_of(HashAlgo::Sha3_256, &input)
    );
    assert_ne!(
        digest_of(HashAlgo::Sha2_256, &input),
        digest_of(HashAlgo::Sha3_256, &input)
    );
}

#[test]
fn sequence_input_hashes_the_concatenated_chunks() {
    // A sequence of byte and string pieces digests the same as the
    // concatenation handed over in one bytes value; elements of any other
    // shape contribute nothing.
    let parts = TaggedValue::Sequence(vec![
        TaggedValue::Bytes(vec![b'a']),
        TaggedValue::Int(99),
        TaggedValue::Str("bc".to_string()),
    ]);
    let whole = TaggedValue::Bytes(vec![b'a', b'b', b'c']);
    assert_eq!(
        digest_of(HashAlgo::Sha2_256, &parts),
        digest_of(HashAlgo::Sha2_256, &whole)
    );
}

#[test]
fn non_contributing_input_digests_empty() {
    assert_eq!(
        digest_of(HashAlgo::Sha2_256, &TaggedValue::Null),
        digest_of(HashAlgo::Sha2_256, &TaggedValue::Bytes(vec![]))
    );
}

fn test_key_bytes() -> Vec<u8> {
    let mut k = vec![0u8; 32];
    k[31] = 1;
    k
}

fn sign_with(key: TaggedValue, msg: Vec<u8>) -> Result<TaggedValue, flowblocks::error::BlockError> {
    let mut ctx = ExecContext::new();
    let mut block = EcdsaSignBlock::new();
    block.set_param(0, &ParamValue::Value(key));
    block.warmup(&mut ctx).unwrap();
    let out = block.activate(&ctx, &TaggedValue::Bytes(msg));
    block.cleanup();
    out
}

#[test]
fn sign_produces_signature_and_recovery_id() {
    let msg = vec![7u8; 32];
    let out = sign_with(TaggedValue::Bytes(test_key_bytes()), msg).unwrap();
    let items = out.as_sequence().unwrap();
    assert_eq!(items.len(), 2);
    assert_eq!(items[0].as_bytes().unwrap().len(), 64);
    let recid = items[1].as_int().unwrap();
    assert!((0..=3).contains(&recid));
}

#[test]
fn hex_string_key_signs_like_its_bytes() {
    let msg = vec![7u8; 32];
    let from_bytes = sign_with(TaggedValue::Bytes(vec![0xAB; 32]), msg.clone()).unwrap();
    // Upper-case hex of the same key bytes.
    let from_hex = sign_with(TaggedValue::Str("AB".repeat(32)), msg).unwrap();
    let a = from_bytes.as_sequence().unwrap();
    let b = from_hex.as_sequence().unwrap();
    assert_eq!(a[0].as_bytes().unwrap(), b[0].as_bytes().unwrap());
    assert_eq!(a[1].as_int().unwrap(), b[1].as_int().unwrap());
}

#[test]
fn sign_rejects_bad_keys_and_messages() {
    let msg32 = vec![7u8; 32];

    // A zero scalar is not a valid secret key.
    let err = sign_with(TaggedValue::Bytes(vec![0u8; 32]), msg32.clone()).unwrap_err();
    assert_eq!(err.kind, ErrorKind::ExternalFailure);
    assert_eq!(err.message, "Failed to parse secret key");

    // Wrong key length.
    let err = sign_with(TaggedValue::Bytes(vec![1u8; 31]), msg32.clone()).unwrap_err();
    assert_eq!(err.message, "Failed to parse secret key");

    // A hex string that does not decode.
    let err = sign_with(TaggedValue::Str("abc".to_string()), msg32.clone()).unwrap_err();
    assert_eq!(err.message, "Failed to parse key's hex string");

    // A key value of the wrong shape.
    let err = sign_with(TaggedValue::Int(1), msg32.clone()).unwrap_err();
    assert_eq!(err.kind, ErrorKind::ShapeMismatch);
    assert_eq!(err.message, "Invalid key value");

    // A message hash that is not 32 bytes.
    let err = sign_with(TaggedValue::Bytes(test_key_bytes()), vec![7u8; 31]).unwrap_err();
    assert_eq!(err.kind, ErrorKind::ExternalFailure);
    assert_eq!(err.message, "Failed to parse input message hash");

    // An input that is not bytes at all.
    let mut ctx = ExecContext::new();
    let mut block = EcdsaSignBlock::new();
    block.set_param(0, &ParamValue::Value(TaggedValue::Bytes(test_key_bytes())));
    block.warmup(&mut ctx).unwrap();
    let err = block.activate(&ctx, &TaggedValue::Str("nope".to_string())).unwrap_err();
    assert_eq!(err.kind, ErrorKind::ShapeMismatch);
}

#[test]
fn sign_key_can_come_from_a_named_variable() {
    let mut ctx = ExecContext::new();
    let mut block = EcdsaSignBlock::new();
    block.set_param(0, &ParamValue::Named("the.key".to_string()));
    block.warmup(&mut ctx).unwrap();

    // Another binding to the same variable supplies the key at run time.
    let mut writer = flowblocks::binding::ParamVar::new_literal(TaggedValue::Null);
    writer.set_name(&"the.key".to_string());
    writer.warmup(&mut ctx);
    writer.set(&mut ctx, TaggedValue::Bytes(test_key_bytes()));

    let out = block.activate(&ctx, &TaggedValue::Bytes(vec![7u8; 32])).unwrap();
    assert_eq!(out.as_sequence().unwrap().len(), 2);

    match block.get_param(0) {
        ParamValue::Named(n) => assert_eq!(n, "the.key"),
        _ => panic!("expected a named parameter"),
    }
    block.cleanup();
}

#[test]
fn public_key_of_the_unit_scalar_is_the_generator_point() {
    let block = EcdsaPubKeyBlock::new();
    let out = block.activate(&TaggedValue::Bytes(test_key_bytes())).unwrap();
    let pk = out.as_bytes().unwrap();
    let expected = hex::decode(
        "0479be667ef9dcbbac55a06295ce870b07029bfcdb2dce28d959f2815b16f81798\
         483ada7726a3c4655da4fbfc0e1108a8fd17b448a68554199c47d08ffb10d4b8",
    )
    .unwrap();
    assert_eq!(pk, &expected);
}

#[test]
fn compressed_public_key_has_sec1_form() {
    let mut block = EcdsaPubKeyBlock::new();
    block
        .set_param(0, &ParamValue::Value(TaggedValue::Bool(true)))
        .unwrap();
    let out = block.activate(&TaggedValue::Bytes(test_key_bytes())).unwrap();
    let pk = out.as_bytes().unwrap();
    assert_eq!(pk.len(), 33);
    assert!(pk[0] == 2 || pk[0] == 3);

    // The parameter reads back, and a non-boolean is rejected.
    match block.get_param(0) {
        ParamValue::Value(TaggedValue::Bool(b)) => assert!(b),
        _ => panic!("expected a boolean parameter"),
    }
    let err = block
        .set_param(0, &ParamValue::Value(TaggedValue::Int(1)))
        .unwrap_err();
    assert_eq!(err.kind, ErrorKind::InvalidParameter);
}

#[test]
fn public_key_rejects_invalid_keys() {
    let block = EcdsaPubKeyBlock::new();
    let err = block.activate(&TaggedValue::Bytes(vec![0u8; 32])).unwrap_err();
    assert_eq!(err.kind, ErrorKind::ExternalFailure);
    let err = block.activate(&TaggedValue::Null).unwrap_err();
    assert_eq!(err.kind, ErrorKind::ShapeMismatch);
}
