//! ECDSA blocks: sign a 32-byte message hash with a secp256k1 secret key,
//! and derive the public key of a secret key.
//!
//! The key parameter is either raw key bytes or a hex string of them; the
//! curve arithmetic itself comes from an outside library and its results
//! are named, not restated: signature, recovery id and public key are
//! functions of the message hash and key bytes alone.

use vstd::prelude::*;

use crate::binding::{ParamValue, ParamVar};
use crate::context::ExecContext;
use crate::error::{BlockError, ErrorKind};
use crate::registry::{BlockKind, Registry};
use crate::value::{TaggedValue, ValueModel};

verus! {

/// Whether 32 key bytes encode a usable secret key (a nonzero scalar below
/// the curve order), as libsecp256k1::SecretKey::parse_slice decides it.
pub uninterp spec fn sk_valid(key: Seq<u8>) -> bool;

/// The 64-byte compact signature of a 32-byte message hash under a key.
pub uninterp spec fn ecdsa_sig_of(msg: Seq<u8>, key: Seq<u8>) -> Seq<u8>;

/// The recovery id of that signature.
pub uninterp spec fn ecdsa_recid_of(msg: Seq<u8>, key: Seq<u8>) -> u8;

/// The SEC1 encoding of the public key of a key: 33 bytes compressed,
/// 65 bytes uncompressed.
pub uninterp spec fn pubkey_of(key: Seq<u8>, compressed: bool) -> Seq<u8>;

/// `c` is an ASCII hexadecimal digit.
pub open spec fn is_hex_digit(c: char) -> bool {
    (48 <= c as int && c as int <= 57)  // '0' ..= '9'
    || (97 <= c as int && c as int <= 102)  // 'a' ..= 'f'
    || (65 <= c as int && c as int <= 70)  // 'A' ..= 'F'

}

/// The numeric value of a hexadecimal digit.
pub open spec fn hex_digit_val(c: char) -> int {
    if 48 <= c as int && c as int <= 57 {
        c as int - 48
    } else if 97 <= c as int && c as int <= 102 {
        c as int - 87
    } else {
        c as int - 55
    }
}

/// A string that hex-decodes: even length, hexadecimal digits throughout.
pub open spec fn is_hex_str(s: Seq<char>) -> bool {
    s.len() % 2 == 0 && (forall|i: int| 0 <= i < s.len() ==> is_hex_digit(#[trigger] s[i]))
}

/// The bytes a hex string decodes to: one byte per digit pair.
pub open spec fn hex_bytes_of(s: Seq<char>) -> Seq<u8> {
    Seq::new((s.len() / 2) as nat, |i: int| (16 * hex_digit_val(s[2 * i]) + hex_digit_val(s[2 * i + 1])) as u8)
}

/// Relies on hex::decode: it succeeds exactly on even-length strings of
/// hexadecimal digits (upper or lower case) and yields one byte per digit
/// pair, high digit first.
#[verifier::external_body]
fn hex_decode(s: &String) -> (r: Result<Vec<u8>, ()>)
    ensures
        r is Ok <==> is_hex_str(s@),
        r is Ok ==> (r->Ok_0)@ == hex_bytes_of(s@),
{
    match hex::decode(s.as_str()) {
        Ok(v) => Ok(v),
        Err(_) => Err(()),
    }
}

/// Relies on libsecp256k1::SecretKey::parse_slice: it accepts exactly the
/// 32-byte slices that encode a nonzero scalar below the curve order.
#[verifier::external_body]
fn check_secret_key(key: &Vec<u8>) -> (ok: bool)
    ensures
        ok == (key@.len() == 32 && sk_valid(key@)),
{
    libsecp256k1::SecretKey::parse_slice(key.as_slice()).is_ok()
}

/// Relies on libsecp256k1::sign (deterministic, RFC 6979 nonces), together
/// with SecretKey::parse_slice and Message::parse_slice (which accepts any
/// 32-byte slice) to build its inputs, and Signature::serialize /
/// RecoveryId::serialize to read its outputs: the compact signature and
/// recovery id are functions of the message hash and key bytes alone.
#[verifier::external_body]
fn sign_hash(msg: &Vec<u8>, key: &Vec<u8>) -> (r: (Vec<u8>, u8))
    requires
        msg@.len() == 32,
        key@.len() == 32,
        sk_valid(key@),
    ensures
        r.0@ == ecdsa_sig_of(msg@, key@),
        r.0@.len() == 64,
        r.1 == ecdsa_recid_of(msg@, key@),
        r.1 <= 3,
{
    let sk = libsecp256k1::SecretKey::parse_slice(key.as_slice()).unwrap();
    let m = libsecp256k1::Message::parse_slice(msg.as_slice()).unwrap();
    let (sig, rid) = libsecp256k1::sign(&m, &sk);
    (sig.serialize().to_vec(), rid.serialize())
}

/// Relies on libsecp256k1::PublicKey::from_secret_key and its
/// serialize/serialize_compressed (with SecretKey::parse_slice to build
/// the input): the SEC1 encoding of the public key, a function of the key
/// bytes and the chosen format alone.
#[verifier::external_body]
fn derive_public_key(key: &Vec<u8>, compressed: bool) -> (r: Vec<u8>)
    requires
        key@.len() == 32,
        sk_valid(key@),
    ensures
        r@ == pubkey_of(key@, compressed),
        r@.len() == (if compressed {
            33int
        } else {
            65int
        }),
        compressed ==> r@[0] == 2 || r@[0] == 3,
        !compressed ==> r@[0] == 4,
{
    let sk = libsecp256k1::SecretKey::parse_slice(key.as_slice()).unwrap();
    let pk = libsecp256k1::PublicKey::from_secret_key(&sk);
    if compressed {
        pk.serialize_compressed().to_vec()
    } else {
        pk.serialize().to_vec()
    }
}

/// The key bytes a key parameter denotes: a bytes payload as it is, a
/// string payload hex-decoded (`None` when it is not hex), nothing
/// otherwise.
pub open spec fn key_source_of(v: ValueModel) -> Option<Seq<u8>> {
    match v {
        ValueModel::Bytes(b) => Option::Some(b),
        ValueModel::Str(s) => if is_hex_str(s) {
            Option::Some(hex_bytes_of(s))
        } else {
            Option::None
        },
        _ => Option::None,
    }
}

/// The key parameter denotes a usable secret key.
pub open spec fn key_ok(v: ValueModel) -> bool {
    key_source_of(v) matches Option::Some(k) && k.len() == 32 && sk_valid(k)
}

/// The key bytes (meaningful only when `key_ok`).
pub open spec fn key_of(v: ValueModel) -> Seq<u8> {
    key_source_of(v)->Some_0
}

/// The error kind a rejected key parameter reports: a value of the wrong
/// shape is a shape mismatch; bytes or a string that the outside library
/// rejects is an external failure.
pub open spec fn key_err_kind(v: ValueModel) -> ErrorKind {
    if v is Bytes || v is Str {
        ErrorKind::ExternalFailure
    } else {
        ErrorKind::ShapeMismatch
    }
}

/// The diagnostic message a rejected key parameter reports.
pub open spec fn key_err_message(v: ValueModel) -> Seq<char> {
    if v is Bytes {
        "Failed to parse secret key"@
    } else if v is Str {
        if is_hex_str(v->Str_0) {
            "Failed to parse secret key"@
        } else {
            "Failed to parse key's hex string"@
        }
    } else {
        "Invalid key value"@
    }
}

/// Extract the secret key bytes a key parameter denotes. Succeeds exactly
/// when the value is key bytes, or a hex string of key bytes, that
/// libsecp256k1 accepts.
pub fn get_key(input: &TaggedValue) -> (r: Result<Vec<u8>, BlockError>)
    ensures
        r is Ok <==> key_ok(input@),
        r is Ok ==> Option::Some((r->Ok_0)@) == key_source_of(input@),
        r is Err ==> r->Err_0.kind == key_err_kind(input@),
        r is Err ==> r->Err_0.message@ == key_err_message(input@),
{
    match input {
        TaggedValue::Bytes(b) => {
            let k = crate::value::copy_bytes(b);
            if check_secret_key(&k) {
                Ok(k)
            } else {
                Err(BlockError::new(ErrorKind::ExternalFailure, "Failed to parse secret key"))
            }
        },
        TaggedValue::Str(s) => {
            match hex_decode(s) {
                Ok(k) => {
                    if check_secret_key(&k) {
                        Ok(k)
                    } else {
                        Err(
                            BlockError::new(
                                ErrorKind::ExternalFailure,
                                "Failed to parse secret key",
                            ),
                        )
                    }
                },
                Err(_) => {
                    Err(
                        BlockError::new(
                            ErrorKind::ExternalFailure,
                            "Failed to parse key's hex string",
                        ),
                    )
                },
            }
        },
        _ => Err(BlockError::new(ErrorKind::ShapeMismatch, "Invalid key value")),
    }
}

/// The signing block: hashes come in as 32-byte messages, the key comes
/// from the `Key` parameter (a literal or a named variable), and the
/// output is a sequence of the compact signature bytes and the recovery
/// id.
pub struct EcdsaSignBlock {
    pub key: ParamVar,
}

/// The model of the signing block's output for a message and key.
pub open spec fn sign_output_of(msg: Seq<u8>, key: Seq<u8>) -> ValueModel {
    ValueModel::Sequence(
        seq![
            ValueModel::Bytes(ecdsa_sig_of(msg, key)),
            ValueModel::Int(ecdsa_recid_of(msg, key) as i64),
        ],
    )
}

impl EcdsaSignBlock {
    /// A fresh block: the key parameter is an unbound literal `Null`.
    pub fn new() -> (b: EcdsaSignBlock)
        ensures
            !b.key.is_bound(),
            !b.key.is_named(),
    {
        EcdsaSignBlock { key: ParamVar::new_literal(TaggedValue::Null) }
    }

    /// Configure the key parameter: a name binds it to a shared variable,
    /// a value makes it a literal. Allowed only before warmup.
    pub fn set_param(&mut self, index: usize, value: &ParamValue)
        requires
            index == 0,
            !old(self).key.is_bound(),
        ensures
            !final(self).key.is_bound(),
            value matches ParamValue::Named(n) ==> final(self).key.is_named()
                && final(self).key.var_name() == n@,
            value matches ParamValue::Value(v) ==> !final(self).key.is_named()
                && final(self).key.value@ == v@,
    {
        match value {
            ParamValue::Named(n) => self.key.set_name(n),
            ParamValue::Value(v) => self.key.set_literal(v.deep_clone()),
        }
    }

    /// Report the key parameter's configuration.
    pub fn get_param(&self, index: usize) -> (r: ParamValue)
        requires
            index == 0,
        ensures
            self.key.is_named() ==> (r matches ParamValue::Named(n) && n@ == self.key.var_name()),
            !self.key.is_named() ==> (r matches ParamValue::Value(v) && v@ == self.key.value@),
    {
        match &self.key.name {
            Some(n) => ParamValue::Named(n.clone()),
            None => ParamValue::Value(self.key.value.deep_clone()),
        }
    }

    /// Bind the key parameter against the context.
    pub fn warmup(&mut self, ctx: &mut ExecContext) -> (r: Result<(), BlockError>)
        requires
            !old(self).key.is_bound(),
            old(ctx).wf(),
        ensures
            r is Ok,
            final(ctx).wf(),
            final(self).key.is_bound(),
            final(self).key.wf_in(*final(ctx)),
            final(self).key.name == old(self).key.name,
            final(self).key.value == old(self).key.value,
            final(ctx).objects@ == old(ctx).objects@,
            final(ctx).slots@.len() >= old(ctx).slots@.len(),
            forall|j: int|
                0 <= j < old(ctx).slots@.len() ==> final(ctx).slots@[j] == old(ctx).slots@[j],
    {
        self.key.warmup(ctx);
        Ok(())
    }

    /// Release the key binding. Idempotent.
    pub fn cleanup(&mut self)
        ensures
            !final(self).key.is_bound(),
            final(self).key.slot is None,
            final(self).key.name == old(self).key.name,
            final(self).key.value == old(self).key.value,
    {
        self.key.cleanup();
    }

    /// Sign the input message hash with the configured key. Succeeds
    /// exactly when the input is a 32-byte bytes value and the key
    /// parameter's current value denotes a usable secret key; the output
    /// is the sequence [signature bytes, recovery id].
    pub fn activate(&self, ctx: &ExecContext, input: &TaggedValue) -> (r: Result<
        TaggedValue,
        BlockError,
    >)
        requires
            self.key.is_bound(),
            self.key.wf_in(*ctx),
        ensures
            r is Ok <==> (input@ matches ValueModel::Bytes(m) && m.len() == 32 && key_ok(
                self.key.read_spec(*ctx)@,
            )),
            r is Ok ==> r->Ok_0@ == sign_output_of(
                input@->Bytes_0,
                key_of(self.key.read_spec(*ctx)@),
            ),
            !(input@ is Bytes) ==> (r matches Err(e) && e.kind == ErrorKind::ShapeMismatch),
            input@ is Bytes && !key_ok(self.key.read_spec(*ctx)@) ==> (r matches Err(e) && e.kind
                == key_err_kind(self.key.read_spec(*ctx)@) && e.message@ == key_err_message(
                self.key.read_spec(*ctx)@,
            )),
            r is Ok ==> ecdsa_sig_of(input@->Bytes_0, key_of(self.key.read_spec(*ctx)@)).len()
                == 64,
            r is Ok ==> ecdsa_recid_of(input@->Bytes_0, key_of(self.key.read_spec(*ctx)@)) <= 3,
            input@ is Bytes && input@->Bytes_0.len() != 32 && key_ok(self.key.read_spec(*ctx)@)
                ==> (r matches Err(e) && e.kind == ErrorKind::ExternalFailure && e.message@
                == "Failed to parse input message hash"@),
    {
        let bytes = match input.as_bytes() {
            Ok(b) => b,
            Err(e) => {
                return Err(e);
            },
        };
        let keyval = self.key.get(ctx);
        let key = match get_key(keyval) {
            Ok(k) => k,
            Err(e) => {
                return Err(e);
            },
        };
        if bytes.len() != 32 {
            return Err(
                BlockError::new(ErrorKind::ExternalFailure, "Failed to parse input message hash"),
            );
        }
        let msg = crate::value::copy_bytes(bytes);
        let (sig, recid) = sign_hash(&msg, &key);
        let mut out: Vec<TaggedValue> = Vec::new();
        out.push(TaggedValue::Bytes(sig));
        out.push(TaggedValue::Int(recid as i64));
        let result = TaggedValue::Sequence(out);
        proof {
            assert(out@ =~= seq![
                TaggedValue::Bytes(sig),
                TaggedValue::Int(ecdsa_recid_of(msg@, key@) as i64),
            ]);
            crate::value::lemma_models_of(
                seq![
                    TaggedValue::Bytes(sig),
                    TaggedValue::Int(ecdsa_recid_of(msg@, key@) as i64),
                ],
            );
            assert(result@ == sign_output_of(input@->Bytes_0, key_of(self.key.read_spec(*ctx)@)))
                by {
                assert(crate::value::models_of(
                    seq![
                        TaggedValue::Bytes(sig),
                        TaggedValue::Int(ecdsa_recid_of(msg@, key@) as i64),
                    ],
                ) =~= seq![
                    ValueModel::Bytes(ecdsa_sig_of(msg@, key@)),
                    ValueModel::Int(ecdsa_recid_of(msg@, key@) as i64),
                ]);
            }
        }
        Ok(result)
    }
}

/// The public-key block: derives the SEC1 encoding of the public key of
/// the secret key handed in as input (bytes or hex string), compressed or
/// not per its parameter.
pub struct EcdsaPubKeyBlock {
    pub compressed: bool,
}

impl EcdsaPubKeyBlock {
    /// A fresh block: uncompressed output.
    pub fn new() -> (b: EcdsaPubKeyBlock)
        ensures
            !b.compressed,
    {
        EcdsaPubKeyBlock { compressed: false }
    }

    /// Configure the output format. Rejects a value that is not a boolean.
    pub fn set_param(&mut self, index: usize, value: &ParamValue) -> (r: Result<(), BlockError>)
        requires
            index == 0,
        ensures
            value matches ParamValue::Value(v) ==> (v matches TaggedValue::Bool(b) ==> (r is Ok
                && final(self).compressed == b)),
            !(*value matches ParamValue::Value(TaggedValue::Bool(_))) ==> (r matches Err(e)
                && e.kind == ErrorKind::InvalidParameter && *final(self) == *old(self)),
    {
        match value {
            ParamValue::Value(TaggedValue::Bool(b)) => {
                self.compressed = *b;
                Ok(())
            },
            _ => Err(BlockError::new(ErrorKind::InvalidParameter, "Expected a boolean parameter")),
        }
    }

    /// Report the output format.
    pub fn get_param(&self, index: usize) -> (r: ParamValue)
        requires
            index == 0,
        ensures
            r matches ParamValue::Value(v) && v == TaggedValue::Bool(self.compressed),
    {
        ParamValue::Value(TaggedValue::Bool(self.compressed))
    }

    /// Derive the public key of the input secret key. Succeeds exactly
    /// when the input denotes a usable secret key.
    pub fn activate(&self, input: &TaggedValue) -> (r: Result<TaggedValue, BlockError>)
        ensures
            r is Ok <==> key_ok(input@),
            r is Ok ==> r->Ok_0@ == ValueModel::Bytes(pubkey_of(key_of(input@), self.compressed)),
            r is Ok ==> pubkey_of(key_of(input@), self.compressed).len() == (if self.compressed {
                33int
            } else {
                65int
            }),
            r is Ok && self.compressed ==> pubkey_of(key_of(input@), self.compressed)[0] == 2
                || pubkey_of(key_of(input@), self.compressed)[0] == 3,
            r is Ok && !self.compressed ==> pubkey_of(key_of(input@), self.compressed)[0] == 4,
            r is Err ==> r->Err_0.kind == key_err_kind(input@),
            r is Err ==> r->Err_0.message@ == key_err_message(input@),
    {
        let key = match get_key(input) {
            Ok(k) => k,
            Err(e) => {
                return Err(e);
            },
        };
        let pk = derive_public_key(&key, self.compressed);
        Ok(TaggedValue::Bytes(pk))
    }
}

/// Register the two ECDSA blocks.
#[allow(non_snake_case)]
pub fn registerBlocks(registry: &mut Registry)
    ensures
        final(registry).entries@ == old(registry).entries@ + seq![
            BlockKind::EcdsaSign,
            BlockKind::EcdsaPubKey,
        ],
{
    registry.register(BlockKind::EcdsaSign);
    registry.register(BlockKind::EcdsaPubKey);
    proof {
        assert(registry.entries@ =~= old(registry).entries@ + seq![
            BlockKind::EcdsaSign,
            BlockKind::EcdsaPubKey,
        ]);
    }
}

} // verus!
