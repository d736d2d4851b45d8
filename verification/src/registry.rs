//! The block registry: the closed set of block kinds this library
//! provides, each registered under a stable name and a type-identity hash,
//! and looked up by name when a graph is built.
//!
//! The registry is an explicit object handed by reference to whatever
//! constructs graphs; registration happens once, at process start.

use vstd::prelude::*;

use crate::browse::{BlockedCall, BrowseBlock};
use crate::context::ExecContext;
use crate::deps::ParamInfo;
use crate::error::BlockError;
use crate::value::{TaggedValue, ValueModel};
use crate::ecdsa::{EcdsaPubKeyBlock, EcdsaSignBlock};
use crate::forces::ImpulseBlock;
use crate::hash::{HashAlgo, HashBlock};
use crate::value::Shape;

verus! {

/// The closed set of block kinds.
#[derive(Clone, Copy, PartialEq, Eq, Structural, Debug)]
pub enum BlockKind {
    Browse,
    EcdsaSign,
    EcdsaPubKey,
    HashKeccak256,
    HashKeccak512,
    HashSha3_256,
    HashSha3_512,
    HashSha2_256,
    HashSha2_512,
    Impulse,
}

/// The stable registered name of a kind.
pub open spec fn kind_name(k: BlockKind) -> Seq<char> {
    match k {
        BlockKind::Browse => "Browse"@,
        BlockKind::EcdsaSign => "ECDSA.Sign"@,
        BlockKind::EcdsaPubKey => "ECDSA.PublicKey"@,
        BlockKind::HashKeccak256 => "Hash.Keccak-256"@,
        BlockKind::HashKeccak512 => "Hash.Keccak-512"@,
        BlockKind::HashSha3_256 => "Hash.Sha3-256"@,
        BlockKind::HashSha3_512 => "Hash.Sha3-512"@,
        BlockKind::HashSha2_256 => "Hash.Sha2-256"@,
        BlockKind::HashSha2_512 => "Hash.Sha2-512"@,
        BlockKind::Impulse => "Physics.Impulse"@,
    }
}

/// The type-identity hash of a kind: the CRC-32 of its versioned identity
/// string (e.g. "Browse-rust-0x20200101"), fixed at build time. Distinct
/// kinds carry distinct hashes.
pub open spec fn kind_hash(k: BlockKind) -> u32 {
    match k {
        BlockKind::Browse => 0x0963D29E,
        BlockKind::EcdsaSign => 0x3B76EEEA,
        BlockKind::EcdsaPubKey => 0x6624AED4,
        BlockKind::HashKeccak256 => 0xC47D9B79,
        BlockKind::HashKeccak512 => 0xF6E3E0FB,
        BlockKind::HashSha3_256 => 0xCF5F2338,
        BlockKind::HashSha3_512 => 0xFDC158BA,
        BlockKind::HashSha2_256 => 0x5085A0A6,
        BlockKind::HashSha2_512 => 0x621BDB24,
        BlockKind::Impulse => 0x90ED25CB,
    }
}

impl BlockKind {
    /// The registered name, as the host sees it.
    pub fn name(&self) -> (s: String)
        ensures
            s@ == kind_name(*self),
    {
        match self {
            BlockKind::Browse => "Browse".to_owned(),
            BlockKind::EcdsaSign => "ECDSA.Sign".to_owned(),
            BlockKind::EcdsaPubKey => "ECDSA.PublicKey".to_owned(),
            BlockKind::HashKeccak256 => "Hash.Keccak-256".to_owned(),
            BlockKind::HashKeccak512 => "Hash.Keccak-512".to_owned(),
            BlockKind::HashSha3_256 => "Hash.Sha3-256".to_owned(),
            BlockKind::HashSha3_512 => "Hash.Sha3-512".to_owned(),
            BlockKind::HashSha2_256 => "Hash.Sha2-256".to_owned(),
            BlockKind::HashSha2_512 => "Hash.Sha2-512".to_owned(),
            BlockKind::Impulse => "Physics.Impulse".to_owned(),
        }
    }

    /// The type-identity hash.
    pub fn type_hash(&self) -> (h: u32)
        ensures
            h == kind_hash(*self),
    {
        match self {
            BlockKind::Browse => 0x0963D29E,
            BlockKind::EcdsaSign => 0x3B76EEEA,
            BlockKind::EcdsaPubKey => 0x6624AED4,
            BlockKind::HashKeccak256 => 0xC47D9B79,
            BlockKind::HashKeccak512 => 0xF6E3E0FB,
            BlockKind::HashSha3_256 => 0xCF5F2338,
            BlockKind::HashSha3_512 => 0xFDC158BA,
            BlockKind::HashSha2_256 => 0x5085A0A6,
            BlockKind::HashSha2_512 => 0x621BDB24,
            BlockKind::Impulse => 0x90ED25CB,
        }
    }
}

/// Type identity never collides: two kinds with the same type-identity
/// hash are the same kind.
pub proof fn lemma_kind_identity_is_unique(a: BlockKind, b: BlockKind)
    ensures
        kind_hash(a) == kind_hash(b) ==> a == b,
{
}

/// The value shapes a kind accepts as activation input.
pub open spec fn kind_inputs(k: BlockKind) -> Seq<Shape> {
    match k {
        BlockKind::Browse => seq![Shape::Str],
        BlockKind::EcdsaSign => seq![Shape::Bytes],
        BlockKind::EcdsaPubKey => seq![Shape::Bytes, Shape::Str],
        BlockKind::Impulse => seq![Shape::Vector3],
        _ => seq![Shape::Bytes, Shape::Str, Shape::Sequence],
    }
}

/// The value shapes a kind produces as activation output.
pub open spec fn kind_outputs(k: BlockKind) -> Seq<Shape> {
    match k {
        BlockKind::Browse => seq![Shape::Str],
        BlockKind::EcdsaSign => seq![Shape::Sequence],
        BlockKind::EcdsaPubKey => seq![Shape::Bytes],
        BlockKind::Impulse => seq![Shape::Vector3],
        _ => seq![Shape::Bytes],
    }
}

/// The names of a kind's parameters, in order.
pub open spec fn kind_param_names(k: BlockKind) -> Seq<Seq<char>> {
    match k {
        BlockKind::EcdsaSign => seq!["Key"@],
        BlockKind::EcdsaPubKey => seq!["Compressed"@],
        BlockKind::Impulse => seq!["RigidBody"@],
        _ => Seq::empty(),
    }
}

impl BlockKind {
    /// The shapes accepted as activation input, for the host's static
    /// wiring validation.
    pub fn input_shapes(&self) -> (v: Vec<Shape>)
        ensures
            v@ == kind_inputs(*self),
    {
        let mut v: Vec<Shape> = Vec::new();
        match self {
            BlockKind::Browse => {
                v.push(Shape::Str);
            },
            BlockKind::EcdsaSign => {
                v.push(Shape::Bytes);
            },
            BlockKind::EcdsaPubKey => {
                v.push(Shape::Bytes);
                v.push(Shape::Str);
            },
            BlockKind::Impulse => {
                v.push(Shape::Vector3);
            },
            _ => {
                v.push(Shape::Bytes);
                v.push(Shape::Str);
                v.push(Shape::Sequence);
            },
        }
        proof {
            assert(v@ =~= kind_inputs(*self));
        }
        v
    }

    /// The shapes produced as activation output.
    pub fn output_shapes(&self) -> (v: Vec<Shape>)
        ensures
            v@ == kind_outputs(*self),
    {
        let mut v: Vec<Shape> = Vec::new();
        match self {
            BlockKind::Browse => {
                v.push(Shape::Str);
            },
            BlockKind::EcdsaSign => {
                v.push(Shape::Sequence);
            },
            BlockKind::EcdsaPubKey => {
                v.push(Shape::Bytes);
            },
            BlockKind::Impulse => {
                v.push(Shape::Vector3);
            },
            _ => {
                v.push(Shape::Bytes);
            },
        }
        proof {
            assert(v@ =~= kind_outputs(*self));
        }
        v
    }

    /// The kind's declared parameters, in order.
    pub fn parameters(&self) -> (v: Vec<ParamInfo>)
        ensures
            v@.len() == kind_param_names(*self).len(),
            forall|i: int| 0 <= i < v@.len() ==> v@[i].name@ == kind_param_names(*self)[i],
    {
        let mut v: Vec<ParamInfo> = Vec::new();
        match self {
            BlockKind::EcdsaSign => {
                v.push(
                    ParamInfo::new(
                        "Key",
                        "The private key to be used to sign the hashed message input.",
                    ),
                );
            },
            BlockKind::EcdsaPubKey => {
                v.push(
                    ParamInfo::new(
                        "Compressed",
                        "If the output public key should use the compressed format.",
                    ),
                );
            },
            BlockKind::Impulse => {
                v.push(ParamInfo::new("RigidBody", "The rigid body to apply the impulse to."));
            },
            _ => {},
        }
        v
    }
}

/// A live block instance: the closed set of variants behind the one
/// lifecycle interface, dispatched by kind.
pub enum BlockInstance {
    Browse(BrowseBlock),
    EcdsaSign(EcdsaSignBlock),
    EcdsaPubKey(EcdsaPubKeyBlock),
    Hash(HashBlock),
    Impulse(ImpulseBlock),
}

/// The kind an instance belongs to.
pub open spec fn kind_of_instance(b: BlockInstance) -> BlockKind {
    match b {
        BlockInstance::Browse(_) => BlockKind::Browse,
        BlockInstance::EcdsaSign(_) => BlockKind::EcdsaSign,
        BlockInstance::EcdsaPubKey(_) => BlockKind::EcdsaPubKey,
        BlockInstance::Hash(h) => match h.algo {
            HashAlgo::Keccak256 => BlockKind::HashKeccak256,
            HashAlgo::Keccak512 => BlockKind::HashKeccak512,
            HashAlgo::Sha3_256 => BlockKind::HashSha3_256,
            HashAlgo::Sha3_512 => BlockKind::HashSha3_512,
            HashAlgo::Sha2_256 => BlockKind::HashSha2_256,
            HashAlgo::Sha2_512 => BlockKind::HashSha2_512,
        },
        BlockInstance::Impulse(_) => BlockKind::Impulse,
    }
}

impl BlockKind {
    /// Construct a fresh instance of this kind, with default parameters.
    pub fn create(&self) -> (b: BlockInstance)
        ensures
            kind_of_instance(b) == *self,
    {
        match self {
            BlockKind::Browse => BlockInstance::Browse(BrowseBlock::new()),
            BlockKind::EcdsaSign => BlockInstance::EcdsaSign(EcdsaSignBlock::new()),
            BlockKind::EcdsaPubKey => BlockInstance::EcdsaPubKey(EcdsaPubKeyBlock::new()),
            BlockKind::HashKeccak256 => BlockInstance::Hash(HashBlock::new(HashAlgo::Keccak256)),
            BlockKind::HashKeccak512 => BlockInstance::Hash(HashBlock::new(HashAlgo::Keccak512)),
            BlockKind::HashSha3_256 => BlockInstance::Hash(HashBlock::new(HashAlgo::Sha3_256)),
            BlockKind::HashSha3_512 => BlockInstance::Hash(HashBlock::new(HashAlgo::Sha3_512)),
            BlockKind::HashSha2_256 => BlockInstance::Hash(HashBlock::new(HashAlgo::Sha2_256)),
            BlockKind::HashSha2_512 => BlockInstance::Hash(HashBlock::new(HashAlgo::Sha2_512)),
            BlockKind::Impulse => BlockInstance::Impulse(ImpulseBlock::new()),
        }
    }
}

/// What one activation produces: an output value, or a blocking call the
/// host must perform and report back before the activation can finish.
pub enum Activation {
    Value(TaggedValue),
    Blocked(BlockedCall),
}

/// The instance is outside a warmup/cleanup bracket.
pub open spec fn instance_unbound(b: BlockInstance) -> bool {
    match b {
        BlockInstance::EcdsaSign(s) => !s.key.is_bound(),
        BlockInstance::Impulse(i) => !i.simulation.is_bound() && !i.rb.is_bound(),
        _ => true,
    }
}

/// The instance is warmed up against `ctx` and may be activated.
pub open spec fn instance_ready(b: BlockInstance, ctx: ExecContext) -> bool {
    match b {
        BlockInstance::EcdsaSign(s) => s.key.is_bound() && s.key.wf_in(ctx),
        BlockInstance::Impulse(i) => i.warmed(ctx),
        _ => true,
    }
}

impl BlockInstance {
    /// Bind the instance's parameters against the context: the uniform
    /// warmup entry of the lifecycle.
    pub fn warmup(&mut self, ctx: &mut ExecContext) -> (r: Result<(), BlockError>)
        requires
            old(ctx).wf(),
            instance_unbound(*old(self)),
        ensures
            r is Ok,
            final(ctx).wf(),
            instance_ready(*final(self), *final(ctx)),
            kind_of_instance(*final(self)) == kind_of_instance(*old(self)),
            final(ctx).objects@ == old(ctx).objects@,
            final(ctx).slots@.len() >= old(ctx).slots@.len(),
            forall|j: int|
                0 <= j < old(ctx).slots@.len() ==> final(ctx).slots@[j] == old(ctx).slots@[j],
    {
        match self {
            BlockInstance::EcdsaSign(b) => b.warmup(ctx),
            BlockInstance::Impulse(b) => b.warmup(ctx),
            _ => Ok(()),
        }
    }

    /// Release the instance's bindings: the uniform cleanup exit of the
    /// lifecycle. Idempotent, and safe whatever state the instance is in.
    pub fn cleanup(&mut self)
        ensures
            instance_unbound(*final(self)),
            kind_of_instance(*final(self)) == kind_of_instance(*old(self)),
    {
        match self {
            BlockInstance::EcdsaSign(b) => b.cleanup(),
            BlockInstance::Impulse(b) => b.cleanup(),
            _ => (),
        }
    }

    /// One activation of the warmed instance: the uniform hot path. Each
    /// variant's behaviour is exactly its block's own contract; a browse
    /// instance yields the blocking call for the host to perform.
    pub fn activate(&mut self, ctx: &mut ExecContext, input: &TaggedValue) -> (r: Result<
        Activation,
        BlockError,
    >)
        requires
            old(ctx).wf(),
            instance_ready(*old(self), *old(ctx)),
        ensures
            final(ctx).wf(),
            kind_of_instance(*final(self)) == kind_of_instance(*old(self)),
            *old(self) matches BlockInstance::Browse(_) ==> *final(ctx) == *old(ctx) && ((
            r matches Ok(Activation::Blocked(BlockedCall::OpenUrl(u))) && input@ matches
                ValueModel::Str(s) && u@ == s) <==> input@ is Str),
            *old(self) matches BlockInstance::Hash(h) ==> *final(ctx) == *old(ctx) && (
            r matches Ok(Activation::Value(v)) && v@ == ValueModel::Bytes(
                crate::hash::digest_of(h.algo, crate::hash::hash_input_of(input@)),
            )),
            *old(self) matches BlockInstance::EcdsaSign(s) ==> *final(ctx) == *old(ctx) && ((
            r is Ok) <==> (input@ matches ValueModel::Bytes(m) && m.len() == 32
                && crate::ecdsa::key_ok(s.key.read_spec(*old(ctx))@))) && (r matches Ok(
                Activation::Value(v),
            ) ==> v@ == crate::ecdsa::sign_output_of(
                input@->Bytes_0,
                crate::ecdsa::key_of(s.key.read_spec(*old(ctx))@),
            )),
            *old(self) matches BlockInstance::EcdsaPubKey(p) ==> *final(ctx) == *old(ctx) && ((
            r is Ok) <==> crate::ecdsa::key_ok(input@)) && (r matches Ok(Activation::Value(v))
                ==> v@ == ValueModel::Bytes(
                crate::ecdsa::pubkey_of(crate::ecdsa::key_of(input@), p.compressed),
            )),
            *old(self) matches BlockInstance::Impulse(i) ==> ((r is Ok) <==> i.sim_resolves(
                *old(ctx),
            ) && i.bodies_resolve(*old(ctx)) && (i.handles_of(*old(ctx)).len() == 0 || (input@
                is Vector3 && i.all_live(*old(ctx))))) && (r matches Ok(Activation::Value(v))
                ==> v@ == input@) && (r is Err ==> *final(ctx) == *old(ctx)),
    {
        match self {
            BlockInstance::Browse(b) => {
                match b.activate(input) {
                    Ok(call) => Ok(Activation::Blocked(call)),
                    Err(e) => Err(e),
                }
            },
            BlockInstance::EcdsaSign(b) => {
                match b.activate(ctx, input) {
                    Ok(v) => Ok(Activation::Value(v)),
                    Err(e) => Err(e),
                }
            },
            BlockInstance::EcdsaPubKey(b) => {
                match b.activate(input) {
                    Ok(v) => Ok(Activation::Value(v)),
                    Err(e) => Err(e),
                }
            },
            BlockInstance::Hash(b) => {
                match b.activate(input) {
                    Ok(v) => Ok(Activation::Value(v)),
                    Err(e) => Err(e),
                }
            },
            BlockInstance::Impulse(b) => {
                match b.activate(ctx, input) {
                    Ok(v) => Ok(Activation::Value(v)),
                    Err(e) => Err(e),
                }
            },
        }
    }

    /// Report the instance's kind.
    pub fn kind(&self) -> (k: BlockKind)
        ensures
            k == kind_of_instance(*self),
    {
        match self {
            BlockInstance::Browse(_) => BlockKind::Browse,
            BlockInstance::EcdsaSign(_) => BlockKind::EcdsaSign,
            BlockInstance::EcdsaPubKey(_) => BlockKind::EcdsaPubKey,
            BlockInstance::Hash(h) => match h.algo {
                HashAlgo::Keccak256 => BlockKind::HashKeccak256,
                HashAlgo::Keccak512 => BlockKind::HashKeccak512,
                HashAlgo::Sha3_256 => BlockKind::HashSha3_256,
                HashAlgo::Sha3_512 => BlockKind::HashSha3_512,
                HashAlgo::Sha2_256 => BlockKind::HashSha2_256,
                HashAlgo::Sha2_512 => BlockKind::HashSha2_512,
            },
            BlockInstance::Impulse(_) => BlockKind::Impulse,
        }
    }
}

/// The first registered kind whose name is `name`.
pub open spec fn first_match(entries: Seq<BlockKind>, name: Seq<char>) -> Option<BlockKind>
    decreases entries.len(),
{
    if entries.len() == 0 {
        Option::None
    } else if kind_name(entries[0]) == name {
        Option::Some(entries[0])
    } else {
        first_match(entries.drop_first(), name)
    }
}

/// The registry of available block kinds, in registration order.
pub struct Registry {
    pub entries: Vec<BlockKind>,
}

impl Registry {
    /// An empty registry.
    pub fn new() -> (r: Registry)
        ensures
            r.entries@.len() == 0,
    {
        Registry { entries: Vec::new() }
    }

    /// Register one kind.
    pub fn register(&mut self, kind: BlockKind)
        ensures
            final(self).entries@ == old(self).entries@.push(kind),
    {
        self.entries.push(kind);
    }

    /// Look a kind up by its registered name.
    pub fn find(&self, name: &String) -> (r: Option<BlockKind>)
        ensures
            r == first_match(self.entries@, name@),
    {
        let n = self.entries.len();
        let mut i: usize = 0;
        proof {
            assert(self.entries@.subrange(0, n as int) =~= self.entries@);
        }
        while i < n
            invariant
                i <= n,
                n == self.entries@.len(),
                first_match(self.entries@, name@) == first_match(
                    self.entries@.subrange(i as int, n as int),
                    name@,
                ),
            decreases n - i,
        {
            let kind = self.entries[i];
            if kind.name() == *name {
                proof {
                    assert(self.entries@.subrange(i as int, n as int)[0] == self.entries@[i as int]);
                }
                return Some(kind);
            }
            proof {
                assert(self.entries@.subrange(i as int, n as int).drop_first() =~= self.entries@.subrange(
                    i + 1,
                    n as int,
                ));
                assert(self.entries@.subrange(i as int, n as int)[0] == self.entries@[i as int]);
            }
            i += 1;
        }
        proof {
            assert(self.entries@.subrange(n as int, n as int).len() == 0);
        }
        None
    }
}

} // verus!
