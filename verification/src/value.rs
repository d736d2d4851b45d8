//! The tagged value model: every datum crossing the host/block boundary is a
//! `TaggedValue`, a discriminated union whose payload always matches its
//! discriminant. Conversions to a concrete shape succeed exactly when the
//! discriminant matches and otherwise report `ShapeMismatch`.

use vstd::prelude::*;

use crate::error::{BlockError, ErrorKind};

verus! {

broadcast use
    vstd::std_specs::vec::axiom_vec_index_decreases,
    vstd::std_specs::vec::axiom_vec_decreases_to_view,
    vstd::seq::axiom_seq_index_decreases,
    vstd::seq::axiom_seq_subrange_decreases;

/// A three-component integer vector (the numeric-vector shape).
#[derive(Clone, Copy, PartialEq, Eq, Structural, Debug)]
pub struct Vec3 {
    pub x: i64,
    pub y: i64,
    pub z: i64,
}

/// A non-owning reference to a native object: a slot in the execution
/// context's object store, stamped with the type tag of the semantic type the
/// producer claims the object has. Consumers must check the tag against the
/// expected one before interpreting the slot.
#[derive(Clone, Copy, PartialEq, Eq, Structural, Debug)]
pub struct ObjectRef {
    pub slot: usize,
    pub tag: u32,
}

/// One entry of a table value.
#[derive(Debug)]
pub struct TableEntry {
    pub key: String,
    pub value: TaggedValue,
}

/// The discriminated union crossing the block boundary.
///
/// Sequences and tables own their contents; an `Object` is a non-owning,
/// type-tagged reference into externally owned state.
#[derive(Debug)]
pub enum TaggedValue {
    Null,
    Bool(bool),
    Int(i64),
    Vector3(Vec3),
    Str(String),
    Bytes(Vec<u8>),
    Sequence(Vec<TaggedValue>),
    Table(Vec<TableEntry>),
    Object(ObjectRef),
}

/// The mathematical model of a tagged value: the same tree of discriminants
/// and payloads, with every owned container abstracted to a `Seq`. Contracts
/// throughout the crate speak of this model, written `v@`.
pub enum ValueModel {
    Null,
    Bool(bool),
    Int(i64),
    Vector3(i64, i64, i64),
    Str(Seq<char>),
    Bytes(Seq<u8>),
    Sequence(Seq<ValueModel>),
    Table(Seq<(Seq<char>, ValueModel)>),
    Object(ObjectRef),
}

/// The model of a tagged value.
pub open spec fn model_of(v: TaggedValue) -> ValueModel
    decreases v,
{
    match v {
        TaggedValue::Null => ValueModel::Null,
        TaggedValue::Bool(b) => ValueModel::Bool(b),
        TaggedValue::Int(i) => ValueModel::Int(i),
        TaggedValue::Vector3(v3) => ValueModel::Vector3(v3.x, v3.y, v3.z),
        TaggedValue::Str(s) => ValueModel::Str(s@),
        TaggedValue::Bytes(b) => ValueModel::Bytes(b@),
        TaggedValue::Sequence(items) => ValueModel::Sequence(models_of(items@)),
        TaggedValue::Table(entries) => ValueModel::Table(table_models_of(entries@)),
        TaggedValue::Object(o) => ValueModel::Object(o),
    }
}

/// The models of a list of tagged values, element by element.
pub open spec fn models_of(s: Seq<TaggedValue>) -> Seq<ValueModel>
    decreases s,
{
    if s.len() == 0 {
        Seq::empty()
    } else {
        seq![model_of(s[0])] + models_of(s.drop_first())
    }
}

/// The models of a list of table entries, element by element.
pub open spec fn table_models_of(s: Seq<TableEntry>) -> Seq<(Seq<char>, ValueModel)>
    decreases s,
{
    if s.len() == 0 {
        Seq::empty()
    } else {
        seq![(s[0].key@, model_of(s[0].value))] + table_models_of(s.drop_first())
    }
}

/// `models_of` maps the list pointwise.
pub proof fn lemma_models_of(s: Seq<TaggedValue>)
    ensures
        models_of(s).len() == s.len(),
        forall|i: int| 0 <= i < s.len() ==> models_of(s)[i] == model_of(s[i]),
    decreases s.len(),
{
    if s.len() > 0 {
        lemma_models_of(s.drop_first());
        assert forall|i: int| 0 <= i < s.len() implies models_of(s)[i] == model_of(s[i]) by {
            if i > 0 {
                assert(s.drop_first()[i - 1] == s[i]);
            }
        }
    }
}

/// `table_models_of` maps the list pointwise.
pub proof fn lemma_table_models_of(s: Seq<TableEntry>)
    ensures
        table_models_of(s).len() == s.len(),
        forall|i: int| 0 <= i < s.len() ==> table_models_of(s)[i] == (s[i].key@, model_of(
            s[i].value,
        )),
    decreases s.len(),
{
    if s.len() > 0 {
        lemma_table_models_of(s.drop_first());
        assert forall|i: int| 0 <= i < s.len() implies table_models_of(s)[i] == (
            s[i].key@,
            model_of(s[i].value),
        ) by {
            if i > 0 {
                assert(s.drop_first()[i - 1] == s[i]);
            }
        }
    }
}

impl View for TaggedValue {
    type V = ValueModel;

    open spec fn view(&self) -> ValueModel {
        model_of(*self)
    }
}

/// The shape (discriminant) of a tagged value.
#[derive(Clone, Copy, PartialEq, Eq, Structural, Debug)]
pub enum Shape {
    Null,
    Bool,
    Int,
    Vector3,
    Str,
    Bytes,
    Sequence,
    Table,
    Object,
}

impl TaggedValue {
    /// The discriminant of this value.
    pub open spec fn shape(self) -> Shape {
        match self {
            TaggedValue::Null => Shape::Null,
            TaggedValue::Bool(_) => Shape::Bool,
            TaggedValue::Int(_) => Shape::Int,
            TaggedValue::Vector3(_) => Shape::Vector3,
            TaggedValue::Str(_) => Shape::Str,
            TaggedValue::Bytes(_) => Shape::Bytes,
            TaggedValue::Sequence(_) => Shape::Sequence,
            TaggedValue::Table(_) => Shape::Table,
            TaggedValue::Object(_) => Shape::Object,
        }
    }

    /// Report the discriminant without touching the payload.
    pub fn shape_of(&self) -> (s: Shape)
        ensures
            s == self.shape(),
    {
        match self {
            TaggedValue::Null => Shape::Null,
            TaggedValue::Bool(_) => Shape::Bool,
            TaggedValue::Int(_) => Shape::Int,
            TaggedValue::Vector3(_) => Shape::Vector3,
            TaggedValue::Str(_) => Shape::Str,
            TaggedValue::Bytes(_) => Shape::Bytes,
            TaggedValue::Sequence(_) => Shape::Sequence,
            TaggedValue::Table(_) => Shape::Table,
            TaggedValue::Object(_) => Shape::Object,
        }
    }

    /// Conversion to `bool`: succeeds iff the value is a `Bool`.
    pub fn as_bool(&self) -> (r: Result<bool, BlockError>)
        ensures
            r is Ok <==> self.shape() == Shape::Bool,
            r is Ok ==> *self == TaggedValue::Bool(r->Ok_0),
            r is Err ==> r->Err_0.kind == ErrorKind::ShapeMismatch,
    {
        match self {
            TaggedValue::Bool(b) => Ok(*b),
            _ => Err(BlockError::new(ErrorKind::ShapeMismatch, "Expected a boolean value")),
        }
    }

    /// Conversion to an integer scalar: succeeds iff the value is an `Int`.
    pub fn as_int(&self) -> (r: Result<i64, BlockError>)
        ensures
            r is Ok <==> self.shape() == Shape::Int,
            r is Ok ==> *self == TaggedValue::Int(r->Ok_0),
            r is Err ==> r->Err_0.kind == ErrorKind::ShapeMismatch,
    {
        match self {
            TaggedValue::Int(i) => Ok(*i),
            _ => Err(BlockError::new(ErrorKind::ShapeMismatch, "Expected an integer value")),
        }
    }

    /// Conversion to a numeric vector: succeeds iff the value is a `Vector3`.
    pub fn as_vector3(&self) -> (r: Result<Vec3, BlockError>)
        ensures
            r is Ok <==> self.shape() == Shape::Vector3,
            r is Ok ==> *self == TaggedValue::Vector3(r->Ok_0),
            r is Err ==> r->Err_0.kind == ErrorKind::ShapeMismatch,
    {
        match self {
            TaggedValue::Vector3(v) => Ok(*v),
            _ => Err(BlockError::new(ErrorKind::ShapeMismatch, "Expected a vector value")),
        }
    }

    /// Conversion to a string: succeeds iff the value is a `Str`.
    pub fn as_str(&self) -> (r: Result<&String, BlockError>)
        ensures
            r is Ok <==> self.shape() == Shape::Str,
            r is Ok ==> *self == TaggedValue::Str(*r->Ok_0),
            r is Err ==> r->Err_0.kind == ErrorKind::ShapeMismatch,
    {
        match self {
            TaggedValue::Str(s) => Ok(s),
            _ => Err(BlockError::new(ErrorKind::ShapeMismatch, "Expected a string value")),
        }
    }

    /// Conversion to bytes: succeeds iff the value is a `Bytes`.
    pub fn as_bytes(&self) -> (r: Result<&Vec<u8>, BlockError>)
        ensures
            r is Ok <==> self.shape() == Shape::Bytes,
            r is Ok ==> *self == TaggedValue::Bytes(*r->Ok_0),
            r is Err ==> r->Err_0.kind == ErrorKind::ShapeMismatch,
    {
        match self {
            TaggedValue::Bytes(b) => Ok(b),
            _ => Err(BlockError::new(ErrorKind::ShapeMismatch, "Expected a bytes value")),
        }
    }

    /// Conversion to a sequence: succeeds iff the value is a `Sequence`.
    pub fn as_sequence(&self) -> (r: Result<&Vec<TaggedValue>, BlockError>)
        ensures
            r is Ok <==> self.shape() == Shape::Sequence,
            r is Ok ==> *self == TaggedValue::Sequence(*r->Ok_0),
            r is Err ==> r->Err_0.kind == ErrorKind::ShapeMismatch,
    {
        match self {
            TaggedValue::Sequence(items) => Ok(items),
            _ => Err(BlockError::new(ErrorKind::ShapeMismatch, "Expected a sequence value")),
        }
    }

    /// Conversion to a table: succeeds iff the value is a `Table`.
    pub fn as_table(&self) -> (r: Result<&Vec<TableEntry>, BlockError>)
        ensures
            r is Ok <==> self.shape() == Shape::Table,
            r is Ok ==> *self == TaggedValue::Table(*r->Ok_0),
            r is Err ==> r->Err_0.kind == ErrorKind::ShapeMismatch,
    {
        match self {
            TaggedValue::Table(entries) => Ok(entries),
            _ => Err(BlockError::new(ErrorKind::ShapeMismatch, "Expected a table value")),
        }
    }

    /// Conversion to a native-object reference: succeeds iff the value is an
    /// `Object`. This yields only the untrusted reference; interpreting it
    /// requires the type-tag check done by the context's object lookups.
    pub fn as_object(&self) -> (r: Result<ObjectRef, BlockError>)
        ensures
            r is Ok <==> self.shape() == Shape::Object,
            r is Ok ==> *self == TaggedValue::Object(r->Ok_0),
            r is Err ==> r->Err_0.kind == ErrorKind::ShapeMismatch,
    {
        match self {
            TaggedValue::Object(o) => Ok(*o),
            _ => Err(BlockError::new(ErrorKind::ShapeMismatch, "Expected a native object value")),
        }
    }

    /// An explicit deep copy: the result shares no owned storage with `self`,
    /// so a block's output buffer stays intact however the input is mutated
    /// afterwards.
    pub fn deep_clone(&self) -> (r: TaggedValue)
        ensures
            r@ == self@,
            r.shape() == self.shape(),
        decreases *self,
    {
        match self {
            TaggedValue::Null => TaggedValue::Null,
            TaggedValue::Bool(b) => TaggedValue::Bool(*b),
            TaggedValue::Int(i) => TaggedValue::Int(*i),
            TaggedValue::Vector3(v) => TaggedValue::Vector3(*v),
            TaggedValue::Str(s) => TaggedValue::Str(s.clone()),
            TaggedValue::Bytes(b) => TaggedValue::Bytes(copy_bytes(b)),
            TaggedValue::Sequence(items) => TaggedValue::Sequence(deep_clone_list(items)),
            TaggedValue::Table(entries) => TaggedValue::Table(deep_clone_table(entries)),
            TaggedValue::Object(o) => TaggedValue::Object(*o),
        }
    }
}

/// Deep-copy every element of a value list.
pub fn deep_clone_list(items: &Vec<TaggedValue>) -> (r: Vec<TaggedValue>)
    ensures
        models_of(r@) == models_of(items@),
    decreases *items,
{
    let n = items.len();
    let mut out: Vec<TaggedValue> = Vec::new();
    let mut i: usize = 0;
    while i < n
        invariant
            i <= n,
            n == items@.len(),
            out@.len() == i,
            forall|j: int| 0 <= j < i ==> out@[j]@ == items@[j]@,
        decreases n - i,
    {
        proof {
            assert(decreases_to!(*items => items[i as int]));
        }
        out.push(items[i].deep_clone());
        i += 1;
    }
    proof {
        lemma_models_of(out@);
        lemma_models_of(items@);
        assert(models_of(out@) =~= models_of(items@));
    }
    out
}

/// Deep-copy every entry of a table.
pub fn deep_clone_table(entries: &Vec<TableEntry>) -> (r: Vec<TableEntry>)
    ensures
        table_models_of(r@) == table_models_of(entries@),
    decreases *entries,
{
    let n = entries.len();
    let mut out: Vec<TableEntry> = Vec::new();
    let mut i: usize = 0;
    while i < n
        invariant
            i <= n,
            n == entries@.len(),
            out@.len() == i,
            forall|j: int| #![all_triggers] 0 <= j < i ==> out@[j].key@ == entries@[j].key@
                && out@[j].value@ == entries@[j].value@,
        decreases n - i,
    {
        proof {
            assert(decreases_to!(*entries => entries[i as int]));
        }
        let entry = TableEntry { key: entries[i].key.clone(), value: entries[i].value.deep_clone() };
        out.push(entry);
        i += 1;
    }
    proof {
        lemma_table_models_of(out@);
        lemma_table_models_of(entries@);
        assert(table_models_of(out@) =~= table_models_of(entries@));
    }
    out
}

/// Copy a byte buffer element by element.
pub fn copy_bytes(b: &Vec<u8>) -> (r: Vec<u8>)
    ensures
        r@ == b@,
{
    let n = b.len();
    let mut out: Vec<u8> = Vec::new();
    let mut i: usize = 0;
    while i < n
        invariant
            i <= n,
            n == b@.len(),
            out@.len() == i,
            forall|j: int| 0 <= j < i ==> out@[j] == b@[j],
        decreases n - i,
    {
        out.push(b[i]);
        i += 1;
    }
    assert(out@ =~= b@);
    out
}

} // verus!
