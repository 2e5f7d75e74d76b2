//! The dynamic value model that patterns are evaluated against.
//!
//! A [`RuntimeValue`] is a structured, immutable document: null, boolean,
//! integer, fixed-point decimal, text, byte sequence, ordered list, or a
//! string-keyed mapping. Its mathematical model is [`SpecValue`], in which
//! text is a sequence of characters and collections are sequences.

use vstd::prelude::*;

verus! {

/// The coarse kind of a [`RuntimeValue`], used by patterns that only inspect
/// the shape of a value and by functions that declare their expected input.
#[derive(Clone, Copy, Debug, PartialEq, Eq, Structural)]
pub enum ValueKind {
    Null,
    Boolean,
    Integer,
    Decimal,
    Text,
    Octets,
    List,
    Object,
}

/// A fixed-point decimal: `unscaled * 10^(-scale)`.
///
/// Kept as a pair of integers so that decimal values stay within the plain
/// data the engine can reason about.
#[derive(Clone, Copy, Debug, PartialEq, Eq, Structural)]
pub struct Decimal {
    pub unscaled: i64,
    pub scale: u32,
}

/// One key/value entry of an object value.
#[derive(Debug, PartialEq, Eq)]
pub struct ObjectField {
    pub key: String,
    pub value: RuntimeValue,
}

/// A structured input value: the document a pattern is evaluated against.
///
/// Values are immutable once constructed; evaluation never mutates its
/// input, it can only produce a fresh transformed value.
#[derive(Debug, PartialEq, Eq)]
pub enum RuntimeValue {
    Null,
    Boolean(bool),
    Integer(i64),
    Decimal(Decimal),
    Text(String),
    Octets(Vec<u8>),
    List(Vec<RuntimeValue>),
    Object(Vec<ObjectField>),
}

/// The mathematical model of a [`RuntimeValue`].
pub enum SpecValue {
    Null,
    Boolean(bool),
    Integer(i64),
    Decimal(Decimal),
    Text(Seq<char>),
    Octets(Seq<u8>),
    List(Seq<SpecValue>),
    Object(Seq<(Seq<char>, SpecValue)>),
}

/// The model of a sequence of values: each element replaced by its model.
pub open spec fn model_seq(s: Seq<RuntimeValue>) -> Seq<SpecValue>
    decreases s,
{
    if s.len() == 0 {
        Seq::empty()
    } else {
        seq![s[0].model()] + model_seq(s.drop_first())
    }
}

/// The model of a sequence of object fields: each entry as a key/model pair.
pub open spec fn model_fields(s: Seq<ObjectField>) -> Seq<(Seq<char>, SpecValue)>
    decreases s,
{
    if s.len() == 0 {
        Seq::empty()
    } else {
        seq![(s[0].key@, s[0].value.model())] + model_fields(s.drop_first())
    }
}

/// The models of a sequence of values, element by element.
pub proof fn lemma_model_seq(s: Seq<RuntimeValue>)
    ensures
        model_seq(s).len() == s.len(),
        forall|i: int| 0 <= i < s.len() ==> #[trigger] model_seq(s)[i] == s[i].model(),
    decreases s.len(),
{
    if s.len() > 0 {
        lemma_model_seq(s.drop_first());
    }
}

/// The models of a sequence of object fields, entry by entry.
pub proof fn lemma_model_fields(s: Seq<ObjectField>)
    ensures
        model_fields(s).len() == s.len(),
        forall|i: int|
            0 <= i < s.len() ==> #[trigger] model_fields(s)[i] == (s[i].key@, s[i].value.model()),
    decreases s.len(),
{
    if s.len() > 0 {
        lemma_model_fields(s.drop_first());
    }
}

impl RuntimeValue {
    /// The model of this value.
    pub open spec fn model(self) -> SpecValue
        decreases self,
    {
        match self {
            RuntimeValue::Null => SpecValue::Null,
            RuntimeValue::Boolean(b) => SpecValue::Boolean(b),
            RuntimeValue::Integer(i) => SpecValue::Integer(i),
            RuntimeValue::Decimal(d) => SpecValue::Decimal(d),
            RuntimeValue::Text(s) => SpecValue::Text(s@),
            RuntimeValue::Octets(b) => SpecValue::Octets(b@),
            RuntimeValue::List(items) => SpecValue::List(model_seq(items@)),
            RuntimeValue::Object(fields) => SpecValue::Object(model_fields(fields@)),
        }
    }

    /// The coarse kind of this value.
    pub open spec fn spec_kind(self) -> ValueKind {
        match self {
            RuntimeValue::Null => ValueKind::Null,
            RuntimeValue::Boolean(_) => ValueKind::Boolean,
            RuntimeValue::Integer(_) => ValueKind::Integer,
            RuntimeValue::Decimal(_) => ValueKind::Decimal,
            RuntimeValue::Text(_) => ValueKind::Text,
            RuntimeValue::Octets(_) => ValueKind::Octets,
            RuntimeValue::List(_) => ValueKind::List,
            RuntimeValue::Object(_) => ValueKind::Object,
        }
    }

    /// The coarse kind of this value.
    pub fn kind(&self) -> (k: ValueKind)
        ensures
            k == self.spec_kind(),
    {
        match self {
            RuntimeValue::Null => ValueKind::Null,
            RuntimeValue::Boolean(_) => ValueKind::Boolean,
            RuntimeValue::Integer(_) => ValueKind::Integer,
            RuntimeValue::Decimal(_) => ValueKind::Decimal,
            RuntimeValue::Text(_) => ValueKind::Text,
            RuntimeValue::Octets(_) => ValueKind::Octets,
            RuntimeValue::List(_) => ValueKind::List,
            RuntimeValue::Object(_) => ValueKind::Object,
        }
    }

    /// The text held by this value, if it is text.
    pub fn try_get_text(&self) -> (r: Option<&String>)
        ensures
            match r {
                Some(s) => *self matches RuntimeValue::Text(t) && t == s,
                None => !(*self matches RuntimeValue::Text(_)),
            },
    {
        match self {
            RuntimeValue::Text(s) => Some(s),
            _ => None,
        }
    }

    /// The byte sequence held by this value, if it holds one.
    pub fn try_get_octets(&self) -> (r: Option<&Vec<u8>>)
        ensures
            match r {
                Some(b) => *self matches RuntimeValue::Octets(o) && o == b,
                None => !(*self matches RuntimeValue::Octets(_)),
            },
    {
        match self {
            RuntimeValue::Octets(b) => Some(b),
            _ => None,
        }
    }

    /// A value built from borrowed text.
    pub fn text(s: &str) -> (r: RuntimeValue)
        ensures
            r.model() == SpecValue::Text(s@),
    {
        RuntimeValue::Text(s.to_owned())
    }

    /// A deep copy of this value, equal to it in the model.
    pub fn duplicate(&self) -> (r: RuntimeValue)
        ensures
            r.model() == self.model(),
        decreases *self,
    {
        match self {
            RuntimeValue::Null => RuntimeValue::Null,
            RuntimeValue::Boolean(b) => RuntimeValue::Boolean(*b),
            RuntimeValue::Integer(i) => RuntimeValue::Integer(*i),
            RuntimeValue::Decimal(d) => RuntimeValue::Decimal(*d),
            RuntimeValue::Text(s) => RuntimeValue::Text(s.clone()),
            RuntimeValue::Octets(b) => {
                let mut out: Vec<u8> = Vec::new();
                let mut i: usize = 0;
                while i < b.len()
                    invariant
                        i <= b.len(),
                        out@ =~= b@.subrange(0, i as int),
                    decreases b.len() - i,
                {
                    out.push(b[i]);
                    i = i + 1;
                }
                proof {
                    assert(out@ =~= b@);
                }
                RuntimeValue::Octets(out)
            },
            RuntimeValue::List(items) => {
                let mut out: Vec<RuntimeValue> = Vec::new();
                let mut i: usize = 0;
                while i < items.len()
                    invariant
                        *self == RuntimeValue::List(*items),
                        i <= items.len(),
                        out@.len() == i,
                        forall|j: int|
                            0 <= j < i ==> #[trigger] out@[j].model() == items@[j].model(),
                    decreases items.len() - i,
                {
                    proof {
                        broadcast use vstd::std_specs::vec::group_vec_axioms;

                        assert(decreases_to!(*self => self->List_0));
                        assert(decreases_to!(*items => items[i as int]));
                    }
                    let c = items[i].duplicate();
                    out.push(c);
                    i = i + 1;
                }
                proof {
                    lemma_model_seq(out@);
                    lemma_model_seq(items@);
                    assert(model_seq(out@) =~= model_seq(items@));
                }
                RuntimeValue::List(out)
            },
            RuntimeValue::Object(fields) => {
                let mut out: Vec<ObjectField> = Vec::new();
                let mut i: usize = 0;
                while i < fields.len()
                    invariant
                        *self == RuntimeValue::Object(*fields),
                        i <= fields.len(),
                        out@.len() == i,
                        forall|j: int|
                            0 <= j < i ==> #[trigger] out@[j].key@ == fields@[j].key@
                                && out@[j].value.model() == fields@[j].value.model(),
                    decreases fields.len() - i,
                {
                    proof {
                        broadcast use vstd::std_specs::vec::group_vec_axioms;

                        assert(decreases_to!(*self => self->Object_0));
                        assert(decreases_to!(*fields => fields[i as int]));
                        assert(decreases_to!(fields[i as int] => fields[i as int].value));
                    }
                    let c = fields[i].value.duplicate();
                    let k = fields[i].key.clone();
                    out.push(ObjectField { key: k, value: c });
                    i = i + 1;
                }
                proof {
                    lemma_model_fields(out@);
                    lemma_model_fields(fields@);
                    assert(model_fields(out@) =~= model_fields(fields@));
                }
                RuntimeValue::Object(out)
            },
        }
    }
}

} // verus!
