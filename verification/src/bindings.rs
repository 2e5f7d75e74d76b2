//! Parameter bindings for one instantiation of a parameterized pattern.
//!
//! A binding maps a declared parameter name to either a resolved argument
//! pattern or a fully-resolved literal value. Bindings are created fresh
//! per instantiation and immutable thereafter; sibling instantiations never
//! share them.

use vstd::prelude::*;

use crate::pattern::{LiteralValue, Pattern, SpecPattern};
use crate::value::SpecValue;

verus! {

/// What a parameter name resolves to.
#[derive(Debug, PartialEq, Eq)]
pub enum BoundValue {
    /// The argument was a sub-pattern, kept for lazy evaluation.
    Pat(Pattern),
    /// The argument was a literal, fully resolved to its value.
    Val(LiteralValue),
}

/// The mathematical model of a [`BoundValue`].
pub enum SpecBound {
    Pat(SpecPattern),
    Val(SpecValue),
}

impl BoundValue {
    /// The model of this bound value.
    pub open spec fn model(self) -> SpecBound {
        match self {
            BoundValue::Pat(p) => SpecBound::Pat(p.model()),
            BoundValue::Val(v) => SpecBound::Val(v.model()),
        }
    }
}

/// One name/value entry of a bindings scope.
#[derive(Debug, PartialEq, Eq)]
pub struct Binding {
    pub name: String,
    pub bound: BoundValue,
}

/// The mathematical model of a bindings scope: name/value pairs in
/// declaration order.
pub type SpecBindings = Seq<(Seq<char>, SpecBound)>;

/// What a name resolves to in a modelled bindings scope: the first entry
/// with that name wins.
pub open spec fn spec_bindings_get(b: SpecBindings, name: Seq<char>) -> Option<SpecBound>
    decreases b,
{
    if b.len() == 0 {
        None
    } else if b[0].0 == name {
        Some(b[0].1)
    } else {
        spec_bindings_get(b.drop_first(), name)
    }
}

/// The resolved arguments of one instantiation of a parameterized pattern.
#[derive(Debug, PartialEq, Eq)]
pub struct Bindings {
    entries: Vec<Binding>,
}

impl Bindings {
    /// The model of this bindings scope.
    pub closed spec fn model(self) -> SpecBindings {
        model_bindings(self.entries@)
    }

    /// An empty scope, for entries that declare no parameters.
    pub fn fresh() -> (r: Bindings)
        ensures
            r.model() == Seq::<(Seq<char>, SpecBound)>::empty(),
    {
        let r = Bindings { entries: Vec::new() };
        proof {
            assert(r.model() =~= Seq::<(Seq<char>, SpecBound)>::empty());
        }
        r
    }

    /// Appends one binding to the scope, used while an instantiation is
    /// being assembled.
    pub fn push(&mut self, name: String, bound: BoundValue)
        ensures
            final(self).model() == old(self).model() + seq![(name@, bound.model())],
    {
        let ghost before = self.entries@;
        self.entries.push(Binding { name, bound });
        proof {
            lemma_model_bindings_push(before, self.entries@[before.len() as int]);
            assert(self.entries@.drop_last() =~= before);
        }
    }

    /// What a name resolves to in this scope; probing an unknown name
    /// yields nothing rather than an error, since callers probe optionally.
    pub fn get(&self, name: &str) -> (r: Option<&BoundValue>)
        ensures
            match r {
                Some(b) => spec_bindings_get(self.model(), name@) == Some(b.model()),
                None => spec_bindings_get(self.model(), name@) is None,
            },
    {
        let key = name.to_owned();
        let mut i: usize = 0;
        proof {
            lemma_model_bindings(self.entries@);
            assert(self.model().skip(0) =~= self.model());
        }
        while i < self.entries.len()
            invariant
                i <= self.entries.len(),
                key@ == name@,
                model_bindings(self.entries@).len() == self.entries@.len(),
                forall|j: int|
                    0 <= j < self.entries@.len() ==> #[trigger] model_bindings(self.entries@)[j]
                        == (self.entries@[j].name@, self.entries@[j].bound.model()),
                forall|j: int| 0 <= j < i ==> #[trigger] self.entries@[j].name@ != name@,
                spec_bindings_get_from(self.model(), name@, i as int),
            decreases self.entries.len() - i,
        {
            if self.entries[i].name == key {
                proof {
                    lemma_bindings_get_found(self.model(), name@, i as int);
                }
                return Some(&self.entries[i].bound);
            }
            proof {
                lemma_bindings_get_skip(self.model(), name@, i as int);
            }
            i = i + 1;
        }
        proof {
            lemma_bindings_get_missing(self.model(), name@);
        }
        None
    }
}

/// The models of a sequence of bindings.
pub open spec fn model_bindings(s: Seq<Binding>) -> SpecBindings
    decreases s,
{
    if s.len() == 0 {
        Seq::empty()
    } else {
        seq![(s[0].name@, s[0].bound.model())] + model_bindings(s.drop_first())
    }
}

/// The models of a sequence of bindings, entry by entry.
pub proof fn lemma_model_bindings(s: Seq<Binding>)
    ensures
        model_bindings(s).len() == s.len(),
        forall|i: int|
            0 <= i < s.len() ==> #[trigger] model_bindings(s)[i] == (s[i].name@, s[i].bound.model()),
    decreases s.len(),
{
    if s.len() > 0 {
        lemma_model_bindings(s.drop_first());
    }
}

/// Appending one binding appends one modelled entry.
proof fn lemma_model_bindings_push(s: Seq<Binding>, b: Binding)
    ensures
        model_bindings(s.push(b)) == model_bindings(s) + seq![(b.name@, b.bound.model())],
    decreases s.len(),
{
    if s.len() == 0 {
        reveal_with_fuel(model_bindings, 3);
        assert(s.push(b).drop_first() =~= Seq::empty());
        assert(model_bindings(s.push(b)) =~= model_bindings(s) + seq![(b.name@, b.bound.model())]);
    } else {
        lemma_model_bindings_push(s.drop_first(), b);
        assert(s.push(b).drop_first() =~= s.drop_first().push(b));
        assert(model_bindings(s.push(b)) =~= model_bindings(s) + seq![(b.name@, b.bound.model())]);
    }
}

/// Whether the search for `name` is still open after the first `from`
/// entries: resolution restricted to the tail.
pub open spec fn spec_bindings_get_from(b: SpecBindings, name: Seq<char>, from: int) -> bool {
    spec_bindings_get(b, name) == spec_bindings_get(b.skip(from), name)
}

/// While no entry before `i` matched, resolution equals resolution from `i`.
proof fn lemma_bindings_get_skip(b: SpecBindings, name: Seq<char>, i: int)
    requires
        0 <= i < b.len(),
        b[i].0 != name,
        spec_bindings_get_from(b, name, i),
    ensures
        spec_bindings_get_from(b, name, i + 1),
{
    assert(b.skip(i).drop_first() =~= b.skip(i + 1));
    assert(b.skip(i).len() > 0);
    assert(b.skip(i)[0] == b[i]);
}

/// When entry `i` matches and the search reached it, it is the resolution.
proof fn lemma_bindings_get_found(b: SpecBindings, name: Seq<char>, i: int)
    requires
        0 <= i < b.len(),
        b[i].0 == name,
        spec_bindings_get_from(b, name, i),
    ensures
        spec_bindings_get(b, name) == Some(b[i].1),
{
    assert(b.skip(i).len() > 0);
    assert(b.skip(i)[0] == b[i]);
}

/// When the search ran past the end, the name resolves to nothing.
proof fn lemma_bindings_get_missing(b: SpecBindings, name: Seq<char>)
    requires
        spec_bindings_get_from(b, name, b.len() as int),
    ensures
        spec_bindings_get(b, name) is None,
{
    assert(b.skip(b.len() as int) =~= Seq::<(Seq<char>, SpecBound)>::empty());
}

} // verus!
